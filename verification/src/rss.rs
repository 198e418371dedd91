//! The feed fetcher's pure half: normalizing parsed feed entries into at
//! most ten items, in order, with a fixed fallback for every missing field.
//! The shell fetches the document and parses it at its edge (the feed
//! parser can abort on some media duration fields, so its call cannot carry
//! a sound contract here), handing the entries over as plain values; the
//! clock behind the published-date fallback stays behind a trusted boundary
//! in this module.

use vstd::prelude::*;
use vstd::string::*;

verus! {

/// What the library takes of one parsed feed entry: each field is `None`
/// where the source document had nothing for it.
#[derive(Debug, Clone)]
pub struct FeedEntry {
    pub title: Option<String>,
    pub summary: Option<String>,
    pub link: Option<String>,
    pub published: Option<String>,
}

/// A normalized feed item: every field filled, the geolocation left open.
#[derive(Debug, Clone)]
pub struct RSSItem {
    pub title: String,
    pub description: String,
    pub link: String,
    pub published: String,
    pub lat_e4: Option<i64>,
    pub lng_e4: Option<i64>,
}

/// The mathematical content of a `FeedEntry`: title, summary, first link
/// and published timestamp, each optional.
pub type EntryData = (Option<Seq<char>>, Option<Seq<char>>, Option<Seq<char>>, Option<Seq<char>>);

/// The content of a `FeedEntry`, as a tuple of optional character sequences.
pub open spec fn entry_view(e: FeedEntry) -> EntryData {
    (
        match e.title {
            Some(t) => Some(t@),
            None => None,
        },
        match e.summary {
            Some(s) => Some(s@),
            None => None,
        },
        match e.link {
            Some(l) => Some(l@),
            None => None,
        },
        match e.published {
            Some(p) => Some(p@),
            None => None,
        },
    )
}

/// The contents of a sequence of entries, element by element.
pub open spec fn entries_data(v: Seq<FeedEntry>) -> Seq<EntryData> {
    v.map_values(|e: FeedEntry| entry_view(e))
}

/// Relies on `chrono::Utc::now` and `chrono::DateTime::to_rfc3339`: the
/// current wall-clock time as an RFC 3339 timestamp. Nothing is promised of
/// the result: it changes from call to call.
#[verifier::external_body]
fn now_rfc3339() -> String {
    chrono::Utc::now().to_rfc3339()
}

/// A placeholder: no feed format's geo-extension fields are inspected, so
/// the guessed coordinates of an entry are always absent.
pub fn extract_geolocation(entry: &FeedEntry) -> (r: (Option<i64>, Option<i64>))
    ensures
        r.0 is None,
        r.1 is None,
{
    (None, None)
}

/// The fallback rules, one field at a time: a missing title becomes
/// "Untitled", a missing summary "No description", a missing link the empty
/// string, a missing published time the timestamp `now`; the geolocation is
/// always left open.
pub open spec fn item_matches(r: RSSItem, e: EntryData, now: Seq<char>) -> bool {
    &&& r.title@ == (match e.0 {
        Some(t) => t,
        None => "Untitled"@,
    })
    &&& r.description@ == (match e.1 {
        Some(d) => d,
        None => "No description"@,
    })
    &&& r.link@ == (match e.2 {
        Some(l) => l,
        None => Seq::<char>::empty(),
    })
    &&& r.published@ == (match e.3 {
        Some(p) => p,
        None => now,
    })
    &&& r.lat_e4 is None
    &&& r.lng_e4 is None
}

/// Every item of `items` is the normalization of the entry at the same
/// position of `entries`, with `now` as the published fallback.
pub open spec fn items_match(items: Seq<RSSItem>, entries: Seq<EntryData>, now: Seq<char>) -> bool {
    forall|i: int|
        0 <= i < items.len() && i < entries.len() ==> item_matches(
            #[trigger] items[i],
            entries[i],
            now,
        )
}

/// At most ten of `n`.
pub open spec fn cap_ten(n: nat) -> nat {
    if n < 10 {
        n
    } else {
        10
    }
}

/// Normalizes one entry by the fallback rules of `item_matches`.
pub fn entry_to_item(entry: &FeedEntry, now: &str) -> (r: RSSItem)
    ensures
        item_matches(r, entry_view(*entry), now@),
{
    let title: String = match &entry.title {
        Some(t) => t.clone(),
        None => String::from_str("Untitled"),
    };
    let description: String = match &entry.summary {
        Some(s) => s.clone(),
        None => String::from_str("No description"),
    };
    let link: String = match &entry.link {
        Some(l) => l.clone(),
        None => String::from_str(""),
    };
    let published: String = match &entry.published {
        Some(p) => p.clone(),
        None => String::from_str(now),
    };
    let (lat_e4, lng_e4): (Option<i64>, Option<i64>) = extract_geolocation(entry);
    proof {
        reveal_strlit("");
        assert(""@ =~= Seq::<char>::empty());
    }
    RSSItem { title, description, link, published, lat_e4, lng_e4 }
}

/// Normalizes the first ten entries, in order; later entries are dropped.
pub fn map_entries(entries: &Vec<FeedEntry>, now: &str) -> (r: Vec<RSSItem>)
    ensures
        r@.len() == cap_ten(entries@.len()),
        forall|i: int|
            0 <= i < r@.len() ==> item_matches(#[trigger] r@[i], entry_view(entries@[i]), now@),
{
    let cap: usize = if entries.len() < 10 {
        entries.len()
    } else {
        10
    };
    let mut r: Vec<RSSItem> = Vec::new();
    let mut i: usize = 0;
    while i < cap
        invariant
            cap == cap_ten(entries@.len()),
            cap <= entries@.len(),
            i <= cap,
            r@.len() == i,
            forall|k: int|
                0 <= k < i ==> item_matches(#[trigger] r@[k], entry_view(entries@[k]), now@),
        decreases cap - i,
    {
        let item: RSSItem = entry_to_item(&entries[i], now);
        r.push(item);
        i = i + 1;
    }
    r
}

/// Normalizes a parsed feed's entries: the first ten stand in order, every
/// field of every item is filled by the fallback rules, and every absent
/// published date is replaced by one shared wall-clock timestamp read at
/// the call.
pub fn feed_items(entries: Vec<FeedEntry>) -> (r: Vec<RSSItem>)
    ensures
        r@.len() == cap_ten(entries@.len()),
        exists|now: Seq<char>| #[trigger] items_match(r@, entries_data(entries@), now),
{
    let now: String = now_rfc3339();
    let items: Vec<RSSItem> = map_entries(&entries, now.as_str());
    proof {
        let data: Seq<EntryData> = entries_data(entries@);
        assert(data.len() == entries@.len());
        assert(forall|i: int| 0 <= i < data.len() ==> #[trigger] data[i] == entry_view(entries@[i]));
        assert(items_match(items@, data, now@));
    }
    items
}

/// The error string for a document that failed to parse as a feed, with the
/// underlying cause appended.
pub fn parse_error_message(cause: &str) -> (r: String)
    ensures
        r@ == "Failed to parse RSS feed: "@ + cause@,
{
    let mut s: String = String::from_str("Failed to parse RSS feed: ");
    s.append(cause);
    s
}

/// The error string for a feed whose retrieval failed at the transport
/// level, with the underlying cause appended.
pub fn fetch_error_message(cause: &str) -> (r: String)
    ensures
        r@ == "Failed to fetch RSS feed: "@ + cause@,
{
    let mut s: String = String::from_str("Failed to fetch RSS feed: ");
    s.append(cause);
    s
}

/// The error string for a feed whose body could not be read as text, with
/// the underlying cause appended.
pub fn read_error_message(cause: &str) -> (r: String)
    ensures
        r@ == "Failed to read RSS feed content: "@ + cause@,
{
    let mut s: String = String::from_str("Failed to read RSS feed content: ");
    s.append(cause);
    s
}

} // verus!
