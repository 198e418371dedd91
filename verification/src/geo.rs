//! Keyword-based location guessing: scan a snippet of text for a fixed,
//! ordered table of place keywords and return the coordinate of the first
//! group that matches, or a mid-Atlantic default when none does.
//!
//! Coordinates are carried as integers scaled by ten thousand (four decimal
//! places), so that the table is exact and free of floating point.

use vstd::prelude::*;
use crate::text::{contains_sub, contains_str, str_chars};

verus! {

/// A latitude/longitude pair, each scaled by ten thousand: a `lat_e4` of
/// 388951 stands for a latitude of 38.8951 degrees.
#[derive(Clone, Copy, Debug, PartialEq, Eq, Structural)]
pub struct Coordinate {
    pub lat_e4: i64,
    pub lng_e4: i64,
}

/// The coordinate the keyword table assigns to the lower-cased text `t`:
/// the first keyword group, in priority order, with a member occurring in
/// `t` decides; no match falls through to the mid-Atlantic default.
pub open spec fn spec_guess(t: Seq<char>) -> Coordinate {
    if contains_sub(t, "washington"@) || contains_sub(t, "dc"@) || contains_sub(
        t,
        "white house"@,
    ) {
        Coordinate { lat_e4: 388951i64, lng_e4: -770364i64 }
    } else if contains_sub(t, "new york"@) || contains_sub(t, "nyc"@) {
        Coordinate { lat_e4: 407128i64, lng_e4: -740060i64 }
    } else if contains_sub(t, "london"@) {
        Coordinate { lat_e4: 515074i64, lng_e4: -1278i64 }
    } else if contains_sub(t, "paris"@) {
        Coordinate { lat_e4: 488566i64, lng_e4: 23522i64 }
    } else if contains_sub(t, "moscow"@) {
        Coordinate { lat_e4: 557558i64, lng_e4: 376173i64 }
    } else if contains_sub(t, "beijing"@) || contains_sub(t, "china"@) {
        Coordinate { lat_e4: 399042i64, lng_e4: 1164074i64 }
    } else if contains_sub(t, "ukraine"@) || contains_sub(t, "kyiv"@) || contains_sub(
        t,
        "kiev"@,
    ) {
        Coordinate { lat_e4: 504501i64, lng_e4: 305234i64 }
    } else if contains_sub(t, "israel"@) || contains_sub(t, "jerusalem"@) {
        Coordinate { lat_e4: 317683i64, lng_e4: 352137i64 }
    } else if contains_sub(t, "gaza"@) {
        Coordinate { lat_e4: 315000i64, lng_e4: 344667i64 }
    } else if contains_sub(t, "iran"@) || contains_sub(t, "tehran"@) {
        Coordinate { lat_e4: 356892i64, lng_e4: 513890i64 }
    } else {
        Coordinate { lat_e4: 300000i64, lng_e4: -300000i64 }
    }
}

/// The lowercase equivalent of `s`.
pub uninterp spec fn lower_of(s: Seq<char>) -> Seq<char>;

/// Relies on `str::to_lowercase`: the lowercase equivalent of `s`, which
/// depends on the characters of `s` alone.
#[verifier::external_body]
fn lowercase(s: &str) -> (r: String)
    ensures
        r@ == lower_of(s@),
{
    s.to_lowercase()
}

/// The table lookup on text that is already lower-cased.
pub fn guess_from_chars(t: &Vec<char>) -> (r: Coordinate)
    ensures
        r == spec_guess(t@),
{
    if contains_str(t, "washington") || contains_str(t, "dc") || contains_str(t, "white house") {
        Coordinate { lat_e4: 388951, lng_e4: -770364 }
    } else if contains_str(t, "new york") || contains_str(t, "nyc") {
        Coordinate { lat_e4: 407128, lng_e4: -740060 }
    } else if contains_str(t, "london") {
        Coordinate { lat_e4: 515074, lng_e4: -1278 }
    } else if contains_str(t, "paris") {
        Coordinate { lat_e4: 488566, lng_e4: 23522 }
    } else if contains_str(t, "moscow") {
        Coordinate { lat_e4: 557558, lng_e4: 376173 }
    } else if contains_str(t, "beijing") || contains_str(t, "china") {
        Coordinate { lat_e4: 399042, lng_e4: 1164074 }
    } else if contains_str(t, "ukraine") || contains_str(t, "kyiv") || contains_str(t, "kiev") {
        Coordinate { lat_e4: 504501, lng_e4: 305234 }
    } else if contains_str(t, "israel") || contains_str(t, "jerusalem") {
        Coordinate { lat_e4: 317683, lng_e4: 352137 }
    } else if contains_str(t, "gaza") {
        Coordinate { lat_e4: 315000, lng_e4: 344667 }
    } else if contains_str(t, "iran") || contains_str(t, "tehran") {
        Coordinate { lat_e4: 356892, lng_e4: 513890 }
    } else {
        Coordinate { lat_e4: 300000, lng_e4: -300000 }
    }
}

/// Lower-cases the text and looks it up in the keyword table; the result is
/// the table's verdict on the lower-cased text, so matching is insensitive
/// to the case of the input.
pub fn guess_location_from_text(text: &str) -> (r: Coordinate)
    ensures
        r == spec_guess(lower_of(text@)),
{
    let lowered: String = lowercase(text);
    let chars: Vec<char> = str_chars(lowered.as_str());
    guess_from_chars(&chars)
}

} // verus!
