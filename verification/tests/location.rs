use newsmap_core::geo::{guess_from_chars, guess_location_from_text, Coordinate};
use newsmap_core::text::{contains_str, str_chars};

fn guess(text: &str) -> (i64, i64) {
    let c: Coordinate = guess_location_from_text(text);
    (c.lat_e4, c.lng_e4)
}

#[test]
fn first_matching_rule_wins() {
    assert_eq!(guess("Protests spread across Kyiv and Moscow"), (557558, 376173));
}

#[test]
fn kyiv_alone_matches_kyiv() {
    assert_eq!(guess("Rally in central Kyiv today"), (504501, 305234));
}

#[test]
fn unknown_text_defaults_to_mid_atlantic() {
    assert_eq!(guess("no known place mentioned"), (300000, -300000));
}

#[test]
fn matching_is_case_insensitive() {
    assert_eq!(guess("LONDON"), (515074, -1278));
    assert_eq!(guess("London"), (515074, -1278));
    assert_eq!(guess("london"), (515074, -1278));
}

#[test]
fn washington_outranks_later_rules() {
    assert_eq!(guess("Talks in London and Washington"), (388951, -770364));
}

#[test]
fn every_rule_returns_its_coordinate() {
    assert_eq!(guess("white house briefing"), (388951, -770364));
    assert_eq!(guess("nyc subway"), (407128, -740060));
    assert_eq!(guess("paris"), (488566, 23522));
    assert_eq!(guess("moscow"), (557558, 376173));
    assert_eq!(guess("news from china"), (399042, 1164074));
    assert_eq!(guess("beijing"), (399042, 1164074));
    assert_eq!(guess("ukraine"), (504501, 305234));
    assert_eq!(guess("kiev"), (504501, 305234));
    assert_eq!(guess("jerusalem"), (317683, 352137));
    assert_eq!(guess("israel"), (317683, 352137));
    assert_eq!(guess("gaza"), (315000, 344667));
    assert_eq!(guess("tehran"), (356892, 513890));
    assert_eq!(guess("iran"), (356892, 513890));
}

#[test]
fn keywords_match_as_plain_substrings() {
    // "broadcast" contains "dc", so the first rule fires.
    assert_eq!(guess("broadcast schedule"), (388951, -770364));
    // "iranian" contains "iran".
    assert_eq!(guess("iranian delegation"), (356892, 513890));
}

#[test]
fn substring_search_finds_patterns() {
    let t = str_chars("the quick brown fox");
    assert!(contains_str(&t, "quick"));
    assert!(contains_str(&t, "the"));
    assert!(contains_str(&t, "fox"));
    assert!(contains_str(&t, ""));
    assert!(!contains_str(&t, "quack"));
    assert!(!contains_str(&t, "the quick brown fox jumps"));
}

#[test]
fn unicode_text_is_searched_by_characters() {
    let t = str_chars("nouvelles de Paris — été");
    assert!(contains_str(&t, "paris") == false);
    assert!(contains_str(&t, "Paris"));
    assert!(contains_str(&t, "été"));
}
