use vanity_search::matching::bytes_match;
use vanity_search::matching::matches_vanity;

#[test]
fn empty_affixes_match_any_address() {
    assert!(matches_vanity("1BoatSLRHtKNngkdXEeobR76b53LETtpyT", "", ""));
    assert!(matches_vanity("x", "", ""));
    assert!(matches_vanity("", "", ""));
}

#[test]
fn match_is_case_insensitive() {
    assert!(matches_vanity("1AbCdE", "1abc", "cde"));
    assert!(matches_vanity("1AbCdE", "1ABC", "CDE"));
    assert!(matches_vanity("1ABC", "1abc", ""));
    assert!(matches_vanity("1abc", "1ABC", ""));
}

#[test]
fn wrong_prefix_or_suffix_does_not_match() {
    assert!(!matches_vanity("1abc", "2", ""));
    assert!(!matches_vanity("1abc", "", "d"));
    assert!(!matches_vanity("1abc", "1abd", "abc"));
}

#[test]
fn oversized_affix_never_matches() {
    assert!(!matches_vanity("abc", "abcd", ""));
    assert!(!matches_vanity("abc", "", "zabc"));
    assert!(!matches_vanity("", "a", ""));
}

#[test]
fn byte_level_prefix_and_suffix() {
    assert!(bytes_match(b"hello", b"he", b"lo"));
    assert!(bytes_match(b"hello", b"", b""));
    assert!(!bytes_match(b"hello", b"el", b"lo"));
    assert!(!bytes_match(b"hello", b"he", b"ll"));
    assert!(!bytes_match(b"he", b"hel", b""));
}
