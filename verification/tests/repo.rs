use stellar_aid::repo::display_name;
use stellar_aid::text::{i128_to_decimal, is_blank, u64_to_decimal};

#[test]
fn anonymous_donors_are_named_so() {
    assert_eq!(display_name("GANON...".to_string(), None), "Anonymous Donor");
    assert_eq!(display_name("GABC...".to_string(), Some(1)), "GABC...");
}

#[test]
fn decimal_forms_match_display() {
    for n in [0u64, 7, 10, 99, 100, 12345, u64::MAX] {
        assert_eq!(u64_to_decimal(n), n.to_string());
    }
    for n in [0i128, -1, 42, -1000, i128::MAX, i128::MIN] {
        assert_eq!(i128_to_decimal(n), n.to_string());
    }
}

#[test]
fn blank_matches_trim() {
    for s in ["", " ", "\t\r\n", "\u{a0}\u{2003}", " a ", "x", "\u{200b}"] {
        assert_eq!(is_blank(s), s.trim().is_empty(), "{s:?}");
    }
}
