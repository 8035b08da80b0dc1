use key_grinder::address_matches;

#[test]
fn mixed_case_address_matches_lower_prefix() {
    // A candidate whose address is "AnZaXyz..." matches target prefix "anza".
    assert!(address_matches(b"AnZaXyzQq11", b"anza"));
}

#[test]
fn already_lower_address_matches() {
    assert!(address_matches(b"anzaXyz", b"anza"));
}

#[test]
fn empty_prefix_matches_everything() {
    assert!(address_matches(b"AnZaXyzQq11", b""));
    assert!(address_matches(b"", b""));
}

#[test]
fn prefix_longer_than_address_never_matches() {
    assert!(!address_matches(b"an", b"anza"));
}

#[test]
fn prefix_is_taken_as_given() {
    // Only the address is case-normalized; an upper-case prefix never meets
    // a lowercased address.
    assert!(!address_matches(b"AnZaXyz", b"ANZA"));
}

#[test]
fn non_letters_are_left_alone() {
    assert!(address_matches(b"1Abc9", b"1abc9"));
    assert!(!address_matches(b"9Abc", b"1abc"));
}

#[test]
fn mismatch_in_first_byte_is_rejected() {
    assert!(!address_matches(b"Bnza11", b"anza"));
}
