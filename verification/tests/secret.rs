use key_grinder::parse_secret_key;

#[test]
fn plain_array_parses() {
    assert_eq!(parse_secret_key("[1,2,3]"), Some(vec![1, 2, 3]));
}

#[test]
fn empty_array_parses_to_no_bytes() {
    assert_eq!(parse_secret_key("[]"), Some(Vec::new()));
}

#[test]
fn numbers_are_narrowed_to_their_low_byte() {
    assert_eq!(parse_secret_key("[256, 255, 257]"), Some(vec![0, 255, 1]));
}

#[test]
fn whitespace_is_tolerated() {
    assert_eq!(parse_secret_key(" [ 10 , 20 ] "), Some(vec![10, 20]));
}

#[test]
fn broken_json_is_rejected() {
    assert_eq!(parse_secret_key("not json"), None);
    assert_eq!(parse_secret_key("[1, 2"), None);
}

#[test]
fn non_array_documents_are_rejected() {
    assert_eq!(parse_secret_key("{\"key\": 1}"), None);
    assert_eq!(parse_secret_key("42"), None);
    assert_eq!(parse_secret_key("\"[1,2]\""), None);
}

#[test]
fn non_integer_elements_are_rejected() {
    assert_eq!(parse_secret_key("[1, -2]"), None);
    assert_eq!(parse_secret_key("[1, 2.5]"), None);
    assert_eq!(parse_secret_key("[1, \"2\"]"), None);
    assert_eq!(parse_secret_key("[1, null]"), None);
}
