use ship_compliant_v1::auth::basic_auth;

#[test]
fn encodes_username_and_password() {
    assert_eq!(basic_auth("user", Some("pass")), "Basic dXNlcjpwYXNz");
}

#[test]
fn encodes_username_without_password() {
    assert_eq!(basic_auth("user", None), "Basic dXNlcjo=");
}

#[test]
fn empty_password_matches_missing_password() {
    assert_eq!(basic_auth("user", Some("")), basic_auth("user", None));
}

#[test]
fn padding_covers_every_remainder() {
    // credential lengths 6, 7 and 8: one of each padding shape
    assert_eq!(basic_auth("ab", Some("cde")), "Basic YWI6Y2Rl");
    assert_eq!(basic_auth("abc", Some("cde")), "Basic YWJjOmNkZQ==");
    assert_eq!(basic_auth("abcd", Some("cde")), "Basic YWJjZDpjZGU=");
}

#[test]
fn empty_credentials_encode_the_separator_alone() {
    assert_eq!(basic_auth("", None), "Basic Og==");
}

#[test]
fn multibyte_credentials_encode_their_utf8_bytes() {
    // "é" is the two bytes 0xC3 0xA9 in UTF-8
    assert_eq!(basic_auth("é", Some("x")), "Basic w6k6eA==");
}
