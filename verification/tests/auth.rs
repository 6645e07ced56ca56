use kvlr::auth::hash_string_to_hex;

#[test]
fn secrets_are_stored_as_sha256_hex() {
    assert_eq!(
        hash_string_to_hex("supersecret"),
        "f75778f7425be4db0369d09af37a6c2b9a83dea0e53e7bd57412e4b060e607f7"
    );
    assert_eq!(
        hash_string_to_hex(""),
        "e3b0c44298fc1c149afbf4c8996fb92427ae41e4649b934ca495991b7852b855"
    );
    assert_eq!(hash_string_to_hex("x").len(), 64);
}
