use mt5_adapter::auth::sign;

#[test]
fn test_hmac_signature() {
    let signature = sign("test_key", 1704355200000, "secret");
    assert!(!signature.is_empty());
    assert_eq!(signature.len(), 64); // SHA-256 produces 32 bytes = 64 hex chars
}

#[test]
fn signature_known_value() {
    // HMAC-SHA256 of "test_key1704355200000" keyed with "secret"
    let signature = sign("test_key", 1704355200000, "secret");
    assert_eq!(
        signature,
        "c77e3f1da5d8bf1a0ac93ab66f6952db0286884264c9145d516bca357600b3e7"
    );
    // the same message keyed with "test_secret"
    let signature = sign("test_key", 1704355200000, "test_secret");
    assert_eq!(
        signature,
        "1657292a73598c71870c558b25457159eb52cee6385d1c44da0c2abea25d7f89"
    );
}

#[test]
fn signature_deterministic_and_input_sensitive() {
    let a = sign("key", 1000, "secret");
    let b = sign("key", 1000, "secret");
    assert_eq!(a, b);

    // changing any single input changes the output
    assert_ne!(sign("key2", 1000, "secret"), a);
    assert_ne!(sign("key", 1001, "secret"), a);
    assert_ne!(sign("key", 1000, "secret2"), a);
}

#[test]
fn signature_lowercase_hex() {
    let signature = sign("abc", 42, "k");
    assert_eq!(signature.len(), 64);
    assert!(signature.chars().all(|c| c.is_ascii_hexdigit() && !c.is_ascii_uppercase()));
}
