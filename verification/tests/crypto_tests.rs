use nodeless_api::crypto::sha256_hmac;
use nodeless_api::format::random_text;
use nodeless_api::ids::new_uuid;

#[test]
fn hmac_matches_the_published_vector() {
    // RFC 4231 test case 2 for HMAC-SHA-256.
    let digest = sha256_hmac("what do ya want for nothing?", "Jefe");
    assert_eq!(digest, "5bdcc146bf60754e6a042426089575c75a003f089d2739839dec58b964ec3843");
}

#[test]
fn hmac_is_sixty_four_hex_digits_and_keyed() {
    let d1 = sha256_hmac("data", "key-one");
    let d2 = sha256_hmac("data", "key-two");
    assert_eq!(d1.len(), 64);
    assert_eq!(d2.len(), 64);
    assert_ne!(d1, d2);
    assert_ne!(d1, "data");
    assert!(d1.chars().all(|c| c.is_ascii_hexdigit()));
}

#[test]
fn random_text_has_the_requested_length() {
    assert_eq!(random_text(10).len(), 10);
    assert_eq!(random_text(0).len(), 0);
    assert!(random_text(24).chars().all(|c| c.is_ascii_alphanumeric()));
}

#[test]
fn uuids_are_hyphenated_and_distinct() {
    let a = new_uuid();
    let b = new_uuid();
    assert_eq!(a.len(), 36);
    assert_eq!(b.len(), 36);
    assert_eq!(a.matches('-').count(), 4);
    assert_ne!(a, b);
}
