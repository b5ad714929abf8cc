use pow_chain::hashing::{canonical_message, digest};

fn is_lower_hex(s: &str) -> bool {
    s.chars().all(|c| c.is_ascii_digit() || ('a'..='f').contains(&c))
}

#[test]
fn canonical_message_concatenates_fields_in_order() {
    let m = canonical_message(12, 1700000000, "ab", "cd", 7);
    assert_eq!(m, b"121700000000abcd7".to_vec());
}

#[test]
fn canonical_message_renders_negative_timestamp() {
    let m = canonical_message(0, -42, "", "0", 0);
    assert_eq!(m, b"0-4200".to_vec());
    let m = canonical_message(u64::MAX, i64::MIN, "é", "", u64::MAX);
    let expected = format!("{}{}{}{}", u64::MAX, i64::MIN, "é", u64::MAX);
    assert_eq!(m, expected.into_bytes());
}

#[test]
fn digest_is_sha256_of_the_canonical_text() {
    // SHA-256 of "123"
    assert_eq!(
        digest(1, 2, "", "", 3),
        "a665a45920422f9d417e4867efdc4fb8a04a1f3fff1fa07e998e86f7f7a27ae3"
    );
}

#[test]
fn digest_is_deterministic_lowercase_hex() {
    let a = digest(7, 1_600_000_000, "payload", "00ff", 99);
    let b = digest(7, 1_600_000_000, "payload", "00ff", 99);
    assert_eq!(a, b);
    assert_eq!(a.len(), 64);
    assert!(is_lower_hex(&a));
    assert_ne!(a, digest(7, 1_600_000_000, "payload", "00ff", 100));
}
