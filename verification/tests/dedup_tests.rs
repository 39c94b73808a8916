use p2p_chat::dedup::{decimal, message_id};
use std::collections::hash_map::DefaultHasher;
use std::hash::{Hash, Hasher};

#[test]
fn decimal_text_of_numbers() {
    assert_eq!(decimal(0), "0");
    assert_eq!(decimal(7), "7");
    assert_eq!(decimal(10), "10");
    assert_eq!(decimal(1234567890), "1234567890");
    assert_eq!(decimal(1000000), "1000000");
    assert_eq!(decimal(u64::MAX), "18446744073709551615");
    for n in [9u64, 11, 99, 100, 101, 4096, 65535] {
        assert_eq!(decimal(n), n.to_string());
    }
}

#[test]
fn message_id_is_the_decimal_hash_of_the_content() {
    for data in [&b""[..], &b"hello"[..], &[0u8, 1, 2, 255][..]] {
        let mut hasher = DefaultHasher::new();
        data.to_vec().hash(&mut hasher);
        assert_eq!(message_id(data), hasher.finish().to_string());
    }
}

#[test]
fn equal_content_has_equal_identifiers() {
    assert_eq!(message_id(b"same"), message_id(b"same"));
    assert_ne!(message_id(b"same"), message_id(b"other"));
}
