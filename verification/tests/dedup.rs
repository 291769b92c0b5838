use warpstash::dedup::{content_hash, is_consecutive_duplicate, should_store};

#[test]
fn same_content_same_hash() {
    let a = content_hash(b"hello world");
    let b = content_hash(b"hello world");
    assert_eq!(a, b);
}

#[test]
fn different_content_different_hash() {
    let a = content_hash(b"hello");
    let b = content_hash(b"world");
    assert_ne!(a, b);
}

#[test]
fn dedup_detection() {
    let h = content_hash(b"test");
    assert!(is_consecutive_duplicate(&h, Some(&h)));
    assert!(!is_consecutive_duplicate(&h, None));
    assert!(!is_consecutive_duplicate(&h, Some("other_hash")));
}

#[test]
fn hash_is_hex_64_chars() {
    let h = content_hash(b"data");
    assert_eq!(h.len(), 64);
    assert!(h.chars().all(|c| c.is_ascii_hexdigit()));
}

#[test]
fn hash_matches_blake3_reference_vectors() {
    assert_eq!(
        content_hash(b""),
        "af1349b9f5f9a1a6a0404dea36dcc9499bcb25c9adc112b7cc9a93cae41f3262"
    );
    assert_eq!(
        content_hash(b"abc"),
        "6437b3ac38465133ffb63b75273a8db548c558465d79db03fd359c6cd5bd9d85"
    );
}

#[test]
fn hash_is_lowercase() {
    let h = content_hash(b"Some Clipboard Text");
    assert!(h.chars().all(|c| c.is_ascii_digit() || ('a'..='f').contains(&c)));
}

#[test]
fn duplicate_needs_exact_match() {
    assert!(!is_consecutive_duplicate("abc", Some("abcd")));
    assert!(!is_consecutive_duplicate("abc", Some("ABC")));
    assert!(is_consecutive_duplicate("", Some("")));
}

#[test]
fn store_decision() {
    assert!(!should_store(true, "h", Some("h")));
    assert!(should_store(true, "h", Some("g")));
    assert!(should_store(true, "h", None));
    assert!(should_store(false, "h", Some("h")));
}
