use akron_core::slabel::{is_valid_slabel, slabel_from_str};
use akron_core::util::space_hash;

#[test]
fn plain_labels_parse() {
    assert!(slabel_from_str("bitcoin").is_some());
    assert!(slabel_from_str("a").is_some());
    assert!(slabel_from_str("abc-123").is_some());
}

#[test]
fn reserved_labels_are_refused() {
    assert!(slabel_from_str("example").is_none());
    assert!(slabel_from_str("test").is_none());
    assert!(slabel_from_str("local").is_none());
}

#[test]
fn malformed_labels_are_refused() {
    assert!(slabel_from_str("").is_none());
    assert!(slabel_from_str("-abc").is_none());
    assert!(slabel_from_str("abc-").is_none());
    assert!(slabel_from_str("a--b").is_none());
    assert!(slabel_from_str("ABC").is_none());
    assert!(slabel_from_str("caf\u{e9}").is_none());
}

#[test]
fn length_limit_is_sixty_two() {
    let max = "a".repeat(62);
    let too_long = "a".repeat(63);
    assert!(slabel_from_str(&max).is_some());
    assert!(slabel_from_str(&too_long).is_none());
}

#[test]
fn international_prefix_is_allowed() {
    assert!(slabel_from_str("xn--bcher-kva").is_some());
    assert!(slabel_from_str("xn--").is_none());
}

#[test]
fn numeric_labels_parse() {
    assert!(slabel_from_str("#800000-3-1").is_some());
    assert!(slabel_from_str("#800000-3").is_none());
    assert!(slabel_from_str("#-1-2").is_none());
}

#[test]
fn validity_check_mirrors_parse() {
    assert!(is_valid_slabel("bitcoin"));
    assert!(!is_valid_slabel("example"));
    assert!(!is_valid_slabel("a--b"));
}

#[test]
fn space_hash_is_digest_of_prefixed_label() {
    // the digest of the byte 0x07 followed by the label text
    assert_eq!(
        space_hash("bitcoin").as_deref(),
        Some("c3b730b2b1739d772c4ccaad9d0d2b1ce6d7417b85d52ea4ed8235768374ab8e")
    );
    assert_eq!(
        space_hash("sample").as_deref(),
        Some("b9f4392256542524c716e49473dc5fb43fa04d4d0938957c3c086abc8ceeecc6")
    );
}

#[test]
fn space_hash_refuses_invalid_or_reserved_names() {
    assert!(space_hash("example").is_none());
    assert!(space_hash("Not A Name").is_none());
    assert!(space_hash("").is_none());
}
