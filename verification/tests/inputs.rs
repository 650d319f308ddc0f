use akron_core::types::{
    amount_from_str, fee_rate_from_str, is_amount_input, is_fee_rate_input, is_recipient_input,
    is_slabel_input, is_valid_listing, listing_from_str, recipient_from_str,
};

#[test]
fn slabel_input_accepts_digits_lowercase_hyphen() {
    assert!(is_slabel_input(""));
    assert!(is_slabel_input("abc-123"));
    assert!(!is_slabel_input("Abc"));
    assert!(!is_slabel_input("a b"));
    assert!(!is_slabel_input("a@b"));
    assert!(!is_slabel_input("caf\u{e9}"));
}

#[test]
fn recipient_input_also_accepts_at() {
    assert!(is_recipient_input("@bitcoin"));
    assert!(is_recipient_input("bc1qxyz"));
    assert!(!is_recipient_input("white space"));
}

#[test]
fn amount_and_fee_rate_inputs_are_digits_only() {
    assert!(is_amount_input("123"));
    assert!(is_amount_input(""));
    assert!(!is_amount_input("12.5"));
    assert!(is_fee_rate_input("42"));
    assert!(!is_fee_rate_input("-1"));
}

#[test]
fn recipient_from_str_rejects_empty_only() {
    assert_eq!(recipient_from_str(""), None);
    assert_eq!(recipient_from_str("@bob").as_deref(), Some("@bob"));
}

#[test]
fn amount_from_str_parses_satoshi() {
    assert_eq!(amount_from_str("123").map(|a| a.to_sat()), Some(123));
    assert_eq!(amount_from_str("0").map(|a| a.to_sat()), Some(0));
    assert_eq!(
        amount_from_str("18446744073709551615").map(|a| a.to_sat()),
        Some(u64::MAX)
    );
    assert!(amount_from_str("").is_none());
    assert!(amount_from_str("12a").is_none());
    // one past the largest representable count
    assert!(amount_from_str("18446744073709551616").is_none());
}

#[test]
fn fee_rate_from_str_empty_means_automatic() {
    let auto = fee_rate_from_str("").expect("empty input is the automatic rate");
    assert!(auto.is_none());
    let explicit = fee_rate_from_str("42").expect("digits parse");
    assert_eq!(explicit.map(|f| f.to_sat_per_vb()), Some(42));
    assert!(fee_rate_from_str("4.2").is_none());
}

#[test]
fn listing_text_must_deserialize() {
    assert!(listing_from_str("").is_none());
    assert!(listing_from_str("{}").is_none());
    assert!(!is_valid_listing("not json"));
    let sig = "00".repeat(128 / 2);
    let text = format!(
        "{{\"subject\":\"@bitcoin\",\"price\":1000,\"seller\":\"bc1qseller\",\"signature\":\"{}\"}}",
        sig
    );
    assert!(is_valid_listing(&text));
    assert!(listing_from_str(&text).is_some());
}
