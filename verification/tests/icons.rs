use akron_core::icons::Icon;

#[test]
fn icons_map_to_their_code_points() {
    assert_eq!(Icon::Settings.as_char(), '\u{E000}');
    assert_eq!(Icon::CurrencyBitcoin.as_char(), '\u{E001}');
    assert_eq!(Icon::Copy.as_char(), '\u{E002}');
    assert_eq!(Icon::NewSection.as_char(), '\u{E00C}');
}

#[test]
fn icons_are_distinct() {
    assert_ne!(Icon::At.as_char(), Icon::Signature.as_char());
}
