use ffmpeg_owl::remixicon::{
    get_icon_map, hex_to_unicode_char, parse_icon_map, remix_init, ri_icon, IconRegistry,
};

const SHEET: &str = r#"
.ri-volume-mute-line:before { content: "\f2a3"; }
.ri-crop-line:before { content: "\ec02"; }
.ri-odd-code:before { content: "\zzzz"; }
.ri-plain:before { content: "\f000"; }
.other-rule:before { content: "\f111"; }
.ri-crop-line:before { content: "\ec03"; }
"#;

#[test]
fn icon_table_from_style_sheet() {
    let icons = parse_icon_map(SHEET).unwrap();
    assert_eq!(icons.get("ri-volume-mute-line").map(|s| s.as_str()), Some("f2a3"));
    assert_eq!(icons.get("ri-odd-code").map(|s| s.as_str()), Some("zzzz"));
    assert!(!icons.contains("ri-plain"));
    assert!(!icons.contains("other-rule"));
    assert!(!icons.contains(".ri-crop-line"));
}

#[test]
fn later_rule_replaces_earlier() {
    let icons = parse_icon_map(SHEET).unwrap();
    assert_eq!(icons.get("ri-crop-line").map(|s| s.as_str()), Some("ec03"));
}

#[test]
fn empty_sheet_gives_empty_table() {
    let icons = parse_icon_map("").unwrap();
    assert!(!icons.contains("ri-crop-line"));
}

#[test]
fn registry_is_empty_until_initialised() {
    let mut registry = IconRegistry::new();
    assert!(!registry.is_initialised());
    assert_eq!(remix_init(&mut registry, SHEET), Ok(()));
    assert!(registry.is_initialised());
    assert!(get_icon_map(&registry).contains("ri-volume-mute-line"));
}

#[test]
fn icon_text_is_the_glyph() {
    let mut registry = IconRegistry::new();
    remix_init(&mut registry, SHEET).unwrap();
    assert_eq!(ri_icon(&registry, "ri-volume-mute-line"), "\u{f2a3}");
    assert_eq!(ri_icon(&registry, "ri-crop-line"), "\u{ec03}");
}

#[test]
fn unknown_icon_is_a_space() {
    let mut registry = IconRegistry::new();
    remix_init(&mut registry, SHEET).unwrap();
    assert_eq!(ri_icon(&registry, "ri-no-such-icon"), " ");
    assert_eq!(ri_icon(&registry, "ri-odd-code"), " ");
}

#[test]
fn hex_code_points() {
    assert_eq!(hex_to_unicode_char(Some("41")), Some('A'));
    assert_eq!(hex_to_unicode_char(Some("f2a3")), Some('\u{f2a3}'));
    assert_eq!(hex_to_unicode_char(Some("F2A3")), Some('\u{f2a3}'));
    assert_eq!(hex_to_unicode_char(Some("+41")), Some('A'));
    assert_eq!(hex_to_unicode_char(Some("10FFFF")), Some('\u{10FFFF}'));
    assert_eq!(hex_to_unicode_char(Some("0")), Some('\0'));
}

#[test]
fn hex_that_is_no_character() {
    assert_eq!(hex_to_unicode_char(None), None);
    assert_eq!(hex_to_unicode_char(Some("")), None);
    assert_eq!(hex_to_unicode_char(Some("g1")), None);
    assert_eq!(hex_to_unicode_char(Some("-41")), None);
    assert_eq!(hex_to_unicode_char(Some("D800")), None);
    assert_eq!(hex_to_unicode_char(Some("DFFF")), None);
    assert_eq!(hex_to_unicode_char(Some("110000")), None);
    assert_eq!(hex_to_unicode_char(Some("FFFFFFFF")), None);
    assert_eq!(hex_to_unicode_char(Some("100000000")), None);
    assert_eq!(hex_to_unicode_char(Some(" 41")), None);
}

#[test]
fn hex_agrees_with_the_standard_parser() {
    for s in ["", "0", "7f", "D7FF", "E000", "d800", "+", "++1", "1G", "0x41", "ffffffff", "1234567"] {
        let expected = u32::from_str_radix(s, 16).ok().and_then(char::from_u32);
        assert_eq!(hex_to_unicode_char(Some(s)), expected, "input {:?}", s);
    }
}
