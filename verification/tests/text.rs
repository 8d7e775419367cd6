use win32console::text::char_from_unit;
use win32console::text::string_from_utf16;
use win32console::text::string_from_utf8;
use win32console::text::unit_from_char;
use win32console::text::utf16_from_str;
use win32console::text::utf16_to_utf8;
use win32console::text::utf8_to_utf16;

#[test]
fn utf16_is_decoded_with_its_surrogate_pairs() {
    assert_eq!(string_from_utf16(&[]), Some(String::new()));
    assert_eq!(string_from_utf16(&[0x48, 0x69]), Some("Hi".to_string()));
    assert_eq!(string_from_utf16(&[0xD834, 0xDD1E]), Some("𝄞".to_string()));
    assert_eq!(string_from_utf16(&[0xD800, 0xDC00]), Some("\u{10000}".to_string()));
    assert_eq!(string_from_utf16(&[0xDBFF, 0xDFFF]), Some("\u{10FFFF}".to_string()));
    assert_eq!(
        string_from_utf16(&[0x61, 0xD83D, 0xDE00, 0xFFFF, 0xE000, 0xD7FF]),
        Some("a\u{1F600}\u{FFFF}\u{E000}\u{D7FF}".to_string())
    );
}

#[test]
fn lone_surrogates_are_no_text() {
    assert_eq!(string_from_utf16(&[0xD800]), None);
    assert_eq!(string_from_utf16(&[0xDC00]), None);
    assert_eq!(string_from_utf16(&[0x61, 0xDFFF, 0x62]), None);
    assert_eq!(string_from_utf16(&[0xD800, 0x61]), None);
    assert_eq!(string_from_utf16(&[0xD800, 0xD800, 0xDC00]), None);
    assert_eq!(string_from_utf16(&[0xDC00, 0xD800]), None);
    assert_eq!(utf16_to_utf8(&[0x61, 0xDBFF]), None);
}

#[test]
fn utf16_is_encoded_with_its_surrogate_pairs() {
    assert_eq!(utf16_from_str(""), Vec::<u16>::new());
    assert_eq!(utf16_from_str("Hi"), vec![0x48, 0x69]);
    assert_eq!(utf16_from_str("𝄞"), vec![0xD834, 0xDD1E]);
    assert_eq!(utf16_from_str("\u{10000}\u{10FFFF}"), vec![0xD800, 0xDC00, 0xDBFF, 0xDFFF]);
    assert_eq!(utf16_from_str("\u{FFFF}\u{D7FF}\u{E000}"), vec![0xFFFF, 0xD7FF, 0xE000]);
    let text = "Ünïcödé ✓ 日本語 🎉";
    assert_eq!(utf16_from_str(text), text.encode_utf16().collect::<Vec<u16>>());
    assert_eq!(string_from_utf16(&utf16_from_str(text)), Some(text.to_string()));
}

#[test]
fn utf8_is_read_when_it_is_well_formed() {
    assert_eq!(string_from_utf8(b""), Some(String::new()));
    assert_eq!(string_from_utf8("Grüße".as_bytes()), Some("Grüße".to_string()));
    assert_eq!(string_from_utf8(&[0xF0, 0x9D, 0x84, 0x9E]), Some("𝄞".to_string()));
    assert_eq!(string_from_utf8(&[0xFF]), None);
    assert_eq!(string_from_utf8(&[0xC3]), None);
    assert_eq!(string_from_utf8(&[0xC0, 0x80]), None);
    assert_eq!(string_from_utf8(&[0xED, 0xA0, 0x80]), None);
    assert_eq!(string_from_utf8(&[0x61, 0x80]), None);
}

#[test]
fn text_is_transcoded_between_the_encodings() {
    assert_eq!(
        utf16_to_utf8(&[0x48, 0xE9, 0x20AC]),
        Some(vec![0x48, 0xC3, 0xA9, 0xE2, 0x82, 0xAC])
    );
    assert_eq!(utf16_to_utf8(&[0xD834, 0xDD1E]), Some(vec![0xF0, 0x9D, 0x84, 0x9E]));
    assert_eq!(utf16_to_utf8(&[]), Some(vec![]));
    assert_eq!(
        utf8_to_utf16(&[0x48, 0xC3, 0xA9, 0xE2, 0x82, 0xAC]),
        Some(vec![0x48, 0xE9, 0x20AC])
    );
    assert_eq!(utf8_to_utf16(&[0xF0, 0x9D, 0x84, 0x9E]), Some(vec![0xD834, 0xDD1E]));
    assert_eq!(utf8_to_utf16(&[0xE2, 0x82]), None);
    let text = "round → trip ✈ 𝔘𝔫𝔦𝔠𝔬𝔡𝔢";
    let units: Vec<u16> = text.encode_utf16().collect();
    let bytes = utf16_to_utf8(&units).unwrap();
    assert_eq!(bytes, text.as_bytes().to_vec());
    assert_eq!(utf8_to_utf16(&bytes), Some(units));
}

#[test]
fn single_code_units_and_their_characters() {
    assert_eq!(char_from_unit(0x41), Some('A'));
    assert_eq!(char_from_unit(0), Some('\0'));
    assert_eq!(char_from_unit(0xD7FF), Some('\u{D7FF}'));
    assert_eq!(char_from_unit(0xD800), None);
    assert_eq!(char_from_unit(0xDFFF), None);
    assert_eq!(char_from_unit(0xE000), Some('\u{E000}'));
    assert_eq!(char_from_unit(0xFFFF), Some('\u{FFFF}'));
    assert_eq!(unit_from_char('A'), Some(0x41));
    assert_eq!(unit_from_char('\u{FFFF}'), Some(0xFFFF));
    assert_eq!(unit_from_char('\u{10000}'), None);
    assert_eq!(unit_from_char('\u{10FFFF}'), None);
}
