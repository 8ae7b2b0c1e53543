use wallpaper_ctl::helpers::{
    decode_utf16, encode_utf16, text_len, IntoPCWSTR, IntoPWSTR, IntoString, WideString,
};

fn wide(units: &[u16]) -> WideString {
    WideString { units: units.to_vec() }
}

#[test]
fn text_len_stops_at_first_nul() {
    assert_eq!(text_len(&[0x61, 0x62, 0, 0x63, 0]), 2);
    assert_eq!(text_len(&[0x61, 0x62]), 2);
    assert_eq!(text_len(&[0, 0x61]), 0);
    assert_eq!(text_len(&[]), 0);
}

#[test]
fn decode_plain_and_paired_units() {
    assert_eq!(decode_utf16(&[0x68, 0x69]), Some(String::from("hi")));
    assert_eq!(decode_utf16(&[0xD83D, 0xDE00]), Some(String::from("\u{1F600}")));
    assert_eq!(decode_utf16(&[0xE9, 0x20AC]), Some(String::from("\u{e9}\u{20ac}")));
    assert_eq!(decode_utf16(&[]), Some(String::new()));
}

#[test]
fn decode_rejects_lone_surrogates() {
    assert_eq!(decode_utf16(&[0xD800]), None);
    assert_eq!(decode_utf16(&[0xDC00, 0x61]), None);
    assert_eq!(decode_utf16(&[0x61, 0xD83D]), None);
    assert_eq!(decode_utf16(&[0xD83D, 0x61]), None);
    assert_eq!(decode_utf16(&[0xD83D, 0xD83D, 0xDE00]), None);
}

#[test]
fn decode_agrees_with_std() {
    let samples: Vec<Vec<u16>> = vec![
        vec![],
        vec![0x41],
        vec![0xD7FF, 0xE000, 0xFFFF],
        vec![0xD800, 0xDC00],
        vec![0xDBFF, 0xDFFF],
        vec![0xDBFF],
        vec![0xDFFF, 0xD800],
        vec![0x5C, 0x5C, 0x3F, 0x5C, 0x44],
    ];
    for units in samples {
        assert_eq!(decode_utf16(&units), String::from_utf16(&units).ok());
    }
}

#[test]
fn encode_agrees_with_std() {
    for text in ["", "C:\\wall.png", "\u{e9}t\u{e9}", "\u{1F600}x\u{10FFFF}", "\u{FFFF}\u{10000}"] {
        let expected: Vec<u16> = text.encode_utf16().collect();
        assert_eq!(encode_utf16(text), expected);
    }
}

#[test]
fn encode_supplementary_character_exactly() {
    assert_eq!(encode_utf16("\u{1F600}"), vec![0xD83D, 0xDE00]);
    assert_eq!(encode_utf16("\u{10000}"), vec![0xD800, 0xDC00]);
    assert_eq!(encode_utf16("\u{10FFFF}"), vec![0xDBFF, 0xDFFF]);
}

#[test]
fn into_pwstr_appends_terminator() {
    assert_eq!("ab".into_pwstr().units, vec![0x61, 0x62, 0]);
    assert_eq!(String::from("ab").into_pwstr().units, vec![0x61, 0x62, 0]);
    assert_eq!("ab".into_pcwstr().units, vec![0x61, 0x62, 0]);
    assert_eq!(String::from("").into_pcwstr().units, vec![0]);
}

#[test]
fn into_string_reads_up_to_nul() {
    assert_eq!(wide(&[0x61, 0x62, 0, 0x63]).into_string(), "ab");
    assert_eq!(wide(&[]).into_string(), "");
    assert_eq!(wide(&[0]).into_string(), "");
}

#[test]
fn wide_round_trip() {
    for text in ["", "\\\\?\\DISPLAY#GSM5B08", "C:\\Users\\me\\\u{1F5BC}.png"] {
        assert_eq!(text.into_pwstr().into_string(), text);
        assert_eq!(String::from(text).into_pcwstr().to_text(), Some(String::from(text)));
    }
}

#[test]
fn to_text_ignores_units_after_nul() {
    assert_eq!(wide(&[0x61, 0, 0xD800]).to_text(), Some(String::from("a")));
    assert_eq!(wide(&[0xD800, 0, 0x61]).to_text(), None);
}

#[test]
fn to_terminated_keeps_text_and_adds_one_nul() {
    assert_eq!(wide(&[0x61, 0x62]).to_terminated().units, vec![0x61, 0x62, 0]);
    assert_eq!(wide(&[0x61, 0, 0x62, 0]).to_terminated().units, vec![0x61, 0]);
    assert_eq!(wide(&[]).to_terminated().units, vec![0]);
}
