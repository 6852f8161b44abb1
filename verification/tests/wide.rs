use win_event_log::text::{push_decimal, IntoText};
use win_event_log::wide::{from_wide, to_wide};

#[test]
fn text_becomes_null_terminated_utf16() {
    assert_eq!(to_wide(""), vec![0]);
    assert_eq!(to_wide("Ab"), vec![0x41, 0x62, 0]);
    assert_eq!(to_wide("\u{FFFF}"), vec![0xFFFF, 0]);
    assert_eq!(to_wide("\u{10000}"), vec![0xD800, 0xDC00, 0]);
    assert_eq!(to_wide("\u{10FFFF}"), vec![0xDBFF, 0xDFFF, 0]);
    assert_eq!(to_wide("a\u{1F600}\u{E9}"), vec![0x61, 0xD83D, 0xDE00, 0xE9, 0]);
    let text = "<Select Path=\"S\u{E9}curit\u{E9}\">\u{4E16}\u{754C}\u{1F30D}</Select>";
    let mut expected: Vec<u16> = text.encode_utf16().collect();
    expected.push(0);
    assert_eq!(to_wide(text), expected);
}

#[test]
fn units_become_text() {
    assert_eq!(from_wide(&vec![]), "");
    assert_eq!(from_wide(&vec![0x41, 0x62]), "Ab");
    assert_eq!(from_wide(&vec![0x41, 0]), "A\0");
    assert_eq!(from_wide(&vec![0xD83D, 0xDE00]), "\u{1F600}");
    assert_eq!(from_wide(&vec![0xD800, 0xDC00]), "\u{10000}");
    assert_eq!(from_wide(&vec![0xDBFF, 0xDFFF]), "\u{10FFFF}");
    assert_eq!(from_wide(&vec![0xD7FF, 0xE000]), "\u{D7FF}\u{E000}");
}

#[test]
fn a_lone_surrogate_is_replaced() {
    assert_eq!(from_wide(&vec![0xD800]), "\u{FFFD}");
    assert_eq!(from_wide(&vec![0xDC00]), "\u{FFFD}");
    assert_eq!(from_wide(&vec![0xDC00, 0xD800]), "\u{FFFD}\u{FFFD}");
    assert_eq!(from_wide(&vec![0xD800, 0x41]), "\u{FFFD}A");
    assert_eq!(from_wide(&vec![0xD800, 0xD800, 0xDC00]), "\u{FFFD}\u{10000}");
    assert_eq!(from_wide(&vec![0x41, 0xDBFF]), "A\u{FFFD}");
}

#[test]
fn decoding_agrees_with_the_standard_library() {
    let mut seed: u32 = 0x2545_F491;
    for round in 0..500 {
        let mut units: Vec<u16> = Vec::new();
        for _ in 0..(round % 9) {
            seed = seed.wrapping_mul(1_664_525).wrapping_add(1_013_904_223);
            let pick = (seed >> 16) as u16;
            units.push(if pick % 3 == 0 { 0xD800 + (pick % 0x800) } else { pick });
        }
        let text = from_wide(&units);
        assert_eq!(text, String::from_utf16_lossy(&units));
        assert_eq!(text.encode_utf16().count(), units.len());
    }
}

#[test]
fn text_survives_the_way_there_and_back() {
    for text in ["", "plain", "\u{E9}t\u{E9}", "\u{1F600}\u{10000}x", "<a b='c'/>\n"] {
        let mut wide = to_wide(text);
        assert_eq!(wide.pop(), Some(0));
        assert_eq!(from_wide(&wide), text);
    }
}

#[test]
fn numbers_are_written_in_base_ten() {
    for (n, text) in [
        (0, "0"),
        (7, "7"),
        (10, "10"),
        (1234567890, "1234567890"),
        (u64::MAX, "18446744073709551615"),
    ] {
        let mut s = String::new();
        push_decimal(&mut s, n);
        assert_eq!(s, text);
    }
    let mut s = String::from("n=");
    push_decimal(&mut s, 1102);
    assert_eq!(s, "n=1102");
}

#[test]
fn literals_and_strings_are_text() {
    assert_eq!("abc".into_text(), "abc");
    assert_eq!(String::from("abc").into_text(), "abc");
}
