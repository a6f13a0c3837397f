use mumble_tauri::text::{
    ascii_lower, contains, decimal, ends_with, hex, hex_bytes, hex_padded, join, parse_u64,
    same_ignoring_case, signed_decimal, starts_with, trim, trim_end, utf16_lossy, utf16_prefix,
    NumberError,
};

#[test]
fn numbers_are_written_as_std_writes_them() {
    for n in [0u64, 9, 10, 1234, u64::MAX] {
        assert_eq!(decimal(n), n.to_string());
        assert_eq!(hex(n), format!("{n:x}"));
        assert_eq!(parse_u64(&decimal(n)), Ok(n));
    }
    assert_eq!(signed_decimal(i64::MIN), i64::MIN.to_string());
    assert_eq!(hex_padded(0x1f, 4), "001f");
    assert_eq!(hex_bytes(&vec![0, 255, 16]), "00ff10");
    assert_eq!(parse_u64("+7"), Ok(7));
    assert_eq!(parse_u64(" 7"), Err(NumberError::InvalidDigit));
}

#[test]
fn white_space_is_trimmed_as_std_trims_it() {
    for text in ["", "  ", "\u{a0}a b\u{2003}", "x", "\t\u{3000}y\n"] {
        assert_eq!(trim(text), text.trim());
        assert_eq!(trim_end(text), text.trim_end());
    }
    for c in '\0'..=char::MAX {
        assert_eq!(trim(&c.to_string()).is_empty(), c.is_whitespace(), "{c:?}");
    }
}

#[test]
fn utf_16_is_read_as_std_reads_it() {
    let samples: Vec<Vec<u16>> = vec![
        "plain".encode_utf16().collect(),
        "emoji \u{1f600}!".encode_utf16().collect(),
        vec![0xd800],
        vec![0xdc00, 0x41],
        vec![0xd83d, 0x41, 0xde00],
        vec![],
    ];
    for units in samples {
        assert_eq!(utf16_lossy(&units), String::from_utf16_lossy(&units));
    }
    assert_eq!(utf16_prefix(&vec![0x41, 0, 0x42]), "A");
}

#[test]
fn texts_are_compared_as_std_compares_them() {
    assert!(starts_with("popout-stream-1", "popout-stream-"));
    assert!(ends_with("h264_mf", "_mf") && !ends_with("mf", "_mf"));
    assert!(contains("Wintun Userspace", "tun U") && !contains("a", "ab"));
    assert_eq!(ascii_lower("\u{c4}BC"), "\u{c4}BC".to_ascii_lowercase());
    assert!(same_ignoring_case("AUTO", "auto"));
    assert_eq!(join(&vec!["a".to_owned(), "b".to_owned()], ", "), "a, b");
}
