use fashion_mnist::text::{decimal_string, pad_right, parse_usize, trim, white_space};

#[test]
fn decimal_string_writes_numbers() {
    assert_eq!(decimal_string(0), "0");
    assert_eq!(decimal_string(7), "7");
    assert_eq!(decimal_string(10), "10");
    assert_eq!(decimal_string(10000), "10000");
    assert_eq!(decimal_string(usize::MAX), usize::MAX.to_string());
}

#[test]
fn pad_right_left_aligns() {
    assert_eq!(pad_right("Bag", 12), "Bag         ");
    assert_eq!(pad_right("T-shirt/top", 12), "T-shirt/top ");
    assert_eq!(pad_right("longer than twelve", 12), "longer than twelve");
    assert_eq!(pad_right("", 3), "   ");
    for name in ["Trouser", "Ankle boot", "é"] {
        assert_eq!(pad_right(name, 12), format!("{name:<12}"));
    }
}

#[test]
fn trim_matches_std() {
    let cases = [
        "", " ", "1", " 1 ", "1\n", "\t\r\n 2 \n", "\u{3000}x\u{a0}", "a b", "\u{2028}\u{85}",
        "\u{200b}z",
    ];
    for s in cases {
        assert_eq!(trim(s), s.trim(), "{s:?}");
    }
}

#[test]
fn white_space_matches_std() {
    for v in 0u32..0x3100 {
        if let Some(c) = char::from_u32(v) {
            assert_eq!(white_space(c), c.is_whitespace(), "{v:#x}");
        }
    }
    assert!(!white_space('x'));
}

#[test]
fn parse_usize_matches_std() {
    let cases = [
        "", "+", "-", "0", "+0", "007", "42", "+42", "-1", "12a", " 1", "1 ", "٣",
        "18446744073709551615", "18446744073709551616", "99999999999999999999999", "++1",
    ];
    for s in cases {
        assert_eq!(parse_usize(s), s.parse::<usize>().ok(), "{s:?}");
    }
    assert_eq!(parse_usize("+42"), Some(42));
    assert_eq!(parse_usize("9999"), Some(9999));
}
