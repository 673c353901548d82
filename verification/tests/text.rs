use thound::text::{parse_number, split_text, strip_prefix, trim, white_space};

#[test]
fn trim_removes_white_space_at_both_ends() {
    assert_eq!(trim("14.36.32532\r\n"), "14.36.32532");
    assert_eq!(trim("  \t14.36.32532 \n"), "14.36.32532");
    assert_eq!(trim("a b"), "a b");
    assert_eq!(trim(" \u{3000}\u{a0} "), "");
    assert_eq!(trim(""), "");
}

#[test]
fn trim_agrees_with_the_standard_library() {
    let samples = [
        "", " ", "x", " x", "x ", "\u{feff}x", "\u{2003}x\u{2003}", "\u{200b}x", "\u{85}x\u{1680}",
        "\u{2028}\u{2029}x\u{202f}\u{205f}", "\u{0b}\u{0c}x", "\u{1c}x", "é ",
    ];
    for sample in samples {
        assert_eq!(trim(sample), sample.trim(), "{sample:?}");
    }
}

#[test]
fn white_space_agrees_with_the_standard_library() {
    for code in 0u32..0x11000 {
        if let Some(c) = char::from_u32(code) {
            assert_eq!(white_space(c), c.is_whitespace(), "{code:x}");
        }
    }
}

#[test]
fn split_cuts_at_every_separator() {
    assert_eq!(split_text("10.0.22000.0", '.'), vec!["10", "0", "22000", "0"]);
    assert_eq!(split_text("", '.'), vec![""]);
    assert_eq!(split_text(".", '.'), vec!["", ""]);
    assert_eq!(split_text("a..b.", '.'), vec!["a", "", "b", ""]);
    assert_eq!(split_text("abc", '.'), vec!["abc"]);
}

#[test]
fn split_agrees_with_the_standard_library() {
    for sample in ["", ".", "..", "a.b", ".a", "a.", "é.ü.", "10.0.22000.0.1"] {
        let expected: Vec<String> = sample.split('.').map(String::from).collect();
        assert_eq!(split_text(sample, '.'), expected, "{sample:?}");
    }
}

#[test]
fn numbers_are_read_as_the_standard_library_reads_them() {
    let samples = [
        "", "0", "7", "+7", "-7", "+", "++7", "7+", "007", "22000", "4294967295", "4294967296",
        "42949672950", "99999999999999999999", "1e3", " 1", "1 ", "0x10", "١", "+0",
    ];
    for sample in samples {
        assert_eq!(parse_number(sample), sample.parse::<u32>().ok(), "{sample:?}");
    }
    assert_eq!(parse_number("22000"), Some(22000));
    assert_eq!(parse_number("4294967295"), Some(u32::MAX));
    assert_eq!(parse_number("4294967296"), None);
}

#[test]
fn strip_prefix_takes_the_prefix_off() {
    assert_eq!(strip_prefix("winv6.3", "winv"), Some("6.3"));
    assert_eq!(strip_prefix("winv", "winv"), Some(""));
    assert_eq!(strip_prefix("win", "winv"), None);
    assert_eq!(strip_prefix("xwinv6.3", "winv"), None);
    assert_eq!(strip_prefix("anything", ""), Some("anything"));
}
