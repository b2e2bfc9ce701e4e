use knoobar::text::{ascii_lowercase, concat_str, decimal_string, three_digits, trim};

#[test]
fn trim_removes_unicode_white_space() {
    assert_eq!(trim("  a b \t\n"), "a b");
    assert_eq!(trim("\u{3000}x\u{00A0}"), "x");
    assert_eq!(trim("   "), "");
    assert_eq!(trim(""), "");
    assert_eq!(trim("no-space"), "no-space");
}

#[test]
fn trim_matches_std() {
    for s in ["  x ", "\u{2028}a\u{205F}", "\r\n\tq", "é ", " \u{1680} b c \u{200A}"] {
        assert_eq!(trim(s), s.trim());
    }
}

#[test]
fn trim_is_idempotent() {
    let once = trim("  \t padded \n ");
    assert_eq!(trim(&once), once);
}

#[test]
fn ascii_lowercase_only_touches_ascii() {
    assert_eq!(ascii_lowercase("AbC-\u{c9}z"), "abc-\u{c9}z");
    assert_eq!(ascii_lowercase("FLAC"), "flac");
    assert_eq!(ascii_lowercase(&ascii_lowercase("MiXeD")), "mixed");
}

#[test]
fn decimals() {
    assert_eq!(decimal_string(0), "0");
    assert_eq!(decimal_string(7), "7");
    assert_eq!(decimal_string(10), "10");
    assert_eq!(decimal_string(48000), "48000");
    assert_eq!(decimal_string(u64::MAX), u64::MAX.to_string());
    assert_eq!(three_digits(0), "000");
    assert_eq!(three_digits(7), "007");
    assert_eq!(three_digits(42), "042");
    assert_eq!(three_digits(999), "999");
}

#[test]
fn concatenation() {
    assert_eq!(concat_str("%", "abc"), "%abc");
    assert_eq!(concat_str("", ""), "");
}
