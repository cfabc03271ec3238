use tongyi_translator::text::{
    contains_text, decimal_string, encode_utf16, fill_fixed_utf16, to_wide, trim, truncate_chars,
};

#[test]
fn trim_removes_unicode_white_space() {
    assert_eq!(trim("  hello \t\n"), "hello");
    assert_eq!(trim("\u{3000}你好\u{a0}"), "你好");
    assert_eq!(trim("   "), "");
    assert_eq!(trim("a b"), "a b");
}

#[test]
fn contains_finds_infixes() {
    assert!(contains_text("abc:fx", ":fx"));
    assert!(contains_text("x:fxy", ":fx"));
    assert!(!contains_text("abc:f", ":fx"));
    assert!(contains_text("abc", ""));
    assert!(!contains_text("", "a"));
}

#[test]
fn decimal_formats_like_to_string() {
    assert_eq!(decimal_string(0), "0");
    assert_eq!(decimal_string(7), "7");
    assert_eq!(decimal_string(404), "404");
    assert_eq!(decimal_string(u64::MAX), u64::MAX.to_string());
}

#[test]
fn utf16_encoding_matches_std() {
    for s in ["", "hello", "你好", "😀a", "TōngYì 通译"] {
        let want: Vec<u16> = s.encode_utf16().collect();
        assert_eq!(encode_utf16(s), want);
        let mut w = want.clone();
        w.push(0);
        assert_eq!(to_wide(s), w);
    }
}

#[test]
fn fixed_buffers_keep_a_final_nul() {
    let mut buf = [7u16; 4];
    fill_fixed_utf16(&mut buf, "hello");
    assert_eq!(buf, [104, 101, 108, 0]);
    let mut buf = [7u16; 6];
    fill_fixed_utf16(&mut buf, "hi");
    assert_eq!(buf, [104, 105, 0, 0, 0, 0]);
    let mut empty: [u16; 0] = [];
    fill_fixed_utf16(&mut empty, "hi");
}

#[test]
fn truncation_counts_characters() {
    assert_eq!(truncate_chars("你好世界", 2), "你好");
    assert_eq!(truncate_chars("abc", 5), "abc");
    assert_eq!(truncate_chars("abc", 0), "");
}
