use auth_service::text::trim;

#[test]
fn trim_removes_surrounding_whitespace() {
    assert_eq!(trim("  abc \t\n"), "abc");
    assert_eq!(trim("abc"), "abc");
    assert_eq!(trim("   "), "");
    assert_eq!(trim(""), "");
    assert_eq!(trim(" a b "), "a b");
}

#[test]
fn trim_handles_unicode_whitespace() {
    assert_eq!(trim("\u{3000}\u{a0}tok\u{2028}"), "tok");
    assert_eq!(trim("\u{3000}ü\u{85}"), "ü");
    assert_eq!(trim("x y"), "x y");
}

#[test]
fn trim_agrees_with_std() {
    for s in ["", " ", "a", "\t a \r\n", "\u{200a}é\u{202f}", "中 文", " \u{205f}"] {
        assert_eq!(trim(s), s.trim());
    }
}
