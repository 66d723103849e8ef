use smartcat::text::{decimal, is_space, trim};

#[test]
fn trim_removes_whitespace_at_both_ends() {
    assert_eq!(trim(""), "");
    assert_eq!(trim("   "), "");
    assert_eq!(trim("a"), "a");
    assert_eq!(trim("  a"), "a");
    assert_eq!(trim("a  "), "a");
    assert_eq!(trim(" \t\r\n a b \n"), "a b");
    assert_eq!(trim("\u{2003}é €\u{85}"), "é €");
}

#[test]
fn trim_agrees_with_std() {
    for s in ["", " ", "x", " x", "x ", " x y ", "\n\n", "\u{1680}k\u{205f}", "\u{200b}z\u{200b}", "a\u{0}"] {
        assert_eq!(trim(s), s.trim());
    }
}

#[test]
fn is_space_agrees_with_std() {
    let mut n: u32 = 0;
    while n <= 0x11_0000 {
        if let Some(c) = char::from_u32(n) {
            assert_eq!(is_space(c), c.is_whitespace());
        }
        n += 1;
    }
}

#[test]
fn decimal_writes_numbers() {
    assert_eq!(decimal(0), "0");
    assert_eq!(decimal(7), "7");
    assert_eq!(decimal(10), "10");
    assert_eq!(decimal(109), "109");
    assert_eq!(decimal(1234567890), "1234567890");
    assert_eq!(decimal(usize::MAX), usize::MAX.to_string());
}
