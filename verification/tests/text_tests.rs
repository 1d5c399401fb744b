use gitph::text::{nonblank_trimmed, split_lines, trim, u16_to_decimal};

#[test]
fn trim_removes_blanks_at_both_ends() {
    assert_eq!(trim("  a b\t\r\n"), "a b");
    assert_eq!(trim(""), "");
    assert_eq!(trim("   \t  "), "");
    assert_eq!(trim("plain"), "plain");
}

#[test]
fn nonblank_trimmed_rejects_blank_input() {
    assert_eq!(nonblank_trimmed("   "), None);
    assert_eq!(nonblank_trimmed(""), None);
    assert_eq!(nonblank_trimmed(" x "), Some(String::from("x")));
}

#[test]
fn split_lines_keeps_every_segment() {
    assert_eq!(split_lines("a\nb"), vec!["a", "b"]);
    assert_eq!(split_lines(""), vec![""]);
    assert_eq!(split_lines("a\n"), vec!["a", ""]);
    assert_eq!(split_lines("\n\n"), vec!["", "", ""]);
}

#[test]
fn decimal_rendering_is_exact() {
    assert_eq!(u16_to_decimal(0), "0");
    assert_eq!(u16_to_decimal(7), "7");
    assert_eq!(u16_to_decimal(42), "42");
    assert_eq!(u16_to_decimal(404), "404");
    assert_eq!(u16_to_decimal(65535), "65535");
}
