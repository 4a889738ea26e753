use onlinerpg::text::{
    chars_of, decimal_text, eq_ignore_ascii_case, same_text, split, starts_with, trim,
};

#[test]
fn numbers_are_written_in_decimal() {
    assert_eq!(decimal_text(0), "0");
    assert_eq!(decimal_text(9), "9");
    assert_eq!(decimal_text(10), "10");
    assert_eq!(decimal_text(4_001), "4001");
    assert_eq!(decimal_text(u64::MAX), u64::MAX.to_string());
}

#[test]
fn text_is_trimmed_as_the_standard_library_trims_it() {
    for text in [
        "",
        " ",
        "a",
        "  a b\t\n",
        "\u{85}x\u{2003}",
        "\u{200b}x\u{200b}",
        "\u{feff}x",
        "\u{1680}\u{205f}\u{3000}y\u{2028}\u{2029}\u{202f}",
    ] {
        assert_eq!(trim(text), text.trim(), "{text:?}");
    }
}

#[test]
fn white_space_is_what_the_standard_library_says() {
    for n in 0..=0x10_ffffu32 {
        if let Some(c) = char::from_u32(n) {
            assert_eq!(trim(&c.to_string()).is_empty(), c.is_whitespace(), "{n:x}");
        }
    }
}

#[test]
fn text_splits_at_every_separator() {
    for text in ["", ",", "a", "a,b", ",a,,b,", "\u{e9},\u{4e2d}"] {
        let expected: Vec<String> = text.split(',').map(str::to_string).collect();
        assert_eq!(split(text, ','), expected, "{text:?}");
    }
}

#[test]
fn text_comparisons() {
    assert!(same_text("Stra\u{df}e", "Stra\u{df}e"));
    assert!(!same_text("a", "ab"));
    assert!(starts_with("/give sword", "/give "));
    assert!(!starts_with("/giv", "/give "));
    assert!(starts_with("x", ""));
    assert!(eq_ignore_ascii_case("Ann@Example.COM", "aNN@example.com"));
    assert!(!eq_ignore_ascii_case("\u{c9}", "\u{e9}"));
    assert!(!eq_ignore_ascii_case("[", "{"));
    assert_eq!(chars_of("a\u{4e2d}"), ['a', '\u{4e2d}']);
}
