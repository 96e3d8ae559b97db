use portfolio::text::{char_is_whitespace, contains_char, trim};

#[test]
fn white_space_is_what_unicode_says() {
    let mut code: u32 = 0;
    while code <= 0x10FFFF {
        if let Some(c) = char::from_u32(code) {
            assert_eq!(char_is_whitespace(c), c.is_whitespace(), "U+{:04X}", code);
        }
        code += 1;
    }
}

#[test]
fn trim_drops_white_space_at_both_ends() {
    assert_eq!(trim(" Ana "), "Ana");
    assert_eq!(trim("\t\n Ana Maria\r\n"), "Ana Maria");
    assert_eq!(trim("Ana"), "Ana");
    assert_eq!(trim("a"), "a");
    assert_eq!(trim(" a"), "a");
    assert_eq!(trim("a "), "a");
}

#[test]
fn trim_keeps_white_space_inside() {
    assert_eq!(trim("  one  two\tthree  "), "one  two\tthree");
}

#[test]
fn trim_of_blank_text_is_empty() {
    assert_eq!(trim(""), "");
    assert_eq!(trim(" "), "");
    assert_eq!(trim(" \t\r\n\u{a0}\u{3000} "), "");
}

#[test]
fn trim_knows_white_space_beyond_ascii() {
    assert_eq!(trim("\u{2003}señor\u{a0}"), "señor");
    assert_eq!(trim("\u{85}\u{1680}日本語\u{2028}\u{2029}"), "日本語");
}

#[test]
fn trim_agrees_with_the_standard_library() {
    let samples = [
        "",
        " ",
        "x",
        "  x  ",
        "\u{feff}x\u{feff}",
        "\u{200b} x \u{200b}",
        "\u{b}\u{c}x y\u{1f}",
        "  ¿Por qué?  ",
        "🔍 ",
        " \u{202f}a\u{205f}b\u{2000}\u{200a} ",
    ];
    for sample in samples {
        assert_eq!(trim(sample), sample.trim(), "{:?}", sample);
    }
}

#[test]
fn trim_twice_is_trim_once() {
    for sample in ["", "   ", " Ana ", "\tAna Maria \n", "Ana"] {
        assert_eq!(trim(trim(sample)), trim(sample));
    }
}

#[test]
fn contains_char_finds_a_character_anywhere() {
    assert!(contains_char("ana@example.com", '@'));
    assert!(contains_char("@", '@'));
    assert!(contains_char("ana@", '@'));
    assert!(contains_char("añ@", '@'));
    assert!(!contains_char("ana-no-at", '@'));
    assert!(!contains_char("", '@'));
    assert!(contains_char("señor", 'ñ'));
}
