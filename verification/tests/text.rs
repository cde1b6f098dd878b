use service_observer::text::{chars_of, decimal_text, split_text, text_of, trimmed, whitespace};

#[test]
fn whitespace_is_what_unicode_calls_white_space() {
    for code in 0..=0x10FFFFu32 {
        if let Some(c) = char::from_u32(code) {
            assert_eq!(whitespace(c), c.is_whitespace(), "U+{:04X}", code);
        }
    }
}

#[test]
fn trimming_takes_the_whitespace_off_both_ends() {
    assert_eq!(trimmed("  a b  "), "a b");
    assert_eq!(trimmed("\t\r\n{\"a\": 1}\n"), "{\"a\": 1}");
    assert_eq!(trimmed("\u{a0}\u{3000}x\u{2028}"), "x");
    assert_eq!(trimmed("x"), "x");
    assert_eq!(trimmed(""), "");
    assert_eq!(trimmed(" \n\t "), "");
    assert_eq!(trimmed("\u{feff}x"), "\u{feff}x");
    for text in ["  one two ", "\u{85}\u{1680}caf\u{e9} \u{205f}", "\u{200b} zero width \u{200b}"] {
        assert_eq!(trimmed(text), text.trim());
    }
}

#[test]
fn splitting_gives_one_more_piece_than_separators() {
    assert_eq!(split_text("", '\n'), vec![""]);
    assert_eq!(split_text("a", '\n'), vec!["a"]);
    assert_eq!(split_text("a\n", '\n'), vec!["a", ""]);
    assert_eq!(split_text("\na", '\n'), vec!["", "a"]);
    assert_eq!(split_text("a\n\nb", '\n'), vec!["a", "", "b"]);
    assert_eq!(split_text("1.2.3.4", '.'), vec!["1", "2", "3", "4"]);
    assert_eq!(split_text("\n\n", '\n'), vec!["", "", ""]);
    for text in ["x\ny\r\nz", "\n", "no newline", "caf\u{e9}\n\u{3000}"] {
        let expected: Vec<&str> = text.split('\n').collect();
        assert_eq!(split_text(text, '\n'), expected);
    }
}

#[test]
fn characters_and_back() {
    let chars = chars_of("h\u{e9}llo");
    assert_eq!(chars, vec!['h', '\u{e9}', 'l', 'l', 'o']);
    assert_eq!(text_of(&chars, 0, 5), "h\u{e9}llo");
    assert_eq!(text_of(&chars, 1, 3), "\u{e9}l");
    assert_eq!(text_of(&chars, 2, 2), "");
    assert!(chars_of("").is_empty());
}

#[test]
fn numbers_in_decimal_notation() {
    assert_eq!(decimal_text(0), "0");
    assert_eq!(decimal_text(7), "7");
    assert_eq!(decimal_text(10), "10");
    assert_eq!(decimal_text(255), "255");
    assert_eq!(decimal_text(1_000_000), "1000000");
    assert_eq!(decimal_text(usize::MAX), usize::MAX.to_string());
}
