use matrix_rain::text::decimal_digit_value;
use matrix_rain::text::find;
use matrix_rain::text::hex_digit_char;
use matrix_rain::text::hex_digit_value;
use matrix_rain::text::is_white_space;
use matrix_rain::text::parse_byte;
use matrix_rain::text::push_decimal;
use matrix_rain::text::same_text;
use matrix_rain::text::to_chars;
use matrix_rain::text::trim;

#[test]
fn texts_become_characters() {
    assert_eq!(to_chars(""), Vec::<char>::new());
    assert_eq!(to_chars("a\u{65e5}b"), vec!['a', '\u{65e5}', 'b']);
}

#[test]
fn texts_are_compared_by_their_characters() {
    assert!(same_text("", ""));
    assert!(same_text("black", "black"));
    assert!(!same_text("black", "blacK"));
    assert!(!same_text("black", "blac"));
    assert!(!same_text("blac", "black"));
    assert!(same_text("\u{65e5}\u{672c}", "\u{65e5}\u{672c}"));
    assert!(!same_text("\u{65e5}\u{672c}", "\u{65e5}\u{672d}"));
}

#[test]
fn white_space_is_what_unicode_says() {
    for code in 0..0x11000u32 {
        if let Some(c) = char::from_u32(code) {
            assert_eq!(is_white_space(c), c.is_whitespace(), "{code:#x}");
        }
    }
}

#[test]
fn trimming_drops_white_space_at_both_ends() {
    let s = to_chars("  a b\t\n");
    assert_eq!(trim(&s, 0, s.len()), (2, 5));
    assert_eq!(trim(&s, 3, s.len()), (4, 5));
    assert_eq!(trim(&s, 0, 2), (2, 2));
    assert_eq!(trim(&s, 2, 3), (2, 3));
    assert_eq!(trim(&s, 5, 7), (7, 7));
    assert_eq!(trim(&s, 4, 4), (4, 4));
    let blank = to_chars(" \u{a0}\u{3000} ");
    assert_eq!(trim(&blank, 0, 4), (4, 4));
    let empty = to_chars("");
    assert_eq!(trim(&empty, 0, 0), (0, 0));
}

#[test]
fn finding_gives_the_first_position() {
    let s = to_chars("1,22,,3");
    assert_eq!(find(&s, ',', 0), 1);
    assert_eq!(find(&s, ',', 1), 1);
    assert_eq!(find(&s, ',', 2), 4);
    assert_eq!(find(&s, ',', 5), 5);
    assert_eq!(find(&s, ',', 6), 7);
    assert_eq!(find(&s, ',', 7), 7);
    assert_eq!(find(&s, ';', 0), 7);
}

#[test]
fn bytes_are_read_in_decimal() {
    let read = |text: &str| {
        let s = to_chars(text);
        parse_byte(&s, 0, s.len())
    };
    assert_eq!(read("0"), Some(0));
    assert_eq!(read("7"), Some(7));
    assert_eq!(read("255"), Some(255));
    assert_eq!(read("+255"), Some(255));
    assert_eq!(read("0000255"), Some(255));
    assert_eq!(read("256"), None);
    assert_eq!(read("1000"), None);
    assert_eq!(read("99999999999999999999999999"), None);
    assert_eq!(read(""), None);
    assert_eq!(read("+"), None);
    assert_eq!(read("++1"), None);
    assert_eq!(read("-1"), None);
    assert_eq!(read("1 "), None);
    assert_eq!(read("1a"), None);
    assert_eq!(read("2561a"), None);
    assert_eq!(read("\u{664}"), None);
    let s = to_chars("ab12cd");
    assert_eq!(parse_byte(&s, 2, 4), Some(12));
    assert_eq!(parse_byte(&s, 2, 5), None);
    assert_eq!(parse_byte(&s, 3, 3), None);
}

#[test]
fn digits_have_their_values() {
    for (i, c) in "0123456789".chars().enumerate() {
        assert_eq!(decimal_digit_value(c), Some(i as u8));
        assert_eq!(hex_digit_value(c), Some(i as u8));
    }
    for (i, c) in "abcdef".chars().enumerate() {
        assert_eq!(hex_digit_value(c), Some(10 + i as u8));
        assert_eq!(decimal_digit_value(c), None);
    }
    for (i, c) in "ABCDEF".chars().enumerate() {
        assert_eq!(hex_digit_value(c), Some(10 + i as u8));
        assert_eq!(hex_digit_char(10 + i as u8), c);
    }
    for c in ['g', 'G', '/', ':', '@', '`', ' ', '\u{ff11}'] {
        assert_eq!(hex_digit_value(c), None);
        assert_eq!(decimal_digit_value(c), None);
    }
    assert_eq!(hex_digit_char(0), '0');
    assert_eq!(hex_digit_char(9), '9');
}

#[test]
fn numbers_are_written_in_decimal() {
    for n in 0..=255u8 {
        let mut out = String::from("x");
        push_decimal(&mut out, n);
        assert_eq!(out, format!("x{n}"));
    }
}
