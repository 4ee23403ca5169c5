use matrix_rain::symbols::binary_symbol;
use matrix_rain::symbols::custom_symbol;
use matrix_rain::symbols::math_range;
use matrix_rain::symbols::symbol_of_code;
use matrix_rain::symbols::Mode;
use matrix_rain::symbols::ParseError;
use matrix_rain::symbols::Symbols;
use std::str::FromStr;

fn code(c: char) -> u32 {
    u32::from(c)
}

#[test]
fn original_symbols_are_katakana() {
    for _ in 0..2000 {
        let c = code(Symbols::Original.get_random());
        assert!((0x30a0..0x30a0 + 96).contains(&c));
    }
}

#[test]
fn binary_symbols_are_zero_or_one() {
    let mut zero = false;
    let mut one = false;
    for _ in 0..2000 {
        match Symbols::Binary.get_random() {
            '0' => zero = true,
            '1' => one = true,
            other => panic!("{other} is no binary digit"),
        }
    }
    assert!(zero && one);
}

#[test]
fn ascii_symbols_are_printable() {
    for _ in 0..2000 {
        let c = Symbols::ASCII.get_random();
        assert!(('!'..='~').contains(&c));
    }
}

#[test]
fn braille_symbols_come_from_the_block_of_64() {
    let mut seen = [false; 64];
    for _ in 0..20000 {
        let c = code(Symbols::Braille.get_random());
        assert!((0x2840..0x2880).contains(&c));
        seen[(c - 0x2840) as usize] = true;
    }
    assert!(seen.iter().all(|s| *s));
}

#[test]
fn cursed_symbols_are_pictographs() {
    for _ in 0..2000 {
        let c = code(Symbols::Cursed.get_random());
        assert!((0x1f300..0x1f3f0).contains(&c));
    }
}

#[test]
fn math_symbols_come_from_the_four_ranges() {
    let mut seen = [false; 4];
    for _ in 0..4000 {
        let c = code(Symbols::Math.get_random());
        if (0x2210..0x221f).contains(&c) {
            seen[0] = true;
        } else if (0x2260..0x226f).contains(&c) {
            seen[1] = true;
        } else if (0x2190..0x21ff).contains(&c) {
            seen[2] = true;
        } else if (0x27c0..0x27ef).contains(&c) {
            seen[3] = true;
        } else {
            panic!("{c:#x} is no mathematical symbol of the set");
        }
    }
    assert_eq!(seen, [true; 4]);
}

#[test]
fn custom_symbols_come_from_the_text() {
    let set = Symbols::Custom("ab\u{65e5}\u{672c}".to_string());
    let mut seen = [false; 4];
    for _ in 0..4000 {
        match set.get_random() {
            'a' => seen[0] = true,
            'b' => seen[1] = true,
            '\u{65e5}' => seen[2] = true,
            '\u{672c}' => seen[3] = true,
            other => panic!("{other} is not in the set"),
        }
    }
    assert_eq!(seen, [true; 4]);
}

#[test]
fn an_empty_custom_set_gives_the_fallback() {
    let set = Symbols::Custom(String::new());
    for _ in 0..100 {
        assert_eq!(set.get_random(), '0');
    }
}

#[test]
fn codes_become_symbols() {
    assert_eq!(symbol_of_code(0x30a2), '\u{30a2}');
    assert_eq!(symbol_of_code(33), '!');
    assert_eq!(symbol_of_code(0x10ffff), '\u{10ffff}');
    assert_eq!(symbol_of_code(0xd800), '0');
    assert_eq!(symbol_of_code(0xdfff), '0');
    assert_eq!(symbol_of_code(0x110000), '0');
    assert_eq!(symbol_of_code(u32::MAX), '0');
}

#[test]
fn draws_become_binary_digits() {
    assert_eq!(binary_symbol(0), '0');
    assert_eq!(binary_symbol(1), '1');
    assert_eq!(binary_symbol(7), '1');
}

#[test]
fn categories_have_their_ranges() {
    assert_eq!(math_range(0), (0x2210, 0x221f));
    assert_eq!(math_range(1), (0x2260, 0x226f));
    assert_eq!(math_range(2), (0x2190, 0x21ff));
    assert_eq!(math_range(3), (0x27c0, 0x27ef));
    assert_eq!(math_range(99), (0x27c0, 0x27ef));
}

#[test]
fn positions_of_a_custom_text() {
    assert_eq!(custom_symbol("a\u{65e5}c", 0), 'a');
    assert_eq!(custom_symbol("a\u{65e5}c", 1), '\u{65e5}');
    assert_eq!(custom_symbol("a\u{65e5}c", 2), 'c');
    assert_eq!(custom_symbol("a\u{65e5}c", 3), '0');
    assert_eq!(custom_symbol("", 0), '0');
}

#[test]
fn sets_are_read_by_name() {
    for name in ["original", "Normal", "KATAKANA"] {
        assert_eq!(Symbols::parse(name), Ok(Symbols::Original));
    }
    for name in ["binary", "Bin"] {
        assert_eq!(Symbols::parse(name), Ok(Symbols::Binary));
    }
    for name in ["maths", "Math", "MATHEMATICS"] {
        assert_eq!(Symbols::parse(name), Ok(Symbols::Math));
    }
    for name in ["ascii", "Text", "English"] {
        assert_eq!(Symbols::parse(name), Ok(Symbols::ASCII));
    }
    for name in ["braille", "Dots"] {
        assert_eq!(Symbols::parse(name), Ok(Symbols::Braille));
    }
    for name in ["emoji", "Cursed"] {
        assert_eq!(Symbols::from_str(name), Ok(Symbols::Cursed));
    }
    assert_eq!(
        Symbols::parse("abc123"),
        Ok(Symbols::Custom("abc123".to_string()))
    );
    assert_eq!(
        Symbols::parse("XyZ"),
        Ok(Symbols::Custom("xyz".to_string()))
    );
    assert_eq!(Symbols::parse(""), Ok(Symbols::Custom(String::new())));
    assert_eq!(Symbols::from_name("dots"), Some(Symbols::Braille));
    assert_eq!(Symbols::from_name("Dots"), None);
}

#[test]
fn a_set_can_be_cloned() {
    let set = Symbols::Custom("xyz".to_string());
    assert_eq!(set.clone(), set);
    assert_eq!(Symbols::Math.clone(), Symbols::Math);
}

#[test]
fn modes_are_read_by_name() {
    assert_eq!(Mode::parse("original"), Ok(Mode::Original));
    assert_eq!(Mode::parse("BINARY"), Ok(Mode::Binary));
    assert_eq!(Mode::from_str("Ascii"), Ok(Mode::ASCII));
    assert_eq!(Mode::parse("braille"), Ok(Mode::Braille));
    assert_eq!(Mode::parse("math"), Err(ParseError {}));
    assert_eq!(Mode::Original.symbols(), Symbols::Original);
    assert_eq!(Mode::Binary.symbols(), Symbols::Binary);
    assert_eq!(Mode::ASCII.symbols(), Symbols::ASCII);
    assert_eq!(Mode::Braille.symbols(), Symbols::Braille);
    assert_eq!(ParseError {}.message(), "Failed to parse symbol set");
}

#[test]
fn every_set_has_its_range_of_draws() {
    assert_eq!(Symbols::Original.draw_range(), (0x30a0, 0x30a0 + 96));
    assert_eq!(Symbols::Binary.draw_range(), (0, 2));
    assert_eq!(Symbols::ASCII.draw_range(), (33, 127));
    assert_eq!(Symbols::Math.draw_range(), (0, 4));
    assert_eq!(Symbols::Braille.draw_range(), (0x2840, 0x2840 + 64));
    assert_eq!(Symbols::Cursed.draw_range(), (0x1f300, 0x1f3f0));
    let set = Symbols::Custom("ab\u{65e5}\u{672c}".to_string());
    assert_eq!(set.draw_range(), (0, 4));
    assert_eq!(Symbols::Custom(String::new()).draw_range(), (0, 0));
}

#[test]
fn every_symbol_of_a_block_comes_out() {
    let blocks = [
        (Symbols::Original, 0x30a0u32, 96usize),
        (Symbols::ASCII, 33, 94),
        (Symbols::Cursed, 0x1f300, 0xf0),
    ];
    for (set, first, len) in blocks {
        let mut seen = vec![false; len];
        for _ in 0..40000 {
            let c = code(set.get_random());
            seen[(c - first) as usize] = true;
        }
        assert!(seen.iter().all(|s| *s));
    }
}
