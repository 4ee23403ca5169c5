use matrix_rain::ansi::ansi_rgb;
use matrix_rain::colors::RGBColor;
use matrix_rain::random::random_between;

#[test]
fn should_wrap_in_rgb_ansi_code() {
    let color = RGBColor(127, 102, 167);
    let str = '#';
    let ansi_str = "\x1b[38;2;127;102;167m#\x1b[0m";
    assert_eq!(ansi_rgb(&str, color), ansi_str);
}

#[test]
fn utils_should_wrap_in_rgb_ansi_code() {
    let color = RGBColor(127, 102, 167);
    let str = '#';
    let ansi_str = "\x1b[38;2;127;102;167m#\x1b[0m";
    assert_eq!(ansi_rgb(&str, color), ansi_str);
}

#[test]
fn wraps_symbols_of_any_width_and_channels_of_any_length() {
    let color = RGBColor(0, 9, 10);
    let ansi_str = "\x1b[38;2;0;9;10m\u{30a2}\x1b[0m";
    assert_eq!(ansi_rgb(&'\u{30a2}', color), ansi_str);
    let color = RGBColor(99, 100, 255);
    assert_eq!(ansi_rgb(&' ', color), "\x1b[38;2;99;100;255m \x1b[0m");
}

#[test]
fn no_random_number_between_0_and_1() {
    assert_eq!(random_between(0, 1), 0);
}

#[test]
fn utils_no_random_number_between_0_and_1() {
    assert_eq!(random_between(0, 1), 0);
}

#[test]
fn a_range_of_one_value_gives_that_value() {
    for _ in 0..100 {
        assert_eq!(random_between::<u16>(7, 8), 7);
    }
}

#[test]
fn utils_random_number_within_range() {
    let min = -15;
    let max = 45;
    for _ in 0..100 {
        let x = random_between(min, max);
        if x < min || x >= max {
            panic!("Random number not between specified range")
        }
    }
}

#[test]
fn utils_random_number_between_floats() {
    let min = 0.5;
    let max = 5.5;
    for _ in 0..100 {
        let x = random_between(min, max);
        assert!(
            x >= min && x < max,
            "Random float not within specified range"
        );
    }
}

#[test]
fn utils_random_number_with_negative_min() {
    let min = -50;
    let max = 50;
    for _ in 0..100 {
        let x = random_between(min, max);
        assert!(
            x >= min && x < max,
            "Random number not within specified range when min is negative"
        );
    }
}

#[test]
fn utils_random_i32s_return_i32() {
    let number = random_between(-15, 32);
    let type_of_number = type_of(&number);
    assert_eq!(type_of_number, "i32");
}

#[test]
fn utils_random_u16s_return_u16() {
    let number = random_between::<u16>(0, 120);
    let type_of_number = type_of(&number);
    assert_eq!(type_of_number, "u16");
}

#[test]
fn utils_random_u32s_return_u32() {
    let number = random_between::<u32>(100, 1000);
    let type_of_number = type_of(&number);
    assert_eq!(type_of_number, "u32");
}

#[test]
fn utils_random_i64s_return_i64() {
    let number = random_between::<i64>(-1000, 1000);
    let type_of_number = type_of(&number);
    assert_eq!(type_of_number, "i64");
}

#[test]
fn random_number_within_range() {
    let min = -15;
    let max = 45;
    for _ in 0..100 {
        let x = random_between(min, max);
        if x < min || x >= max {
            panic!("Random number not between specified range")
        }
    }
}

#[test]
fn random_number_between_floats() {
    let min = 0.5;
    let max = 5.5;
    for _ in 0..100 {
        let x = random_between(min, max);
        assert!(
            x >= min && x < max,
            "Random float not within specified range"
        );
    }
}

#[test]
fn random_number_with_negative_min() {
    let min = -50;
    let max = 50;
    for _ in 0..100 {
        let x = random_between(min, max);
        assert!(
            x >= min && x < max,
            "Random number not within specified range when min is negative"
        );
    }
}

trait Named {
    fn name(&self) -> &'static str;
}

impl Named for i32 {
    fn name(&self) -> &'static str {
        "i32"
    }
}

impl Named for u16 {
    fn name(&self) -> &'static str {
        "u16"
    }
}

impl Named for u32 {
    fn name(&self) -> &'static str {
        "u32"
    }
}

impl Named for i64 {
    fn name(&self) -> &'static str {
        "i64"
    }
}

/// Returns the type of the variable
fn type_of<T: Named>(value: &T) -> &str {
    value.name()
}

#[test]
fn random_i32s_return_i32() {
    let number = random_between(-15, 32);
    let type_of_number = type_of(&number);
    assert_eq!(type_of_number, "i32");
}

#[test]
fn random_u16s_return_u16() {
    let number = random_between::<u16>(0, 120);
    let type_of_number = type_of(&number);
    assert_eq!(type_of_number, "u16");
}

#[test]
fn random_u32s_return_u32() {
    let number = random_between::<u32>(100, 1000);
    let type_of_number = type_of(&number);
    assert_eq!(type_of_number, "u32");
}

#[test]
fn random_i64s_return_i64() {
    let number = random_between::<i64>(-1000, 1000);
    let type_of_number = type_of(&number);
    assert_eq!(type_of_number, "i64");
}

#[test]
fn random_draws_are_not_all_the_same() {
    let first = random_between::<u32>(0, 1_000_000);
    let mut differs = false;
    for _ in 0..100 {
        if random_between::<u32>(0, 1_000_000) != first {
            differs = true;
        }
    }
    assert!(differs);
}
