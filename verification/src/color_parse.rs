//! Reading a color from a text: `#rrggbb`, `r,g,b`, or a name.
use crate::colors::RGBColor;
use crate::text::byte_value;
use crate::text::find;
use crate::text::hex_char;
use crate::text::hex_digit_char;
use crate::text::hex_digit;
use crate::text::hex_digit_value;
use crate::text::lowercase;
use crate::text::parse_byte;
use crate::text::position_of;
use crate::text::same_text;
use crate::text::to_chars;
use crate::text::trim;
use crate::text::trimmed;
use vstd::prelude::*;
use vstd::string::StringExecFns;

verus! {

/// Why a text could not be read as a color.
#[derive(Debug, PartialEq, Eq)]
pub enum ParseErrorKind {
    /// The text holds a comma and is no triple of numbers from 0 to 255.
    InvalidFormat(String),
    /// The text is no name of a color.
    UnsupportedName(String),
    /// The text starts with `#` and is not `#` and six hexadecimal digits.
    InvalidHexValue(String),
}

impl ParseErrorKind {
    /// The sentence that describes the error: what went wrong, then the
    /// text that the error holds.
    pub open spec fn message_text(self) -> Seq<char> {
        match self {
            ParseErrorKind::InvalidFormat(format) => "Invalid color format: "@ + format@,
            ParseErrorKind::UnsupportedName(name) => "Unsupported color name: "@ + name@,
            ParseErrorKind::InvalidHexValue(value) => "Invalid hex value: "@ + value@,
        }
    }

    /// The sentence that describes the error.
    pub fn message(&self) -> (m: String)
        ensures
            m@ == self.message_text(),
    {
        match self {
            ParseErrorKind::InvalidFormat(format) => String::from_str(
                "Invalid color format: ",
            ).concat(format.as_str()),
            ParseErrorKind::UnsupportedName(name) => String::from_str(
                "Unsupported color name: ",
            ).concat(name.as_str()),
            ParseErrorKind::InvalidHexValue(value) => String::from_str(
                "Invalid hex value: ",
            ).concat(value.as_str()),
        }
    }
}

/// The byte that two hexadecimal digits write, the high digit first.
pub open spec fn hex_byte(high: char, low: char) -> Option<u8> {
    if hex_digit(high) is Some && hex_digit(low) is Some {
        Some((16 * hex_digit(high)->0 + hex_digit(low)->0) as u8)
    } else {
        None
    }
}

/// The color that a text of the form `#rrggbb` writes: a `#` and six
/// hexadecimal digits, two for each channel. `None` for any other text.
pub open spec fn hex_color(s: Seq<char>) -> Option<RGBColor> {
    if s.len() == 7 && s[0] == '#' && hex_byte(s[1], s[2]) is Some && hex_byte(s[3], s[4]) is Some
        && hex_byte(s[5], s[6]) is Some {
        Some(RGBColor(hex_byte(s[1], s[2])->0, hex_byte(s[3], s[4])->0, hex_byte(s[5], s[6])->0))
    } else {
        None
    }
}

/// The color that a text of the form `r,g,b` writes: three parts with a
/// comma between them, each part a number from 0 to 255 once the white
/// space around it is dropped. `None` for any other text.
pub open spec fn rgb_color(s: Seq<char>) -> Option<RGBColor> {
    let first = position_of(s, ',', 0);
    let second = position_of(s, ',', first + 1);
    if first < s.len() && second < s.len() && position_of(s, ',', second + 1) >= s.len() {
        let r = byte_value(trimmed(s, 0, first));
        let g = byte_value(trimmed(s, first + 1, second));
        let b = byte_value(trimmed(s, second + 1, s.len() as int));
        if r is Some && g is Some && b is Some {
            Some(RGBColor(r->0, g->0, b->0))
        } else {
            None
        }
    } else {
        None
    }
}

/// The color that a lowercase name stands for, if any.
pub open spec fn named_color(name: Seq<char>) -> Option<RGBColor> {
    if name == "black"@ {
        Some(RGBColor(0, 0, 0))
    } else if name == "red"@ {
        Some(RGBColor(255, 0, 0))
    } else if name == "green"@ {
        Some(RGBColor(0, 255, 0))
    } else if name == "yellow"@ {
        Some(RGBColor(255, 255, 0))
    } else if name == "blue"@ {
        Some(RGBColor(0, 0, 255))
    } else if name == "magenta"@ {
        Some(RGBColor(255, 0, 255))
    } else if name == "cyan"@ {
        Some(RGBColor(0, 255, 255))
    } else if name == "white"@ {
        Some(RGBColor(255, 255, 255))
    } else {
        None
    }
}

/// The color that `name`, already in lowercase, stands for.
pub fn color_of_name(name: &str) -> (r: Option<RGBColor>)
    ensures
        r == named_color(name@),
{
    if same_text(name, "black") {
        Some(RGBColor(0, 0, 0))
    } else if same_text(name, "red") {
        Some(RGBColor(255, 0, 0))
    } else if same_text(name, "green") {
        Some(RGBColor(0, 255, 0))
    } else if same_text(name, "yellow") {
        Some(RGBColor(255, 255, 0))
    } else if same_text(name, "blue") {
        Some(RGBColor(0, 0, 255))
    } else if same_text(name, "magenta") {
        Some(RGBColor(255, 0, 255))
    } else if same_text(name, "cyan") {
        Some(RGBColor(0, 255, 255))
    } else if same_text(name, "white") {
        Some(RGBColor(255, 255, 255))
    } else {
        None
    }
}

/// Whether `r` is what reading `s` in the form `#rrggbb` gives: the color
/// that `s` writes, or an invalid hex value that holds `s`.
pub open spec fn reads_hex(s: Seq<char>, r: Result<RGBColor, ParseErrorKind>) -> bool {
    match hex_color(s) {
        Some(c) => r == Ok::<RGBColor, ParseErrorKind>(c),
        None => r matches Err(ParseErrorKind::InvalidHexValue(t)) && t@ == s,
    }
}

/// Whether `r` is what reading `s` in the form `r,g,b` gives: the color
/// that `s` writes, or an invalid format that holds `s`.
pub open spec fn reads_rgb(s: Seq<char>, r: Result<RGBColor, ParseErrorKind>) -> bool {
    match rgb_color(s) {
        Some(c) => r == Ok::<RGBColor, ParseErrorKind>(c),
        None => r matches Err(ParseErrorKind::InvalidFormat(t)) && t@ == s,
    }
}

/// Whether `r` is what reading `s` as a name gives: the color that `s`
/// names in whatever case, or an unsupported name that holds `s` in
/// lowercase.
pub open spec fn reads_name(s: Seq<char>, r: Result<RGBColor, ParseErrorKind>) -> bool {
    match named_color(lowercase(s)) {
        Some(c) => r == Ok::<RGBColor, ParseErrorKind>(c),
        None => r matches Err(ParseErrorKind::UnsupportedName(t)) && t@ == lowercase(s),
    }
}

/// The byte that two hexadecimal digits write, the high digit first.
fn parse_hex_byte(high: char, low: char) -> (r: Option<u8>)
    ensures
        r == hex_byte(high, low),
{
    match (hex_digit_value(high), hex_digit_value(low)) {
        (Some(h), Some(l)) => Some(16 * h + l),
        _ => None,
    }
}

/// The color that a text of the form `#rrggbb` writes.
fn parse_hex(chars: &Vec<char>) -> (r: Option<RGBColor>)
    ensures
        r == hex_color(chars@),
{
    if chars.len() != 7 || chars[0] != '#' {
        return None;
    }
    match (
        parse_hex_byte(chars[1], chars[2]),
        parse_hex_byte(chars[3], chars[4]),
        parse_hex_byte(chars[5], chars[6]),
    ) {
        (Some(r), Some(g), Some(b)) => Some(RGBColor(r, g, b)),
        _ => None,
    }
}

/// The number that the part of the text from `from` to `to` writes, white
/// space around it aside.
fn parse_part(chars: &Vec<char>, from: usize, to: usize) -> (r: Option<u8>)
    requires
        from <= to <= chars@.len(),
    ensures
        r == byte_value(trimmed(chars@, from as int, to as int)),
{
    let (start, end) = trim(chars, from, to);
    parse_byte(chars, start, end)
}

/// The color that a text of the form `r,g,b` writes.
fn parse_rgb(chars: &Vec<char>) -> (r: Option<RGBColor>)
    ensures
        r == rgb_color(chars@),
{
    let n = chars.len();
    let first = find(chars, ',', 0);
    if first >= n {
        return None;
    }
    let second = find(chars, ',', first + 1);
    if second >= n {
        return None;
    }
    if find(chars, ',', second + 1) < n {
        return None;
    }
    match (
        parse_part(chars, 0, first),
        parse_part(chars, first + 1, second),
        parse_part(chars, second + 1, n),
    ) {
        (Some(r), Some(g), Some(b)) => Some(RGBColor(r, g, b)),
        _ => None,
    }
}

impl RGBColor {
    /// Reads a color of the form `#rrggbb`.
    pub fn from_hex_str(s: &str) -> (r: Result<RGBColor, ParseErrorKind>)
        ensures
            reads_hex(s@, r),
    {
        let chars = to_chars(s);
        match parse_hex(&chars) {
            Some(c) => Ok(c),
            None => Err(ParseErrorKind::InvalidHexValue(String::from_str(s))),
        }
    }

    /// Reads a color of the form `r,g,b`.
    pub fn from_rgb_str(s: &str) -> (r: Result<RGBColor, ParseErrorKind>)
        ensures
            reads_rgb(s@, r),
    {
        let chars = to_chars(s);
        match parse_rgb(&chars) {
            Some(c) => Ok(c),
            None => Err(ParseErrorKind::InvalidFormat(String::from_str(s))),
        }
    }

    /// Reads a color from its name, whatever the case of its letters. The
    /// error holds the name in lowercase.
    pub fn from_named_color(s: &str) -> (r: Result<RGBColor, ParseErrorKind>)
        ensures
            reads_name(s@, r),
    {
        let lower = s.to_lowercase();
        match color_of_name(lower.as_str()) {
            Some(c) => Ok(c),
            None => Err(ParseErrorKind::UnsupportedName(lower)),
        }
    }

    /// The color that a text writes: in the form `#rrggbb` where it starts
    /// with `#`; else in the form `r,g,b` where it holds a comma; else by
    /// its name.
    pub open spec fn parsed(s: Seq<char>) -> Option<RGBColor> {
        if s.len() > 0 && s[0] == '#' {
            hex_color(s)
        } else if position_of(s, ',', 0) < s.len() {
            rgb_color(s)
        } else {
            named_color(lowercase(s))
        }
    }

    /// Whether `r` is what reading `s` gives: the color that `s` writes,
    /// or else the error of the form that `s` was taken for, which holds
    /// the text (for a name, in lowercase).
    pub open spec fn reads(s: Seq<char>, r: Result<RGBColor, ParseErrorKind>) -> bool {
        if s.len() > 0 && s[0] == '#' {
            reads_hex(s, r)
        } else if position_of(s, ',', 0) < s.len() {
            reads_rgb(s, r)
        } else {
            reads_name(s, r)
        }
    }

    /// Reads a color from a text in one of the three forms.
    pub fn parse(s: &str) -> (r: Result<RGBColor, ParseErrorKind>)
        ensures
            RGBColor::reads(s@, r),
            r is Ok <==> RGBColor::parsed(s@) is Some,
            r is Ok ==> r->Ok_0 == RGBColor::parsed(s@)->0,
    {
        let chars = to_chars(s);
        if chars.len() > 0 && chars[0] == '#' {
            RGBColor::from_hex_str(s)
        } else if find(&chars, ',', 0) < chars.len() {
            RGBColor::from_rgb_str(s)
        } else {
            RGBColor::from_named_color(s)
        }
    }
}

impl std::str::FromStr for RGBColor {
    type Err = ParseErrorKind;

    /// Reads a color as `RGBColor::parse` does.
    fn from_str(s: &str) -> (r: Result<Self, Self::Err>)
        ensures
            RGBColor::reads(s@, r),
            r is Ok <==> RGBColor::parsed(s@) is Some,
            r is Ok ==> r->Ok_0 == RGBColor::parsed(s@)->0,
    {
        RGBColor::parse(s)
    }
}

impl From<(u8, u8, u8)> for RGBColor {
    /// The color of three channels: red, green, blue.
    fn from(value: (u8, u8, u8)) -> (c: Self) {
        Self(value.0, value.1, value.2)
    }
}

impl vstd::std_specs::convert::FromSpecImpl<(u8, u8, u8)> for RGBColor {
    open spec fn obeys_from_spec() -> bool {
        true
    }

    open spec fn from_spec(value: (u8, u8, u8)) -> Self {
        RGBColor(value.0, value.1, value.2)
    }
}

impl RGBColor {
    /// The color in the form `#RRGGBB`: a `#`, then two hexadecimal digits
    /// for each channel, the letters in upper case.
    pub open spec fn hex_text(self) -> Seq<char> {
        seq![
            '#',
            hex_char(self.0 as int / 16),
            hex_char(self.0 as int % 16),
            hex_char(self.1 as int / 16),
            hex_char(self.1 as int % 16),
            hex_char(self.2 as int / 16),
            hex_char(self.2 as int % 16),
        ]
    }

    /// Writes the color in the form `#RRGGBB`.
    pub fn hex(&self) -> (s: String)
        ensures
            s@ == self.hex_text(),
    {
        let mut s = String::new();
        s.push('#');
        s.push(hex_digit_char(self.0 / 16));
        s.push(hex_digit_char(self.0 % 16));
        s.push(hex_digit_char(self.1 / 16));
        s.push(hex_digit_char(self.1 % 16));
        s.push(hex_digit_char(self.2 / 16));
        s.push(hex_digit_char(self.2 % 16));
        s
    }
}

/// Reading what `hex` writes gives the color back, for every color.
pub proof fn lemma_hex_round_trip(c: RGBColor)
    ensures
        hex_color(c.hex_text()) == Some(c),
        RGBColor::parsed(c.hex_text()) == Some(c),
        forall|r: Result<RGBColor, ParseErrorKind>|
            RGBColor::reads(c.hex_text(), r) ==> r == Ok::<RGBColor, ParseErrorKind>(c),
{
}

} // verus!
