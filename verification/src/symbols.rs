//! The sets of symbols that the rain is drawn with.
use crate::random::random_between;
use crate::text::is_scalar_value;
use crate::text::lowercase;
use crate::text::same_text;
use vstd::prelude::*;
use vstd::string::StrSliceExecFns;

verus! {

/// The symbol that stands in where a set has none to offer.
pub const FALLBACK_SYMBOL: char = '0';

/// A set of symbols to draw from.
#[derive(Debug, PartialEq, Eq)]
pub enum Symbols {
    /// The 96 characters of the Katakana block, from U+30A0.
    Original,
    /// The digits `0` and `1`.
    Binary,
    /// The printable ASCII characters, from `!` to `~`.
    ASCII,
    /// Mathematical operators, relations, arrows and miscellaneous symbols.
    Math,
    /// The 64 Braille patterns from U+2840.
    Braille,
    /// The pictographs from U+1F300 up to, not including, U+1F3F0.
    Cursed,
    /// The characters of a given text.
    Custom(String),
}

impl Clone for Symbols {
    /// A copy of the set, with a copy of its text for a custom set.
    fn clone(&self) -> (r: Self)
        ensures
            r == *self,
    {
        match self {
            Symbols::Original => Symbols::Original,
            Symbols::Binary => Symbols::Binary,
            Symbols::ASCII => Symbols::ASCII,
            Symbols::Math => Symbols::Math,
            Symbols::Braille => Symbols::Braille,
            Symbols::Cursed => Symbols::Cursed,
            Symbols::Custom(s) => Symbols::Custom(s.clone()),
        }
    }
}

/// Whether the code `c` lies in the half-open range from `low` to `high`.
pub open spec fn in_range(c: char, low: int, high: int) -> bool {
    low <= (c as int) && (c as int) < high
}

impl Symbols {
    /// Whether `c` may come out of a draw from this set. An empty custom set
    /// offers the fallback symbol only.
    pub open spec fn offers(self, c: char) -> bool {
        match self {
            Symbols::Original => in_range(c, 0x30A0, 0x3100),
            Symbols::Binary => c == '0' || c == '1',
            Symbols::ASCII => in_range(c, 33, 127),
            Symbols::Math => in_range(c, 0x2210, 0x221F) || in_range(c, 0x2260, 0x226F)
                || in_range(c, 0x2190, 0x21FF) || in_range(c, 0x27C0, 0x27EF),
            Symbols::Braille => in_range(c, 0x2840, 0x2880),
            Symbols::Cursed => in_range(c, 0x1F300, 0x1F3F0),
            Symbols::Custom(s) => if s@.len() == 0 {
                c == FALLBACK_SYMBOL
            } else {
                s@.contains(c)
            },
        }
    }

    /// The range that the first draw for a symbol is made from, its end not
    /// included: the codes of the block for `Original`, `ASCII`, `Braille`
    /// and `Cursed`, the two digits for `Binary`, the four categories for
    /// `Math`, and the positions of the text for a custom set.
    pub open spec fn draw_bounds(self) -> (int, int) {
        match self {
            Symbols::Original => (0x30A0, 0x3100),
            Symbols::Binary => (0, 2),
            Symbols::ASCII => (33, 127),
            Symbols::Math => (0, 4),
            Symbols::Braille => (0x2840, 0x2880),
            Symbols::Cursed => (0x1F300, 0x1F3F0),
            Symbols::Custom(s) => (0, s@.len() as int),
        }
    }

    /// The range that the first draw for a symbol is made from, its end not
    /// included.
    pub fn draw_range(&self) -> (r: (usize, usize))
        ensures
            r.0 == self.draw_bounds().0,
            r.1 == self.draw_bounds().1,
    {
        match self {
            Symbols::Original => (0x30A0, 0x3100),
            Symbols::Binary => (0, 2),
            Symbols::ASCII => (33, 127),
            Symbols::Math => (0, 4),
            Symbols::Braille => (0x2840, 0x2880),
            Symbols::Cursed => (0x1F300, 0x1F3F0),
            Symbols::Custom(s) => (0, s.as_str().unicode_len()),
        }
    }

    /// Draws a random symbol of the set. The first draw is made over the
    /// whole range of the set, each value being as likely as any other:
    /// it is the code of the symbol for a block, the digit for `Binary`,
    /// and the position in the text for a custom set. For `Math` it is the
    /// category, and the code is then drawn from the range of that
    /// category. A custom set without characters gives the fallback symbol.
    pub fn get_random(&self) -> (c: char)
        ensures
            self.offers(c),
    {
        let (low, high) = self.draw_range();
        if low >= high {
            return FALLBACK_SYMBOL;
        }
        let draw = random_between::<usize>(low, high);
        match self {
            Symbols::Binary => binary_symbol(draw as u32),
            Symbols::Math => {
                let (first, end) = math_range(draw as u32);
                let code = random_between::<u32>(first, end);
                symbol_of_code(code)
            },
            Symbols::Custom(s) => custom_symbol(s.as_str(), draw),
            _ => symbol_of_code(draw as u32),
        }
    }
}

/// The character with the code `code`, or the fallback symbol where no
/// character has that code.
pub fn symbol_of_code(code: u32) -> (c: char)
    ensures
        is_scalar_value(code as int) ==> c as u32 == code,
        !is_scalar_value(code as int) ==> c == FALLBACK_SYMBOL,
{
    match char::from_u32(code) {
        Some(c) => c,
        None => FALLBACK_SYMBOL,
    }
}

/// The binary digit for a draw: `0` for a draw of 0, `1` for any other.
pub fn binary_symbol(draw: u32) -> (c: char)
    ensures
        c == (if draw == 0 {
            '0'
        } else {
            '1'
        }),
{
    if draw == 0 {
        '0'
    } else {
        '1'
    }
}

/// The range of codes of a category of mathematical symbols: operators for
/// 0, relations for 1, arrows for 2, miscellaneous symbols for any other.
pub fn math_range(category: u32) -> (r: (u32, u32))
    ensures
        r == (if category == 0 {
            (0x2210u32, 0x221Fu32)
        } else if category == 1 {
            (0x2260u32, 0x226Fu32)
        } else if category == 2 {
            (0x2190u32, 0x21FFu32)
        } else {
            (0x27C0u32, 0x27EFu32)
        }),
{
    if category == 0 {
        (0x2210, 0x221F)
    } else if category == 1 {
        (0x2260, 0x226F)
    } else if category == 2 {
        (0x2190, 0x21FF)
    } else {
        (0x27C0, 0x27EF)
    }
}

/// The character at position `index` of `set`, or the fallback symbol where
/// the text has no such position.
pub fn custom_symbol(set: &str, index: usize) -> (c: char)
    ensures
        index < set@.len() ==> c == set@[index as int],
        index >= set@.len() ==> c == FALLBACK_SYMBOL,
{
    if index < set.unicode_len() {
        set.get_char(index)
    } else {
        FALLBACK_SYMBOL
    }
}

/// The error of reading a set of symbols.
#[derive(Debug, PartialEq, Eq)]
pub struct ParseError {}

impl ParseError {
    /// The sentence that describes the error.
    pub fn message(&self) -> (m: String)
        ensures
            m@ == "Failed to parse symbol set"@,
    {
        "Failed to parse symbol set".to_owned()
    }
}

impl Symbols {
    /// The built-in set that a lowercase name stands for, if any.
    pub open spec fn named(name: Seq<char>) -> Option<Symbols> {
        if name == "original"@ || name == "normal"@ || name == "katakana"@ {
            Some(Symbols::Original)
        } else if name == "binary"@ || name == "bin"@ {
            Some(Symbols::Binary)
        } else if name == "maths"@ || name == "math"@ || name == "mathematics"@ {
            Some(Symbols::Math)
        } else if name == "ascii"@ || name == "text"@ || name == "english"@ {
            Some(Symbols::ASCII)
        } else if name == "braille"@ || name == "dots"@ {
            Some(Symbols::Braille)
        } else if name == "emoji"@ || name == "cursed"@ {
            Some(Symbols::Cursed)
        } else {
            None
        }
    }

    /// The built-in set that `name`, already in lowercase, stands for.
    pub fn from_name(name: &str) -> (r: Option<Symbols>)
        ensures
            r == Symbols::named(name@),
    {
        if same_text(name, "original") || same_text(name, "normal") || same_text(name, "katakana") {
            Some(Symbols::Original)
        } else if same_text(name, "binary") || same_text(name, "bin") {
            Some(Symbols::Binary)
        } else if same_text(name, "maths") || same_text(name, "math") || same_text(
            name,
            "mathematics",
        ) {
            Some(Symbols::Math)
        } else if same_text(name, "ascii") || same_text(name, "text") || same_text(
            name,
            "english",
        ) {
            Some(Symbols::ASCII)
        } else if same_text(name, "braille") || same_text(name, "dots") {
            Some(Symbols::Braille)
        } else if same_text(name, "emoji") || same_text(name, "cursed") {
            Some(Symbols::Cursed)
        } else {
            None
        }
    }

    /// Whether `set` is the set that the lowercase text `lower` stands
    /// for: the built-in set of that name, or else the custom set of the
    /// characters of `lower`.
    pub open spec fn stands_for(lower: Seq<char>, set: Symbols) -> bool {
        match Symbols::named(lower) {
            Some(named) => set == named,
            None => set matches Symbols::Custom(t) && t@ == lower,
        }
    }

    /// Reads a set of symbols: one of the built-in sets by its name,
    /// whatever the case of its letters, or else the custom set of the
    /// characters of the text in lowercase. Every text is read.
    pub fn parse(s: &str) -> (r: Result<Symbols, ParseError>)
        ensures
            r is Ok,
            Symbols::stands_for(lowercase(s@), r->Ok_0),
    {
        let lower = s.to_lowercase();
        match Symbols::from_name(lower.as_str()) {
            Some(set) => Ok(set),
            None => Ok(Symbols::Custom(lower)),
        }
    }
}

impl std::str::FromStr for Symbols {
    type Err = ParseError;

    /// Reads a set of symbols as `Symbols::parse` does.
    fn from_str(s: &str) -> (r: Result<Self, Self::Err>)
        ensures
            r is Ok,
            Symbols::stands_for(lowercase(s@), r->Ok_0),
    {
        Symbols::parse(s)
    }
}

/// One of the four sets of symbols that need no text of their own.
#[derive(Clone, Copy, Debug, PartialEq, Eq, Structural)]
pub enum Mode {
    /// The Katakana block.
    Original,
    /// The digits `0` and `1`.
    Binary,
    /// The printable ASCII characters.
    ASCII,
    /// The Braille patterns.
    Braille,
}

impl Mode {
    /// The mode that a lowercase name stands for, if any.
    pub open spec fn named(name: Seq<char>) -> Option<Mode> {
        if name == "original"@ {
            Some(Mode::Original)
        } else if name == "binary"@ {
            Some(Mode::Binary)
        } else if name == "ascii"@ {
            Some(Mode::ASCII)
        } else if name == "braille"@ {
            Some(Mode::Braille)
        } else {
            None
        }
    }

    /// Reads a mode from its name, whatever the case of its letters.
    pub fn parse(s: &str) -> (r: Result<Mode, ParseError>)
        ensures
            match Mode::named(lowercase(s@)) {
                Some(mode) => r == Ok::<Mode, ParseError>(mode),
                None => r is Err,
            },
    {
        let lower = s.to_lowercase();
        let name = lower.as_str();
        if same_text(name, "original") {
            Ok(Mode::Original)
        } else if same_text(name, "binary") {
            Ok(Mode::Binary)
        } else if same_text(name, "ascii") {
            Ok(Mode::ASCII)
        } else if same_text(name, "braille") {
            Ok(Mode::Braille)
        } else {
            Err(ParseError {  })
        }
    }

    /// The set of symbols of the mode.
    pub fn symbols(self) -> (set: Symbols)
        ensures
            set == (match self {
                Mode::Original => Symbols::Original,
                Mode::Binary => Symbols::Binary,
                Mode::ASCII => Symbols::ASCII,
                Mode::Braille => Symbols::Braille,
            }),
    {
        match self {
            Mode::Original => Symbols::Original,
            Mode::Binary => Symbols::Binary,
            Mode::ASCII => Symbols::ASCII,
            Mode::Braille => Symbols::Braille,
        }
    }
}

impl std::str::FromStr for Mode {
    type Err = ParseError;

    /// Reads a mode as `Mode::parse` does.
    fn from_str(s: &str) -> (r: Result<Self, Self::Err>)
        ensures
            match Mode::named(lowercase(s@)) {
                Some(mode) => r == Ok::<Mode, ParseError>(mode),
                None => r is Err,
            },
    {
        Mode::parse(s)
    }
}

} // verus!
