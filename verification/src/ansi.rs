//! Escape sequences that color text on a terminal.
use crate::colors::RGBColor;
use crate::text::decimal;
use crate::text::push_decimal;
use vstd::prelude::*;
use vstd::string::StringExecFns;

verus! {

impl RGBColor {
    /// The three channels in decimal, with a semicolon between them.
    pub open spec fn channels_text(self) -> Seq<char> {
        decimal(self.0 as nat) + seq![';'] + decimal(self.1 as nat) + seq![';'] + decimal(
            self.2 as nat,
        )
    }

    /// The escape sequence that sets the foreground to this color.
    pub open spec fn ansi_text(self) -> Seq<char> {
        "\x1b[38;2;"@ + self.channels_text() + seq!['m']
    }

    /// The escape sequence that sets the background to this color.
    pub open spec fn ansi_bg_text(self) -> Seq<char> {
        "\x1b[48;2;"@ + self.channels_text() + seq!['m']
    }

    /// Appends the three channels in decimal, with a semicolon between them.
    fn push_channels(&self, out: &mut String)
        ensures
            final(out)@ == old(out)@ + self.channels_text(),
    {
        push_decimal(out, self.0);
        out.push(';');
        push_decimal(out, self.1);
        out.push(';');
        push_decimal(out, self.2);
    }

    /// The escape sequence that sets the foreground to this color.
    pub fn ansi(&self) -> (s: String)
        ensures
            s@ == self.ansi_text(),
    {
        let mut s = String::from_str("\x1b[38;2;");
        self.push_channels(&mut s);
        s.push('m');
        s
    }

    /// The escape sequence that sets the background to this color.
    pub fn ansi_bg(&self) -> (s: String)
        ensures
            s@ == self.ansi_bg_text(),
    {
        let mut s = String::from_str("\x1b[48;2;");
        self.push_channels(&mut s);
        s.push('m');
        s
    }
}

/// A symbol wrapped in the escape sequences that color it: the sequence
/// that sets the foreground, the symbol, and the sequence that resets.
pub open spec fn colored_text(symbol: char, color: RGBColor) -> Seq<char> {
    color.ansi_text() + seq![symbol] + "\x1b[0m"@
}

/// The symbol `s` in the foreground color `color`, followed by a reset.
pub fn rgb(s: &char, color: RGBColor) -> (out: String)
    ensures
        out@ == colored_text(*s, color),
{
    let mut out = color.ansi();
    out.push(*s);
    out.append("\x1b[0m");
    out
}

/// The symbol `s` in the foreground color `color`, followed by a reset.
pub fn ansi_rgb(s: &char, color: RGBColor) -> (out: String)
    ensures
        out@ == colored_text(*s, color),
{
    rgb(s, color)
}

} // verus!
