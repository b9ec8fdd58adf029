//! In-band ANSI coloring of the level text, for configurations that write
//! colors into plain sinks.

use vstd::prelude::*;

use crate::config::Color;
use crate::config::is_basic_color;

verus! {

/// The escape sequence that selects a basic foreground color.
pub open spec fn ansi_prefix(c: Color) -> Seq<char> {
    match c {
        Color::Black => "\u{1b}[30m"@,
        Color::Red => "\u{1b}[31m"@,
        Color::Green => "\u{1b}[32m"@,
        Color::Yellow => "\u{1b}[33m"@,
        Color::Blue => "\u{1b}[34m"@,
        Color::Magenta => "\u{1b}[35m"@,
        Color::Cyan => "\u{1b}[36m"@,
        Color::White => "\u{1b}[37m"@,
        Color::Ansi256(_) => Seq::empty(),
        Color::Rgb(_, _, _) => Seq::empty(),
    }
}

/// The escape sequence that resets all styles.
pub open spec fn ansi_suffix() -> Seq<char> {
    "\u{1b}[0m"@
}

/// `t` wrapped in the color's escape sequence and the reset sequence.
pub open spec fn ansi_painted(c: Color, t: Seq<char>) -> Seq<char> {
    ansi_prefix(c) + t + ansi_suffix()
}

/// Relies on `ansi_term::Colour::paint` and the display of the painted
/// string: the foreground escape sequence of the color, then the text
/// itself, then the reset sequence.
#[verifier::external_body]
pub(crate) fn ansi_paint(c: Color, text: &str) -> (r: String)
    requires
        is_basic_color(c),
    ensures
        r@ == ansi_painted(c, text@),
{
    let colour = match c {
        Color::Black => ansi_term::Colour::Black,
        Color::Red => ansi_term::Colour::Red,
        Color::Green => ansi_term::Colour::Green,
        Color::Yellow => ansi_term::Colour::Yellow,
        Color::Blue => ansi_term::Colour::Blue,
        Color::Magenta => ansi_term::Colour::Purple,
        Color::Cyan => ansi_term::Colour::Cyan,
        Color::White => ansi_term::Colour::White,
        _ => ansi_term::Colour::White,
    };
    colour.paint(text).to_string()
}

} // verus!
