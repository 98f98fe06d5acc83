//! Abstract terminal styles: a colour and a weight, chosen per glyph.
use vstd::prelude::*;

verus! {

/// The sixteen terminal colours.
#[derive(Clone, Copy, Debug, PartialEq, Eq, Structural)]
pub enum Color {
    Black,
    Red,
    Green,
    Yellow,
    Blue,
    Magenta,
    Cyan,
    White,
    BrightBlack,
    BrightRed,
    BrightGreen,
    BrightYellow,
    BrightBlue,
    BrightMagenta,
    BrightCyan,
    BrightWhite,
}

/// A colour, drawn bold or at normal weight.
#[derive(Clone, Copy, Debug, PartialEq, Eq, Structural)]
pub struct Style {
    pub color: Color,
    pub bold: bool,
}

/// A style at normal weight.
pub fn plain(color: Color) -> (r: Style)
    ensures
        r == (Style { color, bold: false }),
{
    Style { color, bold: false }
}

} // verus!
