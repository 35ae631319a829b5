//! The colours that a cell can have.

use vstd::prelude::*;

verus! {

/// A terminal foreground colour.
///
/// `Reset` is the terminal's own default. The sixteen named colours are
/// understood by every colour terminal; `Rgb` needs true-colour support
/// and `AnsiValue` a 256-colour palette.
#[derive(Clone, Copy, Debug, PartialEq, Eq, Structural)]
pub enum Color {
    Reset,
    Black,
    DarkGrey,
    Red,
    DarkRed,
    Green,
    DarkGreen,
    Yellow,
    DarkYellow,
    Blue,
    DarkBlue,
    Magenta,
    DarkMagenta,
    Cyan,
    DarkCyan,
    White,
    Grey,
    Rgb { r: u8, g: u8, b: u8 },
    AnsiValue(u8),
}

} // verus!
