//! What the terminal can show, and what becomes of a colour on it.

use vstd::prelude::*;
use crate::render::color::Color;
use crate::text::{occurs_in, str_contains, str_eq};

verus! {

/// How much colour the terminal can show.
#[derive(Debug, Clone, Copy, PartialEq, Eq, Structural)]
pub enum ColorSupport {
    NoColor,
    Basic,
    Ansi256,
    TrueColor,
}

/// What was found out about the terminal.
#[derive(Debug, Clone, Copy)]
pub struct TerminalCapabilities {
    pub color_support: ColorSupport,
    pub is_tty: bool,
}

/// The colour that a terminal with `support` shows for a request of `color`.
pub open spec fn adapted(support: ColorSupport, color: Color) -> Color {
    match support {
        ColorSupport::NoColor => Color::Reset,
        ColorSupport::Basic => if color is Rgb { Color::White } else { color },
        ColorSupport::Ansi256 => color,
        ColorSupport::TrueColor => color,
    }
}

/// The colour support that the environment calls for.
///
/// `no_color` says that the variable `NO_COLOR` is set; `term` and
/// `colorterm` are the values of `TERM` and `COLORTERM` where they are
/// set. The first rule that applies decides: `NO_COLOR`, a dumb
/// terminal and output that is no terminal give no colour; a true-colour
/// hint gives true colour; a 256-colour terminal type gives 256 colours;
/// anything else the basic sixteen.
pub open spec fn detected(
    no_color: bool,
    term: Option<Seq<char>>,
    colorterm: Option<Seq<char>>,
    is_tty: bool,
) -> ColorSupport {
    if no_color {
        ColorSupport::NoColor
    } else if term == Some("dumb"@) {
        ColorSupport::NoColor
    } else if !is_tty {
        ColorSupport::NoColor
    } else if colorterm == Some("truecolor"@) || colorterm == Some("24bit"@) {
        ColorSupport::TrueColor
    } else if term is Some && occurs_in("256color"@, term->0) {
        ColorSupport::Ansi256
    } else {
        ColorSupport::Basic
    }
}

/// The characters of a string that may be absent.
pub open spec fn chars_of(s: Option<&str>) -> Option<Seq<char>> {
    match s {
        Some(s) => Some(s@),
        None => None,
    }
}

fn check_term_for_256(term: Option<&str>) -> (support: ColorSupport)
    ensures
        support == if term is Some && occurs_in("256color"@, term->0@) {
            ColorSupport::Ansi256
        } else {
            ColorSupport::Basic
        },
{
    match term {
        Some(t) => if str_contains(t, "256color") {
            ColorSupport::Ansi256
        } else {
            ColorSupport::Basic
        },
        None => ColorSupport::Basic,
    }
}

/// How much colour support a terminal has, from none to true colour.
pub open spec fn level(support: ColorSupport) -> int {
    match support {
        ColorSupport::NoColor => 0,
        ColorSupport::Basic => 1,
        ColorSupport::Ansi256 => 2,
        ColorSupport::TrueColor => 3,
    }
}

/// How much colour support it takes to show a colour: none for the
/// default, the basic sixteen for a named colour, 256 colours for a
/// palette entry, true colour for an RGB colour.
pub open spec fn demand(color: Color) -> int {
    match color {
        Color::Reset => 0,
        Color::AnsiValue(_) => 2,
        Color::Rgb { .. } => 3,
        _ => 1,
    }
}

/// With more support a request is never served with a lesser colour.
pub proof fn lemma_adapted_monotone(lower: ColorSupport, higher: ColorSupport, color: Color)
    requires
        level(lower) <= level(higher),
    ensures
        demand(adapted(lower, color)) <= demand(adapted(higher, color)),
{
}

/// What is shown never takes more support than the terminal has, but
/// where a colour passes unchanged: a palette entry on a terminal with
/// the basic colours, and an RGB colour on one with 256.
pub proof fn lemma_adapted_demand(support: ColorSupport, color: Color)
    requires
        !(support == ColorSupport::Basic && color is AnsiValue),
        !(support == ColorSupport::Ansi256 && color is Rgb),
    ensures
        demand(adapted(support, color)) <= level(support),
{
}

/// Whatever is asked for, a terminal without colour shows the default
/// colour, and one with the basic colours never shows an RGB colour: it
/// shows white for one, and a named colour as it is. With more support
/// the request passes unchanged.
pub proof fn lemma_adapted_within_support(support: ColorSupport, color: Color)
    ensures
        support == ColorSupport::NoColor ==> adapted(support, color) == Color::Reset,
        support == ColorSupport::Basic ==> !(adapted(support, color) is Rgb),
        support == ColorSupport::Basic && color is Rgb ==> adapted(support, color) == Color::White,
        support == ColorSupport::Basic && !(color is Rgb) ==> adapted(support, color) == color,
        support == ColorSupport::Ansi256 || support == ColorSupport::TrueColor ==> adapted(
            support,
            color,
        ) == color,
{
}

impl TerminalCapabilities {
    /// Works out the colour support from what the environment says.
    pub fn detect(
        no_color: bool,
        term: Option<&str>,
        colorterm: Option<&str>,
        is_tty: bool,
    ) -> (caps: TerminalCapabilities)
        ensures
            caps.is_tty == is_tty,
            caps.color_support == detected(no_color, chars_of(term), chars_of(colorterm), is_tty),
    {
        if no_color {
            return TerminalCapabilities { color_support: ColorSupport::NoColor, is_tty };
        }
        let dumb = match term {
            Some(t) => str_eq(t, "dumb"),
            None => false,
        };
        if dumb {
            return TerminalCapabilities { color_support: ColorSupport::NoColor, is_tty };
        }
        if !is_tty {
            return TerminalCapabilities { color_support: ColorSupport::NoColor, is_tty };
        }
        let hinted = match colorterm {
            Some(c) => str_eq(c, "truecolor") || str_eq(c, "24bit"),
            None => false,
        };
        let color_support = if hinted {
            ColorSupport::TrueColor
        } else {
            check_term_for_256(term)
        };
        TerminalCapabilities { color_support, is_tty }
    }

    /// Downgrades `color` to what the terminal supports.
    pub fn adjust_color(&self, color: Color) -> (out: Color)
        ensures
            out == adapted(self.color_support, color),
    {
        match self.color_support {
            ColorSupport::NoColor => Color::Reset,
            ColorSupport::Basic => match color {
                Color::Rgb { .. } => Color::White,
                _ => color,
            },
            ColorSupport::Ansi256 => color,
            ColorSupport::TrueColor => color,
        }
    }
}

} // verus!
