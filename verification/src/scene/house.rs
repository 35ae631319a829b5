//! The house and its colours.

use vstd::prelude::*;
use crate::render::color::Color;
use crate::render::grid::{Cell, TerminalRenderer};
use crate::render::stamp::{stamped, str_rows, Shader};

verus! {

/// The house in the middle of the scene.
#[derive(Default)]
pub struct House;

/// The lines of the house, chimney smoke first and lawn last.
pub open spec fn house_art() -> Seq<&'static str> {
    seq![
        "          (                  ",
        "                             ",
        "            )                ",
        "          ( _   _._          ",
        "           |_|-'_~_`-._      ",
        "        _.-'-_~_-~_-~-_`-._  ",
        "    _.-'_~-_~-_-~-_~_~-_~-_`-._",
        "   ~~~~~~~~~~~~~~~~~~~~~~~~~~~~~",
        "     |  []  []   []   []  [] |",
        "     |           __    ___   |",
        "   ._|  []  []  | .|  [___]  |_._._._._._._._._._._._._._._._._.",
        "   |=|________()|__|()_______|=|=|=|=|=|=|=|=|=|=|=|=|=|=|=|=|=|",
        " ^^^^^^^^^^^^^^^ === ^^^^^^^^^^^^^^^^^^^^^^^^^^^^^^^^^^^^^^^^^^^^^",
    ]
}

/// The colours of the house by day or by night.
pub struct HouseShader {
    pub is_day: bool,
}

impl HouseShader {
    /// The colour of the walls.
    pub open spec fn wood(self) -> Color {
        if self.is_day {
            Color::Rgb { r: 210, g: 180, b: 140 }
        } else {
            Color::Rgb { r: 100, g: 70, b: 50 }
        }
    }

    /// The colour of the roof.
    pub open spec fn roof(self) -> Color {
        if self.is_day {
            Color::DarkRed
        } else {
            Color::DarkMagenta
        }
    }

    /// The colour of the windows.
    pub open spec fn window(self) -> Color {
        if self.is_day {
            Color::Cyan
        } else {
            Color::Yellow
        }
    }

    /// The colour of the door.
    pub open spec fn door() -> Color {
        Color::Rgb { r: 139, g: 69, b: 19 }
    }

    /// The colour of a character that is no space, by its line: smoke
    /// and chimney in the first four, the roof below them, then walls,
    /// windows and doors, the foundation, and the lawn.
    pub open spec fn color_of(self, row: int, ch: char) -> Color {
        if row <= 6 {
            if row < 4 && (ch == '(' || ch == ')' || ch == '_') {
                Color::DarkGrey
            } else if row < 4 {
                Color::Grey
            } else {
                self.roof()
            }
        } else if row == 7 {
            self.roof()
        } else if row <= 10 {
            if ch == '[' || ch == ']' {
                self.window()
            } else if ch == '(' || ch == ')' {
                HouseShader::door()
            } else if ch == '=' {
                Color::DarkGrey
            } else {
                self.wood()
            }
        } else if row == 11 {
            if ch == '=' || ch == '|' {
                Color::DarkGrey
            } else if ch == '(' || ch == ')' {
                HouseShader::door()
            } else {
                self.wood()
            }
        } else if row == 12 {
            if ch == '^' {
                if self.is_day {
                    Color::Green
                } else {
                    Color::DarkGreen
                }
            } else if ch == '=' {
                Color::DarkGrey
            } else {
                Color::Reset
            }
        } else {
            Color::Yellow
        }
    }
}

impl Shader for HouseShader {
    /// Spaces are transparent but in the eaves, line 7, and in lines
    /// below the lawn, which are painted whole.
    open spec fn shade_spec(&self, row: int, ch: char) -> Option<Cell> {
        if ch == ' ' && row != 7 && row <= 12 {
            None
        } else {
            Some(Cell { character: ch, color: self.color_of(row, ch) })
        }
    }

    fn shade(&self, row: usize, ch: char) -> (out: Option<Cell>) {
        if ch == ' ' && row != 7 && row <= 12 {
            return None;
        }
        let wood = if self.is_day {
            Color::Rgb { r: 210, g: 180, b: 140 }
        } else {
            Color::Rgb { r: 100, g: 70, b: 50 }
        };
        let roof = if self.is_day {
            Color::DarkRed
        } else {
            Color::DarkMagenta
        };
        let door = Color::Rgb { r: 139, g: 69, b: 19 };
        let color = if row <= 6 {
            if row < 4 && (ch == '(' || ch == ')' || ch == '_') {
                Color::DarkGrey
            } else if row < 4 {
                Color::Grey
            } else {
                roof
            }
        } else if row == 7 {
            roof
        } else if row <= 10 {
            if ch == '[' || ch == ']' {
                if self.is_day {
                    Color::Cyan
                } else {
                    Color::Yellow
                }
            } else if ch == '(' || ch == ')' {
                door
            } else if ch == '=' {
                Color::DarkGrey
            } else {
                wood
            }
        } else if row == 11 {
            if ch == '=' || ch == '|' {
                Color::DarkGrey
            } else if ch == '(' || ch == ')' {
                door
            } else {
                wood
            }
        } else if row == 12 {
            if ch == '^' {
                if self.is_day {
                    Color::Green
                } else {
                    Color::DarkGreen
                }
            } else if ch == '=' {
                Color::DarkGrey
            } else {
                Color::Reset
            }
        } else {
            Color::Yellow
        };
        Some(Cell { character: ch, color })
    }
}

impl House {
    /// Columns that the house takes up.
    pub const WIDTH: u16 = 64;

    /// Lines of the house.
    pub const HEIGHT: u16 = 13;

    /// The chimney's column, counted from the house's left edge.
    pub const CHIMNEY_X_OFFSET: u16 = 10;

    /// Lines of the house.
    pub fn height(&self) -> (h: u16)
        ensures
            h == 13,
    {
        Self::HEIGHT
    }

    /// Columns of the house.
    pub fn width(&self) -> (w: u16)
        ensures
            w == 64,
    {
        Self::WIDTH
    }

    /// The lines of the house.
    pub fn get_ascii(&self) -> (art: Vec<&'static str>)
        ensures
            art@ == house_art(),
    {
        let art = vec![
            "          (                  ",
            "                             ",
            "            )                ",
            "          ( _   _._          ",
            "           |_|-'_~_`-._      ",
            "        _.-'-_~_-~_-~-_`-._  ",
            "    _.-'_~-_~-_-~-_~_~-_~-_`-._",
            "   ~~~~~~~~~~~~~~~~~~~~~~~~~~~~~",
            "     |  []  []   []   []  [] |",
            "     |           __    ___   |",
            "   ._|  []  []  | .|  [___]  |_._._._._._._._._._._._._._._._._.",
            "   |=|________()|__|()_______|=|=|=|=|=|=|=|=|=|=|=|=|=|=|=|=|=|",
            " ^^^^^^^^^^^^^^^ === ^^^^^^^^^^^^^^^^^^^^^^^^^^^^^^^^^^^^^^^^^^^^^",
        ];
        art
    }

    /// Paints the house with its top left corner at `(x, y)`.
    pub fn render(&self, renderer: &mut TerminalRenderer, x: u16, y: u16, is_day: bool)
        ensures
            final(renderer).same_frame(old(renderer)),
            final(renderer).cells() == stamped(
                old(renderer).cells(),
                old(renderer).width() as int,
                old(renderer).height() as int,
                old(renderer).support(),
                HouseShader { is_day },
                str_rows(house_art()),
                x as int,
                y as int,
                13,
            ),
    {
        let art = self.get_ascii();
        let shader = HouseShader { is_day };
        renderer.stamp(&art, x as i64, y as i64, &shader);
    }
}

} // verus!
