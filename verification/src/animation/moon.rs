//! The moon in one of its eight phases.

use vstd::prelude::*;
use crate::render::capabilities::ColorSupport;
use crate::render::color::Color;
use crate::render::grid::{Cell, TerminalRenderer};
use crate::render::stamp::{stamped, str_rows, Shader};

verus! {

/// The moon. The phase is in thousandths of a cycle: 0 is the new
/// moon, 250 the first quarter, 500 the full moon, 750 the last quarter.
pub struct MoonSystem {
    phase: u32,
    x: u16,
    y: u16,
}

/// Which of the eight pictures shows a phase: the nearest eighth of the
/// cycle.
pub open spec fn moon_step(phase: u32) -> int {
    ((phase * 8 + 500) / 1000) % 8
}

/// The picture of the moon at a step of its cycle.
pub open spec fn moon_art(step: int) -> Seq<&'static str> {
    if step == 0 {
        seq![
            "                 ",
            "                 ",
            "                 ",
            "                 ",
            "                 ",
            "                 ",
        ]
    } else if step == 1 {
        seq![
            "             .    ",
            "            . `.  ",
            "               :  ",
            "               :  ",
            "            . .'  ",
            "             `    ",
        ]
    } else if step == 2 {
        seq![
            "            _     ",
            "           |~ `.  ",
            "           |~~~~: ",
            "           |~~~~: ",
            "           |~ .'  ",
            "           |-'    ",
        ]
    } else if step == 3 {
        seq![
            "         ..._     ",
            "       .'~~~~`.   ",
            "      |~~~~o~~~:  ",
            "      |~.~~~~o~:  ",
            "       `.~~~~~'   ",
            "         `...-'   ",
        ]
    } else if step == 4 {
        seq![
            "       _..._      ",
            "     .'~o~~~`.    ",
            "    :~~~~~o~~~:   ",
            "    :~~o~~~~.~:   ",
            "    `.~~~~~o~.'   ",
            "      `-...-'     ",
        ]
    } else if step == 5 {
        seq![
            "       _...       ",
            "     .'~~~~`.     ",
            "    :~~~o~~~~|    ",
            "    :~o~~~~.~|    ",
            "    `.~~~~~.'     ",
            "      `-...-'     ",
        ]
    } else if step == 6 {
        seq![
            "        _         ",
            "      .' ~|       ",
            "     :~~~~|       ",
            "     :~~~~|       ",
            "      `.~ |       ",
            "        `-|       ",
        ]
    } else {
        seq![
            "        .         ",
            "      .' .        ",
            "     :            ",
            "     :            ",
            "      '. .        ",
            "        `         ",
        ]
    }
}

/// How the moon is painted: the sky shows through the spaces, the body
/// of the moon covers what lies behind it with nothing, and outline and
/// craters are white.
pub struct MoonShader;

impl Shader for MoonShader {
    open spec fn shade_spec(&self, row: int, ch: char) -> Option<Cell> {
        if ch == ' ' {
            None
        } else if ch == '~' {
            Some(Cell { character: ' ', color: Color::White })
        } else {
            Some(Cell { character: ch, color: Color::White })
        }
    }

    fn shade(&self, row: usize, ch: char) -> (out: Option<Cell>) {
        if ch == ' ' {
            None
        } else if ch == '~' {
            Some(Cell { character: ' ', color: Color::White })
        } else {
            Some(Cell { character: ch, color: Color::White })
        }
    }
}

fn moon_picture(step: u32) -> (art: Vec<&'static str>)
    requires
        step < 8,
    ensures
        art@ == moon_art(step as int),
{
    let art = if step == 0 {
        vec![
            "                 ",
            "                 ",
            "                 ",
            "                 ",
            "                 ",
            "                 ",
        ]
    } else if step == 1 {
        vec![
            "             .    ",
            "            . `.  ",
            "               :  ",
            "               :  ",
            "            . .'  ",
            "             `    ",
        ]
    } else if step == 2 {
        vec![
            "            _     ",
            "           |~ `.  ",
            "           |~~~~: ",
            "           |~~~~: ",
            "           |~ .'  ",
            "           |-'    ",
        ]
    } else if step == 3 {
        vec![
            "         ..._     ",
            "       .'~~~~`.   ",
            "      |~~~~o~~~:  ",
            "      |~.~~~~o~:  ",
            "       `.~~~~~'   ",
            "         `...-'   ",
        ]
    } else if step == 4 {
        vec![
            "       _..._      ",
            "     .'~o~~~`.    ",
            "    :~~~~~o~~~:   ",
            "    :~~o~~~~.~:   ",
            "    `.~~~~~o~.'   ",
            "      `-...-'     ",
        ]
    } else if step == 5 {
        vec![
            "       _...       ",
            "     .'~~~~`.     ",
            "    :~~~o~~~~|    ",
            "    :~o~~~~.~|    ",
            "    `.~~~~~.'     ",
            "      `-...-'     ",
        ]
    } else if step == 6 {
        vec![
            "        _         ",
            "      .' ~|       ",
            "     :~~~~|       ",
            "     :~~~~|       ",
            "      `.~ |       ",
            "        `-|       ",
        ]
    } else {
        vec![
            "        .         ",
            "      .' .        ",
            "     :            ",
            "     :            ",
            "      '. .        ",
            "        `         ",
        ]
    };
    art
}

impl MoonSystem {
    /// The phase in thousandths of a cycle.
    pub closed spec fn phase(&self) -> u32 {
        self.phase
    }

    /// The column of the picture's left edge.
    pub closed spec fn x(&self) -> u16 {
        self.x
    }

    /// The row of the picture's top edge.
    pub closed spec fn y(&self) -> u16 {
        self.y
    }

    /// A full moon.
    pub fn new(terminal_width: u16, terminal_height: u16) -> (moon: MoonSystem)
        ensures
            moon.phase() == 500,
            moon.x() == terminal_width / 4 + 10,
            moon.y() == terminal_height / 4 + 2,
    {
        MoonSystem { phase: 500, x: terminal_width / 4 + 10, y: terminal_height / 4 + 2 }
    }

    /// Sets the phase, in thousandths of a cycle.
    pub fn set_phase(&mut self, phase: u32)
        ensures
            final(self).phase() == phase,
            final(self).x() == old(self).x(),
            final(self).y() == old(self).y(),
    {
        self.phase = phase;
    }

    /// Puts the moon in the right-hand part of the sky: three quarters
    /// across, but fifteen columns from the right edge at least, and a
    /// quarter down, but no higher than row 2.
    pub fn update(&mut self, terminal_width: u16, terminal_height: u16)
        ensures
            final(self).phase() == old(self).phase(),
            final(self).x() == if terminal_width / 4 * 3 < (if terminal_width >= 15 {
                terminal_width - 15
            } else {
                0
            }) {
                terminal_width / 4 * 3
            } else if terminal_width >= 15 {
                terminal_width - 15
            } else {
                0
            },
            final(self).y() == if terminal_height / 4 > 2 {
                terminal_height as int / 4
            } else {
                2
            },
    {
        let across: u16 = terminal_width / 4 * 3;
        let inset: u16 = if terminal_width >= 15 {
            terminal_width - 15
        } else {
            0
        };
        self.x = if across < inset {
            across
        } else {
            inset
        };
        self.y = if terminal_height / 4 > 2 {
            terminal_height / 4
        } else {
            2
        };
    }

    /// The grid after the system is painted on it.
    pub open spec fn rendered(
        &self,
        cells: Seq<Cell>,
        w: int,
        h: int,
        support: ColorSupport,
    ) -> Seq<Cell> {
        stamped(
            cells,
            w,
            h,
            support,
            MoonShader,
            str_rows(moon_art(moon_step(self.phase()))),
            self.x() as int,
            self.y() as int,
            6,
        )
    }

    /// Paints the picture of the moon's phase.
    pub fn render(&self, renderer: &mut TerminalRenderer)
        ensures
            final(renderer).same_frame(old(renderer)),
            final(renderer).cells() == self.rendered(
                old(renderer).cells(),
                old(renderer).width() as int,
                old(renderer).height() as int,
                old(renderer).support(),
            ),
    {
        let step: u32 = (((self.phase as u64) * 8 + 500) / 1000 % 8) as u32;
        let art = moon_picture(step);
        let shader = MoonShader;
        renderer.stamp(&art, self.x as i64, self.y as i64, &shader);
    }
}

} // verus!
