//! The ground under the house: grass, flowers and soil.

use vstd::prelude::*;
use crate::render::capabilities::ColorSupport;
use crate::render::color::Color;
use crate::render::grid::{Cell, TerminalRenderer};
use crate::render::stamp::{with_glyph, Glyph};

verus! {

/// The strip of grass and soil at the bottom of the scene.
#[derive(Default)]
pub struct Ground;

/// A number from 0 to 99 that depends on the place alone, so that the
/// ground looks the same in every frame.
pub open spec fn scatter(x: u32, y: u32) -> u32 {
    ((((x ^ 0x5DEECE6u32) as int * (y ^ 0xBu32) as int) % 0x1_0000_0000) % 100) as u32
}

/// A number from 0 to 99 that depends on the place alone.
pub fn pseudo_rand(x: u32, y: u32) -> (r: u32)
    ensures
        r == scatter(x, y),
        r < 100,
{
    let a: u64 = (x ^ 0x5DEECE6u32) as u64;
    let b: u64 = (y ^ 0xBu32) as u64;
    assert(a * b <= 0xffff_ffff * 0xffff_ffff) by (nonlinear_arith)
        requires
            0 <= a <= 0xffff_ffff,
            0 <= b <= 0xffff_ffff,
    ;
    (((a * b) % 0x1_0000_0000) % 100) as u32
}

/// The colour of a flower by its place in the top line.
pub open spec fn flower_color(x: int, is_day: bool) -> Color {
    let pick = x % 4;
    if is_day {
        if pick == 0 {
            Color::Magenta
        } else if pick == 1 {
            Color::Red
        } else if pick == 2 {
            Color::Cyan
        } else {
            Color::Yellow
        }
    } else {
        if pick == 0 {
            Color::DarkMagenta
        } else if pick == 1 {
            Color::DarkRed
        } else if pick == 2 {
            Color::Blue
        } else {
            Color::DarkYellow
        }
    }
}

/// What the ground shows in column `x` of its line `y`: in the top line
/// grass with a flower in about one place in twenty and a blade in one
/// in ten, below it soil with a few pebbles.
pub open spec fn ground_cell(x: u32, y: u32, is_day: bool) -> Cell {
    let r = scatter(x, y);
    if y == 0 {
        if r < 5 {
            Cell { character: '*', color: flower_color(x as int, is_day) }
        } else if r < 15 {
            Cell {
                character: ',',
                color: if is_day {
                    Color::DarkGreen
                } else {
                    Color::Rgb { r: 0, g: 50, b: 0 }
                },
            }
        } else {
            Cell {
                character: '^',
                color: if is_day {
                    Color::Green
                } else {
                    Color::DarkGreen
                },
            }
        }
    } else {
        Cell {
            character: if r < 20 {
                '~'
            } else if r < 25 {
                '.'
            } else {
                ' '
            },
            color: if is_day {
                Color::Rgb { r: 101, g: 67, b: 33 }
            } else {
                Color::Rgb { r: 60, g: 40, b: 20 }
            },
        }
    }
}

/// The glyph for column `x` of the ground's line `y`, on a terminal
/// where the ground starts in row `y_start`.
pub open spec fn ground_glyph(x: u32, y: u32, y_start: u16, is_day: bool) -> Glyph {
    Glyph {
        x: x as i64,
        y: (y_start + y) as i64,
        character: ground_cell(x, y, is_day).character,
        color: ground_cell(x, y, is_day).color,
    }
}

/// The grid after the first `n` columns of the ground's line `y` are
/// painted.
pub open spec fn ground_line(
    cells: Seq<Cell>,
    w: int,
    h: int,
    support: ColorSupport,
    y: u32,
    y_start: u16,
    is_day: bool,
    n: int,
) -> Seq<Cell>
    decreases n,
{
    if n <= 0 {
        cells
    } else {
        with_glyph(
            ground_line(cells, w, h, support, y, y_start, is_day, n - 1),
            w,
            h,
            support,
            ground_glyph((n - 1) as u32, y, y_start, is_day),
        )
    }
}

/// The grid after the first `n` lines of a ground `width` wide are
/// painted.
pub open spec fn ground_painted(
    cells: Seq<Cell>,
    w: int,
    h: int,
    support: ColorSupport,
    width: u16,
    y_start: u16,
    is_day: bool,
    n: int,
) -> Seq<Cell>
    decreases n,
{
    if n <= 0 {
        cells
    } else {
        ground_line(
            ground_painted(cells, w, h, support, width, y_start, is_day, n - 1),
            w,
            h,
            support,
            (n - 1) as u32,
            y_start,
            is_day,
            width as int,
        )
    }
}

/// Works out one cell of the ground; see [`ground_cell`].
pub fn ground_cell_at(x: u32, y: u32, is_day: bool) -> (cell: Cell)
    ensures
        cell == ground_cell(x, y, is_day),
{
    let r = pseudo_rand(x, y);
    if y == 0 {
        if r < 5 {
            let pick: u32 = x % 4;
            let color = if is_day {
                if pick == 0 {
                    Color::Magenta
                } else if pick == 1 {
                    Color::Red
                } else if pick == 2 {
                    Color::Cyan
                } else {
                    Color::Yellow
                }
            } else {
                if pick == 0 {
                    Color::DarkMagenta
                } else if pick == 1 {
                    Color::DarkRed
                } else if pick == 2 {
                    Color::Blue
                } else {
                    Color::DarkYellow
                }
            };
            Cell { character: '*', color }
        } else if r < 15 {
            Cell {
                character: ',',
                color: if is_day {
                    Color::DarkGreen
                } else {
                    Color::Rgb { r: 0, g: 50, b: 0 }
                },
            }
        } else {
            Cell {
                character: '^',
                color: if is_day {
                    Color::Green
                } else {
                    Color::DarkGreen
                },
            }
        }
    } else {
        let character = if r < 20 {
            '~'
        } else if r < 25 {
            '.'
        } else {
            ' '
        };
        Cell {
            character,
            color: if is_day {
                Color::Rgb { r: 101, g: 67, b: 33 }
            } else {
                Color::Rgb { r: 60, g: 40, b: 20 }
            },
        }
    }
}

impl Ground {
    /// Paints a ground `width` wide and `height` high from row `y_start`
    /// down.
    pub fn render(
        &self,
        renderer: &mut TerminalRenderer,
        width: u16,
        height: u16,
        y_start: u16,
        is_day: bool,
    )
        ensures
            final(renderer).same_frame(old(renderer)),
            final(renderer).cells() == ground_painted(
                old(renderer).cells(),
                old(renderer).width() as int,
                old(renderer).height() as int,
                old(renderer).support(),
                width,
                y_start,
                is_day,
                height as int,
            ),
    {
        let mut y: u16 = 0;
        while y < height
            invariant
                y <= height,
                renderer.same_frame(old(renderer)),
                renderer.cells() == ground_painted(
                    old(renderer).cells(),
                    old(renderer).width() as int,
                    old(renderer).height() as int,
                    old(renderer).support(),
                    width,
                    y_start,
                    is_day,
                    y as int,
                ),
            decreases height - y,
        {
            let ghost start = renderer.cells();
            let mut x: u16 = 0;
            while x < width
                invariant
                    x <= width,
                    y < height,
                    renderer.same_frame(old(renderer)),
                    renderer.cells() == ground_line(
                        start,
                        old(renderer).width() as int,
                        old(renderer).height() as int,
                        old(renderer).support(),
                        y as u32,
                        y_start,
                        is_day,
                        x as int,
                    ),
                decreases width - x,
            {
                let cell = ground_cell_at(x as u32, y as u32, is_day);
                renderer.put(x as i64, y_start as i64 + y as i64, cell.character, cell.color);
                x += 1;
            }
            y += 1;
        }
    }
}

} // verus!
