//! Text and pictures on the grid: single glyphs, rows and whole sprites.

use vstd::prelude::*;
use vstd::string::StrSliceExecFns;
use crate::render::capabilities::{adapted, ColorSupport};
use crate::render::color::Color;
use crate::render::grid::{lemma_put_cell_bounds, put_cell, Cell, TerminalRenderer};

verus! {

/// A character with the colour asked for and the cell it is meant for,
/// which may lie off the grid.
#[derive(Clone, Copy, Debug)]
pub struct Glyph {
    pub x: i64,
    pub y: i64,
    pub character: char,
    pub color: Color,
}

/// The grid after one glyph is drawn on it.
pub open spec fn with_glyph(
    cells: Seq<Cell>,
    w: int,
    h: int,
    support: ColorSupport,
    glyph: Glyph,
) -> Seq<Cell> {
    put_cell(
        cells,
        w,
        h,
        glyph.x as int,
        glyph.y as int,
        Cell { character: glyph.character, color: adapted(support, glyph.color) },
    )
}

/// The grid after the first `n` glyphs are drawn on it, one after the
/// other, so that a later one covers an earlier one.
pub open spec fn with_glyphs(
    cells: Seq<Cell>,
    w: int,
    h: int,
    support: ColorSupport,
    glyphs: Seq<Glyph>,
    n: int,
) -> Seq<Cell>
    decreases n,
{
    if n <= 0 {
        cells
    } else {
        with_glyph(with_glyphs(cells, w, h, support, glyphs, n - 1), w, h, support, glyphs[n - 1])
    }
}

/// Drawing glyphs never changes the size of the grid.
pub proof fn lemma_glyphs_keep_size(
    cells: Seq<Cell>,
    w: int,
    h: int,
    support: ColorSupport,
    glyphs: Seq<Glyph>,
    n: int,
)
    requires
        cells.len() == w * h,
        0 <= w,
        0 <= h,
    ensures
        with_glyphs(cells, w, h, support, glyphs, n).len() == cells.len(),
    decreases n,
{
    if n > 0 {
        lemma_glyphs_keep_size(cells, w, h, support, glyphs, n - 1);
        lemma_put_cell_bounds(
            with_glyphs(cells, w, h, support, glyphs, n - 1),
            w,
            h,
            glyphs[n - 1].x as int,
            glyphs[n - 1].y as int,
            Cell {
                character: glyphs[n - 1].character,
                color: adapted(support, glyphs[n - 1].color),
            },
        );
    }
}

/// How the characters of a piece of art are painted.
pub trait Shader {
    /// What is painted for `ch` in line `row` of the art: a character and
    /// the colour asked for, or `None` where the art is transparent.
    spec fn shade_spec(&self, row: int, ch: char) -> Option<Cell>;

    fn shade(&self, row: usize, ch: char) -> (out: Option<Cell>)
        ensures
            out == self.shade_spec(row as int, ch),
    ;
}

/// One colour for every character but the space, which is transparent.
pub struct Solid {
    pub color: Color,
}

impl Shader for Solid {
    open spec fn shade_spec(&self, row: int, ch: char) -> Option<Cell> {
        if ch == ' ' {
            None
        } else {
            Some(Cell { character: ch, color: self.color })
        }
    }

    fn shade(&self, row: usize, ch: char) -> (out: Option<Cell>) {
        if ch == ' ' {
            None
        } else {
            Some(Cell { character: ch, color: self.color })
        }
    }
}

/// One colour for every character, the space included.
pub struct Opaque {
    pub color: Color,
}

impl Shader for Opaque {
    open spec fn shade_spec(&self, row: int, ch: char) -> Option<Cell> {
        Some(Cell { character: ch, color: self.color })
    }

    fn shade(&self, row: usize, ch: char) -> (out: Option<Cell>) {
        Some(Cell { character: ch, color: self.color })
    }
}

/// The grid after the first `n` characters of `text`, line `row` of some
/// art, are painted from `(x, y)` to the right.
pub open spec fn row_stamped<S: Shader>(
    cells: Seq<Cell>,
    w: int,
    h: int,
    support: ColorSupport,
    shader: S,
    row: int,
    text: Seq<char>,
    x: int,
    y: int,
    n: int,
) -> Seq<Cell>
    decreases n,
{
    if n <= 0 {
        cells
    } else {
        let before = row_stamped(cells, w, h, support, shader, row, text, x, y, n - 1);
        match shader.shade_spec(row, text[n - 1]) {
            Some(cell) => put_cell(
                before,
                w,
                h,
                x + n - 1,
                y,
                Cell { character: cell.character, color: adapted(support, cell.color) },
            ),
            None => before,
        }
    }
}

/// The grid after the first `rows` lines of `art` are painted with their
/// top left corner at `(x, y)`.
pub open spec fn stamped<S: Shader>(
    cells: Seq<Cell>,
    w: int,
    h: int,
    support: ColorSupport,
    shader: S,
    art: Seq<Seq<char>>,
    x: int,
    y: int,
    rows: int,
) -> Seq<Cell>
    decreases rows,
{
    if rows <= 0 {
        cells
    } else {
        row_stamped(
            stamped(cells, w, h, support, shader, art, x, y, rows - 1),
            w,
            h,
            support,
            shader,
            rows - 1,
            art[rows - 1],
            x,
            y + rows - 1,
            art[rows - 1].len() as int,
        )
    }
}

/// The lines of a piece of art as sequences of characters.
pub open spec fn str_rows(art: Seq<&str>) -> Seq<Seq<char>> {
    Seq::new(art.len(), |i: int| art[i]@)
}

/// The lines of a piece of art as sequences of characters.
pub open spec fn string_rows(art: Seq<String>) -> Seq<Seq<char>> {
    Seq::new(art.len(), |i: int| art[i]@)
}

/// A line whose row is off the grid leaves the grid as it is.
pub proof fn lemma_row_off_grid<S: Shader>(
    cells: Seq<Cell>,
    w: int,
    h: int,
    support: ColorSupport,
    shader: S,
    row: int,
    text: Seq<char>,
    x: int,
    y: int,
    n: int,
)
    requires
        y < 0 || y >= h,
    ensures
        row_stamped(cells, w, h, support, shader, row, text, x, y, n) == cells,
    decreases n,
{
    if n > 0 {
        lemma_row_off_grid(cells, w, h, support, shader, row, text, x, y, n - 1);
    }
}

/// Painting art never changes the size of the grid.
pub proof fn lemma_stamp_keeps_size<S: Shader>(
    cells: Seq<Cell>,
    w: int,
    h: int,
    support: ColorSupport,
    shader: S,
    art: Seq<Seq<char>>,
    x: int,
    y: int,
    rows: int,
)
    requires
        cells.len() == w * h,
        0 <= w,
        0 <= h,
    ensures
        stamped(cells, w, h, support, shader, art, x, y, rows).len() == cells.len(),
    decreases rows,
{
    if rows > 0 {
        lemma_stamp_keeps_size(cells, w, h, support, shader, art, x, y, rows - 1);
        lemma_row_keeps_size(
            stamped(cells, w, h, support, shader, art, x, y, rows - 1),
            w,
            h,
            support,
            shader,
            rows - 1,
            art[rows - 1],
            x,
            y + rows - 1,
            art[rows - 1].len() as int,
        );
    }
}

/// Painting a line never changes the size of the grid.
pub proof fn lemma_row_keeps_size<S: Shader>(
    cells: Seq<Cell>,
    w: int,
    h: int,
    support: ColorSupport,
    shader: S,
    row: int,
    text: Seq<char>,
    x: int,
    y: int,
    n: int,
)
    requires
        cells.len() == w * h,
        0 <= w,
        0 <= h,
    ensures
        row_stamped(cells, w, h, support, shader, row, text, x, y, n).len() == cells.len(),
    decreases n,
{
    if n > 0 {
        lemma_row_keeps_size(cells, w, h, support, shader, row, text, x, y, n - 1);
        match shader.shade_spec(row, text[n - 1]) {
            Some(cell) => {
                lemma_put_cell_bounds(
                    row_stamped(cells, w, h, support, shader, row, text, x, y, n - 1),
                    w,
                    h,
                    x + n - 1,
                    y,
                    Cell { character: cell.character, color: adapted(support, cell.color) },
                );
            },
            None => {},
        }
    }
}

/// The length in characters of the longest of the first `n` lines.
pub open spec fn widest(lines: Seq<Seq<char>>, n: int) -> int
    decreases n,
{
    if n <= 0 {
        0
    } else {
        let rest = widest(lines, n - 1);
        let here = lines[n - 1].len() as int;
        if here > rest {
            here
        } else {
            rest
        }
    }
}

/// The column at which lines at most `span` wide start when centred on a
/// grid `w` wide.
pub open spec fn centered_column(w: int, span: int) -> int {
    if w > span {
        (w - span) / 2
    } else {
        0
    }
}

impl TerminalRenderer {
    /// Draws one glyph; one off the grid is dropped.
    pub fn draw(&mut self, glyph: Glyph)
        ensures
            final(self).same_frame(old(self)),
            final(self).cells() == with_glyph(
                old(self).cells(),
                old(self).width() as int,
                old(self).height() as int,
                old(self).support(),
                glyph,
            ),
    {
        self.put(glyph.x, glyph.y, glyph.character, glyph.color);
    }

    /// Draws a list of glyphs in order.
    pub fn draw_all(&mut self, glyphs: &Vec<Glyph>)
        ensures
            final(self).same_frame(old(self)),
            final(self).cells() == with_glyphs(
                old(self).cells(),
                old(self).width() as int,
                old(self).height() as int,
                old(self).support(),
                glyphs@,
                glyphs@.len() as int,
            ),
    {
        let mut i: usize = 0;
        while i < glyphs.len()
            invariant
                i <= glyphs.len(),
                self.same_frame(old(self)),
                self.cells() == with_glyphs(
                    old(self).cells(),
                    old(self).width() as int,
                    old(self).height() as int,
                    old(self).support(),
                    glyphs@,
                    i as int,
                ),
            decreases glyphs.len() - i,
        {
            self.draw(glyphs[i]);
            i += 1;
        }
    }

    /// Paints one line of art from `(x, y)` to the right.
    pub fn stamp_row<S: Shader>(&mut self, text: &str, x: i64, y: i64, row: usize, shader: &S)
        ensures
            final(self).same_frame(old(self)),
            final(self).cells() == row_stamped(
                old(self).cells(),
                old(self).width() as int,
                old(self).height() as int,
                old(self).support(),
                *shader,
                row as int,
                text@,
                x as int,
                y as int,
                text@.len() as int,
            ),
    {
        let (width, _) = self.get_size();
        let n: usize = text.unicode_len();
        let mut j: usize = 0;
        for ch in it: text.chars()
            invariant
                j == it.index(),
                it.seq() == text@,
                n == text@.len(),
                width == old(self).width(),
                self.same_frame(old(self)),
                self.cells() == row_stamped(
                    old(self).cells(),
                    old(self).width() as int,
                    old(self).height() as int,
                    old(self).support(),
                    *shader,
                    row as int,
                    text@,
                    x as int,
                    y as int,
                    j as int,
                ),
        {
            match shader.shade(row, ch) {
                Some(cell) => {
                    let col: i128 = x as i128 + j as i128;
                    if 0 <= col && col < width as i128 {
                        self.put(col as i64, y, cell.character, cell.color);
                    }
                },
                None => {},
            }
            j += 1;
        }
    }

    /// Paints a piece of art with its top left corner at `(x, y)`.
    pub fn stamp<S: Shader>(&mut self, art: &Vec<&str>, x: i64, y: i64, shader: &S)
        ensures
            final(self).same_frame(old(self)),
            final(self).cells() == stamped(
                old(self).cells(),
                old(self).width() as int,
                old(self).height() as int,
                old(self).support(),
                *shader,
                str_rows(art@),
                x as int,
                y as int,
                art@.len() as int,
            ),
    {
        let (_, height) = self.get_size();
        let mut i: usize = 0;
        while i < art.len()
            invariant
                i <= art.len(),
                height == old(self).height(),
                self.same_frame(old(self)),
                self.cells() == stamped(
                    old(self).cells(),
                    old(self).width() as int,
                    old(self).height() as int,
                    old(self).support(),
                    *shader,
                    str_rows(art@),
                    x as int,
                    y as int,
                    i as int,
                ),
            decreases art.len() - i,
        {
            let line: &str = art[i];
            let row_y: i128 = y as i128 + i as i128;
            if 0 <= row_y && row_y < height as i128 {
                self.stamp_row(line, x, row_y as i64, i, shader);
            } else {
                proof {
                    lemma_row_off_grid(
                        self.cells(),
                        old(self).width() as int,
                        old(self).height() as int,
                        old(self).support(),
                        *shader,
                        i as int,
                        line@,
                        x as int,
                        y + i,
                        line@.len() as int,
                    );
                }
            }
            i += 1;
        }
    }

    /// Paints a piece of art held as owned lines; see [`TerminalRenderer::stamp`].
    pub fn stamp_lines<S: Shader>(&mut self, art: &[String], x: i64, y: i64, shader: &S)
        ensures
            final(self).same_frame(old(self)),
            final(self).cells() == stamped(
                old(self).cells(),
                old(self).width() as int,
                old(self).height() as int,
                old(self).support(),
                *shader,
                string_rows(art@),
                x as int,
                y as int,
                art@.len() as int,
            ),
    {
        let (_, height) = self.get_size();
        let mut i: usize = 0;
        while i < art.len()
            invariant
                i <= art.len(),
                height == old(self).height(),
                self.same_frame(old(self)),
                self.cells() == stamped(
                    old(self).cells(),
                    old(self).width() as int,
                    old(self).height() as int,
                    old(self).support(),
                    *shader,
                    string_rows(art@),
                    x as int,
                    y as int,
                    i as int,
                ),
            decreases art.len() - i,
        {
            let line: &str = art[i].as_str();
            let row_y: i128 = y as i128 + i as i128;
            if 0 <= row_y && row_y < height as i128 {
                self.stamp_row(line, x, row_y as i64, i, shader);
            } else {
                proof {
                    lemma_row_off_grid(
                        self.cells(),
                        old(self).width() as int,
                        old(self).height() as int,
                        old(self).support(),
                        *shader,
                        i as int,
                        line@,
                        x as int,
                        y + i,
                        line@.len() as int,
                    );
                }
            }
            i += 1;
        }
    }

    /// Writes `text` from `(x, y)` to the right in one colour, spaces
    /// included. What falls off the grid is dropped.
    pub fn render_line_colored(&mut self, x: u16, y: u16, text: &str, color: Color)
        ensures
            final(self).same_frame(old(self)),
            final(self).cells() == row_stamped(
                old(self).cells(),
                old(self).width() as int,
                old(self).height() as int,
                old(self).support(),
                Opaque { color },
                0,
                text@,
                x as int,
                y as int,
                text@.len() as int,
            ),
    {
        let shader = Opaque { color };
        self.stamp_row(text, x as i64, y as i64, 0, &shader);
    }

    /// Writes `lines` from row `start_row` down in one colour, spaces
    /// included, so that the longest line is centred on the grid.
    pub fn render_centered_colored(&mut self, lines: &[String], start_row: u16, color: Color)
        ensures
            final(self).same_frame(old(self)),
            final(self).cells() == stamped(
                old(self).cells(),
                old(self).width() as int,
                old(self).height() as int,
                old(self).support(),
                Opaque { color },
                string_rows(lines@),
                centered_column(
                    old(self).width() as int,
                    widest(string_rows(lines@), lines@.len() as int),
                ),
                start_row as int,
                lines@.len() as int,
            ),
    {
        let (width, _) = self.get_size();
        let mut max_width: usize = 0;
        let mut i: usize = 0;
        while i < lines.len()
            invariant
                i <= lines.len(),
                max_width == widest(string_rows(lines@), i as int),
            decreases lines.len() - i,
        {
            let here: usize = lines[i].as_str().unicode_len();
            if here > max_width {
                max_width = here;
            }
            i += 1;
        }
        let start_col: usize = if width as usize > max_width {
            (width as usize - max_width) / 2
        } else {
            0
        };
        let shader = Opaque { color };
        self.stamp_lines(lines, start_col as i64, start_row as i64, &shader);
    }
}

} // verus!
