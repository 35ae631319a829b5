//! The grid itself: its cells, its size and the flush.

use vstd::prelude::*;
use vstd::arithmetic::div_mod::lemma_fundamental_div_mod_converse;
use crate::error::TerminalError;
use crate::render::ops::{changed, diff_ops, flush_ops, lemma_after_push, Screen, TerminalOp};
use crate::render::capabilities::{adapted, ColorSupport, TerminalCapabilities};
use crate::render::color::Color;

verus! {

/// The narrowest terminal the scene is drawn on.
pub const MIN_TERMINAL_WIDTH: u16 = 70;

/// The shortest terminal the scene is drawn on.
pub const MIN_TERMINAL_HEIGHT: u16 = 20;

/// One character of the grid and its colour.
#[derive(Clone, Copy, Debug, PartialEq, Eq, Structural)]
pub struct Cell {
    pub character: char,
    pub color: Color,
}

impl Cell {
    /// An empty cell in the terminal's default colour.
    pub open spec fn blank() -> Cell {
        Cell { character: ' ', color: Color::Reset }
    }
}

impl Default for Cell {
    fn default() -> (cell: Cell)
        ensures
            cell == Cell::blank(),
    {
        Cell { character: ' ', color: Color::Reset }
    }
}

/// A grid of `n` blank cells.
pub open spec fn blank_cells(n: int) -> Seq<Cell> {
    Seq::new(n as nat, |i: int| Cell::blank())
}

/// Whether `(x, y)` lies on a grid of `w` by `h` cells.
pub open spec fn in_bounds(w: int, h: int, x: int, y: int) -> bool {
    0 <= x < w && 0 <= y < h
}

/// The grid after `cell` is written at `(x, y)`: changed in that one
/// place if it lies on the grid, and not at all if it does not.
pub open spec fn put_cell(cells: Seq<Cell>, w: int, h: int, x: int, y: int, cell: Cell) -> Seq<
    Cell,
> {
    if in_bounds(w, h, x, y) {
        cells.update(y * w + x, cell)
    } else {
        cells
    }
}

/// A write off the grid alters no cell of it; a write on the grid alters
/// the one cell it names and no other, and never the grid's size.
pub proof fn lemma_put_cell_bounds(cells: Seq<Cell>, w: int, h: int, x: int, y: int, cell: Cell)
    requires
        cells.len() == w * h,
        0 <= w,
        0 <= h,
    ensures
        !in_bounds(w, h, x, y) ==> put_cell(cells, w, h, x, y, cell) == cells,
        put_cell(cells, w, h, x, y, cell).len() == cells.len(),
        in_bounds(w, h, x, y) ==> {
            &&& 0 <= y * w + x < cells.len()
            &&& put_cell(cells, w, h, x, y, cell)[y * w + x] == cell
        },
        forall|i: int|
            0 <= i < cells.len() && i != y * w + x ==> #[trigger] put_cell(
                cells,
                w,
                h,
                x,
                y,
                cell,
            )[i] == cells[i],
{
    if in_bounds(w, h, x, y) {
        assert(0 <= y * w + x < w * h) by (nonlinear_arith)
            requires
                0 <= x < w,
                0 <= y < h,
        ;
    }
}

/// The grid with every colour replaced by `color`.
pub open spec fn recolored(cells: Seq<Cell>, color: Color) -> Seq<Cell> {
    Seq::new(cells.len(), |i: int| Cell { character: cells[i].character, color })
}

fn blank_buffer(n: usize) -> (v: Vec<Cell>)
    ensures
        v@ == blank_cells(n as int),
{
    let mut v: Vec<Cell> = Vec::with_capacity(n);
    let mut i: usize = 0;
    while i < n
        invariant
            i <= n,
            v@ == blank_cells(i as int),
        decreases n - i,
    {
        v.push(Cell { character: ' ', color: Color::Reset });
        i += 1;
    }
    v
}

/// The compositor: the grid being painted and the grid on screen.
pub struct TerminalRenderer {
    width: u16,
    height: u16,
    buffer: Vec<Cell>,
    last_buffer: Vec<Cell>,
    capabilities: TerminalCapabilities,
    pending_clear: bool,
}

impl TerminalRenderer {
    #[verifier::type_invariant]
    spec fn well_formed(self) -> bool {
        &&& self.buffer@.len() == self.width * self.height
        &&& self.last_buffer@.len() == self.width * self.height
    }

    /// Columns of the grid.
    pub closed spec fn width(&self) -> u16 {
        self.width
    }

    /// Rows of the grid.
    pub closed spec fn height(&self) -> u16 {
        self.height
    }

    /// The grid being painted, row by row.
    pub closed spec fn cells(&self) -> Seq<Cell> {
        self.buffer@
    }

    /// The grid that the terminal shows, row by row.
    pub closed spec fn shown(&self) -> Seq<Cell> {
        self.last_buffer@
    }

    /// The colour support that requests are adapted to.
    pub closed spec fn support(&self) -> ColorSupport {
        self.capabilities.color_support
    }

    /// Whether the next flush erases the screen first.
    pub closed spec fn clear_pending(&self) -> bool {
        self.pending_clear
    }

    /// Everything but the grid being painted is as in `other`.
    pub open spec fn same_frame(&self, other: &TerminalRenderer) -> bool {
        &&& self.width() == other.width()
        &&& self.height() == other.height()
        &&& self.shown() == other.shown()
        &&& self.support() == other.support()
        &&& self.clear_pending() == other.clear_pending()
        &&& self.cells().len() == other.cells().len()
    }

    /// A blank grid for a terminal of `width` by `height` cells.
    ///
    /// Fails when the output is no terminal, or when the terminal is
    /// smaller than the scene needs.
    pub fn new(width: u16, height: u16, capabilities: TerminalCapabilities) -> (out: Result<
        TerminalRenderer,
        TerminalError,
    >)
        ensures
            !capabilities.is_tty ==> out == Err::<TerminalRenderer, TerminalError>(
                TerminalError::NotATty,
            ),
            capabilities.is_tty && (width < MIN_TERMINAL_WIDTH || height < MIN_TERMINAL_HEIGHT)
                ==> out == Err::<TerminalRenderer, TerminalError>(
                TerminalError::TooSmall {
                    width,
                    height,
                    min_width: MIN_TERMINAL_WIDTH,
                    min_height: MIN_TERMINAL_HEIGHT,
                },
            ),
            capabilities.is_tty && width >= MIN_TERMINAL_WIDTH && height >= MIN_TERMINAL_HEIGHT
                ==> out is Ok,
            out matches Ok(grid) ==> {
                &&& grid.width() == width
                &&& grid.height() == height
                &&& grid.cells() == blank_cells(width * height)
                &&& grid.shown() == blank_cells(width * height)
                &&& grid.support() == capabilities.color_support
                &&& !grid.clear_pending()
            },
    {
        if !capabilities.is_tty {
            return Err(TerminalError::NotATty);
        }
        if width < MIN_TERMINAL_WIDTH || height < MIN_TERMINAL_HEIGHT {
            return Err(
                TerminalError::TooSmall {
                    width,
                    height,
                    min_width: MIN_TERMINAL_WIDTH,
                    min_height: MIN_TERMINAL_HEIGHT,
                },
            );
        }
        Ok(Self::with_size(width, height, capabilities))
    }

    /// A blank grid of any size, with no test of the terminal.
    pub fn with_size(width: u16, height: u16, capabilities: TerminalCapabilities) -> (grid:
        TerminalRenderer)
        ensures
            grid.width() == width,
            grid.height() == height,
            grid.cells() == blank_cells(width * height),
            grid.shown() == blank_cells(width * height),
            grid.support() == capabilities.color_support,
            !grid.clear_pending(),
    {
        assert(width * height <= 65535 * 65535) by (nonlinear_arith)
            requires
                width <= 65535,
                height <= 65535,
        ;
        let n: usize = (width as usize) * (height as usize);
        TerminalRenderer {
            width,
            height,
            buffer: blank_buffer(n),
            last_buffer: blank_buffer(n),
            capabilities,
            pending_clear: false,
        }
    }

    /// Takes up a new terminal size.
    ///
    /// With new dimensions both grids become blank and the next flush
    /// erases the screen; with the old ones nothing changes.
    pub fn manual_resize(&mut self, width: u16, height: u16)
        ensures
            final(self).width() == width,
            final(self).height() == height,
            final(self).support() == old(self).support(),
            width == old(self).width() && height == old(self).height() ==> *final(self) == *old(
                self
            ),
            width != old(self).width() || height != old(self).height() ==> {
                &&& final(self).cells() == blank_cells(width * height)
                &&& final(self).shown() == blank_cells(width * height)
                &&& final(self).clear_pending()
            },
    {
        if width != self.width || height != self.height {
            assert(width * height <= 65535 * 65535) by (nonlinear_arith)
                requires
                    width <= 65535,
                    height <= 65535,
            ;
            let n: usize = (width as usize) * (height as usize);
            *self = TerminalRenderer {
                width,
                height,
                buffer: blank_buffer(n),
                last_buffer: blank_buffer(n),
                capabilities: self.capabilities,
                pending_clear: true,
            };
        }
    }

    /// The grid's width and height. Both grids hold that many cells.
    pub fn get_size(&self) -> (size: (u16, u16))
        ensures
            size.0 == self.width(),
            size.1 == self.height(),
            self.cells().len() == self.width() * self.height(),
            self.shown().len() == self.width() * self.height(),
    {
        proof {
            use_type_invariant(self);
        }
        (self.width, self.height)
    }

    /// The cell at `(x, y)` of the grid being painted, if there is one.
    pub fn cell_at(&self, x: u16, y: u16) -> (cell: Option<Cell>)
        ensures
            in_bounds(self.width() as int, self.height() as int, x as int, y as int) ==> cell
                == Some(self.cells()[y * self.width() + x]),
            !in_bounds(self.width() as int, self.height() as int, x as int, y as int) ==> cell
                is None,
    {
        proof {
            use_type_invariant(self);
        }
        if x < self.width && y < self.height {
            let w: usize = self.width as usize;
            assert(y * w + x < self.width * self.height) by (nonlinear_arith)
                requires
                    0 <= x < w,
                    0 <= y < self.height,
                    w == self.width,
            ;
            assert(self.width * self.height <= 65535 * 65535) by (nonlinear_arith)
                requires
                    self.width <= 65535,
                    self.height <= 65535,
            ;
            Some(self.buffer[(y as usize) * w + (x as usize)])
        } else {
            None
        }
    }

    /// Blanks the grid being painted. What the terminal shows stays.
    pub fn clear(&mut self)
        ensures
            final(self).same_frame(old(self)),
            final(self).cells() == blank_cells(old(self).width() * old(self).height()),
    {
        proof {
            use_type_invariant(&*self);
        }
        let n: usize = self.buffer.len();
        let mut i: usize = 0;
        while i < n
            invariant
                i <= n,
                n == self.buffer@.len(),
                self.buffer@.len() == self.width * self.height,
                self.last_buffer@.len() == self.width * self.height,
                self.width == old(self).width,
                self.height == old(self).height,
                self.last_buffer == old(self).last_buffer,
                self.capabilities == old(self).capabilities,
                self.pending_clear == old(self).pending_clear,
                forall|k: int| 0 <= k < i ==> self.buffer@[k] == Cell::blank(),
            decreases n - i,
        {
            self.buffer[i] = Cell { character: ' ', color: Color::Reset };
            i += 1;
        }
    }

    /// Writes one cell of the grid being painted, in the colour that the
    /// terminal supports. A write off the grid is dropped.
    pub fn put(&mut self, x: i64, y: i64, ch: char, color: Color)
        ensures
            final(self).same_frame(old(self)),
            final(self).cells() == put_cell(
                old(self).cells(),
                old(self).width() as int,
                old(self).height() as int,
                x as int,
                y as int,
                Cell { character: ch, color: adapted(old(self).support(), color) },
            ),
    {
        proof {
            use_type_invariant(&*self);
        }
        if 0 <= x && x < self.width as i64 && 0 <= y && y < self.height as i64 {
            let w: usize = self.width as usize;
            assert(y * w + x < self.width * self.height) by (nonlinear_arith)
                requires
                    0 <= x < w,
                    0 <= y < self.height,
                    w == self.width,
            ;
            assert(self.width * self.height <= 65535 * 65535) by (nonlinear_arith)
                requires
                    self.width <= 65535,
                    self.height <= 65535,
            ;
            let idx: usize = (y as usize) * w + (x as usize);
            let cell = Cell { character: ch, color: self.capabilities.adjust_color(color) };
            self.buffer[idx] = cell;
        }
    }

    /// Writes one cell; see [`TerminalRenderer::put`].
    pub fn render_char(&mut self, x: u16, y: u16, ch: char, color: Color)
        ensures
            final(self).same_frame(old(self)),
            final(self).cells() == put_cell(
                old(self).cells(),
                old(self).width() as int,
                old(self).height() as int,
                x as int,
                y as int,
                Cell { character: ch, color: adapted(old(self).support(), color) },
            ),
    {
        self.put(x as i64, y as i64, ch, color);
    }

    /// Turns every cell of the grid being painted white, or whatever the
    /// terminal shows for white, and leaves the characters.
    pub fn flash_screen(&mut self)
        ensures
            final(self).same_frame(old(self)),
            final(self).cells() == recolored(
                old(self).cells(),
                adapted(old(self).support(), Color::White),
            ),
    {
        proof {
            use_type_invariant(&*self);
        }
        let flash_color = self.capabilities.adjust_color(Color::White);
        let n: usize = self.buffer.len();
        let mut i: usize = 0;
        while i < n
            invariant
                i <= n,
                n == self.buffer@.len(),
                self.buffer@.len() == self.width * self.height,
                self.last_buffer@.len() == self.width * self.height,
                self.width == old(self).width,
                self.height == old(self).height,
                self.last_buffer == old(self).last_buffer,
                self.capabilities == old(self).capabilities,
                self.pending_clear == old(self).pending_clear,
                flash_color == adapted(old(self).support(), Color::White),
                forall|k: int|
                    0 <= k < i ==> self.buffer@[k] == (Cell {
                        character: old(self).buffer@[k].character,
                        color: flash_color,
                    }),
                forall|k: int| i <= k < n ==> self.buffer@[k] == old(self).buffer@[k],
            decreases n - i,
        {
            let ch = self.buffer[i].character;
            self.buffer[i] = Cell { character: ch, color: flash_color };
            i += 1;
        }
    }

    /// The operations that bring the terminal up to date: for each cell
    /// that differs from what the terminal shows, and for no other, one
    /// character, with a cursor move and a colour change only where they
    /// are needed. Nothing changes; the frame counts as shown once
    /// [`TerminalRenderer::mark_shown`] is called.
    pub fn pending(&self) -> (ops: Vec<TerminalOp>)
        ensures
            ops@ == flush_ops(
                self.cells(),
                self.shown(),
                self.width() as int,
                self.height() as int,
                self.clear_pending(),
            ),
            Screen::after(ops@).writes == changed(
                self.cells(),
                self.shown(),
                self.width() as int,
                self.width() * self.height(),
            ),
            Screen::after(ops@).color == Color::Reset,
            Screen::after(ops@).cleared == self.clear_pending(),
            ops@.len() <= 3 * changed(
                self.cells(),
                self.shown(),
                self.width() as int,
                self.width() * self.height(),
            ).len() + 2,
    {
        proof {
            use_type_invariant(self);
        }
        let ghost cur = self.buffer@;
        let ghost prev = self.last_buffer@;
        let ghost clear_first = self.pending_clear;
        let mut ops: Vec<TerminalOp> = Vec::new();
        if self.pending_clear {
            ops.push(TerminalOp::ClearAll);
            proof {
                lemma_after_push(Seq::empty(), TerminalOp::ClearAll);
            }
        }
        let ghost lead = ops@;
        let mut current_color = Color::Reset;
        let mut next: Option<(u16, u16)> = None;
        let n: usize = self.buffer.len();
        let w: u16 = self.width;
        let mut idx: usize = 0;
        let mut x: u16 = 0;
        let mut y: u16 = 0;
        assert(n > 0 ==> w > 0 && self.height > 0) by (nonlinear_arith)
            requires
                n == w * self.height,
        ;
        while idx < n
            invariant
                idx <= n,
                n == cur.len(),
                n == prev.len(),
                n == w * self.height,
                self.buffer@ == cur,
                self.last_buffer@ == prev,
                self.width == w,
                idx == y * w + x,
                idx < n ==> x < w && y < self.height,
                lead.len() <= 1,
                ops@.len() <= lead.len() + 3 * changed(cur, prev, w as int, idx as int).len(),
                ops@ == diff_ops(lead, cur, prev, w as int, idx as int),
                Screen::after(ops@) == (Screen {
                    cursor: match next {
                        Some((a, b)) => Some((a as int, b as int)),
                        None => None,
                    },
                    color: current_color,
                    writes: changed(cur, prev, w as int, idx as int),
                    cleared: clear_first,
                }),
            decreases n - idx,
        {
            let cell = self.buffer[idx];
            let last = self.last_buffer[idx];
            proof {
                lemma_fundamental_div_mod_converse(idx as int, w as int, y as int, x as int);
            }
            if cell != last {
                let here = match next {
                    Some((a, b)) => a == x && b == y,
                    None => false,
                };
                if !here {
                    proof {
                        lemma_after_push(ops@, TerminalOp::MoveTo(x, y));
                    }
                    ops.push(TerminalOp::MoveTo(x, y));
                }
                if cell.color != current_color {
                    proof {
                        lemma_after_push(ops@, TerminalOp::SetForegroundColor(cell.color));
                    }
                    ops.push(TerminalOp::SetForegroundColor(cell.color));
                    current_color = cell.color;
                }
                proof {
                    lemma_after_push(ops@, TerminalOp::Print(cell.character));
                }
                ops.push(TerminalOp::Print(cell.character));
                next = Some((x + 1, y));
            }
            idx += 1;
            if x + 1 == w {
                proof {
                    assert((y + 1) * w == y * w + w) by (nonlinear_arith);
                    if idx < n {
                        assert(y + 1 < self.height) by (nonlinear_arith)
                            requires
                                (y + 1) * w < w * self.height,
                                w > 0,
                        ;
                    }
                }
                x = 0;
                y += 1;
            } else {
                x += 1;
            }
        }
        if current_color != Color::Reset {
            proof {
                lemma_after_push(ops@, TerminalOp::ResetColor);
            }
            ops.push(TerminalOp::ResetColor);
        }
        ops
    }

    /// Takes the grid that was painted as what the terminal shows, once
    /// the pending operations have been written to it.
    pub fn mark_shown(&mut self)
        ensures
            final(self).width() == old(self).width(),
            final(self).height() == old(self).height(),
            final(self).support() == old(self).support(),
            final(self).cells() == old(self).cells(),
            final(self).shown() == old(self).cells(),
            !final(self).clear_pending(),
    {
        proof {
            use_type_invariant(&*self);
        }
        let n: usize = self.buffer.len();
        let mut shown: Vec<Cell> = Vec::with_capacity(n);
        let mut i: usize = 0;
        while i < n
            invariant
                i <= n,
                n == self.buffer@.len(),
                self.buffer@ == old(self).buffer@,
                shown@ == self.buffer@.take(i as int),
            decreases n - i,
        {
            shown.push(self.buffer[i]);
            i += 1;
        }
        assert(self.buffer@.take(n as int) =~= self.buffer@);
        self.last_buffer = shown;
        self.pending_clear = false;
    }

    /// Brings the terminal up to date.
    ///
    /// Returns the operations to send, as [`TerminalRenderer::pending`]
    /// gives them, and takes the terminal to show the grid that was
    /// painted. A caller whose writing may fail calls the two steps by
    /// themselves.
    pub fn flush(&mut self) -> (ops: Vec<TerminalOp>)
        ensures
            final(self).width() == old(self).width(),
            final(self).height() == old(self).height(),
            final(self).support() == old(self).support(),
            final(self).cells() == old(self).cells(),
            final(self).shown() == old(self).cells(),
            !final(self).clear_pending(),
            ops@ == flush_ops(
                old(self).cells(),
                old(self).shown(),
                old(self).width() as int,
                old(self).height() as int,
                old(self).clear_pending(),
            ),
            Screen::after(ops@).writes == changed(
                old(self).cells(),
                old(self).shown(),
                old(self).width() as int,
                old(self).width() * old(self).height(),
            ),
            Screen::after(ops@).color == Color::Reset,
            Screen::after(ops@).cleared == old(self).clear_pending(),
            ops@.len() <= 3 * changed(
                old(self).cells(),
                old(self).shown(),
                old(self).width() as int,
                old(self).width() * old(self).height(),
            ).len() + 2,
    {
        let ops = self.pending();
        self.mark_shown();
        ops
    }
}

} // verus!
