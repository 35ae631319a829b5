//! The operations that a flush sends, and what they do to a terminal.

use vstd::prelude::*;
use crate::render::color::Color;
use crate::render::grid::Cell;

verus! {

/// One instruction for the terminal.
#[derive(Clone, Copy, Debug, PartialEq, Eq, Structural)]
pub enum TerminalOp {
    /// Erase the whole screen.
    ClearAll,
    /// Move the cursor to column `0` and row `1` of the pair.
    MoveTo(u16, u16),
    /// Print what follows in this colour.
    SetForegroundColor(Color),
    /// Print one character at the cursor, which then moves one column right.
    Print(char),
    /// Go back to the terminal's default colour.
    ResetColor,
}

/// One character that reached the screen.
pub struct CellWrite {
    pub x: int,
    pub y: int,
    pub cell: Cell,
}

/// A terminal, as far as a stream of operations can tell.
pub struct Screen {
    /// Where the next character goes; unknown until the first `MoveTo`.
    pub cursor: Option<(int, int)>,
    /// The colour in force.
    pub color: Color,
    /// Every character printed so far, in order.
    pub writes: Seq<CellWrite>,
    /// Whether the screen was erased.
    pub cleared: bool,
}

impl Screen {
    /// A terminal before anything is sent to it.
    pub open spec fn fresh() -> Screen {
        Screen { cursor: None, color: Color::Reset, writes: Seq::empty(), cleared: false }
    }

    /// The terminal after one more operation.
    pub open spec fn apply(self, op: TerminalOp) -> Screen {
        match op {
            TerminalOp::ClearAll => Screen { cleared: true, ..self },
            TerminalOp::MoveTo(x, y) => Screen { cursor: Some((x as int, y as int)), ..self },
            TerminalOp::SetForegroundColor(c) => Screen { color: c, ..self },
            TerminalOp::ResetColor => Screen { color: Color::Reset, ..self },
            TerminalOp::Print(ch) => match self.cursor {
                Some((x, y)) => Screen {
                    cursor: Some((x + 1, y)),
                    writes: self.writes.push(
                        CellWrite { x, y, cell: Cell { character: ch, color: self.color } },
                    ),
                    ..self
                },
                None => self,
            },
        }
    }

    /// The terminal after a whole stream of operations.
    pub open spec fn after(ops: Seq<TerminalOp>) -> Screen
        decreases ops.len(),
    {
        if ops.len() == 0 {
            Screen::fresh()
        } else {
            Screen::after(ops.drop_last()).apply(ops.last())
        }
    }
}

/// Sending one more operation applies it to the terminal that the stream
/// so far has left.
pub proof fn lemma_after_push(ops: Seq<TerminalOp>, op: TerminalOp)
    ensures
        Screen::after(ops.push(op)) == Screen::after(ops).apply(op),
{
    assert(ops.push(op).drop_last() =~= ops);
}

/// The cells among the first `n` that differ from what is shown, in
/// row-major order, each with its place in a grid `w` cells wide.
pub open spec fn changed(cur: Seq<Cell>, prev: Seq<Cell>, w: int, n: int) -> Seq<CellWrite>
    decreases n,
{
    if n <= 0 {
        Seq::empty()
    } else {
        let rest = changed(cur, prev, w, n - 1);
        let i = n - 1;
        if cur[i] != prev[i] {
            rest.push(CellWrite { x: i % w, y: i / w, cell: cur[i] })
        } else {
            rest
        }
    }
}

/// The places among the first `n` where the two grids differ, in
/// rising order.
pub open spec fn differing(cur: Seq<Cell>, prev: Seq<Cell>, n: int) -> Seq<int>
    decreases n,
{
    if n <= 0 {
        Seq::empty()
    } else {
        let rest = differing(cur, prev, n - 1);
        if cur[n - 1] != prev[n - 1] {
            rest.push(n - 1)
        } else {
            rest
        }
    }
}

/// The changed cells are the cells that differ, each once and no other:
/// the places where the grids differ are listed in rising order, every
/// place that differs is among them, and the write for each carries the
/// new cell to its column and row.
pub proof fn lemma_changed_exactly(cur: Seq<Cell>, prev: Seq<Cell>, w: int, n: int)
    ensures
        changed(cur, prev, w, n).len() == differing(cur, prev, n).len(),
        forall|k: int|
            0 <= k < differing(cur, prev, n).len() ==> {
                let i = #[trigger] differing(cur, prev, n)[k];
                &&& 0 <= i < n
                &&& cur[i] != prev[i]
                &&& changed(cur, prev, w, n)[k] == (CellWrite { x: i % w, y: i / w, cell: cur[i] })
            },
        forall|j: int, k: int|
            0 <= j < k < differing(cur, prev, n).len() ==> differing(cur, prev, n)[j] < differing(
                cur,
                prev,
                n,
            )[k],
        forall|i: int|
            0 <= i < n && cur[i] != prev[i] ==> differing(cur, prev, n).contains(i),
    decreases n,
{
    if n > 0 {
        lemma_changed_exactly(cur, prev, w, n - 1);
        let rest = differing(cur, prev, n - 1);
        let all = differing(cur, prev, n);
        assert forall|i: int| 0 <= i < n && cur[i] != prev[i] implies all.contains(i) by {
            if i < n - 1 {
                let k = choose|k: int| 0 <= k < rest.len() && rest[k] == i;
                assert(all[k] == i);
            } else {
                assert(all[all.len() - 1] == i);
            }
        }
    }
}

/// Where nothing differs, nothing is sent.
pub proof fn lemma_unchanged_is_silent(cells: Seq<Cell>, w: int, h: int, n: int)
    ensures
        changed(cells, cells, w, n) == Seq::<CellWrite>::empty(),
        diff_ops(Seq::empty(), cells, cells, w, n) == Seq::<TerminalOp>::empty(),
        flush_ops(cells, cells, w, h, false) == Seq::<TerminalOp>::empty(),
    decreases n,
{
    if n > 0 {
        lemma_unchanged_is_silent(cells, w, h, n - 1);
    }
    lemma_unchanged_all(cells, w, w * h);
}

proof fn lemma_unchanged_all(cells: Seq<Cell>, w: int, n: int)
    ensures
        diff_ops(Seq::empty(), cells, cells, w, n) == Seq::<TerminalOp>::empty(),
    decreases n,
{
    if n > 0 {
        lemma_unchanged_all(cells, w, n - 1);
    }
}

/// What is sent for one changed cell: a cursor move unless the cursor is
/// already there, a colour change unless the colour is already in force,
/// and the character.
pub open spec fn cell_ops(screen: Screen, x: int, y: int, cell: Cell) -> Seq<TerminalOp> {
    let moved: Seq<TerminalOp> = if screen.cursor != Some((x, y)) {
        seq![TerminalOp::MoveTo(x as u16, y as u16)]
    } else {
        Seq::empty()
    };
    let dyed: Seq<TerminalOp> = if cell.color != screen.color {
        seq![TerminalOp::SetForegroundColor(cell.color)]
    } else {
        Seq::empty()
    };
    moved + dyed + seq![TerminalOp::Print(cell.character)]
}

/// The stream for the first `n` cells, sent after `lead`.
pub open spec fn diff_ops(
    lead: Seq<TerminalOp>,
    cur: Seq<Cell>,
    prev: Seq<Cell>,
    w: int,
    n: int,
) -> Seq<TerminalOp>
    decreases n,
{
    if n <= 0 {
        lead
    } else {
        let before = diff_ops(lead, cur, prev, w, n - 1);
        let i = n - 1;
        if cur[i] != prev[i] {
            before + cell_ops(Screen::after(before), i % w, i / w, cur[i])
        } else {
            before
        }
    }
}

/// The whole stream of a flush: an erase if one is owed, the changed
/// cells, and a colour reset if a colour is left in force.
pub open spec fn flush_ops(
    cur: Seq<Cell>,
    prev: Seq<Cell>,
    w: int,
    h: int,
    clear_first: bool,
) -> Seq<TerminalOp> {
    let lead: Seq<TerminalOp> = if clear_first {
        seq![TerminalOp::ClearAll]
    } else {
        Seq::empty()
    };
    let body = diff_ops(lead, cur, prev, w, w * h);
    if Screen::after(body).color != Color::Reset {
        body.push(TerminalOp::ResetColor)
    } else {
        body
    }
}

} // verus!
