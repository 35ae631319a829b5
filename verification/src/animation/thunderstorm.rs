//! Lightning: a cycle of waiting, striking, flashing and fading, and the
//! jagged bolts that it draws.

use std::collections::VecDeque;
use vstd::prelude::*;
use crate::animation::engine::{keep_newest, last_of};
use crate::fixed::{chance, hits, UNIT};
use crate::random::{draw_i8, draw_u16, draw_unit, RandomSource};
use crate::render::capabilities::ColorSupport;
use crate::render::color::Color;
use crate::render::grid::{Cell, TerminalRenderer};
use crate::render::stamp::{with_glyphs, Glyph};

verus! {

/// The most bolts that are kept; beyond it the oldest go.
pub const MAX_BOLTS: usize = 10;

/// Where the lightning stands in its cycle.
#[derive(Clone, Copy, Debug, PartialEq, Eq, Structural)]
pub enum LightningState {
    Forming,
    Strike,
    Flash,
    Fading,
    Idle,
}

/// One piece of a bolt's path.
#[derive(Clone, Copy, Debug)]
pub struct Segment {
    pub x: u16,
    pub y: u16,
    pub character: char,
}

/// One bolt: its path and its age.
#[derive(Debug)]
pub struct LightningBolt {
    pub segments: Vec<Segment>,
    pub age: u8,
    pub max_age: u8,
}

/// The random numbers for one row of a bolt's path.
#[derive(Clone, Copy, Debug)]
pub struct BoltTurn {
    /// Decides which way the path leans in this row.
    pub lean: i8,
    /// A fraction that decides whether a branch forks off.
    pub fork: u32,
}

/// The lightning.
pub struct ThunderstormSystem {
    pub bolts: VecDeque<LightningBolt>,
    pub state: LightningState,
    pub timer: u16,
    pub terminal_width: u16,
    pub terminal_height: u16,
    pub flash_active: bool,
    pub next_strike_in: u16,
}

/// How far a draw makes the path lean: three columns left at most, one
/// column right at most.
pub open spec fn lean_of(draw: i8) -> int {
    let r: int = if draw >= 0 {
        draw as int % 3
    } else {
        -((-(draw as int)) % 3)
    };
    r - 1
}

/// The column at which a path stays on the terminal: at least column 2,
/// and left of the last two columns where the terminal is wide enough.
pub open spec fn held_in(x: int, w: u16) -> int {
    let low: int = if x < 2 { 2 } else { x };
    let right: int = if w >= 2 { w - 2 } else { 0 };
    if low >= right {
        if w >= 3 { w - 3 } else { 0 }
    } else {
        low
    }
}

/// The character of a path segment that leans by `lean`.
pub open spec fn lean_char(lean: int) -> char {
    if lean == -1 {
        '/'
    } else if lean == 1 {
        '\\'
    } else {
        '|'
    }
}

/// The first row below which no path goes on.
pub open spec fn path_floor(h: u16) -> int {
    if h >= 5 {
        h - 5
    } else {
        0
    }
}

/// The first row that no branch enters.
pub open spec fn branch_floor(h: u16) -> int {
    if h >= 2 {
        h - 2
    } else {
        0
    }
}

/// How many rows a path has below its start.
pub open spec fn path_rows(h: u16) -> int {
    if path_floor(h) > 2 {
        path_floor(h) - 2
    } else {
        0
    }
}

/// The column where a bolt starts: five columns in from the left, and
/// from the right where the terminal is wide enough.
pub open spec fn start_column(start: u16, w: u16) -> int {
    let span: int = if w > 10 { w - 10 } else { 1 };
    start as int % span + 5
}

/// The character of a branch that runs `dir` columns sideways for each
/// row down.
pub open spec fn branch_char(dir: int) -> char {
    if dir < 0 {
        '/'
    } else {
        '\\'
    }
}

/// The up to three segments of a branch that forks off at `(x, y)` and
/// runs `dir` columns sideways for each row down: those that stay above
/// the branch floor and right of column zero.
pub open spec fn branch(x: int, y: int, dir: int, h: u16, n: int) -> Seq<Segment>
    decreases n,
{
    if n <= 0 {
        Seq::empty()
    } else {
        let rest = branch(x, y, dir, h, n - 1);
        let bx = x + dir * n;
        let by = y + n;
        if by < branch_floor(h) && 0 <= bx <= 65535 {
            rest.push(Segment { x: bx as u16, y: by as u16, character: branch_char(dir) })
        } else {
            rest
        }
    }
}

/// The column of a path after `n` rows.
pub open spec fn path_column(w: u16, start: u16, turns: Seq<BoltTurn>, n: int) -> int
    decreases n,
{
    if n <= 0 {
        start_column(start, w)
    } else {
        held_in(path_column(w, start, turns, n - 1) + lean_of(turns[n - 1].lean), w)
    }
}

/// The path of a bolt down to its `n`th row: a `+` where it starts, in
/// row 2, then for each row a segment that leans as the row's draw
/// says, and after it a branch against the lean where the draw falls
/// under one in five.
pub open spec fn path(w: u16, h: u16, start: u16, turns: Seq<BoltTurn>, n: int) -> Seq<Segment>
    decreases n,
{
    if n <= 0 {
        seq![Segment { x: start_column(start, w) as u16, y: 2u16, character: '+' }]
    } else {
        let before = path(w, h, start, turns, n - 1);
        let lean = lean_of(turns[n - 1].lean);
        let x = path_column(w, start, turns, n);
        let y = 2 + n;
        let main = before.push(Segment { x: x as u16, y: y as u16, character: lean_char(lean) });
        if hits(turns[n - 1].fork, 200) {
            main + branch(x, y, -lean, h, 3)
        } else {
            main
        }
    }
}

/// The bolts one tick older, without those that have reached their
/// greatest age, among the first `n`.
pub open spec fn faded(bolts: Seq<LightningBolt>, n: int) -> Seq<LightningBolt>
    decreases n,
{
    if n <= 0 {
        Seq::empty()
    } else {
        let rest = faded(bolts, n - 1);
        let bolt = bolts[n - 1];
        if bolt.age + 1 < bolt.max_age {
            rest.push(LightningBolt { age: (bolt.age + 1) as u8, ..bolt })
        } else {
            rest
        }
    }
}

/// Fading never adds a bolt, and every bolt that is left after it is
/// younger than its greatest age.
pub proof fn lemma_faded_conserved(bolts: Seq<LightningBolt>, n: int)
    requires
        0 <= n <= bolts.len(),
    ensures
        faded(bolts, n).len() <= n,
        forall|i: int|
            0 <= i < faded(bolts, n).len() ==> (#[trigger] faded(bolts, n)[i]).age < faded(
                bolts,
                n,
            )[i].max_age,
    decreases n,
{
    if n > 0 {
        lemma_faded_conserved(bolts, n - 1);
    }
}

/// The newest `MAX_BOLTS` of a list of bolts.
pub open spec fn newest_bolts(bolts: Seq<LightningBolt>) -> Seq<LightningBolt> {
    last_of(bolts, MAX_BOLTS as int)
}

/// Traces the path of a bolt; see [`path`]. The path has a row for each
/// turn, and no more rows than fit above the ground.
pub fn trace_bolt(w: u16, h: u16, start: u16, turns: &Vec<BoltTurn>) -> (segments: Vec<Segment>)
    ensures
        segments@ == path(
            w,
            h,
            start,
            turns@,
            if turns@.len() < path_rows(h) {
                turns@.len() as int
            } else {
                path_rows(h)
            },
        ),
{
    let span: u16 = if w > 10 {
        w - 10
    } else {
        1
    };
    let floor: i32 = if h >= 5 {
        (h - 5) as i32
    } else {
        0
    };
    let branch_end: i32 = if h >= 2 {
        (h - 2) as i32
    } else {
        0
    };
    let right: i32 = if w >= 2 {
        (w - 2) as i32
    } else {
        0
    };
    let inner: i32 = if w >= 3 {
        (w - 3) as i32
    } else {
        0
    };
    let mut x: i32 = (start % span) as i32 + 5;
    let mut y: i32 = 2;
    let mut segments: Vec<Segment> = Vec::new();
    segments.push(Segment { x: x as u16, y: 2, character: '+' });
    let mut n: usize = 0;
    while y < floor && n < turns.len()
        invariant
            n <= turns.len(),
            n <= path_rows(h),
            y == 2 + n,
            floor == path_floor(h),
            branch_end == branch_floor(h),
            right == (if w >= 2 { w - 2 } else { 0 }),
            inner == (if w >= 3 { w - 3 } else { 0 }),
            x == path_column(w, start, turns@, n as int),
            0 <= x <= 65535,
            segments@ == path(w, h, start, turns@, n as int),
        decreases turns.len() - n,
    {
        let turn = turns[n];
        let lean: i32 = (turn.lean % 3) as i32 - 1;
        x = x + lean;
        y = y + 1;
        if x < 2 {
            x = 2;
        }
        if x >= right {
            x = inner;
        }
        let character = if lean == -1 {
            '/'
        } else if lean == 1 {
            '\\'
        } else {
            '|'
        };
        segments.push(Segment { x: x as u16, y: y as u16, character });
        let ghost main = segments@;
        if chance(turn.fork, 200) {
            let dir: i32 = -lean;
            let mut k: i32 = 0;
            while k < 3
                invariant
                    0 <= k <= 3,
                    -1 <= dir <= 3,
                    0 <= x <= 65535,
                    0 <= y <= 65535,
                    branch_end == branch_floor(h),
                    segments@ == main + branch(x as int, y as int, dir as int, h, k as int),
                decreases 3 - k,
            {
                k = k + 1;
                assert(-3 <= dir * k <= 9) by (nonlinear_arith)
                    requires
                        -1 <= dir <= 3,
                        1 <= k <= 3,
                ;
                let bx: i32 = x + dir * k;
                let by: i32 = y + k;
                if by < branch_end && 0 <= bx && bx <= 65535 {
                    let character = if dir < 0 {
                        '/'
                    } else {
                        '\\'
                    };
                    segments.push(Segment { x: bx as u16, y: by as u16, character });
                }
            }
        } else {
        }
        n += 1;
    }
    segments
}

/// Whether `bolt` is a new bolt whose path starts in some column and
/// takes some turn in each row.
pub open spec fn struck(bolt: LightningBolt, w: u16, h: u16) -> bool {
    &&& bolt.age == 0
    &&& bolt.max_age == 10
    &&& exists|start: u16, turns: Seq<BoltTurn>|
        {
            &&& turns.len() == path_rows(h)
            &&& forall|i: int| 0 <= i < turns.len() ==> (#[trigger] turns[i]).fork < UNIT
            &&& #[trigger] path(w, h, start, turns, path_rows(h)) == bolt.segments@
        }
}

/// Whether `after` is `before` with a new bolt added and the oldest
/// dropped beyond `MAX_BOLTS`.
pub open spec fn joined(
    before: Seq<LightningBolt>,
    after: Seq<LightningBolt>,
    w: u16,
    h: u16,
) -> bool {
    exists|bolt: LightningBolt|
        struck(bolt, w, h) && #[trigger] newest_bolts(before.push(bolt)) == after
}

impl ThunderstormSystem {
    /// What a tick makes of the lightning, where `delay` is the random
    /// number that decides the wait before the next strike.
    ///
    /// While idle the timer runs up to the wait; then a bolt forms.
    /// Forming passes to the strike in one tick, and the strike to the
    /// flash, which turns the flash flag on. The flash lasts four ticks
    /// and turns the flag off as it ends. Then the bolts fade, one tick
    /// of age at a time, and when none is left the cycle is idle again,
    /// with a wait of 30 to 229 ticks before it.
    pub open spec fn ticked(&self, next: &ThunderstormSystem, w: u16, h: u16, delay: u16) -> bool {
        &&& next.terminal_width == w
        &&& next.terminal_height == h
        &&& match self.state {
            LightningState::Idle => {
                &&& !next.flash_active
                &&& next.next_strike_in == self.next_strike_in
                &&& if self.timer >= self.next_strike_in {
                    &&& next.state == LightningState::Forming
                    &&& next.timer == 0
                    &&& joined(self.bolts@, next.bolts@, w, h)
                } else {
                    &&& next.state == LightningState::Idle
                    &&& next.timer == self.timer + 1
                    &&& next.bolts@ == self.bolts@
                }
            },
            LightningState::Forming => {
                &&& next.state == LightningState::Strike
                &&& next.timer == 0
                &&& next.flash_active == self.flash_active
                &&& next.next_strike_in == self.next_strike_in
                &&& next.bolts@ == self.bolts@
            },
            LightningState::Strike => {
                &&& next.state == LightningState::Flash
                &&& next.timer == 0
                &&& next.flash_active
                &&& next.next_strike_in == self.next_strike_in
                &&& next.bolts@ == self.bolts@
            },
            LightningState::Flash => {
                &&& next.next_strike_in == self.next_strike_in
                &&& next.bolts@ == self.bolts@
                &&& if self.timer > 2 {
                    &&& next.state == LightningState::Fading
                    &&& next.timer == 0
                    &&& !next.flash_active
                } else {
                    &&& next.state == LightningState::Flash
                    &&& next.timer == self.timer + 1
                    &&& next.flash_active == self.flash_active
                }
            },
            LightningState::Fading => {
                &&& next.flash_active == self.flash_active
                &&& next.bolts@ == faded(self.bolts@, self.bolts@.len() as int)
                &&& if next.bolts@.len() == 0 {
                    &&& next.state == LightningState::Idle
                    &&& next.timer == 0
                    &&& next.next_strike_in == 30 + delay % 200
                } else {
                    &&& next.state == LightningState::Fading
                    &&& next.timer == self.timer
                    &&& next.next_strike_in == self.next_strike_in
                }
            },
        }
    }

    /// Lightning at rest, with a first wait of 60 to 179 ticks.
    pub fn new<R: RandomSource>(terminal_width: u16, terminal_height: u16, rng: &mut R) -> (system:
        ThunderstormSystem)
        ensures
            system.bolts@.len() == 0,
            system.state == LightningState::Idle,
            system.timer == 0,
            system.terminal_width == terminal_width,
            system.terminal_height == terminal_height,
            !system.flash_active,
            60 <= system.next_strike_in < 180,
    {
        ThunderstormSystem {
            bolts: VecDeque::new(),
            state: LightningState::Idle,
            timer: 0,
            terminal_width,
            terminal_height,
            flash_active: false,
            next_strike_in: 60 + draw_u16(rng) % 120,
        }
    }

    /// Whether the scene is to flash in this frame.
    pub fn is_flashing(&self) -> (flashing: bool)
        ensures
            flashing == self.flash_active,
    {
        self.flash_active
    }

    /// Adds a bolt with the given path and drops the oldest beyond
    /// `MAX_BOLTS`.
    pub fn add_bolt(&mut self, segments: Vec<Segment>)
        ensures
            exists|bolt: LightningBolt|
                {
                    &&& bolt.segments@ == segments@
                    &&& bolt.age == 0
                    &&& bolt.max_age == 10
                    &&& #[trigger] newest_bolts(old(self).bolts@.push(bolt)) == final(self).bolts@
                },
            final(self).state == old(self).state,
            final(self).timer == old(self).timer,
            final(self).terminal_width == old(self).terminal_width,
            final(self).terminal_height == old(self).terminal_height,
            final(self).flash_active == old(self).flash_active,
            final(self).next_strike_in == old(self).next_strike_in,
    {
        let bolt = LightningBolt { segments, age: 0, max_age: 10 };
        let ghost witness = bolt;
        self.bolts.push_back(bolt);
        keep_newest(&mut self.bolts, MAX_BOLTS);
        assert(newest_bolts(old(self).bolts@.push(witness)) =~= self.bolts@);
    }

    /// Ages every bolt by a tick and drops those that have reached their
    /// greatest age.
    pub fn fade(&mut self)
        ensures
            final(self).bolts@ == faded(old(self).bolts@, old(self).bolts@.len() as int),
            final(self).state == old(self).state,
            final(self).timer == old(self).timer,
            final(self).terminal_width == old(self).terminal_width,
            final(self).terminal_height == old(self).terminal_height,
            final(self).flash_active == old(self).flash_active,
            final(self).next_strike_in == old(self).next_strike_in,
    {
        let ghost before = self.bolts@;
        let n: usize = self.bolts.len();
        let mut done: usize = 0;
        while done < n
            invariant
                done <= n,
                n == before.len(),
                self.bolts@ == before.skip(done as int) + faded(before, done as int),
                self.state == old(self).state,
                self.timer == old(self).timer,
                self.terminal_width == old(self).terminal_width,
                self.terminal_height == old(self).terminal_height,
                self.flash_active == old(self).flash_active,
                self.next_strike_in == old(self).next_strike_in,
            decreases n - done,
        {
            let ghost aged = faded(before, done as int);
            assert(self.bolts@[0] == before[done as int]);
            match self.bolts.pop_front() {
                Some(bolt) => {
                    assert(self.bolts@ =~= before.skip(done + 1) + aged);
                    if (bolt.age as u16) + 1 < bolt.max_age as u16 {
                        let older = LightningBolt { age: bolt.age + 1, ..bolt };
                        self.bolts.push_back(older);
                        assert(self.bolts@ =~= before.skip(done + 1) + aged.push(older));
                    }
                },
                None => {},
            }
            done += 1;
        }
        assert(self.bolts@ =~= faded(before, n as int));
    }

    /// Generates a bolt from a random start and random turns and adds it.
    pub fn generate_bolt<R: RandomSource>(&mut self, rng: &mut R)
        ensures
            joined(
                old(self).bolts@,
                final(self).bolts@,
                old(self).terminal_width,
                old(self).terminal_height,
            ),
            final(self).state == old(self).state,
            final(self).timer == old(self).timer,
            final(self).terminal_width == old(self).terminal_width,
            final(self).terminal_height == old(self).terminal_height,
            final(self).flash_active == old(self).flash_active,
            final(self).next_strike_in == old(self).next_strike_in,
    {
        let start = draw_u16(rng);
        let rows: usize = if self.terminal_height > 7 {
            (self.terminal_height - 7) as usize
        } else {
            0
        };
        let mut turns: Vec<BoltTurn> = Vec::new();
        let mut i: usize = 0;
        while i < rows
            invariant
                i <= rows,
                turns@.len() == i,
                forall|k: int| 0 <= k < i ==> (#[trigger] turns@[k]).fork < UNIT,
            decreases rows - i,
        {
            let lean = draw_i8(rng);
            let fork = draw_unit(rng);
            turns.push(BoltTurn { lean, fork });
            i += 1;
        }
        let segments = trace_bolt(self.terminal_width, self.terminal_height, start, &turns);
        self.add_bolt(segments);
    }

    /// What one tick on some random numbers may make of the system.
    pub open spec fn updated(
        &self,
        next: &Self,
        terminal_width: u16,
        terminal_height: u16,
    ) -> bool {
        exists|delay: u16| #[trigger] self.ticked(next, terminal_width, terminal_height, delay)
    }

    /// One tick of the cycle on random numbers from `rng`; see
    /// [`ThunderstormSystem::ticked`].
    pub fn update<R: RandomSource>(
        &mut self,
        terminal_width: u16,
        terminal_height: u16,
        rng: &mut R,
    )
        ensures
            old(self).updated(final(self), terminal_width, terminal_height),
    {
        self.terminal_width = terminal_width;
        self.terminal_height = terminal_height;
        let mut delay: u16 = 0;
        match self.state {
            LightningState::Idle => {
                self.flash_active = false;
                if self.timer >= self.next_strike_in {
                    self.state = LightningState::Forming;
                    self.timer = 0;
                    self.generate_bolt(rng);
                } else {
                    self.timer = self.timer + 1;
                }
            },
            LightningState::Forming => {
                self.state = LightningState::Strike;
                self.timer = 0;
            },
            LightningState::Strike => {
                self.flash_active = true;
                self.state = LightningState::Flash;
                self.timer = 0;
            },
            LightningState::Flash => {
                if self.timer > 2 {
                    self.flash_active = false;
                    self.state = LightningState::Fading;
                    self.timer = 0;
                } else {
                    self.timer = self.timer + 1;
                }
            },
            LightningState::Fading => {
                self.fade();
                if self.bolts.len() == 0 {
                    delay = draw_u16(rng);
                    self.state = LightningState::Idle;
                    self.timer = 0;
                    self.next_strike_in = 30 + delay % 200;
                }
            },
        }
        assert(old(self).ticked(self, terminal_width, terminal_height, delay));
    }

    /// The grid after the system is painted on it.
    pub open spec fn rendered(
        &self,
        cells: Seq<Cell>,
        w: int,
        h: int,
        support: ColorSupport,
    ) -> Seq<Cell> {
        bolts_painted(
            cells,
            w,
            h,
            support,
            self.bolts@,
            if self.flash_active {
                Color::White
            } else {
                Color::Yellow
            },
            self.bolts@.len() as int,
        )
    }

    /// Paints every bolt, white while the scene flashes and yellow otherwise.
    pub fn render(&self, renderer: &mut TerminalRenderer)
        ensures
            final(renderer).same_frame(old(renderer)),
            final(renderer).cells() == self.rendered(
                old(renderer).cells(),
                old(renderer).width() as int,
                old(renderer).height() as int,
                old(renderer).support(),
            ),
    {
        let color = if self.flash_active {
            Color::White
        } else {
            Color::Yellow
        };
        let mut i: usize = 0;
        while i < self.bolts.len()
            invariant
                i <= self.bolts.len(),
                renderer.same_frame(old(renderer)),
                renderer.cells() == bolts_painted(
                    old(renderer).cells(),
                    old(renderer).width() as int,
                    old(renderer).height() as int,
                    old(renderer).support(),
                    self.bolts@,
                    color,
                    i as int,
                ),
            decreases self.bolts.len() - i,
        {
            let ghost start = renderer.cells();
            let count: usize = self.bolts[i].segments.len();
            let mut j: usize = 0;
            while j < count
                invariant
                    i < self.bolts.len(),
                    j <= count,
                    count == self.bolts@[i as int].segments@.len(),
                    renderer.same_frame(old(renderer)),
                    renderer.cells() == with_glyphs(
                        start,
                        old(renderer).width() as int,
                        old(renderer).height() as int,
                        old(renderer).support(),
                        bolt_glyphs(self.bolts@[i as int], color),
                        j as int,
                    ),
                decreases count - j,
            {
                let segment = self.bolts[i].segments[j];
                renderer.render_char(segment.x, segment.y, segment.character, color);
                j += 1;
            }
            i += 1;
        }
    }
}

/// What a bolt paints: its segments in one colour.
pub open spec fn bolt_glyphs(bolt: LightningBolt, color: Color) -> Seq<Glyph> {
    segment_glyphs(bolt.segments@, color)
}

/// The glyphs for a list of segments in one colour.
pub open spec fn segment_glyphs(segments: Seq<Segment>, color: Color) -> Seq<Glyph> {
    Seq::new(
        segments.len(),
        |i: int|
            Glyph {
                x: segments[i].x as i64,
                y: segments[i].y as i64,
                character: segments[i].character,
                color,
            },
    )
}

/// The grid after the first `n` bolts are painted on it.
pub open spec fn bolts_painted(
    cells: Seq<Cell>,
    w: int,
    h: int,
    support: ColorSupport,
    bolts: Seq<LightningBolt>,
    color: Color,
    n: int,
) -> Seq<Cell>
    decreases n,
{
    if n <= 0 {
        cells
    } else {
        with_glyphs(
            bolts_painted(cells, w, h, support, bolts, color, n - 1),
            w,
            h,
            support,
            bolt_glyphs(bolts[n - 1], color),
            bolts[n - 1].segments@.len() as int,
        )
    }
}

/// Whether `next` is what some tick makes of `now`.
pub open spec fn follows(now: ThunderstormSystem, next: ThunderstormSystem) -> bool {
    exists|w: u16, h: u16, delay: u16| #[trigger] now.ticked(&next, w, h, delay)
}

/// Whether each state of `trace` is what a tick makes of the one before.
pub open spec fn storm_run(trace: spec_fn(nat) -> ThunderstormSystem) -> bool {
    forall|i: nat| #[trigger] follows(trace(i), trace(i + 1))
}

/// The ticks that an idle cycle still waits.
pub open spec fn wait_left(system: ThunderstormSystem) -> nat {
    if system.timer >= system.next_strike_in {
        0
    } else {
        (system.next_strike_in - system.timer) as nat
    }
}

/// How many ticks of fading a bolt outlasts.
pub open spec fn life_left(bolt: LightningBolt) -> int {
    if bolt.age + 1 < bolt.max_age {
        bolt.max_age - bolt.age - 1
    } else {
        0
    }
}

/// The most ticks of fading that one of the first `n` bolts outlasts.
pub open spec fn longest_life(bolts: Seq<LightningBolt>, n: int) -> int
    decreases n,
{
    if n <= 0 {
        0
    } else {
        let rest = longest_life(bolts, n - 1);
        if life_left(bolts[n - 1]) > rest {
            life_left(bolts[n - 1])
        } else {
            rest
        }
    }
}

proof fn lemma_life_bounds(bolts: Seq<LightningBolt>, n: int)
    ensures
        0 <= longest_life(bolts, n) <= 254,
    decreases n,
{
    if n > 0 {
        lemma_life_bounds(bolts, n - 1);
    }
}

proof fn lemma_fading_shortens(bolts: Seq<LightningBolt>, n: int)
    requires
        0 <= n <= bolts.len(),
    ensures
        longest_life(bolts, n) == 0 ==> faded(bolts, n).len() == 0,
        longest_life(bolts, n) > 0 ==> longest_life(faded(bolts, n), faded(bolts, n).len() as int)
            == longest_life(bolts, n) - 1,
        longest_life(bolts, n) == 0 ==> longest_life(faded(bolts, n), faded(bolts, n).len() as int)
            == 0,
    decreases n,
{
    if n > 0 {
        lemma_fading_shortens(bolts, n - 1);
        let rest = faded(bolts, n - 1);
        let bolt = bolts[n - 1];
        if bolt.age + 1 < bolt.max_age {
            let aged = LightningBolt { age: (bolt.age + 1) as u8, ..bolt };
            let all = rest.push(aged);
            lemma_life_prefix(all, rest, rest.len() as int);
        }
    }
}

proof fn lemma_life_prefix(longer: Seq<LightningBolt>, shorter: Seq<LightningBolt>, n: int)
    requires
        0 <= n <= shorter.len() <= longer.len(),
        forall|i: int| 0 <= i < n ==> longer[i] == shorter[i],
    ensures
        longest_life(longer, n) == longest_life(shorter, n),
    decreases n,
{
    if n > 0 {
        lemma_life_prefix(longer, shorter, n - 1);
    }
}

proof fn lemma_step(trace: spec_fn(nat) -> ThunderstormSystem, i: nat)
    requires
        storm_run(trace),
    ensures
        follows(trace(i), trace((i + 1) as nat)),
{
}

proof fn lemma_idle_wait(trace: spec_fn(nat) -> ThunderstormSystem, j: nat)
    requires
        storm_run(trace),
        trace(0).state == LightningState::Idle,
        j <= wait_left(trace(0)),
    ensures
        trace(j).state == LightningState::Idle,
        trace(j).timer == trace(0).timer + j,
        trace(j).next_strike_in == trace(0).next_strike_in,
    decreases j,
{
    if j > 0 {
        lemma_idle_wait(trace, (j - 1) as nat);
        lemma_step(trace, (j - 1) as nat);
    }
}

proof fn lemma_fading_ends(trace: spec_fn(nat) -> ThunderstormSystem, i: nat)
    requires
        storm_run(trace),
        trace(i).state == LightningState::Fading,
    ensures
        exists|m: nat|
            i < m <= i + longest_life(trace(i).bolts@, trace(i).bolts@.len() as int) + 1
                && #[trigger] trace(m).state == LightningState::Idle,
    decreases longest_life(trace(i).bolts@, trace(i).bolts@.len() as int),
{
    let now = trace(i);
    let next = trace((i + 1) as nat);
    lemma_step(trace, i);
    lemma_fading_shortens(now.bolts@, now.bolts@.len() as int);
    if next.bolts@.len() == 0 {
    } else {
        lemma_fading_ends(trace, (i + 1) as nat);
        let m = choose|m: nat|
            i + 1 < m <= i + 1 + longest_life(next.bolts@, next.bolts@.len() as int) + 1
                && #[trigger] trace(m).state == LightningState::Idle;
    }
}

/// From rest the lightning always strikes and always comes to rest again.
///
/// Whatever the random numbers are, a cycle that is idle flashes once
/// its wait is over, three ticks later, and is idle again no more than
/// 259 ticks after the flash began.
pub proof fn lemma_lightning_cycle(trace: spec_fn(nat) -> ThunderstormSystem)
    requires
        storm_run(trace),
        trace(0).state == LightningState::Idle,
    ensures
        wait_left(trace(0)) + 3 <= 65538,
        trace(wait_left(trace(0)) + 3).state == LightningState::Flash,
        trace(wait_left(trace(0)) + 3).flash_active,
        exists|m: nat|
            wait_left(trace(0)) + 3 < m <= wait_left(trace(0)) + 3 + 259 && #[trigger] trace(
                m,
            ).state == LightningState::Idle,
{
    let k = wait_left(trace(0));
    lemma_idle_wait(trace, k);
    lemma_step(trace, k);
    lemma_step(trace, k + 1);
    lemma_step(trace, k + 2);
    let n = k + 3;
    lemma_step(trace, n);
    lemma_step(trace, n + 1);
    lemma_step(trace, n + 2);
    lemma_step(trace, n + 3);
    lemma_fading_ends(trace, n + 4);
    lemma_life_bounds(trace(n + 4).bolts@, trace(n + 4).bolts@.len() as int);
    let m = choose|m: nat|
        n + 4 < m <= n + 4 + longest_life(trace(n + 4).bolts@, trace(n + 4).bolts@.len() as int) + 1
            && #[trigger] trace(m).state == LightningState::Idle;
}

/// A tick never leaves more than `MAX_BOLTS` bolts where there were no
/// more before it: a new bolt drives out the oldest, and fading adds
/// none.
pub proof fn lemma_bolts_bounded(
    now: ThunderstormSystem,
    next: ThunderstormSystem,
    w: u16,
    h: u16,
    delay: u16,
)
    requires
        now.ticked(&next, w, h, delay),
        now.bolts@.len() <= MAX_BOLTS,
    ensures
        next.bolts@.len() <= MAX_BOLTS,
{
    if now.state == LightningState::Fading {
        lemma_faded_conserved(now.bolts@, now.bolts@.len() as int);
    }
}

} // verus!
