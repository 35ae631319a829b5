//! Falling leaves: they sink, sway from side to side and turn as they go.

use vstd::prelude::*;
use crate::animation::engine::{
    advance, lemma_survivors_conserved, next_generation, paint, painted, Dot, Particle, Stage,
};
use crate::fixed::{
    advance_angle, cell, cell_of, chance, hits, mul_milli, plus, sat_add, scale, scaled, sin,
    sin_milli, times, turned_on, TAU_MILLI, UNIT,
};
use crate::random::{draw_unit, RandomSource};
use crate::render::capabilities::ColorSupport;
use crate::render::color::Color;
use crate::render::grid::{Cell, TerminalRenderer};
use crate::render::stamp::Glyph;

verus! {

/// One leaf. Positions and speeds are thousandths of a cell, the sway's
/// phase and speed thousandths of a radian.
#[derive(Clone, Copy, Debug)]
pub struct Leaf {
    pub x: i64,
    pub y: i64,
    pub fall_speed: i64,
    pub sway_speed: i64,
    pub sway_phase: i64,
    pub sway_amplitude: i64,
    pub rotation: u8,
    pub color: Color,
    pub character: char,
}

/// The random numbers that make one leaf.
#[derive(Clone, Copy, Debug)]
pub struct LeafSeed {
    /// A fraction of the width: the column.
    pub column: u32,
    /// A fraction that decides the height.
    pub row: u32,
    /// Fractions that are added to the speeds and the amplitude.
    pub fall: u32,
    pub sway: u32,
    /// A fraction of a full turn: where in its sway the leaf starts.
    pub phase: u32,
    pub amplitude: u32,
    /// Any word; decides the colour.
    pub tint: u32,
    /// Any word; decides the character.
    pub glyph: u32,
}

impl LeafSeed {
    /// Whether the fractions are fractions.
    pub open spec fn fits(self) -> bool {
        &&& self.column < UNIT
        &&& self.row < UNIT
        &&& self.fall < UNIT
        &&& self.sway < UNIT
        &&& self.phase < UNIT
        &&& self.amplitude < UNIT
    }
}

/// One of six colours of autumn.
pub open spec fn leaf_color(pick: u32) -> Color {
    if pick % 6 == 0 {
        Color::Rgb { r: 255, g: 165, b: 0 }
    } else if pick % 6 == 1 {
        Color::Rgb { r: 218, g: 165, b: 32 }
    } else if pick % 6 == 2 {
        Color::Rgb { r: 184, g: 134, b: 11 }
    } else if pick % 6 == 3 {
        Color::Rgb { r: 205, g: 92, b: 92 }
    } else if pick % 6 == 4 {
        Color::Rgb { r: 160, g: 82, b: 45 }
    } else {
        Color::Rgb { r: 139, g: 69, b: 19 }
    }
}

/// The character of a leaf, picked by `pick`.
pub open spec fn leaf_char(pick: u32) -> char {
    if pick % 5 == 0 {
        '*'
    } else if pick % 5 == 1 {
        '+'
    } else if pick % 5 == 2 {
        ','
    } else if pick % 5 == 3 {
        '.'
    } else {
        '~'
    }
}

/// The leaf that a seed makes: up to five cells above the top where
/// `at_top` holds, otherwise anywhere down to as many rows as the
/// terminal has columns.
pub open spec fn new_leaf(seed: LeafSeed, w: u16, at_top: bool) -> Leaf {
    Leaf {
        x: scaled(seed.column, (w * 1000) as u32),
        y: if at_top {
            (-scaled(seed.row, 5000)) as i64
        } else {
            scaled(seed.row, (w * 1000) as u32)
        },
        fall_speed: (150 + scaled(seed.fall, 200)) as i64,
        sway_speed: (50 + scaled(seed.sway, 100)) as i64,
        sway_phase: scaled(seed.phase, TAU_MILLI as u32),
        sway_amplitude: (500 + scaled(seed.amplitude, 1500)) as i64,
        rotation: 0,
        color: leaf_color(seed.tint),
        character: leaf_char(seed.glyph),
    }
}

/// Whether some seed makes this leaf away from the top.
pub open spec fn scattered(leaf: Leaf, w: u16) -> bool {
    exists|seed: LeafSeed| seed.fits() && #[trigger] new_leaf(seed, w, false) == leaf
}

/// How far a leaf has turned at a phase of its sway: four times the
/// sine of twice the phase, cut to a whole number, and nothing where
/// that is negative.
pub open spec fn turned(phase: i64) -> u8 {
    let t = times(sin(plus(phase, phase)), 4000);
    if t <= 0 {
        0u8
    } else {
        (t / 1000) as u8
    }
}

impl Leaf {
    /// The phase of the sway one tick on, kept within a full turn.
    pub open spec fn next_phase(self) -> i64 {
        turned_on(self.sway_phase, self.sway_speed)
    }

    /// The character that the leaf shows as it turns: a star that has
    /// turned by one shows as a cross, and a cross that has turned by
    /// two as a star.
    pub open spec fn shown_char(self) -> char {
        if self.rotation % 4 == 1 && self.character == '*' {
            '+'
        } else if self.rotation % 4 == 2 && self.character == '+' {
            '*'
        } else {
            self.character
        }
    }

    /// The character of the leaf as it is turned.
    pub fn get_character(&self) -> (ch: char)
        ensures
            ch == self.shown_char(),
    {
        let turn: u8 = self.rotation % 4;
        if turn == 1 && self.character == '*' {
            '+'
        } else if turn == 2 && self.character == '+' {
            '*'
        } else {
            self.character
        }
    }
}

impl Particle<Stage> for Leaf {
    open spec fn stepped(self, stage: Stage) -> Leaf {
        let phase = self.next_phase();
        Leaf {
            x: plus(self.x, times(times(sin(phase), self.sway_amplitude), 100)),
            y: plus(self.y, self.fall_speed),
            sway_phase: phase,
            rotation: turned(phase),
            ..self
        }
    }

    open spec fn alive(self, stage: Stage) -> bool {
        self.y <= stage.height * 1000
    }

    fn step(&mut self, stage: &Stage) {
        self.y = sat_add(self.y, self.fall_speed);
        let phase = advance_angle(self.sway_phase, self.sway_speed);
        self.sway_phase = phase;
        let sway_offset = mul_milli(sin_milli(phase), self.sway_amplitude);
        self.x = sat_add(self.x, mul_milli(sway_offset, 100));
        let t = mul_milli(sin_milli(sat_add(phase, phase)), 4000);
        self.rotation = if t <= 0 {
            0
        } else {
            (t / 1000) as u8
        };
    }

    fn is_alive(&self, stage: &Stage) -> (alive: bool) {
        self.y <= (stage.height as i64) * 1000
    }
}

impl Dot<Stage> for Leaf {
    open spec fn glyph(self, stage: Stage) -> Option<Glyph> {
        if 0 <= self.x && 0 <= self.y && cell(self.x) < stage.width && cell(self.y) < stage.height {
            Some(
                Glyph {
                    x: cell(self.x),
                    y: cell(self.y),
                    character: self.shown_char(),
                    color: self.color,
                },
            )
        } else {
            None
        }
    }

    fn project(&self, stage: &Stage) -> (glyph: Option<Glyph>) {
        let x = cell_of(self.x);
        let y = cell_of(self.y);
        if 0 <= self.x && 0 <= self.y && x < stage.width as i64 && y < stage.height as i64 {
            Some(Glyph { x, y, character: self.get_character(), color: self.color })
        } else {
            None
        }
    }
}

/// The falling leaves.
pub struct FallingLeaves {
    pub leaves: Vec<Leaf>,
    /// Ticks since a leaf could last join.
    pub spawn_counter: u32,
    /// Ticks between two chances for a leaf to join.
    pub spawn_rate: u32,
    pub terminal_width: u16,
    pub terminal_height: u16,
}

/// The most leaves on a terminal `w` wide: an eighth of the width, and
/// ten at least.
pub open spec fn leaf_limit(w: u16) -> int {
    if w as int / 8 > 10 {
        w as int / 8
    } else {
        10
    }
}

/// The leaves that there are at the start on a terminal `w` wide: a
/// tenth of the width, and five at least.
pub open spec fn leaf_start(w: u16) -> int {
    if w as int / 10 > 5 {
        w as int / 10
    } else {
        5
    }
}

/// Makes the leaf of a seed.
pub fn make_leaf(seed: LeafSeed, w: u16, at_top: bool) -> (leaf: Leaf)
    ensures
        leaf == new_leaf(seed, w, at_top),
{
    let tint: u32 = seed.tint % 6;
    let color = if tint == 0 {
        Color::Rgb { r: 255, g: 165, b: 0 }
    } else if tint == 1 {
        Color::Rgb { r: 218, g: 165, b: 32 }
    } else if tint == 2 {
        Color::Rgb { r: 184, g: 134, b: 11 }
    } else if tint == 3 {
        Color::Rgb { r: 205, g: 92, b: 92 }
    } else if tint == 4 {
        Color::Rgb { r: 160, g: 82, b: 45 }
    } else {
        Color::Rgb { r: 139, g: 69, b: 19 }
    };
    let pick: u32 = seed.glyph % 5;
    let character = if pick == 0 {
        '*'
    } else if pick == 1 {
        '+'
    } else if pick == 2 {
        ','
    } else if pick == 3 {
        '.'
    } else {
        '~'
    };
    Leaf {
        x: scale(seed.column, w as u32 * 1000),
        y: if at_top {
            -scale(seed.row, 5000)
        } else {
            scale(seed.row, w as u32 * 1000)
        },
        fall_speed: 150 + scale(seed.fall, 200),
        sway_speed: 50 + scale(seed.sway, 100),
        sway_phase: scale(seed.phase, TAU_MILLI as u32),
        sway_amplitude: 500 + scale(seed.amplitude, 1500),
        rotation: 0,
        color,
        character,
    }
}

/// The seed for a leaf, made of the next eight words of the source: the
/// upper 24 bits of the first six as fractions, and the last two whole.
fn draw_leaf_seed<R: RandomSource>(rng: &mut R) -> (seed: LeafSeed)
    ensures
        seed.fits(),
        old(rng).foretold(0) matches Some(word) ==> seed.column == word / 256,
        old(rng).foretold(1) matches Some(word) ==> seed.row == word / 256,
        old(rng).foretold(2) matches Some(word) ==> seed.fall == word / 256,
        old(rng).foretold(3) matches Some(word) ==> seed.sway == word / 256,
        old(rng).foretold(4) matches Some(word) ==> seed.phase == word / 256,
        old(rng).foretold(5) matches Some(word) ==> seed.amplitude == word / 256,
        old(rng).foretold(6) matches Some(word) ==> seed.tint == word,
        old(rng).foretold(7) matches Some(word) ==> seed.glyph == word,
        forall|k: nat| #[trigger] final(rng).foretold(k) == old(rng).foretold(k + 8),
{
    let column = draw_unit(rng);
    let row = draw_unit(rng);
    let fall = draw_unit(rng);
    let sway = draw_unit(rng);
    let phase = draw_unit(rng);
    let amplitude = draw_unit(rng);
    let tint = rng.next_u32();
    let glyph = rng.next_u32();
    LeafSeed { column, row, fall, sway, phase, amplitude, tint, glyph }
}

impl FallingLeaves {
    /// Whether a tick lets a leaf join: every `spawn_rate` ticks, seven
    /// times in ten.
    pub open spec fn joins(&self, gate: u32) -> bool {
        self.spawn_counter + 1 >= self.spawn_rate && hits(gate, 700)
    }

    /// What a tick with the given random numbers makes of the leaves:
    /// every leaf moves, those below the terminal go, a new one may
    /// join at the top, and no more than the limit are kept.
    pub open spec fn ticked(
        &self,
        next: &FallingLeaves,
        w: u16,
        h: u16,
        gate: u32,
        seed: LeafSeed,
    ) -> bool {
        let left = next_generation(self.leaves@, Stage { width: w, height: h });
        let joined = if self.joins(gate) {
            left.push(new_leaf(seed, w, true))
        } else {
            left
        };
        &&& next.terminal_width == w
        &&& next.terminal_height == h
        &&& next.spawn_rate == self.spawn_rate
        &&& next.spawn_counter == if self.spawn_counter + 1 >= self.spawn_rate {
            0
        } else {
            self.spawn_counter + 1
        }
        &&& next.leaves@ == if joined.len() > leaf_limit(w) {
            joined.take(leaf_limit(w))
        } else {
            joined
        }
    }

    /// Leaves scattered over the terminal, as many as [`leaf_start`] says.
    pub fn new<R: RandomSource>(terminal_width: u16, terminal_height: u16, rng: &mut R) -> (system:
        FallingLeaves)
        ensures
            system.leaves@.len() == leaf_start(terminal_width),
            forall|i: int|
                0 <= i < system.leaves@.len() ==> #[trigger] scattered(
                    system.leaves@[i],
                    terminal_width,
                ),
            system.spawn_counter == 0,
            system.spawn_rate == 15,
            system.terminal_width == terminal_width,
            system.terminal_height == terminal_height,
    {
        let initial_count: u16 = if terminal_width / 10 > 5 {
            terminal_width / 10
        } else {
            5
        };
        let mut leaves: Vec<Leaf> = Vec::new();
        let mut i: u16 = 0;
        while i < initial_count
            invariant
                i <= initial_count,
                leaves@.len() == i,
                forall|k: int|
                    0 <= k < leaves@.len() ==> #[trigger] scattered(leaves@[k], terminal_width),
            decreases initial_count - i,
        {
            let seed = draw_leaf_seed(rng);
            let leaf = make_leaf(seed, terminal_width, false);
            leaves.push(leaf);
            i += 1;
        }
        FallingLeaves { leaves, spawn_counter: 0, spawn_rate: 15, terminal_width, terminal_height }
    }

    /// One tick with the random numbers given: `gate` decides whether a
    /// leaf joins when one may, and `seed` makes it.
    pub fn tick(&mut self, terminal_width: u16, terminal_height: u16, gate: u32, seed: LeafSeed)
        ensures
            old(self).ticked(final(self), terminal_width, terminal_height, gate, seed),
    {
        self.terminal_width = terminal_width;
        self.terminal_height = terminal_height;
        let stage = Stage { width: terminal_width, height: terminal_height };
        advance(&mut self.leaves, &stage);
        if self.spawn_counter >= self.spawn_rate || self.spawn_counter + 1 >= self.spawn_rate {
            self.spawn_counter = 0;
            if chance(gate, 700) {
                self.leaves.push(make_leaf(seed, terminal_width, true));
            }
        } else {
            self.spawn_counter = self.spawn_counter + 1;
        }
        let max_leaves: usize = if terminal_width / 8 > 10 {
            (terminal_width / 8) as usize
        } else {
            10
        };
        if self.leaves.len() > max_leaves {
            self.leaves.truncate(max_leaves);
        }
    }

    /// What one tick on some random numbers may make of the system.
    pub open spec fn updated(
        &self,
        next: &Self,
        terminal_width: u16,
        terminal_height: u16,
    ) -> bool {
        exists|gate: u32, seed: LeafSeed|
            {
                &&& #[trigger] self.ticked(next, terminal_width, terminal_height, gate, seed)
                &&& gate < UNIT
                &&& seed.fits()
            }
    }

    /// One tick on random numbers from `rng`; see [`FallingLeaves::tick`].
    pub fn update<R: RandomSource>(
        &mut self,
        terminal_width: u16,
        terminal_height: u16,
        rng: &mut R,
    )
        ensures
            old(self).updated(final(self), terminal_width, terminal_height),
    {
        let gate = draw_unit(rng);
        let seed = draw_leaf_seed(rng);
        self.tick(terminal_width, terminal_height, gate, seed);
    }

    /// The grid after the system is painted on it.
    pub open spec fn rendered(
        &self,
        cells: Seq<Cell>,
        w: int,
        h: int,
        support: ColorSupport,
    ) -> Seq<Cell> {
        painted(
            cells,
            w,
            h,
            support,
            self.leaves@,
            Stage { width: self.terminal_width, height: self.terminal_height },
            self.leaves@.len() as int,
        )
    }

    /// Paints the leaves.
    pub fn render(&self, renderer: &mut TerminalRenderer)
        ensures
            final(renderer).same_frame(old(renderer)),
            final(renderer).cells() == self.rendered(
                old(renderer).cells(),
                old(renderer).width() as int,
                old(renderer).height() as int,
                old(renderer).support(),
            ),
    {
        let stage = Stage { width: self.terminal_width, height: self.terminal_height };
        paint(renderer, &self.leaves, &stage);
    }
}

/// A tick whose draw lets no leaf join adds none, and every leaf that
/// is left after it is alive.
pub proof fn lemma_leaves_conserved(
    now: FallingLeaves,
    next: FallingLeaves,
    w: u16,
    h: u16,
    gate: u32,
    seed: LeafSeed,
)
    requires
        now.ticked(&next, w, h, gate, seed),
        !hits(gate, 700),
    ensures
        next.leaves@.len() <= now.leaves@.len(),
        forall|i: int|
            0 <= i < next.leaves@.len() ==> (#[trigger] next.leaves@[i]).alive(
                Stage { width: w, height: h },
            ),
{
    let stage = Stage { width: w, height: h };
    lemma_survivors_conserved(now.leaves@, stage, now.leaves@.len() as int);
}

} // verus!
