//! Smoke that rises from the chimney and thins as it ages.

use vstd::prelude::*;
use crate::animation::engine::{advance, next_generation, paint, painted, Dot, Particle, Stage};
use crate::fixed::{cell, cell_of, minus, plus, sat_add, sat_sub, scale, scaled, UNIT};
use crate::random::{draw_unit, RandomSource};
use crate::render::capabilities::ColorSupport;
use crate::render::color::Color;
use crate::render::grid::{Cell, TerminalRenderer};
use crate::render::stamp::Glyph;

verus! {

/// The most puffs of smoke at a time.
pub const MAX_PARTICLES: usize = 200;

/// One puff. Positions and the drift are thousandths of a cell.
#[derive(Clone, Copy, Debug)]
pub struct SmokeParticle {
    pub x: i64,
    pub y: i64,
    pub age: u32,
    pub max_age: u32,
    pub drift: i64,
}

/// The random numbers that make one puff.
#[derive(Clone, Copy, Debug)]
pub struct SmokeSeed {
    /// A fraction that sets the drift.
    pub drift: u32,
    /// Any word; decides how long the puff lasts.
    pub span: u32,
    /// A fraction that shifts the puff sideways at the start.
    pub offset: u32,
}

impl SmokeSeed {
    /// Whether the fractions are fractions.
    pub open spec fn fits(self) -> bool {
        self.drift < UNIT && self.offset < UNIT
    }
}

/// The puff that a seed makes at the chimney's tip: up to a cell left
/// or right of it, drifting up to 75 thousandths of a cell a tick
/// either way, lasting 30 to 44 ticks.
pub open spec fn new_puff(seed: SmokeSeed, chimney_x: u16, chimney_y: u16) -> SmokeParticle {
    SmokeParticle {
        x: (chimney_x * 1000 + scaled(seed.offset, 2000) - 1000) as i64,
        y: (chimney_y * 1000) as i64,
        age: 0,
        max_age: (30 + seed.span % 15) as u32,
        drift: (scaled(seed.drift, 150) - 75) as i64,
    }
}

impl SmokeParticle {
    /// The colour of the puff: white for the first three tenths of its
    /// life, grey up to six tenths, dark grey after that.
    pub open spec fn shade(self) -> Color {
        if self.age * 10 < self.max_age * 3 {
            Color::White
        } else if self.age * 10 < self.max_age * 6 {
            Color::Grey
        } else {
            Color::DarkGrey
        }
    }

    /// The character of the puff: a ring for the first fifth of its
    /// life, a dot up to two fifths, a wisp up to seven tenths, and a
    /// speck after that.
    pub open spec fn shown_char(self) -> char {
        if self.age * 5 < self.max_age {
            'o'
        } else if self.age * 5 < self.max_age * 2 {
            '.'
        } else if self.age * 10 < self.max_age * 7 {
            '~'
        } else {
            '\u{b7}'
        }
    }

    /// The character of the puff at its age.
    pub fn get_character(&self) -> (ch: char)
        ensures
            ch == self.shown_char(),
    {
        let age: u64 = self.age as u64;
        let span: u64 = self.max_age as u64;
        if age * 5 < span {
            'o'
        } else if age * 5 < span * 2 {
            '.'
        } else if age * 10 < span * 7 {
            '~'
        } else {
            '\u{b7}'
        }
    }

    /// The colour of the puff at its age.
    pub fn get_color(&self) -> (color: Color)
        ensures
            color == self.shade(),
    {
        let age: u64 = self.age as u64 * 10;
        let span: u64 = self.max_age as u64;
        if age < span * 3 {
            Color::White
        } else if age < span * 6 {
            Color::Grey
        } else {
            Color::DarkGrey
        }
    }
}

impl Particle<Stage> for SmokeParticle {
    open spec fn stepped(self, stage: Stage) -> SmokeParticle {
        SmokeParticle {
            age: if self.age < u32::MAX {
                (self.age + 1) as u32
            } else {
                self.age
            },
            y: minus(self.y, 200),
            x: plus(self.x, self.drift),
            ..self
        }
    }

    open spec fn alive(self, stage: Stage) -> bool {
        self.age < self.max_age && self.y >= 0
    }

    fn step(&mut self, stage: &Stage) {
        if self.age < u32::MAX {
            self.age = self.age + 1;
        }
        self.y = sat_sub(self.y, 200);
        self.x = sat_add(self.x, self.drift);
    }

    fn is_alive(&self, stage: &Stage) -> (alive: bool) {
        self.age < self.max_age && self.y >= 0
    }
}

impl Dot<Stage> for SmokeParticle {
    open spec fn glyph(self, stage: Stage) -> Option<Glyph> {
        if self.x >= 0 && self.y >= 0 {
            Some(
                Glyph {
                    x: cell(self.x),
                    y: cell(self.y),
                    character: self.shown_char(),
                    color: self.shade(),
                },
            )
        } else {
            None
        }
    }

    fn project(&self, stage: &Stage) -> (glyph: Option<Glyph>) {
        if self.x >= 0 && self.y >= 0 {
            let character = self.get_character();
            let color = self.get_color();
            Some(Glyph { x: cell_of(self.x), y: cell_of(self.y), character, color })
        } else {
            None
        }
    }
}

/// The smoke.
pub struct ChimneySmoke {
    pub particles: Vec<SmokeParticle>,
    /// Ticks since the last puff.
    pub spawn_counter: u32,
    /// Ticks between two puffs.
    pub spawn_rate: u32,
}

/// Makes the puff of a seed.
pub fn make_puff(seed: SmokeSeed, chimney_x: u16, chimney_y: u16) -> (puff: SmokeParticle)
    ensures
        puff == new_puff(seed, chimney_x, chimney_y),
{
    SmokeParticle {
        x: (chimney_x as i64) * 1000 + scale(seed.offset, 2000) - 1000,
        y: (chimney_y as i64) * 1000,
        age: 0,
        max_age: 30 + seed.span % 15,
        drift: scale(seed.drift, 150) - 75,
    }
}

impl ChimneySmoke {
    /// Whether a tick adds a puff to `live` puffs: every `spawn_rate`
    /// ticks, while there are fewer than `MAX_PARTICLES`.
    pub open spec fn puffs(&self, live: int) -> bool {
        self.spawn_counter + 1 >= self.spawn_rate && live < MAX_PARTICLES
    }

    /// What a tick with the given seed makes of the smoke: every puff
    /// rises and ages, those that are too old or above the terminal go,
    /// and a new one may leave the chimney.
    pub open spec fn ticked(
        &self,
        next: &ChimneySmoke,
        chimney_x: u16,
        chimney_y: u16,
        seed: SmokeSeed,
    ) -> bool {
        let left = next_generation(self.particles@, Stage { width: 0, height: 0 });
        &&& next.spawn_rate == self.spawn_rate
        &&& next.spawn_counter == if self.puffs(left.len() as int) {
            0
        } else if self.spawn_counter < u32::MAX {
            self.spawn_counter + 1
        } else {
            self.spawn_counter as int
        }
        &&& next.particles@ == if self.puffs(left.len() as int) {
            left.push(new_puff(seed, chimney_x, chimney_y))
        } else {
            left
        }
    }

    /// No smoke yet; a puff every eighth tick.
    pub fn new() -> (smoke: ChimneySmoke)
        ensures
            smoke.particles@.len() == 0,
            smoke.spawn_counter == 0,
            smoke.spawn_rate == 8,
    {
        ChimneySmoke { particles: Vec::new(), spawn_counter: 0, spawn_rate: 8 }
    }

    /// One tick with the random numbers given.
    pub fn tick(&mut self, chimney_x: u16, chimney_y: u16, seed: SmokeSeed)
        ensures
            old(self).ticked(final(self), chimney_x, chimney_y, seed),
    {
        let stage = Stage { width: 0, height: 0 };
        advance(&mut self.particles, &stage);
        let due = self.spawn_counter == u32::MAX || self.spawn_counter + 1 >= self.spawn_rate;
        if due && self.particles.len() < MAX_PARTICLES {
            self.spawn_counter = 0;
            self.particles.push(make_puff(seed, chimney_x, chimney_y));
        } else if self.spawn_counter < u32::MAX {
            self.spawn_counter = self.spawn_counter + 1;
        }
    }

    /// What one tick on some random numbers may make of the system.
    pub open spec fn updated(&self, next: &Self, chimney_x: u16, chimney_y: u16) -> bool {
        exists|seed: SmokeSeed| #[trigger] self.ticked(next, chimney_x, chimney_y, seed) && seed.fits()
    }

    /// One tick on random numbers from `rng`; see [`ChimneySmoke::tick`].
    pub fn update<R: RandomSource>(&mut self, chimney_x: u16, chimney_y: u16, rng: &mut R)
        ensures
            old(self).updated(final(self), chimney_x, chimney_y),
    {
        let drift = draw_unit(rng);
        let span = rng.next_u32();
        let offset = draw_unit(rng);
        self.tick(chimney_x, chimney_y, SmokeSeed { drift, span, offset });
    }

    /// The grid after the system is painted on it.
    pub open spec fn rendered(
        &self,
        cells: Seq<Cell>,
        w: int,
        h: int,
        support: ColorSupport,
    ) -> Seq<Cell> {
        painted(
            cells,
            w,
            h,
            support,
            self.particles@,
            Stage { width: 0, height: 0 },
            self.particles@.len() as int,
        )
    }

    /// Paints the smoke.
    pub fn render(&self, renderer: &mut TerminalRenderer)
        ensures
            final(renderer).same_frame(old(renderer)),
            final(renderer).cells() == self.rendered(
                old(renderer).cells(),
                old(renderer).width() as int,
                old(renderer).height() as int,
                old(renderer).support(),
            ),
    {
        let stage = Stage { width: 0, height: 0 };
        paint(renderer, &self.particles, &stage);
    }
}

impl Default for ChimneySmoke {
    fn default() -> (smoke: ChimneySmoke)
        ensures
            smoke.particles@.len() == 0,
            smoke.spawn_counter == 0,
            smoke.spawn_rate == 8,
    {
        ChimneySmoke::new()
    }
}

} // verus!
