//! Birds that cross the sky and flap their wings.

use vstd::prelude::*;
use crate::animation::engine::{
    advance, lemma_survivors_conserved, next_generation, paint, painted, Dot, Particle, Stage,
};
use crate::fixed::{
    cell, cell_of, chance, clamp_u16, hits, plus, sat_add, scale, scaled, to_u16, UNIT,
};
use crate::random::{draw_u16, draw_unit, RandomSource};
use crate::render::capabilities::ColorSupport;
use crate::render::color::Color;
use crate::render::grid::{Cell, TerminalRenderer};
use crate::render::stamp::Glyph;

verus! {

/// One bird. Positions and the speed are thousandths of a cell.
#[derive(Clone, Copy, Debug)]
pub struct Bird {
    pub x: i64,
    pub y: i64,
    pub speed: i64,
    pub character: char,
    /// Whether the wings are up.
    pub flap_state: bool,
    pub flap_timer: u8,
}

/// The random numbers that make one bird.
#[derive(Clone, Copy, Debug)]
pub struct BirdSeed {
    /// Decides the row.
    pub row: u16,
    /// A fraction that is added to the speed.
    pub speed: u32,
}

/// The bird that a seed makes: at the left edge, in the upper third,
/// wings up.
pub open spec fn new_bird(seed: BirdSeed, h: u16) -> Bird {
    let rows: int = if h / 3 > 1 { h as int / 3 } else { 1 };
    Bird {
        x: 0,
        y: ((seed.row as int % rows) * 1000) as i64,
        speed: (200 + scaled(seed.speed, 200)) as i64,
        character: 'v',
        flap_state: true,
        flap_timer: 0,
    }
}

impl Particle<Stage> for Bird {
    /// The wings change every sixth tick.
    open spec fn stepped(self, stage: Stage) -> Bird {
        let flips = self.flap_timer >= 5;
        let flap_state = if flips { !self.flap_state } else { self.flap_state };
        Bird {
            x: plus(self.x, self.speed),
            flap_timer: if flips { 0 } else { (self.flap_timer + 1) as u8 },
            flap_state,
            character: if flap_state { 'v' } else { '-' },
            ..self
        }
    }

    open spec fn alive(self, stage: Stage) -> bool {
        self.x < stage.width * 1000
    }

    fn step(&mut self, stage: &Stage) {
        self.x = sat_add(self.x, self.speed);
        if self.flap_timer >= 5 {
            self.flap_state = !self.flap_state;
            self.flap_timer = 0;
        } else {
            self.flap_timer = self.flap_timer + 1;
        }
        self.character = if self.flap_state {
            'v'
        } else {
            '-'
        };
    }

    fn is_alive(&self, stage: &Stage) -> (alive: bool) {
        self.x < (stage.width as i64) * 1000
    }
}

impl Dot<Stage> for Bird {
    open spec fn glyph(self, stage: Stage) -> Option<Glyph> {
        let x = clamp_u16(cell(self.x) as int);
        let y = clamp_u16(cell(self.y) as int);
        if x < stage.width && y < stage.height {
            Some(
                Glyph { x: x as i64, y: y as i64, character: self.character, color: Color::Yellow },
            )
        } else {
            None
        }
    }

    fn project(&self, stage: &Stage) -> (glyph: Option<Glyph>) {
        let x = to_u16(cell_of(self.x));
        let y = to_u16(cell_of(self.y));
        if x < stage.width && y < stage.height {
            Some(
                Glyph { x: x as i64, y: y as i64, character: self.character, color: Color::Yellow },
            )
        } else {
            None
        }
    }
}

/// The birds.
pub struct BirdSystem {
    pub birds: Vec<Bird>,
    pub terminal_width: u16,
    pub terminal_height: u16,
}

/// Makes the bird of a seed.
pub fn make_bird(seed: BirdSeed, h: u16) -> (bird: Bird)
    ensures
        bird == new_bird(seed, h),
{
    let rows: u16 = if h / 3 > 1 {
        h / 3
    } else {
        1
    };
    Bird {
        x: 0,
        y: ((seed.row % rows) as i64) * 1000,
        speed: 200 + scale(seed.speed, 200),
        character: 'v',
        flap_state: true,
        flap_timer: 0,
    }
}

impl BirdSystem {
    /// What a tick with the given random numbers makes of the birds:
    /// every bird flies on, those past the right edge go, and with
    /// fewer than three a new one joins one time in a hundred.
    pub open spec fn ticked(
        &self,
        next: &BirdSystem,
        w: u16,
        h: u16,
        gate: u32,
        seed: BirdSeed,
    ) -> bool {
        let left = next_generation(self.birds@, Stage { width: w, height: h });
        &&& next.terminal_width == w
        &&& next.terminal_height == h
        &&& next.birds@ == if left.len() < 3 && hits(gate, 10) {
            left.push(new_bird(seed, h))
        } else {
            left
        }
    }

    /// A sky without birds.
    pub fn new(terminal_width: u16, terminal_height: u16) -> (system: BirdSystem)
        ensures
            system.birds@.len() == 0,
            system.terminal_width == terminal_width,
            system.terminal_height == terminal_height,
    {
        BirdSystem { birds: Vec::new(), terminal_width, terminal_height }
    }

    /// One tick with the random numbers given.
    pub fn tick(&mut self, terminal_width: u16, terminal_height: u16, gate: u32, seed: BirdSeed)
        ensures
            old(self).ticked(final(self), terminal_width, terminal_height, gate, seed),
    {
        self.terminal_width = terminal_width;
        self.terminal_height = terminal_height;
        let stage = Stage { width: terminal_width, height: terminal_height };
        advance(&mut self.birds, &stage);
        if self.birds.len() < 3 && chance(gate, 10) {
            self.birds.push(make_bird(seed, terminal_height));
        }
    }

    /// What one tick on some random numbers may make of the system.
    pub open spec fn updated(
        &self,
        next: &Self,
        terminal_width: u16,
        terminal_height: u16,
    ) -> bool {
        exists|gate: u32, seed: BirdSeed|
            {
                &&& #[trigger] self.ticked(next, terminal_width, terminal_height, gate, seed)
                &&& gate < UNIT
                &&& seed.speed < UNIT
            }
    }

    /// One tick on random numbers from `rng`; see [`BirdSystem::tick`].
    pub fn update<R: RandomSource>(
        &mut self,
        terminal_width: u16,
        terminal_height: u16,
        rng: &mut R,
    )
        ensures
            old(self).updated(final(self), terminal_width, terminal_height),
    {
        let gate = draw_unit(rng);
        let row = draw_u16(rng);
        let speed = draw_unit(rng);
        self.tick(terminal_width, terminal_height, gate, BirdSeed { row, speed });
    }

    /// The grid after the system is painted on it.
    pub open spec fn rendered(
        &self,
        cells: Seq<Cell>,
        w: int,
        h: int,
        support: ColorSupport,
    ) -> Seq<Cell> {
        painted(
            cells,
            w,
            h,
            support,
            self.birds@,
            Stage { width: self.terminal_width, height: self.terminal_height },
            self.birds@.len() as int,
        )
    }

    /// Paints the birds.
    pub fn render(&self, renderer: &mut TerminalRenderer)
        ensures
            final(renderer).same_frame(old(renderer)),
            final(renderer).cells() == self.rendered(
                old(renderer).cells(),
                old(renderer).width() as int,
                old(renderer).height() as int,
                old(renderer).support(),
            ),
    {
        let stage = Stage { width: self.terminal_width, height: self.terminal_height };
        paint(renderer, &self.birds, &stage);
    }
}

/// A tick whose draw lets no bird come adds none, and every bird
/// that is left after it is alive.
pub proof fn lemma_birds_conserved(
    now: BirdSystem,
    next: BirdSystem,
    w: u16,
    h: u16,
    gate: u32,
    seed: BirdSeed,
)
    requires
        now.ticked(&next, w, h, gate, seed),
        !hits(gate, 10),
    ensures
        next.birds@.len() <= now.birds@.len(),
        forall|i: int|
            0 <= i < next.birds@.len() ==> (#[trigger] next.birds@[i]).alive(
                Stage { width: w, height: h },
            ),
{
    let stage = Stage { width: w, height: h };
    lemma_survivors_conserved(now.birds@, stage, now.birds@.len() as int);
}

} // verus!
