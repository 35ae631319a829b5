//! A flying saucer that wobbles across the sky.

use vstd::prelude::*;
use crate::animation::engine::{
    advance, lemma_survivors_conserved, next_generation, Particle, Stage,
};
use crate::fixed::{
    advance_angle, cell, cell_of, chance, hits, mul_milli, plus, sat_add, scale, scaled, sin,
    sin_milli, times, turned_on, UNIT,
};
use crate::random::{draw_u16, draw_unit, RandomSource};
use crate::render::capabilities::ColorSupport;
use crate::render::color::Color;
use crate::render::grid::{Cell, TerminalRenderer};
use crate::render::stamp::{stamped, str_rows, Shader};

verus! {

/// One saucer. Positions and the speed are thousandths of a cell, the
/// wobble's phase thousandths of a radian.
#[derive(Clone, Copy, Debug)]
pub struct Ufo {
    pub x: i64,
    pub y: i64,
    pub speed: i64,
    pub wobble_phase: i64,
}

/// The random numbers that make one saucer and set the pause after it.
#[derive(Clone, Copy, Debug)]
pub struct UfoSeed {
    /// Decides the row.
    pub row: u16,
    /// A fraction that is added to the speed.
    pub speed: u32,
    /// Decides the pause before the next saucer.
    pub pause: u16,
}

/// The picture of a saucer.
pub open spec fn ufo_art() -> Seq<&'static str> {
    seq!["    .---.    ", "  _/__~0_\\_  ", " (_________) ", "   *  *  *   "]
}

/// The colours of a saucer: the dome, the lights and the hull.
pub struct UfoShader;

impl Shader for UfoShader {
    open spec fn shade_spec(&self, row: int, ch: char) -> Option<Cell> {
        if ch == ' ' {
            None
        } else {
            Some(
                Cell {
                    character: ch,
                    color: if ch == '~' || ch == '0' {
                        Color::Green
                    } else if ch == '*' {
                        Color::Cyan
                    } else if ch == '-' || ch == '_' || ch == '\\' || ch == '/' || ch == '(' || ch
                        == ')' || ch == '.' {
                        Color::Grey
                    } else {
                        Color::White
                    },
                },
            )
        }
    }

    fn shade(&self, row: usize, ch: char) -> (out: Option<Cell>) {
        if ch == ' ' {
            None
        } else {
            let color = match ch {
                '~' | '0' => Color::Green,
                '*' => Color::Cyan,
                '-' | '_' | '\\' | '/' | '(' | ')' | '.' => Color::Grey,
                _ => Color::White,
            };
            Some(Cell { character: ch, color })
        }
    }
}

/// The saucer that a seed makes: fifteen cells left of the terminal, in
/// the upper third.
pub open spec fn new_ufo(seed: UfoSeed, h: u16) -> Ufo {
    let rows: int = if h / 3 > 1 { h as int / 3 } else { 1 };
    Ufo {
        x: -15_000i64,
        y: ((seed.row as int % rows) * 1000) as i64,
        speed: (500 + scaled(seed.speed, 500)) as i64,
        wobble_phase: 0,
    }
}

impl Ufo {
    /// The phase of the wobble one tick on, kept within a full turn.
    pub open spec fn next_phase(self) -> i64 {
        turned_on(self.wobble_phase, 100)
    }
}

impl Particle<Stage> for Ufo {
    open spec fn stepped(self, stage: Stage) -> Ufo {
        let phase = self.next_phase();
        Ufo {
            x: plus(self.x, self.speed),
            wobble_phase: phase,
            y: plus(self.y, times(sin(phase), 200)),
            ..self
        }
    }

    open spec fn alive(self, stage: Stage) -> bool {
        -20_000 < self.x < stage.width * 1000
    }

    fn step(&mut self, stage: &Stage) {
        self.x = sat_add(self.x, self.speed);
        let phase = advance_angle(self.wobble_phase, 100);
        self.wobble_phase = phase;
        self.y = sat_add(self.y, mul_milli(sin_milli(phase), 200));
    }

    fn is_alive(&self, stage: &Stage) -> (alive: bool) {
        -20_000 < self.x && self.x < (stage.width as i64) * 1000
    }
}

/// The saucers.
pub struct UfoSystem {
    pub ufos: Vec<Ufo>,
    pub terminal_width: u16,
    pub terminal_height: u16,
    /// Ticks before another saucer may come.
    pub spawn_cooldown: u16,
}

/// The grid after the first `n` saucers are painted on it.
pub open spec fn ufos_painted(
    cells: Seq<Cell>,
    w: int,
    h: int,
    support: ColorSupport,
    ufos: Seq<Ufo>,
    n: int,
) -> Seq<Cell>
    decreases n,
{
    if n <= 0 {
        cells
    } else {
        stamped(
            ufos_painted(cells, w, h, support, ufos, n - 1),
            w,
            h,
            support,
            UfoShader,
            str_rows(ufo_art()),
            cell(ufos[n - 1].x) as int,
            cell(ufos[n - 1].y) as int,
            4,
        )
    }
}

impl UfoSystem {
    /// Whether a tick lets a saucer come: once the pause is over, five
    /// times in a thousand.
    pub open spec fn comes(&self, gate: u32) -> bool {
        self.spawn_cooldown <= 1 && hits(gate, 5)
    }

    /// What a tick with the given random numbers makes of the saucers:
    /// every one flies on and wobbles, those past the right edge go,
    /// the pause runs down, and when one comes the pause is set to 300
    /// to 599 ticks.
    pub open spec fn ticked(
        &self,
        next: &UfoSystem,
        w: u16,
        h: u16,
        gate: u32,
        seed: UfoSeed,
    ) -> bool {
        let left = next_generation(self.ufos@, Stage { width: w, height: h });
        &&& next.terminal_width == w
        &&& next.terminal_height == h
        &&& next.ufos@ == if self.comes(gate) {
            left.push(new_ufo(seed, h))
        } else {
            left
        }
        &&& next.spawn_cooldown == if self.comes(gate) {
            300 + seed.pause % 300
        } else if self.spawn_cooldown >= 1 {
            self.spawn_cooldown - 1
        } else {
            0
        }
    }

    /// A sky without saucers.
    pub fn new(terminal_width: u16, terminal_height: u16) -> (system: UfoSystem)
        ensures
            system.ufos@.len() == 0,
            system.terminal_width == terminal_width,
            system.terminal_height == terminal_height,
            system.spawn_cooldown == 0,
    {
        UfoSystem { ufos: Vec::new(), terminal_width, terminal_height, spawn_cooldown: 0 }
    }

    /// Adds the saucer of a seed.
    pub fn spawn_ufo(&mut self, seed: UfoSeed)
        ensures
            final(self).ufos@ == old(self).ufos@.push(new_ufo(seed, old(self).terminal_height)),
            final(self).terminal_width == old(self).terminal_width,
            final(self).terminal_height == old(self).terminal_height,
            final(self).spawn_cooldown == old(self).spawn_cooldown,
    {
        let rows: u16 = if self.terminal_height / 3 > 1 {
            self.terminal_height / 3
        } else {
            1
        };
        self.ufos.push(
            Ufo {
                x: -15_000,
                y: ((seed.row % rows) as i64) * 1000,
                speed: 500 + scale(seed.speed, 500),
                wobble_phase: 0,
            },
        );
    }

    /// One tick with the random numbers given.
    pub fn tick(&mut self, terminal_width: u16, terminal_height: u16, gate: u32, seed: UfoSeed)
        ensures
            old(self).ticked(final(self), terminal_width, terminal_height, gate, seed),
    {
        self.terminal_width = terminal_width;
        self.terminal_height = terminal_height;
        let stage = Stage { width: terminal_width, height: terminal_height };
        advance(&mut self.ufos, &stage);
        if self.spawn_cooldown >= 1 {
            self.spawn_cooldown = self.spawn_cooldown - 1;
        }
        if self.spawn_cooldown == 0 && chance(gate, 5) {
            self.spawn_ufo(seed);
            self.spawn_cooldown = 300 + seed.pause % 300;
        }
    }

    /// What one tick on some random numbers may make of the system.
    pub open spec fn updated(
        &self,
        next: &Self,
        terminal_width: u16,
        terminal_height: u16,
    ) -> bool {
        exists|gate: u32, seed: UfoSeed|
            {
                &&& #[trigger] self.ticked(next, terminal_width, terminal_height, gate, seed)
                &&& gate < UNIT
                &&& seed.speed < UNIT
            }
    }

    /// One tick on random numbers from `rng`; see [`UfoSystem::tick`].
    pub fn update<R: RandomSource>(
        &mut self,
        terminal_width: u16,
        terminal_height: u16,
        rng: &mut R,
    )
        ensures
            old(self).updated(final(self), terminal_width, terminal_height),
    {
        let gate = draw_unit(rng);
        let row = draw_u16(rng);
        let speed = draw_unit(rng);
        let pause = draw_u16(rng);
        self.tick(terminal_width, terminal_height, gate, UfoSeed { row, speed, pause });
    }

    /// The grid after the system is painted on it.
    pub open spec fn rendered(
        &self,
        cells: Seq<Cell>,
        w: int,
        h: int,
        support: ColorSupport,
    ) -> Seq<Cell> {
        ufos_painted(
            cells,
            w,
            h,
            support,
            self.ufos@,
            self.ufos@.len() as int,
        )
    }

    /// Paints the saucers.
    pub fn render(&self, renderer: &mut TerminalRenderer)
        ensures
            final(renderer).same_frame(old(renderer)),
            final(renderer).cells() == self.rendered(
                old(renderer).cells(),
                old(renderer).width() as int,
                old(renderer).height() as int,
                old(renderer).support(),
            ),
    {
        let art = vec!["    .---.    ", "  _/__~0_\\_  ", " (_________) ", "   *  *  *   "];
        let shader = UfoShader;
        let mut i: usize = 0;
        while i < self.ufos.len()
            invariant
                i <= self.ufos.len(),
                art@ == ufo_art(),
                renderer.same_frame(old(renderer)),
                renderer.cells() == ufos_painted(
                    old(renderer).cells(),
                    old(renderer).width() as int,
                    old(renderer).height() as int,
                    old(renderer).support(),
                    self.ufos@,
                    i as int,
                ),
            decreases self.ufos.len() - i,
        {
            let ufo = self.ufos[i];
            renderer.stamp(&art, cell_of(ufo.x), cell_of(ufo.y), &shader);
            i += 1;
        }
    }
}

/// A tick whose draw lets no saucer come adds none, and every saucer
/// that is left after it is alive.
pub proof fn lemma_ufos_conserved(
    now: UfoSystem,
    next: UfoSystem,
    w: u16,
    h: u16,
    gate: u32,
    seed: UfoSeed,
)
    requires
        now.ticked(&next, w, h, gate, seed),
        !hits(gate, 5),
    ensures
        next.ufos@.len() <= now.ufos@.len(),
        forall|i: int|
            0 <= i < next.ufos@.len() ==> (#[trigger] next.ufos@[i]).alive(
                Stage { width: w, height: h },
            ),
{
    let stage = Stage { width: w, height: h };
    lemma_survivors_conserved(now.ufos@, stage, now.ufos@.len() as int);
}

} // verus!
