//! Fireflies that wander in a band above the horizon and glow on and off.

use vstd::prelude::*;
use crate::animation::engine::{paint, painted, Dot, Stage};
use crate::fixed::{
    advance_angle, cell, cell_of, chance, hits, less, plus, sat_add, scale, scaled, sin, sin_milli,
    turned_on, TAU_MILLI, UNIT,
};
use crate::random::{draw_unit, RandomSource};
use crate::render::capabilities::ColorSupport;
use crate::render::color::Color;
use crate::render::grid::{Cell, TerminalRenderer};
use crate::render::stamp::Glyph;

verus! {

/// One firefly. Positions and speeds are thousandths of a cell, the
/// glow's phase and speed thousandths of a radian.
#[derive(Clone, Copy, Debug)]
pub struct Firefly {
    pub x: i64,
    pub y: i64,
    pub vx: i64,
    pub vy: i64,
    pub glow_phase: i64,
    pub glow_speed: i64,
    pub brightness: u8,
}

/// The random numbers that make one firefly.
#[derive(Clone, Copy, Debug)]
pub struct FireflySeed {
    /// A fraction of the width: the column.
    pub column: u32,
    /// A fraction of the band's height: the row within the band.
    pub row: u32,
    /// Fractions that set the speed along each axis.
    pub vx: u32,
    pub vy: u32,
    /// A fraction that is added to the speed of the glow.
    pub glow_speed: u32,
    /// A fraction of a full turn: where in its glow the firefly starts.
    pub glow_phase: u32,
}

/// The random numbers for one tick of one firefly.
#[derive(Clone, Copy, Debug)]
pub struct FireflyTurn {
    /// A fraction that decides whether the firefly changes course.
    pub reroll: u32,
    /// Fractions that set the new speed along each axis if it does.
    pub vx: u32,
    pub vy: u32,
}

impl FireflySeed {
    /// Whether the fractions are fractions.
    pub open spec fn fits(self) -> bool {
        &&& self.column < UNIT
        &&& self.row < UNIT
        &&& self.vx < UNIT
        &&& self.vy < UNIT
        &&& self.glow_speed < UNIT
        &&& self.glow_phase < UNIT
    }
}

impl FireflyTurn {
    /// Whether the fractions are fractions.
    pub open spec fn fits(self) -> bool {
        self.reroll < UNIT && self.vx < UNIT && self.vy < UNIT
    }
}

/// The top of the band, eight rows above the horizon.
pub open spec fn band_top(horizon_y: u16) -> i64 {
    (less(horizon_y as int, 8) * 1000) as i64
}

/// The bottom of the band, one row above the horizon.
pub open spec fn band_bottom(horizon_y: u16) -> i64 {
    (less(horizon_y as int, 1) * 1000) as i64
}

/// How many fireflies there may be on a terminal `w` wide: a fifteenth
/// of the width, and three at least.
pub open spec fn firefly_target(w: u16) -> int {
    if w as int / 15 > 3 {
        w as int / 15
    } else {
        3
    }
}

/// The brightness at a phase of the glow, from 0 to 255.
pub open spec fn glow(phase: i64) -> u8 {
    (((sin(phase) + 1000) * 255) / 2000) as u8
}

/// The firefly that a seed makes: somewhere in the band, dark.
pub open spec fn new_firefly(seed: FireflySeed, w: u16, horizon_y: u16) -> Firefly {
    Firefly {
        x: scaled(seed.column, (w * 1000) as u32),
        y: (band_top(horizon_y) + scaled(
            seed.row,
            (band_bottom(horizon_y) - band_top(horizon_y)) as u32,
        )) as i64,
        vx: (scaled(seed.vx, 300) - 150) as i64,
        vy: (scaled(seed.vy, 200) - 100) as i64,
        glow_speed: (100 + scaled(seed.glow_speed, 150)) as i64,
        glow_phase: scaled(seed.glow_phase, TAU_MILLI as u32),
        brightness: 0,
    }
}

/// The size of a number.
pub open spec fn magnitude(v: i64) -> i64 {
    if v == i64::MIN {
        i64::MAX
    } else if v < 0 {
        (-v) as i64
    } else {
        v
    }
}

impl Firefly {
    /// The firefly one tick later: it moves, changes course two times in
    /// a hundred, comes back in on the other side where it leaves the
    /// terminal sideways, turns back at the edges of the band, and glows
    /// as its phase says.
    pub open spec fn flown(self, w: u16, horizon_y: u16, turn: FireflyTurn) -> Firefly {
        let x = plus(self.x, self.vx);
        let y = plus(self.y, self.vy);
        let rerolls = hits(turn.reroll, 20);
        let vx = if rerolls { (scaled(turn.vx, 300) - 150) as i64 } else { self.vx };
        let vy = if rerolls { (scaled(turn.vy, 200) - 100) as i64 } else { self.vy };
        let top = band_top(horizon_y);
        let bottom = band_bottom(horizon_y);
        let phase = turned_on(self.glow_phase, self.glow_speed);
        Firefly {
            x: if x < 0 {
                (w * 1000) as i64
            } else if x > w * 1000 {
                0
            } else {
                x
            },
            y: if y < top {
                top
            } else if y > bottom {
                bottom
            } else {
                y
            },
            vx,
            vy: if y < top {
                magnitude(vy)
            } else if y > bottom {
                (-magnitude(vy)) as i64
            } else {
                vy
            },
            glow_phase: phase,
            glow_speed: self.glow_speed,
            brightness: glow(phase),
        }
    }

    /// Whether the firefly glows brightly enough to be seen.
    pub open spec fn visible(self) -> bool {
        self.brightness > 64
    }

    /// The character of the firefly at its brightness.
    pub open spec fn shown_char(self) -> char {
        if self.brightness > 200 {
            '*'
        } else if self.brightness > 128 {
            '.'
        } else if self.brightness > 64 {
            '\u{b7}'
        } else {
            ' '
        }
    }

    /// The colour of the firefly at its brightness.
    pub open spec fn shade(self) -> Color {
        if self.brightness > 200 {
            Color::Yellow
        } else if self.brightness > 128 {
            Color::Rgb { r: 200, g: 255, b: 100 }
        } else if self.brightness > 64 {
            Color::Rgb { r: 150, g: 200, b: 80 }
        } else {
            Color::DarkGrey
        }
    }

    /// Makes the firefly of a seed.
    pub fn new(seed: FireflySeed, terminal_width: u16, horizon_y: u16) -> (firefly: Firefly)
        ensures
            firefly == new_firefly(seed, terminal_width, horizon_y),
    {
        let top: i64 = if horizon_y >= 8 {
            (horizon_y - 8) as i64 * 1000
        } else {
            0
        };
        let bottom: i64 = if horizon_y >= 1 {
            (horizon_y - 1) as i64 * 1000
        } else {
            0
        };
        Firefly {
            x: scale(seed.column, terminal_width as u32 * 1000),
            y: top + scale(seed.row, (bottom - top) as u32),
            vx: scale(seed.vx, 300) - 150,
            vy: scale(seed.vy, 200) - 100,
            glow_speed: 100 + scale(seed.glow_speed, 150),
            glow_phase: scale(seed.glow_phase, TAU_MILLI as u32),
            brightness: 0,
        }
    }

    /// Moves the firefly by one tick; see [`Firefly::flown`].
    pub fn update(&mut self, terminal_width: u16, horizon_y: u16, turn: FireflyTurn)
        ensures
            *final(self) == old(self).flown(terminal_width, horizon_y, turn),
    {
        self.x = sat_add(self.x, self.vx);
        self.y = sat_add(self.y, self.vy);
        if chance(turn.reroll, 20) {
            self.vx = scale(turn.vx, 300) - 150;
            self.vy = scale(turn.vy, 200) - 100;
        }
        let right: i64 = (terminal_width as i64) * 1000;
        if self.x < 0 {
            self.x = right;
        } else if self.x > right {
            self.x = 0;
        }
        let top: i64 = if horizon_y >= 8 {
            (horizon_y - 8) as i64 * 1000
        } else {
            0
        };
        let bottom: i64 = if horizon_y >= 1 {
            (horizon_y - 1) as i64 * 1000
        } else {
            0
        };
        let size: i64 = if self.vy == i64::MIN {
            i64::MAX
        } else if self.vy < 0 {
            -self.vy
        } else {
            self.vy
        };
        if self.y < top {
            self.y = top;
            self.vy = size;
        } else if self.y > bottom {
            self.y = bottom;
            self.vy = -size;
        }
        let phase = advance_angle(self.glow_phase, self.glow_speed);
        self.glow_phase = phase;
        self.brightness = (((sin_milli(phase) + 1000) * 255) / 2000) as u8;
    }

    /// The character of the firefly at its brightness.
    pub fn get_character(&self) -> (ch: char)
        ensures
            ch == self.shown_char(),
    {
        if self.brightness > 200 {
            '*'
        } else if self.brightness > 128 {
            '.'
        } else if self.brightness > 64 {
            '\u{b7}'
        } else {
            ' '
        }
    }

    /// The colour of the firefly at its brightness.
    pub fn get_color(&self) -> (color: Color)
        ensures
            color == self.shade(),
    {
        if self.brightness > 200 {
            Color::Yellow
        } else if self.brightness > 128 {
            Color::Rgb { r: 200, g: 255, b: 100 }
        } else if self.brightness > 64 {
            Color::Rgb { r: 150, g: 200, b: 80 }
        } else {
            Color::DarkGrey
        }
    }

    /// Whether the firefly is bright enough to be seen.
    pub fn is_visible(&self) -> (seen: bool)
        ensures
            seen == self.visible(),
    {
        self.brightness > 64
    }
}

impl Dot<Stage> for Firefly {
    open spec fn glyph(self, stage: Stage) -> Option<Glyph> {
        let on_stage = 0 <= self.x && 0 <= self.y && cell(self.x) < stage.width && cell(self.y)
            < stage.height;
        if self.visible() && on_stage {
            Some(
                Glyph {
                    x: cell(self.x),
                    y: cell(self.y),
                    character: self.shown_char(),
                    color: self.shade(),
                },
            )
        } else {
            None
        }
    }

    fn project(&self, stage: &Stage) -> (glyph: Option<Glyph>) {
        let x = cell_of(self.x);
        let y = cell_of(self.y);
        if self.is_visible() && 0 <= self.x && 0 <= self.y && x < stage.width as i64 && y
            < stage.height as i64 {
            Some(Glyph { x, y, character: self.get_character(), color: self.get_color() })
        } else {
            None
        }
    }
}

/// The fireflies.
pub struct FireflySystem {
    pub fireflies: Vec<Firefly>,
    pub terminal_width: u16,
    pub terminal_height: u16,
}

/// The turn of the firefly in place `i`: the one given for it, or one
/// that keeps the course where none is given.
pub open spec fn turn_at(turns: Seq<FireflyTurn>, i: int) -> FireflyTurn {
    if 0 <= i < turns.len() {
        turns[i]
    } else {
        FireflyTurn { reroll: 16_777_216, vx: 0, vy: 0 }
    }
}

/// The fireflies one tick later, each on its own turn.
pub open spec fn all_flown(
    fireflies: Seq<Firefly>,
    w: u16,
    horizon_y: u16,
    turns: Seq<FireflyTurn>,
) -> Seq<Firefly> {
    Seq::new(fireflies.len(), |i: int| fireflies[i].flown(w, horizon_y, turn_at(turns, i)))
}

impl FireflySystem {
    /// What a tick with the given random numbers makes of the
    /// fireflies: every one moves on its own turn, none goes, and below
    /// the target a new one joins one time in a hundred.
    pub open spec fn ticked(
        &self,
        next: &FireflySystem,
        w: u16,
        h: u16,
        horizon_y: u16,
        turns: Seq<FireflyTurn>,
        gate: u32,
        seed: FireflySeed,
    ) -> bool {
        let moved = all_flown(self.fireflies@, w, horizon_y, turns);
        &&& next.terminal_width == w
        &&& next.terminal_height == h
        &&& next.fireflies@ == if moved.len() < firefly_target(w) && hits(gate, 10) {
            moved.push(new_firefly(seed, w, horizon_y))
        } else {
            moved
        }
    }

    /// A night without fireflies.
    pub fn new(terminal_width: u16, terminal_height: u16) -> (system: FireflySystem)
        ensures
            system.fireflies@.len() == 0,
            system.terminal_width == terminal_width,
            system.terminal_height == terminal_height,
    {
        FireflySystem { fireflies: Vec::new(), terminal_width, terminal_height }
    }

    /// One tick with the random numbers given: a turn for each firefly,
    /// and what decides and makes a new one.
    pub fn tick(
        &mut self,
        terminal_width: u16,
        terminal_height: u16,
        horizon_y: u16,
        turns: &Vec<FireflyTurn>,
        gate: u32,
        seed: FireflySeed,
    )
        ensures
            old(self).ticked(
                final(self),
                terminal_width,
                terminal_height,
                horizon_y,
                turns@,
                gate,
                seed,
            ),
            final(self).fireflies@.len() <= if old(self).fireflies@.len() > firefly_target(
                terminal_width,
            ) {
                old(self).fireflies@.len() as int
            } else {
                firefly_target(terminal_width)
            },
    {
        self.terminal_width = terminal_width;
        self.terminal_height = terminal_height;
        let n: usize = self.fireflies.len();
        let mut i: usize = 0;
        while i < n
            invariant
                i <= n,
                n == self.fireflies@.len(),
                n == old(self).fireflies@.len(),
                self.terminal_width == terminal_width,
                self.terminal_height == terminal_height,
                forall|k: int|
                    0 <= k < i ==> self.fireflies@[k] == old(self).fireflies@[k].flown(
                        terminal_width,
                        horizon_y,
                        turn_at(turns@, k),
                    ),
                forall|k: int| i <= k < n ==> self.fireflies@[k] == old(self).fireflies@[k],
            decreases n - i,
        {
            let mut firefly = self.fireflies[i];
            let turn = if i < turns.len() {
                turns[i]
            } else {
                FireflyTurn { reroll: 16_777_216, vx: 0, vy: 0 }
            };
            firefly.update(terminal_width, horizon_y, turn);
            self.fireflies[i] = firefly;
            i += 1;
        }
        assert(self.fireflies@ =~= all_flown(
            old(self).fireflies@,
            terminal_width,
            horizon_y,
            turns@,
        ));
        let target: usize = if terminal_width / 15 > 3 {
            (terminal_width / 15) as usize
        } else {
            3
        };
        if self.fireflies.len() < target && chance(gate, 10) {
            self.fireflies.push(Firefly::new(seed, terminal_width, horizon_y));
        }
    }

    /// What one tick on some random numbers may make of the system.
    pub open spec fn updated(
        &self,
        next: &Self,
        terminal_width: u16,
        terminal_height: u16,
        horizon_y: u16,
    ) -> bool {
        &&& exists|turns: Seq<FireflyTurn>, gate: u32, seed: FireflySeed|
            {
                &&& #[trigger] self.ticked(
                    next,
                    terminal_width,
                    terminal_height,
                    horizon_y,
                    turns,
                    gate,
                    seed,
                )
                &&& turns.len() == self.fireflies@.len()
                &&& forall|i: int| 0 <= i < turns.len() ==> (#[trigger] turns[i]).fits()
                &&& gate < UNIT
                &&& seed.fits()
            }
        &&& next.fireflies@.len() <= if self.fireflies@.len() > firefly_target(terminal_width) {
            self.fireflies@.len() as int
        } else {
            firefly_target(terminal_width)
        }
    }

    /// One tick on random numbers from `rng`; see [`FireflySystem::tick`].
    /// The fireflies never grow beyond their target.
    pub fn update<R: RandomSource>(
        &mut self,
        terminal_width: u16,
        terminal_height: u16,
        horizon_y: u16,
        rng: &mut R,
    )
        ensures
            old(self).updated(final(self), terminal_width, terminal_height, horizon_y),
    {
        let n: usize = self.fireflies.len();
        let mut turns: Vec<FireflyTurn> = Vec::new();
        let mut i: usize = 0;
        while i < n
            invariant
                i <= n,
                turns@.len() == i,
                forall|k: int| 0 <= k < i ==> (#[trigger] turns@[k]).fits(),
            decreases n - i,
        {
            let reroll = draw_unit(rng);
            let vx = draw_unit(rng);
            let vy = draw_unit(rng);
            turns.push(FireflyTurn { reroll, vx, vy });
            i += 1;
        }
        let gate = draw_unit(rng);
        let column = draw_unit(rng);
        let row = draw_unit(rng);
        let vx = draw_unit(rng);
        let vy = draw_unit(rng);
        let glow_speed = draw_unit(rng);
        let glow_phase = draw_unit(rng);
        let seed = FireflySeed { column, row, vx, vy, glow_speed, glow_phase };
        self.tick(terminal_width, terminal_height, horizon_y, &turns, gate, seed);
    }

    /// The grid after the system is painted on it.
    pub open spec fn rendered(
        &self,
        cells: Seq<Cell>,
        w: int,
        h: int,
        support: ColorSupport,
    ) -> Seq<Cell> {
        painted(
            cells,
            w,
            h,
            support,
            self.fireflies@,
            Stage { width: self.terminal_width, height: self.terminal_height },
            self.fireflies@.len() as int,
        )
    }

    /// Paints the fireflies that glow brightly enough.
    pub fn render(&self, renderer: &mut TerminalRenderer)
        ensures
            final(renderer).same_frame(old(renderer)),
            final(renderer).cells() == self.rendered(
                old(renderer).cells(),
                old(renderer).width() as int,
                old(renderer).height() as int,
                old(renderer).support(),
            ),
    {
        let stage = Stage { width: self.terminal_width, height: self.terminal_height };
        paint(renderer, &self.fireflies, &stage);
    }
}

/// A population that is within its target stays within it, whatever the
/// random numbers of a tick are.
pub proof fn lemma_fireflies_within_target(
    now: FireflySystem,
    next: FireflySystem,
    terminal_width: u16,
    terminal_height: u16,
    horizon_y: u16,
)
    requires
        now.updated(&next, terminal_width, terminal_height, horizon_y),
        now.fireflies@.len() <= firefly_target(terminal_width),
    ensures
        next.fireflies@.len() <= firefly_target(terminal_width),
{
}

} // verus!
