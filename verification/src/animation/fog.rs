//! Fog: wisps that drift slowly in a band above the ground and fade
//! after a while.

use std::collections::VecDeque;
use vstd::prelude::*;
use crate::animation::engine::{
    advance_queue, lemma_survivors_conserved, next_generation, paint_queue, painted, Dot, Particle,
    Stage,
};
use crate::fixed::{cell, cell_of, less, plus, sat_add, scale, scaled, UNIT};
use crate::random::{draw_unit, RandomSource};
use crate::render::capabilities::ColorSupport;
use crate::render::color::Color;
use crate::render::grid::{Cell, TerminalRenderer};
use crate::render::stamp::Glyph;
use crate::weather::types::FogIntensity;

verus! {

/// One wisp. Positions and the speed are thousandths of a cell.
#[derive(Clone, Copy, Debug)]
pub struct FogWisp {
    pub x: i64,
    pub y: i64,
    pub speed_x: i64,
    pub character: char,
    pub color: Color,
    pub lifetime: u32,
    pub max_lifetime: u32,
}

/// The random numbers that make one wisp.
#[derive(Clone, Copy, Debug)]
pub struct WispSeed {
    /// A fraction of the width: the column.
    pub column: u32,
    /// A fraction of the band's height: the row within the band.
    pub row: u32,
    /// Any word; decides the character.
    pub glyph: u32,
    /// Any word; decides the colour.
    pub tint: u32,
    /// A fraction that sets speed and direction.
    pub drift: u32,
    /// Any word; decides how long the wisp lasts.
    pub span: u32,
}

impl WispSeed {
    /// Whether the fractions are fractions.
    pub open spec fn fits(self) -> bool {
        self.column < UNIT && self.row < UNIT && self.drift < UNIT
    }
}

/// The top row of the band of fog: fifteen rows above the ground, which
/// takes up the last seven rows.
pub open spec fn fog_top(h: u16) -> int {
    less(less(h as int, 7), 15)
}

/// How many wisps a tier aims at on a terminal `w` wide: three tenths of
/// the width, six tenths, or the whole.
pub open spec fn fog_target(intensity: FogIntensity, w: u16) -> int {
    match intensity {
        FogIntensity::Light => (w as int * 3) / 10,
        FogIntensity::Medium => (w as int * 6) / 10,
        FogIntensity::Heavy => w as int,
    }
}

/// The ticks between two spawns of a tier.
pub open spec fn fog_delay(intensity: FogIntensity) -> int {
    match intensity {
        FogIntensity::Light => 4,
        FogIntensity::Medium => 2,
        FogIntensity::Heavy => 1,
    }
}

/// The character of a wisp, picked by `pick`.
pub open spec fn wisp_char(pick: u32) -> char {
    if pick % 4 == 0 {
        '.'
    } else if pick % 4 == 1 {
        ','
    } else if pick % 4 == 2 {
        '-'
    } else {
        '~'
    }
}

/// The colour of a wisp, picked by `pick`.
pub open spec fn wisp_color(pick: u32) -> Color {
    if pick % 3 == 0 {
        Color::Grey
    } else if pick % 3 == 1 {
        Color::DarkGrey
    } else {
        Color::Rgb { r: 120, g: 120, b: 120 }
    }
}

/// The wisp that a seed makes: somewhere in the band, drifting up to
/// 75 thousandths of a cell a tick either way, lasting 100 to 299 ticks.
pub open spec fn new_wisp(seed: WispSeed, w: u16, h: u16) -> FogWisp {
    FogWisp {
        x: scaled(seed.column, (w * 1000) as u32),
        y: (fog_top(h) * 1000 + scaled(seed.row, 15_000)) as i64,
        speed_x: (scaled(seed.drift, 150) - 75) as i64,
        character: wisp_char(seed.glyph),
        color: wisp_color(seed.tint),
        lifetime: 0,
        max_lifetime: (100 + seed.span % 200) as u32,
    }
}

impl Particle<Stage> for FogWisp {
    open spec fn stepped(self, stage: Stage) -> FogWisp {
        FogWisp {
            x: plus(self.x, self.speed_x),
            lifetime: if self.lifetime < u32::MAX {
                (self.lifetime + 1) as u32
            } else {
                self.lifetime
            },
            ..self
        }
    }

    open spec fn alive(self, stage: Stage) -> bool {
        &&& self.lifetime < self.max_lifetime
        &&& -5000 <= self.x < (stage.width + 5) * 1000
    }

    fn step(&mut self, stage: &Stage) {
        self.x = sat_add(self.x, self.speed_x);
        if self.lifetime < u32::MAX {
            self.lifetime = self.lifetime + 1;
        }
    }

    fn is_alive(&self, stage: &Stage) -> (alive: bool) {
        self.lifetime < self.max_lifetime && -5000 <= self.x && self.x < (stage.width as i64 + 5)
            * 1000
    }
}

impl Dot<Stage> for FogWisp {
    open spec fn glyph(self, stage: Stage) -> Option<Glyph> {
        if 0 <= cell(self.x) < stage.width && 0 <= cell(self.y) < stage.height {
            Some(
                Glyph {
                    x: cell(self.x),
                    y: cell(self.y),
                    character: self.character,
                    color: self.color,
                },
            )
        } else {
            None
        }
    }

    fn project(&self, stage: &Stage) -> (glyph: Option<Glyph>) {
        let x = cell_of(self.x);
        let y = cell_of(self.y);
        if 0 <= x && x < stage.width as i64 && 0 <= y && y < stage.height as i64 {
            Some(Glyph { x, y, character: self.character, color: self.color })
        } else {
            None
        }
    }
}

/// The fog.
pub struct FogSystem {
    pub wisps: VecDeque<FogWisp>,
    pub terminal_width: u16,
    pub terminal_height: u16,
    pub intensity: FogIntensity,
    /// Ticks since the last spawn.
    pub spawn_timer: u32,
}

/// How many wisps a tier aims at on a terminal `w` wide.
pub fn fog_target_count(intensity: FogIntensity, w: u16) -> (target: usize)
    ensures
        target == fog_target(intensity, w),
{
    match intensity {
        FogIntensity::Light => (w as usize * 3) / 10,
        FogIntensity::Medium => (w as usize * 6) / 10,
        FogIntensity::Heavy => w as usize,
    }
}

/// A tier with more fog never aims at fewer wisps.
pub proof fn lemma_fog_target_monotone(lower: FogIntensity, higher: FogIntensity, w: u16)
    requires
        lower.rank() <= higher.rank(),
    ensures
        fog_target(lower, w) <= fog_target(higher, w),
{
}

/// Makes the wisp of a seed.
pub fn make_wisp(seed: WispSeed, w: u16, h: u16) -> (wisp: FogWisp)
    ensures
        wisp == new_wisp(seed, w, h),
{
    let ground: u16 = if h >= 7 {
        h - 7
    } else {
        0
    };
    let top: u16 = if ground >= 15 {
        ground - 15
    } else {
        0
    };
    let pick: u32 = seed.glyph % 4;
    let character = if pick == 0 {
        '.'
    } else if pick == 1 {
        ','
    } else if pick == 2 {
        '-'
    } else {
        '~'
    };
    let tint: u32 = seed.tint % 3;
    let color = if tint == 0 {
        Color::Grey
    } else if tint == 1 {
        Color::DarkGrey
    } else {
        Color::Rgb { r: 120, g: 120, b: 120 }
    };
    FogWisp {
        x: scale(seed.column, w as u32 * 1000),
        y: (top as i64) * 1000 + scale(seed.row, 15_000),
        speed_x: scale(seed.drift, 150) - 75,
        character,
        color,
        lifetime: 0,
        max_lifetime: 100 + seed.span % 200,
    }
}

impl FogSystem {
    /// How many of `offered` wisps a tick takes in, with `live` wisps
    /// left after culling: none unless the tier's delay has passed and
    /// the fog is below its target; then up to two, and no more than
    /// the target allows.
    pub open spec fn intake(&self, w: u16, live: int, offered: int) -> int {
        let room = fog_target(self.intensity, w) - live;
        if self.spawn_timer + 1 >= fog_delay(self.intensity) && room > 0 {
            let most = if room < 2 { room } else { 2 };
            if offered < most {
                offered
            } else {
                most
            }
        } else {
            0
        }
    }

    /// What a tick with the given seeds makes of the fog: every wisp
    /// moves, those whose time is up or that leave the sides by more
    /// than five cells go, and new ones join as the spawn timer and the
    /// target allow.
    pub open spec fn ticked(&self, next: &FogSystem, w: u16, h: u16, seeds: Seq<WispSeed>) -> bool {
        let left = next_generation(self.wisps@, Stage { width: w, height: h });
        let room = fog_target(self.intensity, w) - left.len();
        let taken = self.intake(w, left.len() as int, seeds.len() as int);
        &&& next.terminal_width == w
        &&& next.terminal_height == h
        &&& next.intensity == self.intensity
        &&& next.spawn_timer == if self.spawn_timer + 1 >= fog_delay(self.intensity) && room > 0 {
            0
        } else if self.spawn_timer < u32::MAX {
            self.spawn_timer + 1
        } else {
            self.spawn_timer as int
        }
        &&& next.wisps@ == left + Seq::new(taken as nat, |i: int| new_wisp(seeds[i], w, h))
    }

    /// Fog without wisps.
    pub fn new(terminal_width: u16, terminal_height: u16, intensity: FogIntensity) -> (system:
        FogSystem)
        ensures
            system.wisps@.len() == 0,
            system.terminal_width == terminal_width,
            system.terminal_height == terminal_height,
            system.intensity == intensity,
            system.spawn_timer == 0,
    {
        FogSystem {
            wisps: VecDeque::new(),
            terminal_width,
            terminal_height,
            intensity,
            spawn_timer: 0,
        }
    }

    /// Changes the tier. Live wisps stay.
    pub fn set_intensity(&mut self, intensity: FogIntensity)
        ensures
            final(self).intensity == intensity,
            final(self).wisps == old(self).wisps,
            final(self).terminal_width == old(self).terminal_width,
            final(self).terminal_height == old(self).terminal_height,
            final(self).spawn_timer == old(self).spawn_timer,
    {
        self.intensity = intensity;
    }

    /// One tick with the random numbers given.
    pub fn tick(&mut self, terminal_width: u16, terminal_height: u16, seeds: &Vec<WispSeed>)
        ensures
            old(self).ticked(final(self), terminal_width, terminal_height, seeds@),
    {
        self.terminal_width = terminal_width;
        self.terminal_height = terminal_height;
        let stage = Stage { width: terminal_width, height: terminal_height };
        advance_queue(&mut self.wisps, &stage);
        let ghost left = self.wisps@;
        let target = fog_target_count(self.intensity, terminal_width);
        let delay: u32 = match self.intensity {
            FogIntensity::Light => 4,
            FogIntensity::Medium => 2,
            FogIntensity::Heavy => 1,
        };
        let due = self.spawn_timer >= delay - 1;
        if due && self.wisps.len() < target {
            self.spawn_timer = 0;
            let mut i: usize = 0;
            while i < 2 && i < seeds.len() && self.wisps.len() < target
                invariant
                    i <= 2,
                    i <= seeds.len(),
                    left.len() + i <= target,
                    self.intensity == old(self).intensity,
                    self.terminal_width == terminal_width,
                    self.terminal_height == terminal_height,
                    self.spawn_timer == 0,
                    self.wisps@ == left + Seq::new(
                        i as nat,
                        |k: int| new_wisp(seeds@[k], terminal_width, terminal_height),
                    ),
                decreases 2 - i,
            {
                let wisp = make_wisp(seeds[i], terminal_width, terminal_height);
                self.wisps.push_back(wisp);
                i += 1;
            }
        } else {
            if self.spawn_timer < u32::MAX {
                self.spawn_timer = self.spawn_timer + 1;
            }
        }
    }

    /// What one tick on some random numbers may make of the system.
    pub open spec fn updated(
        &self,
        next: &Self,
        terminal_width: u16,
        terminal_height: u16,
    ) -> bool {
        exists|seeds: Seq<WispSeed>|
            {
                &&& #[trigger] self.ticked(next, terminal_width, terminal_height, seeds)
                &&& seeds.len() == 2
                &&& seeds[0].fits()
                &&& seeds[1].fits()
            }
    }

    /// One tick on random numbers from `rng`; see [`FogSystem::tick`].
    pub fn update<R: RandomSource>(
        &mut self,
        terminal_width: u16,
        terminal_height: u16,
        rng: &mut R,
    )
        ensures
            old(self).updated(final(self), terminal_width, terminal_height),
    {
        let mut seeds: Vec<WispSeed> = Vec::new();
        let mut i: usize = 0;
        while i < 2
            invariant
                i <= 2,
                seeds@.len() == i,
                forall|k: int| 0 <= k < i ==> (#[trigger] seeds@[k]).fits(),
            decreases 2 - i,
        {
            let column = draw_unit(rng);
            let row = draw_unit(rng);
            let glyph = rng.next_u32();
            let tint = rng.next_u32();
            let drift = draw_unit(rng);
            let span = rng.next_u32();
            seeds.push(WispSeed { column, row, glyph, tint, drift, span });
            i += 1;
        }
        self.tick(terminal_width, terminal_height, &seeds);
    }

    /// The grid after the system is painted on it.
    pub open spec fn rendered(
        &self,
        cells: Seq<Cell>,
        w: int,
        h: int,
        support: ColorSupport,
    ) -> Seq<Cell> {
        painted(
            cells,
            w,
            h,
            support,
            self.wisps@,
            Stage { width: self.terminal_width, height: self.terminal_height },
            self.wisps@.len() as int,
        )
    }

    /// Paints the wisps.
    pub fn render(&self, renderer: &mut TerminalRenderer)
        ensures
            final(renderer).same_frame(old(renderer)),
            final(renderer).cells() == self.rendered(
                old(renderer).cells(),
                old(renderer).width() as int,
                old(renderer).height() as int,
                old(renderer).support(),
            ),
    {
        let stage = Stage { width: self.terminal_width, height: self.terminal_height };
        paint_queue(renderer, &self.wisps, &stage);
    }
}

/// A tick that is given no seeds adds no wisp, and every wisp that is
/// left after it is alive.
pub proof fn lemma_fog_conserved(now: FogSystem, next: FogSystem, w: u16, h: u16)
    requires
        now.ticked(&next, w, h, Seq::empty()),
    ensures
        next.wisps@.len() <= now.wisps@.len(),
        forall|i: int|
            0 <= i < next.wisps@.len() ==> (#[trigger] next.wisps@[i]).alive(
                Stage { width: w, height: h },
            ),
{
    let stage = Stage { width: w, height: h };
    lemma_survivors_conserved(now.wisps@, stage, now.wisps@.len() as int);
}

} // verus!
