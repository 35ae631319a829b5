//! Snow: flakes that fall slowly in two layers, drift with the wind and
//! sway from side to side.

use vstd::prelude::*;
use crate::animation::engine::{
    advance, count_survivors, lemma_survivors_conserved, next_generation, paint, painted, Dot,
    Particle, Stage,
};
use crate::fixed::{
    cell, cell_of, mul_milli, plus, radians, radians_milli, sat_add, scale, scaled, sin, sin_milli,
    times, trunc_div, UNIT,
};
use crate::random::{draw_bool, draw_unit, RandomSource};
use crate::render::capabilities::ColorSupport;
use crate::render::color::Color;
use crate::render::grid::{Cell, TerminalRenderer};
use crate::render::stamp::Glyph;
use crate::weather::types::SnowIntensity;

verus! {

/// One flake. Positions and speeds are thousandths of a cell, the sway
/// offset thousandths of a radian.
#[derive(Clone, Copy, Debug)]
pub struct Snowflake {
    pub x: i64,
    pub y: i64,
    pub speed_y: i64,
    pub speed_x: i64,
    pub sway_offset: i64,
    pub character: char,
    pub color: Color,
}

/// The random numbers that make one flake.
#[derive(Clone, Copy, Debug)]
pub struct FlakeSeed {
    /// Any word; decides the column.
    pub place: u32,
    /// Whether the flake is in the near layer.
    pub near: bool,
    /// Any word; decides the character.
    pub glyph: u32,
    /// A fraction that is added to the falling speed.
    pub speed: u32,
    /// A fraction that shifts the drift.
    pub drift: u32,
    /// A fraction that sets where in its sway the flake starts.
    pub sway: u32,
}

impl FlakeSeed {
    /// Whether the fractions are fractions.
    pub open spec fn fits(self) -> bool {
        self.speed < UNIT && self.drift < UNIT && self.sway < UNIT
    }
}

/// How many flakes a tier aims at on a terminal `w` wide.
pub open spec fn snow_target(intensity: SnowIntensity, w: u16) -> int {
    match intensity {
        SnowIntensity::Light => w as int / 4,
        SnowIntensity::Medium => w as int / 2,
        SnowIntensity::Heavy => w as int,
    }
}

/// How many flakes a tier adds in a tick while it is below its target.
pub open spec fn snow_rate(intensity: SnowIntensity) -> int {
    match intensity {
        SnowIntensity::Light => 1,
        SnowIntensity::Medium => 2,
        SnowIntensity::Heavy => 4,
    }
}

/// How many flakes a tick adds to the `live` flakes that culling has left
/// on a terminal of `w` by `h` cells: the tier's number below the
/// target, so that the snow may pass its target by one less than that
/// number, and none where there is no row above the ground for a flake
/// to fall through.
pub open spec fn snow_spawn_count(intensity: SnowIntensity, live: int, w: u16, h: u16) -> int {
    if h >= 2 && live < snow_target(intensity, w) {
        snow_rate(intensity)
    } else {
        0
    }
}

/// The wind that a tier brings by itself.
pub open spec fn snow_wind(intensity: SnowIntensity) -> i64 {
    match intensity {
        SnowIntensity::Light => 50,
        SnowIntensity::Medium => 100,
        SnowIntensity::Heavy => 200,
    }
}

/// The falling speed of a tier's layer before the random part.
pub open spec fn snow_fall(intensity: SnowIntensity, near: bool) -> i64 {
    match intensity {
        SnowIntensity::Light => if near { 150 } else { 80 },
        SnowIntensity::Medium => if near { 200 } else { 100 },
        SnowIntensity::Heavy => if near { 300 } else { 150 },
    }
}

/// The character of a flake: one of the tier's, picked by `pick`.
pub open spec fn flake_char(intensity: SnowIntensity, pick: u32) -> char {
    match intensity {
        SnowIntensity::Light => if pick % 2 == 0 { '.' } else { '\u{b7}' },
        SnowIntensity::Medium => if pick % 3 == 0 {
            '.'
        } else if pick % 3 == 1 {
            '\u{b7}'
        } else {
            '*'
        },
        SnowIntensity::Heavy => if pick % 3 == 0 {
            '*'
        } else if pick % 3 == 1 {
            '.'
        } else {
            '\u{b7}'
        },
    }
}

/// The flake that a seed makes: at the top, in a column between one
/// width left of the terminal and one width right of it. A flake that
/// joins more than twenty columns off the terminal goes with its first
/// move.
pub open spec fn new_flake(
    seed: FlakeSeed,
    intensity: SnowIntensity,
    wind_x: i64,
    w: u16,
) -> Snowflake {
    let span: int = if w == 0 { 1 } else { 3 * w };
    Snowflake {
        x: ((seed.place as int % span) * 1000 - w * 1000) as i64,
        y: 0,
        speed_y: (snow_fall(intensity, seed.near) + scaled(seed.speed, 50)) as i64,
        speed_x: plus(wind_x, (scaled(seed.drift, 100) - 50) as i64),
        sway_offset: scaled(seed.sway, 100_000),
        character: flake_char(intensity, seed.glyph),
        color: if seed.near { Color::White } else { Color::DarkGrey },
    }
}

/// The flakes that a list of seeds makes.
pub open spec fn fresh_flakes(
    seeds: Seq<FlakeSeed>,
    intensity: SnowIntensity,
    wind_x: i64,
    w: u16,
) -> Seq<Snowflake> {
    Seq::new(seeds.len(), |i: int| new_flake(seeds[i], intensity, wind_x, w))
}

impl Snowflake {
    /// How far the sway carries the flake sideways in a tick at height
    /// `y`: a twentieth of the sine of a fifth of the height, taken as
    /// an angle, plus the flake's offset.
    pub open spec fn sway(self, y: i64) -> i64 {
        times(sin(plus(trunc_div(y as int, 5) as i64, self.sway_offset)), 50)
    }
}

impl Particle<Stage> for Snowflake {
    open spec fn stepped(self, stage: Stage) -> Snowflake {
        let y = plus(self.y, self.speed_y);
        Snowflake { x: plus(self.x, plus(self.speed_x, self.sway(y))), y, ..self }
    }

    open spec fn alive(self, stage: Stage) -> bool {
        &&& self.y < (if stage.height == 0 { 0 } else { stage.height - 1 }) * 1000
        &&& -20_000 <= self.x <= (stage.width + 20) * 1000
    }

    fn step(&mut self, stage: &Stage) {
        self.y = sat_add(self.y, self.speed_y);
        let angle = sat_add(self.y / 5, self.sway_offset);
        let sway = mul_milli(sin_milli(angle), 50);
        self.x = sat_add(self.x, sat_add(self.speed_x, sway));
    }

    fn is_alive(&self, stage: &Stage) -> (alive: bool) {
        let ground: i64 = if stage.height == 0 {
            0
        } else {
            (stage.height - 1) as i64
        };
        self.y < ground * 1000 && -20_000 <= self.x && self.x <= (stage.width as i64 + 20) * 1000
    }
}

impl Dot<Stage> for Snowflake {
    open spec fn glyph(self, stage: Stage) -> Option<Glyph> {
        if 0 <= cell(self.x) < stage.width && 0 <= cell(self.y) < stage.height {
            Some(
                Glyph {
                    x: cell(self.x),
                    y: cell(self.y),
                    character: self.character,
                    color: self.color,
                },
            )
        } else {
            None
        }
    }

    fn project(&self, stage: &Stage) -> (glyph: Option<Glyph>) {
        let x = cell_of(self.x);
        let y = cell_of(self.y);
        if 0 <= x && x < stage.width as i64 && 0 <= y && y < stage.height as i64 {
            Some(Glyph { x, y, character: self.character, color: self.color })
        } else {
            None
        }
    }
}

/// The snow.
pub struct SnowSystem {
    pub flakes: Vec<Snowflake>,
    pub terminal_width: u16,
    pub terminal_height: u16,
    pub intensity: SnowIntensity,
    /// The wind's part in every new flake's drift.
    pub wind_x: i64,
}

/// How many flakes a tier aims at on a terminal `w` wide.
pub fn snow_target_count(intensity: SnowIntensity, w: u16) -> (target: usize)
    ensures
        target == snow_target(intensity, w),
{
    match intensity {
        SnowIntensity::Light => (w / 4) as usize,
        SnowIntensity::Medium => (w / 2) as usize,
        SnowIntensity::Heavy => w as usize,
    }
}

/// A tier with more snow never aims at fewer flakes.
pub proof fn lemma_snow_target_monotone(lower: SnowIntensity, higher: SnowIntensity, w: u16)
    requires
        lower.rank() <= higher.rank(),
    ensures
        snow_target(lower, w) <= snow_target(higher, w),
{
}

/// Makes the flake of a seed.
pub fn make_flake(seed: FlakeSeed, intensity: SnowIntensity, wind_x: i64, w: u16) -> (flake:
    Snowflake)
    ensures
        flake == new_flake(seed, intensity, wind_x, w),
{
    let span: u32 = if w == 0 {
        1
    } else {
        3 * (w as u32)
    };
    let x: i64 = ((seed.place % span) as i64) * 1000 - (w as i64) * 1000;
    let base: i64 = match intensity {
        SnowIntensity::Light => if seed.near { 150 } else { 80 },
        SnowIntensity::Medium => if seed.near { 200 } else { 100 },
        SnowIntensity::Heavy => if seed.near { 300 } else { 150 },
    };
    let character = match intensity {
        SnowIntensity::Light => if seed.glyph % 2 == 0 { '.' } else { '\u{b7}' },
        SnowIntensity::Medium => {
            let pick: u32 = seed.glyph % 3;
            if pick == 0 {
                '.'
            } else if pick == 1 {
                '\u{b7}'
            } else {
                '*'
            }
        },
        SnowIntensity::Heavy => {
            let pick: u32 = seed.glyph % 3;
            if pick == 0 {
                '*'
            } else if pick == 1 {
                '.'
            } else {
                '\u{b7}'
            }
        },
    };
    Snowflake {
        x,
        y: 0,
        speed_y: base + scale(seed.speed, 50),
        speed_x: sat_add(wind_x, scale(seed.drift, 100) - 50),
        sway_offset: scale(seed.sway, 100_000),
        character,
        color: if seed.near { Color::White } else { Color::DarkGrey },
    }
}

impl SnowSystem {
    /// How many of `offered` seeds a tick takes, with `live` flakes left
    /// after culling: as many as [`snow_spawn_count`] says, and no more
    /// than are offered.
    pub open spec fn intake(&self, w: u16, h: u16, live: int, offered: int) -> int {
        let wanted = snow_spawn_count(self.intensity, live, w, h);
        if offered < wanted {
            offered
        } else {
            wanted
        }
    }

    /// What a tick with the given seeds makes of the snow: every flake
    /// moves, those that reach the ground row or leave the sides by more
    /// than twenty cells go, and then new flakes join at the top while
    /// the snow is below its target.
    pub open spec fn ticked(
        &self,
        next: &SnowSystem,
        w: u16,
        h: u16,
        seeds: Seq<FlakeSeed>,
    ) -> bool {
        let left = next_generation(self.flakes@, Stage { width: w, height: h });
        let taken = self.intake(w, h, left.len() as int, seeds.len() as int);
        &&& next.terminal_width == w
        &&& next.terminal_height == h
        &&& next.intensity == self.intensity
        &&& next.wind_x == self.wind_x
        &&& next.flakes@ == left + fresh_flakes(seeds.take(taken), self.intensity, self.wind_x, w)
    }

    /// Snow without flakes, with a fifth of the tier's wind blowing left
    /// or right as the source decides.
    pub fn new<R: RandomSource>(
        terminal_width: u16,
        terminal_height: u16,
        intensity: SnowIntensity,
        rng: &mut R,
    ) -> (system: SnowSystem)
        ensures
            system.flakes@.len() == 0,
            system.terminal_width == terminal_width,
            system.terminal_height == terminal_height,
            system.intensity == intensity,
            system.wind_x == snow_wind(intensity) / 5 || system.wind_x == -(snow_wind(intensity)
                / 5),
    {
        let mut system = SnowSystem {
            flakes: Vec::new(),
            terminal_width,
            terminal_height,
            intensity,
            wind_x: 0,
        };
        let wind_dir: i64 = if draw_bool(rng) {
            200
        } else {
            -200
        };
        system.set_intensity_with_dir(intensity, wind_dir);
        system
    }

    /// Changes the tier and keeps the wind's direction. Live flakes stay.
    pub fn set_intensity(&mut self, intensity: SnowIntensity)
        ensures
            final(self).intensity == intensity,
            old(self).wind_x >= 0 ==> final(self).wind_x == snow_wind(intensity),
            old(self).wind_x < 0 ==> final(self).wind_x == -snow_wind(intensity),
            final(self).flakes == old(self).flakes,
            final(self).terminal_width == old(self).terminal_width,
            final(self).terminal_height == old(self).terminal_height,
    {
        let current_dir: i64 = if self.wind_x >= 0 {
            1000
        } else {
            -1000
        };
        self.set_intensity_with_dir(intensity, current_dir);
    }

    /// Changes the tier and sets the wind to the tier's own, times
    /// `direction_multiplier` thousandths.
    pub fn set_intensity_with_dir(&mut self, intensity: SnowIntensity, direction_multiplier: i64)
        ensures
            final(self).intensity == intensity,
            final(self).wind_x == times(snow_wind(intensity), direction_multiplier),
            final(self).flakes == old(self).flakes,
            final(self).terminal_width == old(self).terminal_width,
            final(self).terminal_height == old(self).terminal_height,
    {
        self.intensity = intensity;
        let base: i64 = match intensity {
            SnowIntensity::Light => 50,
            SnowIntensity::Medium => 100,
            SnowIntensity::Heavy => 200,
        };
        self.wind_x = mul_milli(base, direction_multiplier);
    }

    /// Sets the wind from the weather: a twentieth of the speed in
    /// kilometres an hour, against the sine of the direction. Both are
    /// given in thousandths, the direction in degrees.
    pub fn set_wind(&mut self, speed_kmh: i64, direction_deg: i64)
        ensures
            final(self).wind_x == times(
                trunc_div(speed_kmh as int, 20) as i64,
                (-sin(radians(direction_deg))) as i64,
            ),
            final(self).intensity == old(self).intensity,
            final(self).flakes == old(self).flakes,
            final(self).terminal_width == old(self).terminal_width,
            final(self).terminal_height == old(self).terminal_height,
    {
        let speed_factor: i64 = speed_kmh / 20;
        let x_component: i64 = -sin_milli(radians_milli(direction_deg));
        self.wind_x = mul_milli(speed_factor, x_component);
    }

    /// One tick with the random numbers given: `seeds` for the flakes
    /// that join, of which no more are used than [`snow_spawn_count`]
    /// says.
    pub fn tick(&mut self, terminal_width: u16, terminal_height: u16, seeds: &Vec<FlakeSeed>)
        ensures
            old(self).ticked(final(self), terminal_width, terminal_height, seeds@),
    {
        self.terminal_width = terminal_width;
        self.terminal_height = terminal_height;
        let stage = Stage { width: terminal_width, height: terminal_height };
        advance(&mut self.flakes, &stage);
        let ghost left = self.flakes@;
        let target = snow_target_count(self.intensity, terminal_width);
        let wanted: usize = if terminal_height >= 2 && self.flakes.len() < target {
            match self.intensity {
                SnowIntensity::Light => 1,
                SnowIntensity::Medium => 2,
                SnowIntensity::Heavy => 4,
            }
        } else {
            0
        };
        let taken: usize = if seeds.len() < wanted {
            seeds.len()
        } else {
            wanted
        };
        let ghost fresh = fresh_flakes(
            seeds@.take(taken as int),
            self.intensity,
            self.wind_x,
            terminal_width,
        );
        let mut i: usize = 0;
        while i < taken
            invariant
                i <= taken <= seeds.len(),
                self.intensity == old(self).intensity,
                self.wind_x == old(self).wind_x,
                self.terminal_width == terminal_width,
                self.terminal_height == terminal_height,
                fresh == fresh_flakes(
                    seeds@.take(taken as int),
                    self.intensity,
                    self.wind_x,
                    terminal_width,
                ),
                self.flakes@ == left + fresh.take(i as int),
            decreases taken - i,
        {
            let flake = make_flake(seeds[i], self.intensity, self.wind_x, terminal_width);
            self.flakes.push(flake);
            i += 1;
        }
        assert(fresh.take(i as int) =~= fresh);
    }

    /// What one tick on some random numbers may make of the system: a
    /// tick that is offered a seed for every flake that is to join.
    pub open spec fn updated(
        &self,
        next: &Self,
        terminal_width: u16,
        terminal_height: u16,
    ) -> bool {
        exists|seeds: Seq<FlakeSeed>|
            {
                &&& #[trigger] self.ticked(next, terminal_width, terminal_height, seeds)
                &&& seeds.len() == snow_spawn_count(
                    self.intensity,
                    next_generation(
                        self.flakes@,
                        Stage { width: terminal_width, height: terminal_height },
                    ).len() as int,
                    terminal_width,
                    terminal_height,
                )
                &&& forall|i: int| 0 <= i < seeds.len() ==> (#[trigger] seeds[i]).fits()
            }
    }

    /// One tick: takes up the terminal's size, moves and culls the
    /// flakes, and adds the tier's number of flakes while the snow is
    /// below its target, as [`SnowSystem::tick`] does, on random numbers
    /// from `rng`.
    pub fn update<R: RandomSource>(
        &mut self,
        terminal_width: u16,
        terminal_height: u16,
        rng: &mut R,
    )
        ensures
            old(self).updated(final(self), terminal_width, terminal_height),
    {
        let stage = Stage { width: terminal_width, height: terminal_height };
        let left: usize = count_survivors(&self.flakes, &stage);
        let target = snow_target_count(self.intensity, terminal_width);
        let count: usize = if terminal_height >= 2 && left < target {
            match self.intensity {
                SnowIntensity::Light => 1,
                SnowIntensity::Medium => 2,
                SnowIntensity::Heavy => 4,
            }
        } else {
            0
        };
        let mut seeds: Vec<FlakeSeed> = Vec::new();
        let mut i: usize = 0;
        while i < count
            invariant
                i <= count,
                seeds@.len() == i,
                forall|k: int| 0 <= k < i ==> (#[trigger] seeds@[k]).fits(),
            decreases count - i,
        {
            let place = rng.next_u32();
            let near = draw_bool(rng);
            let glyph = rng.next_u32();
            let speed = draw_unit(rng);
            let drift = draw_unit(rng);
            let sway = draw_unit(rng);
            seeds.push(FlakeSeed { place, near, glyph, speed, drift, sway });
            i += 1;
        }
        self.tick(terminal_width, terminal_height, &seeds);
    }

    /// The grid after the system is painted on it.
    pub open spec fn rendered(
        &self,
        cells: Seq<Cell>,
        w: int,
        h: int,
        support: ColorSupport,
    ) -> Seq<Cell> {
        painted(
            cells,
            w,
            h,
            support,
            self.flakes@,
            Stage { width: self.terminal_width, height: self.terminal_height },
            self.flakes@.len() as int,
        )
    }

    /// Paints the flakes.
    pub fn render(&self, renderer: &mut TerminalRenderer)
        ensures
            final(renderer).same_frame(old(renderer)),
            final(renderer).cells() == self.rendered(
                old(renderer).cells(),
                old(renderer).width() as int,
                old(renderer).height() as int,
                old(renderer).support(),
            ),
    {
        let stage = Stage { width: self.terminal_width, height: self.terminal_height };
        paint(renderer, &self.flakes, &stage);
    }
}

/// A tick that is given no seeds adds no flake, and every flake that is
/// left after it is alive.
pub proof fn lemma_snow_conserved(now: SnowSystem, next: SnowSystem, w: u16, h: u16)
    requires
        now.ticked(&next, w, h, Seq::empty()),
    ensures
        next.flakes@.len() <= now.flakes@.len(),
        forall|i: int|
            0 <= i < next.flakes@.len() ==> (#[trigger] next.flakes@[i]).alive(
                Stage { width: w, height: h },
            ),
{
    let stage = Stage { width: w, height: h };
    lemma_survivors_conserved(now.flakes@, stage, now.flakes@.len() as int);
}

/// A tick never leaves more flakes than there were or than the target
/// and one less than the tier's number, whichever is more: flakes join
/// only below the target.
pub proof fn lemma_snow_bounded(
    now: SnowSystem,
    next: SnowSystem,
    w: u16,
    h: u16,
    seeds: Seq<FlakeSeed>,
)
    requires
        now.ticked(&next, w, h, seeds),
    ensures
        next.flakes@.len() <= now.flakes@.len() || next.flakes@.len() <= snow_target(
            now.intensity,
            w,
        ) + snow_rate(now.intensity) - 1,
{
    let stage = Stage { width: w, height: h };
    lemma_survivors_conserved(now.flakes@, stage, now.flakes@.len() as int);
}

} // verus!
