//! Rain: drops that fall in two layers and drift with the wind, and the
//! splashes that the near ones leave on the ground.

use std::collections::VecDeque;
use vstd::prelude::*;
use crate::animation::engine::{
    advance, advance_queue, count_survivors, keep_newest, last_of, lemma_survivors_conserved,
    next_generation, paint, paint_queue, painted, Dot, Particle, Stage,
};
use crate::fixed::{
    cell, cell_of, chance, clamp_u16, hits, mul_milli, plus, radians, radians_milli, sat_add, scale,
    scaled, sin, sin_milli, times, to_u16, trunc_div, UNIT,
};
use crate::random::{draw_bool, draw_unit, RandomSource};
use crate::render::capabilities::ColorSupport;
use crate::render::color::Color;
use crate::render::grid::{Cell, TerminalRenderer};
use crate::render::stamp::Glyph;
use crate::weather::types::RainIntensity;

verus! {

/// The most splashes that are kept; beyond it the oldest go.
pub const MAX_SPLASHES: usize = 100;

/// One drop. Positions and speeds are thousandths of a cell.
#[derive(Clone, Copy, Debug)]
pub struct Raindrop {
    pub x: i64,
    pub y: i64,
    pub speed_y: i64,
    pub speed_x: i64,
    pub character: char,
    pub color: Color,
    /// 1 for the near layer, 0 for the far one.
    pub z_index: u8,
}

/// The mark that a drop leaves where it hits the ground.
#[derive(Clone, Copy, Debug)]
pub struct Splash {
    pub x: u16,
    pub y: u16,
    pub timer: u8,
    pub max_timer: u8,
}

/// What the rules for a drop read: the terminal's size and the tier.
#[derive(Clone, Copy, Debug)]
pub struct RainStage {
    pub width: u16,
    pub height: u16,
    pub intensity: RainIntensity,
}

/// The random numbers that make one drop.
#[derive(Clone, Copy, Debug)]
pub struct DropSeed {
    /// Any word; decides the column.
    pub place: u32,
    /// Whether the drop is in the near layer.
    pub near: bool,
    /// Any word; decides the character.
    pub glyph: u32,
    /// A fraction that is added to the falling speed.
    pub speed: u32,
    /// A fraction that shifts the drift.
    pub drift: u32,
}

impl DropSeed {
    /// Whether the fractions are fractions.
    pub open spec fn fits(self) -> bool {
        self.speed < UNIT && self.drift < UNIT
    }
}

/// The row of the ground on a terminal `h` rows high.
pub open spec fn ground_row(h: u16) -> int {
    if h == 0 {
        0
    } else {
        h - 1
    }
}

/// How many drops a tier aims at on a terminal `w` wide.
pub open spec fn rain_target(intensity: RainIntensity, w: u16) -> int {
    match intensity {
        RainIntensity::Drizzle => w as int / 4,
        RainIntensity::Light => w as int / 2,
        RainIntensity::Heavy => w as int,
        RainIntensity::Storm => (w as int * 3) / 2,
    }
}

/// How many drops a tier adds in a tick while it is below its target.
pub open spec fn rain_rate(intensity: RainIntensity) -> int {
    match intensity {
        RainIntensity::Drizzle => 1,
        RainIntensity::Light => 2,
        _ => 5,
    }
}

/// How many drops a tick adds to the `live` drops that culling has left
/// on a terminal of `w` by `h` cells.
///
/// Below the target the tier's number joins, so that the rain may pass
/// its target by one less than that number. A storm adds whatever is
/// missing to its target where that is more: no storm would fill up
/// otherwise on a terminal that is wide and low. No drop joins where
/// there is no row above the ground for it to fall through.
pub open spec fn rain_spawn_count(intensity: RainIntensity, live: int, w: u16, h: u16) -> int {
    let missing = rain_target(intensity, w) - live;
    if h < 2 || missing <= 0 {
        0
    } else if intensity == RainIntensity::Storm && missing > rain_rate(intensity) {
        missing
    } else {
        rain_rate(intensity)
    }
}

/// How many near drops in a thousand leave a splash.
pub open spec fn splash_rate(intensity: RainIntensity) -> u32 {
    match intensity {
        RainIntensity::Drizzle => 100,
        RainIntensity::Light => 300,
        _ => 600,
    }
}

/// The wind that a tier brings by itself, in thousandths of a cell a tick.
pub open spec fn base_wind(intensity: RainIntensity) -> i64 {
    match intensity {
        RainIntensity::Drizzle => 50,
        RainIntensity::Light => 100,
        RainIntensity::Heavy => 150,
        RainIntensity::Storm => 800,
    }
}

/// The falling speed of a tier's layer before the random part.
pub open spec fn base_fall(intensity: RainIntensity, near: bool) -> i64 {
    match intensity {
        RainIntensity::Drizzle => if near { 400 } else { 200 },
        RainIntensity::Light => if near { 700 } else { 400 },
        RainIntensity::Heavy => if near { 900 } else { 600 },
        RainIntensity::Storm => if near { 1800 } else { 1200 },
    }
}

/// The colour of a tier's layer.
pub open spec fn drop_color(intensity: RainIntensity, near: bool) -> Color {
    if !near {
        Color::DarkGrey
    } else {
        match intensity {
            RainIntensity::Drizzle => Color::Cyan,
            RainIntensity::Light => Color::White,
            RainIntensity::Heavy => Color::Cyan,
            RainIntensity::Storm => Color::White,
        }
    }
}

/// The character of a drop: one of the tier's, picked by `pick`; in a
/// storm the slant that goes with the wind.
pub open spec fn drop_char(intensity: RainIntensity, wind_x: i64, pick: u32) -> char {
    match intensity {
        RainIntensity::Drizzle => if pick % 2 == 0 { '.' } else { ',' },
        RainIntensity::Light => if pick % 3 == 0 {
            '|'
        } else if pick % 3 == 1 {
            ':'
        } else {
            '.'
        },
        RainIntensity::Heavy => if pick % 2 == 0 { '|' } else { ':' },
        RainIntensity::Storm => if wind_x > 0 { '\\' } else { '/' },
    }
}

/// The drop that a seed makes: at the top, in a column between half a
/// width left of the terminal and half a width right of it. A drop that
/// joins more than ten columns off the terminal goes with its first
/// move.
pub open spec fn new_drop(
    seed: DropSeed,
    intensity: RainIntensity,
    wind_x: i64,
    w: u16,
) -> Raindrop {
    let span: int = if w == 0 { 1 } else { 2 * w };
    Raindrop {
        x: ((seed.place as int % span) * 1000 - w * 500) as i64,
        y: 0,
        speed_y: (base_fall(intensity, seed.near) + scaled(seed.speed, 200)) as i64,
        speed_x: plus(wind_x, (scaled(seed.drift, 100) - 50) as i64),
        character: drop_char(intensity, wind_x, seed.glyph),
        color: drop_color(intensity, seed.near),
        z_index: if seed.near { 1 } else { 0 },
    }
}

/// The drops that a list of seeds makes.
pub open spec fn fresh_drops(
    seeds: Seq<DropSeed>,
    intensity: RainIntensity,
    wind_x: i64,
    w: u16,
) -> Seq<Raindrop> {
    Seq::new(seeds.len(), |i: int| new_drop(seeds[i], intensity, wind_x, w))
}

impl Raindrop {
    /// Whether the drop has reached the ground row.
    pub open spec fn grounded(self, h: u16) -> bool {
        self.y >= ground_row(h) * 1000
    }

    /// The character that the drop shows: in heavy rain and storm a
    /// slant once it drifts more than half a cell a tick.
    pub open spec fn shown_char(self, intensity: RainIntensity) -> char {
        if intensity == RainIntensity::Storm || intensity == RainIntensity::Heavy {
            if self.speed_x > 500 {
                '\\'
            } else if self.speed_x < -500 {
                '/'
            } else {
                self.character
            }
        } else {
            self.character
        }
    }
}

impl Particle<RainStage> for Raindrop {
    open spec fn stepped(self, stage: RainStage) -> Raindrop {
        Raindrop { x: plus(self.x, self.speed_x), y: plus(self.y, self.speed_y), ..self }
    }

    open spec fn alive(self, stage: RainStage) -> bool {
        &&& !self.grounded(stage.height)
        &&& -10_000 <= self.x <= (stage.width + 10) * 1000
    }

    fn step(&mut self, stage: &RainStage) {
        self.x = sat_add(self.x, self.speed_x);
        self.y = sat_add(self.y, self.speed_y);
    }

    fn is_alive(&self, stage: &RainStage) -> (alive: bool) {
        let ground: i64 = if stage.height == 0 {
            0
        } else {
            (stage.height - 1) as i64
        };
        if self.y >= ground * 1000 {
            return false;
        }
        -10_000 <= self.x && self.x <= (stage.width as i64 + 10) * 1000
    }
}

impl Dot<RainStage> for Raindrop {
    open spec fn glyph(self, stage: RainStage) -> Option<Glyph> {
        if 0 <= cell(self.x) < stage.width && 0 <= cell(self.y) < stage.height {
            Some(
                Glyph {
                    x: cell(self.x),
                    y: cell(self.y),
                    character: self.shown_char(stage.intensity),
                    color: self.color,
                },
            )
        } else {
            None
        }
    }

    fn project(&self, stage: &RainStage) -> (glyph: Option<Glyph>) {
        let x = cell_of(self.x);
        let y = cell_of(self.y);
        if 0 <= x && x < stage.width as i64 && 0 <= y && y < stage.height as i64 {
            let heavy = match stage.intensity {
                RainIntensity::Storm | RainIntensity::Heavy => true,
                _ => false,
            };
            let character = if heavy {
                if self.speed_x > 500 {
                    '\\'
                } else if self.speed_x < -500 {
                    '/'
                } else {
                    self.character
                }
            } else {
                self.character
            };
            Some(Glyph { x, y, character, color: self.color })
        } else {
            None
        }
    }
}

impl Splash {
    /// The character of a splash at its age.
    pub open spec fn shown_char(self) -> char {
        if self.timer == 0 {
            '.'
        } else if self.timer == 1 {
            'o'
        } else if self.timer == 2 {
            'O'
        } else {
            ' '
        }
    }
}

impl Particle<Stage> for Splash {
    open spec fn stepped(self, stage: Stage) -> Splash {
        Splash { timer: if self.timer < 255 { (self.timer + 1) as u8 } else { self.timer }, ..self }
    }

    open spec fn alive(self, stage: Stage) -> bool {
        self.timer < self.max_timer
    }

    fn step(&mut self, stage: &Stage) {
        if self.timer < 255 {
            self.timer = self.timer + 1;
        }
    }

    fn is_alive(&self, stage: &Stage) -> (alive: bool) {
        self.timer < self.max_timer
    }
}

impl Dot<Stage> for Splash {
    open spec fn glyph(self, stage: Stage) -> Option<Glyph> {
        if self.x < stage.width && self.y < stage.height {
            Some(
                Glyph {
                    x: self.x as i64,
                    y: self.y as i64,
                    character: self.shown_char(),
                    color: Color::White,
                },
            )
        } else {
            None
        }
    }

    fn project(&self, stage: &Stage) -> (glyph: Option<Glyph>) {
        if self.x < stage.width && self.y < stage.height {
            let character = match self.timer {
                0 => '.',
                1 => 'o',
                2 => 'O',
                _ => ' ',
            };
            Some(Glyph { x: self.x as i64, y: self.y as i64, character, color: Color::White })
        } else {
            None
        }
    }
}

/// The splashes that the first `n` drops leave in the coming tick: one
/// for each near drop that reaches the ground and whose draw falls
/// under the tier's splash rate, where the drop comes down.
pub open spec fn impacts(drops: Seq<Raindrop>, draws: Seq<u32>, stage: RainStage, n: int) -> Seq<
    Splash,
>
    decreases n,
{
    if n <= 0 {
        Seq::empty()
    } else {
        let rest = impacts(drops, draws, stage, n - 1);
        let moved = drops[n - 1].stepped(stage);
        if moved.grounded(stage.height) && moved.z_index == 1 && n - 1 < draws.len() && hits(
            draws[n - 1],
            splash_rate(stage.intensity),
        ) {
            rest.push(
                Splash {
                    x: clamp_u16(cell(moved.x) as int),
                    y: ground_row(stage.height) as u16,
                    timer: 0,
                    max_timer: 3,
                },
            )
        } else {
            rest
        }
    }
}

/// The newest `MAX_SPLASHES` of a list of splashes.
pub open spec fn newest(splashes: Seq<Splash>) -> Seq<Splash> {
    last_of(splashes, MAX_SPLASHES as int)
}

/// The rain.
pub struct RaindropSystem {
    pub drops: Vec<Raindrop>,
    pub splashes: VecDeque<Splash>,
    pub terminal_width: u16,
    pub terminal_height: u16,
    pub intensity: RainIntensity,
    /// The wind's part in every new drop's drift.
    pub wind_x: i64,
}

/// How many drops a tier aims at on a terminal `w` wide.
pub fn rain_target_count(intensity: RainIntensity, w: u16) -> (target: usize)
    ensures
        target == rain_target(intensity, w),
{
    match intensity {
        RainIntensity::Drizzle => (w / 4) as usize,
        RainIntensity::Light => (w / 2) as usize,
        RainIntensity::Heavy => w as usize,
        RainIntensity::Storm => (w as usize * 3) / 2,
    }
}

/// A tier with more rain never aims at fewer drops.
pub proof fn lemma_rain_target_monotone(lower: RainIntensity, higher: RainIntensity, w: u16)
    requires
        lower.rank() <= higher.rank(),
    ensures
        rain_target(lower, w) <= rain_target(higher, w),
{
}

/// How many drops a tick adds to `live` drops; see [`rain_spawn_count`].
pub fn spawn_count(intensity: RainIntensity, live: usize, w: u16, h: u16) -> (count: usize)
    ensures
        count == rain_spawn_count(intensity, live as int, w, h),
{
    let target = rain_target_count(intensity, w);
    if h < 2 || live >= target {
        return 0;
    }
    let missing: usize = target - live;
    match intensity {
        RainIntensity::Drizzle => 1,
        RainIntensity::Light => 2,
        RainIntensity::Heavy => 5,
        RainIntensity::Storm => if missing > 5 {
            missing
        } else {
            5
        },
    }
}

fn tier_wind(intensity: RainIntensity) -> (wind: i64)
    ensures
        wind == base_wind(intensity),
{
    match intensity {
        RainIntensity::Drizzle => 50,
        RainIntensity::Light => 100,
        RainIntensity::Heavy => 150,
        RainIntensity::Storm => 800,
    }
}

/// Makes the drop of a seed.
pub fn make_drop(seed: DropSeed, intensity: RainIntensity, wind_x: i64, w: u16) -> (drop: Raindrop)
    ensures
        drop == new_drop(seed, intensity, wind_x, w),
{
    let span: u32 = if w == 0 {
        1
    } else {
        2 * (w as u32)
    };
    let x: i64 = ((seed.place % span) as i64) * 1000 - (w as i64) * 500;
    let (base, near_color): (i64, Color) = match intensity {
        RainIntensity::Drizzle => (if seed.near { 400 } else { 200 }, Color::Cyan),
        RainIntensity::Light => (if seed.near { 700 } else { 400 }, Color::White),
        RainIntensity::Heavy => (if seed.near { 900 } else { 600 }, Color::Cyan),
        RainIntensity::Storm => (if seed.near { 1800 } else { 1200 }, Color::White),
    };
    let character = match intensity {
        RainIntensity::Drizzle => if seed.glyph % 2 == 0 { '.' } else { ',' },
        RainIntensity::Light => {
            let pick: u32 = seed.glyph % 3;
            if pick == 0 {
                '|'
            } else if pick == 1 {
                ':'
            } else {
                '.'
            }
        },
        RainIntensity::Heavy => if seed.glyph % 2 == 0 { '|' } else { ':' },
        RainIntensity::Storm => if wind_x > 0 { '\\' } else { '/' },
    };
    Raindrop {
        x,
        y: 0,
        speed_y: base + scale(seed.speed, 200),
        speed_x: sat_add(wind_x, scale(seed.drift, 100) - 50),
        character,
        color: if seed.near { near_color } else { Color::DarkGrey },
        z_index: if seed.near { 1 } else { 0 },
    }
}

/// Works out the splashes of the coming tick; see [`impacts`].
pub fn find_impacts(drops: &Vec<Raindrop>, draws: &Vec<u32>, stage: &RainStage) -> (found: Vec<
    Splash,
>)
    ensures
        found@ == impacts(drops@, draws@, *stage, drops@.len() as int),
{
    let rate: u32 = match stage.intensity {
        RainIntensity::Drizzle => 100,
        RainIntensity::Light => 300,
        _ => 600,
    };
    let ground: u16 = if stage.height == 0 {
        0
    } else {
        stage.height - 1
    };
    let mut found: Vec<Splash> = Vec::new();
    let mut i: usize = 0;
    while i < drops.len()
        invariant
            i <= drops.len(),
            rate == splash_rate(stage.intensity),
            ground == ground_row(stage.height),
            found@ == impacts(drops@, draws@, *stage, i as int),
        decreases drops.len() - i,
    {
        let mut moved = drops[i];
        moved.step(stage);
        if moved.y >= (ground as i64) * 1000 && moved.z_index == 1 && i < draws.len() {
            if chance(draws[i], rate) {
                let x = to_u16(cell_of(moved.x));
                found.push(Splash { x, y: ground, timer: 0, max_timer: 3 });
            }
        }
        i += 1;
    }
    found
}

impl RaindropSystem {
    /// How many of `offered` seeds a tick takes, with `live` drops left
    /// after culling: as many as [`rain_spawn_count`] says, and no more
    /// than are offered.
    pub open spec fn intake(&self, w: u16, h: u16, live: int, offered: int) -> int {
        let wanted = rain_spawn_count(self.intensity, live, w, h);
        if offered < wanted {
            offered
        } else {
            wanted
        }
    }

    /// What a tick with the given seeds and draws makes of the rain:
    /// every drop moves, those that reach the ground or leave the sides
    /// by more than ten cells go, near ones that reach the ground may
    /// leave a splash, and then new drops join at the top while the rain
    /// is below its target. The splashes that were there age and go
    /// after three ticks, so that each shows its three characters in turn.
    pub open spec fn ticked(
        &self,
        next: &RaindropSystem,
        w: u16,
        h: u16,
        seeds: Seq<DropSeed>,
        draws: Seq<u32>,
    ) -> bool {
        let stage = RainStage { width: w, height: h, intensity: self.intensity };
        let left = next_generation(self.drops@, stage);
        let taken = self.intake(w, h, left.len() as int, seeds.len() as int);
        &&& next.terminal_width == w
        &&& next.terminal_height == h
        &&& next.intensity == self.intensity
        &&& next.wind_x == self.wind_x
        &&& next.drops@ == left + fresh_drops(seeds.take(taken), self.intensity, self.wind_x, w)
        &&& next.splashes@ == newest(
            next_generation(self.splashes@, Stage { width: w, height: h }) + impacts(
                self.drops@,
                draws,
                stage,
                self.drops@.len() as int,
            ),
        )
    }

    /// Rain without drops, with the tier's wind blowing left or right as
    /// the source decides.
    pub fn new<R: RandomSource>(
        terminal_width: u16,
        terminal_height: u16,
        intensity: RainIntensity,
        rng: &mut R,
    ) -> (system: RaindropSystem)
        ensures
            system.drops@.len() == 0,
            system.splashes@.len() == 0,
            system.terminal_width == terminal_width,
            system.terminal_height == terminal_height,
            system.intensity == intensity,
            system.wind_x == base_wind(intensity) || system.wind_x == -base_wind(intensity),
    {
        let mut system = RaindropSystem {
            drops: Vec::new(),
            splashes: VecDeque::new(),
            terminal_width,
            terminal_height,
            intensity,
            wind_x: 0,
        };
        let wind_dir: i64 = if draw_bool(rng) {
            1000
        } else {
            -1000
        };
        system.set_intensity_with_dir(intensity, wind_dir);
        system
    }

    /// Changes the tier and keeps the wind's direction. Live drops stay.
    pub fn set_intensity(&mut self, intensity: RainIntensity)
        ensures
            final(self).intensity == intensity,
            old(self).wind_x >= 0 ==> final(self).wind_x == base_wind(intensity),
            old(self).wind_x < 0 ==> final(self).wind_x == -base_wind(intensity),
            final(self).drops == old(self).drops,
            final(self).splashes == old(self).splashes,
            final(self).terminal_width == old(self).terminal_width,
            final(self).terminal_height == old(self).terminal_height,
    {
        let current_dir: i64 = if self.wind_x >= 0 {
            1000
        } else {
            -1000
        };
        self.set_intensity_with_dir(intensity, current_dir);
    }

    /// Changes the tier and sets the wind to the tier's own, times
    /// `direction_multiplier` thousandths.
    pub fn set_intensity_with_dir(&mut self, intensity: RainIntensity, direction_multiplier: i64)
        ensures
            final(self).intensity == intensity,
            final(self).wind_x == times(base_wind(intensity), direction_multiplier),
            final(self).drops == old(self).drops,
            final(self).splashes == old(self).splashes,
            final(self).terminal_width == old(self).terminal_width,
            final(self).terminal_height == old(self).terminal_height,
    {
        self.intensity = intensity;
        self.wind_x = mul_milli(tier_wind(intensity), direction_multiplier);
    }

    /// Sets the wind from the weather: a fortieth of the speed in
    /// kilometres an hour, against the sine of the direction. Both are
    /// given in thousandths, the direction in degrees.
    pub fn set_wind(&mut self, speed_kmh: i64, direction_deg: i64)
        ensures
            final(self).wind_x == times(
                trunc_div(speed_kmh as int, 40) as i64,
                (-sin(radians(direction_deg))) as i64,
            ),
            final(self).intensity == old(self).intensity,
            final(self).drops == old(self).drops,
            final(self).splashes == old(self).splashes,
            final(self).terminal_width == old(self).terminal_width,
            final(self).terminal_height == old(self).terminal_height,
    {
        let speed_factor: i64 = speed_kmh / 40;
        let x_component: i64 = -sin_milli(radians_milli(direction_deg));
        self.wind_x = mul_milli(speed_factor, x_component);
    }

    /// One tick with the random numbers given: for each drop a draw that
    /// decides whether it leaves a splash, and `seeds` for the drops that
    /// join, of which no more are used than [`rain_spawn_count`] says.
    pub fn tick(
        &mut self,
        terminal_width: u16,
        terminal_height: u16,
        seeds: &Vec<DropSeed>,
        draws: &Vec<u32>,
    )
        ensures
            old(self).ticked(final(self), terminal_width, terminal_height, seeds@, draws@),
    {
        self.terminal_width = terminal_width;
        self.terminal_height = terminal_height;
        let stage = RainStage {
            width: terminal_width,
            height: terminal_height,
            intensity: self.intensity,
        };
        let found = find_impacts(&self.drops, draws, &stage);
        advance(&mut self.drops, &stage);
        let ghost left = self.drops@;
        let wanted: usize = spawn_count(
            self.intensity,
            self.drops.len(),
            terminal_width,
            terminal_height,
        );
        let taken: usize = if seeds.len() < wanted {
            seeds.len()
        } else {
            wanted
        };
        let ghost fresh = fresh_drops(
            seeds@.take(taken as int),
            self.intensity,
            self.wind_x,
            terminal_width,
        );
        let mut i: usize = 0;
        while i < taken
            invariant
                i <= taken <= seeds.len(),
                self.intensity == old(self).intensity,
                self.wind_x == old(self).wind_x,
                self.terminal_width == terminal_width,
                self.terminal_height == terminal_height,
                self.splashes == old(self).splashes,
                fresh == fresh_drops(
                    seeds@.take(taken as int),
                    self.intensity,
                    self.wind_x,
                    terminal_width,
                ),
                self.drops@ == left + fresh.take(i as int),
            decreases taken - i,
        {
            let drop = make_drop(seeds[i], self.intensity, self.wind_x, terminal_width);
            self.drops.push(drop);
            i += 1;
        }
        assert(fresh.take(i as int) =~= fresh);
        let ghost drops_now = self.drops;
        let ground = Stage { width: terminal_width, height: terminal_height };
        advance_queue(&mut self.splashes, &ground);
        let ghost aged = self.splashes@;
        let mut k: usize = 0;
        while k < found.len()
            invariant
                k <= found.len(),
                self.drops == drops_now,
                self.intensity == old(self).intensity,
                self.wind_x == old(self).wind_x,
                self.terminal_width == terminal_width,
                self.terminal_height == terminal_height,
                self.splashes@ == aged + found@.take(k as int),
            decreases found.len() - k,
        {
            self.splashes.push_back(found[k]);
            assert(self.splashes@ =~= aged + found@.take(k + 1));
            k += 1;
        }
        assert(found@.take(k as int) =~= found@);
        keep_newest(&mut self.splashes, MAX_SPLASHES);
    }

    /// What one tick on some random numbers may make of the system: a
    /// tick that is offered a seed for every drop that is to join.
    pub open spec fn updated(
        &self,
        next: &Self,
        terminal_width: u16,
        terminal_height: u16,
    ) -> bool {
        exists|seeds: Seq<DropSeed>, draws: Seq<u32>|
            {
                &&& #[trigger] self.ticked(next, terminal_width, terminal_height, seeds, draws)
                &&& seeds.len() == rain_spawn_count(
                    self.intensity,
                    next_generation(
                        self.drops@,
                        RainStage {
                            width: terminal_width,
                            height: terminal_height,
                            intensity: self.intensity,
                        },
                    ).len() as int,
                    terminal_width,
                    terminal_height,
                )
                &&& forall|i: int| 0 <= i < seeds.len() ==> (#[trigger] seeds[i]).fits()
                &&& draws.len() == self.drops@.len()
                &&& forall|i: int| 0 <= i < draws.len() ==> #[trigger] draws[i] < UNIT
            }
    }

    /// One tick: takes up the terminal's size, moves and culls the drops,
    /// and adds as many drops as [`rain_spawn_count`] says while the rain
    /// is below its target, as [`RaindropSystem::tick`] does, on random
    /// numbers from `rng`.
    pub fn update<R: RandomSource>(
        &mut self,
        terminal_width: u16,
        terminal_height: u16,
        rng: &mut R,
    )
        ensures
            old(self).updated(final(self), terminal_width, terminal_height),
    {
        let stage = RainStage {
            width: terminal_width,
            height: terminal_height,
            intensity: self.intensity,
        };
        let left: usize = count_survivors(&self.drops, &stage);
        let count: usize = spawn_count(self.intensity, left, terminal_width, terminal_height);
        let mut seeds: Vec<DropSeed> = Vec::new();
        let mut i: usize = 0;
        while i < count
            invariant
                i <= count,
                seeds@.len() == i,
                forall|k: int| 0 <= k < i ==> (#[trigger] seeds@[k]).fits(),
            decreases count - i,
        {
            let place = rng.next_u32();
            let near = draw_bool(rng);
            let glyph = rng.next_u32();
            let speed = draw_unit(rng);
            let drift = draw_unit(rng);
            seeds.push(DropSeed { place, near, glyph, speed, drift });
            i += 1;
        }
        let total: usize = self.drops.len();
        let mut draws: Vec<u32> = Vec::new();
        let mut k: usize = 0;
        while k < total
            invariant
                k <= total,
                draws@.len() == k,
                forall|j: int| 0 <= j < k ==> #[trigger] draws@[j] < UNIT,
            decreases total - k,
        {
            draws.push(draw_unit(rng));
            k += 1;
        }
        self.tick(terminal_width, terminal_height, &seeds, &draws);
    }

    /// The grid after the system is painted on it.
    pub open spec fn rendered(
        &self,
        cells: Seq<Cell>,
        w: int,
        h: int,
        support: ColorSupport,
    ) -> Seq<Cell> {
        painted(
            painted(
                cells,
                w,
                h,
                support,
                self.drops@,
                RainStage {
                    width: self.terminal_width,
                    height: self.terminal_height,
                    intensity: self.intensity,
                },
                self.drops@.len() as int,
            ),
            w,
            h,
            support,
            self.splashes@,
            Stage { width: self.terminal_width, height: self.terminal_height },
            self.splashes@.len() as int,
        )
    }

    /// Paints the drops, then the splashes over them.
    pub fn render(&self, renderer: &mut TerminalRenderer)
        ensures
            final(renderer).same_frame(old(renderer)),
            final(renderer).cells() == self.rendered(
                old(renderer).cells(),
                old(renderer).width() as int,
                old(renderer).height() as int,
                old(renderer).support(),
            ),
    {
        let stage = RainStage {
            width: self.terminal_width,
            height: self.terminal_height,
            intensity: self.intensity,
        };
        paint(renderer, &self.drops, &stage);
        let ground = Stage { width: self.terminal_width, height: self.terminal_height };
        paint_queue(renderer, &self.splashes, &ground);
    }
}

/// A tick that is given no seeds adds no drop, and every drop that is
/// left after it is alive.
pub proof fn lemma_rain_conserved(
    now: RaindropSystem,
    next: RaindropSystem,
    w: u16,
    h: u16,
    draws: Seq<u32>,
)
    requires
        now.ticked(&next, w, h, Seq::empty(), draws),
    ensures
        next.drops@.len() <= now.drops@.len(),
        forall|i: int|
            0 <= i < next.drops@.len() ==> (#[trigger] next.drops@[i]).alive(
                RainStage { width: w, height: h, intensity: now.intensity },
            ),
{
    let stage = RainStage { width: w, height: h, intensity: now.intensity };
    lemma_survivors_conserved(now.drops@, stage, now.drops@.len() as int);
}

/// A tick never leaves more drops than there were or than the target
/// and one less than the tier's number, whichever is more: drops join
/// only below the target.
pub proof fn lemma_rain_bounded(
    now: RaindropSystem,
    next: RaindropSystem,
    w: u16,
    h: u16,
    seeds: Seq<DropSeed>,
    draws: Seq<u32>,
)
    requires
        now.ticked(&next, w, h, seeds, draws),
    ensures
        next.drops@.len() <= now.drops@.len() || next.drops@.len() <= rain_target(
            now.intensity,
            w,
        ) + rain_rate(now.intensity) - 1,
{
    let stage = RainStage { width: w, height: h, intensity: now.intensity };
    lemma_survivors_conserved(now.drops@, stage, now.drops@.len() as int);
}

/// A storm reaches its target in one tick on a terminal of two rows or
/// more: after any `update`, from a storm without drops as from any
/// other, on any random numbers, there are as many drops as a storm
/// aims at on a terminal of that width.
pub proof fn lemma_rain_reaches_target(now: RaindropSystem, next: RaindropSystem, w: u16, h: u16)
    requires
        now.updated(&next, w, h),
        now.intensity == RainIntensity::Storm,
        h >= 2,
    ensures
        next.drops@.len() >= rain_target(RainIntensity::Storm, w),
{
    let stage = RainStage { width: w, height: h, intensity: now.intensity };
    lemma_survivors_conserved(now.drops@, stage, now.drops@.len() as int);
}

} // verus!
