//! Which systems run in a frame, and in what order they are painted.

use vstd::prelude::*;
use crate::animation::airplanes::AirplaneSystem;
use crate::animation::birds::BirdSystem;
use crate::animation::chimney::ChimneySmoke;
use crate::animation::clouds::CloudSystem;
use crate::animation::controller::{sun_painted, Animation, AnimationController};
use crate::animation::fireflies::FireflySystem;
use crate::animation::fog::FogSystem;
use crate::animation::leaves::{leaf_start, FallingLeaves};
use crate::animation::moon::MoonSystem;
use crate::animation::raindrops::RaindropSystem;
use crate::animation::snow::SnowSystem;
use crate::animation::stars::StarSystem;
use crate::animation::sunny::SunnyAnimation;
use crate::animation::thunderstorm::ThunderstormSystem;
use crate::app_state::AppState;
use crate::random::RandomSource;
use crate::render::capabilities::{adapted, ColorSupport};
use crate::render::color::Color;
use crate::render::grid::{recolored, Cell, TerminalRenderer};
use crate::weather::types::{
    FogIntensity, RainIntensity, SnowIntensity, WeatherCondition, WeatherConditions,
};

verus! {

/// Milliseconds that a picture of the sun is shown.
pub const FRAME_DELAY_MILLIS: u64 = 500;

/// All the systems of the scene.
pub struct AnimationManager {
    pub raindrop_system: RaindropSystem,
    pub snow_system: SnowSystem,
    pub fog_system: FogSystem,
    pub thunderstorm_system: ThunderstormSystem,
    pub cloud_system: CloudSystem,
    pub bird_system: BirdSystem,
    pub airplane_system: AirplaneSystem,
    pub star_system: StarSystem,
    pub moon_system: MoonSystem,
    pub chimney_smoke: ChimneySmoke,
    pub firefly_system: FireflySystem,
    pub falling_leaves: FallingLeaves,
    pub sunny_animation: SunnyAnimation,
    pub animation_controller: AnimationController,
    pub show_leaves: bool,
}

/// Whether nothing falls from the sky.
pub open spec fn dry(conditions: WeatherConditions) -> bool {
    !conditions.is_raining && !conditions.is_thunderstorm && !conditions.is_snowing
}

/// The row where the ground begins.
pub open spec fn horizon_row(h: u16) -> u16 {
    if h >= 7 {
        (h - 7) as u16
    } else {
        0
    }
}

/// Whether the sky counts as clear for the clouds.
pub open spec fn clear_sky(state: AppState) -> bool {
    state.current_weather matches Some(weather) && weather.condition == WeatherCondition::Clear
}

/// The colour of a cloud that joins under the weather of `state`.
pub open spec fn new_cloud_color(state: AppState) -> Color {
    match state.current_weather {
        Some(weather) => if weather.condition == WeatherCondition::Clear {
            Color::White
        } else if weather.condition == WeatherCondition::PartlyCloudy {
            Color::Grey
        } else {
            Color::DarkGrey
        },
        None => Color::DarkGrey,
    }
}

/// Whether the stars and the moon are out.
pub open spec fn night_runs(conditions: WeatherConditions) -> bool {
    !conditions.is_day
}

/// Whether the fireflies are out.
pub open spec fn fireflies_run(conditions: WeatherConditions, state: AppState) -> bool {
    !conditions.is_day && state.fireflies_shown()
}

/// Whether the birds fly.
pub open spec fn birds_run(conditions: WeatherConditions) -> bool {
    dry(conditions) && conditions.is_day
}

/// Whether the sun is painted.
pub open spec fn sun_runs(conditions: WeatherConditions, state: AppState) -> bool {
    state.sun_shown() && dry(conditions)
}

/// Whether the clouds drift.
pub open spec fn clouds_run(conditions: WeatherConditions, state: AppState) -> bool {
    (conditions.is_cloudy || dry(conditions)) && (conditions.is_cloudy || clear_sky(state))
}

/// Whether airplanes fly.
pub open spec fn planes_run(conditions: WeatherConditions) -> bool {
    dry(conditions) && !conditions.is_foggy
}

/// Whether it rains on the scene, in a thunderstorm too.
pub open spec fn rain_runs(conditions: WeatherConditions) -> bool {
    conditions.is_thunderstorm || conditions.is_raining
}

/// Whether it snows on the scene.
pub open spec fn snow_runs(conditions: WeatherConditions) -> bool {
    !conditions.is_thunderstorm && !conditions.is_raining && conditions.is_snowing
}

/// What a tick makes of the clouds: they take the colour of the sky,
/// white under a clear one and dark grey otherwise, and then move on.
pub open spec fn clouds_ticked(
    now: CloudSystem,
    next: CloudSystem,
    state: AppState,
    w: u16,
    h: u16,
) -> bool {
    exists|tinted: CloudSystem|
        {
            &&& tinted.clouds@ == crate::animation::clouds::tinted(
                now.clouds@,
                if clear_sky(state) {
                    Color::White
                } else {
                    Color::DarkGrey
                },
            )
            &&& tinted.terminal_width == now.terminal_width
            &&& tinted.terminal_height == now.terminal_height
            &&& #[trigger] tinted.updated(&next, w, h, clear_sky(state), new_cloud_color(state))
        }
}

impl AnimationManager {
    /// Whether leaves fall.
    pub open spec fn leaves_run(&self, conditions: WeatherConditions) -> bool {
        self.show_leaves && dry(conditions)
    }

    /// The grid after the background of a frame is painted on it: by
    /// night the stars, the moon over them and the fireflies, by day
    /// the birds and the sun, then the clouds and the airplanes, each
    /// only in the weather that it belongs to.
    pub open spec fn background(
        &self,
        cells: Seq<Cell>,
        w: int,
        h: int,
        support: ColorSupport,
        conditions: WeatherConditions,
        state: AppState,
        term_height: u16,
    ) -> Seq<Cell> {
        let with_stars = if night_runs(conditions) {
            let stars = self.star_system.rendered(cells, w, h, support);
            self.moon_system.rendered(stars, w, h, support)
        } else {
            cells
        };
        let with_fireflies = if fireflies_run(conditions, state) {
            self.firefly_system.rendered(with_stars, w, h, support)
        } else {
            with_stars
        };
        let with_birds = if birds_run(conditions) {
            self.bird_system.rendered(with_fireflies, w, h, support)
        } else {
            with_fireflies
        };
        let with_sun = if sun_runs(conditions, state) {
            sun_painted(
                with_birds,
                w,
                h,
                support,
                self.sunny_animation.frames_spec()[self.animation_controller.current() as int % (
                self.sunny_animation.frames_spec().len() as int)],
                Color::Yellow,
                if term_height > 20 {
                    3
                } else {
                    2
                },
            )
        } else {
            with_birds
        };
        let with_clouds = if clouds_run(conditions, state) {
            self.cloud_system.rendered(with_sun, w, h, support)
        } else {
            with_sun
        };
        if planes_run(conditions) {
            self.airplane_system.rendered(with_clouds, w, h, support)
        } else {
            with_clouds
        }
    }

    /// What painting the background makes of the systems of the
    /// background: each of them that runs is a tick older, and the others
    /// are as they were.
    pub open spec fn background_moved(
        &self,
        next: &AnimationManager,
        conditions: WeatherConditions,
        state: AppState,
        w: u16,
        h: u16,
    ) -> bool {
        &&& if night_runs(conditions) {
            &&& self.star_system.updated(&next.star_system, w, h)
            &&& next.moon_system.phase() == self.moon_system.phase()
        } else {
            &&& next.star_system == self.star_system
            &&& next.moon_system == self.moon_system
        }
        &&& if fireflies_run(conditions, state) {
            self.firefly_system.updated(&next.firefly_system, w, h, horizon_row(h))
        } else {
            next.firefly_system == self.firefly_system
        }
        &&& if birds_run(conditions) {
            self.bird_system.updated(&next.bird_system, w, h)
        } else {
            next.bird_system == self.bird_system
        }
        &&& if clouds_run(conditions, state) {
            clouds_ticked(self.cloud_system, next.cloud_system, state, w, h)
        } else {
            next.cloud_system == self.cloud_system
        }
        &&& if planes_run(conditions) {
            self.airplane_system.updated(&next.airplane_system, w, h)
        } else {
            next.airplane_system == self.airplane_system
        }
    }

    /// Whether the systems of the background are the same in both.
    pub open spec fn same_background(&self, next: &AnimationManager) -> bool {
        &&& next.star_system == self.star_system
        &&& next.moon_system == self.moon_system
        &&& next.firefly_system == self.firefly_system
        &&& next.bird_system == self.bird_system
        &&& next.cloud_system == self.cloud_system
        &&& next.airplane_system == self.airplane_system
    }

    /// Whether the systems of the foreground are the same in both.
    pub open spec fn same_foreground(&self, next: &AnimationManager) -> bool {
        &&& next.raindrop_system == self.raindrop_system
        &&& next.snow_system == self.snow_system
        &&& next.fog_system == self.fog_system
        &&& next.thunderstorm_system == self.thunderstorm_system
        &&& next.falling_leaves == self.falling_leaves
    }

    /// Whether the sun and the setting for leaves are the same in both.
    pub open spec fn same_sun(&self, next: &AnimationManager) -> bool {
        &&& next.sunny_animation == self.sunny_animation
        &&& next.animation_controller == self.animation_controller
        &&& next.show_leaves == self.show_leaves
    }

    /// What painting the background makes of all the systems.
    pub open spec fn background_ticked(
        &self,
        next: &AnimationManager,
        conditions: WeatherConditions,
        state: AppState,
        w: u16,
        h: u16,
    ) -> bool {
        &&& self.background_moved(next, conditions, state, w, h)
        &&& self.same_foreground(next)
        &&& self.same_sun(next)
        &&& next.chimney_smoke == self.chimney_smoke
    }

    /// The grid after the foreground of a frame is painted on it: rain
    /// or snow, the bolts of a thunderstorm and its flash, fog, and
    /// falling leaves.
    pub open spec fn foreground(
        &self,
        cells: Seq<Cell>,
        w: int,
        h: int,
        support: ColorSupport,
        conditions: WeatherConditions,
    ) -> Seq<Cell> {
        let with_rain = if rain_runs(conditions) {
            self.raindrop_system.rendered(cells, w, h, support)
        } else if snow_runs(conditions) {
            self.snow_system.rendered(cells, w, h, support)
        } else {
            cells
        };
        let with_bolts = if conditions.is_thunderstorm {
            let bolts = self.thunderstorm_system.rendered(with_rain, w, h, support);
            if self.thunderstorm_system.flash_active {
                recolored(bolts, adapted(support, Color::White))
            } else {
                bolts
            }
        } else {
            with_rain
        };
        let with_fog = if conditions.is_foggy {
            self.fog_system.rendered(with_bolts, w, h, support)
        } else {
            with_bolts
        };
        if self.leaves_run(conditions) {
            self.falling_leaves.rendered(with_fog, w, h, support)
        } else {
            with_fog
        }
    }

    /// What painting the foreground makes of the systems of the
    /// foreground: each of them that runs is a tick older, and the others
    /// are as they were.
    pub open spec fn foreground_moved(
        &self,
        next: &AnimationManager,
        conditions: WeatherConditions,
        w: u16,
        h: u16,
    ) -> bool {
        &&& if rain_runs(conditions) {
            self.raindrop_system.updated(&next.raindrop_system, w, h)
        } else {
            next.raindrop_system == self.raindrop_system
        }
        &&& if conditions.is_thunderstorm {
            self.thunderstorm_system.updated(&next.thunderstorm_system, w, h)
        } else {
            next.thunderstorm_system == self.thunderstorm_system
        }
        &&& if snow_runs(conditions) {
            self.snow_system.updated(&next.snow_system, w, h)
        } else {
            next.snow_system == self.snow_system
        }
        &&& if conditions.is_foggy {
            self.fog_system.updated(&next.fog_system, w, h)
        } else {
            next.fog_system == self.fog_system
        }
        &&& if self.leaves_run(conditions) {
            self.falling_leaves.updated(&next.falling_leaves, w, h)
        } else {
            next.falling_leaves == self.falling_leaves
        }
    }

    /// What painting the foreground makes of all the systems.
    pub open spec fn foreground_ticked(
        &self,
        next: &AnimationManager,
        conditions: WeatherConditions,
        w: u16,
        h: u16,
    ) -> bool {
        &&& self.foreground_moved(next, conditions, w, h)
        &&& self.same_background(next)
        &&& self.same_sun(next)
        &&& next.chimney_smoke == self.chimney_smoke
    }

    /// What a frame makes of the chimney's smoke: it is a tick older
    /// unless rain falls on the chimney.
    pub open spec fn smoke_moved(
        &self,
        next: &AnimationManager,
        conditions: WeatherConditions,
        w: u16,
        h: u16,
    ) -> bool {
        if rain_runs(conditions) {
            next.chimney_smoke == self.chimney_smoke
        } else {
            self.chimney_smoke.updated(
                &next.chimney_smoke,
                Self::chimney_column(w) as u16,
                Self::chimney_row(h) as u16,
            )
        }
    }

    /// The grid after the chimney's smoke is painted on it.
    pub open spec fn smoke(
        &self,
        cells: Seq<Cell>,
        w: int,
        h: int,
        support: ColorSupport,
        conditions: WeatherConditions,
    ) -> Seq<Cell> {
        if rain_runs(conditions) {
            cells
        } else {
            self.chimney_smoke.rendered(cells, w, h, support)
        }
    }

    /// The column of the chimney's tip on a terminal `w` wide.
    pub open spec fn chimney_column(w: u16) -> int {
        (if w / 2 >= 32 {
            w / 2 - 32
        } else {
            0
        }) + 10
    }

    /// The row of the chimney's tip on a terminal `h` high.
    pub open spec fn chimney_row(h: u16) -> int {
        if horizon_row(h) >= 13 {
            horizon_row(h) - 13
        } else {
            0
        }
    }

    /// Every system at its start, for a terminal of the given size.
    pub fn new<R: RandomSource>(
        term_width: u16,
        term_height: u16,
        show_leaves: bool,
        rng: &mut R,
    ) -> (manager: AnimationManager)
        ensures
            manager.show_leaves == show_leaves,
            manager.raindrop_system.intensity == RainIntensity::Light,
            manager.raindrop_system.drops@.len() == 0,
            manager.raindrop_system.splashes@.len() == 0,
            manager.raindrop_system.wind_x == 100 || manager.raindrop_system.wind_x == -100,
            manager.snow_system.intensity == SnowIntensity::Light,
            manager.snow_system.flakes@.len() == 0,
            manager.snow_system.wind_x == 10 || manager.snow_system.wind_x == -10,
            manager.fog_system.intensity == FogIntensity::Light,
            manager.fog_system.wisps@.len() == 0,
            manager.fog_system.spawn_timer == 0,
            manager.thunderstorm_system.state
                == crate::animation::thunderstorm::LightningState::Idle,
            manager.thunderstorm_system.bolts@.len() == 0,
            manager.thunderstorm_system.timer == 0,
            60 <= manager.thunderstorm_system.next_strike_in < 180,
            !manager.thunderstorm_system.flash_active,
            manager.cloud_system.clouds@.len() == (if term_width / 20 > 1 {
                term_width as int / 20
            } else {
                1
            }),
            manager.bird_system.birds@.len() == 0,
            manager.airplane_system.planes@.len() == 0,
            manager.airplane_system.spawn_cooldown == 0,
            StarSystem::relaid(
                Seq::empty(),
                manager.star_system.stars@,
                term_width,
                term_height,
            ),
            manager.star_system.shooting_star is None,
            manager.chimney_smoke.particles@.len() == 0,
            manager.chimney_smoke.spawn_counter == 0,
            manager.chimney_smoke.spawn_rate == 8,
            manager.firefly_system.fireflies@.len() == 0,
            manager.falling_leaves.leaves@.len() == leaf_start(term_width),
            manager.falling_leaves.spawn_counter == 0,
            manager.falling_leaves.spawn_rate == 15,
            manager.moon_system.phase() == 500,
            manager.moon_system.x() == term_width / 4 + 10,
            manager.moon_system.y() == term_height / 4 + 2,
            manager.animation_controller.current() == 0,
            manager.raindrop_system.terminal_width == term_width,
            manager.raindrop_system.terminal_height == term_height,
            manager.snow_system.terminal_width == term_width,
            manager.snow_system.terminal_height == term_height,
            manager.fog_system.terminal_width == term_width,
            manager.fog_system.terminal_height == term_height,
            manager.thunderstorm_system.terminal_width == term_width,
            manager.thunderstorm_system.terminal_height == term_height,
            manager.cloud_system.terminal_width == term_width,
            manager.cloud_system.terminal_height == term_height,
            manager.bird_system.terminal_width == term_width,
            manager.bird_system.terminal_height == term_height,
            manager.airplane_system.terminal_width == term_width,
            manager.airplane_system.terminal_height == term_height,
            manager.star_system.terminal_width == term_width,
            manager.star_system.terminal_height == term_height,
            manager.firefly_system.terminal_width == term_width,
            manager.firefly_system.terminal_height == term_height,
            manager.falling_leaves.terminal_width == term_width,
            manager.falling_leaves.terminal_height == term_height,
    {
        AnimationManager {
            raindrop_system: RaindropSystem::new(
                term_width,
                term_height,
                RainIntensity::Light,
                rng,
            ),
            snow_system: SnowSystem::new(term_width, term_height, SnowIntensity::Light, rng),
            fog_system: FogSystem::new(term_width, term_height, FogIntensity::Light),
            thunderstorm_system: ThunderstormSystem::new(term_width, term_height, rng),
            cloud_system: CloudSystem::new(term_width, term_height, rng),
            bird_system: BirdSystem::new(term_width, term_height),
            airplane_system: AirplaneSystem::new(term_width, term_height),
            star_system: StarSystem::new(term_width, term_height, rng),
            moon_system: MoonSystem::new(term_width, term_height),
            chimney_smoke: ChimneySmoke::new(),
            firefly_system: FireflySystem::new(term_width, term_height),
            falling_leaves: FallingLeaves::new(term_width, term_height, rng),
            sunny_animation: SunnyAnimation::new(),
            animation_controller: AnimationController::new(),
            show_leaves,
        }
    }

    /// Changes the tier of the rain and sets the wind to the tier's own,
    /// in the direction that it had. Live drops stay.
    pub fn update_rain_intensity(&mut self, intensity: RainIntensity)
        ensures
            final(self).raindrop_system.intensity == intensity,
            old(self).raindrop_system.wind_x >= 0 ==> final(self).raindrop_system.wind_x
                == crate::animation::raindrops::base_wind(intensity),
            old(self).raindrop_system.wind_x < 0 ==> final(self).raindrop_system.wind_x
                == -crate::animation::raindrops::base_wind(intensity),
            final(self).raindrop_system.drops == old(self).raindrop_system.drops,
            final(self).raindrop_system.splashes == old(self).raindrop_system.splashes,
            final(self).raindrop_system.terminal_width == old(self).raindrop_system.terminal_width,
            final(self).raindrop_system.terminal_height == old(
                self
            ).raindrop_system.terminal_height,
            final(self).snow_system == old(self).snow_system,
            final(self).fog_system == old(self).fog_system,
            final(self).thunderstorm_system == old(self).thunderstorm_system,
            final(self).falling_leaves == old(self).falling_leaves,
            final(self).chimney_smoke == old(self).chimney_smoke,
            old(self).same_background(final(self)),
            old(self).same_sun(final(self)),
    {
        self.raindrop_system.set_intensity(intensity);
    }

    /// Changes the tier of the snow and sets the wind to the tier's own,
    /// in the direction that it had. Live flakes stay.
    pub fn update_snow_intensity(&mut self, intensity: SnowIntensity)
        ensures
            final(self).snow_system.intensity == intensity,
            old(self).snow_system.wind_x >= 0 ==> final(self).snow_system.wind_x
                == crate::animation::snow::snow_wind(intensity),
            old(self).snow_system.wind_x < 0 ==> final(self).snow_system.wind_x
                == -crate::animation::snow::snow_wind(intensity),
            final(self).snow_system.flakes == old(self).snow_system.flakes,
            final(self).snow_system.terminal_width == old(self).snow_system.terminal_width,
            final(self).snow_system.terminal_height == old(self).snow_system.terminal_height,
            final(self).raindrop_system == old(self).raindrop_system,
            final(self).fog_system == old(self).fog_system,
            final(self).thunderstorm_system == old(self).thunderstorm_system,
            final(self).falling_leaves == old(self).falling_leaves,
            final(self).chimney_smoke == old(self).chimney_smoke,
            old(self).same_background(final(self)),
            old(self).same_sun(final(self)),
    {
        self.snow_system.set_intensity(intensity);
    }

    /// Sets the wind for rain and snow. Speed and direction are given in
    /// thousandths, of kilometres an hour and of degrees.
    pub fn update_wind(&mut self, speed_kmh: i64, direction_deg: i64)
        ensures
            final(self).raindrop_system.intensity == old(self).raindrop_system.intensity,
            final(self).raindrop_system.drops == old(self).raindrop_system.drops,
            final(self).raindrop_system.splashes == old(self).raindrop_system.splashes,
            final(self).raindrop_system.terminal_width == old(self).raindrop_system.terminal_width,
            final(self).raindrop_system.terminal_height == old(
                self
            ).raindrop_system.terminal_height,
            final(self).snow_system.intensity == old(self).snow_system.intensity,
            final(self).snow_system.flakes == old(self).snow_system.flakes,
            final(self).snow_system.terminal_width == old(self).snow_system.terminal_width,
            final(self).snow_system.terminal_height == old(self).snow_system.terminal_height,
            final(self).fog_system == old(self).fog_system,
            final(self).thunderstorm_system == old(self).thunderstorm_system,
            final(self).falling_leaves == old(self).falling_leaves,
            final(self).chimney_smoke == old(self).chimney_smoke,
            old(self).same_background(final(self)),
            old(self).same_sun(final(self)),
            final(self).raindrop_system.wind_x == crate::fixed::times(
                crate::fixed::trunc_div(speed_kmh as int, 40) as i64,
                (-crate::fixed::sin(crate::fixed::radians(direction_deg))) as i64,
            ),
            final(self).snow_system.wind_x == crate::fixed::times(
                crate::fixed::trunc_div(speed_kmh as int, 20) as i64,
                (-crate::fixed::sin(crate::fixed::radians(direction_deg))) as i64,
            ),
    {
        self.raindrop_system.set_wind(speed_kmh, direction_deg);
        self.snow_system.set_wind(speed_kmh, direction_deg);
    }

    /// Changes the tier of the fog. Live wisps stay.
    pub fn update_fog_intensity(&mut self, intensity: FogIntensity)
        ensures
            final(self).fog_system.intensity == intensity,
            final(self).fog_system.wisps == old(self).fog_system.wisps,
            final(self).fog_system.terminal_width == old(self).fog_system.terminal_width,
            final(self).fog_system.terminal_height == old(self).fog_system.terminal_height,
            final(self).fog_system.spawn_timer == old(self).fog_system.spawn_timer,
            final(self).raindrop_system == old(self).raindrop_system,
            final(self).snow_system == old(self).snow_system,
            final(self).thunderstorm_system == old(self).thunderstorm_system,
            final(self).falling_leaves == old(self).falling_leaves,
            final(self).chimney_smoke == old(self).chimney_smoke,
            old(self).same_background(final(self)),
            old(self).same_sun(final(self)),
    {
        self.fog_system.set_intensity(intensity);
    }

    /// Whether `next` is the manager with the tiers and the wind set as
    /// given and everything else as it was. Live particles stay.
    pub open spec fn tuned(
        &self,
        next: &AnimationManager,
        rain: RainIntensity,
        snow: SnowIntensity,
        fog: FogIntensity,
        wind_speed_kmh: i64,
        wind_direction_deg: i64,
    ) -> bool {
        &&& next.raindrop_system.intensity == rain
        &&& next.snow_system.intensity == snow
        &&& next.fog_system.intensity == fog
        &&& next.raindrop_system.wind_x == crate::fixed::times(
            crate::fixed::trunc_div(wind_speed_kmh as int, 40) as i64,
            (-crate::fixed::sin(crate::fixed::radians(wind_direction_deg))) as i64,
        )
        &&& next.snow_system.wind_x == crate::fixed::times(
            crate::fixed::trunc_div(wind_speed_kmh as int, 20) as i64,
            (-crate::fixed::sin(crate::fixed::radians(wind_direction_deg))) as i64,
        )
        &&& next.raindrop_system.drops == self.raindrop_system.drops
        &&& next.raindrop_system.splashes == self.raindrop_system.splashes
        &&& next.raindrop_system.terminal_width == self.raindrop_system.terminal_width
        &&& next.raindrop_system.terminal_height == self.raindrop_system.terminal_height
        &&& next.snow_system.flakes == self.snow_system.flakes
        &&& next.snow_system.terminal_width == self.snow_system.terminal_width
        &&& next.snow_system.terminal_height == self.snow_system.terminal_height
        &&& next.fog_system.wisps == self.fog_system.wisps
        &&& next.fog_system.terminal_width == self.fog_system.terminal_width
        &&& next.fog_system.terminal_height == self.fog_system.terminal_height
        &&& next.fog_system.spawn_timer == self.fog_system.spawn_timer
        &&& next.thunderstorm_system == self.thunderstorm_system
        &&& next.chimney_smoke == self.chimney_smoke
        &&& next.falling_leaves == self.falling_leaves
        &&& self.same_background(next)
        &&& self.same_sun(next)
    }

    /// Takes up a new weather report: the tiers follow the kind of
    /// weather and the wind follows the report. Live particles stay.
    pub fn retune(
        &mut self,
        condition: WeatherCondition,
        wind_speed_kmh: i64,
        wind_direction_deg: i64,
    )
        ensures
            old(self).tuned(
                final(self),
                condition.rain_tier(),
                condition.snow_tier(),
                condition.fog_tier(),
                wind_speed_kmh,
                wind_direction_deg,
            ),
    {
        self.update_rain_intensity(condition.rain_intensity());
        self.update_snow_intensity(condition.snow_intensity());
        self.update_fog_intensity(condition.fog_intensity());
        self.update_wind(wind_speed_kmh, wind_direction_deg);
    }

    /// Moves the systems of the background by a tick and paints them.
    pub fn render_background<R: RandomSource>(
        &mut self,
        renderer: &mut TerminalRenderer,
        conditions: &WeatherConditions,
        state: &AppState,
        term_width: u16,
        term_height: u16,
        rng: &mut R,
    )
        ensures
            final(renderer).same_frame(old(renderer)),
            old(self).background_ticked(final(self), *conditions, *state, term_width, term_height),
            final(renderer).cells() == final(self).background(
                old(renderer).cells(),
                old(renderer).width() as int,
                old(renderer).height() as int,
                old(renderer).support(),
                *conditions,
                *state,
                term_height,
            ),
    {
        let horizon_y: u16 = if term_height >= 7 {
            term_height - 7
        } else {
            0
        };
        let dry_sky = !conditions.is_raining && !conditions.is_thunderstorm
            && !conditions.is_snowing;
        if !conditions.is_day {
            self.star_system.update(term_width, term_height, rng);
            self.star_system.render(renderer);
            self.moon_system.update(term_width, term_height);
            self.moon_system.render(renderer);
            if state.should_show_fireflies() {
                self.firefly_system.update(term_width, term_height, horizon_y, rng);
                self.firefly_system.render(renderer);
            }
        }
        if dry_sky && conditions.is_day {
            self.bird_system.update(term_width, term_height, rng);
            self.bird_system.render(renderer);
        }
        if state.should_show_sun() && dry_sky {
            let animation_y: u16 = if term_height > 20 {
                3
            } else {
                2
            };
            self.animation_controller.render_frame(renderer, &self.sunny_animation, animation_y);
        }
        if conditions.is_cloudy || dry_sky {
            let (is_clear, cloud_color) = match state.current_weather {
                Some(weather) => match weather.condition {
                    WeatherCondition::Clear => (true, Color::White),
                    WeatherCondition::PartlyCloudy => (false, Color::Grey),
                    _ => (false, Color::DarkGrey),
                },
                None => (false, Color::DarkGrey),
            };
            if conditions.is_cloudy || is_clear {
                self.cloud_system.set_cloud_color(is_clear);
                let ghost tinted = self.cloud_system;
                self.cloud_system.update(term_width, term_height, is_clear, cloud_color, rng);
                proof {
                    assert(tinted.updated(
                        &self.cloud_system,
                        term_width,
                        term_height,
                        clear_sky(*state),
                        new_cloud_color(*state),
                    ));
                }
                self.cloud_system.render(renderer);
            }
        }
        if dry_sky && !conditions.is_foggy {
            self.airplane_system.update(term_width, term_height, rng);
            self.airplane_system.render(renderer);
        }
    }

    /// Moves the chimney's smoke by a tick and paints it, unless rain
    /// falls on the chimney.
    pub fn render_chimney_smoke<R: RandomSource>(
        &mut self,
        renderer: &mut TerminalRenderer,
        conditions: &WeatherConditions,
        term_width: u16,
        term_height: u16,
        rng: &mut R,
    )
        ensures
            final(renderer).same_frame(old(renderer)),
            old(self).smoke_moved(final(self), *conditions, term_width, term_height),
            final(renderer).cells() == final(self).smoke(
                old(renderer).cells(),
                old(renderer).width() as int,
                old(renderer).height() as int,
                old(renderer).support(),
                *conditions,
            ),
            old(self).same_background(final(self)),
            old(self).same_foreground(final(self)),
            old(self).same_sun(final(self)),
    {
        if conditions.is_raining || conditions.is_thunderstorm {
            return;
        }
        let horizon_y: u16 = if term_height >= 7 {
            term_height - 7
        } else {
            0
        };
        let half: u16 = term_width / 2;
        let house_x: u16 = if half >= 32 {
            half - 32
        } else {
            0
        };
        let house_y: u16 = if horizon_y >= 13 {
            horizon_y - 13
        } else {
            0
        };
        let chimney_x: u16 = house_x + 10;
        self.chimney_smoke.update(chimney_x, house_y, rng);
        self.chimney_smoke.render(renderer);
    }

    /// Moves the systems of the foreground by a tick and paints them.
    pub fn render_foreground<R: RandomSource>(
        &mut self,
        renderer: &mut TerminalRenderer,
        conditions: &WeatherConditions,
        term_width: u16,
        term_height: u16,
        rng: &mut R,
    )
        ensures
            final(renderer).same_frame(old(renderer)),
            old(self).foreground_ticked(final(self), *conditions, term_width, term_height),
            final(renderer).cells() == final(self).foreground(
                old(renderer).cells(),
                old(renderer).width() as int,
                old(renderer).height() as int,
                old(renderer).support(),
                *conditions,
            ),
    {
        if conditions.is_thunderstorm {
            self.raindrop_system.update(term_width, term_height, rng);
            self.raindrop_system.render(renderer);
            self.thunderstorm_system.update(term_width, term_height, rng);
            self.thunderstorm_system.render(renderer);
            if self.thunderstorm_system.is_flashing() {
                renderer.flash_screen();
            }
        } else if conditions.is_raining {
            self.raindrop_system.update(term_width, term_height, rng);
            self.raindrop_system.render(renderer);
        } else if conditions.is_snowing {
            self.snow_system.update(term_width, term_height, rng);
            self.snow_system.render(renderer);
        }
        if conditions.is_foggy {
            self.fog_system.update(term_width, term_height, rng);
            self.fog_system.render(renderer);
        }
        if self.show_leaves && !conditions.is_raining && !conditions.is_thunderstorm
            && !conditions.is_snowing {
            self.falling_leaves.update(term_width, term_height, rng);
            self.falling_leaves.render(renderer);
        }
    }

    /// Shows the sun's next picture if the current one has been shown
    /// for `elapsed_millis` long enough and nothing falls from the sky.
    /// Says whether it did.
    pub fn update_sunny_animation(
        &mut self,
        conditions: &WeatherConditions,
        elapsed_millis: u64,
    ) -> (advanced: bool)
        ensures
            advanced == (dry(*conditions) && elapsed_millis >= FRAME_DELAY_MILLIS),
            advanced ==> {
                let pictures = old(self).sunny_animation.frames_spec().len() as int;
                let shown = old(self).animation_controller.current() as int;
                final(self).animation_controller.current() == (shown % pictures + 1) % pictures
            },
            !advanced ==> final(self).animation_controller == old(self).animation_controller,
            final(self).sunny_animation == old(self).sunny_animation,
            final(self).show_leaves == old(self).show_leaves,
            final(self).chimney_smoke == old(self).chimney_smoke,
            old(self).same_background(final(self)),
            old(self).same_foreground(final(self)),
    {
        if !conditions.is_raining && !conditions.is_thunderstorm && !conditions.is_snowing
            && elapsed_millis >= FRAME_DELAY_MILLIS {
            self.animation_controller.next_frame(&self.sunny_animation);
            true
        } else {
            false
        }
    }
}

} // verus!
