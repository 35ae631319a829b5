//! One frame of the scene: what is painted, and in what order.

use vstd::prelude::*;
use crate::animation_manager::AnimationManager;
use crate::app_state::{AppState, WeatherSummary};
use crate::fixed::{scale, scaled, UNIT};
use crate::random::{draw_unit, RandomSource};
use crate::render::capabilities::ColorSupport;
use crate::render::color::Color;
use crate::render::grid::{blank_cells, Cell, TerminalRenderer};
use crate::render::stamp::{row_stamped, Opaque};
use crate::scene::world::WorldScene;
use crate::weather::types::WeatherCondition;

verus! {

/// What a key press asks for.
#[derive(Debug, Clone, Copy, PartialEq, Eq, Structural)]
pub enum KeyAction {
    Quit,
    Ignore,
}

/// What a key asks for: `q`, in either case, and `c` with the control
/// key quit the program.
pub fn key_action(key: char, control: bool) -> (action: KeyAction)
    ensures
        action == if key == 'q' || key == 'Q' || (key == 'c' && control) {
            KeyAction::Quit
        } else {
            KeyAction::Ignore
        },
{
    if key == 'q' || key == 'Q' || (key == 'c' && control) {
        KeyAction::Quit
    } else {
        KeyAction::Ignore
    }
}

/// Whether an hour of the day counts as day: from six in the morning to
/// six in the evening.
pub fn is_daytime(hour: u32) -> (day: bool)
    ensures
        day == (6 <= hour < 18),
{
    6 <= hour && hour < 18
}

/// The kind of weather that is shown when none can be fetched: one of
/// four mild kinds, picked by a random word.
pub open spec fn offline_kind(word: u32) -> WeatherCondition {
    if word % 4 == 0 {
        WeatherCondition::Clear
    } else if word % 4 == 1 {
        WeatherCondition::PartlyCloudy
    } else if word % 4 == 2 {
        WeatherCondition::Cloudy
    } else {
        WeatherCondition::Rain
    }
}

/// The kind of weather that is shown when none can be fetched.
pub fn offline_condition(word: u32) -> (condition: WeatherCondition)
    ensures
        condition == offline_kind(word),
{
    let pick: u32 = word % 4;
    if pick == 0 {
        WeatherCondition::Clear
    } else if pick == 1 {
        WeatherCondition::PartlyCloudy
    } else if pick == 2 {
        WeatherCondition::Cloudy
    } else {
        WeatherCondition::Rain
    }
}

/// The random numbers that make up a report.
#[derive(Clone, Copy, Debug)]
pub struct OfflineDraws {
    /// Any word; decides the kind of weather.
    pub kind: u32,
    /// A fraction of the span of temperatures.
    pub temperature: u32,
    /// A fraction of the span of rainfall.
    pub precipitation: u32,
    /// A fraction of the span of wind speeds.
    pub wind_speed: u32,
    /// A fraction of a full turn: where the wind comes from.
    pub wind_direction: u32,
}

impl OfflineDraws {
    /// Whether the fractions are fractions.
    pub open spec fn fits(self) -> bool {
        &&& self.temperature < UNIT
        &&& self.precipitation < UNIT
        &&& self.wind_speed < UNIT
        &&& self.wind_direction < UNIT
    }
}

/// The report that is made up from random numbers at an hour of the
/// day: between 10 and 25 degrees, wind of 5 to 15 from anywhere, and
/// 1 to 5 millimetres of rain where the kind of weather is rain.
pub open spec fn offline_report(draws: OfflineDraws, hour: u32) -> WeatherSummary {
    let condition = offline_kind(draws.kind);
    WeatherSummary {
        condition,
        is_day: 6 <= hour < 18,
        temperature: (10_000 + scaled(draws.temperature, 15_000)) as i64,
        wind_speed: (5_000 + scaled(draws.wind_speed, 10_000)) as i64,
        wind_direction: scaled(draws.wind_direction, 360_000),
        precipitation: if condition.rains() {
            (1_000 + scaled(draws.precipitation, 4_000)) as i64
        } else {
            0
        },
    }
}

/// Makes up a report from the random numbers given.
pub fn offline_weather(draws: OfflineDraws, hour: u32) -> (weather: WeatherSummary)
    ensures
        weather == offline_report(draws, hour),
{
    let condition = offline_condition(draws.kind);
    let precipitation: i64 = if condition.is_raining() {
        1_000 + scale(draws.precipitation, 4_000)
    } else {
        0
    };
    WeatherSummary {
        condition,
        is_day: is_daytime(hour),
        temperature: 10_000 + scale(draws.temperature, 15_000),
        wind_speed: 5_000 + scale(draws.wind_speed, 10_000),
        wind_direction: scale(draws.wind_direction, 360_000),
        precipitation,
    }
}

/// Makes up a report on random numbers from `rng`; see
/// [`offline_report`].
pub fn generate_offline_weather<R: RandomSource>(rng: &mut R, hour: u32) -> (weather:
    WeatherSummary)
    ensures
        exists|draws: OfflineDraws|
            #[trigger] draws.fits() && weather == offline_report(draws, hour),
        weather.is_day == (6 <= hour < 18),
        10_000 <= weather.temperature < 25_000,
        5_000 <= weather.wind_speed < 15_000,
        0 <= weather.wind_direction < 360_000,
        weather.condition.rains() ==> 1_000 <= weather.precipitation < 5_000,
        !weather.condition.rains() ==> weather.precipitation == 0,
{
    let kind = rng.next_u32();
    let temperature = draw_unit(rng);
    let precipitation = if offline_condition(kind).is_raining() {
        draw_unit(rng)
    } else {
        0
    };
    let wind_speed = draw_unit(rng);
    let wind_direction = draw_unit(rng);
    let draws = OfflineDraws { kind, temperature, precipitation, wind_speed, wind_direction };
    assert(draws.fits());
    offline_weather(draws, hour)
}

/// The report that a kind of weather is shown with when it is asked
/// for by name: twenty degrees, a south-west wind that is stronger in a
/// thunderstorm, and rainfall where it rains.
pub open spec fn simulated(condition: WeatherCondition, night: bool) -> WeatherSummary {
    WeatherSummary {
        condition,
        is_day: !night,
        temperature: 20_000,
        wind_speed: if condition.thunders() {
            45_000
        } else {
            10_000
        },
        wind_direction: 225_000,
        precipitation: if condition.rains() {
            2_500
        } else {
            0
        },
    }
}

/// The report for a kind of weather that is asked for by name.
pub fn simulated_weather(condition: WeatherCondition, night: bool) -> (weather: WeatherSummary)
    ensures
        weather == simulated(condition, night),
{
    WeatherSummary {
        condition,
        is_day: !night,
        temperature: 20_000,
        wind_speed: if condition.is_thunderstorm() {
            45_000
        } else {
            10_000
        },
        wind_direction: 225_000,
        precipitation: if condition.is_raining() {
            2_500
        } else {
            0
        },
    }
}

/// Sets the scene for a kind of weather that is asked for by name: the
/// state takes up its report, and rain, snow and wind follow it. The fog
/// keeps its tier.
pub fn simulate(
    state: &mut AppState,
    animations: &mut AnimationManager,
    condition: WeatherCondition,
    night: bool,
)
    ensures
        *final(state) == old(state).with_weather(simulated(condition, night)),
        old(animations).tuned(
            final(animations),
            condition.rain_tier(),
            condition.snow_tier(),
            old(animations).fog_system.intensity,
            simulated(condition, night).wind_speed,
            simulated(condition, night).wind_direction,
        ),
{
    let weather = simulated_weather(condition, night);
    state.update_weather(weather);
    animations.update_rain_intensity(condition.rain_intensity());
    animations.update_snow_intensity(condition.snow_intensity());
    animations.update_wind(weather.wind_speed, weather.wind_direction);
}

/// Whether `state` and `animations` become `next_state` and
/// `next_animations` when `weather` is taken up: the state holds the
/// report, and every tier and the wind follow it.
pub open spec fn taken_up(
    state: AppState,
    animations: AnimationManager,
    next_state: AppState,
    next_animations: AnimationManager,
    weather: WeatherSummary,
) -> bool {
    &&& next_state == state.with_weather(weather)
    &&& animations.tuned(
        &next_animations,
        weather.condition.rain_tier(),
        weather.condition.snow_tier(),
        weather.condition.fog_tier(),
        weather.wind_speed,
        weather.wind_direction,
    )
}

/// Takes up a report; see [`taken_up`].
pub fn take_up(state: &mut AppState, animations: &mut AnimationManager, weather: WeatherSummary)
    ensures
        taken_up(*old(state), *old(animations), *final(state), *final(animations), weather),
{
    state.update_weather(weather);
    animations.retune(weather.condition, weather.wind_speed, weather.wind_direction);
}

/// Takes up what a try to fetch the weather has brought, at an hour of
/// the day.
///
/// A report is taken up as it is. After a failure the weather that is
/// shown stays and counts as out of date; where none is shown yet, one
/// is made up on random numbers from `rng` and taken up in its place.
pub fn take_report<R: RandomSource>(
    state: &mut AppState,
    animations: &mut AnimationManager,
    report: Option<WeatherSummary>,
    hour: u32,
    rng: &mut R,
)
    ensures
        report matches Some(weather) ==> taken_up(
            *old(state),
            *old(animations),
            *final(state),
            *final(animations),
            weather,
        ),
        report is None && old(state).current_weather is Some ==> {
            &&& *final(state) == old(state).with_offline(true)
            &&& *final(animations) == *old(animations)
        },
        report is None && old(state).current_weather is None ==> (exists|draws: OfflineDraws|
            #[trigger] draws.fits() && taken_up(
                *old(state),
                *old(animations),
                old(state).with_weather(offline_report(draws, hour)),
                *final(animations),
                offline_report(draws, hour),
            ) && *final(state) == old(state).with_weather(
                offline_report(draws, hour),
            ).with_offline(true)),
{
    match report {
        Some(weather) => {
            take_up(state, animations, weather);
        },
        None => {
            if state.current_weather.is_none() {
                let weather = generate_offline_weather(rng, hour);
                take_up(state, animations, weather);
            }
            state.set_offline_mode(true);
        },
    }
}

/// The grid of a frame, painted from a blank one in layers: the sky and
/// what moves in it, the backdrop, the chimney's smoke, what falls from
/// the sky, and last the status line in its second row unless it is
/// hidden. A later layer covers an earlier one.
pub open spec fn frame_cells(
    animations: AnimationManager,
    scene: WorldScene,
    state: AppState,
    hide_hud: bool,
    w: u16,
    h: u16,
    support: ColorSupport,
) -> Seq<Cell> {
    let conditions = state.weather_conditions;
    let sky = animations.background(
        blank_cells(w * h),
        w as int,
        h as int,
        support,
        conditions,
        state,
        h,
    );
    let land = scene.rendered(sky, w as int, h as int, support, conditions.is_day);
    let smoke = animations.smoke(land, w as int, h as int, support, conditions);
    let weather = animations.foreground(smoke, w as int, h as int, support, conditions);
    if hide_hud {
        weather
    } else {
        row_stamped(
            weather,
            w as int,
            h as int,
            support,
            Opaque { color: Color::Cyan },
            0,
            state.cached_weather_info@,
            2,
            1,
            state.cached_weather_info@.len() as int,
        )
    }
}

/// Moves every system that the weather calls for by a tick and paints
/// the frame; see [`frame_cells`]. What the terminal shows does not
/// change before the next flush.
pub fn paint_frame<R: RandomSource>(
    renderer: &mut TerminalRenderer,
    animations: &mut AnimationManager,
    scene: &WorldScene,
    state: &AppState,
    hide_hud: bool,
    rng: &mut R,
)
    ensures
        final(renderer).same_frame(old(renderer)),
        old(animations).background_moved(
            final(animations),
            state.weather_conditions,
            *state,
            old(renderer).width(),
            old(renderer).height(),
        ),
        old(animations).smoke_moved(
            final(animations),
            state.weather_conditions,
            old(renderer).width(),
            old(renderer).height(),
        ),
        old(animations).foreground_moved(
            final(animations),
            state.weather_conditions,
            old(renderer).width(),
            old(renderer).height(),
        ),
        old(animations).same_sun(final(animations)),
        final(renderer).cells() == frame_cells(
            *final(animations),
            *scene,
            *state,
            hide_hud,
            old(renderer).width(),
            old(renderer).height(),
            old(renderer).support(),
        ),
{
    renderer.clear();
    let (term_width, term_height) = renderer.get_size();
    let conditions = state.weather_conditions;
    animations.render_background(renderer, &conditions, state, term_width, term_height, rng);
    scene.render(renderer, &conditions);
    animations.render_chimney_smoke(renderer, &conditions, term_width, term_height, rng);
    animations.render_foreground(renderer, &conditions, term_width, term_height, rng);
    if !hide_hud {
        renderer.render_line_colored(2, 1, state.cached_weather_info.as_str(), Color::Cyan);
    }
}

} // verus!
