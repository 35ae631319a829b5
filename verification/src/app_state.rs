//! What the program knows about the weather at the moment, and what
//! follows from it for the scene.

use vstd::prelude::*;
use vstd::string::StringExecFns;
use crate::text::{one_place, push_char, push_one_place, push_two_places, two_places};
use crate::weather::types::{
    WeatherCondition, WeatherConditions, WeatherData, WeatherLocation, WeatherUnits,
};
use crate::weather::units::{
    format_precipitation, format_temperature, format_wind_speed, precipitation_sign,
    shown_precipitation, shown_temperature, shown_wind_speed, temperature_sign, wind_speed_sign,
};

verus! {

/// The part of a weather report that the scene and the status line
/// depend on.
#[derive(Debug, Clone, Copy, PartialEq, Eq, Structural)]
pub struct WeatherSummary {
    pub condition: WeatherCondition,
    pub is_day: bool,
    /// Thousandths of a degree Celsius.
    pub temperature: i64,
    /// Thousandths of a metre a second.
    pub wind_speed: i64,
    /// Thousandths of a degree.
    pub wind_direction: i64,
    /// Thousandths of a millimetre.
    pub precipitation: i64,
}

impl WeatherData {
    /// The part of the report that the scene and the status line depend
    /// on.
    pub fn summary(&self) -> (part: WeatherSummary)
        ensures
            part == (WeatherSummary {
                condition: self.condition,
                is_day: self.is_day,
                temperature: self.temperature,
                wind_speed: self.wind_speed,
                wind_direction: self.wind_direction,
                precipitation: self.precipitation,
            }),
    {
        WeatherSummary {
            condition: self.condition,
            is_day: self.is_day,
            temperature: self.temperature,
            wind_speed: self.wind_speed,
            wind_direction: self.wind_direction,
            precipitation: self.precipitation,
        }
    }
}

/// The spinner that is shown while the first report is awaited.
pub struct LoadingState {
    pub frame: usize,
    pub loading_chars: [char; 4],
}

/// The state of the program between frames.
pub struct AppState {
    pub current_weather: Option<WeatherSummary>,
    pub is_offline: bool,
    pub weather_conditions: WeatherConditions,
    pub loading_state: LoadingState,
    pub cached_weather_info: String,
    pub weather_info_needs_update: bool,
    pub location: WeatherLocation,
    pub hide_location: bool,
    pub units: WeatherUnits,
}

/// The name of a kind of weather.
pub open spec fn condition_name(condition: WeatherCondition) -> Seq<char> {
    match condition {
        WeatherCondition::Clear => "Clear"@,
        WeatherCondition::Cloudy => "Cloudy"@,
        WeatherCondition::PartlyCloudy => "Partly Cloudy"@,
        WeatherCondition::Overcast => "Overcast"@,
        WeatherCondition::Fog => "Fog"@,
        WeatherCondition::Drizzle => "Drizzle"@,
        WeatherCondition::FreezingRain => "Freezing Rain"@,
        WeatherCondition::Rain => "Rain"@,
        WeatherCondition::Snow => "Snow"@,
        WeatherCondition::SnowGrains => "Snow Grains"@,
        WeatherCondition::RainShowers => "Rain Showers"@,
        WeatherCondition::SnowShowers => "Snow Showers"@,
        WeatherCondition::Thunderstorm => "Thunderstorm"@,
        WeatherCondition::ThunderstormHail => "Thunderstorm with Hail"@,
    }
}

/// The four characters of the spinner.
pub open spec fn spinner() -> Seq<char> {
    seq!['|', '/', '-', '\\']
}

impl LoadingState {
    /// The spinner at its first character.
    pub fn new() -> (state: LoadingState)
        ensures
            state.frame == 0,
            state.loading_chars@ == spinner(),
    {
        let state = LoadingState { frame: 0, loading_chars: ['|', '/', '-', '\\'] };
        state
    }

    /// Whether the spinner is due to turn, `elapsed_millis` after it
    /// last did: every tenth of a second.
    pub fn should_update(&self, elapsed_millis: u64) -> (due: bool)
        ensures
            due == (elapsed_millis >= 100),
    {
        elapsed_millis >= 100
    }

    /// Turns the spinner by one character.
    pub fn next_frame(&mut self)
        ensures
            final(self).frame == (old(self).frame % 4 + 1) % 4,
            final(self).loading_chars == old(self).loading_chars,
    {
        self.frame = (self.frame % 4 + 1) % 4;
    }

    /// The character that the spinner shows.
    pub fn current_char(&self) -> (ch: char)
        ensures
            ch == self.loading_chars@[self.frame as int % 4],
    {
        self.loading_chars[self.frame % 4]
    }
}

impl AppState {
    /// The state before the first report.
    pub fn new(location: WeatherLocation, hide_location: bool, units: WeatherUnits) -> (state:
        AppState)
        ensures
            state.current_weather is None,
            !state.is_offline,
            state.weather_conditions == (WeatherConditions {
                is_raining: false,
                is_snowing: false,
                is_thunderstorm: false,
                is_cloudy: false,
                is_foggy: false,
                is_day: true,
            }),
            state.loading_state.frame == 0,
            state.loading_state.loading_chars@ == spinner(),
            state.cached_weather_info@.len() == 0,
            state.weather_info_needs_update,
            state.location == location,
            state.hide_location == hide_location,
            state.units == units,
    {
        AppState {
            current_weather: None,
            is_offline: false,
            weather_conditions: WeatherConditions::default(),
            loading_state: LoadingState::new(),
            cached_weather_info: String::new(),
            weather_info_needs_update: true,
            location,
            hide_location,
            units,
        }
    }

    /// The state after a report is taken up: the flags follow the kind
    /// of weather, a thunderstorm's rain counting as thunderstorm alone,
    /// the program is online again, and a new status line is due.
    pub open spec fn with_weather(self, weather: WeatherSummary) -> AppState {
        AppState {
            weather_conditions: WeatherConditions::of(weather.condition, weather.is_day),
            current_weather: Some(weather),
            is_offline: false,
            weather_info_needs_update: true,
            ..self
        }
    }

    /// The state after it is noted whether the weather shown is made
    /// up: a new status line is due.
    pub open spec fn with_offline(self, offline: bool) -> AppState {
        AppState { is_offline: offline, weather_info_needs_update: true, ..self }
    }

    /// Takes up a report; see [`AppState::with_weather`].
    pub fn update_weather(&mut self, weather: WeatherSummary)
        ensures
            *final(self) == old(self).with_weather(weather),
            final(self).weather_conditions.exclusive(),
    {
        self.weather_conditions = WeatherConditions::from_condition(
            weather.condition,
            weather.is_day,
        );
        self.current_weather = Some(weather);
        self.is_offline = false;
        self.weather_info_needs_update = true;
    }

    /// Notes whether the weather shown is made up, and asks for a new
    /// status line.
    pub fn set_offline_mode(&mut self, offline: bool)
        ensures
            *final(self) == old(self).with_offline(offline),
    {
        self.is_offline = offline;
        self.weather_info_needs_update = true;
    }

    /// Turns the spinner if it is due, `elapsed_millis` after it last
    /// turned, and says whether it did.
    pub fn update_loading_animation(&mut self, elapsed_millis: u64) -> (turned: bool)
        ensures
            turned == (elapsed_millis >= 100),
            turned ==> final(self).loading_state.frame == (old(self).loading_state.frame % 4 + 1)
                % 4 && final(self).weather_info_needs_update,
            !turned ==> final(self).loading_state.frame == old(self).loading_state.frame,
            !turned ==> final(self).weather_info_needs_update == old(
                self
            ).weather_info_needs_update,
            final(self).loading_state.loading_chars == old(self).loading_state.loading_chars,
            final(self).current_weather == old(self).current_weather,
            final(self).is_offline == old(self).is_offline,
            final(self).weather_conditions == old(self).weather_conditions,
            final(self).cached_weather_info == old(self).cached_weather_info,
            final(self).location == old(self).location,
            final(self).hide_location == old(self).hide_location,
            final(self).units == old(self).units,
    {
        if self.loading_state.should_update(elapsed_millis) {
            self.loading_state.next_frame();
            self.weather_info_needs_update = true;
            true
        } else {
            false
        }
    }

    /// The name of the weather, or "Loading" before the first report.
    pub fn get_condition_text(&self) -> (text: &'static str)
        ensures
            text@ == match self.current_weather {
                Some(weather) => condition_name(weather.condition),
                None => "Loading"@,
            },
    {
        match self.current_weather {
            Some(weather) => match weather.condition {
                WeatherCondition::Clear => "Clear",
                WeatherCondition::Cloudy => "Cloudy",
                WeatherCondition::PartlyCloudy => "Partly Cloudy",
                WeatherCondition::Overcast => "Overcast",
                WeatherCondition::Fog => "Fog",
                WeatherCondition::Drizzle => "Drizzle",
                WeatherCondition::FreezingRain => "Freezing Rain",
                WeatherCondition::Rain => "Rain",
                WeatherCondition::Snow => "Snow",
                WeatherCondition::SnowGrains => "Snow Grains",
                WeatherCondition::RainShowers => "Rain Showers",
                WeatherCondition::SnowShowers => "Snow Showers",
                WeatherCondition::Thunderstorm => "Thunderstorm",
                WeatherCondition::ThunderstormHail => "Thunderstorm with Hail",
            },
            None => "Loading",
        }
    }

    /// The place as the status line gives it: both angles with two
    /// decimal places, each with its side of the equator or of the prime
    /// meridian; nothing where the place is kept back.
    pub open spec fn location_text(&self) -> Seq<char> {
        if self.hide_location {
            Seq::<char>::empty()
        } else {
            " | Location: "@ + two_places(self.location.latitude) + (if self.location.latitude
                >= 0 {
                "\u{b0}N, "@
            } else {
                "\u{b0}S, "@
            }) + two_places(self.location.longitude) + (if self.location.longitude >= 0 {
                "\u{b0}E"@
            } else {
                "\u{b0}W"@
            })
        }
    }

    /// The readings of a report, as the status line gives them: each in
    /// the unit that was asked for, with one decimal place.
    pub open spec fn readings_text(&self, weather: WeatherSummary) -> Seq<char> {
        " | Temp: "@ + one_place(shown_temperature(weather.temperature, self.units.temperature))
            + temperature_sign(self.units.temperature) + " | Wind: "@ + one_place(
            shown_wind_speed(weather.wind_speed, self.units.wind_speed),
        ) + wind_speed_sign(self.units.wind_speed) + " | Precip: "@ + one_place(
            shown_precipitation(weather.precipitation, self.units.precipitation),
        ) + precipitation_sign(self.units.precipitation)
    }

    /// The status line for the state.
    pub open spec fn status_line(&self) -> Seq<char> {
        match self.current_weather {
            Some(weather) => (if self.is_offline {
                "OFFLINE | "@
            } else {
                Seq::<char>::empty()
            }) + "Weather: "@ + condition_name(weather.condition) + self.readings_text(weather)
                + self.location_text() + " | Press 'q' to quit"@,
            None => "Weather: Loading... "@.push(
                self.loading_state.loading_chars@[self.loading_state.frame as int % 4],
            ),
        }
    }

    fn push_location(&self, text: &mut String)
        ensures
            final(text)@ == old(text)@ + self.location_text(),
    {
        if self.hide_location {
            return;
        }
        text.append(" | Location: ");
        push_two_places(text, self.location.latitude);
        if self.location.latitude >= 0 {
            text.append("\u{b0}N, ");
        } else {
            text.append("\u{b0}S, ");
        }
        push_two_places(text, self.location.longitude);
        if self.location.longitude >= 0 {
            text.append("\u{b0}E");
        } else {
            text.append("\u{b0}W");
        }
    }

    fn push_readings(&self, text: &mut String, weather: WeatherSummary)
        ensures
            final(text)@ == old(text)@ + self.readings_text(weather),
    {
        let (temp, temp_unit) = format_temperature(weather.temperature, self.units.temperature);
        let (wind, wind_unit) = format_wind_speed(weather.wind_speed, self.units.wind_speed);
        let (precip, precip_unit) = format_precipitation(
            weather.precipitation,
            self.units.precipitation,
        );
        text.append(" | Temp: ");
        push_one_place(text, temp);
        text.append(temp_unit);
        text.append(" | Wind: ");
        push_one_place(text, wind);
        text.append(wind_unit);
        text.append(" | Precip: ");
        push_one_place(text, precip);
        text.append(precip_unit);
    }

    /// Brings the status line up to date if anything has changed since
    /// it was made.
    pub fn update_cached_info(&mut self)
        ensures
            !final(self).weather_info_needs_update,
            old(self).weather_info_needs_update ==> final(self).cached_weather_info@ == old(
                self
            ).status_line(),
            !old(self).weather_info_needs_update ==> final(self).cached_weather_info@ == old(
                self
            ).cached_weather_info@,
            final(self).current_weather == old(self).current_weather,
            final(self).is_offline == old(self).is_offline,
            final(self).weather_conditions == old(self).weather_conditions,
            final(self).loading_state == old(self).loading_state,
            final(self).location == old(self).location,
            final(self).hide_location == old(self).hide_location,
            final(self).units == old(self).units,
    {
        if !self.weather_info_needs_update {
            return;
        }
        let text = match self.current_weather {
            Some(weather) => {
                let mut text = if self.is_offline {
                    String::from_str("OFFLINE | ")
                } else {
                    String::new()
                };
                text.append("Weather: ");
                text.append(self.get_condition_text());
                self.push_readings(&mut text, weather);
                self.push_location(&mut text);
                text.append(" | Press 'q' to quit");
                text
            },
            None => {
                let mut text = String::from_str("Weather: Loading... ");
                let spin = self.loading_state.current_char();
                push_char(&mut text, spin);
                text
            },
        };
        self.cached_weather_info = text;
        self.weather_info_needs_update = false;
    }

    /// Whether the sun is shown: by day, under a clear or cloudy sky.
    pub open spec fn sun_shown(&self) -> bool {
        &&& self.weather_conditions.is_day
        &&& self.current_weather matches Some(weather)
        &&& (weather.condition == WeatherCondition::Clear || weather.condition
            == WeatherCondition::PartlyCloudy || weather.condition == WeatherCondition::Cloudy)
    }

    /// Whether fireflies are out: on a night warmer than fifteen
    /// degrees, under a sky that is clear or nearly so, when nothing
    /// falls from it.
    pub open spec fn fireflies_shown(&self) -> bool {
        &&& !self.weather_conditions.is_day
        &&& self.current_weather matches Some(weather)
        &&& weather.temperature > 15_000
        &&& (weather.condition == WeatherCondition::Clear || weather.condition
            == WeatherCondition::PartlyCloudy)
        &&& !self.weather_conditions.is_raining
        &&& !self.weather_conditions.is_thunderstorm
        &&& !self.weather_conditions.is_snowing
    }

    /// Whether the sun is in the sky.
    pub fn should_show_sun(&self) -> (shown: bool)
        ensures
            shown == self.sun_shown(),
    {
        if !self.weather_conditions.is_day {
            return false;
        }
        match self.current_weather {
            Some(weather) => match weather.condition {
                WeatherCondition::Clear
                | WeatherCondition::PartlyCloudy
                | WeatherCondition::Cloudy => true,
                _ => false,
            },
            None => false,
        }
    }

    /// Whether fireflies are about.
    pub fn should_show_fireflies(&self) -> (shown: bool)
        ensures
            shown == self.fireflies_shown(),
    {
        if self.weather_conditions.is_day {
            return false;
        }
        match self.current_weather {
            Some(weather) => {
                let is_warm = weather.temperature > 15_000;
                let is_clear_night = match weather.condition {
                    WeatherCondition::Clear | WeatherCondition::PartlyCloudy => true,
                    _ => false,
                };
                is_warm && is_clear_night && !self.weather_conditions.is_raining
                    && !self.weather_conditions.is_thunderstorm
                    && !self.weather_conditions.is_snowing
            },
            None => false,
        }
    }
}

} // verus!
