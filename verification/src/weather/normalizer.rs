//! From a weather service's answer to a weather report.

use vstd::prelude::*;
use crate::weather::provider::WeatherProviderResponse;
use crate::weather::types::{WeatherCondition, WeatherData};

verus! {

/// Turns what a weather service reports into the library's terms.
pub struct WeatherNormalizer;

/// The kind of weather that a WMO weather code stands for; clear sky for
/// a code that the table does not hold.
pub open spec fn condition_of_code(code: int) -> WeatherCondition {
    if code == 0 {
        WeatherCondition::Clear
    } else if code == 1 || code == 2 {
        WeatherCondition::PartlyCloudy
    } else if code == 3 {
        WeatherCondition::Overcast
    } else if code == 45 || code == 48 {
        WeatherCondition::Fog
    } else if code == 51 || code == 53 || code == 55 {
        WeatherCondition::Drizzle
    } else if code == 56 || code == 57 || code == 66 || code == 67 {
        WeatherCondition::FreezingRain
    } else if code == 61 || code == 63 || code == 65 {
        WeatherCondition::Rain
    } else if code == 71 || code == 73 || code == 75 {
        WeatherCondition::Snow
    } else if code == 77 {
        WeatherCondition::SnowGrains
    } else if 80 <= code <= 82 {
        WeatherCondition::RainShowers
    } else if code == 85 || code == 86 {
        WeatherCondition::SnowShowers
    } else if code == 95 {
        WeatherCondition::Thunderstorm
    } else if code == 96 || code == 99 {
        WeatherCondition::ThunderstormHail
    } else {
        WeatherCondition::Clear
    }
}

impl WeatherNormalizer {
    /// The report for a service's answer: the kind of weather follows
    /// the code, it is day where the answer says 1, and every reading is
    /// taken as it is.
    pub fn normalize(response: WeatherProviderResponse) -> (data: WeatherData)
        ensures
            data.condition == condition_of_code(response.weather_code as int),
            data.is_day == (response.is_day == 1),
            data.temperature == response.temperature,
            data.apparent_temperature == response.apparent_temperature,
            data.humidity == response.humidity,
            data.precipitation == response.precipitation,
            data.wind_speed == response.wind_speed,
            data.wind_direction == response.wind_direction,
            data.cloud_cover == response.cloud_cover,
            data.pressure == response.pressure,
            data.visibility == response.visibility,
            data.moon_phase == response.moon_phase,
            data.timestamp == response.timestamp,
    {
        let condition = Self::wmo_code_to_condition(response.weather_code);
        WeatherData {
            condition,
            temperature: response.temperature,
            apparent_temperature: response.apparent_temperature,
            humidity: response.humidity,
            precipitation: response.precipitation,
            wind_speed: response.wind_speed,
            wind_direction: response.wind_direction,
            cloud_cover: response.cloud_cover,
            pressure: response.pressure,
            visibility: response.visibility,
            is_day: response.is_day == 1,
            moon_phase: response.moon_phase,
            timestamp: response.timestamp,
        }
    }

    /// The kind of weather for a WMO weather code.
    pub fn wmo_code_to_condition(code: i32) -> (condition: WeatherCondition)
        ensures
            condition == condition_of_code(code as int),
    {
        match code {
            0 => WeatherCondition::Clear,
            1 => WeatherCondition::PartlyCloudy,
            2 => WeatherCondition::PartlyCloudy,
            3 => WeatherCondition::Overcast,
            45 | 48 => WeatherCondition::Fog,
            51 | 53 | 55 => WeatherCondition::Drizzle,
            56 | 57 => WeatherCondition::FreezingRain,
            61 | 63 | 65 => WeatherCondition::Rain,
            66 | 67 => WeatherCondition::FreezingRain,
            71 | 73 | 75 => WeatherCondition::Snow,
            77 => WeatherCondition::SnowGrains,
            80..=82 => WeatherCondition::RainShowers,
            85 | 86 => WeatherCondition::SnowShowers,
            95 => WeatherCondition::Thunderstorm,
            96 | 99 => WeatherCondition::ThunderstormHail,
            _ => WeatherCondition::Clear,
        }
    }
}

} // verus!
