//! What a weather service answers.

use vstd::prelude::*;

verus! {

/// The answer of a weather service, before it is put into the
/// library's terms. Every reading is a whole number of thousandths.
#[derive(Debug, Clone, PartialEq, Eq)]
pub struct WeatherProviderResponse {
    /// The WMO code of the weather.
    pub weather_code: i32,
    pub temperature: i64,
    pub apparent_temperature: i64,
    pub humidity: i64,
    pub precipitation: i64,
    pub wind_speed: i64,
    pub wind_direction: i64,
    pub cloud_cover: i64,
    pub pressure: i64,
    pub visibility: Option<i64>,
    /// 1 by day.
    pub is_day: i32,
    pub moon_phase: Option<i64>,
    pub timestamp: String,
}

} // verus!
