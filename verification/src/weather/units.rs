//! Readings from one unit to another, and the unit's sign in the status
//! line. Every reading is a whole number of thousandths, and a result is
//! rounded towards zero.

use vstd::prelude::*;
use crate::fixed::{clamp_i64, proportion, ratio, sat_add, sat_sub};
use crate::weather::types::{PrecipitationUnit, TemperatureUnit, WindSpeedUnit};

verus! {

/// Degrees Fahrenheit for degrees Celsius: nine fifths, and 32 more.
pub open spec fn fahrenheit_of(celsius: i64) -> i64 {
    clamp_i64(proportion(celsius, 9, 5) + 32_000) as i64
}

/// Degrees Celsius for degrees Fahrenheit: 32 less, and five ninths.
pub open spec fn celsius_of(fahrenheit: i64) -> i64 {
    proportion(clamp_i64(fahrenheit - 32_000) as i64, 5, 9)
}

/// A temperature in the unit asked for, from degrees Celsius.
pub open spec fn shown_temperature(celsius: i64, unit: TemperatureUnit) -> i64 {
    match unit {
        TemperatureUnit::Celsius => celsius,
        TemperatureUnit::Fahrenheit => fahrenheit_of(celsius),
    }
}

/// A wind speed in the unit asked for, from metres a second.
pub open spec fn shown_wind_speed(ms: i64, unit: WindSpeedUnit) -> i64 {
    match unit {
        WindSpeedUnit::Ms => ms,
        WindSpeedUnit::Kmh => proportion(ms, 36, 10),
        WindSpeedUnit::Mph => proportion(ms, 2_236_936, 1_000_000),
        WindSpeedUnit::Kn => proportion(ms, 1_943_844, 1_000_000),
    }
}

/// An amount of precipitation in the unit asked for, from millimetres.
pub open spec fn shown_precipitation(mm: i64, unit: PrecipitationUnit) -> i64 {
    match unit {
        PrecipitationUnit::Mm => mm,
        PrecipitationUnit::Inch => proportion(mm, 10, 254),
    }
}

/// The sign of a unit of temperature.
pub open spec fn temperature_sign(unit: TemperatureUnit) -> Seq<char> {
    match unit {
        TemperatureUnit::Celsius => "\u{b0}C"@,
        TemperatureUnit::Fahrenheit => "\u{b0}F"@,
    }
}

/// The sign of a unit of wind speed.
pub open spec fn wind_speed_sign(unit: WindSpeedUnit) -> Seq<char> {
    match unit {
        WindSpeedUnit::Ms => "m/s"@,
        WindSpeedUnit::Kmh => "km/h"@,
        WindSpeedUnit::Mph => "mph"@,
        WindSpeedUnit::Kn => "kn"@,
    }
}

/// The sign of a unit of precipitation.
pub open spec fn precipitation_sign(unit: PrecipitationUnit) -> Seq<char> {
    match unit {
        PrecipitationUnit::Mm => "mm"@,
        PrecipitationUnit::Inch => "in"@,
    }
}

/// Degrees Fahrenheit for degrees Celsius.
pub fn celsius_to_fahrenheit(celsius: i64) -> (fahrenheit: i64)
    ensures
        fahrenheit == fahrenheit_of(celsius),
{
    sat_add(ratio(celsius, 9, 5), 32_000)
}

/// Degrees Celsius for degrees Fahrenheit.
pub fn fahrenheit_to_celsius(fahrenheit: i64) -> (celsius: i64)
    ensures
        celsius == celsius_of(fahrenheit),
{
    ratio(sat_sub(fahrenheit, 32_000), 5, 9)
}

/// Kilometres an hour for metres a second.
pub fn ms_to_kmh(ms: i64) -> (kmh: i64)
    ensures
        kmh == proportion(ms, 36, 10),
{
    ratio(ms, 36, 10)
}

/// Metres a second for kilometres an hour.
pub fn kmh_to_ms(kmh: i64) -> (ms: i64)
    ensures
        ms == proportion(kmh, 10, 36),
{
    ratio(kmh, 10, 36)
}

/// Miles an hour for metres a second.
pub fn ms_to_mph(ms: i64) -> (mph: i64)
    ensures
        mph == proportion(ms, 2_236_936, 1_000_000),
{
    ratio(ms, 2_236_936, 1_000_000)
}

/// Metres a second for miles an hour.
pub fn mph_to_ms(mph: i64) -> (ms: i64)
    ensures
        ms == proportion(mph, 1_000_000, 2_236_936),
{
    ratio(mph, 1_000_000, 2_236_936)
}

/// Knots for metres a second.
pub fn ms_to_kn(ms: i64) -> (kn: i64)
    ensures
        kn == proportion(ms, 1_943_844, 1_000_000),
{
    ratio(ms, 1_943_844, 1_000_000)
}

/// Metres a second for knots.
pub fn kn_to_ms(kn: i64) -> (ms: i64)
    ensures
        ms == proportion(kn, 1_000_000, 1_943_844),
{
    ratio(kn, 1_000_000, 1_943_844)
}

/// Inches for millimetres.
pub fn mm_to_inch(mm: i64) -> (inch: i64)
    ensures
        inch == proportion(mm, 10, 254),
{
    ratio(mm, 10, 254)
}

/// Millimetres for inches.
pub fn inch_to_mm(inch: i64) -> (mm: i64)
    ensures
        mm == proportion(inch, 254, 10),
{
    ratio(inch, 254, 10)
}

/// A temperature in degrees Celsius as it is shown: the number in the
/// unit asked for, and the unit's sign.
pub fn format_temperature(celsius: i64, unit: TemperatureUnit) -> (shown: (i64, &'static str))
    ensures
        shown.0 == shown_temperature(celsius, unit),
        shown.1@ == temperature_sign(unit),
{
    match unit {
        TemperatureUnit::Celsius => (celsius, "\u{b0}C"),
        TemperatureUnit::Fahrenheit => (celsius_to_fahrenheit(celsius), "\u{b0}F"),
    }
}

/// A wind speed in metres a second as it is shown: the number in the
/// unit asked for, and the unit's sign.
pub fn format_wind_speed(ms: i64, unit: WindSpeedUnit) -> (shown: (i64, &'static str))
    ensures
        shown.0 == shown_wind_speed(ms, unit),
        shown.1@ == wind_speed_sign(unit),
{
    match unit {
        WindSpeedUnit::Ms => (ms, "m/s"),
        WindSpeedUnit::Kmh => (ms_to_kmh(ms), "km/h"),
        WindSpeedUnit::Mph => (ms_to_mph(ms), "mph"),
        WindSpeedUnit::Kn => (ms_to_kn(ms), "kn"),
    }
}

/// An amount of precipitation in millimetres as it is shown: the number
/// in the unit asked for, and the unit's sign.
pub fn format_precipitation(mm: i64, unit: PrecipitationUnit) -> (shown: (i64, &'static str))
    ensures
        shown.0 == shown_precipitation(mm, unit),
        shown.1@ == precipitation_sign(unit),
{
    match unit {
        PrecipitationUnit::Mm => (mm, "mm"),
        PrecipitationUnit::Inch => (mm_to_inch(mm), "in"),
    }
}

/// A temperature in degrees Celsius, from a reading in `unit`.
pub fn normalize_temperature(value: i64, unit: TemperatureUnit) -> (celsius: i64)
    ensures
        celsius == match unit {
            TemperatureUnit::Celsius => value,
            TemperatureUnit::Fahrenheit => celsius_of(value),
        },
{
    match unit {
        TemperatureUnit::Celsius => value,
        TemperatureUnit::Fahrenheit => fahrenheit_to_celsius(value),
    }
}

/// A wind speed in metres a second, from a reading in `unit`.
pub fn normalize_wind_speed(value: i64, unit: WindSpeedUnit) -> (ms: i64)
    ensures
        ms == match unit {
            WindSpeedUnit::Ms => value,
            WindSpeedUnit::Kmh => proportion(value, 10, 36),
            WindSpeedUnit::Mph => proportion(value, 1_000_000, 2_236_936),
            WindSpeedUnit::Kn => proportion(value, 1_000_000, 1_943_844),
        },
{
    match unit {
        WindSpeedUnit::Ms => value,
        WindSpeedUnit::Kmh => kmh_to_ms(value),
        WindSpeedUnit::Mph => mph_to_ms(value),
        WindSpeedUnit::Kn => kn_to_ms(value),
    }
}

/// An amount of precipitation in millimetres, from a reading in `unit`.
pub fn normalize_precipitation(value: i64, unit: PrecipitationUnit) -> (mm: i64)
    ensures
        mm == match unit {
            PrecipitationUnit::Mm => value,
            PrecipitationUnit::Inch => proportion(value, 254, 10),
        },
{
    match unit {
        PrecipitationUnit::Mm => value,
        PrecipitationUnit::Inch => inch_to_mm(value),
    }
}

} // verus!
