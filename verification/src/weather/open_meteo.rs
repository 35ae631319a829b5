//! How the units are named in a request to Open-Meteo.

use vstd::prelude::*;
use vstd::string::StringExecFns;
use crate::weather::types::{PrecipitationUnit, TemperatureUnit, WeatherUnits, WindSpeedUnit};

verus! {

/// The name of a unit of temperature.
pub open spec fn temperature_name(unit: TemperatureUnit) -> Seq<char> {
    match unit {
        TemperatureUnit::Celsius => "celsius"@,
        TemperatureUnit::Fahrenheit => "fahrenheit"@,
    }
}

/// The name of a unit of wind speed.
pub open spec fn wind_speed_name(unit: WindSpeedUnit) -> Seq<char> {
    match unit {
        WindSpeedUnit::Kmh => "kmh"@,
        WindSpeedUnit::Ms => "ms"@,
        WindSpeedUnit::Mph => "mph"@,
        WindSpeedUnit::Kn => "kn"@,
    }
}

/// The name of a unit of precipitation.
pub open spec fn precipitation_name(unit: PrecipitationUnit) -> Seq<char> {
    match unit {
        PrecipitationUnit::Mm => "mm"@,
        PrecipitationUnit::Inch => "inch"@,
    }
}

/// The name of a unit of temperature in a request.
pub fn temperature_unit_param(unit: &TemperatureUnit) -> (name: &'static str)
    ensures
        name@ == temperature_name(*unit),
{
    match unit {
        TemperatureUnit::Celsius => "celsius",
        TemperatureUnit::Fahrenheit => "fahrenheit",
    }
}

/// The name of a unit of wind speed in a request.
pub fn wind_speed_unit_param(unit: &WindSpeedUnit) -> (name: &'static str)
    ensures
        name@ == wind_speed_name(*unit),
{
    match unit {
        WindSpeedUnit::Kmh => "kmh",
        WindSpeedUnit::Ms => "ms",
        WindSpeedUnit::Mph => "mph",
        WindSpeedUnit::Kn => "kn",
    }
}

/// The name of a unit of precipitation in a request.
pub fn precipitation_unit_param(unit: &PrecipitationUnit) -> (name: &'static str)
    ensures
        name@ == precipitation_name(*unit),
{
    match unit {
        PrecipitationUnit::Mm => "mm",
        PrecipitationUnit::Inch => "inch",
    }
}

/// The end of a request's address: the units and the time zone.
pub fn units_query(units: &WeatherUnits) -> (query: String)
    ensures
        query@ == "&temperature_unit="@ + temperature_name(units.temperature)
            + "&wind_speed_unit="@ + wind_speed_name(units.wind_speed) + "&precipitation_unit="@
            + precipitation_name(units.precipitation) + "&timezone=auto"@,
{
    let mut query = String::from_str("&temperature_unit=");
    query.append(temperature_unit_param(&units.temperature));
    query.append("&wind_speed_unit=");
    query.append(wind_speed_unit_param(&units.wind_speed));
    query.append("&precipitation_unit=");
    query.append(precipitation_unit_param(&units.precipitation));
    query.append("&timezone=auto");
    query
}

} // verus!
