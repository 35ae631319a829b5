//! Kinds of weather, units, and what each kind brings to the scene.

use vstd::prelude::*;
use vstd::string::StringExecFns;
use crate::text::str_eq;

verus! {

/// The kinds of weather that the scene tells apart.
#[derive(Debug, Clone, Copy, PartialEq, Eq, Structural)]
pub enum WeatherCondition {
    Clear,
    PartlyCloudy,
    Cloudy,
    Overcast,
    Fog,
    Drizzle,
    Rain,
    FreezingRain,
    Snow,
    SnowGrains,
    RainShowers,
    SnowShowers,
    Thunderstorm,
    ThunderstormHail,
}

/// How hard it rains, from least to most.
#[derive(Debug, Clone, Copy, PartialEq, Eq, Structural)]
pub enum RainIntensity {
    Drizzle,
    Light,
    Heavy,
    Storm,
}

/// How hard it snows, from least to most.
#[derive(Debug, Clone, Copy, PartialEq, Eq, Structural)]
pub enum SnowIntensity {
    Light,
    Medium,
    Heavy,
}

/// How thick the fog is, from least to most.
#[derive(Debug, Clone, Copy, PartialEq, Eq, Structural)]
pub enum FogIntensity {
    Light,
    Medium,
    Heavy,
}

impl RainIntensity {
    /// The tier's place in the order from least to most.
    pub open spec fn rank(self) -> int {
        match self {
            RainIntensity::Drizzle => 0,
            RainIntensity::Light => 1,
            RainIntensity::Heavy => 2,
            RainIntensity::Storm => 3,
        }
    }
}

impl SnowIntensity {
    /// The tier's place in the order from least to most.
    pub open spec fn rank(self) -> int {
        match self {
            SnowIntensity::Light => 0,
            SnowIntensity::Medium => 1,
            SnowIntensity::Heavy => 2,
        }
    }
}

impl FogIntensity {
    /// The tier's place in the order from least to most.
    pub open spec fn rank(self) -> int {
        match self {
            FogIntensity::Light => 0,
            FogIntensity::Medium => 1,
            FogIntensity::Heavy => 2,
        }
    }
}

impl WeatherCondition {
    /// Whether rain falls in this weather, a thunderstorm's included.
    pub open spec fn rains(self) -> bool {
        self == WeatherCondition::Drizzle || self == WeatherCondition::Rain || self
            == WeatherCondition::RainShowers || self == WeatherCondition::FreezingRain || self
            == WeatherCondition::Thunderstorm || self == WeatherCondition::ThunderstormHail
    }

    /// Whether snow falls in this weather.
    pub open spec fn snows(self) -> bool {
        self == WeatherCondition::Snow || self == WeatherCondition::SnowGrains || self
            == WeatherCondition::SnowShowers
    }

    /// Whether this weather is a thunderstorm.
    pub open spec fn thunders(self) -> bool {
        self == WeatherCondition::Thunderstorm || self == WeatherCondition::ThunderstormHail
    }

    /// Whether clouds make up this weather.
    pub open spec fn clouded(self) -> bool {
        self == WeatherCondition::PartlyCloudy || self == WeatherCondition::Cloudy || self
            == WeatherCondition::Overcast
    }

    /// The rain tier that goes with this weather; light where it does
    /// not rain.
    pub open spec fn rain_tier(self) -> RainIntensity {
        match self {
            WeatherCondition::Drizzle => RainIntensity::Drizzle,
            WeatherCondition::FreezingRain => RainIntensity::Heavy,
            WeatherCondition::Thunderstorm => RainIntensity::Heavy,
            WeatherCondition::ThunderstormHail => RainIntensity::Storm,
            _ => RainIntensity::Light,
        }
    }

    /// The snow tier that goes with this weather; light where it does
    /// not snow.
    pub open spec fn snow_tier(self) -> SnowIntensity {
        match self {
            WeatherCondition::SnowShowers => SnowIntensity::Medium,
            WeatherCondition::Snow => SnowIntensity::Heavy,
            _ => SnowIntensity::Light,
        }
    }

    /// The fog tier that goes with this weather: medium in fog, light
    /// otherwise.
    pub open spec fn fog_tier(self) -> FogIntensity {
        if self == WeatherCondition::Fog {
            FogIntensity::Medium
        } else {
            FogIntensity::Light
        }
    }

    /// The rain tier that goes with this weather.
    pub fn rain_intensity(&self) -> (tier: RainIntensity)
        ensures
            tier == self.rain_tier(),
    {
        match self {
            WeatherCondition::Drizzle => RainIntensity::Drizzle,
            WeatherCondition::Rain | WeatherCondition::RainShowers => RainIntensity::Light,
            WeatherCondition::FreezingRain => RainIntensity::Heavy,
            WeatherCondition::Thunderstorm => RainIntensity::Heavy,
            WeatherCondition::ThunderstormHail => RainIntensity::Storm,
            _ => RainIntensity::Light,
        }
    }

    /// The snow tier that goes with this weather.
    pub fn snow_intensity(&self) -> (tier: SnowIntensity)
        ensures
            tier == self.snow_tier(),
    {
        match self {
            WeatherCondition::SnowGrains => SnowIntensity::Light,
            WeatherCondition::SnowShowers => SnowIntensity::Medium,
            WeatherCondition::Snow => SnowIntensity::Heavy,
            _ => SnowIntensity::Light,
        }
    }

    /// The fog tier that goes with this weather.
    pub fn fog_intensity(&self) -> (tier: FogIntensity)
        ensures
            tier == self.fog_tier(),
    {
        match self {
            WeatherCondition::Fog => FogIntensity::Medium,
            _ => FogIntensity::Light,
        }
    }

    /// Whether rain falls.
    pub fn is_raining(&self) -> (yes: bool)
        ensures
            yes == self.rains(),
    {
        match self {
            WeatherCondition::Drizzle
            | WeatherCondition::Rain
            | WeatherCondition::RainShowers
            | WeatherCondition::FreezingRain
            | WeatherCondition::Thunderstorm
            | WeatherCondition::ThunderstormHail => true,
            _ => false,
        }
    }

    /// Whether snow falls.
    pub fn is_snowing(&self) -> (yes: bool)
        ensures
            yes == self.snows(),
    {
        match self {
            WeatherCondition::Snow
            | WeatherCondition::SnowGrains
            | WeatherCondition::SnowShowers => true,
            _ => false,
        }
    }

    /// Whether there is lightning.
    pub fn is_thunderstorm(&self) -> (yes: bool)
        ensures
            yes == self.thunders(),
    {
        match self {
            WeatherCondition::Thunderstorm | WeatherCondition::ThunderstormHail => true,
            _ => false,
        }
    }

    /// Whether clouds cover part of the sky or all of it.
    pub fn is_cloudy(&self) -> (yes: bool)
        ensures
            yes == self.clouded(),
    {
        match self {
            WeatherCondition::PartlyCloudy
            | WeatherCondition::Cloudy
            | WeatherCondition::Overcast => true,
            _ => false,
        }
    }

    /// Whether there is fog.
    pub fn is_foggy(&self) -> (yes: bool)
        ensures
            yes == (*self == WeatherCondition::Fog),
    {
        match self {
            WeatherCondition::Fog => true,
            _ => false,
        }
    }
}

/// The lower-case form of a string, as `str::to_lowercase` gives it.
pub uninterp spec fn lowercase(s: Seq<char>) -> Seq<char>;

/// `str::to_lowercase`: the lower-case form of a string.
#[verifier::external_body]
fn to_lower(s: &str) -> (out: String)
    ensures
        out@ == lowercase(s@),
{
    s.to_lowercase()
}

/// The kind of weather that goes by a name in lower case, with words
/// joined by `_` or by `-`.
pub open spec fn condition_named(name: Seq<char>) -> Option<WeatherCondition> {
    if name == "clear"@ {
        Some(WeatherCondition::Clear)
    } else if name == "partly_cloudy"@ || name == "partly-cloudy"@ {
        Some(WeatherCondition::PartlyCloudy)
    } else if name == "cloudy"@ {
        Some(WeatherCondition::Cloudy)
    } else if name == "overcast"@ {
        Some(WeatherCondition::Overcast)
    } else if name == "fog"@ {
        Some(WeatherCondition::Fog)
    } else if name == "drizzle"@ {
        Some(WeatherCondition::Drizzle)
    } else if name == "rain"@ {
        Some(WeatherCondition::Rain)
    } else if name == "freezing_rain"@ || name == "freezing-rain"@ {
        Some(WeatherCondition::FreezingRain)
    } else if name == "snow"@ {
        Some(WeatherCondition::Snow)
    } else if name == "snow_grains"@ || name == "snow-grains"@ {
        Some(WeatherCondition::SnowGrains)
    } else if name == "rain_showers"@ || name == "rain-showers"@ {
        Some(WeatherCondition::RainShowers)
    } else if name == "snow_showers"@ || name == "snow-showers"@ {
        Some(WeatherCondition::SnowShowers)
    } else if name == "thunderstorm"@ {
        Some(WeatherCondition::Thunderstorm)
    } else if name == "thunderstorm_hail"@ || name == "thunderstorm-hail"@ {
        Some(WeatherCondition::ThunderstormHail)
    } else {
        None
    }
}

/// What is said of a name that no kind of weather goes by.
pub open spec fn unknown_condition(name: Seq<char>) -> Seq<char> {
    "Unknown weather condition: '"@ + name
        + "'. Valid options: clear, partly_cloudy, cloudy, overcast, fog, drizzle, rain, freezing_rain, snow, snow_grains, rain_showers, snow_showers, thunderstorm, thunderstorm_hail"@
}

/// The kind of weather that goes by a name in lower case.
pub fn condition_from_name(name: &str) -> (condition: Option<WeatherCondition>)
    ensures
        condition == condition_named(name@),
{
    if str_eq(name, "clear") {
        Some(WeatherCondition::Clear)
    } else if str_eq(name, "partly_cloudy") || str_eq(name, "partly-cloudy") {
        Some(WeatherCondition::PartlyCloudy)
    } else if str_eq(name, "cloudy") {
        Some(WeatherCondition::Cloudy)
    } else if str_eq(name, "overcast") {
        Some(WeatherCondition::Overcast)
    } else if str_eq(name, "fog") {
        Some(WeatherCondition::Fog)
    } else if str_eq(name, "drizzle") {
        Some(WeatherCondition::Drizzle)
    } else if str_eq(name, "rain") {
        Some(WeatherCondition::Rain)
    } else if str_eq(name, "freezing_rain") || str_eq(name, "freezing-rain") {
        Some(WeatherCondition::FreezingRain)
    } else if str_eq(name, "snow") {
        Some(WeatherCondition::Snow)
    } else if str_eq(name, "snow_grains") || str_eq(name, "snow-grains") {
        Some(WeatherCondition::SnowGrains)
    } else if str_eq(name, "rain_showers") || str_eq(name, "rain-showers") {
        Some(WeatherCondition::RainShowers)
    } else if str_eq(name, "snow_showers") || str_eq(name, "snow-showers") {
        Some(WeatherCondition::SnowShowers)
    } else if str_eq(name, "thunderstorm") {
        Some(WeatherCondition::Thunderstorm)
    } else if str_eq(name, "thunderstorm_hail") || str_eq(name, "thunderstorm-hail") {
        Some(WeatherCondition::ThunderstormHail)
    } else {
        None
    }
}

impl WeatherCondition {
    /// The kind of weather that goes by a name, in any mix of upper and
    /// lower case; for a name that none goes by, a message that lists
    /// the names.
    pub fn parse(s: &str) -> (out: Result<WeatherCondition, String>)
        ensures
            match condition_named(lowercase(s@)) {
                Some(condition) => out == Ok::<WeatherCondition, String>(condition),
                None => out matches Err(message) && message@ == unknown_condition(s@),
            },
    {
        let lower = to_lower(s);
        match condition_from_name(lower.as_str()) {
            Some(condition) => Ok(condition),
            None => {
                let mut message = String::from_str("Unknown weather condition: '");
                message.append(s);
                message.append(
                    "'. Valid options: clear, partly_cloudy, cloudy, overcast, fog, drizzle, rain, freezing_rain, snow, snow_grains, rain_showers, snow_showers, thunderstorm, thunderstorm_hail",
                );
                Err(message)
            },
        }
    }
}

impl std::str::FromStr for WeatherCondition {
    type Err = String;

    /// The kind of weather that goes by a name; see
    /// [`WeatherCondition::parse`].
    fn from_str(s: &str) -> (out: Result<WeatherCondition, String>)
        ensures
            match condition_named(lowercase(s@)) {
                Some(condition) => out == Ok::<WeatherCondition, String>(condition),
                None => out matches Err(message) && message@ == unknown_condition(s@),
            },
    {
        WeatherCondition::parse(s)
    }
}

/// A unit of temperature.
#[derive(Debug, Clone, Copy, PartialEq, Eq, Structural)]
pub enum TemperatureUnit {
    Celsius,
    Fahrenheit,
}

/// A unit of wind speed.
#[derive(Debug, Clone, Copy, PartialEq, Eq, Structural)]
pub enum WindSpeedUnit {
    Kmh,
    Ms,
    Mph,
    Kn,
}

/// A unit of precipitation.
#[derive(Debug, Clone, Copy, PartialEq, Eq, Structural)]
pub enum PrecipitationUnit {
    Mm,
    Inch,
}

/// The units in which the weather is shown.
#[derive(Debug, Clone, Copy, PartialEq, Eq, Structural)]
pub struct WeatherUnits {
    pub temperature: TemperatureUnit,
    pub wind_speed: WindSpeedUnit,
    pub precipitation: PrecipitationUnit,
}

impl WeatherUnits {
    /// Degrees Fahrenheit, miles per hour and inches.
    pub open spec fn imperial_units() -> WeatherUnits {
        WeatherUnits {
            temperature: TemperatureUnit::Fahrenheit,
            wind_speed: WindSpeedUnit::Mph,
            precipitation: PrecipitationUnit::Inch,
        }
    }

    /// Degrees Celsius, kilometres per hour and millimetres.
    pub open spec fn metric_units() -> WeatherUnits {
        WeatherUnits {
            temperature: TemperatureUnit::Celsius,
            wind_speed: WindSpeedUnit::Kmh,
            precipitation: PrecipitationUnit::Mm,
        }
    }

    /// Degrees Fahrenheit, miles per hour and inches.
    pub fn imperial() -> (units: WeatherUnits)
        ensures
            units == WeatherUnits::imperial_units(),
    {
        WeatherUnits {
            temperature: TemperatureUnit::Fahrenheit,
            wind_speed: WindSpeedUnit::Mph,
            precipitation: PrecipitationUnit::Inch,
        }
    }

    /// Degrees Celsius, kilometres per hour and millimetres.
    pub fn metric() -> (units: WeatherUnits)
        ensures
            units == WeatherUnits::metric_units(),
    {
        WeatherUnits {
            temperature: TemperatureUnit::Celsius,
            wind_speed: WindSpeedUnit::Kmh,
            precipitation: PrecipitationUnit::Mm,
        }
    }
}

impl Default for WeatherUnits {
    fn default() -> (units: WeatherUnits)
        ensures
            units == WeatherUnits::metric_units(),
    {
        WeatherUnits::metric()
    }
}

/// A weather report. Every reading is a whole number of thousandths:
/// degrees Celsius, per cent, millimetres, metres a second, degrees of
/// the compass, hectopascals and metres.
#[derive(Debug, Clone, PartialEq, Eq)]
pub struct WeatherData {
    pub condition: WeatherCondition,
    pub temperature: i64,
    pub apparent_temperature: i64,
    pub humidity: i64,
    pub precipitation: i64,
    pub wind_speed: i64,
    pub wind_direction: i64,
    pub cloud_cover: i64,
    pub pressure: i64,
    pub visibility: Option<i64>,
    pub is_day: bool,
    /// How far the moon is through its cycle, where that is known.
    pub moon_phase: Option<i64>,
    pub timestamp: String,
}

/// A place on the globe. Both angles are millionths of a degree, north
/// and east counting as positive.
#[derive(Debug, Clone, Copy, PartialEq, Eq, Structural)]
pub struct WeatherLocation {
    pub latitude: i64,
    pub longitude: i64,
}

/// The flags that decide which systems run in a frame.
#[derive(Debug, Clone, Copy, PartialEq, Eq, Structural)]
pub struct WeatherConditions {
    pub is_raining: bool,
    pub is_snowing: bool,
    pub is_thunderstorm: bool,
    pub is_cloudy: bool,
    pub is_foggy: bool,
    pub is_day: bool,
}

impl WeatherConditions {
    /// At most one of rain, snow and thunderstorm is on.
    pub open spec fn exclusive(self) -> bool {
        &&& !(self.is_raining && self.is_snowing)
        &&& !(self.is_raining && self.is_thunderstorm)
        &&& !(self.is_snowing && self.is_thunderstorm)
    }

    /// The flags for a kind of weather by day or by night. A
    /// thunderstorm's rain counts as thunderstorm, not as rain.
    pub open spec fn of(condition: WeatherCondition, is_day: bool) -> WeatherConditions {
        WeatherConditions {
            is_raining: condition.rains() && !condition.thunders(),
            is_snowing: condition.snows(),
            is_thunderstorm: condition.thunders(),
            is_cloudy: condition.clouded(),
            is_foggy: condition == WeatherCondition::Fog,
            is_day,
        }
    }

    /// Works out the flags for a kind of weather.
    pub fn from_condition(condition: WeatherCondition, is_day: bool) -> (flags: WeatherConditions)
        ensures
            flags == WeatherConditions::of(condition, is_day),
            flags.exclusive(),
    {
        let is_thunderstorm = condition.is_thunderstorm();
        WeatherConditions {
            is_raining: condition.is_raining() && !is_thunderstorm,
            is_snowing: condition.is_snowing(),
            is_thunderstorm,
            is_cloudy: condition.is_cloudy(),
            is_foggy: condition.is_foggy(),
            is_day,
        }
    }
}

impl Default for WeatherConditions {
    fn default() -> (flags: WeatherConditions)
        ensures
            flags == (WeatherConditions {
                is_raining: false,
                is_snowing: false,
                is_thunderstorm: false,
                is_cloudy: false,
                is_foggy: false,
                is_day: true,
            }),
    {
        WeatherConditions {
            is_raining: false,
            is_snowing: false,
            is_thunderstorm: false,
            is_cloudy: false,
            is_foggy: false,
            is_day: true,
        }
    }
}

} // verus!
