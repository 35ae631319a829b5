//! What the scene needs to know about the weather.

pub mod normalizer;
pub mod open_meteo;
pub mod provider;
pub mod types;
pub mod units;

pub use normalizer::WeatherNormalizer;
pub use provider::WeatherProviderResponse;
pub use types::{
    FogIntensity, PrecipitationUnit, RainIntensity, SnowIntensity, TemperatureUnit,
    WeatherCondition, WeatherConditions, WeatherData, WeatherLocation, WeatherUnits,
    WindSpeedUnit,
};
