//! What the user has set: the place, the units, and what is shown.

use vstd::prelude::*;
use crate::error::ConfigError;
use crate::weather::types::WeatherUnits;

verus! {

/// The place that the weather is shown for. Both angles are millionths
/// of a degree.
#[derive(Debug, Clone, Copy, PartialEq, Eq, Structural)]
pub struct Location {
    pub latitude: i64,
    pub longitude: i64,
    /// Whether the place is looked up from the address on the network.
    pub auto: bool,
    /// Whether the status line keeps the place back.
    pub hide: bool,
}

impl Default for Location {
    /// Berlin, unless the place is looked up.
    fn default() -> (location: Location)
        ensures
            location == (Location {
                latitude: 52_520_000,
                longitude: 13_410_000,
                auto: true,
                hide: false,
            }),
    {
        Location { latitude: 52_520_000, longitude: 13_410_000, auto: true, hide: false }
    }
}

/// The settings.
#[derive(Debug, Clone, Copy, PartialEq, Eq, Structural)]
pub struct Config {
    pub location: Location,
    pub hide_hud: bool,
    pub units: WeatherUnits,
    pub silent: bool,
}

impl Default for Config {
    fn default() -> (config: Config)
        ensures
            config == (Config {
                location: Location {
                    latitude: 52_520_000,
                    longitude: 13_410_000,
                    auto: true,
                    hide: false,
                },
                hide_hud: false,
                units: WeatherUnits::metric_units(),
                silent: false,
            }),
    {
        Config {
            location: Location::default(),
            hide_hud: false,
            units: WeatherUnits::default(),
            silent: false,
        }
    }
}

/// What the command line sets, whatever the settings say.
#[derive(Debug, Clone, Copy, PartialEq, Eq, Structural)]
pub struct Overrides {
    pub auto_location: bool,
    pub hide_location: bool,
    pub hide_hud: bool,
    pub imperial: bool,
    pub metric: bool,
    pub silent: bool,
}

impl Config {
    /// The settings with what the command line sets: a switch that is
    /// on wins, one that is off leaves the setting, and of the two
    /// systems of units the metric one wins where both are asked for.
    pub open spec fn overridden(self, flags: Overrides) -> Config {
        Config {
            location: Location {
                auto: self.location.auto || flags.auto_location,
                hide: self.location.hide || flags.hide_location,
                ..self.location
            },
            hide_hud: self.hide_hud || flags.hide_hud,
            units: if flags.metric {
                WeatherUnits::metric_units()
            } else if flags.imperial {
                WeatherUnits::imperial_units()
            } else {
                self.units
            },
            silent: self.silent || flags.silent,
        }
    }

    /// Takes up what the command line sets; see [`Config::overridden`].
    pub fn apply_overrides(&mut self, flags: &Overrides)
        ensures
            *final(self) == old(self).overridden(*flags),
    {
        if flags.auto_location {
            self.location.auto = true;
        }
        if flags.hide_location {
            self.location.hide = true;
        }
        if flags.hide_hud {
            self.hide_hud = true;
        }
        if flags.imperial {
            self.units = WeatherUnits::imperial();
        }
        if flags.metric {
            self.units = WeatherUnits::metric();
        }
        if flags.silent {
            self.silent = true;
        }
    }

    /// Whether the place lies on the globe: no further north or south
    /// than a pole, no further east or west than half a turn.
    pub open spec fn on_the_globe(&self) -> bool {
        &&& -90_000_000 <= self.location.latitude <= 90_000_000
        &&& -180_000_000 <= self.location.longitude <= 180_000_000
    }

    /// Checks that the place lies on the globe. Where it does not, the
    /// latitude is reported before the longitude.
    pub fn validate(&self) -> (checked: Result<(), ConfigError>)
        ensures
            self.on_the_globe() <==> checked is Ok,
            !(-90_000_000 <= self.location.latitude <= 90_000_000) ==> (checked matches Err(
                ConfigError::InvalidLatitude(latitude),
            ) && latitude == self.location.latitude),
            -90_000_000 <= self.location.latitude <= 90_000_000 && !self.on_the_globe() ==> (
            checked matches Err(ConfigError::InvalidLongitude(longitude)) && longitude
                == self.location.longitude),
    {
        if self.location.latitude < -90_000_000 || self.location.latitude > 90_000_000 {
            return Err(ConfigError::InvalidLatitude(self.location.latitude));
        }
        if self.location.longitude < -180_000_000 || self.location.longitude > 180_000_000 {
            return Err(ConfigError::InvalidLongitude(self.location.longitude));
        }
        Ok(())
    }
}

} // verus!
