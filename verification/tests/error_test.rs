use weathr::config::{Config, Location, Overrides};
use weathr::error::{ConfigError, GeolocationError, NetworkError, TerminalError, WeatherError};
use weathr::text::push_shortest;
use weathr::weather::WeatherUnits;
use weathr::render::{ColorSupport, TerminalCapabilities, TerminalRenderer};

#[test]
fn test_terminal_error_user_friendly_message() {
    let too_small = TerminalError::TooSmall {
        width: 40,
        height: 10,
        min_width: 70,
        min_height: 20,
    };
    let msg = too_small.user_friendly_message();
    assert!(msg.contains("40x10"));
    assert!(msg.contains("70x20"));
    assert!(msg.contains("too small"));

    let not_a_tty = TerminalError::NotATty;
    let msg = not_a_tty.user_friendly_message();
    assert!(msg.contains("terminal"));
    assert!(msg.contains("redirected") || msg.contains("piped"));
}

#[test]
fn test_terminal_error_exact_messages() {
    let too_small = TerminalError::TooSmall {
        width: 40,
        height: 10,
        min_width: 70,
        min_height: 20,
    };
    assert_eq!(
        too_small.user_friendly_message(),
        "Terminal window is too small (40x10).\nPlease resize to at least 70x20 characters."
    );
    assert_eq!(
        too_small.to_string(),
        "terminal is too small (minimum: 70x20, current: 40x10)"
    );
    assert_eq!(
        TerminalError::NotATty.to_string(),
        "not running in a terminal (output is redirected or piped)"
    );
    let io = || std::io::Error::other("broken");
    assert_eq!(
        TerminalError::RawModeError(io()).user_friendly_message(),
        "Failed to initialize terminal raw mode.\nYou may need to run this in a proper terminal emulator."
    );
    assert_eq!(
        TerminalError::SizeError(io()).user_friendly_message(),
        "Cannot detect terminal size.\nMake sure you're running in a standard terminal."
    );
    assert_eq!(
        TerminalError::InitError(io()).user_friendly_message(),
        "failed to initialize terminal"
    );
    assert_eq!(
        TerminalError::IoError(io()).user_friendly_message(),
        "terminal I/O error"
    );
    assert_eq!(
        TerminalError::RawModeError(io()).to_string(),
        "failed to enable raw mode"
    );
    assert_eq!(
        TerminalError::SizeError(io()).to_string(),
        "failed to get terminal size"
    );
}

#[test]
fn test_terminal_error_numbers_of_every_length() {
    let e = TerminalError::TooSmall {
        width: 0,
        height: 65535,
        min_width: 7,
        min_height: 100,
    };
    assert_eq!(
        e.to_string(),
        "terminal is too small (minimum: 7x100, current: 0x65535)"
    );
}

#[test]
fn test_renderer_new_rejects_what_is_no_terminal() {
    let caps = TerminalCapabilities {
        color_support: ColorSupport::TrueColor,
        is_tty: false,
    };
    assert!(matches!(
        TerminalRenderer::new(100, 30, caps),
        Err(TerminalError::NotATty)
    ));
}

#[test]
fn test_renderer_new_rejects_small_terminals() {
    let caps = TerminalCapabilities {
        color_support: ColorSupport::TrueColor,
        is_tty: true,
    };
    match TerminalRenderer::new(69, 20, caps) {
        Err(TerminalError::TooSmall {
            width,
            height,
            min_width,
            min_height,
        }) => {
            assert_eq!((width, height, min_width, min_height), (69, 20, 70, 20));
        }
        _ => panic!("a terminal 69 wide is too small"),
    }
    assert!(matches!(
        TerminalRenderer::new(70, 19, caps),
        Err(TerminalError::TooSmall { .. })
    ));
    let grid = TerminalRenderer::new(70, 20, caps);
    assert!(grid.is_ok());
    assert_eq!(grid.unwrap().get_size(), (70, 20));
}

#[test]
fn test_config_error_kind() {
    let error = ConfigError::InvalidLatitude(91_000_000);
    assert_eq!(error.kind(), "InvalidLatitude");

    let error = ConfigError::InvalidLongitude(181_000_000);
    assert_eq!(error.kind(), "InvalidLongitude");

    let error = ConfigError::NoConfigDir;
    assert_eq!(error.kind(), "NoConfigDir");
}

#[test]
fn test_config_error_display() {
    let error = ConfigError::InvalidLatitude(91_000_000);
    assert!(error.to_string().contains("91"));
    assert!(error.to_string().contains("latitude"));

    let error = ConfigError::InvalidLongitude(-181_000_000);
    assert!(error.to_string().contains("-181"));
    assert!(error.to_string().contains("longitude"));

    let error = ConfigError::NoConfigDir;
    assert!(error.to_string().contains("config directory"));
}

#[test]
fn test_validation_invalid_latitude_high() {
    let config = Config {
        location: Location {
            latitude: 91_000_000,
            longitude: 0,
            auto: false,
            hide: false,
        },
        hide_hud: false,
        units: WeatherUnits::default(),
        silent: false,
    };
    let result = config.validate();
    assert!(result.is_err());
    assert_eq!(result.unwrap_err().kind(), "InvalidLatitude");
}

#[test]
fn test_validation_invalid_latitude_low() {
    let config = Config {
        location: Location {
            latitude: -91_000_000,
            longitude: 0,
            auto: false,
            hide: false,
        },
        hide_hud: false,
        units: WeatherUnits::default(),
        silent: false,
    };
    let result = config.validate();
    assert!(result.is_err());
    assert_eq!(result.unwrap_err().kind(), "InvalidLatitude");
}

#[test]
fn test_validation_invalid_longitude_high() {
    let config = Config {
        location: Location {
            latitude: 0,
            longitude: 181_000_000,
            auto: false,
            hide: false,
        },
        hide_hud: false,
        units: WeatherUnits::default(),
        silent: false,
    };
    let result = config.validate();
    assert!(result.is_err());
    assert_eq!(result.unwrap_err().kind(), "InvalidLongitude");
}

#[test]
fn test_validation_invalid_longitude_low() {
    let config = Config {
        location: Location {
            latitude: 0,
            longitude: -181_000_000,
            auto: false,
            hide: false,
        },
        hide_hud: false,
        units: WeatherUnits::default(),
        silent: false,
    };
    let result = config.validate();
    assert!(result.is_err());
    assert_eq!(result.unwrap_err().kind(), "InvalidLongitude");
}

#[test]
fn test_validation_valid_config() {
    let config = Config {
        location: Location {
            latitude: 52_520_000,
            longitude: 13_410_000,
            auto: false,
            hide: false,
        },
        hide_hud: false,
        units: WeatherUnits::default(),
        silent: false,
    };
    let result = config.validate();
    assert!(result.is_ok());
}

#[test]
fn test_validation_at_the_edges_of_the_globe() {
    let at = |latitude: i64, longitude: i64| Config {
        location: Location {
            latitude,
            longitude,
            ..Location::default()
        },
        ..Config::default()
    };
    assert!(at(90_000_000, 180_000_000).validate().is_ok());
    assert!(at(-90_000_000, -180_000_000).validate().is_ok());
    assert!(matches!(
        at(90_000_001, 0).validate(),
        Err(ConfigError::InvalidLatitude(90_000_001))
    ));
    assert!(matches!(
        at(0, -180_000_001).validate(),
        Err(ConfigError::InvalidLongitude(-180_000_001))
    ));
    // both are off: the latitude is reported
    assert!(matches!(
        at(-90_000_001, 180_000_001).validate(),
        Err(ConfigError::InvalidLatitude(-90_000_001))
    ));
}

#[test]
fn test_config_defaults_and_overrides() {
    let config = Config::default();
    assert_eq!(
        config.location,
        Location {
            latitude: 52_520_000,
            longitude: 13_410_000,
            auto: true,
            hide: false,
        }
    );
    assert!(!config.hide_hud && !config.silent);
    assert_eq!(config.units, WeatherUnits::metric());
    let nothing = Overrides {
        auto_location: false,
        hide_location: false,
        hide_hud: false,
        imperial: false,
        metric: false,
        silent: false,
    };
    let mut kept = Config {
        location: Location {
            auto: false,
            hide: true,
            ..config.location
        },
        hide_hud: true,
        units: WeatherUnits::imperial(),
        silent: true,
    };
    let before = kept;
    kept.apply_overrides(&nothing);
    assert_eq!(kept, before);
    let mut changed = Config {
        location: Location {
            auto: false,
            ..config.location
        },
        ..config
    };
    changed.apply_overrides(&Overrides {
        auto_location: true,
        hide_location: true,
        hide_hud: true,
        imperial: true,
        metric: false,
        silent: true,
    });
    assert!(changed.location.auto && changed.location.hide);
    assert!(changed.hide_hud && changed.silent);
    assert_eq!(changed.units, WeatherUnits::imperial());
    assert_eq!(changed.location.latitude, 52_520_000);
    changed.apply_overrides(&Overrides {
        imperial: true,
        metric: true,
        ..nothing
    });
    assert_eq!(changed.units, WeatherUnits::metric());
}

#[test]
fn test_config_error_lines() {
    let shortest = |micro: i64| {
        let mut out = String::new();
        push_shortest(&mut out, micro);
        out
    };
    assert_eq!(shortest(0), "0");
    assert_eq!(shortest(91_000_000), "91");
    assert_eq!(shortest(-181_000_000), "-181");
    assert_eq!(shortest(91_500_000), "91.5");
    assert_eq!(shortest(-90_000_001), "-90.000001");
    assert_eq!(shortest(1_020_300), "1.0203");
    assert_eq!(shortest(-5), "-0.000005");
    assert_eq!(shortest(120_000_000), "120");
    assert_eq!(
        ConfigError::InvalidLatitude(91_250_000).to_string(),
        "invalid latitude: 91.25 (must be between -90 and 90)"
    );
    assert_eq!(
        ConfigError::InvalidLongitude(-200_000_000).to_string(),
        "invalid longitude: -200 (must be between -180 and 180)"
    );
    assert_eq!(
        ConfigError::NoConfigDir.to_string(),
        "could not determine config directory (check $XDG_CONFIG_HOME or $HOME)"
    );
    let unread = ConfigError::ReadError {
        path: "/tmp/none.toml".to_string(),
        source: std::io::Error::new(std::io::ErrorKind::NotFound, "gone"),
    };
    assert_eq!(unread.kind(), "ReadError");
    assert_eq!(unread.to_string(), "failed to read config file at /tmp/none.toml");
    let unparsed = ConfigError::ParseError(toml::from_str::<toml::Value>("= 1").unwrap_err());
    assert_eq!(unparsed.kind(), "ParseError");
    assert_eq!(unparsed.to_string(), "invalid TOML syntax in config file");
}

#[test]
fn test_any_error_shows_the_line_of_what_it_holds() {
    let config = WeatherError::from(ConfigError::InvalidLatitude(-91_000_000));
    assert!(matches!(config, WeatherError::Config(_)));
    assert_eq!(
        config.to_string(),
        "invalid latitude: -91 (must be between -90 and 90)"
    );
    let terminal = WeatherError::from(TerminalError::NotATty);
    assert!(matches!(terminal, WeatherError::Terminal(_)));
    assert_eq!(
        terminal.to_string(),
        "not running in a terminal (output is redirected or piped)"
    );
    let network = WeatherError::from(NetworkError::ConnectionRefused {
        url: "https://example.com".to_string(),
    });
    assert!(matches!(network, WeatherError::Network(_)));
    assert_eq!(network.to_string(), "connection refused for https://example.com");
    let place = WeatherError::from(GeolocationError::RetriesExhausted { attempts: 3 });
    assert!(matches!(place, WeatherError::Geolocation(_)));
    assert_eq!(place.to_string(), "failed after 3 retry attempts");
}
