use weathr::animation::thunderstorm::LightningState;
use weathr::animation_manager::{AnimationManager, FRAME_DELAY_MILLIS};
use weathr::app_state::{AppState, LoadingState, WeatherSummary};
use weathr::cache::{
    current_timestamp, is_fresh, make_location_key, timestamp_of, weather_cache_valid,
    LOCATION_CACHE_DURATION_SECS, WEATHER_CACHE_DURATION_SECS,
};
use weathr::error::{
    classify_failure, FailureKind, FailureSigns, GeolocationError, NetworkError,
};
use weathr::geolocation::{
    after_failure, split_coordinates, RetryStep, INITIAL_RETRY_DELAY_MS, MAX_RETRIES,
};
use weathr::random::{ScriptedSource, ThreadSource};
use weathr::render::{Color, ColorSupport, TerminalCapabilities, TerminalOp, TerminalRenderer};
use weathr::weather::open_meteo::{
    precipitation_unit_param, temperature_unit_param, units_query, wind_speed_unit_param,
};
use weathr::weather::types::condition_from_name;
use weathr::weather::{
    FogIntensity, PrecipitationUnit, RainIntensity, SnowIntensity, TemperatureUnit,
    WeatherCondition, WeatherConditions, WeatherData, WeatherLocation, WeatherUnits,
    WindSpeedUnit,
};

fn grid() -> TerminalRenderer {
    TerminalRenderer::with_size(
        100,
        30,
        TerminalCapabilities {
            color_support: ColorSupport::TrueColor,
            is_tty: true,
        },
    )
}

fn report(condition: WeatherCondition, is_day: bool, temperature: i64) -> WeatherSummary {
    WeatherSummary {
        condition,
        is_day,
        temperature,
        wind_speed: 10_000,
        wind_direction: 0,
        precipitation: 0,
    }
}

fn new_york() -> WeatherLocation {
    WeatherLocation {
        latitude: 40_712_800,
        longitude: -74_006_000,
    }
}

fn state_with(condition: WeatherCondition, is_day: bool, temperature: i64) -> AppState {
    let mut state = AppState::new(new_york(), false, WeatherUnits::default());
    state.update_weather(report(condition, is_day, temperature));
    state
}

#[test]
fn test_unit_conversion_params() {
    assert_eq!(temperature_unit_param(&TemperatureUnit::Celsius), "celsius");
    assert_eq!(
        temperature_unit_param(&TemperatureUnit::Fahrenheit),
        "fahrenheit"
    );
    assert_eq!(wind_speed_unit_param(&WindSpeedUnit::Kmh), "kmh");
    assert_eq!(wind_speed_unit_param(&WindSpeedUnit::Ms), "ms");
    assert_eq!(precipitation_unit_param(&PrecipitationUnit::Mm), "mm");
}

#[test]
fn test_units_query() {
    assert_eq!(wind_speed_unit_param(&WindSpeedUnit::Mph), "mph");
    assert_eq!(wind_speed_unit_param(&WindSpeedUnit::Kn), "kn");
    assert_eq!(precipitation_unit_param(&PrecipitationUnit::Inch), "inch");
    assert_eq!(
        units_query(&WeatherUnits::metric()),
        "&temperature_unit=celsius&wind_speed_unit=kmh&precipitation_unit=mm&timezone=auto"
    );
    assert_eq!(
        units_query(&WeatherUnits::imperial()),
        "&temperature_unit=fahrenheit&wind_speed_unit=mph&precipitation_unit=inch&timezone=auto"
    );
}

#[test]
fn test_condition_names() {
    for (name, condition) in [
        ("clear", WeatherCondition::Clear),
        ("partly_cloudy", WeatherCondition::PartlyCloudy),
        ("partly-cloudy", WeatherCondition::PartlyCloudy),
        ("cloudy", WeatherCondition::Cloudy),
        ("overcast", WeatherCondition::Overcast),
        ("fog", WeatherCondition::Fog),
        ("drizzle", WeatherCondition::Drizzle),
        ("rain", WeatherCondition::Rain),
        ("freezing_rain", WeatherCondition::FreezingRain),
        ("freezing-rain", WeatherCondition::FreezingRain),
        ("snow", WeatherCondition::Snow),
        ("snow_grains", WeatherCondition::SnowGrains),
        ("snow-grains", WeatherCondition::SnowGrains),
        ("rain_showers", WeatherCondition::RainShowers),
        ("rain-showers", WeatherCondition::RainShowers),
        ("snow_showers", WeatherCondition::SnowShowers),
        ("snow-showers", WeatherCondition::SnowShowers),
        ("thunderstorm", WeatherCondition::Thunderstorm),
        ("thunderstorm_hail", WeatherCondition::ThunderstormHail),
        ("thunderstorm-hail", WeatherCondition::ThunderstormHail),
    ] {
        assert_eq!(condition_from_name(name), Some(condition));
        assert_eq!(name.parse::<WeatherCondition>(), Ok(condition));
        assert_eq!(WeatherCondition::parse(&name.to_uppercase()), Ok(condition));
    }
    assert_eq!(condition_from_name("Clear"), None);
    assert_eq!(condition_from_name("partly cloudy"), None);
    assert_eq!(condition_from_name(""), None);
    assert_eq!("RaIn".parse::<WeatherCondition>(), Ok(WeatherCondition::Rain));
    assert_eq!(
        "Hail".parse::<WeatherCondition>(),
        Err("Unknown weather condition: 'Hail'. Valid options: clear, partly_cloudy, cloudy, overcast, fog, drizzle, rain, freezing_rain, snow, snow_grains, rain_showers, snow_showers, thunderstorm, thunderstorm_hail".to_string())
    );
}

#[test]
fn test_network_error_is_retryable() {
    let timeout_error = NetworkError::Timeout {
        url: "https://example.com".to_string(),
        timeout_secs: 10,
    };
    assert!(timeout_error.is_retryable());

    let connection_refused = NetworkError::ConnectionRefused {
        url: "https://example.com".to_string(),
    };
    assert!(connection_refused.is_retryable());
}

#[test]
fn test_network_error_user_friendly_message() {
    let timeout_error = NetworkError::Timeout {
        url: "https://api.example.com".to_string(),
        timeout_secs: 5,
    };
    let msg = timeout_error.user_friendly_message();
    assert!(msg.contains("timed out"));
    assert!(msg.contains("5s"));
    assert!(msg.contains("api.example.com"));

    let connection_refused = NetworkError::ConnectionRefused {
        url: "https://localhost:9999".to_string(),
    };
    let msg = connection_refused.user_friendly_message();
    assert!(msg.contains("Cannot connect"));
    assert!(msg.contains("localhost:9999"));
}

#[test]
fn test_geolocation_error_user_friendly_message() {
    let network_error = NetworkError::Timeout {
        url: "https://ipinfo.io/json".to_string(),
        timeout_secs: 10,
    };
    let geo_error = GeolocationError::Unreachable(network_error);
    let msg = geo_error.user_friendly_message();
    assert!(msg.contains("timed out"));
    assert!(msg.contains("10s"));
    assert!(msg.contains("configured/default"));
    assert!(!msg.contains("Cannot auto-detect location:"));

    let parse_error = GeolocationError::ParseError("Invalid coords".to_string());
    let msg = parse_error.user_friendly_message();
    assert!(msg.contains("invalid") || msg.contains("Invalid"));
    assert!(msg.contains("configured/default"));

    let retries_exhausted = GeolocationError::RetriesExhausted { attempts: 3 };
    let msg = retries_exhausted.user_friendly_message();
    assert!(msg.contains("3 attempts"));
    assert!(msg.contains("configured/default"));
}

#[test]
fn test_geolocation_error_all_network_variants() {
    let connection_refused = GeolocationError::Unreachable(NetworkError::ConnectionRefused {
        url: "https://ipinfo.io".to_string(),
    });
    let msg = connection_refused.user_friendly_message();
    assert!(msg.contains("unavailable"));
    assert!(!msg.contains("Network error:"));
    assert!(!msg.contains("Cannot auto-detect location:"));

    let timeout = GeolocationError::Unreachable(NetworkError::Timeout {
        url: "https://ipinfo.io".to_string(),
        timeout_secs: 5,
    });
    let msg = timeout.user_friendly_message();
    assert!(msg.contains("timed out"));
    assert!(msg.contains("5s"));
    assert!(!msg.contains("Network error:"));
    assert!(!msg.contains("Cannot auto-detect location:"));
}

#[test]
fn test_error_messages_word_for_word() {
    let timeout = NetworkError::Timeout {
        url: "https://api.example.com".to_string(),
        timeout_secs: 30,
    };
    assert_eq!(
        timeout.user_friendly_message(),
        "Request to https://api.example.com timed out after 30s. Check your internet connection."
    );
    let refused = NetworkError::ConnectionRefused {
        url: "http://localhost".to_string(),
    };
    assert_eq!(
        refused.user_friendly_message(),
        "Cannot connect to http://localhost. The service may be down."
    );
    assert_eq!(
        GeolocationError::Unreachable(timeout).user_friendly_message(),
        "Location detection timed out after 30s. Check your internet connection.\nUsing configured/default location."
    );
    assert_eq!(
        GeolocationError::Unreachable(refused).user_friendly_message(),
        "Location service is unavailable. Try again later.\nUsing configured/default location."
    );
    assert_eq!(
        GeolocationError::ParseError("x".to_string()).user_friendly_message(),
        "Received invalid location data.\nUsing configured/default location."
    );
    assert_eq!(
        GeolocationError::RetriesExhausted { attempts: 12 }.user_friendly_message(),
        "Failed to detect location after 12 attempts.\nUsing configured/default location."
    );
}

#[test]
fn test_retry_waits_twice_as_long_each_time() {
    assert_eq!(MAX_RETRIES, 3);
    assert_eq!(INITIAL_RETRY_DELAY_MS, 500);
    let timeout = || {
        GeolocationError::Unreachable(NetworkError::Timeout {
            url: "https://ipinfo.io/json".to_string(),
            timeout_secs: 10,
        })
    };
    assert_eq!(after_failure(&timeout(), 1), RetryStep::WaitMillis(500));
    assert_eq!(after_failure(&timeout(), 2), RetryStep::WaitMillis(1000));
    assert_eq!(after_failure(&timeout(), 3), RetryStep::GiveUp);
    assert_eq!(after_failure(&timeout(), 0), RetryStep::GiveUp);
    assert_eq!(after_failure(&timeout(), u32::MAX), RetryStep::GiveUp);
    let refused = GeolocationError::Unreachable(NetworkError::ConnectionRefused {
        url: "u".to_string(),
    });
    assert_eq!(after_failure(&refused, 1), RetryStep::WaitMillis(500));
    let parse = GeolocationError::ParseError("no".to_string());
    assert_eq!(after_failure(&parse, 1), RetryStep::GiveUp);
    let spent = GeolocationError::RetriesExhausted { attempts: 3 };
    assert_eq!(after_failure(&spent, 1), RetryStep::GiveUp);
}

#[test]
fn test_cache_freshness() {
    assert_eq!(LOCATION_CACHE_DURATION_SECS, 86400);
    assert_eq!(WEATHER_CACHE_DURATION_SECS, 300);
    assert!(is_fresh(1000, 1000, 300));
    assert!(is_fresh(1299, 1000, 300));
    assert!(!is_fresh(1300, 1000, 300));
    assert!(!is_fresh(999, 1000, 300));
    assert!(!is_fresh(1000, 1000, 0));
    assert!(is_fresh(u64::MAX, 0, u64::MAX) == false);
    assert!(is_fresh(u64::MAX - 1, 0, u64::MAX));
    // any clock in use today stands after the year 2020
    assert!(current_timestamp() > 1_577_836_800);
}

#[test]
fn test_loading_spinner() {
    let mut spinner = LoadingState::new();
    assert_eq!(spinner.frame, 0);
    assert_eq!(spinner.loading_chars, ['|', '/', '-', '\\']);
    assert!(!spinner.should_update(99));
    assert!(spinner.should_update(100));
    let mut shown = String::new();
    for _ in 0..6 {
        shown.push(spinner.current_char());
        spinner.next_frame();
    }
    assert_eq!(shown, "|/-\\|/");
    spinner.frame = usize::MAX;
    assert_eq!(spinner.current_char(), '\\');
    spinner.next_frame();
    assert_eq!(spinner.frame, 0);
}

#[test]
fn test_state_follows_the_weather() {
    let mut state = AppState::new(new_york(), true, WeatherUnits::imperial());
    assert!(state.current_weather.is_none());
    assert!(!state.is_offline);
    assert!(state.weather_info_needs_update);
    assert!(state.hide_location);
    assert_eq!(state.weather_conditions, WeatherConditions::default());
    assert_eq!(state.get_condition_text(), "Loading");
    state.set_offline_mode(true);
    assert!(state.is_offline);
    state.update_weather(report(WeatherCondition::Thunderstorm, false, 12_000));
    assert!(!state.is_offline);
    let flags = state.weather_conditions;
    assert!(flags.is_thunderstorm && !flags.is_raining && !flags.is_snowing);
    assert!(!flags.is_day && !flags.is_cloudy && !flags.is_foggy);
    assert_eq!(state.get_condition_text(), "Thunderstorm");
    state.update_weather(report(WeatherCondition::RainShowers, true, 12_000));
    assert!(state.weather_conditions.is_raining && state.weather_conditions.is_day);
    assert_eq!(state.get_condition_text(), "Rain Showers");
    for (condition, text) in [
        (WeatherCondition::Clear, "Clear"),
        (WeatherCondition::Cloudy, "Cloudy"),
        (WeatherCondition::PartlyCloudy, "Partly Cloudy"),
        (WeatherCondition::Overcast, "Overcast"),
        (WeatherCondition::Fog, "Fog"),
        (WeatherCondition::Drizzle, "Drizzle"),
        (WeatherCondition::FreezingRain, "Freezing Rain"),
        (WeatherCondition::Rain, "Rain"),
        (WeatherCondition::Snow, "Snow"),
        (WeatherCondition::SnowGrains, "Snow Grains"),
        (WeatherCondition::SnowShowers, "Snow Showers"),
        (WeatherCondition::ThunderstormHail, "Thunderstorm with Hail"),
    ] {
        assert_eq!(state_with(condition, true, 0).get_condition_text(), text);
    }
}

#[test]
fn test_status_line() {
    let mut state = AppState::new(new_york(), false, WeatherUnits::default());
    state.update_cached_info();
    assert_eq!(state.cached_weather_info, "Weather: Loading... |");
    assert!(!state.weather_info_needs_update);
    assert!(!state.update_loading_animation(99));
    assert!(!state.weather_info_needs_update);
    state.update_cached_info();
    assert!(state.update_loading_animation(100));
    assert!(state.weather_info_needs_update);
    state.update_cached_info();
    assert_eq!(state.cached_weather_info, "Weather: Loading... /");
    state.update_weather(report(WeatherCondition::PartlyCloudy, true, 20_000));
    state.update_cached_info();
    assert_eq!(
        state.cached_weather_info,
        "Weather: Partly Cloudy | Temp: 20.0\u{b0}C | Wind: 36.0km/h | Precip: 0.0mm | Location: 40.71\u{b0}N, 74.01\u{b0}W | Press 'q' to quit"
    );
    // nothing has changed since: the line stays, whatever has become of the place
    state.location = WeatherLocation {
        latitude: 0,
        longitude: 0,
    };
    state.update_cached_info();
    assert!(state.cached_weather_info.contains("40.71"));
    state.hide_location = true;
    state.set_offline_mode(true);
    state.update_cached_info();
    assert_eq!(
        state.cached_weather_info,
        "OFFLINE | Weather: Partly Cloudy | Temp: 20.0\u{b0}C | Wind: 36.0km/h | Precip: 0.0mm | Press 'q' to quit"
    );
}

#[test]
fn test_status_line_in_other_units() {
    let mut state = AppState::new(new_york(), true, WeatherUnits::imperial());
    state.update_weather(WeatherSummary {
        condition: WeatherCondition::Snow,
        is_day: false,
        temperature: -40_000,
        wind_speed: 10_000,
        wind_direction: 0,
        precipitation: 25_400,
    });
    state.update_cached_info();
    assert_eq!(
        state.cached_weather_info,
        "Weather: Snow | Temp: -40.0\u{b0}F | Wind: 22.4mph | Precip: 1.0in | Press 'q' to quit"
    );
    state.units = WeatherUnits {
        temperature: TemperatureUnit::Celsius,
        wind_speed: WindSpeedUnit::Kn,
        precipitation: PrecipitationUnit::Mm,
    };
    state.update_weather(WeatherSummary {
        condition: WeatherCondition::Rain,
        is_day: true,
        temperature: -40,
        wind_speed: 1_250,
        wind_direction: 0,
        precipitation: 12_349,
    });
    state.update_cached_info();
    // a half counts as a whole, and what is below nothing keeps its sign
    assert_eq!(
        state.cached_weather_info,
        "Weather: Rain | Temp: -0.0\u{b0}C | Wind: 2.4kn | Precip: 12.3mm | Press 'q' to quit"
    );
    state.units.wind_speed = WindSpeedUnit::Ms;
    state.set_offline_mode(false);
    state.update_cached_info();
    assert!(state.cached_weather_info.contains("Wind: 1.3m/s"));
}

#[test]
fn test_sun_and_fireflies() {
    assert!(state_with(WeatherCondition::Clear, true, 0).should_show_sun());
    assert!(state_with(WeatherCondition::PartlyCloudy, true, 0).should_show_sun());
    assert!(state_with(WeatherCondition::Cloudy, true, 0).should_show_sun());
    assert!(!state_with(WeatherCondition::Overcast, true, 0).should_show_sun());
    assert!(!state_with(WeatherCondition::Clear, false, 0).should_show_sun());
    assert!(!AppState::new(new_york(), false, WeatherUnits::default()).should_show_sun());
    assert!(state_with(WeatherCondition::Clear, false, 15_001).should_show_fireflies());
    assert!(state_with(WeatherCondition::PartlyCloudy, false, 30_000).should_show_fireflies());
    assert!(!state_with(WeatherCondition::Clear, false, 15_000).should_show_fireflies());
    assert!(!state_with(WeatherCondition::Clear, true, 20_000).should_show_fireflies());
    assert!(!state_with(WeatherCondition::Cloudy, false, 20_000).should_show_fireflies());
    assert!(!state_with(WeatherCondition::Rain, false, 20_000).should_show_fireflies());
    let mut state = AppState::new(new_york(), false, WeatherUnits::default());
    state.weather_conditions.is_day = false;
    assert!(!state.should_show_fireflies());
}

#[test]
fn test_manager_starts_every_system() {
    let mut source = ScriptedSource::new(vec![0]);
    let mut manager = AnimationManager::new(100, 30, true, &mut source);
    assert!(manager.show_leaves);
    assert_eq!(manager.raindrop_system.intensity, RainIntensity::Light);
    assert_eq!(manager.snow_system.intensity, SnowIntensity::Light);
    assert_eq!(manager.fog_system.intensity, FogIntensity::Light);
    assert_eq!(manager.thunderstorm_system.state, LightningState::Idle);
    assert_eq!(manager.cloud_system.clouds.len(), 5);
    assert_eq!(manager.star_system.stars.len(), 37);
    assert_eq!(manager.falling_leaves.leaves.len(), 10);
    manager.update_rain_intensity(RainIntensity::Storm);
    manager.update_snow_intensity(SnowIntensity::Heavy);
    manager.update_fog_intensity(FogIntensity::Medium);
    assert_eq!(manager.raindrop_system.intensity, RainIntensity::Storm);
    assert_eq!(manager.snow_system.intensity, SnowIntensity::Heavy);
    assert_eq!(manager.fog_system.intensity, FogIntensity::Medium);
    manager.update_wind(10_000, 225_000);
    assert_eq!(manager.raindrop_system.wind_x, 176);
    assert_eq!(manager.snow_system.wind_x, 352);
}

#[test]
fn test_foreground_runs_what_the_weather_calls_for() {
    let mut source = ThreadSource::new(rand::rng());
    let dry = WeatherConditions::default();
    let storm = WeatherConditions {
        is_thunderstorm: true,
        ..dry
    };
    let rain = WeatherConditions {
        is_raining: true,
        ..dry
    };
    let snow_and_fog = WeatherConditions {
        is_snowing: true,
        is_foggy: true,
        ..dry
    };
    let mut g = grid();
    let mut manager = AnimationManager::new(100, 30, false, &mut source);
    manager.render_foreground(&mut g, &dry, 101, 31, &mut source);
    assert_eq!(manager.raindrop_system.terminal_width, 100);
    assert_eq!(manager.snow_system.terminal_width, 100);
    assert_eq!(manager.fog_system.terminal_width, 100);
    assert_eq!(manager.thunderstorm_system.terminal_width, 100);
    assert_eq!(manager.falling_leaves.terminal_width, 100);
    assert_eq!(g.flush(), Vec::<TerminalOp>::new());
    manager.render_foreground(&mut g, &storm, 101, 31, &mut source);
    assert_eq!(manager.raindrop_system.terminal_width, 101);
    assert_eq!(manager.thunderstorm_system.terminal_width, 101);
    assert_eq!(manager.snow_system.terminal_width, 100);
    assert_eq!(manager.thunderstorm_system.timer, 1);
    manager.render_foreground(&mut g, &rain, 102, 31, &mut source);
    assert_eq!(manager.raindrop_system.terminal_width, 102);
    assert_eq!(manager.thunderstorm_system.terminal_width, 101);
    manager.render_foreground(&mut g, &snow_and_fog, 103, 31, &mut source);
    assert_eq!(manager.raindrop_system.terminal_width, 102);
    assert_eq!(manager.snow_system.terminal_width, 103);
    assert_eq!(manager.fog_system.terminal_width, 103);
    let mut leafy = AnimationManager::new(100, 30, true, &mut source);
    leafy.render_foreground(&mut g, &dry, 104, 31, &mut source);
    assert_eq!(leafy.falling_leaves.terminal_width, 104);
    leafy.render_foreground(&mut g, &rain, 105, 31, &mut source);
    assert_eq!(leafy.falling_leaves.terminal_width, 104);
}

#[test]
fn test_flash_turns_the_frame_white() {
    let mut source = ScriptedSource::new(vec![0]);
    let mut manager = AnimationManager::new(100, 30, false, &mut source);
    let storm = WeatherConditions {
        is_thunderstorm: true,
        ..WeatherConditions::default()
    };
    let mut g = grid();
    let mut flashes = 0;
    for _ in 0..80 {
        g.clear();
        g.render_char(0, 0, '#', Color::Red);
        manager.render_foreground(&mut g, &storm, 100, 30, &mut source);
        let first = g.cell_at(0, 0).unwrap();
        assert_eq!(first.character, '#');
        if manager.thunderstorm_system.is_flashing() {
            flashes += 1;
            assert_eq!(first.color, Color::White);
            assert_eq!(g.cell_at(99, 29).unwrap().color, Color::White);
        } else {
            assert_eq!(first.color, Color::Red);
        }
    }
    assert_eq!(flashes, 4);
}

#[test]
fn test_background_runs_what_the_weather_calls_for() {
    let mut source = ThreadSource::new(rand::rng());
    let mut g = grid();
    let day = WeatherConditions::default();
    let night = WeatherConditions {
        is_day: false,
        ..day
    };
    let rainy_night = WeatherConditions {
        is_raining: true,
        is_day: false,
        ..day
    };
    let foggy = WeatherConditions {
        is_foggy: true,
        ..day
    };
    let clear_day = state_with(WeatherCondition::Clear, true, 20_000);
    let warm_night = state_with(WeatherCondition::Clear, false, 20_000);
    let loading = AppState::new(new_york(), false, WeatherUnits::default());
    // with these words every cloud starts in the top left corner, off the sun
    let mut manager =
        AnimationManager::new(100, 30, false, &mut ScriptedSource::new(vec![0]));
    manager.render_background(&mut g, &day, &clear_day, 101, 31, &mut ScriptedSource::new(vec![0]));
    assert_eq!(manager.bird_system.terminal_width, 101);
    assert_eq!(manager.cloud_system.terminal_width, 101);
    assert_eq!(manager.airplane_system.terminal_width, 101);
    assert_eq!(manager.star_system.terminal_width, 100);
    assert_eq!(manager.firefly_system.terminal_width, 100);
    // the sun stands in the middle of the sky, from row 3 down
    assert_eq!(g.cell_at(40, 7).unwrap().color, Color::Yellow);
    manager.render_background(&mut g, &night, &warm_night, 102, 31, &mut source);
    assert_eq!(manager.star_system.terminal_width, 102);
    assert_eq!(manager.firefly_system.terminal_width, 102);
    assert_eq!(manager.cloud_system.terminal_width, 102);
    assert_eq!(manager.airplane_system.terminal_width, 102);
    assert_eq!(manager.bird_system.terminal_width, 101);
    manager.render_background(&mut g, &rainy_night, &warm_night, 103, 31, &mut source);
    assert_eq!(manager.star_system.terminal_width, 103);
    assert_eq!(manager.firefly_system.terminal_width, 103);
    assert_eq!(manager.cloud_system.terminal_width, 102);
    assert_eq!(manager.airplane_system.terminal_width, 102);
    // without a report the sky is not known to be clear: no clouds, no sun
    manager.render_background(&mut g, &foggy, &loading, 104, 31, &mut source);
    assert_eq!(manager.bird_system.terminal_width, 104);
    assert_eq!(manager.cloud_system.terminal_width, 102);
    assert_eq!(manager.airplane_system.terminal_width, 102);
}

#[test]
fn test_chimney_smokes_unless_it_rains() {
    let mut source = ScriptedSource::new(vec![0x0080_0000]);
    let mut manager = AnimationManager::new(100, 30, false, &mut source);
    let mut g = grid();
    let dry = WeatherConditions::default();
    let rain = WeatherConditions {
        is_raining: true,
        ..dry
    };
    for _ in 0..8 {
        manager.render_chimney_smoke(&mut g, &rain, 100, 30, &mut source);
    }
    assert_eq!(manager.chimney_smoke.spawn_counter, 0);
    for _ in 0..8 {
        manager.render_chimney_smoke(&mut g, &dry, 100, 30, &mut source);
    }
    assert_eq!(manager.chimney_smoke.particles.len(), 1);
    // the tip of the chimney: ten columns into the house, at its top
    assert_eq!(manager.chimney_smoke.particles[0].y, 10_000);
    assert!((27_000..=29_000).contains(&manager.chimney_smoke.particles[0].x));
    assert_eq!(g.cell_at(27, 10).unwrap().character, 'o');
}

#[test]
fn test_sun_changes_every_half_second() {
    let mut source = ScriptedSource::new(vec![0]);
    let mut manager = AnimationManager::new(100, 30, false, &mut source);
    let dry = WeatherConditions::default();
    let snow = WeatherConditions {
        is_snowing: true,
        ..dry
    };
    assert_eq!(FRAME_DELAY_MILLIS, 500);
    assert!(!manager.update_sunny_animation(&dry, 499));
    assert!(!manager.update_sunny_animation(&snow, 5000));
    assert!(manager.update_sunny_animation(&dry, 500));
    let mut g = grid();
    let state = state_with(WeatherCondition::Clear, true, 0);
    manager.render_background(&mut g, &dry, &state, 100, 30, &mut source);
    // the second picture has a bar where the first has a colon
    assert_eq!(g.cell_at(44, 7).unwrap().character, '|');
    assert!(manager.update_sunny_animation(&dry, 501));
    g.clear();
    manager.render_background(&mut g, &dry, &state, 100, 30, &mut source);
    assert_eq!(g.cell_at(44, 7).unwrap().character, ':');
}

// Angles come as millionths of a degree.
fn create_app_state(lat: f64, lon: f64) -> AppState {
    let location = WeatherLocation {
        latitude: (lat * 1_000_000.0).round() as i64,
        longitude: (lon * 1_000_000.0).round() as i64,
    };
    let units = WeatherUnits {
        temperature: TemperatureUnit::Celsius,
        wind_speed: WindSpeedUnit::Kmh,
        precipitation: PrecipitationUnit::Mm,
    };
    let mut app = AppState::new(location, false, units);

    let weather = WeatherData {
        condition: WeatherCondition::Clear,
        temperature: 20_000,
        apparent_temperature: 18_000,
        humidity: 60_000,
        precipitation: 0,
        wind_speed: 10_000,
        wind_direction: 0,
        cloud_cover: 0,
        pressure: 1_013_000,
        visibility: Some(10_000),
        is_day: true,
        moon_phase: Some(500),
        timestamp: "2024-01-01T12:00:00Z".to_string(),
    };
    app.update_weather(weather.summary());

    app
}

#[test]
fn test_new_york_coordinates() {
    // New York: 40.7128°N, 74.0060°W (positive lat, negative lon)
    let mut app = create_app_state(40.7128, -74.0060);
    app.update_cached_info();

    println!("NYC: {}", app.cached_weather_info);
    assert!(app.cached_weather_info.contains("40.71\u{b0}N"));
    assert!(app.cached_weather_info.contains("74.01\u{b0}W"));
}

#[test]
fn test_sydney_coordinates() {
    // Sydney: 33.8688°S, 151.2093°E (negative lat, positive lon)
    let mut app = create_app_state(-33.8688, 151.2093);
    app.update_cached_info();

    println!("Sydney: {}", app.cached_weather_info);
    assert!(app.cached_weather_info.contains("33.87\u{b0}S"));
    assert!(app.cached_weather_info.contains("151.21\u{b0}E"));
}

#[test]
fn test_london_coordinates() {
    // London: 51.5074°N, 0.1278°W (positive lat, negative lon near 0)
    let mut app = create_app_state(51.5074, -0.1278);
    app.update_cached_info();

    println!("London: {}", app.cached_weather_info);
    assert!(app.cached_weather_info.contains("51.51\u{b0}N"));
    assert!(app.cached_weather_info.contains("0.13\u{b0}W"));
}

#[test]
fn test_sao_paulo_coordinates() {
    // São Paulo: 23.5505°S, 46.6333°W (negative lat, negative lon)
    let mut app = create_app_state(-23.5505, -46.6333);
    app.update_cached_info();

    println!("São Paulo: {}", app.cached_weather_info);
    assert!(app.cached_weather_info.contains("23.55\u{b0}S"));
    assert!(app.cached_weather_info.contains("46.63\u{b0}W"));
}

#[test]
fn test_tokyo_coordinates() {
    // Tokyo: 35.6762°N, 139.6503°E (positive lat, positive lon)
    let mut app = create_app_state(35.6762, 139.6503);
    app.update_cached_info();

    println!("Tokyo: {}", app.cached_weather_info);
    assert!(app.cached_weather_info.contains("35.68\u{b0}N"));
    assert!(app.cached_weather_info.contains("139.65\u{b0}E"));
}

#[test]
fn test_equator_prime_meridian() {
    // Null Island: 0°, 0° (exactly at equator and prime meridian)
    let mut app = create_app_state(0.0, 0.0);
    app.update_cached_info();

    println!("Null Island: {}", app.cached_weather_info);
    assert!(app.cached_weather_info.contains("0.00\u{b0}N"));
    assert!(app.cached_weather_info.contains("0.00\u{b0}E"));
}

#[test]
fn test_failed_request_is_sorted() {
    // a request that cannot even be built: no timeout, no connection, no status, no body
    let error = reqwest::Client::new()
        .get("not a url")
        .build()
        .unwrap_err();
    let shown = error.to_string();
    let sorted = NetworkError::from_reqwest(error, "https://api.example.com", 30);
    assert!(matches!(sorted, NetworkError::Other(_)));
    assert!(!sorted.is_retryable());
    assert_eq!(
        sorted.user_friendly_message(),
        format!("Network error: {}", shown)
    );
    assert_eq!(sorted.to_string(), format!("network error: {}", shown));
    assert_eq!(
        GeolocationError::Unreachable(sorted).user_friendly_message(),
        "Cannot auto-detect location. Check your internet connection.\nUsing configured/default location."
    );
}

#[test]
fn test_failure_kinds() {
    let signs = |is_timeout, is_connect, is_status, status, is_decode| FailureSigns {
        is_timeout,
        is_connect,
        is_status,
        status,
        is_decode,
    };
    let kind = |s: FailureSigns, message: &str| classify_failure(&s, message);
    assert_eq!(kind(signs(true, true, true, Some(500), true), "dns refused"), FailureKind::Timeout);
    assert_eq!(kind(signs(false, true, true, Some(500), true), "dns error"), FailureKind::Dns);
    assert_eq!(kind(signs(false, true, false, None, false), "failed DNS lookup"), FailureKind::Dns);
    assert_eq!(kind(signs(false, true, false, None, false), "Connection refused"), FailureKind::Refused);
    assert_eq!(kind(signs(false, true, false, None, false), "it refused"), FailureKind::Refused);
    assert_eq!(kind(signs(false, true, false, None, false), "Dns Refused"), FailureKind::Other);
    assert_eq!(kind(signs(false, false, true, Some(404), true), "dns"), FailureKind::Http(404));
    assert_eq!(kind(signs(false, false, true, None, true), ""), FailureKind::Other);
    assert_eq!(kind(signs(false, false, false, Some(404), true), ""), FailureKind::Json);
    assert_eq!(kind(signs(false, false, false, None, false), "dns refused"), FailureKind::Other);
}

#[test]
fn test_network_error_lines() {
    let url = || "https://api.example.com".to_string();
    assert_eq!(
        NetworkError::Timeout { url: url(), timeout_secs: 30 }.to_string(),
        "connection timeout after 30s for https://api.example.com"
    );
    assert_eq!(
        NetworkError::ConnectionRefused { url: url() }.to_string(),
        "connection refused for https://api.example.com"
    );
    assert_eq!(
        GeolocationError::RetriesExhausted { attempts: 3 }.to_string(),
        "failed after 3 retry attempts"
    );
    assert_eq!(
        GeolocationError::ParseError("Invalid latitude format".to_string()).to_string(),
        "failed to parse location data: Invalid latitude format"
    );
    assert_eq!(
        GeolocationError::Unreachable(NetworkError::ConnectionRefused { url: url() }).to_string(),
        "cannot reach geolocation service"
    );
}

#[test]
fn test_a_place_is_cut_at_its_comma() {
    let cut = |loc: &str| match split_coordinates(loc) {
        Ok((north, east)) => Some((north, east)),
        Err(GeolocationError::ParseError(message)) => {
            assert_eq!(message, "Invalid location format from ipinfo.io");
            None
        }
        Err(other) => panic!("{:?}", other.to_string()),
    };
    assert_eq!(
        cut("52.5200,13.4100"),
        Some(("52.5200".to_string(), "13.4100".to_string()))
    );
    assert_eq!(
        cut("-33.87,151.21"),
        Some(("-33.87".to_string(), "151.21".to_string()))
    );
    assert_eq!(cut(","), Some((String::new(), String::new())));
    assert_eq!(cut("a,"), Some(("a".to_string(), String::new())));
    assert_eq!(cut(",\u{b0}"), Some((String::new(), "\u{b0}".to_string())));
    assert_eq!(cut(""), None);
    assert_eq!(cut("52.52"), None);
    assert_eq!(cut("1,2,3"), None);
    assert_eq!(cut(",,"), None);
}

#[test]
fn test_stored_weather_is_good_for_its_place_only() {
    assert_eq!(make_location_key(&new_york()), "40.71,-74.01");
    let sydney = WeatherLocation {
        latitude: -33_868_800,
        longitude: 151_209_300,
    };
    assert_eq!(make_location_key(&sydney), "-33.87,151.21");
    let null_island = WeatherLocation {
        latitude: 0,
        longitude: -1,
    };
    assert_eq!(make_location_key(&null_island), "0.00,-0.00");
    assert!(weather_cache_valid(1_000, 701, "40.71,-74.01", &new_york()));
    assert!(weather_cache_valid(1_000, 1_000, "40.71,-74.01", &new_york()));
    // too old, from the future, for another place
    assert!(!weather_cache_valid(1_000, 700, "40.71,-74.01", &new_york()));
    assert!(!weather_cache_valid(1_000, 1_001, "40.71,-74.01", &new_york()));
    assert!(!weather_cache_valid(1_000, 900, "40.71,74.01", &new_york()));
    assert!(!weather_cache_valid(1_000, 900, "-33.87,151.21", &new_york()));
    assert!(!weather_cache_valid(1_000, 900, "", &new_york()));
}

#[test]
fn test_a_clock_before_the_epoch_gives_no_time() {
    assert_eq!(timestamp_of(None), 0);
    assert_eq!(timestamp_of(Some(0)), 0);
    assert_eq!(timestamp_of(Some(1_700_000_000)), 1_700_000_000);
    assert_eq!(timestamp_of(Some(u64::MAX)), u64::MAX);
    assert!(current_timestamp() > 1_600_000_000);
}
