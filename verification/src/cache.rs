//! How long what was fetched stays good.

use vstd::prelude::*;
use vstd::string::StringExecFns;
use crate::text::{push_signed_two_places, signed_two_places, str_eq};
use crate::weather::types::WeatherLocation;

verus! {

/// Seconds that a location stays good.
pub const LOCATION_CACHE_DURATION_SECS: u64 = 86400;

/// Seconds that a weather report stays good.
pub const WEATHER_CACHE_DURATION_SECS: u64 = 300;

/// `std::time::SystemTime`, carried along as it comes.
#[verifier::external_type_specification]
#[verifier::external_body]
pub struct ExSystemTime(std::time::SystemTime);

/// `SystemTime::now`: the time on the system's clock.
#[verifier::external_body]
fn system_now() -> std::time::SystemTime {
    std::time::SystemTime::now()
}

/// `SystemTime::duration_since` the start of 1970: the time that has
/// passed since then, or `None` where `time` lies before it. Nothing is
/// claimed of the span.
#[verifier::external_body]
fn since_epoch(time: &std::time::SystemTime) -> Option<std::time::Duration> {
    time.duration_since(std::time::UNIX_EPOCH).ok()
}

/// `Duration::as_secs`: the whole seconds of a span of time. Nothing is
/// claimed of the number.
#[verifier::external_body]
fn whole_seconds(span: &std::time::Duration) -> u64 {
    span.as_secs()
}

/// The time stamp for a span of whole seconds since the start of 1970:
/// the span, or 0 where there is none because the clock stands before
/// that.
pub fn timestamp_of(elapsed: Option<u64>) -> (stamp: u64)
    ensures
        stamp == match elapsed {
            Some(seconds) => seconds,
            None => 0,
        },
{
    match elapsed {
        Some(seconds) => seconds,
        None => 0,
    }
}

/// The time in seconds since the start of 1970, or 0 where the clock
/// stands before it; see [`timestamp_of`]. Nothing is known of the
/// clock.
pub fn current_timestamp() -> u64 {
    let elapsed = match since_epoch(&system_now()) {
        Some(span) => Some(whole_seconds(&span)),
        None => None,
    };
    timestamp_of(elapsed)
}

/// Whether what was stored at `cached_at` is still good at `now`, if it
/// stays good for `max_age` seconds. What claims to be stored in the
/// future is not.
pub fn is_fresh(now: u64, cached_at: u64, max_age: u64) -> (fresh: bool)
    ensures
        fresh == (cached_at <= now && now - cached_at < max_age),
{
    cached_at <= now && now - cached_at < max_age
}

/// The name under which the weather for a place is stored: latitude
/// and longitude with two decimal places, with a comma between them.
pub open spec fn location_key(location: WeatherLocation) -> Seq<char> {
    signed_two_places(location.latitude) + seq![','] + signed_two_places(location.longitude)
}

/// The name under which the weather for a place is stored.
pub fn make_location_key(location: &WeatherLocation) -> (key: String)
    ensures
        key@ == location_key(*location),
{
    let mut key = String::new();
    push_signed_two_places(&mut key, location.latitude);
    key.append(",");
    push_signed_two_places(&mut key, location.longitude);
    proof {
        reveal_strlit(",");
    }
    key
}

/// Whether weather that was stored at `cached_at` under the name
/// `stored_key` is good for a place at `now`: it was stored for that
/// place, and less than five minutes ago.
pub fn weather_cache_valid(
    now: u64,
    cached_at: u64,
    stored_key: &str,
    location: &WeatherLocation,
) -> (valid: bool)
    ensures
        valid == (stored_key@ == location_key(*location) && cached_at <= now && now - cached_at
            < WEATHER_CACHE_DURATION_SECS),
{
    let key = make_location_key(location);
    str_eq(stored_key, key.as_str()) && is_fresh(now, cached_at, WEATHER_CACHE_DURATION_SECS)
}

} // verus!
