//! Finding out where the user is: what a location service's answer
//! says, and when to ask again.

use vstd::prelude::*;
use vstd::string::StringExecFns;
use crate::error::GeolocationError;
use crate::text::push_char;

verus! {

/// Tries at most.
pub const MAX_RETRIES: u32 = 3;

/// Milliseconds to wait after the first failure; twice as long after
/// each further one.
pub const INITIAL_RETRY_DELAY_MS: u64 = 500;

/// What to do after a failed try.
#[derive(Debug, Clone, Copy, PartialEq, Eq, Structural)]
pub enum RetryStep {
    /// Report the failure.
    GiveUp,
    /// Wait this many milliseconds and try again.
    WaitMillis(u64),
}

/// Two to the power of `n`.
pub open spec fn pow2(n: nat) -> nat
    decreases n,
{
    if n == 0 {
        1
    } else {
        2 * pow2((n - 1) as nat)
    }
}

/// What follows the failure of the `attempt`th try: another try where
/// the service was not reached for a reason that may pass and tries are
/// left, after a wait that doubles each time.
pub open spec fn step_after(error: GeolocationError, attempt: u32) -> RetryStep {
    if (error matches GeolocationError::Unreachable(net) && net.retryable()) && 1 <= attempt
        < MAX_RETRIES {
        RetryStep::WaitMillis((INITIAL_RETRY_DELAY_MS * pow2((attempt - 1) as nat)) as u64)
    } else {
        RetryStep::GiveUp
    }
}

/// What to do after the `attempt`th try has failed with `error`, the
/// first try being number 1.
pub fn after_failure(error: &GeolocationError, attempt: u32) -> (step: RetryStep)
    ensures
        step == step_after(*error, attempt),
{
    let should_retry = match error {
        GeolocationError::Unreachable(net) => net.is_retryable(),
        _ => false,
    };
    if !should_retry || attempt < 1 || attempt >= MAX_RETRIES {
        return RetryStep::GiveUp;
    }
    assert(pow2(1) == 2) by {
        reveal_with_fuel(pow2, 2);
    }
    if attempt == 1 {
        RetryStep::WaitMillis(INITIAL_RETRY_DELAY_MS)
    } else {
        RetryStep::WaitMillis(INITIAL_RETRY_DELAY_MS * 2)
    }
}

/// How many commas there are in a text.
pub open spec fn commas(text: Seq<char>) -> nat
    decreases text.len(),
{
    if text.len() == 0 {
        0
    } else {
        commas(text.drop_last()) + if text.last() == ',' {
            1nat
        } else {
            0nat
        }
    }
}

/// The two parts of a place that is written as latitude, comma,
/// longitude.
///
/// A text with one comma is cut at it, and the comma dropped. Any other
/// text is no place.
pub fn split_coordinates(loc: &str) -> (parts: Result<(String, String), GeolocationError>)
    ensures
        commas(loc@) == 1 ==> (parts matches Ok(pair) && pair.0@ + seq![','] + pair.1@ == loc@
            && !pair.0@.contains(',') && !pair.1@.contains(',')),
        commas(loc@) != 1 ==> (parts matches Err(GeolocationError::ParseError(message))
            && message@ == "Invalid location format from ipinfo.io"@),
{
    let mut left = String::new();
    let mut right = String::new();
    let mut seen: usize = 0;
    let n: usize = loc.unicode_len();
    let mut j: usize = 0;
    let ghost mut cut: int = 0;
    for ch in it: loc.chars()
        invariant
            j == it.index(),
            it.seq() == loc@,
            n == loc@.len(),
            seen <= j,
            seen == commas(loc@.take(j as int)),
            seen == 0 ==> left@ == loc@.take(j as int) && right@.len() == 0,
            seen == 0 ==> !left@.contains(','),
            seen == 1 ==> 0 <= cut < j && loc@[cut] == ',' && left@ == loc@.take(cut) && right@
                == loc@.subrange(cut + 1, j as int),
            seen == 1 ==> !left@.contains(',') && !right@.contains(','),
    {
        proof {
            assert(loc@.take(j + 1).drop_last() =~= loc@.take(j as int));
        }
        if ch == ',' {
            if seen == 0 {
                proof {
                    cut = j as int;
                }
            }
            seen += 1;
        } else if seen == 0 {
            push_char(&mut left, ch);
        } else if seen == 1 {
            push_char(&mut right, ch);
        }
        j += 1;
    }
    proof {
        assert(loc@.take(j as int) =~= loc@);
    }
    if seen == 1 {
        Ok((left, right))
    } else {
        Err(
            GeolocationError::ParseError(
                String::from_str("Invalid location format from ipinfo.io"),
            ),
        )
    }
}

} // verus!
