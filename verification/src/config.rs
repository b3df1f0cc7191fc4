//! Startup validation of the two configured cadences.
//!
//! The render loop ticks every `tick` milliseconds; the background poll runs
//! every `poll` milliseconds. The poll interval must be an exact integer
//! multiple of the tick interval, so that the refresh scheduler can count
//! ticks instead of keeping a second timer, and the tick interval must stay
//! under one second to keep the interface perceptibly live.

use vstd::prelude::*;

verus! {

/// Exclusive upper bound on the tick interval, in milliseconds.
pub const MAX_TICK_MS: u64 = 1000;

/// Why a pair of intervals was rejected at startup.
#[derive(Clone, Copy, Debug, PartialEq, Eq, Structural)]
pub enum ConfigError {
    /// The tick interval is zero or at least one second.
    TickOutOfRange,
    /// The poll interval is not an integer multiple of the tick interval.
    PollNotMultiple,
    /// The poll interval is shorter than the tick interval (ratio would be 0).
    PollTooShort,
}

/// A configuration is accepted exactly when the tick interval is in range and
/// the poll interval is a positive integer multiple of it.
pub open spec fn intervals_valid(tick: u64, poll: u64) -> bool {
    &&& 1 <= tick < MAX_TICK_MS
    &&& poll % tick == 0
    &&& poll >= tick
}

/// Validates the configured intervals and computes the tick/poll ratio: the
/// number of ticks between consecutive refresh commands. Accepts exactly the
/// valid configurations and names the first rule an invalid pair breaks.
pub fn validate_intervals(tick: u64, poll: u64) -> (r: Result<u64, ConfigError>)
    ensures
        r is Ok <==> intervals_valid(tick, poll),
        r matches Ok(k) ==> k == poll / tick && k >= 1,
        r == Err::<u64, ConfigError>(ConfigError::TickOutOfRange)
            <==> !(1 <= tick < MAX_TICK_MS),
        r == Err::<u64, ConfigError>(ConfigError::PollNotMultiple)
            <==> (1 <= tick < MAX_TICK_MS && poll % tick != 0),
        r == Err::<u64, ConfigError>(ConfigError::PollTooShort)
            <==> (1 <= tick < MAX_TICK_MS && poll % tick == 0 && poll < tick),
{
    if tick == 0 || tick >= MAX_TICK_MS {
        Err(ConfigError::TickOutOfRange)
    } else if poll % tick != 0 {
        Err(ConfigError::PollNotMultiple)
    } else if poll < tick {
        Err(ConfigError::PollTooShort)
    } else {
        proof {
            vstd::arithmetic::div_mod::lemma_div_non_zero(poll as int, tick as int);
        }
        Ok(poll / tick)
    }
}

} // verus!
