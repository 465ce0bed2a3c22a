//! How long to go on asking for the database when the program starts.
//!
//! The database may not be up yet when the program is. Each attempt to
//! reach it has a number, from 1. After each failed attempt the program
//! waits, twice as long each time, and tries again; after the last retry
//! has failed too, it gives up and does not start.

use vstd::arithmetic::power2::{lemma2_to64, lemma_pow2_strictly_increases, pow2};
use vstd::prelude::*;

verus! {

/// How often the program tries again after the first attempt has failed.
pub const MAX_CONNECT_RETRIES: u32 = 10;

/// What to do after an attempt to reach the database.
#[derive(Debug, PartialEq, Eq, Clone, Copy, Structural)]
pub enum ConnectStep {
    /// The database answered: go on with the connection.
    Connected,
    /// Wait for so many seconds, then make the next attempt.
    RetryAfter { seconds: u64 },
    /// No retry is left: the program cannot start.
    GiveUp,
}

/// The seconds to wait after the failed attempt of the given number: 2 to
/// the power of the number.
pub open spec fn backoff(attempt: nat) -> nat {
    pow2(attempt)
}

/// What to do after the attempt of the given number.
pub open spec fn connect_step(attempt: nat, connected: bool) -> ConnectStep {
    if connected {
        ConnectStep::Connected
    } else if attempt <= MAX_CONNECT_RETRIES {
        ConnectStep::RetryAfter { seconds: backoff(attempt) as u64 }
    } else {
        ConnectStep::GiveUp
    }
}

/// How often the database is asked if it never answers: the first attempt
/// and every retry.
pub open spec fn attempts_until_give_up() -> nat {
    (MAX_CONNECT_RETRIES + 1) as nat
}

/// The waits double from 2 seconds after the first attempt to 1024 after
/// the one before the last, and each fits in 64 bits.
pub proof fn lemma_backoff_doubles(attempt: nat)
    ensures
        backoff(1) == 2,
        backoff(MAX_CONNECT_RETRIES as nat) == 1024,
        backoff(attempt + 1) == 2 * backoff(attempt),
        attempt <= MAX_CONNECT_RETRIES ==> backoff(attempt) <= 1024,
{
    lemma2_to64();
    vstd::arithmetic::power2::lemma_pow2_unfold(attempt + 1);
    if attempt < MAX_CONNECT_RETRIES {
        lemma_pow2_strictly_increases(attempt, MAX_CONNECT_RETRIES as nat);
    }
}

/// While the database does not answer, every attempt up to the last is
/// followed by a retry, and the last one by none.
pub proof fn lemma_gives_up_after_last_retry(attempt: nat)
    ensures
        1 <= attempt < attempts_until_give_up() ==> connect_step(attempt, false)
            is RetryAfter,
        attempt >= attempts_until_give_up() ==> connect_step(attempt, false) == ConnectStep::GiveUp,
        connect_step(attempt, true) == ConnectStep::Connected,
{
}

/// The seconds to wait after the failed attempt of the given number.
pub fn backoff_seconds(attempt: u32) -> (seconds: u64)
    requires
        attempt < 64,
    ensures
        seconds == backoff(attempt as nat),
{
    proof {
        vstd::bits::lemma_u64_pow2_no_overflow(attempt as nat);
        vstd::bits::lemma_u64_shl_is_mul(1, attempt as u64);
    }
    1u64 << (attempt as u64)
}

/// Decides what follows the attempt of the given number.
pub fn next_connect_step(attempt: u32, connected: bool) -> (step: ConnectStep)
    ensures
        step == connect_step(attempt as nat, connected),
{
    if connected {
        ConnectStep::Connected
    } else if attempt <= MAX_CONNECT_RETRIES {
        ConnectStep::RetryAfter { seconds: backoff_seconds(attempt) }
    } else {
        ConnectStep::GiveUp
    }
}

} // verus!
