//! Backoff and deadline arithmetic.

use crate::config::PollEngineConfig;
use vstd::prelude::*;

verus! {

/// The interval a registration gets: the configured default where the caller
/// asked for 0, the requested interval otherwise.
pub open spec fn effective_interval(config: PollEngineConfig, interval: u32) -> u64 {
    if interval == 0 {
        config.default_interval as u64
    } else {
        interval as u64
    }
}

/// Seconds to wait, from `now`, until the next poll may fire. The poll is due
/// at `upcoming` or `backoff` seconds after the last poll, whichever is later;
/// a poll that is already overdue fires after one second.
pub open spec fn poll_delay(backoff: int, upcoming: int, now: int, last_poll: int) -> int {
    let minimum_poll_time = last_poll + backoff;
    let deadline = if upcoming >= minimum_poll_time {
        upcoming
    } else {
        minimum_poll_time
    };
    if deadline < now {
        1
    } else {
        deadline - now
    }
}

pub fn default_if_zero(config: &PollEngineConfig, interval: u32) -> (used: u64)
    ensures
        used == effective_interval(*config, interval),
        interval == 0 ==> used == config.default_interval,
        interval != 0 ==> used == interval,
{
    if interval == 0 {
        config.default_interval as u64
    } else {
        interval as u64
    }
}

/// Computes how long the poll timer has to run.
///
/// `last_poll + backoff` is taken as a mathematical sum: the delay is exact
/// even where that sum does not fit in 64 bits.
pub fn calculate_poll_time(backoff: u64, upcoming_entry: u64, now: u64, last_poll: u64) -> (delay: u64)
    requires
        last_poll <= now,
    ensures
        delay == poll_delay(backoff as int, upcoming_entry as int, now as int, last_poll as int),
{
    let elapsed: u64 = now - last_poll;
    if upcoming_entry >= now {
        let by_deadline: u64 = upcoming_entry - now;
        if backoff >= elapsed && backoff - elapsed > by_deadline {
            backoff - elapsed
        } else {
            by_deadline
        }
    } else if backoff >= elapsed {
        backoff - elapsed
    } else {
        1
    }
}

/// The timer never fires before the backoff since the last poll is over, nor
/// before the upcoming deadline, and it is never set to run backwards. It is
/// set to 0 only where the poll is due exactly now.
pub proof fn lemma_poll_delay_keeps_backoff(backoff: int, upcoming: int, now: int, last_poll: int)
    requires
        0 <= backoff,
        last_poll <= now,
    ensures
        poll_delay(backoff, upcoming, now, last_poll) >= 0,
        now + poll_delay(backoff, upcoming, now, last_poll) >= last_poll + backoff,
        now + poll_delay(backoff, upcoming, now, last_poll) >= upcoming,
        poll_delay(backoff, upcoming, now, last_poll) == 0 ==> (upcoming == now || last_poll
            + backoff == now),
{
}

/// A delay always fits in 64 bits, even where `last_poll + backoff` does not.
pub proof fn lemma_poll_delay_fits(backoff: u64, upcoming: u64, now: u64, last_poll: u64)
    requires
        last_poll <= now,
    ensures
        0 <= poll_delay(backoff as int, upcoming as int, now as int, last_poll as int) <= u64::MAX,
{
}

} // verus!
