//! The fixed-interval ticker of a session, kept by `rusty_time::Timer`.

use vstd::prelude::*;
use core::time::Duration;
use rusty_time::Timer;

verus! {

#[verifier::external_type_specification]
#[verifier::external_body]
pub struct ExTimer(rusty_time::Timer);

/// What a timer holds, with times in nanoseconds.
pub struct TickerState {
    /// The full interval that the timer is wound up to.
    pub interval: nat,
    /// The time left until the timer fires.
    pub remaining: nat,
    /// Whether the timer has run down.
    pub finished: bool,
    /// Whether the last advance ran the timer down.
    pub just_finished: bool,
}

/// What `ticker` holds.
pub uninterp spec fn ticker_state(ticker: Timer) -> TickerState;

/// Nanoseconds in one millisecond.
pub open spec fn nanos_per_milli() -> nat {
    1_000_000
}

impl TickerState {
    /// A timer fresh from its making, wound up to `millis` milliseconds.
    pub open spec fn fresh(millis: nat) -> TickerState {
        TickerState {
            interval: millis * nanos_per_milli(),
            remaining: millis * nanos_per_milli(),
            finished: false,
            just_finished: false,
        }
    }

    /// The timer after `delta` nanoseconds more: a timer that has run down
    /// stays as it is, any other counts down and fires on reaching zero.
    pub open spec fn advanced(self, delta: nat) -> TickerState {
        if self.finished {
            TickerState { just_finished: false, ..self }
        } else {
            let left: nat = if self.remaining > delta {
                (self.remaining - delta) as nat
            } else {
                0
            };
            TickerState {
                remaining: left,
                finished: left == 0,
                just_finished: left == 0,
                ..self
            }
        }
    }

    /// The timer wound up to its full interval again. A timer whose interval
    /// is zero while time is left on it runs down by this instead.
    pub open spec fn rewound(self) -> TickerState {
        if self.interval == 0 && self.remaining != 0 {
            TickerState { remaining: 0, finished: true, just_finished: true, ..self }
        } else {
            TickerState { remaining: self.interval, finished: false, just_finished: false, ..self }
        }
    }
}

/// Makes a timer by `rusty_time::Timer::new`, which sets the interval and the
/// time left to the duration given, here `millis` milliseconds, and both
/// flags to false.
#[verifier::external_body]
pub(crate) fn ticker_new(millis: u64) -> (ticker: Timer)
    ensures
        ticker_state(ticker) == TickerState::fresh(millis as nat),
{
    Timer::new(Duration::from_millis(millis))
}

/// Hands `delta` nanoseconds to `rusty_time::Timer::tick`. That clears the
/// flag of having just finished; a timer that has not run down then has
/// `delta` taken off its time left, stopping at zero, and both flags set if
/// zero is reached.
#[verifier::external_body]
pub(crate) fn ticker_advance(ticker: &mut Timer, delta: u64)
    ensures
        ticker_state(*final(ticker)) == ticker_state(*old(ticker)).advanced(delta as nat),
{
    ticker.tick(Duration::from_nanos(delta));
}

/// Reads `rusty_time::Timer::just_finished`: whether the last advance ran
/// the timer down.
#[verifier::external_body]
pub(crate) fn ticker_just_finished(ticker: &Timer) -> (fired: bool)
    ensures
        fired == ticker_state(*ticker).just_finished,
{
    ticker.just_finished()
}

/// Calls `rusty_time::Timer::reset`, which sets the time left to the full
/// interval and clears both flags; where the interval is zero and time was
/// left, it sets both flags instead.
#[verifier::external_body]
pub(crate) fn ticker_reset(ticker: &mut Timer)
    ensures
        ticker_state(*final(ticker)) == ticker_state(*old(ticker)).rewound(),
{
    ticker.reset();
}

/// A timer fresh from its making fires on an advance exactly when the advance
/// is at least as long as its interval, and winding it up after that makes it
/// fresh again.
pub proof fn fresh_ticker_fires_at_its_interval(millis: nat, delta: nat)
    ensures
        TickerState::fresh(millis).advanced(delta).just_finished <==> delta >= millis
            * nanos_per_milli(),
        TickerState::fresh(millis).advanced(delta).just_finished ==> TickerState::fresh(
            millis,
        ).advanced(delta).rewound() == TickerState::fresh(millis),
{
}

/// Advances that stay short of the time left add up: two in a row leave the
/// timer where one advance by their sum leaves it.
pub proof fn short_advances_add_up(state: TickerState, first: nat, second: nat)
    requires
        !state.finished,
        first < state.remaining,
    ensures
        state.advanced(first).advanced(second) == state.advanced(first + second),
{
}

} // verus!
