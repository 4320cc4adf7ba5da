//! The two periodic pulses of the loop, as validated periods.

use vstd::prelude::*;
use crate::error::Error;

verus! {

/// Nanoseconds in one second.
pub const NANOS_PER_SECOND: u64 = 1_000_000_000;

/// The periods of the frame pulse and of the tick pulse, in nanoseconds.
/// Both are positive, and fixed once the clock is made.
#[derive(Clone, Copy, Debug)]
pub struct Clock {
    frame_nanos: u64,
    tick_nanos: u64,
}

/// The period in nanoseconds of a pulse that fires `rate` times a second,
/// rounded down.
pub open spec fn period_of(rate: u32) -> int
    recommends
        rate > 0,
{
    NANOS_PER_SECOND as int / rate as int
}

/// Whether a rate in pulses per second has a positive period in nanoseconds.
pub open spec fn rate_ok(rate: u32) -> bool {
    0 < rate && rate <= NANOS_PER_SECOND
}

impl Clock {
    #[verifier::type_invariant]
    spec fn positive(self) -> bool {
        self.frame_nanos > 0 && self.tick_nanos > 0
    }

    /// The period of the frame pulse, in nanoseconds.
    pub closed spec fn frame_period_spec(&self) -> u64 {
        self.frame_nanos
    }

    /// The period of the tick pulse, in nanoseconds.
    pub closed spec fn tick_period_spec(&self) -> u64 {
        self.tick_nanos
    }

    /// A clock for the given rates in pulses per second; each period is the
    /// reciprocal of its rate. Fails with [`Error::Config`] exactly when a
    /// rate is zero or above one pulse per nanosecond.
    pub fn new(frame_rate: u32, tick_rate: u32) -> (r: Result<Clock, Error>)
        ensures
            rate_ok(frame_rate) && rate_ok(tick_rate) ==> r.is_ok()
                && r.unwrap().frame_period_spec() == period_of(frame_rate)
                && r.unwrap().tick_period_spec() == period_of(tick_rate),
            !(rate_ok(frame_rate) && rate_ok(tick_rate)) ==> r == Err::<Clock, Error>(
                Error::Config,
            ),
    {
        if frame_rate == 0 || tick_rate == 0 || frame_rate as u64 > NANOS_PER_SECOND
            || tick_rate as u64 > NANOS_PER_SECOND {
            return Err(Error::Config);
        }
        let frame_nanos: u64 = NANOS_PER_SECOND / (frame_rate as u64);
        let tick_nanos: u64 = NANOS_PER_SECOND / (tick_rate as u64);
        assert(frame_nanos > 0 && tick_nanos > 0) by (nonlinear_arith)
            requires
                0 < frame_rate <= 1_000_000_000,
                0 < tick_rate <= 1_000_000_000,
                frame_nanos == 1_000_000_000int / (frame_rate as int),
                tick_nanos == 1_000_000_000int / (tick_rate as int),
        ;
        Clock::from_periods(frame_nanos, tick_nanos)
    }

    /// A clock with the given periods in nanoseconds. Fails with
    /// [`Error::Config`] exactly when a period is zero.
    pub fn from_periods(frame_nanos: u64, tick_nanos: u64) -> (r: Result<Clock, Error>)
        ensures
            frame_nanos > 0 && tick_nanos > 0 ==> r.is_ok() && r.unwrap().frame_period_spec()
                == frame_nanos && r.unwrap().tick_period_spec() == tick_nanos,
            frame_nanos == 0 || tick_nanos == 0 ==> r == Err::<Clock, Error>(Error::Config),
    {
        if frame_nanos == 0 || tick_nanos == 0 {
            Err(Error::Config)
        } else {
            Ok(Clock { frame_nanos, tick_nanos })
        }
    }

    /// The period of the frame pulse, in nanoseconds: never zero.
    pub fn frame_period(&self) -> (r: u64)
        ensures
            r == self.frame_period_spec(),
            r > 0,
    {
        proof {
            use_type_invariant(self);
        }
        self.frame_nanos
    }

    /// The period of the tick pulse, in nanoseconds: never zero.
    pub fn tick_period(&self) -> (r: u64)
        ensures
            r == self.tick_period_spec(),
            r > 0,
    {
        proof {
            use_type_invariant(self);
        }
        self.tick_nanos
    }
}

} // verus!
