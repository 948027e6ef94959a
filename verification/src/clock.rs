//! A millisecond clock that counts from the moment it was started.

use std::time::Instant;
use vstd::prelude::*;

verus! {

/// `std::time::Instant`, a reading of the machine's monotonic clock. Nothing is claimed of what it
/// holds.
#[verifier::external_type_specification]
#[verifier::external_body]
pub struct ExInstant(std::time::Instant);

/// `std::time::Instant::now`. What it returns depends on the machine's clock, so nothing is
/// claimed of it.
pub assume_specification[ std::time::Instant::now ]() -> std::time::Instant;

/// Calls `std::time::Instant::elapsed` and hands the duration over as whole milliseconds. What it
/// returns depends on the machine's clock, so nothing is claimed of it.
#[verifier::external_body]
fn elapsed_millis(start: &Instant) -> u64 {
    start.elapsed().as_millis() as u64
}

/// Reads time as milliseconds since the clock was started.
pub struct Clock {
    epoch: Instant,
}

impl Clock {
    /// Whether the clock counts from a reading of `Instant::now`.
    pub closed spec fn is_started(self) -> bool {
        call_ensures(Instant::now, (), self.epoch)
    }

    /// Whether `millis` is a reading of the clock: what [`elapsed_millis`] returns for the moment
    /// at which the clock was started.
    pub closed spec fn reads(self, millis: u64) -> bool {
        call_ensures(elapsed_millis, (&self.epoch,), millis)
    }

    /// Starts a clock at zero.
    pub(crate) fn start() -> (clock: Self)
        ensures
            clock.is_started(),
    {
        Clock { epoch: Instant::now() }
    }

    /// Milliseconds since the clock was started.
    pub(crate) fn now_millis(&self) -> (millis: u64)
        ensures
            self.reads(millis),
    {
        elapsed_millis(&self.epoch)
    }
}

/// A clock reads nothing but what `elapsed_millis` returned for its own beginning, and it begins
/// at nothing but a reading of `Instant::now`.
proof fn law_readings_come_from_the_clock(clock: Clock, millis: u64)
    ensures
        clock.reads(millis) ==> call_ensures(elapsed_millis, (&clock.epoch,), millis),
        clock.is_started() ==> call_ensures(Instant::now, (), clock.epoch),
{
}

} // verus!
