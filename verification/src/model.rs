//! The adaptive controller's state and transitions as mathematics.

use vstd::prelude::*;

verus! {

/// Consecutive successes after which concurrency and batch size step up.
pub const SCALE_UP_THRESHOLD: usize = 10;

/// Backoff that the first rate limit sets, in milliseconds.
pub const INITIAL_BACKOFF_MS: u64 = 500;

/// Largest backoff, in milliseconds.
pub const MAX_BACKOFF_MS: u64 = 30_000;

/// Backoff at or below this (ms) is cleared by a recovery tick rather than halved again.
pub const BACKOFF_CLEAR_FLOOR_MS: u64 = 100;

/// Calls per batch that a new controller starts with.
pub const INITIAL_BATCH_SIZE: usize = 50;

/// Fewest calls per batch.
pub const MIN_BATCH_SIZE: usize = 5;

/// Most calls per batch.
pub const MAX_BATCH_SIZE: usize = 100;

/// Idle period (no rate-limit event) after which time-based recovery begins.
pub const IDLE_BEFORE_RECOVERY_MS: u64 = 5_000;

/// Minimum gap between successive recovery ticks once idle.
pub const RECOVERY_INTERVAL_MS: u64 = 2_000;

pub open spec fn min_of(a: int, b: int) -> int {
    if a <= b {
        a
    } else {
        b
    }
}

pub open spec fn max_of(a: int, b: int) -> int {
    if a >= b {
        a
    } else {
        b
    }
}

/// Time from `earlier` to `now`, zero when `now` comes first.
pub open spec fn time_since(now: int, earlier: int) -> int {
    max_of(0, now - earlier)
}

/// One step up: a fifth more, at least `least` more, never past `cap`. A value that is at the cap
/// or above it stays.
pub open spec fn stepped_up(value: int, cap: int, least: int) -> int {
    if value < cap {
        min_of(cap, value + max_of(least, value / 5))
    } else {
        value
    }
}

/// Concurrency after a rate limit: half, not below `min`. A value at `min` or below it stays.
pub open spec fn halved_concurrency(current: int, min: int) -> int {
    if current > min {
        max_of(min, current / 2)
    } else {
        current
    }
}

/// Concurrency after a general error: a tenth less, at least one less, not below `min`. A value
/// at `min` or below it stays.
pub open spec fn trimmed_concurrency(current: int, min: int) -> int {
    if current > min {
        max_of(min, current - max_of(1, current / 10))
    } else {
        current
    }
}

/// Backoff after a rate limit: doubled up to the maximum, started when there was none.
pub open spec fn raised_backoff(backoff: int) -> int {
    if backoff == 0 {
        INITIAL_BACKOFF_MS as int
    } else {
        min_of(MAX_BACKOFF_MS as int, 2 * backoff)
    }
}

/// Backoff after a success: a quarter less, rounded down.
pub open spec fn decayed_backoff(backoff: int) -> int {
    backoff * 3 / 4
}

/// Backoff after a recovery tick: halved, or cleared once it is small.
pub open spec fn recovered_backoff(backoff: int) -> int {
    if backoff <= BACKOFF_CLEAR_FLOOR_MS {
        0
    } else {
        backoff / 2
    }
}

/// A controller's state.
pub struct Controller {
    /// Concurrency level.
    pub current: int,
    /// Concurrency that scaling down does not go below.
    pub min: int,
    /// Concurrency that scaling up does not go above.
    pub max: int,
    /// Successes since the last step up, rate limit or error.
    pub consecutive_successes: int,
    /// Backoff delay in milliseconds.
    pub backoff_ms: int,
    /// Calls per batch.
    pub batch_size: int,
    /// Rate limits recorded, modulo 2^64.
    pub rate_limit_count: int,
    /// Whether a rate limit was ever recorded.
    pub ever_rate_limited: bool,
    /// Time of the latest rate limit.
    pub last_rate_limit_ms: int,
    /// Time of the latest recovery tick.
    pub last_recovery_ms: int,
    /// Shortest quiet period before recovery.
    pub idle_before_recovery_ms: int,
    /// Shortest gap between recovery ticks.
    pub recovery_interval_ms: int,
    /// Whether the published metrics are out of date.
    pub unpublished: bool,
}

impl Controller {
    /// A controller that has seen no request yet.
    pub open spec fn initial(initial: int, min: int, max: int) -> Self {
        Controller {
            current: initial,
            min,
            max,
            consecutive_successes: 0,
            backoff_ms: 0,
            batch_size: INITIAL_BATCH_SIZE as int,
            rate_limit_count: 0,
            ever_rate_limited: false,
            last_rate_limit_ms: 0,
            last_recovery_ms: 0,
            idle_before_recovery_ms: IDLE_BEFORE_RECOVERY_MS as int,
            recovery_interval_ms: RECOVERY_INTERVAL_MS as int,
            unpublished: false,
        }
    }

    /// What holds of every controller, whatever happened to it.
    pub open spec fn wf(self) -> bool {
        &&& 0 <= self.current
        &&& 0 <= self.min
        &&& 0 <= self.max
        &&& 0 <= self.rate_limit_count
        &&& 0 <= self.last_rate_limit_ms
        &&& 0 <= self.last_recovery_ms
        &&& 0 <= self.idle_before_recovery_ms
        &&& 0 <= self.recovery_interval_ms
        &&& 0 <= self.consecutive_successes < SCALE_UP_THRESHOLD
        &&& 0 <= self.backoff_ms <= MAX_BACKOFF_MS
        &&& MIN_BATCH_SIZE <= self.batch_size <= MAX_BATCH_SIZE
        &&& !self.ever_rate_limited ==> self.backoff_ms == 0 && self.rate_limit_count == 0
    }

    /// Whether concurrency lies between its bounds.
    pub open spec fn within_bounds(self) -> bool {
        self.min <= self.current <= self.max
    }

    /// After a success that only decays the backoff.
    pub open spec fn decayed(self) -> Self {
        if self.backoff_ms > 0 {
            Controller {
                backoff_ms: decayed_backoff(self.backoff_ms),
                unpublished: true,
                ..self
            }
        } else {
            self
        }
    }

    /// With concurrency and batch size one step up.
    pub open spec fn scaled_up(self) -> Self {
        Controller {
            current: stepped_up(self.current, self.max, 1),
            batch_size: stepped_up(self.batch_size, MAX_BATCH_SIZE as int, 5),
            ..self
        }
    }

    /// After a success: the backoff decays, and each `SCALE_UP_THRESHOLD`th success in a row
    /// scales up and starts the count afresh.
    pub open spec fn succeeded(self) -> Self {
        let decayed = Controller { unpublished: true, ..self.decayed() };
        if self.consecutive_successes + 1 >= SCALE_UP_THRESHOLD {
            Controller { consecutive_successes: 0, ..decayed.scaled_up() }
        } else {
            Controller { consecutive_successes: self.consecutive_successes + 1, ..decayed }
        }
    }

    /// After a rate limit at time `now`.
    pub open spec fn rate_limited(self, now: int) -> Self {
        Controller {
            current: halved_concurrency(self.current, self.min),
            consecutive_successes: 0,
            backoff_ms: raised_backoff(self.backoff_ms),
            batch_size: max_of(MIN_BATCH_SIZE as int, self.batch_size / 2),
            rate_limit_count: (self.rate_limit_count + 1) % 0x1_0000_0000_0000_0000,
            ever_rate_limited: true,
            last_rate_limit_ms: now,
            unpublished: true,
            ..self
        }
    }

    /// After an error that is no rate limit.
    pub open spec fn failed(self) -> Self {
        Controller {
            current: trimmed_concurrency(self.current, self.min),
            consecutive_successes: 0,
            unpublished: true,
            ..self
        }
    }

    /// Whether there is nothing left to recover.
    pub open spec fn at_full_speed(self) -> bool {
        &&& self.backoff_ms == 0
        &&& self.current >= self.max
        &&& self.batch_size >= MAX_BATCH_SIZE
    }

    /// The quiet period that recovery asks for. It grows with the backoff: while workers sleep
    /// out a large backoff no request completes, so a short quiet period proves nothing.
    pub open spec fn required_idle_ms(self) -> int {
        max_of(self.idle_before_recovery_ms, 2 * self.backoff_ms)
    }

    /// Whether at time `now` the latest rate limit lies at least `idle_ms` back.
    pub open spec fn quiet_for(self, now: int, idle_ms: int) -> bool {
        time_since(now, self.last_rate_limit_ms) >= idle_ms
    }

    /// Whether a recovery tick may be claimed at time `now`.
    pub open spec fn tick_due(self, now: int) -> bool {
        &&& self.ever_rate_limited
        &&& !self.at_full_speed()
        &&& self.quiet_for(now, self.required_idle_ms())
        &&& time_since(now, self.last_recovery_ms) >= self.recovery_interval_ms
    }

    /// After an attempt at time `now` to claim a recovery tick.
    pub open spec fn tick_claimed(self, now: int) -> Self {
        if self.tick_due(now) {
            Controller { last_recovery_ms: now, ..self }
        } else {
            self
        }
    }

    /// After a recovery tick took effect.
    pub open spec fn eased(self) -> Self {
        Controller {
            backoff_ms: recovered_backoff(self.backoff_ms),
            unpublished: true,
            ..self.scaled_up()
        }
    }

    /// After a claimed tick that asked for `idle_ms` of quiet was checked again at time `now`: it
    /// takes effect only if no rate limit came in between.
    pub open spec fn tick_applied(self, now: int, idle_ms: int) -> Self {
        if self.quiet_for(now, idle_ms) {
            self.eased()
        } else {
            self
        }
    }

    /// After a recovery attempt that read the time `now`, and `recheck` once it had its tick.
    pub open spec fn recovered(self, now: int, recheck: int) -> Self {
        if self.tick_due(now) {
            self.tick_claimed(now).tick_applied(recheck, self.required_idle_ms())
        } else {
            self
        }
    }

    /// After its metrics were taken for publication.
    pub open spec fn published(self) -> Self {
        Controller { unpublished: false, ..self }
    }
}

/// Whether `after` is what a recovery attempt makes of `before`, whatever the clock read.
pub open spec fn recovery_outcome(before: Controller, after: Controller) -> bool {
    exists|now: u64, recheck: u64| after == #[trigger] before.recovered(now as int, recheck as int)
}

/// Whether `after` is what a rate limit makes of `before`, whatever the clock read.
pub open spec fn rate_limit_outcome(before: Controller, after: Controller) -> bool {
    exists|now: u64| after == #[trigger] before.rate_limited(now as int)
}

} // verus!
