//! The adaptive concurrency controller.

use crate::clock::Clock;
use crate::model::{
    Controller, BACKOFF_CLEAR_FLOOR_MS, IDLE_BEFORE_RECOVERY_MS, INITIAL_BACKOFF_MS, INITIAL_BATCH_SIZE,
    MAX_BACKOFF_MS, MAX_BATCH_SIZE, MIN_BATCH_SIZE, RECOVERY_INTERVAL_MS, SCALE_UP_THRESHOLD,
};
use vstd::prelude::*;

verus! {

/// Scales concurrency, batch size and backoff with the outcome of requests: up when requests
/// succeed, down when rate limits are hit.
pub struct AdaptiveConcurrency {
    current: usize,
    min: usize,
    max: usize,
    /// Consecutive successes, used to decide when to scale up.
    consecutive_successes: usize,
    /// Backoff delay in milliseconds (for rate-limited free nodes).
    backoff_ms: u64,
    /// Number of calls per RPC batch.
    batch_size: usize,
    /// Total rate limit count (for diagnostics).
    rate_limit_count: u64,
    /// Whether any rate limit has occurred; gates recovery (a fresh controller has nothing to
    /// undo).
    ever_rate_limited: bool,
    /// Time of the most recent rate-limit event.
    last_rate_limit_ms: u64,
    /// Time of the most recent recovery tick.
    last_recovery_ms: u64,
    /// Idle period (no rate limit) after which time-based recovery begins.
    idle_before_recovery_ms: u64,
    /// Minimum gap between successive recovery ticks once idle.
    recovery_interval_ms: u64,
    /// Whether the state moved since metrics were last taken.
    unpublished: bool,
    clock: Clock,
}

impl View for AdaptiveConcurrency {
    type V = Controller;

    closed spec fn view(&self) -> Controller {
        Controller {
            current: self.current as int,
            min: self.min as int,
            max: self.max as int,
            consecutive_successes: self.consecutive_successes as int,
            backoff_ms: self.backoff_ms as int,
            batch_size: self.batch_size as int,
            rate_limit_count: self.rate_limit_count as int,
            ever_rate_limited: self.ever_rate_limited,
            last_rate_limit_ms: self.last_rate_limit_ms as int,
            last_recovery_ms: self.last_recovery_ms as int,
            idle_before_recovery_ms: self.idle_before_recovery_ms as int,
            recovery_interval_ms: self.recovery_interval_ms as int,
            unpublished: self.unpublished,
        }
    }
}

/// What the metrics of a controller show.
#[derive(Debug, Clone, Copy, PartialEq, Eq, Structural)]
pub struct AdaptiveMetrics {
    pub current: usize,
    pub batch_size: usize,
    pub backoff_ms: u64,
    pub rate_limit_events: u64,
}

/// Concurrent RPC batches that the controller for RPC batches starts with.
pub const RPC_INITIAL_CONCURRENCY: usize = 20;

/// Fewest concurrent RPC batches.
pub const RPC_MIN_CONCURRENCY: usize = 2;

/// Most concurrent RPC batches.
pub const RPC_MAX_CONCURRENCY: usize = 200;

fn min_u64(a: u64, b: u64) -> (r: u64)
    ensures
        r == crate::model::min_of(a as int, b as int),
{
    if a <= b {
        a
    } else {
        b
    }
}

fn max_usize(a: usize, b: usize) -> (r: usize)
    ensures
        r == crate::model::max_of(a as int, b as int),
{
    if a >= b {
        a
    } else {
        b
    }
}

/// One step up: a fifth more, at least `least` more, never past `cap`.
fn step_up(value: usize, cap: usize, least: usize) -> (r: usize)
    ensures
        r == crate::model::stepped_up(value as int, cap as int, least as int),
{
    if value < cap {
        let increase: usize = max_usize(least, value / 5);
        if increase >= cap - value {
            cap
        } else {
            value + increase
        }
    } else {
        value
    }
}

impl AdaptiveConcurrency {
    /// The clock whose readings the controller's time stamps are.
    pub closed spec fn clock(self) -> Clock {
        self.clock
    }

    /// A controller that starts at `initial` and scales between `min` and `max`.
    pub fn new(initial: usize, min: usize, max: usize) -> (controller: Self)
        ensures
            controller@ == Controller::initial(initial as int, min as int, max as int),
            controller@.wf(),
            controller.clock().is_started(),
    {
        AdaptiveConcurrency {
            current: initial,
            min,
            max,
            consecutive_successes: 0,
            backoff_ms: 0,
            batch_size: INITIAL_BATCH_SIZE,
            rate_limit_count: 0,
            ever_rate_limited: false,
            last_rate_limit_ms: 0,
            last_recovery_ms: 0,
            idle_before_recovery_ms: IDLE_BEFORE_RECOVERY_MS,
            recovery_interval_ms: RECOVERY_INTERVAL_MS,
            unpublished: false,
            clock: Clock::start(),
        }
    }

    /// The controller for RPC batches: starts with 20 concurrent batches, between 2 and 200.
    pub fn for_rpc_batches() -> (controller: Self)
        ensures
            controller@ == Controller::initial(
                RPC_INITIAL_CONCURRENCY as int,
                RPC_MIN_CONCURRENCY as int,
                RPC_MAX_CONCURRENCY as int,
            ),
            controller@.current == 20 && controller@.min == 2 && controller@.max == 200,
            controller@.wf(),
            controller.clock().is_started(),
    {
        Self::new(RPC_INITIAL_CONCURRENCY, RPC_MIN_CONCURRENCY, RPC_MAX_CONCURRENCY)
    }

    /// Sets the quiet period before recovery and the gap between recovery ticks.
    pub fn set_recovery_timing(&mut self, idle_before_recovery_ms: u64, recovery_interval_ms: u64)
        requires
            old(self)@.wf(),
        ensures
            final(self)@ == (Controller {
                idle_before_recovery_ms: idle_before_recovery_ms as int,
                recovery_interval_ms: recovery_interval_ms as int,
                ..old(self)@
            }),
            final(self)@.wf(),
            final(self).clock() == old(self).clock(),
    {
        self.idle_before_recovery_ms = idle_before_recovery_ms;
        self.recovery_interval_ms = recovery_interval_ms;
    }

    /// Milliseconds since the controller was made.
    pub(crate) fn now_millis(&self) -> (millis: u64)
        ensures
            self.clock().reads(millis),
    {
        self.clock.now_millis()
    }

    /// Get current concurrency level.
    pub fn current(&self) -> (r: usize)
        ensures
            r == self@.current,
    {
        self.current
    }

    /// Get the highest concurrency level that scaling up reaches.
    pub fn max(&self) -> (r: usize)
        ensures
            r == self@.max,
    {
        self.max
    }

    /// Get current batch size (calls per RPC batch).
    pub fn current_batch_size(&self) -> (r: usize)
        ensures
            r == self@.batch_size,
    {
        self.batch_size
    }

    /// Get the backoff delay in milliseconds as it stands, without driving recovery.
    pub fn backoff_ms(&self) -> (r: u64)
        ensures
            r == self@.backoff_ms,
    {
        self.backoff_ms
    }

    /// Get total rate limit count.
    pub fn rate_limit_count(&self) -> (r: u64)
        ensures
            r == self@.rate_limit_count,
    {
        self.rate_limit_count
    }

    /// Get current backoff delay in milliseconds at time `now_ms`, after recovery had its chance
    /// to let a stale backoff decay.
    pub fn current_backoff_ms_at(&mut self, now_ms: u64) -> (r: u64)
        requires
            old(self)@.wf(),
        ensures
            final(self)@ == old(self)@.recovered(now_ms as int, now_ms as int),
            r == final(self)@.backoff_ms,
            final(self)@.wf(),
            final(self).clock() == old(self).clock(),
    {
        self.recover_if_idle_at(now_ms);
        self.backoff_ms
    }

    /// Get current backoff delay in milliseconds.
    ///
    /// Also drives time-based recovery: this is read once before every RPC request, so it is the
    /// natural place to let a stale backoff decay when the provider has stopped rate-limiting.
    pub fn current_backoff_ms(&mut self) -> (r: u64)
        requires
            old(self)@.wf(),
        ensures
            crate::model::recovery_outcome(old(self)@, final(self)@),
            exists|now: u64, recheck: u64|
                old(self).clock().reads(now) && old(self).clock().reads(recheck) && final(self)@
                    == #[trigger] old(self)@.recovered(now as int, recheck as int),
            r == final(self)@.backoff_ms,
            final(self)@.wf(),
            final(self).clock() == old(self).clock(),
    {
        self.recover_if_idle();
        self.backoff_ms
    }

    /// How long to wait before making an RPC request, in milliseconds, if a backoff is active
    /// once recovery had its chance.
    pub fn wait_for_backoff(&mut self) -> (delay_ms: Option<u64>)
        requires
            old(self)@.wf(),
        ensures
            crate::model::recovery_outcome(old(self)@, final(self)@),
            exists|now: u64, recheck: u64|
                old(self).clock().reads(now) && old(self).clock().reads(recheck) && final(self)@
                    == #[trigger] old(self)@.recovered(now as int, recheck as int),
            delay_ms is Some <==> final(self)@.backoff_ms > 0,
            delay_ms matches Some(ms) ==> ms == final(self)@.backoff_ms,
            final(self)@.wf(),
            final(self).clock() == old(self).clock(),
    {
        let delay_ms: u64 = self.current_backoff_ms();
        if delay_ms > 0 {
            Some(delay_ms)
        } else {
            None
        }
    }

    /// Takes the state that metrics have to show, if it moved since they were last taken.
    pub fn publish_metrics(&mut self) -> (metrics: Option<AdaptiveMetrics>)
        requires
            old(self)@.wf(),
        ensures
            final(self)@ == old(self)@.published(),
            final(self)@.wf(),
            final(self).clock() == old(self).clock(),
            metrics is Some <==> old(self)@.unpublished,
            metrics matches Some(m) ==> {
                &&& m.current == old(self)@.current
                &&& m.batch_size == old(self)@.batch_size
                &&& m.backoff_ms == old(self)@.backoff_ms
                &&& m.rate_limit_events == old(self)@.rate_limit_count
            },
    {
        if self.unpublished {
            self.unpublished = false;
            Some(
                AdaptiveMetrics {
                    current: self.current,
                    batch_size: self.batch_size,
                    backoff_ms: self.backoff_ms,
                    rate_limit_events: self.rate_limit_count,
                },
            )
        } else {
            None
        }
    }

    /// Claims a recovery tick at time `now_ms`, if one is due, and returns the quiet period that
    /// [`AdaptiveConcurrency::apply_recovery_tick`] has to find. At most one tick can be claimed
    /// per recovery interval.
    pub fn claim_recovery_tick(&mut self, now_ms: u64) -> (required_idle_ms: Option<u64>)
        requires
            old(self)@.wf(),
        ensures
            final(self)@ == old(self)@.tick_claimed(now_ms as int),
            final(self)@.wf(),
            final(self).clock() == old(self).clock(),
            required_idle_ms matches Some(idle_ms) ==> old(self)@.tick_due(now_ms as int)
                && idle_ms == old(self)@.required_idle_ms(),
            required_idle_ms is None ==> !old(self)@.tick_due(now_ms as int),
    {
        // Never throttled: nothing to undo.
        if !self.ever_rate_limited {
            return None;
        }
        // Already fully recovered.
        if self.backoff_ms == 0 && self.current >= self.max && self.batch_size >= MAX_BATCH_SIZE {
            return None;
        }
        let scaled_idle_ms: u64 = self.backoff_ms * 2;
        let required_idle_ms: u64 = if self.idle_before_recovery_ms >= scaled_idle_ms {
            self.idle_before_recovery_ms
        } else {
            scaled_idle_ms
        };
        if now_ms.saturating_sub(self.last_rate_limit_ms) < required_idle_ms {
            return None;
        }
        if now_ms.saturating_sub(self.last_recovery_ms) < self.recovery_interval_ms {
            return None;
        }
        self.last_recovery_ms = now_ms;
        Some(required_idle_ms)
    }

    /// Lets a claimed tick take effect at time `now_ms`, unless a rate limit was recorded within
    /// the last `required_idle_ms`: the backoff halves, concurrency and batch size step up.
    pub fn apply_recovery_tick(&mut self, now_ms: u64, required_idle_ms: u64)
        requires
            old(self)@.wf(),
        ensures
            final(self)@ == old(self)@.tick_applied(now_ms as int, required_idle_ms as int),
            final(self)@.wf(),
            final(self).clock() == old(self).clock(),
    {
        if now_ms.saturating_sub(self.last_rate_limit_ms) < required_idle_ms {
            return;
        }
        self.backoff_ms = if self.backoff_ms <= BACKOFF_CLEAR_FLOOR_MS {
            0
        } else {
            self.backoff_ms / 2
        };
        self.current = step_up(self.current, self.max, 1);
        self.batch_size = step_up(self.batch_size, MAX_BATCH_SIZE, 5);
        self.unpublished = true;
    }

    /// Time-based recovery that reads the time `now_ms` to find whether a tick is due and
    /// `recheck_ms` before a claimed tick takes effect.
    ///
    /// Once no rate limit has occurred for `max(idle period, 2 x backoff)`, halves the backoff and
    /// steps concurrency and batch size back up, at most once per recovery interval.
    fn recover_between(&mut self, now_ms: u64, recheck_ms: u64)
        requires
            old(self)@.wf(),
        ensures
            final(self)@ == old(self)@.recovered(now_ms as int, recheck_ms as int),
            final(self)@.wf(),
            final(self).clock() == old(self).clock(),
    {
        if let Some(required_idle_ms) = self.claim_recovery_tick(now_ms) {
            self.apply_recovery_tick(recheck_ms, required_idle_ms);
        }
    }

    /// Time-based recovery at time `now_ms`.
    pub fn recover_if_idle_at(&mut self, now_ms: u64)
        requires
            old(self)@.wf(),
        ensures
            final(self)@ == old(self)@.recovered(now_ms as int, now_ms as int),
            final(self)@.wf(),
            final(self).clock() == old(self).clock(),
    {
        self.recover_between(now_ms, now_ms);
    }

    /// Time-based recovery at the present time.
    pub fn recover_if_idle(&mut self)
        requires
            old(self)@.wf(),
        ensures
            crate::model::recovery_outcome(old(self)@, final(self)@),
            exists|now: u64, recheck: u64|
                old(self).clock().reads(now) && old(self).clock().reads(recheck) && final(self)@
                    == #[trigger] old(self)@.recovered(now as int, recheck as int),
            final(self)@.wf(),
            final(self).clock() == old(self).clock(),
    {
        let now_ms: u64 = self.now_millis();
        let recheck_ms: u64 = self.now_millis();
        self.recover_between(now_ms, recheck_ms);
    }

    /// Record a rate limit error at the present time: scale down aggressively and increase
    /// backoff.
    pub fn record_rate_limit(&mut self)
        requires
            old(self)@.wf(),
        ensures
            crate::model::rate_limit_outcome(old(self)@, final(self)@),
            exists|now: u64|
                old(self).clock().reads(now) && final(self)@.last_rate_limit_ms == now
                    && final(self)@ == #[trigger] old(self)@.rate_limited(now as int),
            final(self)@.wf(),
            final(self).clock() == old(self).clock(),
    {
        let now_ms: u64 = self.now_millis();
        self.record_rate_limit_at(now_ms);
    }

    /// Record a rate limit error at time `now_ms`: scale down aggressively and increase backoff.
    pub fn record_rate_limit_at(&mut self, now_ms: u64)
        requires
            old(self)@.wf(),
        ensures
            final(self)@ == old(self)@.rate_limited(now_ms as int),
            final(self)@.wf(),
            final(self).clock() == old(self).clock(),
    {
        self.consecutive_successes = 0;
        self.rate_limit_count = self.rate_limit_count.wrapping_add(1);
        self.ever_rate_limited = true;
        self.last_rate_limit_ms = now_ms;
        self.backoff_ms = if self.backoff_ms == 0 {
            INITIAL_BACKOFF_MS
        } else {
            min_u64(MAX_BACKOFF_MS, self.backoff_ms * 2)
        };
        self.batch_size = max_usize(MIN_BATCH_SIZE, self.batch_size / 2);
        if self.current > self.min {
            self.current = max_usize(self.min, self.current / 2);
        }
        self.unpublished = true;
    }

    /// Record a successful response by decaying the backoff only (by 25%).
    ///
    /// Every kind of call completes in the RPC layer, cheap polling included. A successful
    /// response is evidence that the provider is healthy again, so it decays the backoff;
    /// scaling up stays with [`AdaptiveConcurrency::record_success`] so that cheap calls cannot
    /// inflate it.
    pub fn record_success_backoff_only(&mut self)
        requires
            old(self)@.wf(),
        ensures
            final(self)@ == old(self)@.decayed(),
            final(self)@.wf(),
            final(self).clock() == old(self).clock(),
    {
        if self.backoff_ms > 0 {
            self.backoff_ms = self.backoff_ms * 3 / 4;
            self.unpublished = true;
        }
    }

    /// Record a successful request: may scale up and reduce backoff.
    pub fn record_success(&mut self)
        requires
            old(self)@.wf(),
        ensures
            final(self)@ == old(self)@.succeeded(),
            final(self)@.wf(),
            final(self).clock() == old(self).clock(),
    {
        self.record_success_backoff_only();
        self.consecutive_successes = self.consecutive_successes + 1;
        if self.consecutive_successes >= SCALE_UP_THRESHOLD {
            self.consecutive_successes = 0;
            self.current = step_up(self.current, self.max, 1);
            self.batch_size = step_up(self.batch_size, MAX_BATCH_SIZE, 5);
        }
        self.unpublished = true;
    }

    /// Record a general error: scale down slightly.
    pub fn record_error(&mut self)
        requires
            old(self)@.wf(),
        ensures
            final(self)@ == old(self)@.failed(),
            final(self)@.wf(),
            final(self).clock() == old(self).clock(),
    {
        self.consecutive_successes = 0;
        if self.current > self.min {
            let decrease: usize = max_usize(1, self.current / 10);
            self.current = max_usize(self.min, self.current - decrease);
        }
        self.unpublished = true;
    }
}

} // verus!
