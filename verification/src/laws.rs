//! What holds of a controller over whole histories.

use crate::model::Controller;
use vstd::prelude::*;

verus! {

/// Something that happens to a controller. A recovery is either one event or, where others come
/// in between, the claim of a tick and its application.
pub enum Event {
    SuccessBackoffOnly,
    Success,
    RateLimit { now: u64 },
    Error,
    Recover { now: u64, recheck: u64 },
    ClaimTick { now: u64 },
    ApplyTick { now: u64, idle_ms: u64 },
    Publish,
}

impl Event {
    /// Whether the event can claim a recovery tick.
    pub open spec fn claims(self) -> bool {
        self is Recover || self is ClaimTick
    }

    /// The time at which an event that can claim a recovery tick reads the clock.
    pub open spec fn claim_time(self) -> int {
        match self {
            Event::Recover { now, .. } => now as int,
            Event::ClaimTick { now } => now as int,
            _ => 0,
        }
    }
}

impl Controller {
    /// The controller after one event.
    pub open spec fn after(self, event: Event) -> Self {
        match event {
            Event::SuccessBackoffOnly => self.decayed(),
            Event::Success => self.succeeded(),
            Event::RateLimit { now } => self.rate_limited(now as int),
            Event::Error => self.failed(),
            Event::Recover { now, recheck } => self.recovered(now as int, recheck as int),
            Event::ClaimTick { now } => self.tick_claimed(now as int),
            Event::ApplyTick { now, idle_ms } => self.tick_applied(now as int, idle_ms as int),
            Event::Publish => self.published(),
        }
    }

    /// The controller after a history of events, the first one first.
    pub open spec fn run(self, events: Seq<Event>) -> Self
        decreases events.len(),
    {
        if events.len() == 0 {
            self
        } else {
            self.run(events.drop_last()).after(events.last())
        }
    }

    /// What the metrics show.
    pub open spec fn gauges(self) -> (int, int, int, int) {
        (self.current, self.batch_size, self.backoff_ms, self.rate_limit_count)
    }

    /// The controller after `n` recovery attempts, the first at `start`, the others `gap_ms`
    /// apart.
    pub open spec fn recovery_attempts(self, start: int, gap_ms: int, n: nat) -> Self
        decreases n,
    {
        if n == 0 {
            self
        } else {
            self.recovered(start, start).recovery_attempts(
                start + gap_ms,
                gap_ms,
                (n - 1) as nat,
            )
        }
    }
}

/// Every history leaves a valid controller: the backoff never exceeds its maximum, the batch size
/// stays within its limits, and the configuration does not change.
pub proof fn law_every_history_keeps_the_controller_valid(start: Controller, events: Seq<Event>)
    requires
        start.wf(),
    ensures
        start.run(events).wf(),
        0 <= start.run(events).backoff_ms <= 30_000,
        5 <= start.run(events).batch_size <= 100,
        0 <= start.run(events).consecutive_successes <= 9,
        start.run(events).min == start.min,
        start.run(events).max == start.max,
        start.run(events).idle_before_recovery_ms == start.idle_before_recovery_ms,
        start.run(events).recovery_interval_ms == start.recovery_interval_ms,
    decreases events.len(),
{
    if events.len() > 0 {
        law_every_history_keeps_the_controller_valid(start, events.drop_last());
    }
}

/// Concurrency that starts between its bounds stays between them.
pub proof fn law_concurrency_stays_within_bounds(start: Controller, events: Seq<Event>)
    requires
        start.wf(),
        start.within_bounds(),
    ensures
        start.run(events).within_bounds(),
        start.min <= start.run(events).current <= start.max,
    decreases events.len(),
{
    if events.len() > 0 {
        law_concurrency_stays_within_bounds(start, events.drop_last());
        law_every_history_keeps_the_controller_valid(start, events.drop_last());
    }
}

/// A rate limit makes nothing faster: the backoff grows unless it is at its maximum, concurrency
/// falls unless it is at its minimum, and the batch size does not grow.
pub proof fn law_rate_limit_slows_down(before: Controller, now: u64)
    requires
        before.wf(),
    ensures
        ({
            let after = before.after(Event::RateLimit { now });
            &&& after.backoff_ms >= before.backoff_ms
            &&& before.backoff_ms < 30_000 ==> after.backoff_ms
                > before.backoff_ms
            &&& after.current <= before.current
            &&& before.current > before.min ==> after.current < before.current
            &&& after.batch_size <= before.batch_size
            &&& before.batch_size > 5 ==> after.batch_size
                < before.batch_size
        }),
{
}

/// A success makes nothing slower: the backoff shrinks while there is one, concurrency and batch
/// size do not fall.
pub proof fn law_success_slows_nothing_down(before: Controller)
    requires
        before.wf(),
    ensures
        ({
            let after = before.after(Event::Success);
            &&& after.backoff_ms <= before.backoff_ms
            &&& before.backoff_ms > 0 ==> after.backoff_ms < before.backoff_ms
            &&& after.current >= before.current
            &&& after.batch_size >= before.batch_size
        }),
{
}

/// A general error lowers concurrency only; backoff, batch size and recovery are untouched.
pub proof fn law_error_lowers_concurrency_only(before: Controller)
    requires
        before.wf(),
    ensures
        ({
            let after = before.after(Event::Error);
            &&& after.current <= before.current
            &&& before.current > before.min ==> after.current < before.current
            &&& after == (Controller {
                current: after.current,
                consecutive_successes: 0,
                unpublished: true,
                ..before
            })
        }),
{
}

/// Rate limits in a row, from no backoff: the first starts it, each further one doubles it, up to
/// the maximum.
pub proof fn law_rate_limits_double_the_backoff(start: Controller, events: Seq<Event>)
    requires
        start.wf(),
        start.backoff_ms == 0,
        events.len() > 0,
        forall|i: int| 0 <= i < events.len() ==> events[i] is RateLimit,
    ensures
        ({
            let doubled = 500 * vstd::arithmetic::power2::pow2((events.len() - 1) as nat);
            start.run(events).backoff_ms == if doubled < 30_000 {
                doubled as int
            } else {
                30_000
            }
        }),
    decreases events.len(),
{
    let rest = events.drop_last();
    if rest.len() == 0 {
        vstd::arithmetic::power2::lemma2_to64();
        assert(start.run(rest) == start);
    } else {
        law_rate_limits_double_the_backoff(start, rest);
        vstd::arithmetic::power2::lemma_pow2_unfold((events.len() - 1) as nat);
        vstd::arithmetic::power2::lemma_pow2_pos((rest.len() - 1) as nat);
        assert(events[events.len() - 1] is RateLimit);
    }
}

/// How many of the events are rate limits.
pub open spec fn rate_limits_among(events: Seq<Event>) -> nat {
    events.filter(|e: Event| e is RateLimit).len()
}

/// Every rate limit is counted, and nothing else, modulo the range of the counter.
pub proof fn law_rate_limits_are_counted(start: Controller, events: Seq<Event>)
    requires
        start.wf(),
        start.rate_limit_count < 0x1_0000_0000_0000_0000,
    ensures
        start.run(events).rate_limit_count == (start.rate_limit_count + rate_limits_among(events))
            % 0x1_0000_0000_0000_0000,
    decreases events.len(),
{
    reveal_with_fuel(Seq::filter, 2);
    if events.len() > 0 {
        law_rate_limits_are_counted(start, events.drop_last());
    }
}

/// Largest backoff that `n` successes clear.
spec fn clearable_by_successes(n: nat) -> int
    decreases n,
{
    if n == 0 {
        0
    } else {
        (4 * clearable_by_successes((n - 1) as nat) + 3) / 3
    }
}

proof fn lemma_clearable_grows(m: nat, n: nat)
    requires
        m <= n,
    ensures
        0 <= clearable_by_successes(m) <= clearable_by_successes(n),
    decreases n,
{
    if m < n {
        lemma_clearable_grows(m, (n - 1) as nat);
    } else if n > 0 {
        lemma_clearable_grows((n - 1) as nat, (n - 1) as nat);
    }
}

proof fn lemma_largest_backoff_is_clearable()
    ensures
        clearable_by_successes(34) >= 30_000,
{
    reveal_with_fuel(clearable_by_successes, 6);
    assert(clearable_by_successes(4) == 5);
    assert(clearable_by_successes(9) == 26);
    assert(clearable_by_successes(14) == 114);
    assert(clearable_by_successes(19) == 489);
    assert(clearable_by_successes(24) == 2067);
    assert(clearable_by_successes(29) == 8718);
    assert(clearable_by_successes(34) == 36746);
}

proof fn lemma_successes_clear(start: Controller, events: Seq<Event>, n: nat)
    requires
        start.wf(),
        start.backoff_ms <= clearable_by_successes(n),
        events.len() <= n,
        forall|i: int|
            0 <= i < events.len() ==> events[i] is SuccessBackoffOnly || events[i] is Success,
    ensures
        start.run(events).backoff_ms <= clearable_by_successes((n - events.len()) as nat),
    decreases events.len(),
{
    if events.len() > 0 {
        let rest = events.drop_last();
        lemma_successes_clear(start, rest, n);
        law_every_history_keeps_the_controller_valid(start, rest);
        assert(events[events.len() - 1] is SuccessBackoffOnly || events[events.len() - 1]
            is Success);
        lemma_clearable_grows(0, (n - events.len()) as nat);
    }
}

/// Successes alone, of either kind, clear any backoff: 34 of them are enough.
pub proof fn law_successes_clear_the_backoff(start: Controller, events: Seq<Event>)
    requires
        start.wf(),
        events.len() >= 34,
        forall|i: int|
            0 <= i < events.len() ==> events[i] is SuccessBackoffOnly || events[i] is Success,
    ensures
        start.run(events).backoff_ms == 0,
{
    law_every_history_keeps_the_controller_valid(start, events);
    lemma_largest_backoff_is_clearable();
    lemma_clearable_grows(34, events.len());
    lemma_successes_clear(start, events, events.len());
}

/// Successes that only decay the backoff change nothing but the backoff, however many they are.
pub proof fn law_decay_only_successes_scale_nothing(start: Controller, events: Seq<Event>)
    requires
        start.wf(),
        forall|i: int| 0 <= i < events.len() ==> events[i] is SuccessBackoffOnly,
    ensures
        start.run(events) == (Controller {
            backoff_ms: start.run(events).backoff_ms,
            unpublished: start.run(events).unpublished,
            ..start
        }),
    decreases events.len(),
{
    if events.len() > 0 {
        law_decay_only_successes_scale_nothing(start, events.drop_last());
        assert(events[events.len() - 1] is SuccessBackoffOnly);
    }
}

/// Fewer successes in a row than the threshold scale nothing up.
pub proof fn law_scaling_up_takes_a_full_streak(start: Controller, events: Seq<Event>)
    requires
        start.wf(),
        start.consecutive_successes == 0,
        events.len() < 10,
        forall|i: int| 0 <= i < events.len() ==> events[i] is Success,
    ensures
        start.run(events).current == start.current,
        start.run(events).batch_size == start.batch_size,
        start.run(events).consecutive_successes == events.len(),
    decreases events.len(),
{
    if events.len() > 0 {
        law_scaling_up_takes_a_full_streak(start, events.drop_last());
        assert(events[events.len() - 1] is Success);
    }
}

/// As many successes in a row as the threshold scale up by one step and start a new streak.
pub proof fn law_a_full_streak_scales_up_once(start: Controller, events: Seq<Event>)
    requires
        start.wf(),
        start.consecutive_successes == 0,
        events.len() == 10,
        forall|i: int| 0 <= i < events.len() ==> events[i] is Success,
    ensures
        start.run(events).current == start.scaled_up().current,
        start.run(events).batch_size == start.scaled_up().batch_size,
        start.current < start.max ==> start.current < start.run(events).current <= start.max,
        start.current >= start.max ==> start.run(events).current == start.current,
        10 <= start.current && start.current + start.current / 5 <= start.max ==> start.run(
            events,
        ).current == start.current + start.current / 5,
        start.current < 10 && start.current < start.max ==> start.run(events).current
            == start.current + 1,
        start.batch_size < 30 ==> start.run(events).batch_size == start.batch_size + 5,
        30 <= start.batch_size <= 83 ==> start.run(events).batch_size == start.batch_size
            + start.batch_size / 5,
        start.batch_size >= 84 ==> start.run(events).batch_size == 100,
        start.run(events).consecutive_successes == 0,
{
    law_scaling_up_takes_a_full_streak(start, events.drop_last());
    law_every_history_keeps_the_controller_valid(start, events.drop_last());
    assert(events[events.len() - 1] is Success);
}

/// A controller that was never rate limited is not touched by recovery, whatever else happened to
/// it and whenever recovery is tried.
pub proof fn law_recovery_leaves_an_unthrottled_controller_alone(
    start: Controller,
    events: Seq<Event>,
    now: u64,
    recheck: u64,
)
    requires
        start.wf(),
        !start.ever_rate_limited,
        forall|i: int| 0 <= i < events.len() ==> !(events[i] is RateLimit),
    ensures
        !start.run(events).ever_rate_limited,
        start.run(events).after(Event::Recover { now, recheck }) == start.run(events),
    decreases events.len(),
{
    if events.len() > 0 {
        law_recovery_leaves_an_unthrottled_controller_alone(
            start,
            events.drop_last(),
            now,
            recheck,
        );
        assert(!(events[events.len() - 1] is RateLimit));
    }
}

/// Recovery does nothing until the latest rate limit lies both the idle period and twice the
/// backoff back.
pub proof fn law_recovery_waits_for_quiet(before: Controller, now: u64, recheck: u64)
    requires
        before.wf(),
        before.idle_before_recovery_ms > 0 && now < before.last_rate_limit_ms
            + before.idle_before_recovery_ms || before.backoff_ms > 0 && now
            < before.last_rate_limit_ms + 2 * before.backoff_ms,
    ensures
        before.after(Event::Recover { now, recheck }) == before,
{
}

/// Recovery slows nothing down, and it is gradual: one attempt takes no more than half off a
/// backoff above the clear floor, and raises concurrency and batch size by no more than one step
/// of a success.
pub proof fn law_recovery_is_gradual(before: Controller, now: u64, recheck: u64)
    requires
        before.wf(),
    ensures
        ({
            let after = before.after(Event::Recover { now, recheck });
            &&& before.backoff_ms > 100 ==> 2 * after.backoff_ms + 1 >= before.backoff_ms
            &&& 0 <= after.backoff_ms <= before.backoff_ms
            &&& before.current <= after.current <= before.scaled_up().current
            &&& after.current == before.current || after.current == before.current + 1 || 5 * (
            after.current - before.current) <= before.current
            &&& before.batch_size <= after.batch_size <= before.scaled_up().batch_size
            &&& after.batch_size <= before.batch_size + 5 || 5 * (after.batch_size
                - before.batch_size) <= before.batch_size
        }),
{
}

/// Recovery does nothing to a controller that runs at full speed.
pub proof fn law_recovery_ends_at_full_speed(before: Controller, now: u64, recheck: u64)
    requires
        before.wf(),
        before.backoff_ms == 0,
        before.current >= before.max,
        before.batch_size >= 100,
    ensures
        before.after(Event::Recover { now, recheck }) == before,
{
}

/// Once a tick was claimed at time `tick`, no other is claimed before the recovery interval has
/// passed: attempts that come sooner might as well not have been made, whatever happens
/// in between.
pub proof fn law_one_tick_per_interval(before: Controller, tick: u64, events: Seq<Event>)
    requires
        before.wf(),
        before.tick_due(tick as int),
        forall|i: int|
            0 <= i < events.len() && (#[trigger] events[i]).claims() ==> events[i].claim_time()
                < tick + before.recovery_interval_ms && before.recovery_interval_ms > 0,
    ensures
        ({
            let claimed = before.after(Event::ClaimTick { now: tick });
            &&& claimed.run(events) == claimed.run(events.filter(|e: Event| !e.claims()))
            &&& claimed.run(events).last_recovery_ms == tick
        }),
    decreases events.len(),
{
    reveal_with_fuel(Seq::filter, 2);
    let claimed = before.after(Event::ClaimTick { now: tick });
    if events.len() > 0 {
        let rest = events.drop_last();
        let others = rest.filter(|e: Event| !e.claims());
        law_one_tick_per_interval(before, tick, rest);
        law_every_history_keeps_the_controller_valid(claimed, rest);
        assert(events[events.len() - 1] == events.last());
        assert(others.push(events.last()).drop_last() == others);
    }
}

/// A rate limit that comes between the claim of a tick and its application is not undone: the
/// tick is dropped, and the raised backoff stands.
pub proof fn law_late_rate_limit_is_not_undone(
    before: Controller,
    tick: u64,
    between: Seq<Event>,
    limit: u64,
    recheck: u64,
    idle_ms: u64,
)
    requires
        before.wf(),
        before.tick_due(tick as int),
        idle_ms == before.required_idle_ms(),
        idle_ms > 0,
        recheck < limit + idle_ms,
    ensures
        ({
            let limited = before.after(Event::ClaimTick { now: tick }).run(between).after(
                Event::RateLimit { now: limit },
            );
            limited.after(Event::ApplyTick { now: recheck, idle_ms }) == limited
        }),
{
    law_every_history_keeps_the_controller_valid(
        before.after(Event::ClaimTick { now: tick }),
        between,
    );
}

/// A recovery attempt is the claim of a tick and, if one was claimed, its application.
pub proof fn law_recovery_is_claim_and_application(
    before: Controller,
    now: u64,
    recheck: u64,
    idle_ms: u64,
)
    requires
        before.wf(),
        idle_ms == before.required_idle_ms(),
    ensures
        before.after(Event::Recover { now, recheck }) == if before.tick_due(now as int) {
            before.after(Event::ClaimTick { now }).after(
                Event::ApplyTick { now: recheck, idle_ms },
            )
        } else {
            before
        },
{
}

/// Largest backoff that `n` recovery ticks clear.
spec fn clearable_by_ticks(n: nat) -> int
    decreases n,
{
    if n == 0 {
        0
    } else if n == 1 {
        100
    } else {
        2 * clearable_by_ticks((n - 1) as nat) + 1
    }
}

proof fn lemma_clearable_by_ticks_grows(m: nat, n: nat)
    requires
        m <= n,
    ensures
        0 <= clearable_by_ticks(m) <= clearable_by_ticks(n),
    decreases n,
{
    if m < n {
        lemma_clearable_by_ticks_grows(m, (n - 1) as nat);
    } else if n > 0 {
        lemma_clearable_by_ticks_grows((n - 1) as nat, (n - 1) as nat);
    }
}

proof fn lemma_attempts_restore(before: Controller, start: int, gap_ms: int, n: nat)
    requires
        before.wf(),
        before.ever_rate_limited,
        before.quiet_for(start, before.required_idle_ms()),
        crate::model::time_since(start, before.last_recovery_ms) >= before.recovery_interval_ms,
        start >= 0,
        gap_ms >= before.recovery_interval_ms,
        n >= before.max - before.current,
        5 * n >= 100 - before.batch_size,
        before.backoff_ms <= clearable_by_ticks(n),
    ensures
        before.recovery_attempts(start, gap_ms, n).at_full_speed(),
        before.recovery_attempts(start, gap_ms, n).wf(),
        before.recovery_attempts(start, gap_ms, n).max == before.max,
    decreases n,
{
    if n > 0 {
        lemma_clearable_by_ticks_grows(0, (n - 1) as nat);
        lemma_attempts_restore(
            before.recovered(start, start),
            start + gap_ms,
            gap_ms,
            (n - 1) as nat,
        );
    }
}

/// A controller recovers fully once rate limits stop: attempts that begin after the required
/// quiet, spaced by the recovery interval or more, bring it back to no backoff, full concurrency
/// and full batch size. As many are enough as concurrency is short of its maximum, or 19 where
/// that is more.
pub proof fn law_a_quiet_controller_recovers_fully(
    before: Controller,
    start: u64,
    gap_ms: u64,
    n: nat,
)
    requires
        before.wf(),
        before.ever_rate_limited,
        before.quiet_for(start as int, before.required_idle_ms()),
        crate::model::time_since(start as int, before.last_recovery_ms)
            >= before.recovery_interval_ms,
        gap_ms >= before.recovery_interval_ms,
        n >= before.max - before.current,
        n >= 19,
    ensures
        ({
            let after = before.recovery_attempts(start as int, gap_ms as int, n);
            after.backoff_ms == 0 && after.current >= before.max && after.batch_size == 100
        }),
{
    assert(clearable_by_ticks(10) >= 30_000) by {
        reveal_with_fuel(clearable_by_ticks, 6);
        assert(clearable_by_ticks(5) == 1615);
    }
    lemma_clearable_by_ticks_grows(10, n);
    lemma_attempts_restore(before, start as int, gap_ms as int, n);
}

/// Whatever changes what the metrics show marks them for publication, and the mark stays until
/// they are published.
pub proof fn law_metrics_follow_every_change(start: Controller, events: Seq<Event>)
    requires
        start.wf(),
        forall|i: int| 0 <= i < events.len() ==> !(events[i] is Publish),
    ensures
        start.run(events).gauges() != start.gauges() ==> start.run(events).unpublished,
        start.unpublished ==> start.run(events).unpublished,
    decreases events.len(),
{
    if events.len() > 0 {
        law_metrics_follow_every_change(start, events.drop_last());
        assert(!(events[events.len() - 1] is Publish));
    }
}

} // verus!
