//! What each operation does to a controller, in numbers.
//!
//! Each law says of an operation what becomes of every part of the state, for every state, without
//! going through the functions and the limits that the model is made of.

use crate::model::Controller;
use vstd::prelude::*;

verus! {

/// A new controller runs at the given concurrency with 50 calls per batch, without backoff, with
/// nothing to recover from, and recovers after 5 s of quiet in ticks 2 s apart.
pub proof fn law_new_controller(initial: int, min: int, max: int)
    ensures
        ({
            let new = Controller::initial(initial, min, max);
            &&& new.current == initial
            &&& new.min == min
            &&& new.max == max
            &&& new.consecutive_successes == 0
            &&& new.backoff_ms == 0
            &&& new.batch_size == 50
            &&& new.rate_limit_count == 0
            &&& !new.ever_rate_limited
            &&& new.last_rate_limit_ms == 0
            &&& new.last_recovery_ms == 0
            &&& new.idle_before_recovery_ms == 5_000
            &&& new.recovery_interval_ms == 2_000
            &&& !new.unpublished
        }),
{
}

/// A controller is valid exactly when its numbers lie in their ranges and one that was never rate
/// limited has no backoff and no count.
pub proof fn law_valid_controllers(c: Controller)
    ensures
        c.wf() <==> {
            &&& c.current >= 0
            &&& c.min >= 0
            &&& c.max >= 0
            &&& c.rate_limit_count >= 0
            &&& c.last_rate_limit_ms >= 0
            &&& c.last_recovery_ms >= 0
            &&& c.idle_before_recovery_ms >= 0
            &&& c.recovery_interval_ms >= 0
            &&& 0 <= c.consecutive_successes <= 9
            &&& 0 <= c.backoff_ms <= 30_000
            &&& 5 <= c.batch_size <= 100
            &&& c.ever_rate_limited || c.backoff_ms == 0 && c.rate_limit_count == 0
        },
{
}

/// Every success, of either kind and also one that completes a streak, leaves three quarters of
/// the backoff, rounded down.
pub proof fn law_every_success_takes_a_quarter_off_the_backoff(before: Controller)
    requires
        before.backoff_ms >= 0,
    ensures
        4 * before.decayed().backoff_ms <= 3 * before.backoff_ms < 4 * before.decayed().backoff_ms
            + 4,
        4 * before.succeeded().backoff_ms <= 3 * before.backoff_ms < 4
            * before.succeeded().backoff_ms + 4,
        before.backoff_ms > 0 ==> before.decayed().backoff_ms < before.backoff_ms
            && before.succeeded().backoff_ms < before.backoff_ms,
{
}

/// A success that only decays the backoff changes nothing else, and marks the metrics if there
/// was a backoff.
pub proof fn law_decay_only_success_changes_nothing_else(before: Controller)
    requires
        before.backoff_ms >= 0,
    ensures
        ({
            let after = before.decayed();
            &&& after.current == before.current
            &&& after.min == before.min
            &&& after.max == before.max
            &&& after.consecutive_successes == before.consecutive_successes
            &&& after.batch_size == before.batch_size
            &&& after.rate_limit_count == before.rate_limit_count
            &&& after.ever_rate_limited == before.ever_rate_limited
            &&& after.last_rate_limit_ms == before.last_rate_limit_ms
            &&& after.last_recovery_ms == before.last_recovery_ms
            &&& after.idle_before_recovery_ms == before.idle_before_recovery_ms
            &&& after.recovery_interval_ms == before.recovery_interval_ms
            &&& after.unpublished == (before.unpublished || before.backoff_ms > 0)
        }),
{
}

/// A success adds one to the streak. The tenth in a row starts a new streak and raises concurrency
/// by a fifth, at least by one, and the batch size by a fifth, at least by five, neither past its
/// maximum. Beside these, the backoff and the mark on the metrics nothing changes.
pub proof fn law_success_in_numbers(before: Controller)
    requires
        before.consecutive_successes >= 0,
        before.current >= 0,
        before.batch_size >= 0,
    ensures
        ({
            let after = before.succeeded();
            let tenth = before.consecutive_successes >= 9;
            &&& after.consecutive_successes == if tenth {
                0
            } else {
                before.consecutive_successes + 1
            }
            &&& !tenth || before.current >= before.max ==> after.current == before.current
            &&& tenth && before.current < before.max && before.current < 10 ==> after.current
                == before.current + 1
            &&& tenth && before.current < before.max && before.current >= 10 ==> after.current
                == if before.max < before.current + before.current / 5 {
                before.max
            } else {
                before.current + before.current / 5
            }
            &&& !tenth || before.batch_size >= 100 ==> after.batch_size == before.batch_size
            &&& tenth && before.batch_size < 30 ==> after.batch_size == before.batch_size + 5
            &&& tenth && 30 <= before.batch_size < 100 ==> after.batch_size == if 100
                < before.batch_size + before.batch_size / 5 {
                100
            } else {
                before.batch_size + before.batch_size / 5
            }
            &&& after.min == before.min
            &&& after.max == before.max
            &&& after.rate_limit_count == before.rate_limit_count
            &&& after.ever_rate_limited == before.ever_rate_limited
            &&& after.last_rate_limit_ms == before.last_rate_limit_ms
            &&& after.last_recovery_ms == before.last_recovery_ms
            &&& after.idle_before_recovery_ms == before.idle_before_recovery_ms
            &&& after.recovery_interval_ms == before.recovery_interval_ms
            &&& after.unpublished
        }),
{
}

/// A rate limit starts a backoff of 500 ms or doubles the one there is, up to 30 s; halves
/// concurrency that is above its minimum, not below it, and the batch size, not below 5; ends the
/// streak; adds one to the count; and is stamped with its own time.
pub proof fn law_rate_limit_in_numbers(before: Controller, now: int)
    requires
        before.backoff_ms >= 0,
        before.current >= 0,
        0 <= before.rate_limit_count <= 18_446_744_073_709_551_615,
    ensures
        ({
            let after = before.rate_limited(now);
            &&& before.backoff_ms == 0 ==> after.backoff_ms == 500
            &&& 0 < before.backoff_ms <= 15_000 ==> after.backoff_ms == before.backoff_ms
                + before.backoff_ms
            &&& before.backoff_ms > 15_000 ==> after.backoff_ms == 30_000
            &&& before.current <= before.min ==> after.current == before.current
            &&& before.current > before.min && before.current < 2 * before.min ==> after.current
                == before.min
            &&& before.current > before.min && before.current >= 2 * before.min ==> 2
                * after.current <= before.current <= 2 * after.current + 1
            &&& before.batch_size < 10 ==> after.batch_size == 5
            &&& before.batch_size >= 10 ==> 2 * after.batch_size <= before.batch_size <= 2
                * after.batch_size + 1
            &&& after.consecutive_successes == 0
            &&& before.rate_limit_count < 18_446_744_073_709_551_615 ==> after.rate_limit_count
                == before.rate_limit_count + 1
            &&& before.rate_limit_count == 18_446_744_073_709_551_615 ==> after.rate_limit_count
                == 0
            &&& after.ever_rate_limited
            &&& after.last_rate_limit_ms == now
            &&& after.min == before.min
            &&& after.max == before.max
            &&& after.last_recovery_ms == before.last_recovery_ms
            &&& after.idle_before_recovery_ms == before.idle_before_recovery_ms
            &&& after.recovery_interval_ms == before.recovery_interval_ms
            &&& after.unpublished
        }),
{
}

/// A general error takes a tenth off concurrency that is above its minimum, at least one, not
/// below the minimum, and ends the streak. Beside the mark on the metrics nothing else changes.
pub proof fn law_error_in_numbers(before: Controller)
    requires
        before.current >= 0,
        before.min >= 0,
    ensures
        ({
            let after = before.failed();
            &&& before.current <= before.min ==> after.current == before.current
            &&& before.min < before.current < 20 ==> after.current == before.current - 1
            &&& before.current > before.min && before.current >= 20 ==> after.current == if
            before.current - before.current / 10 < before.min {
                before.min
            } else {
                before.current - before.current / 10
            }
            &&& after.consecutive_successes == 0
            &&& after.backoff_ms == before.backoff_ms
            &&& after.batch_size == before.batch_size
            &&& after.min == before.min
            &&& after.max == before.max
            &&& after.rate_limit_count == before.rate_limit_count
            &&& after.ever_rate_limited == before.ever_rate_limited
            &&& after.last_rate_limit_ms == before.last_rate_limit_ms
            &&& after.last_recovery_ms == before.last_recovery_ms
            &&& after.idle_before_recovery_ms == before.idle_before_recovery_ms
            &&& after.recovery_interval_ms == before.recovery_interval_ms
            &&& after.unpublished
        }),
{
}

/// The quiet that recovery asks for is the idle period or twice the backoff, whichever is longer.
pub proof fn law_required_quiet(c: Controller)
    ensures
        c.required_idle_ms() >= c.idle_before_recovery_ms,
        c.required_idle_ms() >= c.backoff_ms + c.backoff_ms,
        c.required_idle_ms() == c.idle_before_recovery_ms || c.required_idle_ms() == c.backoff_ms
            + c.backoff_ms,
{
}

/// A tick is due exactly when the controller was rate limited at some time, has something left to
/// recover, and both the latest rate limit and the latest tick lie far enough back.
pub proof fn law_a_tick_is_due_exactly_when_quiet(c: Controller, now: int)
    requires
        c.last_rate_limit_ms <= now,
        c.last_recovery_ms <= now,
    ensures
        c.tick_due(now) <==> {
            &&& c.ever_rate_limited
            &&& c.backoff_ms != 0 || c.current < c.max || c.batch_size < 100
            &&& now >= c.last_rate_limit_ms + c.idle_before_recovery_ms
            &&& now >= c.last_rate_limit_ms + 2 * c.backoff_ms
            &&& now >= c.last_recovery_ms + c.recovery_interval_ms
        },
{
}

/// A reading that is not past a stamp finds no time gone by since it.
pub proof fn law_early_readings_find_no_quiet(c: Controller, now: int, idle_ms: int)
    ensures
        now <= c.last_rate_limit_ms && (c.idle_before_recovery_ms > 0 || c.backoff_ms > 0)
            ==> !c.tick_due(now),
        now <= c.last_recovery_ms && c.recovery_interval_ms > 0 ==> !c.tick_due(now),
        now <= c.last_rate_limit_ms && idle_ms > 0 ==> c.tick_applied(now, idle_ms) == c,
{
}

/// Claiming a tick that is due stamps the tick with the time, and changes nothing else; claiming
/// one that is not due changes nothing.
pub proof fn law_a_claim_stamps_the_tick_only(before: Controller, now: int)
    ensures
        ({
            let after = before.tick_claimed(now);
            &&& before.tick_due(now) ==> after.last_recovery_ms == now
            &&& !before.tick_due(now) ==> after.last_recovery_ms == before.last_recovery_ms
            &&& after.current == before.current
            &&& after.min == before.min
            &&& after.max == before.max
            &&& after.consecutive_successes == before.consecutive_successes
            &&& after.backoff_ms == before.backoff_ms
            &&& after.batch_size == before.batch_size
            &&& after.rate_limit_count == before.rate_limit_count
            &&& after.ever_rate_limited == before.ever_rate_limited
            &&& after.last_rate_limit_ms == before.last_rate_limit_ms
            &&& after.idle_before_recovery_ms == before.idle_before_recovery_ms
            &&& after.recovery_interval_ms == before.recovery_interval_ms
            &&& after.unpublished == before.unpublished
        }),
{
}

/// A claimed tick that finds the latest rate limit `idle_ms` back or more halves a backoff above
/// 100 ms, clears a smaller one, and raises concurrency and batch size as a full streak of
/// successes does. One that finds a later rate limit changes nothing.
pub proof fn law_a_tick_in_numbers(before: Controller, now: int, idle_ms: int)
    requires
        before.backoff_ms >= 0,
        before.current >= 0,
        before.batch_size >= 0,
        before.last_rate_limit_ms <= now,
    ensures
        ({
            let after = before.tick_applied(now, idle_ms);
            let effective = now >= before.last_rate_limit_ms + idle_ms;
            &&& !effective ==> after == before
            &&& effective && before.backoff_ms > 100 ==> 2 * after.backoff_ms <= before.backoff_ms
                <= 2 * after.backoff_ms + 1
            &&& effective && before.backoff_ms <= 100 ==> after.backoff_ms == 0
            &&& before.current >= before.max ==> after.current == before.current
            &&& effective && before.current < before.max && before.current < 10 ==> after.current
                == before.current + 1
            &&& effective && before.current < before.max && before.current >= 10 ==> after.current
                == if before.max < before.current + before.current / 5 {
                before.max
            } else {
                before.current + before.current / 5
            }
            &&& before.batch_size >= 100 ==> after.batch_size == before.batch_size
            &&& effective && before.batch_size < 30 ==> after.batch_size == before.batch_size + 5
            &&& effective && 30 <= before.batch_size < 100 ==> after.batch_size == if 100
                < before.batch_size + before.batch_size / 5 {
                100
            } else {
                before.batch_size + before.batch_size / 5
            }
            &&& after.consecutive_successes == before.consecutive_successes
            &&& after.min == before.min
            &&& after.max == before.max
            &&& after.rate_limit_count == before.rate_limit_count
            &&& after.ever_rate_limited == before.ever_rate_limited
            &&& after.last_rate_limit_ms == before.last_rate_limit_ms
            &&& after.last_recovery_ms == before.last_recovery_ms
            &&& after.idle_before_recovery_ms == before.idle_before_recovery_ms
            &&& after.recovery_interval_ms == before.recovery_interval_ms
            &&& effective ==> after.unpublished
        }),
{
}

/// A recovery attempt with a tick due and still quiet at the recheck halves a backoff above 100 ms
/// and clears a smaller one; it raises concurrency and batch size and stamps the tick.
pub proof fn law_recovery_in_numbers(before: Controller, now: int, recheck: int)
    requires
        before.backoff_ms >= 0,
        before.current >= 0,
        before.batch_size >= 0,
        before.ever_rate_limited,
        before.backoff_ms != 0 || before.current < before.max || before.batch_size < 100,
        now >= before.last_rate_limit_ms + before.idle_before_recovery_ms,
        now >= before.last_rate_limit_ms + 2 * before.backoff_ms,
        now >= before.last_recovery_ms + before.recovery_interval_ms,
        before.idle_before_recovery_ms >= 0,
        before.recovery_interval_ms >= 0,
        recheck >= now,
    ensures
        ({
            let after = before.recovered(now, recheck);
            &&& before.backoff_ms > 100 ==> after.backoff_ms == before.backoff_ms / 2
            &&& before.backoff_ms <= 100 ==> after.backoff_ms == 0
            &&& before.current >= before.max ==> after.current == before.current
            &&& before.current < before.max && before.current < 10 ==> after.current
                == before.current + 1
            &&& before.current < before.max && before.current >= 10 ==> after.current == if
            before.max < before.current + before.current / 5 {
                before.max
            } else {
                before.current + before.current / 5
            }
            &&& before.batch_size >= 100 ==> after.batch_size == before.batch_size
            &&& before.batch_size < 30 ==> after.batch_size == before.batch_size + 5
            &&& 30 <= before.batch_size < 100 ==> after.batch_size == if 100 < before.batch_size
                + before.batch_size / 5 {
                100
            } else {
                before.batch_size + before.batch_size / 5
            }
            &&& after.consecutive_successes == before.consecutive_successes
            &&& after.min == before.min
            &&& after.max == before.max
            &&& after.rate_limit_count == before.rate_limit_count
            &&& after.ever_rate_limited
            &&& after.last_rate_limit_ms == before.last_rate_limit_ms
            &&& after.last_recovery_ms == now
            &&& after.idle_before_recovery_ms == before.idle_before_recovery_ms
            &&& after.recovery_interval_ms == before.recovery_interval_ms
            &&& after.unpublished
        }),
{
}

/// A recovery attempt changes nothing where no tick is due: the controller was never rate limited,
/// has nothing left to recover, saw a rate limit less than the idle period or twice the backoff
/// ago, or ticked less than an interval ago.
pub proof fn law_recovery_without_a_tick_changes_nothing(
    before: Controller,
    now: int,
    recheck: int,
)
    requires
        before.last_rate_limit_ms <= now,
        before.last_recovery_ms <= now,
        !before.ever_rate_limited || before.backoff_ms == 0 && before.current >= before.max
            && before.batch_size >= 100 || now < before.last_rate_limit_ms
            + before.idle_before_recovery_ms || now < before.last_rate_limit_ms + 2
            * before.backoff_ms || now < before.last_recovery_ms + before.recovery_interval_ms,
    ensures
        before.recovered(now, recheck) == before,
{
}

/// What a recovery attempt leaves, whatever it read: the state as it was, the state with a new
/// stamp on the tick, or that with the backoff halved or cleared and concurrency and batch size
/// raised.
pub proof fn law_what_a_recovery_attempt_leaves(before: Controller, after: Controller)
    requires
        before.wf(),
        crate::model::recovery_outcome(before, after),
    ensures
        after == before || {
            &&& before.ever_rate_limited
            &&& before.backoff_ms > 0 || before.current < before.max || before.batch_size < 100
            &&& after.consecutive_successes == before.consecutive_successes
            &&& after.min == before.min
            &&& after.max == before.max
            &&& after.rate_limit_count == before.rate_limit_count
            &&& after.ever_rate_limited
            &&& after.last_rate_limit_ms == before.last_rate_limit_ms
            &&& after.idle_before_recovery_ms == before.idle_before_recovery_ms
            &&& after.recovery_interval_ms == before.recovery_interval_ms
            &&& {
                ||| after.backoff_ms == before.backoff_ms && after.current == before.current
                    && after.batch_size == before.batch_size
                ||| {
                    &&& after.backoff_ms == if before.backoff_ms > 100 {
                        before.backoff_ms / 2
                    } else {
                        0
                    }
                    &&& before.current >= before.max ==> after.current == before.current
                    &&& before.current < before.max ==> before.current < after.current
                        <= before.max && (after.current == before.current + 1 || 5 * (after.current
                        - before.current) <= before.current)
                    &&& before.batch_size >= 100 ==> after.batch_size == before.batch_size
                    &&& before.batch_size < 100 ==> before.batch_size < after.batch_size <= 100
                    &&& after.unpublished
                }
            }
        },
{
}

/// What a rate limit leaves, whatever it read: a backoff twice as long, up to 30 s, or 500 ms
/// where there was none, and a stamp that the clock can hold.
pub proof fn law_what_a_rate_limit_leaves(before: Controller, after: Controller)
    requires
        before.wf(),
        crate::model::rate_limit_outcome(before, after),
    ensures
        0 <= after.last_rate_limit_ms <= 18_446_744_073_709_551_615,
        after == before.rate_limited(after.last_rate_limit_ms),
        after.ever_rate_limited,
        before.backoff_ms == 0 ==> after.backoff_ms == 500,
        0 < before.backoff_ms <= 15_000 ==> after.backoff_ms == 2 * before.backoff_ms,
        before.backoff_ms > 15_000 ==> after.backoff_ms == 30_000,
{
}

/// A rate limit holds recovery off: an attempt less than the idle period, or less than twice the
/// new backoff, after the rate limit leaves everything as the rate limit left it.
pub proof fn law_a_rate_limit_holds_recovery_off(
    before: Controller,
    now: int,
    later: int,
    recheck: int,
)
    requires
        before.backoff_ms >= 0,
        now <= later,
        later < now + before.idle_before_recovery_ms || before.backoff_ms == 0 && later < now
            + 1_000 || later < now + 4 * before.backoff_ms && later < now + 60_000,
    ensures
        before.rate_limited(now).recovered(later, recheck) == before.rate_limited(now),
{
}

/// Taking the metrics for publication clears the mark on them and changes nothing else.
pub proof fn law_publishing_changes_nothing(before: Controller)
    ensures
        ({
            let after = before.published();
            &&& !after.unpublished
            &&& after.current == before.current
            &&& after.min == before.min
            &&& after.max == before.max
            &&& after.consecutive_successes == before.consecutive_successes
            &&& after.backoff_ms == before.backoff_ms
            &&& after.batch_size == before.batch_size
            &&& after.rate_limit_count == before.rate_limit_count
            &&& after.ever_rate_limited == before.ever_rate_limited
            &&& after.last_rate_limit_ms == before.last_rate_limit_ms
            &&& after.last_recovery_ms == before.last_recovery_ms
            &&& after.idle_before_recovery_ms == before.idle_before_recovery_ms
            &&& after.recovery_interval_ms == before.recovery_interval_ms
        }),
{
}

} // verus!
