use adaptive_rpc::adaptive_concurrency::{AdaptiveConcurrency, AdaptiveMetrics};

/// Controller whose recovery tick interval is zero, so ticks fire on every read once the
/// (backoff-scaled) idle window has passed on the test's own clock.
fn instant_recovery_controller() -> AdaptiveConcurrency {
    let mut c = AdaptiveConcurrency::new(20, 2, 200);
    c.set_recovery_timing(0, 0);
    c
}

fn backoff(c: &AdaptiveConcurrency) -> u64 {
    c.backoff_ms()
}

#[test]
fn record_rate_limit_grows_backoff_and_scales_down() {
    let mut c = AdaptiveConcurrency::new(20, 2, 200);
    c.record_rate_limit();
    assert_eq!(backoff(&c), 500, "first rate limit starts backoff at 500ms");
    c.record_rate_limit();
    assert_eq!(backoff(&c), 1000, "second rate limit doubles backoff");
    assert!(c.current() < 20, "concurrency scales down on rate limit");
}

#[test]
fn recover_is_noop_until_a_rate_limit_has_occurred() {
    // A freshly-started, never-throttled controller must not be nudged by recovery: scale-up
    // stays owned by the success path.
    let mut c = instant_recovery_controller();
    let before = c.current();
    c.recover_if_idle_at(3_600_000);
    assert_eq!(backoff(&c), 0);
    assert_eq!(
        c.current(),
        before,
        "recovery does not scale up a controller that never backed off"
    );
}

#[test]
fn backoff_and_concurrency_recover_once_idle() {
    let mut c = instant_recovery_controller();
    c.record_rate_limit();
    c.record_rate_limit();
    assert_eq!(backoff(&c), 1000);
    assert!(c.current() < 20);

    // A long quiet period, then recovery ticks (interval is 0 here).
    for _ in 0..200 {
        c.recover_if_idle_at(3_600_000);
        if backoff(&c) == 0 && c.current() >= c.max() {
            break;
        }
    }

    assert_eq!(backoff(&c), 0, "backoff fully decays once the provider is quiet");
    assert_eq!(c.current(), c.max(), "concurrency climbs back to max once recovered");
}

#[test]
fn recovery_holds_off_while_rate_limits_continue() {
    // Default 5s idle window: a just-recorded rate limit must not be undone immediately.
    let mut c = AdaptiveConcurrency::new(20, 2, 200);
    c.record_rate_limit();
    let after_limit = backoff(&c);
    // current_backoff_ms() runs recovery, but the idle window hasn't elapsed.
    assert_eq!(
        c.current_backoff_ms(),
        after_limit,
        "backoff is not decayed within the idle window"
    );
}

#[test]
fn required_idle_window_scales_with_backoff() {
    // With a large backoff all workers are asleep, so a short quiet period proves nothing: the
    // idle requirement is max(5s, 2 x backoff).
    let mut now = 0;
    let mut c = AdaptiveConcurrency::new(20, 2, 200);
    for _ in 0..7 {
        c.record_rate_limit_at(now);
    }
    assert_eq!(backoff(&c), 30_000, "backoff capped at max");

    // Past the 5s base window but well inside 2 x 30s: recovery must hold.
    now += 6_000;
    assert_eq!(
        c.current_backoff_ms_at(now),
        30_000,
        "recovery must not fire while sleeping workers could still be rate-limited"
    );

    // Past 60s of true quiet: recovery begins.
    now += 55_000;
    c.recover_if_idle_at(now);
    assert_eq!(backoff(&c), 15_000, "backoff halves once the scaled idle window elapses");
}

#[test]
fn rpc_layer_success_decays_backoff_without_scaling_up() {
    let mut c = AdaptiveConcurrency::new(20, 2, 200);
    c.record_rate_limit();
    c.record_rate_limit();
    assert_eq!(backoff(&c), 1000);
    let throttled_concurrency = c.current();

    for _ in 0..40 {
        c.record_success_backoff_only();
    }

    assert_eq!(backoff(&c), 0, "successful responses decay backoff to zero");
    assert_eq!(
        c.current(),
        throttled_concurrency,
        "decay-only success must not scale concurrency back up"
    );
}

#[test]
fn controllers_are_independent() {
    // One network's rate limits must not throttle another's controller.
    let mut ethereum = AdaptiveConcurrency::new(20, 2, 200);
    let avalanche = AdaptiveConcurrency::new(20, 2, 200);

    for _ in 0..5 {
        ethereum.record_rate_limit();
    }

    assert!(backoff(&ethereum) > 0);
    assert!(ethereum.current() < 20);
    assert_eq!(backoff(&avalanche), 0, "unrelated controller keeps zero backoff");
    assert_eq!(avalanche.current(), 20, "unrelated controller keeps full concurrency");
}

#[test]
fn new_controller_starts_unthrottled() {
    let mut c = AdaptiveConcurrency::for_rpc_batches();
    assert_eq!(c.current(), 20);
    assert_eq!(c.max(), 200);
    assert_eq!(c.current_batch_size(), 50);
    assert_eq!(c.current_backoff_ms(), 0);
    assert_eq!(c.rate_limit_count(), 0);
    assert_eq!(c.wait_for_backoff(), None);
    assert_eq!(c.publish_metrics(), None);
}

#[test]
fn rate_limits_halve_down_to_the_minimum() {
    let mut c = AdaptiveConcurrency::new(20, 2, 200);
    let mut seen = vec![];
    for _ in 0..8 {
        c.record_rate_limit_at(0);
        seen.push((c.current(), c.current_batch_size(), c.backoff_ms()));
    }
    assert_eq!(
        seen,
        vec![
            (10, 25, 500),
            (5, 12, 1_000),
            (2, 6, 2_000),
            (2, 5, 4_000),
            (2, 5, 8_000),
            (2, 5, 16_000),
            (2, 5, 30_000),
            (2, 5, 30_000),
        ]
    );
    assert_eq!(c.rate_limit_count(), 8);
}

#[test]
fn tenth_success_in_a_row_scales_up() {
    let mut c = AdaptiveConcurrency::new(20, 2, 200);
    for _ in 0..9 {
        c.record_success();
    }
    assert_eq!((c.current(), c.current_batch_size()), (20, 50));
    c.record_success();
    assert_eq!((c.current(), c.current_batch_size()), (24, 60));
}

#[test]
fn an_error_breaks_the_streak_and_trims_concurrency() {
    let mut c = AdaptiveConcurrency::new(20, 2, 200);
    for _ in 0..9 {
        c.record_success();
    }
    c.record_error();
    assert_eq!((c.current(), c.current_batch_size()), (18, 50));
    c.record_success();
    assert_eq!(c.current(), 18);
    let mut low = AdaptiveConcurrency::new(3, 2, 200);
    low.record_error();
    assert_eq!(low.current(), 2);
    low.record_error();
    assert_eq!(low.current(), 2);
}

#[test]
fn scaling_up_stops_at_the_caps() {
    let mut c = AdaptiveConcurrency::new(199, 2, 200);
    for _ in 0..100 {
        c.record_success();
    }
    assert_eq!(c.current(), 200);
    assert_eq!(c.current_batch_size(), 100);
    let mut huge = AdaptiveConcurrency::new(usize::MAX - 1, 2, usize::MAX);
    for _ in 0..10 {
        huge.record_success();
    }
    assert_eq!(huge.current(), usize::MAX);
}

#[test]
fn concurrency_outside_its_bounds_is_left_alone() {
    let mut high = AdaptiveConcurrency::new(300, 2, 200);
    for _ in 0..10 {
        high.record_success();
    }
    assert_eq!(high.current(), 300);
    let mut low = AdaptiveConcurrency::new(1, 2, 200);
    low.record_rate_limit_at(0);
    assert_eq!(low.current(), 1);
}

#[test]
fn success_takes_a_quarter_off_the_backoff() {
    let mut c = AdaptiveConcurrency::new(20, 2, 200);
    c.record_rate_limit_at(0);
    c.record_success();
    assert_eq!(c.backoff_ms(), 375);
    c.record_success_backoff_only();
    assert_eq!(c.backoff_ms(), 281);
}

#[test]
fn thirty_four_successes_clear_the_largest_backoff() {
    let mut c = AdaptiveConcurrency::new(20, 2, 200);
    for _ in 0..7 {
        c.record_rate_limit_at(0);
    }
    for _ in 0..33 {
        c.record_success_backoff_only();
    }
    assert_eq!(c.backoff_ms(), 1);
    c.record_success_backoff_only();
    assert_eq!(c.backoff_ms(), 0);
}

#[test]
fn ticks_are_spaced_by_the_recovery_interval() {
    let mut c = AdaptiveConcurrency::new(20, 2, 200);
    c.record_rate_limit_at(0);
    c.record_rate_limit_at(0);
    c.recover_if_idle_at(4_999);
    assert_eq!(c.backoff_ms(), 1_000);
    c.recover_if_idle_at(5_000);
    assert_eq!((c.backoff_ms(), c.current(), c.current_batch_size()), (500, 6, 17));
    c.recover_if_idle_at(6_999);
    assert_eq!(c.backoff_ms(), 500);
    c.recover_if_idle_at(7_000);
    assert_eq!((c.backoff_ms(), c.current(), c.current_batch_size()), (250, 7, 22));
}

#[test]
fn small_backoff_is_cleared_rather_than_halved() {
    let mut c = instant_recovery_controller();
    c.record_rate_limit_at(0);
    let mut seen = vec![];
    for _ in 0..4 {
        c.recover_if_idle_at(3_600_000);
        seen.push(c.backoff_ms());
    }
    assert_eq!(seen, vec![250, 125, 62, 0]);
}

#[test]
fn a_quiet_controller_recovers_fully_and_stays() {
    let mut c = AdaptiveConcurrency::new(20, 2, 200);
    for _ in 0..7 {
        c.record_rate_limit_at(0);
    }
    let mut now = 60_000;
    for _ in 0..198 {
        c.recover_if_idle_at(now);
        now += 2_000;
    }
    assert_eq!((c.backoff_ms(), c.current(), c.current_batch_size()), (0, 200, 100));
    assert!(c.publish_metrics().is_some());
    c.recover_if_idle_at(now);
    assert_eq!(c.publish_metrics(), None);
}

#[test]
fn a_rate_limit_after_the_claim_drops_the_tick() {
    let mut c = AdaptiveConcurrency::new(20, 2, 200);
    c.record_rate_limit_at(0);
    let required = c.claim_recovery_tick(5_000);
    assert_eq!(required, Some(5_000));
    c.record_rate_limit_at(5_001);
    c.apply_recovery_tick(5_002, 5_000);
    assert_eq!((c.backoff_ms(), c.current()), (1_000, 5));
    // The tick was used up all the same.
    assert_eq!(c.claim_recovery_tick(6_999), None);
}

#[test]
fn a_second_claim_within_the_interval_fails() {
    let mut c = AdaptiveConcurrency::new(20, 2, 200);
    c.record_rate_limit_at(0);
    assert_eq!(c.claim_recovery_tick(5_000), Some(5_000));
    assert_eq!(c.claim_recovery_tick(5_000), None);
}

#[test]
fn metrics_follow_every_transition_once() {
    let mut c = AdaptiveConcurrency::new(20, 2, 200);
    c.record_success_backoff_only();
    assert_eq!(c.publish_metrics(), None);
    c.record_rate_limit_at(0);
    assert_eq!(
        c.publish_metrics(),
        Some(AdaptiveMetrics { current: 10, batch_size: 25, backoff_ms: 500, rate_limit_events: 1 })
    );
    assert_eq!(c.publish_metrics(), None);
    c.record_success();
    assert_eq!(
        c.publish_metrics(),
        Some(AdaptiveMetrics { current: 10, batch_size: 25, backoff_ms: 375, rate_limit_events: 1 })
    );
    c.record_error();
    assert_eq!(
        c.publish_metrics(),
        Some(AdaptiveMetrics { current: 9, batch_size: 25, backoff_ms: 375, rate_limit_events: 1 })
    );
}

#[test]
fn waiting_lasts_as_long_as_the_backoff() {
    let mut c = AdaptiveConcurrency::new(20, 2, 200);
    c.record_rate_limit();
    assert_eq!(c.wait_for_backoff(), Some(500));
}

#[test]
fn the_controller_reads_a_running_clock() {
    let mut c = AdaptiveConcurrency::new(20, 2, 200);
    c.set_recovery_timing(0, 0);
    c.record_rate_limit();
    for _ in 0..40 {
        c.record_success_backoff_only();
    }
    // No backoff and no idle period left: recovery on the running clock takes effect at once.
    c.recover_if_idle();
    assert_eq!(c.current(), 12);
    // A rate limit is stamped with the running clock: ten seconds later on that clock is quiet.
    c.set_recovery_timing(5_000, 0);
    c.record_rate_limit();
    c.recover_if_idle();
    assert_eq!(c.backoff_ms(), 500);
    c.recover_if_idle_at(3_600_000);
    assert_eq!(c.backoff_ms(), 250);
}
