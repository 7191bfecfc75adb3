use num_bigint::BigUint;
use traffic_tracker::checkpoint::Checkpoint;
use traffic_tracker::clock::current_time_millis;
use traffic_tracker::scheduler::{
    clamped_dist, quota_check_step, rate_in_bits, rebaseline, sleep_until_reset_ms,
    window_reset_decision,
};
use traffic_tracker::settings::Settings;

fn checkpoint(reset_at_ms: u64, starting: u64, last_saved: u64) -> Checkpoint {
    Checkpoint {
        reset_at_ms,
        starting_bytes: BigUint::from(starting),
        last_saved_bytes: BigUint::from(last_saved),
    }
}

#[test]
fn dist_is_clamped_to_zero_below_the_baseline() {
    // A reading below the baseline (counters reset by a reboot) gives a
    // usage of exactly zero, never an underflow or a quota breach.
    let dist = clamped_dist(&BigUint::from(30u64), &BigUint::from(50u64));
    assert_eq!(dist, BigUint::from(0u64));
    let dist = clamped_dist(&BigUint::from(50u64), &BigUint::from(50u64));
    assert_eq!(dist, BigUint::from(0u64));
    let dist = clamped_dist(&BigUint::from(80u64), &BigUint::from(50u64));
    assert_eq!(dist, BigUint::from(30u64));
}

#[test]
fn one_apply_per_window() {
    // max_bytes = 100, baseline 0: readings 50, 80, 150 trigger exactly one
    // throttle, at 150; the loop then sleeps until the window deadline, so no
    // further reading is checked before the reset fires.
    let max_bytes: u64 = 100;
    let save_every: u64 = 1_000_000;
    let mut cp = checkpoint(10_000, 0, 0);
    let mut applies: u32 = 0;
    let mut throttled = false;
    for reading in [50u64, 80, 150] {
        assert!(!throttled, "a throttled loop must not check again before the reset");
        let d = quota_check_step(&cp, &BigUint::from(reading), save_every, max_bytes);
        if d.throttle {
            applies += 1;
            throttled = true;
        }
    }
    assert_eq!(applies, 1);
    assert!(throttled);

    // The window-reset loop fires: lift the throttle, rebaseline, and the
    // next reading no longer breaches the quota.
    cp.record_reading(BigUint::from(150u64));
    assert!(window_reset_decision(&cp, max_bytes));
    rebaseline(&mut cp, BigUint::from(150u64), 10_000, 5_000);
    let d = quota_check_step(&cp, &BigUint::from(160u64), save_every, max_bytes);
    assert!(!d.throttle);
}

#[test]
fn delta_at_threshold_triggers_out_of_cadence_persist() {
    // save_every_n_bytes = 64: a delta of 70 over the baseline persists a
    // checkpoint carrying the new reading as last saved bytes.
    let cp = checkpoint(5_000, 1_000, 1_000);
    let current = BigUint::from(1_070u64);
    let d = quota_check_step(&cp, &current, 64, 1_000_000);
    let saved = d.save.expect("a delta past the threshold must persist");
    assert_eq!(saved.last_saved_bytes, current);
    assert_eq!(saved.starting_bytes, BigUint::from(1_000u64));
    assert_eq!(saved.reset_at_ms, 5_000);
    assert!(!d.throttle);
}

#[test]
fn delta_below_threshold_does_not_persist() {
    let cp = checkpoint(5_000, 1_000, 1_000);
    let d = quota_check_step(&cp, &BigUint::from(1_063u64), 64, 1_000_000);
    assert!(d.save.is_none());
}

#[test]
fn release_exactly_when_the_window_closed_throttled() {
    // Quota exceeded in the closing window: release before rebaselining.
    assert!(window_reset_decision(&checkpoint(0, 0, 150), 100));
    // Not exceeded: no release.
    assert!(!window_reset_decision(&checkpoint(0, 0, 80), 100));
    assert!(!window_reset_decision(&checkpoint(0, 0, 100), 100));
    // Counters ran backwards (reboot): no underflow, no release.
    assert!(!window_reset_decision(&checkpoint(0, 50, 0), 100));
}

#[test]
fn rebaseline_moves_the_deadline_strictly_past_the_firing_time() {
    let mut cp = checkpoint(1_000, 0, 400);
    rebaseline(&mut cp, BigUint::from(400u64), 1_000, 500);
    assert_eq!(cp.reset_at_ms, 1_500);
    assert!(cp.reset_at_ms > 1_000);
    assert_eq!(cp.starting_bytes, BigUint::from(400u64));
    assert_eq!(cp.last_saved_bytes, BigUint::from(400u64));
}

#[test]
fn sleep_lasts_until_the_deadline_and_never_underflows() {
    assert_eq!(sleep_until_reset_ms(1_500, 1_000), 500);
    assert_eq!(sleep_until_reset_ms(1_000, 1_000), 0);
    assert_eq!(sleep_until_reset_ms(1_000, 2_000), 0);
}

#[test]
fn shaper_rate_is_in_bits() {
    assert_eq!(rate_in_bits(64 * 1024), 524_288);
    assert_eq!(rate_in_bits(1), 8);
}

#[test]
fn default_settings_hold_the_documented_values() {
    let s = Settings::default();
    assert_eq!(s.save_interval_ms, 60_000);
    assert_eq!(s.check_interval_ms, 10_000);
    assert_eq!(s.save_every_n_bytes, 67_108_864);
    assert_eq!(s.capture_timeframe_ms, 604_800_000);
    assert_eq!(s.max_bytes, 1_099_511_627_776);
    assert_eq!(s.lower_limit_bytes, 65_536);
    assert_eq!(s.burst_buffer_size, 4_096);
    assert_eq!(s.buffer_latency_ms, 50);
}

#[test]
fn clock_reads_as_epoch_milliseconds() {
    let first = current_time_millis();
    let second = current_time_millis();
    assert!(first > 0);
    assert!(second >= first);
}
