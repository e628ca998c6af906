use high_precision_clock::clock::CalibrationPolicy;
use high_precision_clock::clock::SimpleHighPrecisionClock;
use high_precision_clock::fixedpoint::FACTOR_ONE;
use high_precision_clock::sample::CalibrationSample;

// Scenario: a fallback-mode clock (counts are nanoseconds) with a warning
// threshold of 100ms and a calibration interval of one second. After 100ms
// of counter advance the elapsed reading is exact; after a synthetic 2s
// wall-clock jump and a forced hard-reset calibration, the drift over the
// next two seconds is strictly smaller in magnitude than the 2s drift the
// jump caused.
#[test]
fn test_scenario_jump_then_calibrate() {
    let mut clock = SimpleHighPrecisionClock::new_fallback(
        100_000_000,
        1_000_000_000,
        CalibrationPolicy::HardReset,
        50_000,
    )
    .unwrap();

    let start = clock.now(50_000);
    // one hundred milliseconds of counter advance
    let after_sleep = clock.now(50_000 + 100_000_000);
    let elapsed = after_sleep - start;
    assert!(90_000_000 <= elapsed && elapsed <= 110_000_000);
    assert_eq!(elapsed, 100_000_000);

    // The wall clock jumps two seconds ahead of the counter domain; the
    // clock is past its calibration boundary, so the tick takes effect.
    let c: u64 = 1_100_050_000;
    let jumped_wall: u64 = c + 2_000_000_000;
    let report = clock
        .calibrate(c, CalibrationSample { count: c, wall_ns: jumped_wall })
        .expect("the boundary was passed");
    assert_eq!(report.observed_drift_ns, -2_000_000_000);
    assert_eq!(report.threshold_ns, 100_000_000);
    assert!(report.exceeded);

    // The rebased clock now tracks the jumped wall clock exactly: over the
    // next two seconds no new drift appears at all.
    let c2 = c + 2_000_000_000;
    let drift_after = clock.now(c2) as i64 - (jumped_wall + 2_000_000_000) as i64;
    assert_eq!(drift_after, 0);
    assert!(drift_after.abs() < 2_000_000_000);
}

#[test]
fn test_hard_reset_replaces_baseline_and_keeps_factor() {
    let mut clock = SimpleHighPrecisionClock::new_fallback(
        100_000_000,
        1_000_000_000,
        CalibrationPolicy::HardReset,
        0,
    )
    .unwrap();
    let factor_before = clock.ns_per_tsc;
    let fresh = CalibrationSample { count: 3_000_000_000, wall_ns: 3_000_000_777 };
    let report = clock.calibrate(3_000_000_000, fresh).unwrap();
    assert_eq!(report.observed_drift_ns, -777);
    assert!(!report.exceeded);
    assert_eq!(clock.base_tsc, 3_000_000_000);
    assert_eq!(clock.base_ns, 3_000_000_777);
    assert_eq!(clock.base_ns_err, 0);
    assert_eq!(clock.ns_per_tsc, factor_before);
    assert_eq!(clock.next_calibrate_tsc, 4_000_000_000);
}

#[test]
fn test_feedback_zero_drift_keeps_factor() {
    let mut clock = SimpleHighPrecisionClock::new_fallback(
        100_000_000,
        1_000_000_000,
        CalibrationPolicy::ErrorFeedback,
        0,
    )
    .unwrap();
    // The fresh sample agrees exactly with the fast path: zero drift.
    let fresh = CalibrationSample { count: 2_000_000_000, wall_ns: 2_000_000_000 };
    let report = clock.calibrate(2_000_000_000, fresh).unwrap();
    assert_eq!(report.observed_drift_ns, 0);
    assert!(!report.exceeded);
    assert_eq!(clock.ns_per_tsc, FACTOR_ONE);
    assert_eq!(clock.base_ns_err, 0);
}

#[test]
fn test_feedback_nonzero_drift_changes_factor() {
    let mut clock = SimpleHighPrecisionClock::new_fallback(
        100_000_000,
        1_000_000_000,
        CalibrationPolicy::ErrorFeedback,
        0,
    )
    .unwrap();
    // The counter ran five milliseconds behind the wall clock.
    let fresh = CalibrationSample { count: 1_000_000_000, wall_ns: 1_005_000_000 };
    let report = clock.calibrate(1_000_000_000, fresh).unwrap();
    assert_eq!(report.observed_drift_ns, -5_000_000);
    assert!(!report.exceeded);
    assert!(clock.ns_per_tsc > FACTOR_ONE, "a slow clock must speed up");
    // The origin moved continuously: the estimate at the calibration count
    // is the pre-calibration estimate, and the error is remembered instead.
    assert_eq!(clock.base_ns, 1_000_000_000);
    assert_eq!(clock.base_ns_err, -5_000_000);
}

#[test]
fn test_feedback_fast_clock_slows_down() {
    let mut clock = SimpleHighPrecisionClock::new_fallback(
        100_000_000,
        1_000_000_000,
        CalibrationPolicy::ErrorFeedback,
        0,
    )
    .unwrap();
    // The counter ran two hundred milliseconds ahead of the wall clock.
    let fresh = CalibrationSample { count: 1_200_000_000, wall_ns: 1_000_000_000 };
    let report = clock.calibrate(1_200_000_000, fresh).unwrap();
    assert_eq!(report.observed_drift_ns, 200_000_000);
    assert!(report.exceeded);
    assert!(clock.ns_per_tsc < FACTOR_ONE, "a fast clock must slow down");
}

#[test]
fn test_fallback_tracks_source_one_to_one() {
    let clock = SimpleHighPrecisionClock::new_fallback(
        100_000_000,
        1_000_000_000,
        CalibrationPolicy::ErrorFeedback,
        500,
    )
    .unwrap();
    assert_eq!(clock.ns_per_tsc, FACTOR_ONE);
    assert_eq!(clock.now(500), 500);
    assert_eq!(clock.now(1_500), 1_500);
    assert_eq!(clock.now(987_654_321), 987_654_321);
    // Before the starting instant the clock holds at its baseline.
    assert_eq!(clock.now(400), 500);
}

#[test]
fn test_fallback_rejects_unusable_interval() {
    assert!(SimpleHighPrecisionClock::new_fallback(
        100_000_000,
        0,
        CalibrationPolicy::ErrorFeedback,
        0
    )
    .is_none());
    assert!(SimpleHighPrecisionClock::new_fallback(
        100_000_000,
        (i64::MAX as u64) + 1,
        CalibrationPolicy::ErrorFeedback,
        0
    )
    .is_none());
}
