use high_precision_clock::capability::is_invariant;
use high_precision_clock::capability::CpuCapabilities;
use high_precision_clock::sample::DriftReport;
use high_precision_clock::wallclock::rdsysns;

#[test]
fn test_classify_below_threshold() {
    let report = DriftReport::classify(99, 100);
    assert_eq!(report.observed_drift_ns, 99);
    assert_eq!(report.threshold_ns, 100);
    assert!(!report.exceeded);
}

#[test]
fn test_classify_at_threshold() {
    assert!(DriftReport::classify(100, 100).exceeded);
    assert!(DriftReport::classify(-100, 100).exceeded);
}

#[test]
fn test_classify_negative_drift_by_magnitude() {
    assert!(!DriftReport::classify(-99, 100).exceeded);
    assert!(DriftReport::classify(-101, 100).exceeded);
}

#[test]
fn test_classify_extreme_drift() {
    // The magnitude of the most negative drift still compares correctly.
    assert!(DriftReport::classify(i64::MIN, i64::MAX).exceeded);
    assert!(!DriftReport::classify(0, 1).exceeded);
    // A zero threshold classifies every observation as a warning.
    assert!(DriftReport::classify(0, 0).exceeded);
}

#[test]
fn test_is_invariant_not_applicable_in_fallback_mode() {
    let caps = CpuCapabilities { constant_rate: true, nonstop_in_idle: true };
    assert_eq!(is_invariant(false, Some(caps)), None);
    assert_eq!(is_invariant(false, None), None);
}

#[test]
fn test_is_invariant_needs_both_properties() {
    let both = CpuCapabilities { constant_rate: true, nonstop_in_idle: true };
    let stops = CpuCapabilities { constant_rate: true, nonstop_in_idle: false };
    let varies = CpuCapabilities { constant_rate: false, nonstop_in_idle: true };
    assert_eq!(is_invariant(true, Some(both)), Some(true));
    assert_eq!(is_invariant(true, Some(stops)), Some(false));
    assert_eq!(is_invariant(true, Some(varies)), Some(false));
}

#[test]
fn test_is_invariant_unreadable_metadata_is_conservative() {
    assert_eq!(is_invariant(true, None), Some(false));
}

#[test]
fn test_rdsysns_reads_a_post_epoch_instant() {
    // The system clock of any machine running this sits after the epoch.
    assert!(rdsysns() > 0);
}
