//! Plain value types exchanged between the clock engine and its callers:
//! paired counter/wall-clock readings and drift reports.

use vstd::prelude::*;

verus! {

/// A single paired reading of the cycle counter and the system wall clock,
/// produced by one synchronization pass and consumed within it.
#[derive(Clone, Copy, PartialEq, Eq, Structural, Debug)]
pub struct CalibrationSample {
    /// Cycle-counter value at the instant of the reading.
    pub count: u64,
    /// Wall-clock nanoseconds since the epoch at the same instant.
    pub wall_ns: u64,
}

/// One raw synchronization attempt: the counter read before and after a
/// wall-clock read. The smaller the counter span, the less jitter the
/// wall-clock value carries.
#[derive(Clone, Copy, PartialEq, Eq, Structural, Debug)]
pub struct SyncReading {
    /// Counter value just before the wall clock was read.
    pub count_before: u64,
    /// Wall-clock nanoseconds since the epoch.
    pub wall_ns: u64,
    /// Counter value just after the wall clock was read.
    pub count_after: u64,
}

impl SyncReading {
    /// The counter span of the reading; smaller means less jitter.
    pub open spec fn spec_span(self) -> int {
        self.count_after - self.count_before
    }

    /// A reading is ordered: the counter did not go backwards across the
    /// wall-clock read.
    pub open spec fn ordered(self) -> bool {
        self.count_before <= self.count_after
    }

    /// Counter span between the two reads of an ordered reading.
    pub fn span(&self) -> (r: u64)
        requires
            self.ordered(),
        ensures
            r == self.spec_span(),
    {
        self.count_after - self.count_before
    }

    /// Midpoint of the two counter reads, the best single counter value to
    /// pair with the wall-clock value read between them.
    pub open spec fn spec_midpoint(self) -> int {
        (self.count_before + self.count_after) / 2
    }

    /// The calibration sample this reading stands for: the counter midpoint
    /// paired with the wall-clock value.
    pub open spec fn spec_sample(self) -> CalibrationSample {
        CalibrationSample { count: ((self.count_before + self.count_after) / 2) as u64, wall_ns: self.wall_ns }
    }

    /// Collapses the reading into a calibration sample.
    pub fn sample(&self) -> (r: CalibrationSample)
        requires
            self.ordered(),
        ensures
            r == self.spec_sample(),
            r.count == self.spec_midpoint(),
            r.wall_ns == self.wall_ns,
    {
        let mid: u64 = self.count_before + (self.count_after - self.count_before) / 2;
        proof {
            assert(self.count_before + (self.count_after - self.count_before) / 2
                == (self.count_before + self.count_after) / 2) by {
                let b = self.count_before as int;
                let a = self.count_after as int;
                assert(b + (a - b) / 2 == (2 * b + (a - b)) / 2) by {
                    vstd::arithmetic::div_mod::lemma_hoist_over_denominator(a - b, b, 2);
                };
                assert(2 * b + (a - b) == a + b);
            };
        }
        CalibrationSample { count: mid, wall_ns: self.wall_ns }
    }
}

/// The outcome of one drift measurement at a recalibration boundary:
/// the observed divergence between the fast-path estimate and the true
/// wall clock, classified against the configured warning threshold.
#[derive(Clone, Copy, PartialEq, Eq, Structural, Debug)]
pub struct DriftReport {
    /// Fast-path estimate minus true wall-clock nanoseconds at the moment of
    /// measurement; positive when the fast path runs ahead.
    pub observed_drift_ns: i64,
    /// The warning threshold the observation was classified against.
    pub threshold_ns: i64,
    /// Whether the drift magnitude reached the threshold; such a report is
    /// meant for warning-level handling, others for routine tracing.
    pub exceeded: bool,
}

/// Magnitude of a drift value, as a mathematical integer so that
/// `i64::MIN` needs no special case.
pub open spec fn drift_magnitude(drift_ns: i64) -> int {
    if drift_ns >= 0 {
        drift_ns as int
    } else {
        -(drift_ns as int)
    }
}

impl DriftReport {
    /// A well-formed report classifies its observation correctly.
    pub open spec fn wf(self) -> bool {
        self.exceeded == (drift_magnitude(self.observed_drift_ns) >= self.threshold_ns)
    }

    /// Classifies an observed drift against a warning threshold: the report
    /// is marked exceeded exactly when the drift magnitude is at or above
    /// the threshold.
    pub fn classify(observed_drift_ns: i64, threshold_ns: i64) -> (r: DriftReport)
        ensures
            r.observed_drift_ns == observed_drift_ns,
            r.threshold_ns == threshold_ns,
            r.wf(),
    {
        let exceeded: bool = if observed_drift_ns >= 0 {
            observed_drift_ns >= threshold_ns
        } else {
            // Compare in i128: negating i64::MIN does not fit in i64.
            -(observed_drift_ns as i128) >= threshold_ns as i128
        };
        DriftReport { observed_drift_ns, threshold_ns, exceeded }
    }
}

} // verus!
