//! The clock state and its fast read path: a baseline pairing of a counter
//! value with a wall-clock instant plus a fixed-point conversion factor,
//! replaced wholesale on every recalibration.

use vstd::prelude::*;

use crate::calibrator::adjust_factor;
use crate::calibrator::adjusted_factor;
use crate::calibrator::baseline_factor;
use crate::calibrator::baseline_ok;
use crate::calibrator::compute_expected_error;
use crate::calibrator::establish_baseline;
use crate::calibrator::expected_error_next;
use crate::fixedpoint::clamp_to_i64;
use crate::fixedpoint::div_trunc;
use crate::fixedpoint::i128_clamp_i64;
use crate::fixedpoint::mul_scale_down;
use crate::fixedpoint::saturate_u64;
use crate::fixedpoint::scaled;
use crate::fixedpoint::u128_saturate_u64;
use crate::fixedpoint::FACTOR_ONE;
use crate::sample::drift_magnitude;
use crate::sample::CalibrationSample;
use crate::sample::DriftReport;

verus! {

/// How a recalibration tick corrects the clock. Both observed classes of
/// drift have a policy: a rate error calls for slope correction, an
/// arbitrary offset for a rebase.
#[derive(Clone, Copy, PartialEq, Eq, Structural, Debug)]
pub enum CalibrationPolicy {
    /// Error-feedback slope correction: the conversion factor is nudged
    /// multiplicatively so that the drift trends toward zero, and the
    /// baseline origin moves continuously.
    ErrorFeedback,
    /// Hard reset: the baseline is replaced with the fresh sample and the
    /// conversion factor is kept, bounding drift at each reset boundary.
    HardReset,
}

/// Counter counts that one calibration interval spans under the given
/// conversion factor.
pub open spec fn counts_per_interval(interval: int, factor: int) -> int
    recommends
        factor >= 1,
{
    (interval * (FACTOR_ONE as int)) / factor
}

/// Computes the counter counts one calibration interval spans.
fn counts_for_interval(interval: u64, factor: u64) -> (r: u128)
    requires
        factor >= 1,
    ensures
        r == counts_per_interval(interval as int, factor as int),
        r <= 0xFFFF_FFFF_FFFF_FFFF_0000_0000u128,
{
    proof {
        vstd::arithmetic::mul::lemma_mul_upper_bound(
            interval as int,
            u64::MAX as int,
            FACTOR_ONE as int,
            FACTOR_ONE as int,
        );
        vstd::arithmetic::mul::lemma_mul_nonnegative(interval as int, FACTOR_ONE as int);
        vstd::arithmetic::div_mod::lemma_div_is_ordered_by_denominator(
            interval as int * FACTOR_ONE as int,
            1,
            factor as int,
        );
        vstd::arithmetic::div_mod::lemma_div_basics(interval as int * FACTOR_ONE as int);
        vstd::arithmetic::div_mod::lemma_div_is_ordered(
            interval as int * FACTOR_ONE as int,
            u64::MAX as int * FACTOR_ONE as int,
            factor as int,
        );
        vstd::arithmetic::div_mod::lemma_div_is_ordered_by_denominator(
            u64::MAX as int * FACTOR_ONE as int,
            1,
            factor as int,
        );
        vstd::arithmetic::div_mod::lemma_div_basics(u64::MAX as int * FACTOR_ONE as int);
    }
    (interval as u128 * (FACTOR_ONE as u128)) / (factor as u128)
}

/// The counter value of the next calibration boundary: one interval's worth
/// of counts past the given counter value, saturated at the counter's range.
fn next_calibration_count(count: u64, interval: u64, factor: u64) -> (r: u64)
    requires
        factor >= 1,
    ensures
        r == saturate_u64(count + counts_per_interval(interval as int, factor as int)),
{
    let spanned: u128 = counts_for_interval(interval, factor);
    u128_saturate_u64(count as u128 + spanned)
}

/// A high-precision clock: converts a monotonically increasing cycle
/// counter to wall-clock nanoseconds through a calibrated fixed-point
/// factor, and corrects the mapping on periodic recalibration ticks.
///
/// The baseline pair `(base_tsc, base_ns)` is always taken from the same
/// synchronization pass and is replaced wholesale on recalibration, never
/// mixed across passes.
#[derive(Clone, Copy, PartialEq, Eq, Structural, Debug)]
pub struct SimpleHighPrecisionClock {
    /// Counter value of the current baseline.
    pub base_tsc: u64,
    /// Wall-clock nanoseconds the baseline counter value stands for.
    pub base_ns: u64,
    /// Fixed-point nanoseconds per count (scaled by `FACTOR_ONE`);
    /// always strictly positive.
    pub ns_per_tsc: u64,
    /// Configured wall-clock nanoseconds between recalibration ticks.
    pub calibration_interval_ns: u64,
    /// Drift magnitude at which a recalibration's report turns from a
    /// routine observation into a warning.
    pub warning_threshold_ns: i64,
    /// The correction a recalibration tick applies.
    pub policy: CalibrationPolicy,
    /// The drift observed at the previous recalibration, feeding the
    /// error-feedback extrapolation.
    pub base_ns_err: i64,
    /// Counter value at which the next recalibration is due.
    pub next_calibrate_tsc: u64,
}

impl SimpleHighPrecisionClock {
    /// Well-formedness: the conversion factor is strictly positive and the
    /// calibration interval is a usable duration.
    pub open spec fn wf(self) -> bool {
        &&& 1 <= self.ns_per_tsc
        &&& 1 <= self.calibration_interval_ns <= i64::MAX
    }

    /// The nanosecond value the baseline maps a counter value to: the
    /// baseline nanoseconds plus the scaled counter delta. A counter value
    /// at or before the baseline maps to the baseline nanoseconds.
    pub open spec fn ns_at(self, count: int) -> int {
        if count <= self.base_tsc {
            self.base_ns as int
        } else {
            self.base_ns + scaled(count - self.base_tsc, self.ns_per_tsc as int)
        }
    }

    /// What a fast-path read returns at a counter value: the mapped
    /// nanoseconds, saturated at the range of the result.
    pub open spec fn spec_now(self, count: int) -> int {
        saturate_u64(self.ns_at(count))
    }

    /// The initial clock state a construction from two paired readings
    /// yields.
    pub open spec fn initial_state(
        warning_threshold_ns: i64,
        calibration_interval_ns: u64,
        policy: CalibrationPolicy,
        first: CalibrationSample,
        second: CalibrationSample,
    ) -> Self
        recommends
            baseline_ok(first, second),
    {
        let factor = baseline_factor(first, second);
        SimpleHighPrecisionClock {
            base_tsc: first.count,
            base_ns: first.wall_ns,
            ns_per_tsc: factor as u64,
            calibration_interval_ns,
            warning_threshold_ns,
            policy,
            base_ns_err: 0,
            next_calibrate_tsc: saturate_u64(
                first.count + counts_per_interval(calibration_interval_ns as int, factor),
            ) as u64,
        }
    }

    /// Initializes the clock from an initial calibration pass: two paired
    /// counter/wall-clock readings taken a short sleep apart. The first
    /// pair becomes the baseline; the deltas determine the conversion
    /// factor. Returns a clock exactly when the interval is a usable
    /// duration and the pair determines a usable factor: an initial
    /// calibration that cannot be read is fatal, no clock is constructed.
    pub fn new(
        warning_threshold_ns: i64,
        calibration_interval_ns: u64,
        policy: CalibrationPolicy,
        first: CalibrationSample,
        second: CalibrationSample,
    ) -> (r: Option<Self>)
        ensures
            r is Some <==> (1 <= calibration_interval_ns <= i64::MAX && baseline_ok(
                first,
                second,
            )),
            r is Some ==> r == Some(
                Self::initial_state(
                    warning_threshold_ns,
                    calibration_interval_ns,
                    policy,
                    first,
                    second,
                ),
            ),
            r matches Some(c) ==> c.wf(),
    {
        if calibration_interval_ns == 0 || calibration_interval_ns > i64::MAX as u64 {
            return None;
        }
        let factor: u64 = match establish_baseline(first, second) {
            Some(f) => f,
            None => {
                return None;
            },
        };
        let next = next_calibration_count(first.count, calibration_interval_ns, factor);
        Some(
            SimpleHighPrecisionClock {
                base_tsc: first.count,
                base_ns: first.wall_ns,
                ns_per_tsc: factor,
                calibration_interval_ns,
                warning_threshold_ns,
                policy,
                base_ns_err: 0,
                next_calibrate_tsc: next,
            },
        )
    }

    /// Initializes the clock in fallback-timer mode, for platforms without
    /// a trustworthy hardware counter: counts already are nanoseconds, so
    /// the conversion factor is fixed at one and needs no calibration pass.
    /// Returns a clock exactly when the interval is a usable duration.
    pub fn new_fallback(
        warning_threshold_ns: i64,
        calibration_interval_ns: u64,
        policy: CalibrationPolicy,
        start_ns: u64,
    ) -> (r: Option<Self>)
        ensures
            r is Some <==> 1 <= calibration_interval_ns <= i64::MAX,
            r matches Some(c) ==> {
                &&& c.wf()
                &&& c.base_tsc == start_ns
                &&& c.base_ns == start_ns
                &&& c.ns_per_tsc == FACTOR_ONE
                &&& c.calibration_interval_ns == calibration_interval_ns
                &&& c.warning_threshold_ns == warning_threshold_ns
                &&& c.policy == policy
                &&& c.base_ns_err == 0
                &&& c.next_calibrate_tsc == saturate_u64(
                    start_ns + counts_per_interval(calibration_interval_ns as int, FACTOR_ONE as int),
                )
            },
    {
        if calibration_interval_ns == 0 || calibration_interval_ns > i64::MAX as u64 {
            return None;
        }
        let next = next_calibration_count(start_ns, calibration_interval_ns, FACTOR_ONE);
        Some(
            SimpleHighPrecisionClock {
                base_tsc: start_ns,
                base_ns: start_ns,
                ns_per_tsc: FACTOR_ONE,
                calibration_interval_ns,
                warning_threshold_ns,
                policy,
                base_ns_err: 0,
                next_calibrate_tsc: next,
            },
        )
    }

    /// Converts a counter value to nanoseconds through the baseline.
    fn tsc_to_ns(&self, tsc: u64) -> (r: u64)
        ensures
            r == self.spec_now(tsc as int),
    {
        if tsc <= self.base_tsc {
            self.base_ns
        } else {
            let extra: u128 = mul_scale_down(tsc - self.base_tsc, self.ns_per_tsc);
            if extra >= u64::MAX as u128 {
                u64::MAX
            } else {
                u128_saturate_u64(self.base_ns as u128 + extra)
            }
        }
    }

    /// The fast read path: the nanoseconds the current baseline maps the
    /// given counter reading to. Never fails and never blocks; the result
    /// saturates rather than wrapping if the mapping leaves the nanosecond
    /// range.
    pub fn now(&self, current_count: u64) -> (r: u64)
        ensures
            r == self.spec_now(current_count as int),
    {
        self.tsc_to_ns(current_count)
    }

    /// The drift one fresh sample shows: the fast-path estimate at the
    /// sample's counter value minus its true wall-clock nanoseconds,
    /// positive when the fast path runs ahead.
    pub open spec fn observed_drift(self, fresh: CalibrationSample) -> int {
        clamp_to_i64(self.spec_now(fresh.count as int) - fresh.wall_ns)
    }

    /// The report a recalibration at the fresh sample files.
    pub open spec fn drift_report(self, fresh: CalibrationSample) -> DriftReport {
        DriftReport {
            observed_drift_ns: self.observed_drift(fresh) as i64,
            threshold_ns: self.warning_threshold_ns,
            exceeded: drift_magnitude(self.observed_drift(fresh) as i64)
                >= self.warning_threshold_ns,
        }
    }

    /// The drift expected at the next calibration boundary, extrapolated
    /// from the fresh sample's drift and the previous baseline's drift.
    pub open spec fn feedback_expected(self, fresh: CalibrationSample) -> int {
        clamp_to_i64(
            expected_error_next(
                self.observed_drift(fresh),
                self.base_ns_err as int,
                self.calibration_interval_ns as int,
                fresh.wall_ns - self.base_ns + self.base_ns_err,
            ),
        )
    }

    /// The slope correction an error-feedback tick subtracts from the
    /// conversion factor (before clamping the factor into its range).
    pub open spec fn feedback_adjustment(self, fresh: CalibrationSample) -> int {
        div_trunc(
            self.ns_per_tsc * self.feedback_expected(fresh),
            self.calibration_interval_ns as int,
        )
    }

    /// The conversion factor after an error-feedback tick.
    pub open spec fn feedback_factor(self, fresh: CalibrationSample) -> int {
        adjusted_factor(
            self.ns_per_tsc as int,
            self.feedback_expected(fresh),
            self.calibration_interval_ns as int,
        )
    }

    /// The state an error-feedback recalibration leaves: the baseline moves
    /// to the fresh sample's counter value but keeps the fast path's own
    /// estimate as its nanoseconds (the origin moves continuously; the
    /// error is remembered instead), and the conversion factor's slope is
    /// corrected by the extrapolated relative drift.
    pub open spec fn feedback_step(self, fresh: CalibrationSample) -> Self {
        SimpleHighPrecisionClock {
            base_tsc: fresh.count,
            base_ns: self.spec_now(fresh.count as int) as u64,
            ns_per_tsc: self.feedback_factor(fresh) as u64,
            base_ns_err: self.observed_drift(fresh) as i64,
            next_calibrate_tsc: saturate_u64(
                fresh.count + counts_per_interval(
                    self.calibration_interval_ns as int,
                    self.feedback_factor(fresh),
                ),
            ) as u64,
            ..self
        }
    }

    /// The state a hard-reset recalibration leaves: the fresh sample
    /// becomes the baseline wholesale, the conversion factor is kept, and
    /// the remembered error is cleared.
    pub open spec fn reset_step(self, fresh: CalibrationSample) -> Self {
        SimpleHighPrecisionClock {
            base_tsc: fresh.count,
            base_ns: fresh.wall_ns,
            base_ns_err: 0,
            next_calibrate_tsc: saturate_u64(
                fresh.count + counts_per_interval(
                    self.calibration_interval_ns as int,
                    self.ns_per_tsc as int,
                ),
            ) as u64,
            ..self
        }
    }

    /// One recalibration tick. Nothing happens before the next calibration
    /// boundary, so calling more often than the calibration interval is
    /// safe and idempotent. At or past the boundary, the configured policy
    /// corrects the clock against the fresh high-confidence sample, and the
    /// observed drift is reported, classified against the warning
    /// threshold.
    pub fn calibrate(&mut self, current_count: u64, fresh: CalibrationSample) -> (r: Option<
        DriftReport,
    >)
        requires
            old(self).wf(),
        ensures
            final(self).wf(),
            current_count < old(self).next_calibrate_tsc ==> (*final(self) == *old(self) && r is None),
            current_count >= old(self).next_calibrate_tsc ==> {
                &&& (old(self).policy is ErrorFeedback ==> *final(self) == old(self).feedback_step(
                    fresh,
                ))
                &&& (old(self).policy is HardReset ==> *final(self) == old(self).reset_step(fresh))
                &&& r == Some(old(self).drift_report(fresh))
            },
    {
        if current_count < self.next_calibrate_tsc {
            return None;
        }
        let predicted: u64 = self.tsc_to_ns(fresh.count);
        let drift: i64 = i128_clamp_i64(predicted as i128 - fresh.wall_ns as i128);
        let report = DriftReport::classify(drift, self.warning_threshold_ns);
        match self.policy {
            CalibrationPolicy::ErrorFeedback => {
                let expected: i64 = compute_expected_error(
                    drift,
                    self.base_ns_err,
                    self.calibration_interval_ns,
                    fresh.wall_ns,
                    self.base_ns,
                );
                let factor: u64 = adjust_factor(
                    self.ns_per_tsc,
                    expected,
                    self.calibration_interval_ns,
                );
                let next: u64 = next_calibration_count(
                    fresh.count,
                    self.calibration_interval_ns,
                    factor,
                );
                self.base_tsc = fresh.count;
                self.base_ns = predicted;
                self.ns_per_tsc = factor;
                self.base_ns_err = drift;
                self.next_calibrate_tsc = next;
            },
            CalibrationPolicy::HardReset => {
                let next: u64 = next_calibration_count(
                    fresh.count,
                    self.calibration_interval_ns,
                    self.ns_per_tsc,
                );
                self.base_tsc = fresh.count;
                self.base_ns = fresh.wall_ns;
                self.base_ns_err = 0;
                self.next_calibrate_tsc = next;
            },
        }
        Some(report)
    }

    /// Monotonicity of the fast path: between recalibrations the baseline
    /// is fixed, and under one baseline a later counter reading never maps
    /// to an earlier time.
    pub proof fn lemma_now_monotonic(self, c1: int, c2: int)
        requires
            c1 <= c2,
        ensures
            self.spec_now(c1) <= self.spec_now(c2),
    {
        let base = self.base_tsc as int;
        let f = self.ns_per_tsc as int;
        if c2 <= base {
        } else if c1 <= base {
            vstd::arithmetic::mul::lemma_mul_nonnegative(c2 - base, f);
            vstd::arithmetic::div_mod::lemma_div_pos_is_pos((c2 - base) * f, FACTOR_ONE as int);
        } else {
            vstd::arithmetic::mul::lemma_mul_inequality(c1 - base, c2 - base, f);
            vstd::arithmetic::div_mod::lemma_div_is_ordered(
                (c1 - base) * f,
                (c2 - base) * f,
                FACTOR_ONE as int,
            );
        }
    }

    /// A hard reset bounds drift by construction: at the reset boundary the
    /// rebased clock agrees exactly with the wall clock of the fresh
    /// sample, so the drift starts again from zero.
    pub proof fn lemma_reset_rebases_exactly(self, fresh: CalibrationSample)
        ensures
            self.reset_step(fresh).spec_now(fresh.count as int) == fresh.wall_ns,
    {
    }

    /// An error-feedback tick moves the baseline origin continuously: the
    /// corrected clock agrees with the old fast path at the fresh sample's
    /// counter value, so a read straddling the recalibration never jumps.
    pub proof fn lemma_feedback_continuous(self, fresh: CalibrationSample)
        ensures
            self.feedback_step(fresh).spec_now(fresh.count as int) == self.spec_now(
                fresh.count as int,
            ),
    {
    }

    /// Calibration convergence, the zero-drift boundary case: when the
    /// fresh sample shows exactly zero drift and the previous baseline
    /// carried none, the error-feedback tick leaves the conversion factor
    /// unchanged — the recalibration is idempotent.
    pub proof fn lemma_feedback_zero_drift_idempotent(self, fresh: CalibrationSample)
        requires
            self.wf(),
            self.base_ns_err == 0,
            self.spec_now(fresh.count as int) == fresh.wall_ns,
        ensures
            self.feedback_step(fresh).ns_per_tsc == self.ns_per_tsc,
            self.feedback_step(fresh).base_ns_err == 0,
    {
        let itv = self.calibration_interval_ns as int;
        let denom = fresh.wall_ns - self.base_ns + self.base_ns_err;
        assert(self.observed_drift(fresh) == 0);
        assert(expected_error_next(0, 0, itv, denom) == 0) by {
            vstd::arithmetic::mul::lemma_mul_by_zero_is_zero(itv);
            if denom > 0 {
                vstd::arithmetic::div_mod::lemma_div_of0(denom);
            }
        }
        assert(self.feedback_expected(fresh) == 0);
        assert(self.feedback_factor(fresh) == self.ns_per_tsc) by {
            vstd::arithmetic::mul::lemma_mul_by_zero_is_zero(self.ns_per_tsc as int);
            vstd::arithmetic::div_mod::lemma_div_of0(itv);
        }
    }

    /// Calibration convergence, the active case: whenever the extrapolated
    /// drift is large enough that the truncated slope correction is
    /// nonzero, and the factor is not pinned at either end of its range,
    /// the error-feedback tick strictly changes the conversion factor.
    pub proof fn lemma_feedback_nonzero_drift_changes_factor(self, fresh: CalibrationSample)
        requires
            self.wf(),
            self.feedback_adjustment(fresh) != 0,
            1 < self.ns_per_tsc < u64::MAX,
        ensures
            self.feedback_step(fresh).ns_per_tsc != self.ns_per_tsc,
    {
        let f = self.ns_per_tsc as int;
        let adj = self.feedback_adjustment(fresh);
        assert(self.feedback_factor(fresh) == crate::fixedpoint::clamp_to_factor(f - adj));
    }

    /// The error-feedback correction pushes the factor the right way: a
    /// nonnegative expected drift (the fast path runs ahead or on time)
    /// never raises the conversion factor, and a nonpositive one never
    /// lowers it.
    pub proof fn lemma_feedback_direction(self, fresh: CalibrationSample)
        requires
            self.wf(),
        ensures
            self.feedback_expected(fresh) >= 0 ==> self.feedback_factor(fresh)
                <= self.ns_per_tsc,
            self.feedback_expected(fresh) <= 0 ==> self.feedback_factor(fresh)
                >= self.ns_per_tsc,
    {
        let f = self.ns_per_tsc as int;
        let e = self.feedback_expected(fresh);
        let itv = self.calibration_interval_ns as int;
        crate::fixedpoint::lemma_div_trunc_bounds(f * e, itv);
        let adj = div_trunc(f * e, itv);
        if e >= 0 {
            vstd::arithmetic::mul::lemma_mul_nonnegative(f, e);
            assert(adj >= 0);
            if e == 0 {
                vstd::arithmetic::mul::lemma_mul_by_zero_is_zero(f);
                assert(adj == 0);
            }
            assert(self.feedback_factor(fresh) == crate::fixedpoint::clamp_to_factor(f - adj));
        } else {
            vstd::arithmetic::mul::lemma_mul_nonnegative(f, -e);
            assert(f * -e == -(f * e)) by {
                vstd::arithmetic::mul::lemma_mul_unary_negation(f, e);
            }
            assert(f * e <= 0);
            assert(adj <= 0);
            assert(self.feedback_factor(fresh) == crate::fixedpoint::clamp_to_factor(f - adj));
        }
    }

    /// Fallback correctness: with the conversion factor fixed at one (the
    /// fallback-timer mode, where counts already are nanoseconds), the fast
    /// path tracks the counter source one to one.
    pub proof fn lemma_fallback_tracks_source(self, c: int)
        requires
            self.ns_per_tsc == FACTOR_ONE,
            self.base_tsc <= c,
            self.base_ns + (c - self.base_tsc) <= u64::MAX,
        ensures
            self.spec_now(c) == self.base_ns + (c - self.base_tsc),
    {
        let base = self.base_tsc as int;
        if c > base {
            assert(scaled(c - base, FACTOR_ONE as int) == c - base) by {
                vstd::arithmetic::div_mod::lemma_div_multiples_vanish(
                    c - base,
                    FACTOR_ONE as int,
                );
                vstd::arithmetic::mul::lemma_mul_is_commutative(c - base, FACTOR_ONE as int);
            }
        }
    }
}

} // verus!
