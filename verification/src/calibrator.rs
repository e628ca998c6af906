//! Calibration passes: establishing the baseline conversion factor from two
//! paired readings, picking the least-jittered synchronization sample from a
//! batch of raw readings, and the error-feedback arithmetic that corrects
//! the conversion factor's slope.

use vstd::prelude::*;

use crate::fixedpoint::clamp_to_factor;
use crate::fixedpoint::clamp_to_i64;
use crate::fixedpoint::div_trunc;
use crate::fixedpoint::i128_clamp_factor;
use crate::fixedpoint::i128_clamp_i64;
use crate::fixedpoint::i128_div_trunc;
use crate::fixedpoint::lemma_div_trunc_bounds;
use crate::fixedpoint::FACTOR_ONE;
use crate::sample::CalibrationSample;
use crate::sample::SyncReading;

verus! {

/// The fixed-point conversion factor two paired readings determine:
/// elapsed wall-clock nanoseconds, scaled up by the fixed-point unit,
/// per elapsed count.
pub open spec fn baseline_factor(first: CalibrationSample, second: CalibrationSample) -> int
    recommends
        first.count < second.count,
{
    ((second.wall_ns - first.wall_ns) * (FACTOR_ONE as int)) / (second.count - first.count)
}

/// Two paired readings yield a usable baseline exactly when the counter
/// advanced between them and the factor they determine is a positive
/// value that fits the fixed-point representation.
pub open spec fn baseline_ok(first: CalibrationSample, second: CalibrationSample) -> bool {
    &&& first.count < second.count
    &&& 1 <= baseline_factor(first, second) <= u64::MAX
}

/// Initial calibration: computes the conversion factor from two paired
/// counter/wall-clock readings taken a short sleep apart. Returns the
/// factor exactly when the pair determines a usable one, and nothing
/// when the counter did not advance, the wall clock did not advance far
/// enough for a positive factor, or the factor would not fit.
pub fn establish_baseline(first: CalibrationSample, second: CalibrationSample) -> (r: Option<
    u64,
>)
    ensures
        r is Some <==> baseline_ok(first, second),
        baseline_ok(first, second) ==> r == Some(baseline_factor(first, second) as u64),
{
    if second.count <= first.count {
        return None;
    }
    let dc: u128 = (second.count - first.count) as u128;
    if second.wall_ns <= first.wall_ns {
        proof {
            let num = (second.wall_ns - first.wall_ns) * (FACTOR_ONE as int);
            vstd::arithmetic::mul::lemma_mul_inequality(
                second.wall_ns - first.wall_ns,
                0,
                FACTOR_ONE as int,
            );
            vstd::arithmetic::div_mod::lemma_div_is_ordered(num, 0, dc as int);
            vstd::arithmetic::div_mod::lemma_div_of0(dc as int);
        }
        return None;
    }
    let dw: u128 = (second.wall_ns - first.wall_ns) as u128;
    proof {
        vstd::arithmetic::mul::lemma_mul_upper_bound(
            dw as int,
            u64::MAX as int,
            FACTOR_ONE as int,
            FACTOR_ONE as int,
        );
        vstd::arithmetic::mul::lemma_mul_nonnegative(dw as int, FACTOR_ONE as int);
    }
    let q: u128 = (dw * (FACTOR_ONE as u128)) / dc;
    if q == 0 {
        None
    } else if q > u64::MAX as u128 {
        None
    } else {
        Some(q as u64)
    }
}

/// The reading a left-to-right scan of the first `n` readings keeps: a
/// later reading replaces the current best only when its counter span is
/// strictly smaller, so the first reading with the minimal span wins.
pub open spec fn best_reading_upto(s: Seq<SyncReading>, n: int) -> SyncReading
    recommends
        1 <= n <= s.len(),
    decreases n,
{
    if n <= 1 {
        s[0]
    } else if s[n - 1].spec_span() < best_reading_upto(s, n - 1).spec_span() {
        s[n - 1]
    } else {
        best_reading_upto(s, n - 1)
    }
}

/// The reading the whole batch keeps.
pub open spec fn best_reading(s: Seq<SyncReading>) -> SyncReading
    recommends
        s.len() > 0,
{
    best_reading_upto(s, s.len() as int)
}

/// The kept reading is one of the first `n` readings and its counter span
/// is minimal among them.
pub proof fn lemma_best_reading_minimal(s: Seq<SyncReading>, n: int)
    requires
        1 <= n <= s.len(),
    ensures
        exists|i: int| 0 <= i < n && best_reading_upto(s, n) == s[i],
        forall|j: int| 0 <= j < n ==> best_reading_upto(s, n).spec_span() <= s[j].spec_span(),
    decreases n,
{
    if n <= 1 {
        assert(best_reading_upto(s, n) == s[0]);
    } else {
        lemma_best_reading_minimal(s, n - 1);
        if s[n - 1].spec_span() < best_reading_upto(s, n - 1).spec_span() {
            assert(best_reading_upto(s, n) == s[n - 1]);
        } else {
            let i = choose|i: int| 0 <= i < n - 1 && best_reading_upto(s, n - 1) == s[i];
            assert(best_reading_upto(s, n) == s[i]);
        }
    }
}

/// High-confidence resynchronization: from a batch of raw synchronization
/// attempts, keeps the first one with the smallest counter span (the
/// least-jittered wall-clock read) and collapses it to a calibration
/// sample: its counter midpoint paired with its wall-clock value.
/// Returns nothing only for an empty batch.
pub fn sync_time(readings: &Vec<SyncReading>) -> (r: Option<CalibrationSample>)
    requires
        forall|i: int| 0 <= i < readings@.len() ==> readings@[i].ordered(),
    ensures
        r is Some <==> readings@.len() > 0,
        readings@.len() > 0 ==> r == Some(best_reading(readings@).spec_sample()),
        readings@.len() > 0 ==> forall|j: int|
            0 <= j < readings@.len() ==> best_reading(readings@).spec_span()
                <= readings@[j].spec_span(),
{
    if readings.len() == 0 {
        return None;
    }
    let mut best: SyncReading = readings[0];
    let mut best_span: u64 = best.span();
    let mut i: usize = 1;
    while i < readings.len()
        invariant
            1 <= i <= readings@.len(),
            forall|k: int| 0 <= k < readings@.len() ==> readings@[k].ordered(),
            best == best_reading_upto(readings@, i as int),
            best.ordered(),
            best_span == best.spec_span(),
        decreases readings@.len() - i,
    {
        let cur: SyncReading = readings[i];
        let cur_span: u64 = cur.span();
        if cur_span < best_span {
            best = cur;
            best_span = cur_span;
        }
        i = i + 1;
    }
    proof {
        lemma_best_reading_minimal(readings@, readings@.len() as int);
    }
    Some(best.sample())
}

/// The drift expected at the next calibration boundary: the observed error
/// plus its trend, linearly extrapolated over one calibration interval from
/// the change in error since the previous baseline. When the elapsed
/// denominator is zero or negative (the wall clock did not move forward
/// past the previous baseline), extrapolation is skipped and the observed
/// error stands as is.
pub open spec fn expected_error_next(ns_err: int, prev_err: int, interval: int, denom: int) -> int
    recommends
        interval >= 1,
{
    if denom <= 0 {
        ns_err
    } else {
        ns_err + div_trunc((ns_err - prev_err) * interval, denom)
    }
}

/// Computes the expected drift at the next calibration boundary from the
/// observed error, the previous baseline's error, and the elapsed
/// wall-clock time, clamped into the `i64` range.
pub fn compute_expected_error(
    ns_err: i64,
    prev_err: i64,
    interval: u64,
    wall_ns: u64,
    base_wall_ns: u64,
) -> (r: i64)
    requires
        1 <= interval <= i64::MAX,
    ensures
        r as int == clamp_to_i64(
            expected_error_next(
                ns_err as int,
                prev_err as int,
                interval as int,
                wall_ns - base_wall_ns + prev_err,
            ),
        ),
{
    let denom: i128 = wall_ns as i128 - base_wall_ns as i128 + prev_err as i128;
    if denom <= 0 {
        return ns_err;
    }
    let diff: i128 = ns_err as i128 - prev_err as i128;
    proof {
        assert(-0x7FFF_FFFF_FFFF_FFFF_0000_0000_0000_0000 < (diff as int) * (interval as int)
            < 0x7FFF_FFFF_FFFF_FFFF_0000_0000_0000_0000) by (nonlinear_arith)
            requires
                -0x1_0000_0000_0000_0000 < (diff as int) < 0x1_0000_0000_0000_0000,
                1 <= (interval as int) <= 0x7FFF_FFFF_FFFF_FFFF,
        ;
    }
    let num: i128 = diff * (interval as i128);
    let q: i128 = i128_div_trunc(num, denom);
    proof {
        lemma_div_trunc_bounds(num as int, denom as int);
    }
    let e: i128 = ns_err as i128 + q;
    i128_clamp_i64(e)
}

/// The conversion factor after one error-feedback correction: the factor
/// shrinks by its own magnitude times the expected relative drift over one
/// calibration interval, clamped so that it stays a positive value that
/// fits the fixed-point representation.
pub open spec fn adjusted_factor(factor: int, expected: int, interval: int) -> int
    recommends
        interval >= 1,
{
    clamp_to_factor(factor - div_trunc(factor * expected, interval))
}

/// Applies one error-feedback correction to the conversion factor.
pub fn adjust_factor(factor: u64, expected: i64, interval: u64) -> (r: u64)
    requires
        factor >= 1,
        1 <= interval <= i64::MAX,
    ensures
        r as int == adjusted_factor(factor as int, expected as int, interval as int),
        r >= 1,
{
    proof {
        assert(-0x8000_0000_0000_0000_0000_0000_0000_0000 < (factor as int) * (expected as int)
            < 0x8000_0000_0000_0000_0000_0000_0000_0000) by (nonlinear_arith)
            requires
                0 <= (factor as int) <= 0xFFFF_FFFF_FFFF_FFFF,
                -0x8000_0000_0000_0000 <= (expected as int) <= 0x7FFF_FFFF_FFFF_FFFF,
        ;
    }
    let prod: i128 = (factor as i128) * (expected as i128);
    let adj: i128 = i128_div_trunc(prod, interval as i128);
    proof {
        lemma_div_trunc_bounds(prod as int, interval as int);
    }
    if adj <= -(u64::MAX as i128) {
        u64::MAX
    } else {
        i128_clamp_factor(factor as i128 - adj)
    }
}

} // verus!
