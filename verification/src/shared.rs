//! Shared access to the clock state: many concurrent fast-path readers and
//! one periodic corrector, behind a verified reader-writer lock.
//!
//! The baseline is one owned struct behind the lock; a recalibration
//! replaces it wholesale, never field by field, so a reader observes
//! either the old or the new complete baseline and never a torn mix.

use vstd::prelude::*;
use vstd::rwlock::RwLock;
use vstd::rwlock::RwLockPredicate;

use crate::clock::SimpleHighPrecisionClock;
use crate::sample::CalibrationSample;
use crate::sample::DriftReport;

verus! {

/// The invariant the lock maintains: only well-formed clock states are
/// ever stored, so every reader observes a well-formed state.
pub struct ClockStateInv;

impl RwLockPredicate<SimpleHighPrecisionClock> for ClockStateInv {
    open spec fn inv(self, v: SimpleHighPrecisionClock) -> bool {
        v.wf()
    }
}

/// A clock handle shared between concurrent readers and the periodic
/// corrector. The fast path takes a shared lock and never blocks other
/// readers; the corrector computes outside the lock and takes the
/// exclusive lock only for the instant of installing the corrected state.
pub struct SharedClock {
    lock: RwLock<SimpleHighPrecisionClock, ClockStateInv>,
}

impl SharedClock {
    /// Publishes a freshly calibrated clock state for shared use.
    pub fn new(clock: SimpleHighPrecisionClock) -> (r: Self)
        requires
            clock.wf(),
    {
        SharedClock { lock: RwLock::new(clock, Ghost(ClockStateInv)) }
    }

    /// The fast read path: converts the given counter reading through the
    /// currently published baseline. The result is computed from exactly
    /// one complete, well-formed baseline — concurrent recalibration can
    /// never make a read mix two baselines.
    pub fn now(&self, current_count: u64) -> (r: u64)
        ensures
            exists|s: SimpleHighPrecisionClock|
                s.wf() && r == s.spec_now(current_count as int),
    {
        let read_handle = self.lock.acquire_read();
        let state: &SimpleHighPrecisionClock = read_handle.borrow();
        let r = state.now(current_count);
        read_handle.release_read();
        r
    }

    /// One recalibration tick against a fresh high-confidence sample. The
    /// correction is computed on a private copy outside the lock; the
    /// exclusive lock is taken only to install the corrected state, and
    /// only when the tick was due at all. Safe to call more often than the
    /// calibration interval: before the boundary nothing is installed.
    pub fn calibrate(&self, current_count: u64, fresh: CalibrationSample) -> (r: Option<
        DriftReport,
    >)
        ensures
            r matches Some(rep) ==> exists|pre: SimpleHighPrecisionClock|
                pre.wf() && current_count >= pre.next_calibrate_tsc && rep == pre.drift_report(
                    fresh,
                ),
            r is None ==> exists|pre: SimpleHighPrecisionClock|
                pre.wf() && current_count < pre.next_calibrate_tsc,
    {
        let read_handle = self.lock.acquire_read();
        let mut state: SimpleHighPrecisionClock = *read_handle.borrow();
        read_handle.release_read();
        let report = state.calibrate(current_count, fresh);
        if report.is_some() {
            let (_displaced, write_handle) = self.lock.acquire_write();
            write_handle.release_write(state);
        }
        report
    }
}

} // verus!
