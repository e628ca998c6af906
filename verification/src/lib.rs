//! A high-resolution, low-overhead time source for long-running processes.
//!
//! The clock reads a monotonically increasing hardware cycle counter,
//! converts counts to nanoseconds through a calibrated fixed-point factor,
//! and periodically re-synchronizes against the system wall clock to keep
//! the fast-path estimate close to true wall-clock time.
//!
//! The calibration and drift-correction engine lives here, fully verified:
//! the fixed-point conversion, the selection of the least-jittered
//! synchronization sample, the error-feedback slope correction, the
//! hard-reset rebase, and the reader/writer sharing of the clock state.
//! Reading the counter and the wall clock, and sleeping between
//! calibration passes, are left to the embedding program.

pub mod calibrator;
pub mod capability;
pub mod clock;
pub mod fixedpoint;
pub mod sample;
pub mod shared;
pub mod wallclock;
