//! The system wall-clock source the calibrator synchronizes against.

use vstd::prelude::*;

verus! {

/// Relies on `std::time::SystemTime::now` and the duration since
/// `SystemTime::UNIX_EPOCH`: the value depends on the machine's clock at
/// the moment of the call, so nothing can be promised of it, and every
/// caller states what holds whatever value comes back. A system clock set
/// before the epoch cannot be read this way at all; that is a fatal
/// platform condition.
#[verifier::external_body]
fn read_system_time_ns() -> u64 {
    std::time::SystemTime::now().duration_since(std::time::SystemTime::UNIX_EPOCH).expect(
        "Time went backwards",
    ).as_nanos() as u64
}

/// Reads the current system wall clock as nanoseconds since the Unix
/// epoch. The reading is a plain value with no promise attached: the
/// calibrator states what holds of every value it might be handed.
pub fn rdsysns() -> u64 {
    read_system_time_ns()
}

} // verus!
