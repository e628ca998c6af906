//! The capability check: decides from the platform's capability metadata
//! whether the hardware cycle counter is safe to use as a stable,
//! frequency-invariant clock. A negative answer is a warning signal, never
//! a fatal condition: the clock degrades gracefully.

use vstd::prelude::*;

verus! {

/// What the platform reports about its cycle counter. The embedding
/// program reads this from the processor's capability metadata; the check
/// itself only inspects the two properties a trustworthy counter needs.
#[derive(Clone, Copy, PartialEq, Eq, Structural, Debug)]
pub struct CpuCapabilities {
    /// The counter runs at a constant rate regardless of the processor's
    /// power or frequency state.
    pub constant_rate: bool,
    /// The counter does not stop while the processor sits in a low-power
    /// idle state.
    pub nonstop_in_idle: bool,
}

impl CpuCapabilities {
    /// Both required properties hold.
    pub open spec fn trustworthy(self) -> bool {
        self.constant_rate && self.nonstop_in_idle
    }
}

/// Whether the cycle counter may be trusted as a frequency-invariant
/// clock. Not applicable in fallback-timer mode, where no hardware counter
/// is in use: then the answer is nothing. With a hardware counter, the
/// answer is affirmative exactly when the platform metadata could be read
/// and shows both required properties; metadata that could not be read is
/// conservatively treated as a counter that cannot be trusted.
pub fn is_invariant(hardware_counter: bool, capabilities: Option<CpuCapabilities>) -> (r: Option<
    bool,
>)
    ensures
        r is Some <==> hardware_counter,
        hardware_counter ==> r == Some(
            capabilities is Some && capabilities->Some_0.trustworthy(),
        ),
{
    if !hardware_counter {
        return None;
    }
    match capabilities {
        Some(c) => Some(c.constant_rate && c.nonstop_in_idle),
        None => Some(false),
    }
}

} // verus!
