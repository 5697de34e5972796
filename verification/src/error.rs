use vstd::prelude::*;

verus! {

/// Errors surfaced by the transport core.
///
/// The taxonomy is fixed: a bit index outside its domain, an
/// operating-system failure carrying its raw error code, a packet shorter
/// than a fixed header requires, a provisional command-status response where
/// a final result was awaited, and exhaustion of the attempt budget.
#[derive(Clone, Copy, Debug, PartialEq, Eq, Structural)]
pub enum HciError {
    /// A filter bit index outside the defined domain; the mask is never
    /// clamped or silently truncated.
    OutOfRange,
    /// A received packet had fewer bytes than its fixed header requires.
    ShortEvent,
    /// An operating-system failure, with the raw error code it reported.
    Os(i32),
    /// A command-status event matched the outstanding opcode before any
    /// command-complete arrived; reported as a hard failure.
    StatusReceived,
    /// No matching command-complete within the attempt budget, or a
    /// readiness wait that elapsed without the socket becoming readable.
    TimedOut,
}

} // verus!
