use vstd::prelude::*;

verus! {

/// The ways a call into this library can fail.
///
/// Every failure is reported as an explicit value; the library's verified
/// functions never panic.
#[derive(Debug, Clone, Copy, PartialEq, Eq, Hash, Structural)]
pub enum LedError {
    /// Exclusivity could not be acquired because a session is already live.
    /// The caller may retry once that session has been released.
    AlreadyOpen,
    /// The foreign initialization call reported failure. The caller may retry.
    InitFailed,
    /// A supplied application name cannot be represented as the
    /// null-terminated string the foreign interface expects.
    InvalidName,
    /// A duration or interval cannot be represented in the foreign call's
    /// integer width, or a finite duration collides with the infinite
    /// sentinel.
    OutOfRange,
}

} // verus!
