//! The one error channel of the crate.

use vstd::prelude::*;

verus! {

/// Why an operation on the vibrance hardware did not succeed.
#[derive(Clone, Copy, Debug, PartialEq, Eq, Structural)]
pub enum VibranceError {
    /// The vendor runtime is missing or could not be initialized.
    DriverUnavailable,
    /// The vendor runtime lists no physical GPU.
    NoGpuFound,
    /// A vendor entry point could not be resolved.
    HardwareApiUnavailable,
    /// A vendor call returned a status other than success.
    HardwareCallFailed { status: i32 },
    /// A level above 100 percent, or a display name that cannot be handed
    /// to the vendor interface.
    InvalidInput,
}

} // verus!
