//! The error type shared by every fallible operation.

use vstd::prelude::*;

verus! {

/// Why an operation failed.
#[derive(Debug, Copy, Clone, PartialEq, Eq, Structural)]
pub enum Error {
    /// The native graphics API reported a failure; the payload is its result code.
    ApiError(i32),
    /// The host operating system reported a failure; the payload is its code.
    WindowsError(i32),
    /// The backend has no realisation of the requested operation.
    Unsupported,
    /// An object named by the request has already been destroyed, or never existed.
    Released,
    /// A count would exceed what the machine can represent.
    Exhausted,
}

} // verus!
