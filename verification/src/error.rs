//! Error codes returned by the driver's capability entry points.

use vstd::prelude::*;

verus! {

/// Result codes for expected failure conditions. All errors are reported
/// synchronously to the immediate caller; the driver never panics on an
/// expected failure.
#[derive(Clone, Copy, PartialEq, Eq, Structural, Debug)]
pub enum ErrorCode {
    /// A buffer had the wrong length for the requested operation.
    Inval,
    /// The engine (or the hardware busy flag) is already mid-operation.
    Busy,
    /// The operation is an explicit placeholder and is not implemented.
    Fail,
}

} // verus!
