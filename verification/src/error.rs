//! Error kinds shared by the drivers.

use vstd::prelude::*;

verus! {

/// Why a driver request was not carried out.
#[derive(Clone, Copy, Debug, PartialEq, Eq, Structural)]
pub enum ErrorCode {
    /// Generic failure.
    Fail,
    /// An operation is already in flight.
    Busy,
    /// An argument is not valid for the peripheral.
    Invalid,
    /// A zero-length or out-of-range request.
    InvalidSize,
    /// The flash controller flagged an access error for the command.
    AccessViolation,
    /// The flash controller refused to touch a protected region.
    ProtectionViolation,
    /// Flash was read while a command was still running.
    ReadCollision,
}

} // verus!
