//! Typed failures of device-session operations.

use vstd::prelude::*;

verus! {

/// Everything a device-session operation can fail with.
#[derive(Clone, Copy, PartialEq, Eq, Structural, Debug)]
pub enum BorealisError {
    /// The connection failed at the socket level: refused, unreachable, or
    /// timed out below the HTTP layer.
    Transport,
    /// The device answered, but not with the status the operation requires.
    /// Carries the status that came back.
    UnexpectedStatus(u16),
    /// Pairing was refused: the physical-confirmation window on the device
    /// was not open when the pairing request arrived.
    Unauthorized,
    /// Discovery's caller-specified time budget elapsed.
    Timeout,
    /// Discovery's listen stream ended without a qualifying device.
    NotFound,
    /// The network listener for discovery could not be established.
    TransportSetup,
}

/// A specialized `Result` type for `borealis` operations.
pub type BorealisResult<T> = Result<T, BorealisError>;

} // verus!
