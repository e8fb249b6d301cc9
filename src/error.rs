use vstd::prelude::*;

verus! {

/// Everything that can go wrong while talking to the controller or reading its output.
#[derive(Debug, Clone, Copy, PartialEq, Eq, Structural)]
pub enum VhciError {
    /// The controller's kernel object could not be found (module not loaded, or no permission).
    DriverUnavailable,
    /// The controller reports no usable `nports` value.
    NoPorts,
    /// The controller's parent object, which holds its sibling controllers, is missing.
    ParentUnavailable,
    /// The `status` attribute could not be read at all.
    StatusUnreadable,
    /// A status line does not have exactly seven fields.
    InvalidFormat,
    /// The port field of a status line is not a decimal in 0..=255.
    InvalidPort,
    /// The status field of a status line is not an unsigned 32-bit decimal.
    InvalidStatus,
    /// A status code outside 0..=6.
    InvalidStatusCode,
    /// The speed field of a status line is not an unsigned 32-bit decimal.
    InvalidSpeed,
    /// A speed code outside 0..=6.
    InvalidSpeedCode,
    /// The device id field of a status line is not a 32-bit hexadecimal number.
    InvalidDeviceId,
    /// The socket field of a status line is not an unsigned 32-bit decimal.
    InvalidSocket,
    /// No port of the wanted hub class is free.
    NoFreePort,
}

} // verus!
