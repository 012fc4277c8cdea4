use vstd::prelude::*;

verus! {

/// Failure of a single transfer as reported by the USB transport.
#[derive(Debug, Clone, Copy, PartialEq, Eq, Structural)]
pub enum TransferError {
    /// The transfer was cancelled before it finished.
    Cancelled,
    /// The endpoint is halted.
    Stall,
    /// The device is gone.
    Disconnected,
    /// Hardware issue or protocol violation.
    Fault,
    /// Unknown or OS-specific failure.
    Unknown,
}

/// Underlying cause carried by [`SerialError::Other`].
#[derive(Debug, Clone, Copy, PartialEq, Eq, Structural)]
pub enum OtherCause {
    /// The deadline expired and the cancelled transfer left no result to collect.
    ResultUnavailable,
    /// A transport failure without a more specific classification.
    Transfer(TransferError),
}

/// Errors reported by the driver.
#[derive(Debug, Clone, Copy, PartialEq, Eq, Structural)]
pub enum SerialError {
    /// The device has no Communication (ACM) interface or no Data interface.
    NotACdcDevice,
    /// No alternate setting of the Data interface has both bulk directions.
    EndpointsNotFound,
    /// Access to the device was not granted.
    PermissionDenied,
    /// An interface could not be claimed.
    ClaimFailed,
    /// The device is physically gone; terminal for the session.
    NotConnected,
    /// The deadline passed with no byte transferred.
    TimedOut,
    /// A control write transferred fewer bytes than requested.
    IncompleteTransfer,
    /// The endpoint halted; the halt was cleared but the operation failed.
    Stall,
    /// Malformed textual configuration or bad parameter.
    InvalidInput,
    /// Opaque transport failure.
    Other(OtherCause),
}

} // verus!
