//! Error taxonomy for the device-lifecycle and event-detection core.

use vstd::prelude::*;

verus! {

/// Everything that can go wrong while connecting to, streaming from, or
/// decoding data of a wearable sensor.  Per-device failures are isolated:
/// none of these is fatal to the rest of the system.
#[derive(Clone, Copy, Debug, PartialEq, Eq, Structural)]
pub enum BleError {
    /// The platform reports no usable radio; fatal to new connection
    /// attempts until the handle is invalidated and re-acquired.
    AdapterUnavailable,
    /// A time-boxed scan ended without the sought device; recoverable.
    ScanTimeout,
    /// The device could not be resolved; terminal for that connect attempt.
    DeviceNotFound,
    /// The radio-level connection could not be established.
    ConnectFailed,
    /// No characteristic with notification support was found.
    NoNotifyChannel,
    /// Opening the notification stream failed.
    SubscribeFailed,
    /// A sensor frame was shorter than the fixed 14-byte layout;
    /// per-sample, logged and skipped.
    IncompleteFrame,
    /// The notification stream reported an error; ends that session only.
    StreamError,
    /// The notification stream closed; ends that session only.
    StreamEnded,
}

impl BleError {
    /// A short human-readable tag for the error.
    pub fn message(&self) -> (r: &'static str)
        ensures
            r@ == match *self {
                BleError::AdapterUnavailable => "adapter unavailable"@,
                BleError::ScanTimeout => "scan timeout"@,
                BleError::DeviceNotFound => "device not found"@,
                BleError::ConnectFailed => "connect failed"@,
                BleError::NoNotifyChannel => "no notify channel"@,
                BleError::SubscribeFailed => "subscribe failed"@,
                BleError::IncompleteFrame => "incomplete frame"@,
                BleError::StreamError => "stream error"@,
                BleError::StreamEnded => "stream ended"@,
            },
    {
        match *self {
            BleError::AdapterUnavailable => "adapter unavailable",
            BleError::ScanTimeout => "scan timeout",
            BleError::DeviceNotFound => "device not found",
            BleError::ConnectFailed => "connect failed",
            BleError::NoNotifyChannel => "no notify channel",
            BleError::SubscribeFailed => "subscribe failed",
            BleError::IncompleteFrame => "incomplete frame",
            BleError::StreamError => "stream error",
            BleError::StreamEnded => "stream ended",
        }
    }
}

/// Result type used throughout the core.
pub type BleResult<T> = Result<T, BleError>;

} // verus!
