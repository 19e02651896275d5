//! The error taxonomy of the bridge.
//!
//! Every failure surfaced by the bridge falls in one of these classes. The
//! library itself only produces `InvalidDivisor` (the one failure that is
//! decided by arithmetic alone); the binary maps operating-system failures
//! onto the remaining classes.

use vstd::prelude::*;

verus! {

/// The classes of failure a bridge operation can report.
#[derive(Clone, Copy, Debug, PartialEq, Eq, Structural)]
pub enum BridgeError {
    /// The serial device could not be opened.
    Open,
    /// The operating system rejected a configuration step.
    Configuration,
    /// The hardware base clock cannot derive the DMX bit rate
    /// (the computed divisor would be zero).
    InvalidDivisor,
    /// A frame write failed at the system-call level.
    Transmit,
    /// Restoring the prior configuration on close failed.
    Teardown,
}

impl BridgeError {
    /// A short human-readable description of the error class.
    pub fn describe(&self) -> (r: &'static str)
        ensures
            *self is Open ==> r@ == "cannot open serial device"@,
            *self is Configuration ==> r@ == "serial configuration rejected"@,
            *self is InvalidDivisor ==> r@ == "invalid baud rate divisor (0)"@,
            *self is Transmit ==> r@ == "frame write failed"@,
            *self is Teardown ==> r@ == "failed to restore serial settings"@,
    {
        match self {
            BridgeError::Open => "cannot open serial device",
            BridgeError::Configuration => "serial configuration rejected",
            BridgeError::InvalidDivisor => "invalid baud rate divisor (0)",
            BridgeError::Transmit => "frame write failed",
            BridgeError::Teardown => "failed to restore serial settings",
        }
    }
}

} // verus!
