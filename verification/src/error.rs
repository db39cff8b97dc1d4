//! The error of the high-level RF Explorer operations.
use core::time::Duration;
use vstd::prelude::*;

verus! {

/// std's `io::Error`, carried through unchanged.
#[verifier::external_type_specification]
#[verifier::external_body]
pub struct ExIoError(std::io::Error);

/// Error returned by high-level RF Explorer operations.
#[derive(Debug)]
pub enum Error {
    /// The connected device firmware is older than the operation requires.
    IncompatibleFirmware(String),
    /// A caller supplied an invalid value.
    InvalidInput(String),
    /// The requested operation is not valid in the device's current state.
    InvalidOperation(String),
    /// An underlying I/O operation failed.
    Io(std::io::Error),
    /// The device did not respond before the timeout elapsed.
    TimedOut(Duration),
}

/// Result type returned by high-level RF Explorer operations.
pub type Result<T> = core::result::Result<T, Error>;

impl From<std::io::Error> for Error {
    fn from(error: std::io::Error) -> (r: Error) {
        Error::Io(error)
    }
}

impl vstd::std_specs::convert::FromSpecImpl<std::io::Error> for Error {
    open spec fn obeys_from_spec() -> bool {
        true
    }

    open spec fn from_spec(v: std::io::Error) -> Error {
        Error::Io(v)
    }
}

} // verus!
