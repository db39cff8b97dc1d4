//! The status codes and plain structures that the C interface hands out.
use vstd::prelude::*;

use crate::error::Error;
use crate::radio_module::RadioModule;
use crate::signal_generator::Model;

verus! {

/// The outcome of a call through the C interface.
#[derive(Debug, Clone, Copy, PartialEq, Eq, Structural)]
pub enum Result {
    /// The call succeeded.
    Success,
    /// A caller supplied an invalid value.
    InvalidInputError,
    /// The operation is not valid in the device's current state.
    InvalidOperationError,
    /// An I/O operation failed.
    IoError,
    /// The device did not respond in time.
    TimeoutError,
    /// A pointer argument was null.
    NullPtrError,
    /// The device has not sent the data yet.
    NoData,
}

/// The status code of an error.
pub open spec fn error_status(error: Error) -> Result {
    match error {
        Error::IncompatibleFirmware(_) => Result::IoError,
        Error::InvalidInput(_) => Result::InvalidInputError,
        Error::InvalidOperation(_) => Result::InvalidOperationError,
        Error::Io(_) => Result::IoError,
        Error::TimedOut(_) => Result::TimeoutError,
    }
}

impl Result {
    /// The status code of an error.
    pub fn from_error(error: &Error) -> (r: Result)
        ensures
            r == error_status(*error),
    {
        match error {
            Error::IncompatibleFirmware(_) => Result::IoError,
            Error::InvalidInput(_) => Result::InvalidInputError,
            Error::InvalidOperation(_) => Result::InvalidOperationError,
            Error::Io(_) => Result::IoError,
            Error::TimedOut(_) => Result::TimeoutError,
        }
    }

    /// The status code of the outcome of an operation.
    pub fn from_result<T>(result: &crate::error::Result<T>) -> (r: Result)
        ensures
            r == (match *result {
                Ok(_) => Result::Success,
                Err(e) => error_status(e),
            }),
    {
        match result {
            Ok(_) => Result::Success,
            Err(error) => Result::from_error(error),
        }
    }

    /// The status code of the outcome of an I/O operation.
    pub fn from_io_result(result: &std::io::Result<()>) -> (r: Result)
        ensures
            r == (match *result {
                Ok(_) => Result::Success,
                Err(_) => Result::IoError,
            }),
    {
        match result {
            Ok(_) => Result::Success,
            Err(_) => Result::IoError,
        }
    }
}

/// The outcome of a call on an RF Explorer through the C interface.
#[derive(Debug, Clone, Copy, PartialEq, Eq, Structural)]
pub enum RfExplorerResult {
    /// The call succeeded.
    Success,
    /// A caller supplied an invalid value.
    InvalidInputError,
    /// The operation is not valid in the device's current state.
    InvalidOperationError,
    /// An I/O operation failed.
    IoError,
    /// The device did not respond in time.
    TimeoutError,
    /// A pointer argument was null.
    NullPtrError,
}

/// The RF Explorer status code of an error.
pub open spec fn rfe_error_status(error: Error) -> RfExplorerResult {
    match error {
        Error::IncompatibleFirmware(_) => RfExplorerResult::IoError,
        Error::InvalidInput(_) => RfExplorerResult::InvalidInputError,
        Error::InvalidOperation(_) => RfExplorerResult::InvalidOperationError,
        Error::Io(_) => RfExplorerResult::IoError,
        Error::TimedOut(_) => RfExplorerResult::TimeoutError,
    }
}

impl RfExplorerResult {
    /// The status code of an error.
    pub fn from_error(error: &Error) -> (r: RfExplorerResult)
        ensures
            r == rfe_error_status(*error),
    {
        match error {
            Error::IncompatibleFirmware(_) => RfExplorerResult::IoError,
            Error::InvalidInput(_) => RfExplorerResult::InvalidInputError,
            Error::InvalidOperation(_) => RfExplorerResult::InvalidOperationError,
            Error::Io(_) => RfExplorerResult::IoError,
            Error::TimedOut(_) => RfExplorerResult::TimeoutError,
        }
    }

    /// The status code of the outcome of an operation.
    pub fn from_result<T>(result: &crate::error::Result<T>) -> (r: RfExplorerResult)
        ensures
            r == (match *result {
                Ok(_) => RfExplorerResult::Success,
                Err(e) => rfe_error_status(e),
            }),
    {
        match result {
            Ok(_) => RfExplorerResult::Success,
            Err(error) => RfExplorerResult::from_error(error),
        }
    }

    /// The status code of the outcome of an I/O operation.
    pub fn from_io_result(result: &std::io::Result<()>) -> (r: RfExplorerResult)
        ensures
            r == (match *result {
                Ok(_) => RfExplorerResult::Success,
                Err(_) => RfExplorerResult::IoError,
            }),
    {
        match result {
            Ok(_) => RfExplorerResult::Success,
            Err(_) => RfExplorerResult::IoError,
        }
    }
}

/// A signal generator radio module, as the C interface describes it.
#[derive(Debug, Clone, Copy, PartialEq, Eq, Structural)]
pub struct SignalGeneratorRadioModule {
    /// The module's model.
    pub model: Model,
    /// True for the expansion module.
    pub is_expansion_radio_module: bool,
}

/// The description of `radio_module` that the C interface hands out.
pub open spec fn radio_module_description(radio_module: RadioModule<Model>) -> SignalGeneratorRadioModule {
    match radio_module {
        RadioModule::Main { model } => SignalGeneratorRadioModule {
            model,
            is_expansion_radio_module: false,
        },
        RadioModule::Expansion { model } => SignalGeneratorRadioModule {
            model,
            is_expansion_radio_module: true,
        },
    }
}

impl From<RadioModule<Model>> for SignalGeneratorRadioModule {
    /// Describes a signal generator radio module.
    fn from(radio_module: RadioModule<Model>) -> (r: SignalGeneratorRadioModule) {
        match radio_module {
            RadioModule::Main { model } => SignalGeneratorRadioModule {
                model,
                is_expansion_radio_module: false,
            },
            RadioModule::Expansion { model } => SignalGeneratorRadioModule {
                model,
                is_expansion_radio_module: true,
            },
        }
    }
}

impl vstd::std_specs::convert::FromSpecImpl<RadioModule<Model>> for SignalGeneratorRadioModule {
    open spec fn obeys_from_spec() -> bool {
        true
    }

    open spec fn from_spec(v: RadioModule<Model>) -> SignalGeneratorRadioModule {
        radio_module_description(v)
    }
}

} // verus!
