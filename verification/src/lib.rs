//! Communicate with RF Explorer spectrum analyzers and signal generators.
//!
//! This crate holds the verified core of the RF Explorer protocol: the
//! parsers of the messages that the devices send, the encoders of the
//! commands that they accept, the caches of the latest messages, and the
//! rules that pick models, baud rates, serial ports and settings.
pub mod command;
pub mod decimal;
pub mod error;
pub mod float_text;
pub mod ffi;
pub mod frequency;
pub mod message;
pub mod parsers;
pub mod radio_module;
pub mod serial_number;
pub mod serial_port;
pub mod setup_info;
pub mod signal_generator;
pub mod spectrum_analyzer;
pub mod time;

pub use error::{Error, Result};
pub use frequency::Frequency;
pub use message::{
    find_message_in_buf, is_suffix, lemma_message_start_is_suffix, lemma_whole_message_found,
    message_start, next_read_step, MessageFormat, MessageParseError, ParseErrorKind, ReadOutcome,
    ReadStep,
};
pub use radio_module::RadioModule;
pub use serial_number::SerialNumber;
pub use serial_port::{
    connection_attempts, find_port, is_driver_installed, port_names, BaudRate, SerialPortEntry,
};
pub use setup_info::{RadioModel, RfExplorerMessageContainer, SetupInfo};
