//! The messages that a signal generator sends, told apart by their prefixes.
use vstd::prelude::*;

use super::config::{Config, ConfigExp};
use super::config_amp_sweep::{ConfigAmpSweep, ConfigAmpSweepExp};
use super::config_cw::{ConfigCw, ConfigCwExp};
use super::model::Model;
use super::temperature::Temperature;
use crate::message::{MessageFormat, MessageParseError, ParseErrorKind};
use crate::parsers::starts_with;
use crate::serial_number::SerialNumber;
use crate::setup_info::{setup_info_accepts, setup_info_holds, SetupInfo};

verus! {

/// A parsed message from a signal generator.
#[derive(Debug, Clone, PartialEq, Eq)]
pub enum Message {
    /// A main-module configuration.
    Config(Config),
    /// A main-module amplitude sweep configuration.
    ConfigAmpSweep(ConfigAmpSweep),
    /// A main-module CW configuration.
    ConfigCw(ConfigCw),
    /// An expansion-module configuration.
    ConfigExp(ConfigExp),
    /// An expansion-module amplitude sweep configuration.
    ConfigAmpSweepExp(ConfigAmpSweepExp),
    /// An expansion-module CW configuration.
    ConfigCwExp(ConfigCwExp),
    /// The serial number.
    SerialNumber(SerialNumber),
    /// The models of the radio modules and the firmware version.
    SetupInfo(SetupInfo<Model>),
    /// The temperature range.
    Temperature(Temperature),
}

/// The kinds of message that a signal generator sends and this library reads.
#[derive(Debug, Clone, Copy, PartialEq, Eq, Structural)]
pub enum MessageKind {
    /// See [`Message::Config`].
    Config,
    /// See [`Message::ConfigAmpSweep`].
    ConfigAmpSweep,
    /// See [`Message::ConfigCw`].
    ConfigCw,
    /// See [`Message::ConfigExp`].
    ConfigExp,
    /// See [`Message::ConfigAmpSweepExp`].
    ConfigAmpSweepExp,
    /// See [`Message::ConfigCwExp`].
    ConfigCwExp,
    /// See [`Message::SerialNumber`].
    SerialNumber,
    /// See [`Message::SetupInfo`].
    SetupInfo,
    /// See [`Message::Temperature`].
    Temperature,
}

/// True when `bytes` begins with `p`.
pub open spec fn has_prefix(bytes: Seq<u8>, p: Seq<u8>) -> bool {
    p.len() <= bytes.len() && bytes.take(p.len() as int) == p
}

/// The prefix of a signal generator's setup message: `#C3-M:`.
pub open spec fn setup_info_prefix() -> Seq<u8> {
    seq![35u8, 67u8, 51u8, 45u8, 77u8, 58u8]
}

/// The kind of message that `bytes` announces by its prefix, if any.
pub open spec fn announced_kind(bytes: Seq<u8>) -> Option<MessageKind> {
    if has_prefix(bytes, seq![35u8, 67u8, 51u8, 45u8, 42u8, 58u8]) {
        Some(MessageKind::Config)
    } else if has_prefix(bytes, seq![35u8, 67u8, 51u8, 45u8, 65u8, 58u8]) {
        Some(MessageKind::ConfigAmpSweep)
    } else if has_prefix(bytes, seq![35u8, 67u8, 51u8, 45u8, 71u8, 58u8]) {
        Some(MessageKind::ConfigCw)
    } else if has_prefix(bytes, seq![35u8, 67u8, 53u8, 45u8, 42u8, 58u8]) {
        Some(MessageKind::ConfigExp)
    } else if has_prefix(bytes, seq![35u8, 67u8, 53u8, 45u8, 65u8, 58u8]) {
        Some(MessageKind::ConfigAmpSweepExp)
    } else if has_prefix(bytes, seq![35u8, 67u8, 53u8, 45u8, 71u8, 58u8]) {
        Some(MessageKind::ConfigCwExp)
    } else if has_prefix(bytes, seq![35u8, 83u8, 110u8]) {
        Some(MessageKind::SerialNumber)
    } else if has_prefix(bytes, setup_info_prefix()) {
        Some(MessageKind::SetupInfo)
    } else if has_prefix(bytes, seq![35u8, 84u8, 58u8]) {
        Some(MessageKind::Temperature)
    } else {
        None
    }
}

/// True when `bytes` is a well-formed message of the kind that its prefix announces.
pub open spec fn message_accepts(bytes: Seq<u8>) -> bool {
    match announced_kind(bytes) {
        Some(MessageKind::Config) => <Config as MessageFormat>::spec_accepts(bytes),
        Some(MessageKind::ConfigAmpSweep) => <ConfigAmpSweep as MessageFormat>::spec_accepts(bytes),
        Some(MessageKind::ConfigCw) => <ConfigCw as MessageFormat>::spec_accepts(bytes),
        Some(MessageKind::ConfigExp) => <ConfigExp as MessageFormat>::spec_accepts(bytes),
        Some(MessageKind::ConfigAmpSweepExp) => <ConfigAmpSweepExp as MessageFormat>::spec_accepts(
            bytes,
        ),
        Some(MessageKind::ConfigCwExp) => <ConfigCwExp as MessageFormat>::spec_accepts(bytes),
        Some(MessageKind::SerialNumber) => <SerialNumber as MessageFormat>::spec_accepts(bytes),
        Some(MessageKind::SetupInfo) => setup_info_accepts::<Model>(bytes, setup_info_prefix()),
        Some(MessageKind::Temperature) => <Temperature as MessageFormat>::spec_accepts(bytes),
        None => false,
    }
}

/// True when `m` is what the well-formed message `bytes` says.
pub open spec fn message_holds(bytes: Seq<u8>, m: Message) -> bool {
    match m {
        Message::Config(x) => announced_kind(bytes) == Some(MessageKind::Config)
            && <Config as MessageFormat>::spec_message(bytes, x),
        Message::ConfigAmpSweep(x) => announced_kind(bytes) == Some(MessageKind::ConfigAmpSweep)
            && <ConfigAmpSweep as MessageFormat>::spec_message(bytes, x),
        Message::ConfigCw(x) => announced_kind(bytes) == Some(MessageKind::ConfigCw)
            && <ConfigCw as MessageFormat>::spec_message(bytes, x),
        Message::ConfigExp(x) => announced_kind(bytes) == Some(MessageKind::ConfigExp)
            && <ConfigExp as MessageFormat>::spec_message(bytes, x),
        Message::ConfigAmpSweepExp(x) => announced_kind(bytes) == Some(
            MessageKind::ConfigAmpSweepExp,
        ) && <ConfigAmpSweepExp as MessageFormat>::spec_message(bytes, x),
        Message::ConfigCwExp(x) => announced_kind(bytes) == Some(MessageKind::ConfigCwExp)
            && <ConfigCwExp as MessageFormat>::spec_message(bytes, x),
        Message::SerialNumber(x) => announced_kind(bytes) == Some(MessageKind::SerialNumber)
            && <SerialNumber as MessageFormat>::spec_message(bytes, x),
        Message::SetupInfo(x) => announced_kind(bytes) == Some(MessageKind::SetupInfo)
            && setup_info_holds::<Model>(bytes, setup_info_prefix(), x),
        Message::Temperature(x) => announced_kind(bytes) == Some(MessageKind::Temperature)
            && <Temperature as MessageFormat>::spec_message(bytes, x),
    }
}

impl Message {
    /// Parses a message of any kind that a signal generator sends, by its prefix.
    #[verifier::rlimit(40)]
    pub fn try_from<'a>(bytes: &'a [u8]) -> (r: Result<Message, MessageParseError<'a>>)
        ensures
            r is Ok <==> message_accepts(bytes@),
            r matches Ok(m) ==> message_holds(bytes@, m),
            announced_kind(bytes@) is None ==> r == Err::<Message, MessageParseError<'a>>(
                MessageParseError::UnknownMessageType,
            ),
            announced_kind(bytes@) is Some && r is Err ==> r == Err::<Message, MessageParseError<'a>>(
                MessageParseError::Invalid,
            ),
    {
        let config: [u8; 6] = [35u8, 67u8, 51u8, 45u8, 42u8, 58u8];
        let amp_sweep: [u8; 6] = [35u8, 67u8, 51u8, 45u8, 65u8, 58u8];
        let cw: [u8; 6] = [35u8, 67u8, 51u8, 45u8, 71u8, 58u8];
        let config_exp: [u8; 6] = [35u8, 67u8, 53u8, 45u8, 42u8, 58u8];
        let amp_sweep_exp: [u8; 6] = [35u8, 67u8, 53u8, 45u8, 65u8, 58u8];
        let cw_exp: [u8; 6] = [35u8, 67u8, 53u8, 45u8, 71u8, 58u8];
        let serial_number: [u8; 3] = [35u8, 83u8, 110u8];
        let setup_info: [u8; 6] = [35u8, 67u8, 51u8, 45u8, 77u8, 58u8];
        let temperature: [u8; 3] = [35u8, 84u8, 58u8];
        assert(config@ == seq![35u8, 67u8, 51u8, 45u8, 42u8, 58u8]);
        assert(amp_sweep@ == seq![35u8, 67u8, 51u8, 45u8, 65u8, 58u8]);
        assert(cw@ == seq![35u8, 67u8, 51u8, 45u8, 71u8, 58u8]);
        assert(config_exp@ == seq![35u8, 67u8, 53u8, 45u8, 42u8, 58u8]);
        assert(amp_sweep_exp@ == seq![35u8, 67u8, 53u8, 45u8, 65u8, 58u8]);
        assert(cw_exp@ == seq![35u8, 67u8, 53u8, 45u8, 71u8, 58u8]);
        assert(serial_number@ == seq![35u8, 83u8, 110u8]);
        assert(setup_info@ == setup_info_prefix());
        assert(temperature@ == seq![35u8, 84u8, 58u8]);
        if starts_with(bytes, &config) {
            match Config::parse_message(bytes) {
                Ok(x) => Ok(Message::Config(x)),
                Err(_) => Err(MessageParseError::Invalid),
            }
        } else if starts_with(bytes, &amp_sweep) {
            match ConfigAmpSweep::parse_message(bytes) {
                Ok(x) => Ok(Message::ConfigAmpSweep(x)),
                Err(_) => Err(MessageParseError::Invalid),
            }
        } else if starts_with(bytes, &cw) {
            match ConfigCw::parse_message(bytes) {
                Ok(x) => Ok(Message::ConfigCw(x)),
                Err(_) => Err(MessageParseError::Invalid),
            }
        } else if starts_with(bytes, &config_exp) {
            match ConfigExp::parse_message(bytes) {
                Ok(x) => Ok(Message::ConfigExp(x)),
                Err(_) => Err(MessageParseError::Invalid),
            }
        } else if starts_with(bytes, &amp_sweep_exp) {
            match ConfigAmpSweepExp::parse_message(bytes) {
                Ok(x) => Ok(Message::ConfigAmpSweepExp(x)),
                Err(_) => Err(MessageParseError::Invalid),
            }
        } else if starts_with(bytes, &cw_exp) {
            match ConfigCwExp::parse_message(bytes) {
                Ok(x) => Ok(Message::ConfigCwExp(x)),
                Err(_) => Err(MessageParseError::Invalid),
            }
        } else if starts_with(bytes, &serial_number) {
            match SerialNumber::parse_message(bytes) {
                Ok(x) => Ok(Message::SerialNumber(x)),
                Err(_) => Err(MessageParseError::Invalid),
            }
        } else if starts_with(bytes, &setup_info) {
            match SetupInfo::<Model>::try_from_with_prefix(bytes, &setup_info) {
                Ok(x) => Ok(Message::SetupInfo(x)),
                Err(_) => Err(MessageParseError::Invalid),
            }
        } else if starts_with(bytes, &temperature) {
            match Temperature::parse_message(bytes) {
                Ok(x) => Ok(Message::Temperature(x)),
                Err(_) => Err(MessageParseError::Invalid),
            }
        } else {
            Err(MessageParseError::UnknownMessageType)
        }
    }
}

impl MessageFormat for Message {
    open spec fn spec_accepts(bytes: Seq<u8>) -> bool {
        message_accepts(bytes)
    }

    open spec fn spec_message(bytes: Seq<u8>, message: Message) -> bool {
        message_holds(bytes, message)
    }

    open spec fn spec_error_kind(bytes: Seq<u8>) -> ParseErrorKind {
        if announced_kind(bytes) is None {
            ParseErrorKind::UnknownMessageType
        } else {
            ParseErrorKind::Invalid
        }
    }

    open spec fn spec_remainder(bytes: Seq<u8>) -> Option<Seq<u8>> {
        None
    }

    fn parse_message<'a>(bytes: &'a [u8]) -> (r: Result<Message, MessageParseError<'a>>) {
        Message::try_from(bytes)
    }
}

} // verus!
