//! The settings and identity messages that a spectrum analyzer sends, told
//! apart by their prefixes.
use vstd::prelude::*;

use super::dsp_mode::DspMode;
use super::input_stage::InputStage;
use super::model::Model;
use super::tracking_status::TrackingStatus;
use crate::message::{MessageFormat, MessageParseError, ParseErrorKind};
use crate::parsers::starts_with;
use crate::serial_number::SerialNumber;
use crate::setup_info::{setup_info_accepts, setup_info_holds, SetupInfo};
use crate::signal_generator::has_prefix;

verus! {

/// A parsed settings or identity message from a spectrum analyzer.
#[derive(Debug, Clone, PartialEq, Eq)]
pub enum Message {
    /// The DSP mode.
    DspMode(DspMode),
    /// The input stage.
    InputStage(InputStage),
    /// The serial number.
    SerialNumber(SerialNumber),
    /// The models of the radio modules and the firmware version.
    SetupInfo(SetupInfo<Model>),
    /// Whether tracking is on.
    TrackingStatus(TrackingStatus),
}

/// The kinds of settings and identity message that a spectrum analyzer sends.
#[derive(Debug, Clone, Copy, PartialEq, Eq, Structural)]
pub enum MessageKind {
    /// See [`Message::DspMode`].
    DspMode,
    /// See [`Message::InputStage`].
    InputStage,
    /// See [`Message::SerialNumber`].
    SerialNumber,
    /// See [`Message::SetupInfo`].
    SetupInfo,
    /// See [`Message::TrackingStatus`].
    TrackingStatus,
}

/// The prefix of a spectrum analyzer's setup message: `#C2-M:`.
pub open spec fn setup_info_prefix() -> Seq<u8> {
    seq![35u8, 67u8, 50u8, 45u8, 77u8, 58u8]
}

/// The kind of message that `bytes` announces by its prefix, if any.
pub open spec fn announced_kind(bytes: Seq<u8>) -> Option<MessageKind> {
    if has_prefix(bytes, seq![68u8, 83u8, 80u8, 58u8]) {
        Some(MessageKind::DspMode)
    } else if has_prefix(bytes, seq![35u8, 97u8]) {
        Some(MessageKind::InputStage)
    } else if has_prefix(bytes, seq![35u8, 83u8, 110u8]) {
        Some(MessageKind::SerialNumber)
    } else if has_prefix(bytes, setup_info_prefix()) {
        Some(MessageKind::SetupInfo)
    } else if has_prefix(bytes, seq![35u8, 75u8]) {
        Some(MessageKind::TrackingStatus)
    } else {
        None
    }
}

/// True when `bytes` is a well-formed message of the kind that its prefix announces.
pub open spec fn message_accepts(bytes: Seq<u8>) -> bool {
    match announced_kind(bytes) {
        Some(MessageKind::DspMode) => <DspMode as MessageFormat>::spec_accepts(bytes),
        Some(MessageKind::InputStage) => <InputStage as MessageFormat>::spec_accepts(bytes),
        Some(MessageKind::SerialNumber) => <SerialNumber as MessageFormat>::spec_accepts(bytes),
        Some(MessageKind::SetupInfo) => setup_info_accepts::<Model>(bytes, setup_info_prefix()),
        Some(MessageKind::TrackingStatus) => <TrackingStatus as MessageFormat>::spec_accepts(bytes),
        None => false,
    }
}

/// True when `m` is what the well-formed message `bytes` says.
pub open spec fn message_holds(bytes: Seq<u8>, m: Message) -> bool {
    match m {
        Message::DspMode(x) => announced_kind(bytes) == Some(MessageKind::DspMode)
            && <DspMode as MessageFormat>::spec_message(bytes, x),
        Message::InputStage(x) => announced_kind(bytes) == Some(MessageKind::InputStage)
            && <InputStage as MessageFormat>::spec_message(bytes, x),
        Message::SerialNumber(x) => announced_kind(bytes) == Some(MessageKind::SerialNumber)
            && <SerialNumber as MessageFormat>::spec_message(bytes, x),
        Message::SetupInfo(x) => announced_kind(bytes) == Some(MessageKind::SetupInfo)
            && setup_info_holds::<Model>(bytes, setup_info_prefix(), x),
        Message::TrackingStatus(x) => announced_kind(bytes) == Some(MessageKind::TrackingStatus)
            && <TrackingStatus as MessageFormat>::spec_message(bytes, x),
    }
}

impl Message {
    /// Parses a settings or identity message of a spectrum analyzer, by its prefix.
    pub fn try_from<'a>(bytes: &'a [u8]) -> (r: Result<Message, MessageParseError<'a>>)
        ensures
            r is Ok <==> message_accepts(bytes@),
            r matches Ok(m) ==> message_holds(bytes@, m),
            announced_kind(bytes@) is None ==> r == Err::<Message, MessageParseError<'a>>(
                MessageParseError::UnknownMessageType,
            ),
            announced_kind(bytes@) is Some && r is Err ==> r == Err::<Message, MessageParseError<'a>>(
                MessageParseError::Invalid,
            ),
    {
        let dsp_mode: [u8; 4] = [68u8, 83u8, 80u8, 58u8];
        let input_stage: [u8; 2] = [35u8, 97u8];
        let serial_number: [u8; 3] = [35u8, 83u8, 110u8];
        let setup_info: [u8; 6] = [35u8, 67u8, 50u8, 45u8, 77u8, 58u8];
        let tracking_status: [u8; 2] = [35u8, 75u8];
        assert(dsp_mode@ == seq![68u8, 83u8, 80u8, 58u8]);
        assert(input_stage@ == seq![35u8, 97u8]);
        assert(serial_number@ == seq![35u8, 83u8, 110u8]);
        assert(setup_info@ == setup_info_prefix());
        assert(tracking_status@ == seq![35u8, 75u8]);
        if starts_with(bytes, &dsp_mode) {
            match DspMode::parse_message(bytes) {
                Ok(x) => Ok(Message::DspMode(x)),
                Err(_) => Err(MessageParseError::Invalid),
            }
        } else if starts_with(bytes, &input_stage) {
            match InputStage::parse_message(bytes) {
                Ok(x) => Ok(Message::InputStage(x)),
                Err(_) => Err(MessageParseError::Invalid),
            }
        } else if starts_with(bytes, &serial_number) {
            match SerialNumber::parse_message(bytes) {
                Ok(x) => Ok(Message::SerialNumber(x)),
                Err(_) => Err(MessageParseError::Invalid),
            }
        } else if starts_with(bytes, &setup_info) {
            match SetupInfo::<Model>::try_from_with_prefix(bytes, &setup_info) {
                Ok(x) => Ok(Message::SetupInfo(x)),
                Err(_) => Err(MessageParseError::Invalid),
            }
        } else if starts_with(bytes, &tracking_status) {
            match TrackingStatus::parse_message(bytes) {
                Ok(x) => Ok(Message::TrackingStatus(x)),
                Err(_) => Err(MessageParseError::Invalid),
            }
        } else {
            Err(MessageParseError::UnknownMessageType)
        }
    }
}

impl MessageFormat for Message {
    open spec fn spec_accepts(bytes: Seq<u8>) -> bool {
        message_accepts(bytes)
    }

    open spec fn spec_message(bytes: Seq<u8>, message: Message) -> bool {
        message_holds(bytes, message)
    }

    open spec fn spec_error_kind(bytes: Seq<u8>) -> ParseErrorKind {
        if announced_kind(bytes) is None {
            ParseErrorKind::UnknownMessageType
        } else {
            ParseErrorKind::Invalid
        }
    }

    open spec fn spec_remainder(bytes: Seq<u8>) -> Option<Seq<u8>> {
        None
    }

    fn parse_message<'a>(bytes: &'a [u8]) -> (r: Result<Message, MessageParseError<'a>>) {
        Message::try_from(bytes)
    }
}

} // verus!
