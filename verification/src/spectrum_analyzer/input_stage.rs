//! The spectrum analyzer's input stages.
use vstd::prelude::*;

use crate::message::{MessageFormat, MessageParseError, ParseErrorKind};
use crate::parsers::{split_fields, split_fields_spec};

verus! {

/// The stage that the spectrum analyzer's input passes through.
#[derive(Debug, Clone, Copy, PartialEq, Eq, Structural)]
pub enum InputStage {
    /// No attenuation or amplification.
    Direct,
    /// A 30 dB attenuator.
    Attenuator30dB,
    /// A 25 dB low-noise amplifier.
    Lna25dB,
    /// A 60 dB attenuator.
    Attenuator60dB,
    /// A 12 dB low-noise amplifier.
    Lna12dB,
}

/// The prefix of an input stage message: `#a`.
pub open spec fn input_stage_prefix() -> Seq<u8> {
    seq![35u8, 97u8]
}

/// The input stage whose code is the ASCII character `code` (`'0'` to `'4'`).
pub open spec fn input_stage_from_code(code: u8) -> Option<InputStage> {
    if code == 48 {
        Some(InputStage::Direct)
    } else if code == 49 {
        Some(InputStage::Attenuator30dB)
    } else if code == 50 {
        Some(InputStage::Lna25dB)
    } else if code == 51 {
        Some(InputStage::Attenuator60dB)
    } else if code == 52 {
        Some(InputStage::Lna12dB)
    } else {
        None
    }
}

/// The input stage that `bytes` holds, when it is `#a`, one of the characters
/// `0` to `4`, and a line end.
pub open spec fn spec_input_stage(bytes: Seq<u8>) -> Option<InputStage> {
    match split_fields_spec(bytes, input_stage_prefix(), seq![1usize]) {
        Some(fields) => input_stage_from_code(fields[0][0]),
        None => None,
    }
}

impl InputStage {
    /// The ASCII character by which the RF Explorer names the stage.
    pub fn code(&self) -> (c: u8)
        ensures
            input_stage_from_code(c) == Some(*self),
    {
        match self {
            InputStage::Direct => 48,
            InputStage::Attenuator30dB => 49,
            InputStage::Lna25dB => 50,
            InputStage::Attenuator60dB => 51,
            InputStage::Lna12dB => 52,
        }
    }

    /// The input stage whose code is `code`.
    pub fn from_code(code: u8) -> (r: Option<InputStage>)
        ensures
            r == input_stage_from_code(code),
    {
        match code {
            48 => Some(InputStage::Direct),
            49 => Some(InputStage::Attenuator30dB),
            50 => Some(InputStage::Lna25dB),
            51 => Some(InputStage::Attenuator60dB),
            52 => Some(InputStage::Lna12dB),
            _ => None,
        }
    }

    /// The name of the stage, as the device shows it.
    pub fn name(&self) -> (s: &'static str)
        ensures
            s@ == (match *self {
                InputStage::Direct => "Direct"@,
                InputStage::Attenuator30dB => "Attenuator 30dB"@,
                InputStage::Lna25dB => "LNA 25dB"@,
                InputStage::Attenuator60dB => "Attenuator 60dB"@,
                InputStage::Lna12dB => "Attenuator 12dB"@,
            }),
    {
        match self {
            InputStage::Direct => "Direct",
            InputStage::Attenuator30dB => "Attenuator 30dB",
            InputStage::Lna25dB => "LNA 25dB",
            InputStage::Attenuator60dB => "Attenuator 60dB",
            InputStage::Lna12dB => "Attenuator 12dB",
        }
    }

    /// Parses an input stage message.
    pub fn try_from<'a>(bytes: &'a [u8]) -> (r: Result<InputStage, MessageParseError<'a>>)
        ensures
            r is Ok <==> spec_input_stage(bytes@) is Some,
            r matches Ok(s) ==> spec_input_stage(bytes@) == Some(s),
            r is Err ==> r == Err::<InputStage, MessageParseError<'a>>(MessageParseError::Invalid),
    {
        let prefix: [u8; 2] = [35u8, 97u8];
        let widths: [usize; 1] = [1usize];
        assert(prefix@ == input_stage_prefix());
        assert(widths@ == seq![1usize]);
        let fields = match split_fields(bytes, &prefix, &widths) {
            Some(fields) => fields,
            None => return Err(MessageParseError::Invalid),
        };
        let field = fields[0];
        assert(field@ == fields@[0]@);
        match InputStage::from_code(field[0]) {
            Some(s) => Ok(s),
            None => Err(MessageParseError::Invalid),
        }
    }
}

impl MessageFormat for InputStage {
    open spec fn spec_accepts(bytes: Seq<u8>) -> bool {
        spec_input_stage(bytes) is Some
    }

    open spec fn spec_message(bytes: Seq<u8>, message: InputStage) -> bool {
        spec_input_stage(bytes) == Some(message)
    }

    open spec fn spec_error_kind(bytes: Seq<u8>) -> ParseErrorKind {
        ParseErrorKind::Invalid
    }

    open spec fn spec_remainder(bytes: Seq<u8>) -> Option<Seq<u8>> {
        None
    }

    fn parse_message<'a>(bytes: &'a [u8]) -> (r: Result<InputStage, MessageParseError<'a>>) {
        InputStage::try_from(bytes)
    }
}

/// The device's names for the input stages: the characters `0` to `4` name
/// the direct path, the 30 dB attenuator, the 25 dB amplifier, the 60 dB
/// attenuator and the 12 dB amplifier, in that order; no other byte names a
/// stage.
pub proof fn lemma_input_stage_numbering()
    ensures
        input_stage_from_code(48u8) == Some(InputStage::Direct),
        input_stage_from_code(49u8) == Some(InputStage::Attenuator30dB),
        input_stage_from_code(50u8) == Some(InputStage::Lna25dB),
        input_stage_from_code(51u8) == Some(InputStage::Attenuator60dB),
        input_stage_from_code(52u8) == Some(InputStage::Lna12dB),
        forall|c: u8| !(48 <= c <= 52) ==> #[trigger] input_stage_from_code(c) is None,
{
}

} // verus!
