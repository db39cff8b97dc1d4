//! The spectrum analyzer's digital signal processing modes.
use vstd::prelude::*;

use crate::message::{MessageFormat, MessageParseError, ParseErrorKind};
use crate::parsers::{parse_unsigned, split_fields, split_fields_spec, unsigned_value};

verus! {

/// The spectrum analyzer's digital signal processing mode.
#[derive(Debug, Clone, Copy, PartialEq, Eq, Structural, Default)]
pub enum DspMode {
    /// The device picks the mode.
    #[default]
    Auto,
    /// Filter mode.
    Filter,
    /// Fast mode.
    Fast,
    /// No-image mode.
    NoImg,
}

/// The prefix of a DSP mode message: `DSP:`.
pub open spec fn dsp_mode_prefix() -> Seq<u8> {
    seq![68u8, 83u8, 80u8, 58u8]
}

/// The DSP mode with the number `code`.
pub open spec fn dsp_mode_from_code(code: nat) -> Option<DspMode> {
    if code == 0 {
        Some(DspMode::Auto)
    } else if code == 1 {
        Some(DspMode::Filter)
    } else if code == 2 {
        Some(DspMode::Fast)
    } else if code == 3 {
        Some(DspMode::NoImg)
    } else {
        None
    }
}

/// The DSP mode that `bytes` holds, when it is `DSP:`, one decimal digit
/// from 0 to 3 (read as std reads a `u8`), and a line end.
pub open spec fn spec_dsp_mode(bytes: Seq<u8>) -> Option<DspMode> {
    match split_fields_spec(bytes, dsp_mode_prefix(), seq![1usize]) {
        Some(fields) => match unsigned_value(fields[0], 255) {
            Some(code) => dsp_mode_from_code(code),
            None => None,
        },
        None => None,
    }
}

impl DspMode {
    /// The number by which the RF Explorer names the mode.
    pub fn code(&self) -> (c: u8)
        ensures
            dsp_mode_from_code(c as nat) == Some(*self),
    {
        match self {
            DspMode::Auto => 0,
            DspMode::Filter => 1,
            DspMode::Fast => 2,
            DspMode::NoImg => 3,
        }
    }

    /// The DSP mode with the number `code`.
    pub fn from_code(code: u8) -> (r: Option<DspMode>)
        ensures
            r == dsp_mode_from_code(code as nat),
    {
        match code {
            0 => Some(DspMode::Auto),
            1 => Some(DspMode::Filter),
            2 => Some(DspMode::Fast),
            3 => Some(DspMode::NoImg),
            _ => None,
        }
    }

    /// The name of the mode, as the device shows it.
    pub fn name(&self) -> (s: &'static str)
        ensures
            s@ == (match *self {
                DspMode::Auto => "Auto"@,
                DspMode::Filter => "Filter"@,
                DspMode::Fast => "Fast"@,
                DspMode::NoImg => "NoImg"@,
            }),
    {
        match self {
            DspMode::Auto => "Auto",
            DspMode::Filter => "Filter",
            DspMode::Fast => "Fast",
            DspMode::NoImg => "NoImg",
        }
    }

    /// Parses a DSP mode message.
    pub fn try_from<'a>(bytes: &'a [u8]) -> (r: Result<DspMode, MessageParseError<'a>>)
        ensures
            r is Ok <==> spec_dsp_mode(bytes@) is Some,
            r matches Ok(m) ==> spec_dsp_mode(bytes@) == Some(m),
            r is Err ==> r == Err::<DspMode, MessageParseError<'a>>(MessageParseError::Invalid),
    {
        let prefix: [u8; 4] = [68u8, 83u8, 80u8, 58u8];
        let widths: [usize; 1] = [1usize];
        assert(prefix@ == dsp_mode_prefix());
        assert(widths@ == seq![1usize]);
        let fields = match split_fields(bytes, &prefix, &widths) {
            Some(fields) => fields,
            None => return Err(MessageParseError::Invalid),
        };
        let field = fields[0];
        assert(field@ == fields@[0]@);
        let code = match parse_unsigned(field, 255) {
            Some(code) => code,
            None => return Err(MessageParseError::Invalid),
        };
        match DspMode::from_code(code as u8) {
            Some(m) => Ok(m),
            None => Err(MessageParseError::Invalid),
        }
    }
}

impl MessageFormat for DspMode {
    open spec fn spec_accepts(bytes: Seq<u8>) -> bool {
        spec_dsp_mode(bytes) is Some
    }

    open spec fn spec_message(bytes: Seq<u8>, message: DspMode) -> bool {
        spec_dsp_mode(bytes) == Some(message)
    }

    open spec fn spec_error_kind(bytes: Seq<u8>) -> ParseErrorKind {
        ParseErrorKind::Invalid
    }

    open spec fn spec_remainder(bytes: Seq<u8>) -> Option<Seq<u8>> {
        None
    }

    fn parse_message<'a>(bytes: &'a [u8]) -> (r: Result<DspMode, MessageParseError<'a>>) {
        DspMode::try_from(bytes)
    }
}

/// The device's numbers for the DSP modes: 0 auto, 1 filter, 2 fast, 3 no
/// image; no other number names a mode.
pub proof fn lemma_dsp_mode_numbering()
    ensures
        dsp_mode_from_code(0) == Some(DspMode::Auto),
        dsp_mode_from_code(1) == Some(DspMode::Filter),
        dsp_mode_from_code(2) == Some(DspMode::Fast),
        dsp_mode_from_code(3) == Some(DspMode::NoImg),
        forall|c: nat| c > 3 ==> #[trigger] dsp_mode_from_code(c) is None,
{
}

} // verus!
