//! The CW configurations of the signal generator's main and expansion modules.
use vstd::prelude::*;

use super::config::{
    attenuation_at, attenuation_field, khz_at, power_level_at, power_level_field, rf_power_at,
    rf_power_field, text5, Attenuation, PowerLevel, RfPower,
};
use crate::float_text::{float_text, is_float_text};
use crate::frequency::Frequency;
use crate::message::{MessageFormat, MessageParseError, ParseErrorKind};
use crate::parsers::{parse_field, split_fields, split_fields_spec, unsigned_value};
use crate::time::now_millis;

verus! {

/// Main-module CW (continuous wave) configuration.
#[derive(Debug, Clone, Copy, PartialEq, Eq, Default)]
pub struct ConfigCw {
    /// CW frequency.
    pub cw: Frequency,
    /// Total number of steps.
    pub total_steps: u32,
    /// Frequency increment per step.
    pub step_freq: Frequency,
    /// Attenuation setting.
    pub attenuation: Attenuation,
    /// Output power level.
    pub power_level: PowerLevel,
    /// RF output power state.
    pub rf_power: RfPower,
    /// When this configuration was received, in milliseconds since the Unix epoch (UTC).
    pub timestamp: i64,
}

/// The prefix of a CW configuration message: `#C3-G:`.
pub open spec fn config_cw_prefix() -> Seq<u8> {
    seq![35u8, 67u8, 51u8, 45u8, 71u8, 58u8]
}

/// The widths of the fields of a CW configuration message.
pub open spec fn config_cw_widths() -> Seq<usize> {
    seq![7usize, 7, 4, 7, 1, 1, 1]
}

/// True when `bytes` is a CW configuration message: `#C3-G:`, the CW
/// frequency in kHz twice (7 digits each), the step count (4 digits), the step
/// frequency in kHz (7 digits), the attenuation, the power level and the RF
/// power state.
pub open spec fn config_cw_accepts(bytes: Seq<u8>) -> bool {
    match split_fields_spec(bytes, config_cw_prefix(), config_cw_widths()) {
        Some(f) => {
            &&& unsigned_value(f[0], u64::MAX as nat) is Some
            &&& unsigned_value(f[1], u64::MAX as nat) is Some
            &&& unsigned_value(f[2], u32::MAX as nat) is Some
            &&& unsigned_value(f[3], u64::MAX as nat) is Some
            &&& attenuation_field(f[4]) is Some
            &&& power_level_field(f[5]) is Some
            &&& rf_power_field(f[6]) is Some
        },
        None => false,
    }
}

/// True when `c` holds what the CW configuration message `bytes` says (its
/// time stamp aside); the second copy of the CW frequency is read and dropped.
pub open spec fn config_cw_holds(bytes: Seq<u8>, c: ConfigCw) -> bool {
    let f = split_fields_spec(bytes, config_cw_prefix(), config_cw_widths()).unwrap();
    &&& c.cw.hz == unsigned_value(f[0], u64::MAX as nat).unwrap() * 1000
    &&& c.total_steps == unsigned_value(f[2], u32::MAX as nat).unwrap()
    &&& c.step_freq.hz == unsigned_value(f[3], u64::MAX as nat).unwrap() * 1000
    &&& c.attenuation == attenuation_field(f[4]).unwrap()
    &&& c.power_level == power_level_field(f[5]).unwrap()
    &&& c.rf_power == rf_power_field(f[6]).unwrap()
}

impl ConfigCw {
    /// Parses a CW configuration message, stamping it with `timestamp`.
    pub fn parse<'a>(bytes: &'a [u8], timestamp: i64) -> (r: Result<ConfigCw, MessageParseError<'a>>)
        ensures
            r is Ok <==> config_cw_accepts(bytes@),
            r matches Ok(c) ==> config_cw_holds(bytes@, c) && c.timestamp == timestamp,
            r is Err ==> r == Err::<ConfigCw, MessageParseError<'a>>(MessageParseError::Invalid),
    {
        let prefix: [u8; 6] = [35u8, 67u8, 51u8, 45u8, 71u8, 58u8];
        let widths: [usize; 7] = [7usize, 7, 4, 7, 1, 1, 1];
        assert(prefix@ == config_cw_prefix());
        assert(widths@ == config_cw_widths());
        let f = match split_fields(bytes, &prefix, &widths) {
            Some(f) => f,
            None => return Err(MessageParseError::Invalid),
        };
        assert(f@[0]@.len() == 7 && f@[3]@.len() == 7);
        let cw = match khz_at(&f, 0) {
            Some(v) => v,
            None => return Err(MessageParseError::Invalid),
        };
        // The CW frequency is sent twice. Ignore the second occurrence.
        if parse_field(&f, 1, u64::MAX).is_none() {
            return Err(MessageParseError::Invalid);
        }
        let total_steps = match parse_field(&f, 2, u32::MAX as u64) {
            Some(v) => v as u32,
            None => return Err(MessageParseError::Invalid),
        };
        let step_freq = match khz_at(&f, 3) {
            Some(v) => v,
            None => return Err(MessageParseError::Invalid),
        };
        let attenuation = match attenuation_at(&f, 4) {
            Some(v) => v,
            None => return Err(MessageParseError::Invalid),
        };
        let power_level = match power_level_at(&f, 5) {
            Some(v) => v,
            None => return Err(MessageParseError::Invalid),
        };
        let rf_power = match rf_power_at(&f, 6) {
            Some(v) => v,
            None => return Err(MessageParseError::Invalid),
        };
        Ok(ConfigCw { cw, total_steps, step_freq, attenuation, power_level, rf_power, timestamp })
    }

    /// Parses a CW configuration message, stamping it with the current time.
    pub fn try_from<'a>(bytes: &'a [u8]) -> (r: Result<ConfigCw, MessageParseError<'a>>)
        ensures
            r is Ok <==> config_cw_accepts(bytes@),
            r matches Ok(c) ==> config_cw_holds(bytes@, c),
            r is Err ==> r == Err::<ConfigCw, MessageParseError<'a>>(MessageParseError::Invalid),
    {
        ConfigCw::parse(bytes, now_millis())
    }
}

impl MessageFormat for ConfigCw {
    open spec fn spec_accepts(bytes: Seq<u8>) -> bool {
        config_cw_accepts(bytes)
    }

    open spec fn spec_message(bytes: Seq<u8>, message: ConfigCw) -> bool {
        config_cw_holds(bytes, message)
    }

    open spec fn spec_error_kind(bytes: Seq<u8>) -> ParseErrorKind {
        ParseErrorKind::Invalid
    }

    open spec fn spec_remainder(bytes: Seq<u8>) -> Option<Seq<u8>> {
        None
    }

    fn parse_message<'a>(bytes: &'a [u8]) -> (r: Result<ConfigCw, MessageParseError<'a>>) {
        ConfigCw::try_from(bytes)
    }
}

/// Expansion-module CW configuration.
///
/// The power is a number of five characters, checked to be a number and kept
/// as the device sent it; reading its value is left to the caller.
#[derive(Debug, Clone, Copy, PartialEq, Eq, Default)]
pub struct ConfigCwExp {
    /// CW frequency.
    pub cw: Frequency,
    /// Output power in dBm, as sent.
    pub power_dbm: [u8; 5],
    /// RF output power state.
    pub rf_power: RfPower,
    /// When this configuration was received, in milliseconds since the Unix epoch (UTC).
    pub timestamp: i64,
}

/// The prefix of an expansion CW configuration message: `#C5-G:`.
pub open spec fn config_cw_exp_prefix() -> Seq<u8> {
    seq![35u8, 67u8, 53u8, 45u8, 71u8, 58u8]
}

/// The widths of the fields of an expansion CW configuration message.
pub open spec fn config_cw_exp_widths() -> Seq<usize> {
    seq![7usize, 5, 1]
}

/// True when `bytes` is framed as an expansion CW configuration message:
/// `#C5-G:`, the CW frequency in kHz (7 digits), the power (a number of five characters)
/// and the RF power state.
pub open spec fn config_cw_exp_accepts(bytes: Seq<u8>) -> bool {
    match split_fields_spec(bytes, config_cw_exp_prefix(), config_cw_exp_widths()) {
        Some(f) => {
            &&& unsigned_value(f[0], u64::MAX as nat) is Some
            &&& float_text(f[1])
            &&& rf_power_field(f[2]) is Some
        },
        None => false,
    }
}

/// True when `c` holds what the expansion CW configuration message `bytes`
/// says (its time stamp aside).
pub open spec fn config_cw_exp_holds(bytes: Seq<u8>, c: ConfigCwExp) -> bool {
    let f = split_fields_spec(bytes, config_cw_exp_prefix(), config_cw_exp_widths()).unwrap();
    &&& c.cw.hz == unsigned_value(f[0], u64::MAX as nat).unwrap() * 1000
    &&& c.power_dbm@ == f[1]
    &&& c.rf_power == rf_power_field(f[2]).unwrap()
}

impl ConfigCwExp {
    /// Parses an expansion CW configuration message, stamping it with `timestamp`.
    pub fn parse<'a>(bytes: &'a [u8], timestamp: i64) -> (r: Result<
        ConfigCwExp,
        MessageParseError<'a>,
    >)
        ensures
            r is Ok <==> config_cw_exp_accepts(bytes@),
            r matches Ok(c) ==> config_cw_exp_holds(bytes@, c) && c.timestamp == timestamp,
            r is Err ==> r == Err::<ConfigCwExp, MessageParseError<'a>>(MessageParseError::Invalid),
    {
        let prefix: [u8; 6] = [35u8, 67u8, 53u8, 45u8, 71u8, 58u8];
        let widths: [usize; 3] = [7usize, 5, 1];
        assert(prefix@ == config_cw_exp_prefix());
        assert(widths@ == config_cw_exp_widths());
        let f = match split_fields(bytes, &prefix, &widths) {
            Some(f) => f,
            None => return Err(MessageParseError::Invalid),
        };
        assert(f@[0]@.len() == 7 && f@[1]@.len() == 5);
        let cw = match khz_at(&f, 0) {
            Some(v) => v,
            None => return Err(MessageParseError::Invalid),
        };
        if !is_float_text(f[1]) {
            return Err(MessageParseError::Invalid);
        }
        let rf_power = match rf_power_at(&f, 2) {
            Some(v) => v,
            None => return Err(MessageParseError::Invalid),
        };
        Ok(ConfigCwExp { cw, power_dbm: text5(f[1]), rf_power, timestamp })
    }

    /// Parses an expansion CW configuration message, stamping it with the current time.
    pub fn try_from<'a>(bytes: &'a [u8]) -> (r: Result<ConfigCwExp, MessageParseError<'a>>)
        ensures
            r is Ok <==> config_cw_exp_accepts(bytes@),
            r matches Ok(c) ==> config_cw_exp_holds(bytes@, c),
            r is Err ==> r == Err::<ConfigCwExp, MessageParseError<'a>>(MessageParseError::Invalid),
    {
        ConfigCwExp::parse(bytes, now_millis())
    }
}

impl MessageFormat for ConfigCwExp {
    open spec fn spec_accepts(bytes: Seq<u8>) -> bool {
        config_cw_exp_accepts(bytes)
    }

    open spec fn spec_message(bytes: Seq<u8>, message: ConfigCwExp) -> bool {
        config_cw_exp_holds(bytes, message)
    }

    open spec fn spec_error_kind(bytes: Seq<u8>) -> ParseErrorKind {
        ParseErrorKind::Invalid
    }

    open spec fn spec_remainder(bytes: Seq<u8>) -> Option<Seq<u8>> {
        None
    }

    fn parse_message<'a>(bytes: &'a [u8]) -> (r: Result<ConfigCwExp, MessageParseError<'a>>) {
        ConfigCwExp::try_from(bytes)
    }
}

} // verus!
