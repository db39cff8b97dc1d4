//! The amplitude sweep configurations of the signal generator's main and
//! expansion modules.
use core::time::Duration;
use vstd::prelude::*;

use super::config::{
    attenuation_at, attenuation_field, khz_at, power_level_at, power_level_field, rf_power_at,
    rf_power_field, text5, Attenuation, PowerLevel, RfPower,
};
use crate::float_text::{float_text, is_float_text};
use crate::frequency::Frequency;
use crate::message::{MessageFormat, MessageParseError, ParseErrorKind};
use crate::parsers::{parse_field, split_fields, split_fields_spec, unsigned_value};
use crate::time::{duration_from_millis, duration_millis, now_millis};

verus! {

/// Main-module amplitude sweep configuration.
#[derive(Debug, Clone, Copy, PartialEq, Eq, Default)]
pub struct ConfigAmpSweep {
    /// CW frequency used during the amplitude sweep.
    pub cw: Frequency,
    /// Number of power steps in the sweep.
    pub sweep_power_steps: u16,
    /// Starting attenuation setting.
    pub start_attenuation: Attenuation,
    /// Starting output power level.
    pub start_power_level: PowerLevel,
    /// Stopping attenuation setting.
    pub stop_attenuation: Attenuation,
    /// Stopping output power level.
    pub stop_power_level: PowerLevel,
    /// RF output power state.
    pub rf_power: RfPower,
    /// Delay between amplitude sweep steps.
    pub sweep_delay: Duration,
    /// When this configuration was received, in milliseconds since the Unix epoch (UTC).
    pub timestamp: i64,
}

/// The prefix of an amplitude sweep configuration message: `#C3-A:`.
pub open spec fn config_amp_sweep_prefix() -> Seq<u8> {
    seq![35u8, 67u8, 51u8, 45u8, 65u8, 58u8]
}

/// The widths of the fields of an amplitude sweep configuration message.
pub open spec fn config_amp_sweep_widths() -> Seq<usize> {
    seq![7usize, 4, 1, 1, 1, 1, 1, 5]
}

/// True when `bytes` is an amplitude sweep configuration message: `#C3-A:`,
/// the CW frequency in kHz (7 digits), the step count (4 digits), the start
/// and stop attenuation and power level, the RF power state and the sweep
/// delay in ms (5 digits, at most 65535).
pub open spec fn config_amp_sweep_accepts(bytes: Seq<u8>) -> bool {
    match split_fields_spec(bytes, config_amp_sweep_prefix(), config_amp_sweep_widths()) {
        Some(f) => {
            &&& unsigned_value(f[0], u64::MAX as nat) is Some
            &&& unsigned_value(f[1], u16::MAX as nat) is Some
            &&& attenuation_field(f[2]) is Some
            &&& power_level_field(f[3]) is Some
            &&& attenuation_field(f[4]) is Some
            &&& power_level_field(f[5]) is Some
            &&& rf_power_field(f[6]) is Some
            &&& unsigned_value(f[7], u16::MAX as nat) is Some
        },
        None => false,
    }
}

/// True when `c` holds what the amplitude sweep configuration message `bytes`
/// says (its time stamp aside).
pub open spec fn config_amp_sweep_holds(bytes: Seq<u8>, c: ConfigAmpSweep) -> bool {
    let f = split_fields_spec(bytes, config_amp_sweep_prefix(), config_amp_sweep_widths()).unwrap();
    &&& c.cw.hz == unsigned_value(f[0], u64::MAX as nat).unwrap() * 1000
    &&& c.sweep_power_steps == unsigned_value(f[1], u16::MAX as nat).unwrap()
    &&& c.start_attenuation == attenuation_field(f[2]).unwrap()
    &&& c.start_power_level == power_level_field(f[3]).unwrap()
    &&& c.stop_attenuation == attenuation_field(f[4]).unwrap()
    &&& c.stop_power_level == power_level_field(f[5]).unwrap()
    &&& c.rf_power == rf_power_field(f[6]).unwrap()
    &&& c.sweep_delay == duration_from_millis(
        unsigned_value(f[7], u16::MAX as nat).unwrap() as u64,
    )
    &&& duration_millis(c.sweep_delay) == unsigned_value(f[7], u16::MAX as nat).unwrap()
}

impl ConfigAmpSweep {
    /// Parses an amplitude sweep configuration message, stamping it with `timestamp`.
    pub fn parse<'a>(bytes: &'a [u8], timestamp: i64) -> (r: Result<
        ConfigAmpSweep,
        MessageParseError<'a>,
    >)
        ensures
            r is Ok <==> config_amp_sweep_accepts(bytes@),
            r matches Ok(c) ==> config_amp_sweep_holds(bytes@, c) && c.timestamp == timestamp,
            r is Err ==> r == Err::<ConfigAmpSweep, MessageParseError<'a>>(
                MessageParseError::Invalid,
            ),
    {
        let prefix: [u8; 6] = [35u8, 67u8, 51u8, 45u8, 65u8, 58u8];
        let widths: [usize; 8] = [7usize, 4, 1, 1, 1, 1, 1, 5];
        assert(prefix@ == config_amp_sweep_prefix());
        assert(widths@ == config_amp_sweep_widths());
        let f = match split_fields(bytes, &prefix, &widths) {
            Some(f) => f,
            None => return Err(MessageParseError::Invalid),
        };
        assert(f@[0]@.len() == 7);
        let cw = match khz_at(&f, 0) {
            Some(v) => v,
            None => return Err(MessageParseError::Invalid),
        };
        let sweep_power_steps = match parse_field(&f, 1, u16::MAX as u64) {
            Some(v) => v as u16,
            None => return Err(MessageParseError::Invalid),
        };
        let start_attenuation = match attenuation_at(&f, 2) {
            Some(v) => v,
            None => return Err(MessageParseError::Invalid),
        };
        let start_power_level = match power_level_at(&f, 3) {
            Some(v) => v,
            None => return Err(MessageParseError::Invalid),
        };
        let stop_attenuation = match attenuation_at(&f, 4) {
            Some(v) => v,
            None => return Err(MessageParseError::Invalid),
        };
        let stop_power_level = match power_level_at(&f, 5) {
            Some(v) => v,
            None => return Err(MessageParseError::Invalid),
        };
        let rf_power = match rf_power_at(&f, 6) {
            Some(v) => v,
            None => return Err(MessageParseError::Invalid),
        };
        let sweep_delay_ms = match parse_field(&f, 7, u16::MAX as u64) {
            Some(v) => v,
            None => return Err(MessageParseError::Invalid),
        };
        Ok(
            ConfigAmpSweep {
                cw,
                sweep_power_steps,
                start_attenuation,
                start_power_level,
                stop_attenuation,
                stop_power_level,
                rf_power,
                sweep_delay: Duration::from_millis(sweep_delay_ms),
                timestamp,
            },
        )
    }

    /// Parses an amplitude sweep configuration message, stamping it with the current time.
    pub fn try_from<'a>(bytes: &'a [u8]) -> (r: Result<ConfigAmpSweep, MessageParseError<'a>>)
        ensures
            r is Ok <==> config_amp_sweep_accepts(bytes@),
            r matches Ok(c) ==> config_amp_sweep_holds(bytes@, c),
            r is Err ==> r == Err::<ConfigAmpSweep, MessageParseError<'a>>(
                MessageParseError::Invalid,
            ),
    {
        ConfigAmpSweep::parse(bytes, now_millis())
    }
}

impl MessageFormat for ConfigAmpSweep {
    open spec fn spec_accepts(bytes: Seq<u8>) -> bool {
        config_amp_sweep_accepts(bytes)
    }

    open spec fn spec_message(bytes: Seq<u8>, message: ConfigAmpSweep) -> bool {
        config_amp_sweep_holds(bytes, message)
    }

    open spec fn spec_error_kind(bytes: Seq<u8>) -> ParseErrorKind {
        ParseErrorKind::Invalid
    }

    open spec fn spec_remainder(bytes: Seq<u8>) -> Option<Seq<u8>> {
        None
    }

    fn parse_message<'a>(bytes: &'a [u8]) -> (r: Result<ConfigAmpSweep, MessageParseError<'a>>) {
        ConfigAmpSweep::try_from(bytes)
    }
}

/// Expansion-module amplitude sweep configuration.
///
/// The powers are numbers of five characters, checked to be numbers and kept
/// as the device sent them; reading their values is left to the caller.
#[derive(Debug, Clone, Copy, PartialEq, Eq, Default)]
pub struct ConfigAmpSweepExp {
    /// CW frequency used during the amplitude sweep.
    pub cw: Frequency,
    /// Starting output power in dBm, as sent.
    pub start_power_dbm: [u8; 5],
    /// Power increment per step in dB, as sent.
    pub step_power_dbm: [u8; 5],
    /// Stopping output power in dBm, as sent.
    pub stop_power_dbm: [u8; 5],
    /// Delay between amplitude sweep steps.
    pub sweep_delay: Duration,
    /// When this configuration was received, in milliseconds since the Unix epoch (UTC).
    pub timestamp: i64,
}

/// The prefix of an expansion amplitude sweep configuration message: `#C5-A:`.
pub open spec fn config_amp_sweep_exp_prefix() -> Seq<u8> {
    seq![35u8, 67u8, 53u8, 45u8, 65u8, 58u8]
}

/// The widths of the fields of an expansion amplitude sweep configuration message.
pub open spec fn config_amp_sweep_exp_widths() -> Seq<usize> {
    seq![7usize, 5, 5, 5, 5]
}

/// True when `bytes` is framed as an expansion amplitude sweep configuration
/// message: `#C5-A:`, the CW frequency in kHz (7 digits), the start, step and
/// stop powers (numbers of five characters each) and the sweep delay in ms (5 digits, at
/// most 65535).
pub open spec fn config_amp_sweep_exp_accepts(bytes: Seq<u8>) -> bool {
    match split_fields_spec(bytes, config_amp_sweep_exp_prefix(), config_amp_sweep_exp_widths()) {
        Some(f) => {
            &&& unsigned_value(f[0], u64::MAX as nat) is Some
            &&& float_text(f[1])
            &&& float_text(f[2])
            &&& float_text(f[3])
            &&& unsigned_value(f[4], u16::MAX as nat) is Some
        },
        None => false,
    }
}

/// True when `c` holds what the expansion amplitude sweep configuration
/// message `bytes` says (its time stamp aside).
pub open spec fn config_amp_sweep_exp_holds(bytes: Seq<u8>, c: ConfigAmpSweepExp) -> bool {
    let f = split_fields_spec(
        bytes,
        config_amp_sweep_exp_prefix(),
        config_amp_sweep_exp_widths(),
    ).unwrap();
    &&& c.cw.hz == unsigned_value(f[0], u64::MAX as nat).unwrap() * 1000
    &&& c.start_power_dbm@ == f[1]
    &&& c.step_power_dbm@ == f[2]
    &&& c.stop_power_dbm@ == f[3]
    &&& c.sweep_delay == duration_from_millis(
        unsigned_value(f[4], u16::MAX as nat).unwrap() as u64,
    )
    &&& duration_millis(c.sweep_delay) == unsigned_value(f[4], u16::MAX as nat).unwrap()
}

impl ConfigAmpSweepExp {
    /// Parses an expansion amplitude sweep configuration message, stamping it with `timestamp`.
    pub fn parse<'a>(bytes: &'a [u8], timestamp: i64) -> (r: Result<
        ConfigAmpSweepExp,
        MessageParseError<'a>,
    >)
        ensures
            r is Ok <==> config_amp_sweep_exp_accepts(bytes@),
            r matches Ok(c) ==> config_amp_sweep_exp_holds(bytes@, c) && c.timestamp == timestamp,
            r is Err ==> r == Err::<ConfigAmpSweepExp, MessageParseError<'a>>(
                MessageParseError::Invalid,
            ),
    {
        let prefix: [u8; 6] = [35u8, 67u8, 53u8, 45u8, 65u8, 58u8];
        let widths: [usize; 5] = [7usize, 5, 5, 5, 5];
        assert(prefix@ == config_amp_sweep_exp_prefix());
        assert(widths@ == config_amp_sweep_exp_widths());
        let f = match split_fields(bytes, &prefix, &widths) {
            Some(f) => f,
            None => return Err(MessageParseError::Invalid),
        };
        assert(f@[0]@.len() == 7);
        assert(f@[1]@.len() == 5 && f@[2]@.len() == 5 && f@[3]@.len() == 5);
        let cw = match khz_at(&f, 0) {
            Some(v) => v,
            None => return Err(MessageParseError::Invalid),
        };
        if !(is_float_text(f[1]) && is_float_text(f[2]) && is_float_text(f[3])) {
            return Err(MessageParseError::Invalid);
        }
        let sweep_delay_ms = match parse_field(&f, 4, u16::MAX as u64) {
            Some(v) => v,
            None => return Err(MessageParseError::Invalid),
        };
        Ok(
            ConfigAmpSweepExp {
                cw,
                start_power_dbm: text5(f[1]),
                step_power_dbm: text5(f[2]),
                stop_power_dbm: text5(f[3]),
                sweep_delay: Duration::from_millis(sweep_delay_ms),
                timestamp,
            },
        )
    }

    /// Parses an expansion amplitude sweep configuration message, stamping it
    /// with the current time.
    pub fn try_from<'a>(bytes: &'a [u8]) -> (r: Result<ConfigAmpSweepExp, MessageParseError<'a>>)
        ensures
            r is Ok <==> config_amp_sweep_exp_accepts(bytes@),
            r matches Ok(c) ==> config_amp_sweep_exp_holds(bytes@, c),
            r is Err ==> r == Err::<ConfigAmpSweepExp, MessageParseError<'a>>(
                MessageParseError::Invalid,
            ),
    {
        ConfigAmpSweepExp::parse(bytes, now_millis())
    }
}

impl MessageFormat for ConfigAmpSweepExp {
    open spec fn spec_accepts(bytes: Seq<u8>) -> bool {
        config_amp_sweep_exp_accepts(bytes)
    }

    open spec fn spec_message(bytes: Seq<u8>, message: ConfigAmpSweepExp) -> bool {
        config_amp_sweep_exp_holds(bytes, message)
    }

    open spec fn spec_error_kind(bytes: Seq<u8>) -> ParseErrorKind {
        ParseErrorKind::Invalid
    }

    open spec fn spec_remainder(bytes: Seq<u8>) -> Option<Seq<u8>> {
        None
    }

    fn parse_message<'a>(bytes: &'a [u8]) -> (r: Result<ConfigAmpSweepExp, MessageParseError<'a>>) {
        ConfigAmpSweepExp::try_from(bytes)
    }
}

} // verus!
