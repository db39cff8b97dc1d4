//! The signal generator's settings and its main and expansion configurations.
use core::time::Duration;
use vstd::prelude::*;

use crate::float_text::{float_text, is_float_text};
use crate::frequency::Frequency;
use crate::message::{MessageFormat, MessageParseError, ParseErrorKind};
use crate::parsers::{
    lemma_unsigned_value_bound, parse_field, pow10, split_fields, split_fields_spec,
    unsigned_value,
};
use crate::time::{duration_from_millis, duration_millis, now_millis};

verus! {

/// RF output attenuation state.
#[derive(Debug, Clone, Copy, PartialEq, Eq, Structural, Default)]
pub enum Attenuation {
    /// Attenuation is enabled.
    #[default]
    On,
    /// Attenuation is disabled.
    Off,
}

/// Discrete RF output power level.
#[derive(Debug, Clone, Copy, PartialEq, Eq, Structural, Default)]
pub enum PowerLevel {
    /// Lowest output power.
    #[default]
    Lowest,
    /// Low output power.
    Low,
    /// High output power.
    High,
    /// Highest output power.
    Highest,
}

/// RF output power state.
#[derive(Debug, Clone, Copy, PartialEq, Eq, Structural, Default)]
pub enum RfPower {
    /// RF output is enabled.
    On,
    /// RF output is disabled.
    #[default]
    Off,
}

/// The attenuation state with the number `code`: 0 for on, 1 for off.
pub open spec fn attenuation_from_code(code: nat) -> Option<Attenuation> {
    if code == 0 {
        Some(Attenuation::On)
    } else if code == 1 {
        Some(Attenuation::Off)
    } else {
        None
    }
}

/// The power level with the number `code`, from 0 (lowest) to 3 (highest).
pub open spec fn power_level_from_code(code: nat) -> Option<PowerLevel> {
    if code == 0 {
        Some(PowerLevel::Lowest)
    } else if code == 1 {
        Some(PowerLevel::Low)
    } else if code == 2 {
        Some(PowerLevel::High)
    } else if code == 3 {
        Some(PowerLevel::Highest)
    } else {
        None
    }
}

/// The RF power state with the number `code`: 0 for on, 1 for off.
pub open spec fn rf_power_from_code(code: nat) -> Option<RfPower> {
    if code == 0 {
        Some(RfPower::On)
    } else if code == 1 {
        Some(RfPower::Off)
    } else {
        None
    }
}

/// The attenuation state that a one-character field holds.
pub open spec fn attenuation_field(f: Seq<u8>) -> Option<Attenuation> {
    match unsigned_value(f, 255) {
        Some(code) => attenuation_from_code(code),
        None => None,
    }
}

/// The power level that a one-character field holds.
pub open spec fn power_level_field(f: Seq<u8>) -> Option<PowerLevel> {
    match unsigned_value(f, 255) {
        Some(code) => power_level_from_code(code),
        None => None,
    }
}

/// The RF power state that a one-character field holds.
pub open spec fn rf_power_field(f: Seq<u8>) -> Option<RfPower> {
    match unsigned_value(f, 255) {
        Some(code) => rf_power_from_code(code),
        None => None,
    }
}

impl Attenuation {
    /// The number by which the device names the state.
    pub fn code(&self) -> (c: u8)
        ensures
            attenuation_from_code(c as nat) == Some(*self),
    {
        match self {
            Attenuation::On => 0,
            Attenuation::Off => 1,
        }
    }

    /// The state with the number `code`.
    pub fn from_code(code: u8) -> (r: Option<Attenuation>)
        ensures
            r == attenuation_from_code(code as nat),
    {
        match code {
            0 => Some(Attenuation::On),
            1 => Some(Attenuation::Off),
            _ => None,
        }
    }
}

impl PowerLevel {
    /// The number by which the device names the level.
    pub fn code(&self) -> (c: u8)
        ensures
            power_level_from_code(c as nat) == Some(*self),
    {
        match self {
            PowerLevel::Lowest => 0,
            PowerLevel::Low => 1,
            PowerLevel::High => 2,
            PowerLevel::Highest => 3,
        }
    }

    /// The level with the number `code`.
    pub fn from_code(code: u8) -> (r: Option<PowerLevel>)
        ensures
            r == power_level_from_code(code as nat),
    {
        match code {
            0 => Some(PowerLevel::Lowest),
            1 => Some(PowerLevel::Low),
            2 => Some(PowerLevel::High),
            3 => Some(PowerLevel::Highest),
            _ => None,
        }
    }
}

impl RfPower {
    /// The number by which the device names the state.
    pub fn code(&self) -> (c: u8)
        ensures
            rf_power_from_code(c as nat) == Some(*self),
    {
        match self {
            RfPower::On => 0,
            RfPower::Off => 1,
        }
    }

    /// The state with the number `code`.
    pub fn from_code(code: u8) -> (r: Option<RfPower>)
        ensures
            r == rf_power_from_code(code as nat),
    {
        match code {
            0 => Some(RfPower::On),
            1 => Some(RfPower::Off),
            _ => None,
        }
    }
}

/// Reads field `i` as a one-digit attenuation state.
pub(crate) fn attenuation_at(fields: &Vec<&[u8]>, i: usize) -> (r: Option<Attenuation>)
    requires
        i < fields@.len(),
    ensures
        r == attenuation_field(fields@[i as int]@),
{
    match parse_field(fields, i, 255) {
        Some(code) => Attenuation::from_code(code as u8),
        None => None,
    }
}

/// Reads field `i` as a one-digit power level.
pub(crate) fn power_level_at(fields: &Vec<&[u8]>, i: usize) -> (r: Option<PowerLevel>)
    requires
        i < fields@.len(),
    ensures
        r == power_level_field(fields@[i as int]@),
{
    match parse_field(fields, i, 255) {
        Some(code) => PowerLevel::from_code(code as u8),
        None => None,
    }
}

/// Reads field `i` as a one-digit RF power state.
pub(crate) fn rf_power_at(fields: &Vec<&[u8]>, i: usize) -> (r: Option<RfPower>)
    requires
        i < fields@.len(),
    ensures
        r == rf_power_field(fields@[i as int]@),
{
    match parse_field(fields, i, 255) {
        Some(code) => RfPower::from_code(code as u8),
        None => None,
    }
}

/// Reads field `i`, seven characters long, as a frequency in kilohertz.
pub(crate) fn khz_at(fields: &Vec<&[u8]>, i: usize) -> (r: Option<Frequency>)
    requires
        i < fields@.len(),
        fields@[i as int]@.len() == 7,
    ensures
        r is Some <==> unsigned_value(fields@[i as int]@, u64::MAX as nat) is Some,
        r matches Some(f) ==> f.hz == unsigned_value(fields@[i as int]@, u64::MAX as nat).unwrap()
            * 1000,
{
    match parse_field(fields, i, u64::MAX) {
        Some(khz) => {
            proof {
                lemma_unsigned_value_bound(fields@[i as int]@, u64::MAX as nat);
                reveal_with_fuel(pow10, 8);
            }
            Some(Frequency::from_khz(khz))
        },
        None => None,
    }
}

/// Main-module signal generator configuration.
#[derive(Debug, Clone, Copy, PartialEq, Eq, Default)]
pub struct Config {
    /// Start frequency for frequency sweep and tracking modes.
    pub start: Frequency,
    /// CW frequency.
    pub cw: Frequency,
    /// Total number of sweep or tracking steps.
    pub total_steps: u32,
    /// Frequency increment per step.
    pub step: Frequency,
    /// CW and frequency sweep attenuation setting.
    pub attenuation: Attenuation,
    /// CW and frequency sweep power level.
    pub power_level: PowerLevel,
    /// Number of amplitude sweep power steps.
    pub sweep_power_steps: u16,
    /// Amplitude sweep start attenuation setting.
    pub start_attenuation: Attenuation,
    /// Amplitude sweep start power level.
    pub start_power_level: PowerLevel,
    /// Amplitude sweep stop attenuation setting.
    pub stop_attenuation: Attenuation,
    /// Amplitude sweep stop power level.
    pub stop_power_level: PowerLevel,
    /// RF output power state.
    pub rf_power: RfPower,
    /// Delay between sweep steps.
    pub sweep_delay: Duration,
    /// When this configuration was received, in milliseconds since the Unix epoch (UTC).
    pub timestamp: i64,
}

/// The prefix of a configuration message: `#C3-*:`.
pub open spec fn config_prefix() -> Seq<u8> {
    seq![35u8, 67u8, 51u8, 45u8, 42u8, 58u8]
}

/// The widths of the fields of a configuration message.
pub open spec fn config_widths() -> Seq<usize> {
    seq![7usize, 7, 4, 7, 1, 1, 4, 1, 1, 1, 1, 1, 5]
}

/// True when `bytes` is a configuration message: `#C3-*:`, then the start,
/// CW and step frequencies in kHz (7 digits each, with the step count of 4
/// digits before the step), the attenuation and power level, the amplitude
/// sweep's step count (4 digits), start and stop attenuation and power level,
/// the RF power state and the sweep delay in ms (5 digits, at most 65535).
pub open spec fn config_accepts(bytes: Seq<u8>) -> bool {
    match split_fields_spec(bytes, config_prefix(), config_widths()) {
        Some(f) => {
            &&& unsigned_value(f[0], u64::MAX as nat) is Some
            &&& unsigned_value(f[1], u64::MAX as nat) is Some
            &&& unsigned_value(f[2], u32::MAX as nat) is Some
            &&& unsigned_value(f[3], u64::MAX as nat) is Some
            &&& attenuation_field(f[4]) is Some
            &&& power_level_field(f[5]) is Some
            &&& unsigned_value(f[6], u16::MAX as nat) is Some
            &&& attenuation_field(f[7]) is Some
            &&& power_level_field(f[8]) is Some
            &&& attenuation_field(f[9]) is Some
            &&& power_level_field(f[10]) is Some
            &&& rf_power_field(f[11]) is Some
            &&& unsigned_value(f[12], u16::MAX as nat) is Some
        },
        None => false,
    }
}

/// True when `c` holds what the configuration message `bytes` says (its time
/// stamp aside).
pub open spec fn config_holds(bytes: Seq<u8>, c: Config) -> bool {
    let f = split_fields_spec(bytes, config_prefix(), config_widths()).unwrap();
    &&& c.start.hz == unsigned_value(f[0], u64::MAX as nat).unwrap() * 1000
    &&& c.cw.hz == unsigned_value(f[1], u64::MAX as nat).unwrap() * 1000
    &&& c.total_steps == unsigned_value(f[2], u32::MAX as nat).unwrap()
    &&& c.step.hz == unsigned_value(f[3], u64::MAX as nat).unwrap() * 1000
    &&& c.attenuation == attenuation_field(f[4]).unwrap()
    &&& c.power_level == power_level_field(f[5]).unwrap()
    &&& c.sweep_power_steps == unsigned_value(f[6], u16::MAX as nat).unwrap()
    &&& c.start_attenuation == attenuation_field(f[7]).unwrap()
    &&& c.start_power_level == power_level_field(f[8]).unwrap()
    &&& c.stop_attenuation == attenuation_field(f[9]).unwrap()
    &&& c.stop_power_level == power_level_field(f[10]).unwrap()
    &&& c.rf_power == rf_power_field(f[11]).unwrap()
    &&& c.sweep_delay == duration_from_millis(
        unsigned_value(f[12], u16::MAX as nat).unwrap() as u64,
    )
    &&& duration_millis(c.sweep_delay) == unsigned_value(f[12], u16::MAX as nat).unwrap()
}

impl Config {
    /// Parses a configuration message, stamping it with `timestamp`.
    #[verifier::rlimit(30)]
    pub fn parse<'a>(bytes: &'a [u8], timestamp: i64) -> (r: Result<Config, MessageParseError<'a>>)
        ensures
            r is Ok <==> config_accepts(bytes@),
            r matches Ok(c) ==> config_holds(bytes@, c) && c.timestamp == timestamp,
            r is Err ==> r == Err::<Config, MessageParseError<'a>>(MessageParseError::Invalid),
    {
        let prefix: [u8; 6] = [35u8, 67u8, 51u8, 45u8, 42u8, 58u8];
        let widths: [usize; 13] = [7usize, 7, 4, 7, 1, 1, 4, 1, 1, 1, 1, 1, 5];
        assert(prefix@ == config_prefix());
        assert(widths@ == config_widths());
        let f = match split_fields(bytes, &prefix, &widths) {
            Some(f) => f,
            None => return Err(MessageParseError::Invalid),
        };
        assert(f@[0]@.len() == 7 && f@[1]@.len() == 7 && f@[3]@.len() == 7);
        let start = match khz_at(&f, 0) {
            Some(v) => v,
            None => return Err(MessageParseError::Invalid),
        };
        let cw = match khz_at(&f, 1) {
            Some(v) => v,
            None => return Err(MessageParseError::Invalid),
        };
        let total_steps = match parse_field(&f, 2, u32::MAX as u64) {
            Some(v) => v as u32,
            None => return Err(MessageParseError::Invalid),
        };
        let step = match khz_at(&f, 3) {
            Some(v) => v,
            None => return Err(MessageParseError::Invalid),
        };
        let attenuation = match attenuation_at(&f, 4) {
            Some(v) => v,
            None => return Err(MessageParseError::Invalid),
        };
        let power_level = match power_level_at(&f, 5) {
            Some(v) => v,
            None => return Err(MessageParseError::Invalid),
        };
        let sweep_power_steps = match parse_field(&f, 6, u16::MAX as u64) {
            Some(v) => v as u16,
            None => return Err(MessageParseError::Invalid),
        };
        let start_attenuation = match attenuation_at(&f, 7) {
            Some(v) => v,
            None => return Err(MessageParseError::Invalid),
        };
        let start_power_level = match power_level_at(&f, 8) {
            Some(v) => v,
            None => return Err(MessageParseError::Invalid),
        };
        let stop_attenuation = match attenuation_at(&f, 9) {
            Some(v) => v,
            None => return Err(MessageParseError::Invalid),
        };
        let stop_power_level = match power_level_at(&f, 10) {
            Some(v) => v,
            None => return Err(MessageParseError::Invalid),
        };
        let rf_power = match rf_power_at(&f, 11) {
            Some(v) => v,
            None => return Err(MessageParseError::Invalid),
        };
        let sweep_delay_ms = match parse_field(&f, 12, u16::MAX as u64) {
            Some(v) => v,
            None => return Err(MessageParseError::Invalid),
        };
        Ok(
            Config {
                start,
                cw,
                total_steps,
                step,
                attenuation,
                power_level,
                sweep_power_steps,
                start_attenuation,
                start_power_level,
                stop_attenuation,
                stop_power_level,
                rf_power,
                sweep_delay: Duration::from_millis(sweep_delay_ms),
                timestamp,
            },
        )
    }

    /// Parses a configuration message, stamping it with the current time.
    pub fn try_from<'a>(bytes: &'a [u8]) -> (r: Result<Config, MessageParseError<'a>>)
        ensures
            r is Ok <==> config_accepts(bytes@),
            r matches Ok(c) ==> config_holds(bytes@, c),
            r is Err ==> r == Err::<Config, MessageParseError<'a>>(MessageParseError::Invalid),
    {
        Config::parse(bytes, now_millis())
    }
}

impl MessageFormat for Config {
    open spec fn spec_accepts(bytes: Seq<u8>) -> bool {
        config_accepts(bytes)
    }

    open spec fn spec_message(bytes: Seq<u8>, message: Config) -> bool {
        config_holds(bytes, message)
    }

    open spec fn spec_error_kind(bytes: Seq<u8>) -> ParseErrorKind {
        ParseErrorKind::Invalid
    }

    open spec fn spec_remainder(bytes: Seq<u8>) -> Option<Seq<u8>> {
        None
    }

    fn parse_message<'a>(bytes: &'a [u8]) -> (r: Result<Config, MessageParseError<'a>>) {
        Config::try_from(bytes)
    }
}

/// Copies a five-byte field.
pub(crate) fn text5(field: &[u8]) -> (t: [u8; 5])
    requires
        field@.len() == 5,
    ensures
        t@ == field@,
{
    let t = [field[0], field[1], field[2], field[3], field[4]];
    assert(t@ =~= field@);
    t
}

/// Expansion-module signal generator configuration.
///
/// The expansion module states its powers in dBm as numbers of five
/// characters (such as `-10.5` or `+05.0`). They are checked to be numbers and
/// kept as the device sent them; reading their values is left to the caller.
#[derive(Debug, Clone, Copy, PartialEq, Eq, Default)]
pub struct ConfigExp {
    /// Start frequency for frequency sweep and tracking modes.
    pub start: Frequency,
    /// CW frequency.
    pub cw: Frequency,
    /// Total number of sweep or tracking steps.
    pub total_steps: u32,
    /// Frequency increment per step.
    pub step: Frequency,
    /// Current output power in dBm, as sent.
    pub power_dbm: [u8; 5],
    /// Power increment per amplitude sweep step in dB, as sent.
    pub step_power_dbm: [u8; 5],
    /// Amplitude sweep start power in dBm, as sent.
    pub start_power_dbm: [u8; 5],
    /// Amplitude sweep stop power in dBm, as sent.
    pub stop_power_dbm: [u8; 5],
    /// Whether RF output power is enabled.
    pub rf_power_on: bool,
    /// Delay between sweep steps.
    pub sweep_delay: Duration,
    /// When this configuration was received, in milliseconds since the Unix epoch (UTC).
    pub timestamp: i64,
}

/// The prefix of an expansion configuration message: `#C5-*:`.
pub open spec fn config_exp_prefix() -> Seq<u8> {
    seq![35u8, 67u8, 53u8, 45u8, 42u8, 58u8]
}

/// The widths of the fields of an expansion configuration message.
pub open spec fn config_exp_widths() -> Seq<usize> {
    seq![7usize, 7, 4, 7, 5, 5, 5, 5, 1, 5]
}

/// True when `bytes` is framed as an expansion configuration message:
/// `#C5-*:`, the start, CW and step frequencies in kHz (7 digits each, with
/// the step count of 4 digits before the step), four powers of five
/// characters, the RF power state (one character, `0` for on) and the sweep
/// delay in ms (5 digits, at most 65535); each power is the text of a number.
pub open spec fn config_exp_accepts(bytes: Seq<u8>) -> bool {
    match split_fields_spec(bytes, config_exp_prefix(), config_exp_widths()) {
        Some(f) => {
            &&& unsigned_value(f[0], u64::MAX as nat) is Some
            &&& unsigned_value(f[1], u64::MAX as nat) is Some
            &&& unsigned_value(f[2], u32::MAX as nat) is Some
            &&& unsigned_value(f[3], u64::MAX as nat) is Some
            &&& float_text(f[4])
            &&& float_text(f[5])
            &&& float_text(f[6])
            &&& float_text(f[7])
            &&& unsigned_value(f[9], u16::MAX as nat) is Some
        },
        None => false,
    }
}

/// True when `c` holds what the expansion configuration message `bytes` says
/// (its time stamp aside).
pub open spec fn config_exp_holds(bytes: Seq<u8>, c: ConfigExp) -> bool {
    let f = split_fields_spec(bytes, config_exp_prefix(), config_exp_widths()).unwrap();
    &&& c.start.hz == unsigned_value(f[0], u64::MAX as nat).unwrap() * 1000
    &&& c.cw.hz == unsigned_value(f[1], u64::MAX as nat).unwrap() * 1000
    &&& c.total_steps == unsigned_value(f[2], u32::MAX as nat).unwrap()
    &&& c.step.hz == unsigned_value(f[3], u64::MAX as nat).unwrap() * 1000
    &&& c.power_dbm@ == f[4]
    &&& c.step_power_dbm@ == f[5]
    &&& c.start_power_dbm@ == f[6]
    &&& c.stop_power_dbm@ == f[7]
    &&& c.rf_power_on == (f[8][0] == 48u8)
    &&& c.sweep_delay == duration_from_millis(
        unsigned_value(f[9], u16::MAX as nat).unwrap() as u64,
    )
    &&& duration_millis(c.sweep_delay) == unsigned_value(f[9], u16::MAX as nat).unwrap()
}

impl ConfigExp {
    /// Parses an expansion configuration message, stamping it with `timestamp`.
    #[verifier::rlimit(30)]
    pub fn parse<'a>(bytes: &'a [u8], timestamp: i64) -> (r: Result<ConfigExp, MessageParseError<'a>>)
        ensures
            r is Ok <==> config_exp_accepts(bytes@),
            r matches Ok(c) ==> config_exp_holds(bytes@, c) && c.timestamp == timestamp,
            r is Err ==> r == Err::<ConfigExp, MessageParseError<'a>>(MessageParseError::Invalid),
    {
        let prefix: [u8; 6] = [35u8, 67u8, 53u8, 45u8, 42u8, 58u8];
        let widths: [usize; 10] = [7usize, 7, 4, 7, 5, 5, 5, 5, 1, 5];
        assert(prefix@ == config_exp_prefix());
        assert(widths@ == config_exp_widths());
        let f = match split_fields(bytes, &prefix, &widths) {
            Some(f) => f,
            None => return Err(MessageParseError::Invalid),
        };
        assert(f@[0]@.len() == 7 && f@[1]@.len() == 7 && f@[3]@.len() == 7);
        assert(f@[4]@.len() == 5 && f@[5]@.len() == 5 && f@[6]@.len() == 5 && f@[7]@.len() == 5);
        assert(f@[8]@.len() == 1);
        let start = match khz_at(&f, 0) {
            Some(v) => v,
            None => return Err(MessageParseError::Invalid),
        };
        let cw = match khz_at(&f, 1) {
            Some(v) => v,
            None => return Err(MessageParseError::Invalid),
        };
        let total_steps = match parse_field(&f, 2, u32::MAX as u64) {
            Some(v) => v as u32,
            None => return Err(MessageParseError::Invalid),
        };
        let step = match khz_at(&f, 3) {
            Some(v) => v,
            None => return Err(MessageParseError::Invalid),
        };
        if !(is_float_text(f[4]) && is_float_text(f[5]) && is_float_text(f[6]) && is_float_text(
            f[7],
        )) {
            return Err(MessageParseError::Invalid);
        }
        let sweep_delay_ms = match parse_field(&f, 9, u16::MAX as u64) {
            Some(v) => v,
            None => return Err(MessageParseError::Invalid),
        };
        Ok(
            ConfigExp {
                start,
                cw,
                total_steps,
                step,
                power_dbm: text5(f[4]),
                step_power_dbm: text5(f[5]),
                start_power_dbm: text5(f[6]),
                stop_power_dbm: text5(f[7]),
                rf_power_on: f[8][0] == 48u8,
                sweep_delay: Duration::from_millis(sweep_delay_ms),
                timestamp,
            },
        )
    }

    /// Parses an expansion configuration message, stamping it with the current time.
    pub fn try_from<'a>(bytes: &'a [u8]) -> (r: Result<ConfigExp, MessageParseError<'a>>)
        ensures
            r is Ok <==> config_exp_accepts(bytes@),
            r matches Ok(c) ==> config_exp_holds(bytes@, c),
            r is Err ==> r == Err::<ConfigExp, MessageParseError<'a>>(MessageParseError::Invalid),
    {
        ConfigExp::parse(bytes, now_millis())
    }
}

impl MessageFormat for ConfigExp {
    open spec fn spec_accepts(bytes: Seq<u8>) -> bool {
        config_exp_accepts(bytes)
    }

    open spec fn spec_message(bytes: Seq<u8>, message: ConfigExp) -> bool {
        config_exp_holds(bytes, message)
    }

    open spec fn spec_error_kind(bytes: Seq<u8>) -> ParseErrorKind {
        ParseErrorKind::Invalid
    }

    open spec fn spec_remainder(bytes: Seq<u8>) -> Option<Seq<u8>> {
        None
    }

    fn parse_message<'a>(bytes: &'a [u8]) -> (r: Result<ConfigExp, MessageParseError<'a>>) {
        ConfigExp::try_from(bytes)
    }
}

/// The device's numbers for the settings: attenuation 0 is on and 1 is off;
/// the power levels 0 to 3 rise from lowest to highest; RF power 0 is on and
/// 1 is off. No other number names a setting, and writing a setting gives
/// back its number.
pub proof fn lemma_setting_numbering(code: nat)
    ensures
        attenuation_from_code(code) == (if code == 0 {
            Some(Attenuation::On)
        } else if code == 1 {
            Some(Attenuation::Off)
        } else {
            None
        }),
        rf_power_from_code(code) == (if code == 0 {
            Some(RfPower::On)
        } else if code == 1 {
            Some(RfPower::Off)
        } else {
            None
        }),
        code == 0 ==> power_level_from_code(code) == Some(PowerLevel::Lowest),
        code == 1 ==> power_level_from_code(code) == Some(PowerLevel::Low),
        code == 2 ==> power_level_from_code(code) == Some(PowerLevel::High),
        code == 3 ==> power_level_from_code(code) == Some(PowerLevel::Highest),
        code > 3 ==> power_level_from_code(code) is None,
{
}

} // verus!
