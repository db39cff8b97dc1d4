//! The commands that the signal generator's main module accepts.
use vstd::prelude::*;

use super::config::{attenuation_from_code, power_level_from_code, Attenuation, PowerLevel};
use crate::decimal::{
    decimal_digits, lemma_decimal_digits_len, lemma_zero_padded_value, push_decimal,
    push_zero_padded, zero_padded,
};
use crate::frequency::Frequency;
use crate::parsers::{all_ascii_digits, digits_value, is_ascii_digit, pow10};

verus! {

/// A command that the signal generator's main module accepts.
///
/// The expansion module's commands carry powers in dBm, which are floating
/// point numbers; they are encoded outside this library.
#[derive(Debug, Clone, Copy, PartialEq, Eq)]
pub enum Command {
    /// Turns the RF output on.
    RfPowerOn,
    /// Turns the RF output off.
    RfPowerOff,
    /// Starts an amplitude sweep.
    StartAmpSweep {
        /// The CW frequency.
        cw: Frequency,
        /// The attenuation at the start.
        start_attenuation: Attenuation,
        /// The power level at the start.
        start_power_level: PowerLevel,
        /// The attenuation at the end.
        stop_attenuation: Attenuation,
        /// The power level at the end.
        stop_power_level: PowerLevel,
        /// The delay between steps, in milliseconds.
        step_delay_ms: u128,
    },
    /// Starts CW mode.
    StartCw {
        /// The CW frequency.
        cw: Frequency,
        /// The attenuation.
        attenuation: Attenuation,
        /// The power level.
        power_level: PowerLevel,
    },
    /// Starts a frequency sweep.
    StartFreqSweep {
        /// The start frequency.
        start: Frequency,
        /// The attenuation.
        attenuation: Attenuation,
        /// The power level.
        power_level: PowerLevel,
        /// The number of steps.
        sweep_steps: u16,
        /// The frequency increment per step.
        step: Frequency,
        /// The delay between steps, in milliseconds.
        step_delay_ms: u128,
    },
    /// Starts tracking mode.
    StartTracking {
        /// The start frequency.
        start: Frequency,
        /// The attenuation.
        attenuation: Attenuation,
        /// The power level.
        power_level: PowerLevel,
        /// The number of steps.
        sweep_steps: u16,
        /// The frequency increment per step.
        step: Frequency,
    },
    /// Jumps to a new frequency by the given number of tracking steps.
    TrackingStep(u16),
}

/// The decimal digit of a one-digit code.
pub open spec fn code_digit(code: u8) -> Seq<u8> {
    decimal_digits(code as nat)
}

/// The number of an attenuation state, as the device reads it.
pub open spec fn attenuation_code(a: Attenuation) -> u8 {
    match a {
        Attenuation::On => 0,
        Attenuation::Off => 1,
    }
}

/// The number of a power level, as the device reads it.
pub open spec fn power_level_code(p: PowerLevel) -> u8 {
    match p {
        PowerLevel::Lowest => 0,
        PowerLevel::Low => 1,
        PowerLevel::High => 2,
        PowerLevel::Highest => 3,
    }
}

/// `C3-A:` and friends: the letters `C3-`, `letter`, `:`.
pub open spec fn mode_tag(letter: u8) -> Seq<u8> {
    seq![67u8, 51u8, 45u8, letter, 58u8]
}

/// The bytes that the device receives for `command`: `#`, a length byte and
/// the text of the command, with frequencies in kHz and delays in ms
/// written as zero-padded decimals.
pub open spec fn sg_command_bytes(command: Command) -> Seq<u8> {
    match command {
        Command::RfPowerOn => seq![35u8, 5u8, 67u8, 80u8, 49u8],
        Command::RfPowerOff => seq![35u8, 5u8, 67u8, 80u8, 48u8],
        Command::StartAmpSweep {
            cw,
            start_attenuation,
            start_power_level,
            stop_attenuation,
            stop_power_level,
            step_delay_ms,
        } => seq![35u8, 28u8] + mode_tag(65u8) + zero_padded((cw.hz / 1000) as nat, 7) + seq![
            44u8,
        ] + code_digit(attenuation_code(start_attenuation)) + seq![44u8] + code_digit(
            power_level_code(start_power_level),
        ) + seq![44u8] + code_digit(attenuation_code(stop_attenuation)) + seq![44u8] + code_digit(
            power_level_code(stop_power_level),
        ) + seq![44u8] + zero_padded(step_delay_ms as nat, 5),
        Command::StartCw { cw, attenuation, power_level } => seq![35u8, 18u8] + mode_tag(70u8)
            + zero_padded((cw.hz / 1000) as nat, 7) + seq![44u8] + code_digit(
            attenuation_code(attenuation),
        ) + seq![44u8] + code_digit(power_level_code(power_level)),
        Command::StartFreqSweep {
            start,
            attenuation,
            power_level,
            sweep_steps,
            step,
            step_delay_ms,
        } => seq![35u8, 37u8] + mode_tag(70u8) + zero_padded((start.hz / 1000) as nat, 7) + seq![
            44u8,
        ] + code_digit(attenuation_code(attenuation)) + seq![44u8] + code_digit(
            power_level_code(power_level),
        ) + seq![44u8] + zero_padded(sweep_steps as nat, 4) + seq![44u8] + zero_padded(
            (step.hz / 1000) as nat,
            7,
        ) + seq![44u8] + zero_padded(step_delay_ms as nat, 5),
        Command::StartTracking { start, attenuation, power_level, sweep_steps, step } => seq![
            35u8,
            31u8,
        ] + mode_tag(84u8) + zero_padded((start.hz / 1000) as nat, 7) + seq![44u8] + code_digit(
            attenuation_code(attenuation),
        ) + seq![44u8] + code_digit(power_level_code(power_level)) + seq![44u8] + zero_padded(
            sweep_steps as nat,
            4,
        ) + seq![44u8] + zero_padded((step.hz / 1000) as nat, 7),
        Command::TrackingStep(steps) => seq![
            35u8,
            5u8,
            107u8,
            (steps / 256) as u8,
            (steps % 256) as u8,
        ],
    }
}

/// True when every number of `command` fits the width that its field has in
/// the command: frequencies below 10^7 kHz, step counts below 10^4 and
/// delays below 10^5 ms.
pub open spec fn fits_fields(command: Command) -> bool {
    match command {
        Command::StartAmpSweep { cw, step_delay_ms, .. } => cw.hz / 1000 < 10_000_000
            && step_delay_ms < 100_000,
        Command::StartCw { cw, .. } => cw.hz / 1000 < 10_000_000,
        Command::StartFreqSweep { start, sweep_steps, step, step_delay_ms, .. } => start.hz / 1000
            < 10_000_000 && sweep_steps < 10_000 && step.hz / 1000 < 10_000_000 && step_delay_ms
            < 100_000,
        Command::StartTracking { start, sweep_steps, step, .. } => start.hz / 1000 < 10_000_000
            && sweep_steps < 10_000 && step.hz / 1000 < 10_000_000,
        _ => true,
    }
}

/// Appends the tag `C3-x:` to `out`.
fn push_mode_tag(out: &mut Vec<u8>, letter: u8)
    ensures
        final(out)@ == old(out)@ + mode_tag(letter),
{
    out.push(67u8);
    out.push(51u8);
    out.push(45u8);
    out.push(letter);
    out.push(58u8);
    assert(out@ =~= old(out)@ + mode_tag(letter));
}

/// Appends a comma to `out`.
fn push_comma(out: &mut Vec<u8>)
    ensures
        final(out)@ == old(out)@ + seq![44u8],
{
    out.push(44u8);
    assert(out@ =~= old(out)@ + seq![44u8]);
}

/// Appends the digit of a one-digit code to `out`.
fn push_code(out: &mut Vec<u8>, code: u8)
    ensures
        final(out)@ == old(out)@ + code_digit(code),
{
    push_decimal(out, code as u128);
}

impl Command {
    /// The bytes that the device receives for the command.
    #[verifier::rlimit(40)]
    pub fn to_bytes(&self) -> (bytes: Vec<u8>)
        ensures
            bytes@ == sg_command_bytes(*self),
    {
        match *self {
            Command::RfPowerOn => {
                let bytes = vec![35u8, 5u8, 67u8, 80u8, 49u8];
                assert(bytes@ =~= sg_command_bytes(*self));
                bytes
            },
            Command::RfPowerOff => {
                let bytes = vec![35u8, 5u8, 67u8, 80u8, 48u8];
                assert(bytes@ =~= sg_command_bytes(*self));
                bytes
            },
            Command::StartAmpSweep {
                cw,
                start_attenuation,
                start_power_level,
                stop_attenuation,
                stop_power_level,
                step_delay_ms,
            } => {
                let mut bytes = vec![35u8, 28u8];
                let ghost b0 = bytes@;
                push_mode_tag(&mut bytes, 65u8);
                push_zero_padded(&mut bytes, cw.as_khz() as u128, 7);
                push_comma(&mut bytes);
                push_code(&mut bytes, start_attenuation.code());
                push_comma(&mut bytes);
                push_code(&mut bytes, start_power_level.code());
                push_comma(&mut bytes);
                push_code(&mut bytes, stop_attenuation.code());
                push_comma(&mut bytes);
                push_code(&mut bytes, stop_power_level.code());
                push_comma(&mut bytes);
                push_zero_padded(&mut bytes, step_delay_ms, 5);
                assert(b0 == seq![35u8, 28u8]);
                assert(bytes@ =~= sg_command_bytes(*self));
                bytes
            },
            Command::StartCw { cw, attenuation, power_level } => {
                let mut bytes = vec![35u8, 18u8];
                let ghost b0 = bytes@;
                push_mode_tag(&mut bytes, 70u8);
                push_zero_padded(&mut bytes, cw.as_khz() as u128, 7);
                push_comma(&mut bytes);
                push_code(&mut bytes, attenuation.code());
                push_comma(&mut bytes);
                push_code(&mut bytes, power_level.code());
                assert(b0 == seq![35u8, 18u8]);
                assert(bytes@ =~= sg_command_bytes(*self));
                bytes
            },
            Command::StartFreqSweep {
                start,
                attenuation,
                power_level,
                sweep_steps,
                step,
                step_delay_ms,
            } => {
                let mut bytes = vec![35u8, 37u8];
                let ghost b0 = bytes@;
                push_mode_tag(&mut bytes, 70u8);
                push_zero_padded(&mut bytes, start.as_khz() as u128, 7);
                push_comma(&mut bytes);
                push_code(&mut bytes, attenuation.code());
                push_comma(&mut bytes);
                push_code(&mut bytes, power_level.code());
                push_comma(&mut bytes);
                push_zero_padded(&mut bytes, sweep_steps as u128, 4);
                push_comma(&mut bytes);
                push_zero_padded(&mut bytes, step.as_khz() as u128, 7);
                push_comma(&mut bytes);
                push_zero_padded(&mut bytes, step_delay_ms, 5);
                assert(b0 == seq![35u8, 37u8]);
                assert(bytes@ =~= sg_command_bytes(*self));
                bytes
            },
            Command::StartTracking { start, attenuation, power_level, sweep_steps, step } => {
                let mut bytes = vec![35u8, 31u8];
                let ghost b0 = bytes@;
                push_mode_tag(&mut bytes, 84u8);
                push_zero_padded(&mut bytes, start.as_khz() as u128, 7);
                push_comma(&mut bytes);
                push_code(&mut bytes, attenuation.code());
                push_comma(&mut bytes);
                push_code(&mut bytes, power_level.code());
                push_comma(&mut bytes);
                push_zero_padded(&mut bytes, sweep_steps as u128, 4);
                push_comma(&mut bytes);
                push_zero_padded(&mut bytes, step.as_khz() as u128, 7);
                assert(b0 == seq![35u8, 31u8]);
                assert(bytes@ =~= sg_command_bytes(*self));
                bytes
            },
            Command::TrackingStep(steps) => {
                let bytes = vec![35u8, 5u8, 107u8, (steps / 256) as u8, (steps % 256) as u8];
                assert(bytes@ =~= sg_command_bytes(*self));
                bytes
            },
        }
    }
}

proof fn lemma_zero_padded_len(n: nat, width: nat)
    requires
        width >= 1,
        n < pow10(width),
    ensures
        zero_padded(n, width).len() == width,
{
    lemma_decimal_digits_len(n, width, pow10(width));
}

proof fn lemma_code_digit_len(code: u8)
    requires
        code < 10,
    ensures
        code_digit(code).len() == 1,
{
}

/// True when `b` holds, from `at`, `width` decimal digits that read as `n`.
pub open spec fn holds_number(b: Seq<u8>, at: int, width: int, n: nat) -> bool {
    &&& 0 <= at
    &&& at + width <= b.len()
    &&& all_ascii_digits(b.subrange(at, at + width))
    &&& digits_value(b.subrange(at, at + width)) == n
}

/// True when byte `at` of `b` is a digit that the device reads as the attenuation `a`.
pub open spec fn holds_attenuation(b: Seq<u8>, at: int, a: Attenuation) -> bool {
    0 <= at < b.len() && is_ascii_digit(b[at]) && attenuation_from_code((b[at] - 48) as nat)
        == Some(a)
}

/// True when byte `at` of `b` is a digit that the device reads as the power level `p`.
pub open spec fn holds_power_level(b: Seq<u8>, at: int, p: PowerLevel) -> bool {
    0 <= at < b.len() && is_ascii_digit(b[at]) && power_level_from_code((b[at] - 48) as nat)
        == Some(p)
}

/// The fields of each command stand where the device reads them, in the
/// order the command lists them: after `#` and the size byte come the tag
/// (`C3-A:` for an amplitude sweep, `C3-F:` for CW and a frequency sweep,
/// `C3-T:` for tracking), then the frequency in kHz in 7 digits, then each
/// setting as one digit that the device reads back as the setting given,
/// then the step count (4 digits), the step in kHz (7 digits) and the delay
/// in ms (5 digits), each field after a comma. RF power is `CP1` to turn the
/// output on and `CP0` to turn it off, and a tracking step is `k` and the
/// step count in two bytes, high byte first.
#[verifier::rlimit(40)]
pub proof fn lemma_sg_command_fields(command: Command)
    requires
        fits_fields(command),
    ensures
        sg_command_bytes(command).len() >= 2,
        sg_command_bytes(command)[0] == 35u8,
        sg_command_bytes(command)[1] == sg_command_bytes(command).len(),
        ({
            let b = sg_command_bytes(command);
            match command {
                Command::RfPowerOn => b.len() == 5 && b.subrange(2, 4) == seq![67u8, 80u8] && b[4]
                    == 49u8,
                Command::RfPowerOff => b.len() == 5 && b.subrange(2, 4) == seq![67u8, 80u8] && b[4]
                    == 48u8,
                Command::StartAmpSweep {
                    cw,
                    start_attenuation,
                    start_power_level,
                    stop_attenuation,
                    stop_power_level,
                    step_delay_ms,
                } => {
                    &&& b.len() == 28
                    &&& b.subrange(2, 7) == seq![67u8, 51u8, 45u8, 65u8, 58u8]
                    &&& holds_number(b, 7, 7, (cw.hz / 1000) as nat)
                    &&& b[14] == 44u8 && b[16] == 44u8 && b[18] == 44u8 && b[20] == 44u8 && b[22]
                        == 44u8
                    &&& holds_attenuation(b, 15, start_attenuation)
                    &&& holds_power_level(b, 17, start_power_level)
                    &&& holds_attenuation(b, 19, stop_attenuation)
                    &&& holds_power_level(b, 21, stop_power_level)
                    &&& holds_number(b, 23, 5, step_delay_ms as nat)
                },
                Command::StartCw { cw, attenuation, power_level } => {
                    &&& b.len() == 18
                    &&& b.subrange(2, 7) == seq![67u8, 51u8, 45u8, 70u8, 58u8]
                    &&& holds_number(b, 7, 7, (cw.hz / 1000) as nat)
                    &&& b[14] == 44u8 && b[16] == 44u8
                    &&& holds_attenuation(b, 15, attenuation)
                    &&& holds_power_level(b, 17, power_level)
                },
                Command::StartFreqSweep {
                    start,
                    attenuation,
                    power_level,
                    sweep_steps,
                    step,
                    step_delay_ms,
                } => {
                    &&& b.len() == 37
                    &&& b.subrange(2, 7) == seq![67u8, 51u8, 45u8, 70u8, 58u8]
                    &&& holds_number(b, 7, 7, (start.hz / 1000) as nat)
                    &&& b[14] == 44u8 && b[16] == 44u8 && b[18] == 44u8 && b[23] == 44u8 && b[31]
                        == 44u8
                    &&& holds_attenuation(b, 15, attenuation)
                    &&& holds_power_level(b, 17, power_level)
                    &&& holds_number(b, 19, 4, sweep_steps as nat)
                    &&& holds_number(b, 24, 7, (step.hz / 1000) as nat)
                    &&& holds_number(b, 32, 5, step_delay_ms as nat)
                },
                Command::StartTracking { start, attenuation, power_level, sweep_steps, step } => {
                    &&& b.len() == 31
                    &&& b.subrange(2, 7) == seq![67u8, 51u8, 45u8, 84u8, 58u8]
                    &&& holds_number(b, 7, 7, (start.hz / 1000) as nat)
                    &&& b[14] == 44u8 && b[16] == 44u8 && b[18] == 44u8 && b[23] == 44u8
                    &&& holds_attenuation(b, 15, attenuation)
                    &&& holds_power_level(b, 17, power_level)
                    &&& holds_number(b, 19, 4, sweep_steps as nat)
                    &&& holds_number(b, 24, 7, (step.hz / 1000) as nat)
                },
                Command::TrackingStep(steps) => b.len() == 5 && b[2] == 107u8 && b[3] * 256 + b[4]
                    == steps,
            }
        }),
{
    match command {
        Command::StartAmpSweep {
            cw,
            start_attenuation,
            start_power_level,
            stop_attenuation,
            stop_power_level,
            step_delay_ms,
        } => lemma_amp_sweep_fields(
            cw,
            start_attenuation,
            start_power_level,
            stop_attenuation,
            stop_power_level,
            step_delay_ms,
        ),
        Command::StartCw { cw, attenuation, power_level } => lemma_cw_fields(
            cw,
            attenuation,
            power_level,
        ),
        Command::StartFreqSweep { start, attenuation, power_level, sweep_steps, step, step_delay_ms } =>
            lemma_freq_sweep_fields(start, attenuation, power_level, sweep_steps, step, step_delay_ms),
        Command::StartTracking { start, attenuation, power_level, sweep_steps, step } =>
            lemma_tracking_fields(start, attenuation, power_level, sweep_steps, step),
        Command::RfPowerOn => {
            assert(sg_command_bytes(command).subrange(2, 4) =~= seq![67u8, 80u8]);
        },
        Command::RfPowerOff => {
            assert(sg_command_bytes(command).subrange(2, 4) =~= seq![67u8, 80u8]);
        },
        Command::TrackingStep(steps) => {},
    }
}

#[verifier::rlimit(80)]
proof fn lemma_amp_sweep_fields(
    cw: Frequency,
    start_attenuation: Attenuation,
    start_power_level: PowerLevel,
    stop_attenuation: Attenuation,
    stop_power_level: PowerLevel,
    step_delay_ms: u128,
)
    requires
        cw.hz / 1000 < 10_000_000,
        step_delay_ms < 100_000,
    ensures
        ({
            let b = sg_command_bytes(
                Command::StartAmpSweep {
                    cw,
                    start_attenuation,
                    start_power_level,
                    stop_attenuation,
                    stop_power_level,
                    step_delay_ms,
                },
            );
            &&& b.len() == 28
            &&& b[0] == 35u8 && b[1] == b.len()
            &&& b.subrange(2, 7) == seq![67u8, 51u8, 45u8, 65u8, 58u8]
            &&& holds_number(b, 7, 7, (cw.hz / 1000) as nat)
            &&& b[14] == 44u8 && b[16] == 44u8 && b[18] == 44u8 && b[20] == 44u8 && b[22] == 44u8
            &&& holds_attenuation(b, 15, start_attenuation)
            &&& holds_power_level(b, 17, start_power_level)
            &&& holds_attenuation(b, 19, stop_attenuation)
            &&& holds_power_level(b, 21, stop_power_level)
            &&& holds_number(b, 23, 5, step_delay_ms as nat)
        }),
{
    reveal_with_fuel(pow10, 8);
    let khz = (cw.hz / 1000) as nat;
    lemma_zero_padded_len(khz, 7);
    lemma_zero_padded_len(step_delay_ms as nat, 5);
    lemma_zero_padded_value(khz, 7);
    lemma_zero_padded_value(step_delay_ms as nat, 5);
    let z = zero_padded(khz, 7);
    let d = zero_padded(step_delay_ms as nat, 5);
    let s1 = code_digit(attenuation_code(start_attenuation));
    let s2 = code_digit(power_level_code(start_power_level));
    let s3 = code_digit(attenuation_code(stop_attenuation));
    let s4 = code_digit(power_level_code(stop_power_level));
    lemma_code_digit_len(attenuation_code(start_attenuation));
    lemma_code_digit_len(power_level_code(start_power_level));
    lemma_code_digit_len(attenuation_code(stop_attenuation));
    lemma_code_digit_len(power_level_code(stop_power_level));
    let settings = s1 + seq![44u8] + s2 + seq![44u8] + s3 + seq![44u8] + s4;
    assert(settings =~= seq![s1[0], 44u8, s2[0], 44u8, s3[0], 44u8, s4[0]]);
    let b = seq![35u8, 28u8] + mode_tag(65u8) + z + seq![44u8] + settings + seq![44u8] + d;
    assert(b =~= sg_command_bytes(
        Command::StartAmpSweep {
            cw,
            start_attenuation,
            start_power_level,
            stop_attenuation,
            stop_power_level,
            step_delay_ms,
        },
    ));
    assert(b.subrange(7, 14) =~= z);
    assert(b.subrange(23, 28) =~= d);
    assert(b.subrange(2, 7) =~= seq![67u8, 51u8, 45u8, 65u8, 58u8]);
    assert(b[15] == s1[0] && b[17] == s2[0] && b[19] == s3[0] && b[21] == s4[0]);
}

proof fn lemma_cw_fields(cw: Frequency, attenuation: Attenuation, power_level: PowerLevel)
    requires
        cw.hz / 1000 < 10_000_000,
    ensures
        ({
            let b = sg_command_bytes(Command::StartCw { cw, attenuation, power_level });
            &&& b.len() == 18
            &&& b[0] == 35u8 && b[1] == b.len()
            &&& b.subrange(2, 7) == seq![67u8, 51u8, 45u8, 70u8, 58u8]
            &&& holds_number(b, 7, 7, (cw.hz / 1000) as nat)
            &&& b[14] == 44u8 && b[16] == 44u8
            &&& holds_attenuation(b, 15, attenuation)
            &&& holds_power_level(b, 17, power_level)
        }),
{
    reveal_with_fuel(pow10, 8);
    let khz = (cw.hz / 1000) as nat;
    lemma_zero_padded_len(khz, 7);
    lemma_zero_padded_value(khz, 7);
    let z = zero_padded(khz, 7);
    let s1 = code_digit(attenuation_code(attenuation));
    let s2 = code_digit(power_level_code(power_level));
    let tail = seq![44u8] + s1 + seq![44u8] + s2;
    assert(tail =~= seq![44u8, s1[0], 44u8, s2[0]]);
    let b = seq![35u8, 18u8] + mode_tag(70u8) + z + tail;
    assert(b =~= sg_command_bytes(Command::StartCw { cw, attenuation, power_level }));
    assert(b.subrange(7, 14) =~= z);
    assert(b.subrange(2, 7) =~= seq![67u8, 51u8, 45u8, 70u8, 58u8]);
    assert(b[15] == s1[0] && b[17] == s2[0]);
}

proof fn lemma_freq_sweep_fields(
    start: Frequency,
    attenuation: Attenuation,
    power_level: PowerLevel,
    sweep_steps: u16,
    step: Frequency,
    step_delay_ms: u128,
)
    requires
        start.hz / 1000 < 10_000_000,
        sweep_steps < 10_000,
        step.hz / 1000 < 10_000_000,
        step_delay_ms < 100_000,
    ensures
        ({
            let b = sg_command_bytes(
                Command::StartFreqSweep {
                    start,
                    attenuation,
                    power_level,
                    sweep_steps,
                    step,
                    step_delay_ms,
                },
            );
            &&& b.len() == 37
            &&& b[0] == 35u8 && b[1] == b.len()
            &&& b.subrange(2, 7) == seq![67u8, 51u8, 45u8, 70u8, 58u8]
            &&& holds_number(b, 7, 7, (start.hz / 1000) as nat)
            &&& b[14] == 44u8 && b[16] == 44u8 && b[18] == 44u8 && b[23] == 44u8 && b[31] == 44u8
            &&& holds_attenuation(b, 15, attenuation)
            &&& holds_power_level(b, 17, power_level)
            &&& holds_number(b, 19, 4, sweep_steps as nat)
            &&& holds_number(b, 24, 7, (step.hz / 1000) as nat)
            &&& holds_number(b, 32, 5, step_delay_ms as nat)
        }),
{
    reveal_with_fuel(pow10, 8);
    let khz = (start.hz / 1000) as nat;
    let step_khz = (step.hz / 1000) as nat;
    lemma_zero_padded_len(khz, 7);
    lemma_zero_padded_len(sweep_steps as nat, 4);
    lemma_zero_padded_len(step_khz, 7);
    lemma_zero_padded_len(step_delay_ms as nat, 5);
    lemma_zero_padded_value(khz, 7);
    lemma_zero_padded_value(sweep_steps as nat, 4);
    lemma_zero_padded_value(step_khz, 7);
    lemma_zero_padded_value(step_delay_ms as nat, 5);
    let z = zero_padded(khz, 7);
    let n = zero_padded(sweep_steps as nat, 4);
    let st = zero_padded(step_khz, 7);
    let d = zero_padded(step_delay_ms as nat, 5);
    let s1 = code_digit(attenuation_code(attenuation));
    let s2 = code_digit(power_level_code(power_level));
    let settings = seq![44u8] + s1 + seq![44u8] + s2 + seq![44u8];
    assert(settings =~= seq![44u8, s1[0], 44u8, s2[0], 44u8]);
    let b = seq![35u8, 37u8] + mode_tag(70u8) + z + settings + n + seq![44u8] + st + seq![44u8]
        + d;
    assert(b =~= sg_command_bytes(
        Command::StartFreqSweep { start, attenuation, power_level, sweep_steps, step, step_delay_ms },
    ));
    assert(b.subrange(7, 14) =~= z);
    assert(b.subrange(19, 23) =~= n);
    assert(b.subrange(24, 31) =~= st);
    assert(b.subrange(32, 37) =~= d);
    assert(b.subrange(2, 7) =~= seq![67u8, 51u8, 45u8, 70u8, 58u8]);
    assert(b[15] == s1[0] && b[17] == s2[0]);
}

proof fn lemma_tracking_fields(
    start: Frequency,
    attenuation: Attenuation,
    power_level: PowerLevel,
    sweep_steps: u16,
    step: Frequency,
)
    requires
        start.hz / 1000 < 10_000_000,
        sweep_steps < 10_000,
        step.hz / 1000 < 10_000_000,
    ensures
        ({
            let b = sg_command_bytes(
                Command::StartTracking { start, attenuation, power_level, sweep_steps, step },
            );
            &&& b.len() == 31
            &&& b[0] == 35u8 && b[1] == b.len()
            &&& b.subrange(2, 7) == seq![67u8, 51u8, 45u8, 84u8, 58u8]
            &&& holds_number(b, 7, 7, (start.hz / 1000) as nat)
            &&& b[14] == 44u8 && b[16] == 44u8 && b[18] == 44u8 && b[23] == 44u8
            &&& holds_attenuation(b, 15, attenuation)
            &&& holds_power_level(b, 17, power_level)
            &&& holds_number(b, 19, 4, sweep_steps as nat)
            &&& holds_number(b, 24, 7, (step.hz / 1000) as nat)
        }),
{
    reveal_with_fuel(pow10, 8);
    let khz = (start.hz / 1000) as nat;
    let step_khz = (step.hz / 1000) as nat;
    lemma_zero_padded_len(khz, 7);
    lemma_zero_padded_len(sweep_steps as nat, 4);
    lemma_zero_padded_len(step_khz, 7);
    lemma_zero_padded_value(khz, 7);
    lemma_zero_padded_value(sweep_steps as nat, 4);
    lemma_zero_padded_value(step_khz, 7);
    let z = zero_padded(khz, 7);
    let n = zero_padded(sweep_steps as nat, 4);
    let st = zero_padded(step_khz, 7);
    let s1 = code_digit(attenuation_code(attenuation));
    let s2 = code_digit(power_level_code(power_level));
    let settings = seq![44u8] + s1 + seq![44u8] + s2 + seq![44u8];
    assert(settings =~= seq![44u8, s1[0], 44u8, s2[0], 44u8]);
    let b = seq![35u8, 31u8] + mode_tag(84u8) + z + settings + n + seq![44u8] + st;
    assert(b =~= sg_command_bytes(
        Command::StartTracking { start, attenuation, power_level, sweep_steps, step },
    ));
    assert(b.subrange(7, 14) =~= z);
    assert(b.subrange(19, 23) =~= n);
    assert(b.subrange(24, 31) =~= st);
    assert(b.subrange(2, 7) =~= seq![67u8, 51u8, 45u8, 84u8, 58u8]);
    assert(b[15] == s1[0] && b[17] == s2[0]);
}

/// When its numbers fit their fields, every command starts with `#` and has
/// its own length as its second byte.
pub proof fn lemma_sg_command_size_field(command: Command)
    requires
        fits_fields(command),
    ensures
        sg_command_bytes(command).len() >= 2,
        sg_command_bytes(command)[0] == 35u8,
        sg_command_bytes(command)[1] == sg_command_bytes(command).len(),
{
    lemma_sg_command_fields(command);
}

} // verus!
