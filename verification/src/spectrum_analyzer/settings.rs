//! The rules that a spectrum analyzer's new settings must follow before they
//! are sent to it.
use vstd::prelude::*;

use super::model::{is_plus, max_freq_hz, max_span_hz, min_freq_hz, min_span_hz, Model};
use crate::frequency::Frequency;
use crate::radio_module::RadioModule;

verus! {

/// The lowest amplitude, in dBm, that the screen can show.
pub const MIN_AMP_DBM: i16 = -120;

/// The highest amplitude, in dBm, that the screen can show.
pub const MAX_AMP_DBM: i16 = 35;

/// The fewest points that a sweep can have.
pub const MIN_SWEEP_LEN: u16 = 112;

/// The most points that a sweep can have and still be asked for with the
/// shorter of the two commands that set the number of points.
pub const MAX_EXT_SWEEP_LEN: u16 = 4096;

/// Why a spectrum analyzer refuses new settings.
#[derive(Debug, Clone, Copy, PartialEq, Eq, Structural)]
pub enum Rejection {
    /// The start frequency is not below the stop frequency.
    StartNotBelowStop,
    /// The start frequency is outside the active model's frequency range.
    StartOutOfRange,
    /// The stop frequency is outside the active model's frequency range.
    StopOutOfRange,
    /// The span is outside the active model's span range.
    SpanOutOfRange,
    /// The minimum amplitude is not below the maximum amplitude.
    MinAmpNotBelowMax,
    /// The minimum amplitude is outside the screen's amplitude range.
    MinAmpOutOfRange,
    /// The maximum amplitude is outside the screen's amplitude range.
    MaxAmpOutOfRange,
    /// Only 'Plus' models can change the number of points in a sweep.
    SweepLenNotSupported,
    /// The main radio module is already active.
    MainAlreadyActive,
    /// The device has no expansion radio module.
    NoExpansionModule,
    /// The expansion radio module is already active.
    ExpansionAlreadyActive,
}

/// The verdict on a start and a stop frequency for `model`, checked in order:
/// their order, the start's range, the stop's range, then the span.
pub open spec fn start_stop_verdict(model: Model, start: u64, stop: u64) -> Result<(), Rejection> {
    if start >= stop {
        Err(Rejection::StartNotBelowStop)
    } else if !(min_freq_hz(model) <= start <= max_freq_hz(model)) {
        Err(Rejection::StartOutOfRange)
    } else if !(min_freq_hz(model) <= stop <= max_freq_hz(model)) {
        Err(Rejection::StopOutOfRange)
    } else if !(min_span_hz(model) <= stop - start <= max_span_hz(model)) {
        Err(Rejection::SpanOutOfRange)
    } else {
        Ok(())
    }
}

/// The verdict on a minimum and a maximum amplitude, checked in order: their
/// order, then the minimum's range, then the maximum's.
pub open spec fn min_max_amps_verdict(min_amp_dbm: i16, max_amp_dbm: i16) -> Result<(), Rejection> {
    if min_amp_dbm >= max_amp_dbm {
        Err(Rejection::MinAmpNotBelowMax)
    } else if !(MIN_AMP_DBM <= min_amp_dbm <= MAX_AMP_DBM) {
        Err(Rejection::MinAmpOutOfRange)
    } else if !(MIN_AMP_DBM <= max_amp_dbm <= MAX_AMP_DBM) {
        Err(Rejection::MaxAmpOutOfRange)
    } else {
        Ok(())
    }
}

/// The number of points that a sweep gets when `sweep_len` are asked for:
/// at least [`MIN_SWEEP_LEN`], and otherwise rounded down to a multiple of 16.
pub open spec fn spec_expected_sweep_len(sweep_len: u16) -> u16 {
    if sweep_len < MIN_SWEEP_LEN {
        MIN_SWEEP_LEN
    } else {
        ((sweep_len / 16) * 16) as u16
    }
}

/// Checks a start and a stop frequency against the active model's ranges.
pub fn validate_start_stop(model: Model, start: Frequency, stop: Frequency) -> (r: Result<
    (),
    Rejection,
>)
    ensures
        r == start_stop_verdict(model, start.hz, stop.hz),
{
    if start.hz >= stop.hz {
        return Err(Rejection::StartNotBelowStop);
    }
    let min_freq = model.min_freq();
    let max_freq = model.max_freq();
    if !(min_freq.hz <= start.hz && start.hz <= max_freq.hz) {
        return Err(Rejection::StartOutOfRange);
    }
    if !(min_freq.hz <= stop.hz && stop.hz <= max_freq.hz) {
        return Err(Rejection::StopOutOfRange);
    }
    let span = stop.hz - start.hz;
    if !(model.min_span().hz <= span && span <= model.max_span().hz) {
        return Err(Rejection::SpanOutOfRange);
    }
    Ok(())
}

/// Checks a minimum and a maximum amplitude against the screen's range.
pub fn validate_min_max_amps(min_amp_dbm: i16, max_amp_dbm: i16) -> (r: Result<(), Rejection>)
    ensures
        r == min_max_amps_verdict(min_amp_dbm, max_amp_dbm),
{
    if min_amp_dbm >= max_amp_dbm {
        Err(Rejection::MinAmpNotBelowMax)
    } else if !(MIN_AMP_DBM <= min_amp_dbm && min_amp_dbm <= MAX_AMP_DBM) {
        Err(Rejection::MinAmpOutOfRange)
    } else if !(MIN_AMP_DBM <= max_amp_dbm && max_amp_dbm <= MAX_AMP_DBM) {
        Err(Rejection::MaxAmpOutOfRange)
    } else {
        Ok(())
    }
}

/// Checks that the active model can change the number of points in a sweep.
pub fn validate_sweep_len_support(model: Model) -> (r: Result<(), Rejection>)
    ensures
        r is Ok <==> is_plus(model),
        r is Err ==> r == Err::<(), Rejection>(Rejection::SweepLenNotSupported),
{
    if model.is_plus_model() {
        Ok(())
    } else {
        Err(Rejection::SweepLenNotSupported)
    }
}

/// True when `sweep_len` points must be asked for with the longer command
/// (above [`MAX_EXT_SWEEP_LEN`]).
pub fn needs_large_sweep_points_command(sweep_len: u16) -> (r: bool)
    ensures
        r == (sweep_len > MAX_EXT_SWEEP_LEN),
{
    sweep_len > MAX_EXT_SWEEP_LEN
}

/// The number of points that a sweep gets when `sweep_len` are asked for.
pub fn expected_sweep_len(sweep_len: u16) -> (r: u16)
    ensures
        r == spec_expected_sweep_len(sweep_len),
        r >= MIN_SWEEP_LEN,
        r % 16 == 0,
        sweep_len >= MIN_SWEEP_LEN ==> r <= sweep_len && sweep_len - r < 16,
{
    if sweep_len < MIN_SWEEP_LEN {
        MIN_SWEEP_LEN
    } else {
        (sweep_len / 16) * 16
    }
}

/// The start and stop frequencies of a sweep with the given center and span:
/// half the span (rounded down) on each side of the center.
pub fn center_span_to_start_stop(center: Frequency, span: Frequency) -> (r: (Frequency, Frequency))
    requires
        span.hz / 2 <= center.hz,
        center.hz + span.hz / 2 <= u64::MAX,
    ensures
        r.0.hz == center.hz - span.hz / 2,
        r.1.hz == center.hz + span.hz / 2,
{
    let half = span.hz / 2;
    (Frequency { hz: center.hz - half }, Frequency { hz: center.hz + half })
}

/// Checks that the main radio module can be activated: it is not the active one.
pub fn validate_activate_main(active: RadioModule<Model>) -> (r: Result<(), Rejection>)
    ensures
        r is Ok <==> active is Expansion,
        r is Err ==> r == Err::<(), Rejection>(Rejection::MainAlreadyActive),
{
    if active.is_main() {
        Err(Rejection::MainAlreadyActive)
    } else {
        Ok(())
    }
}

/// Checks that the expansion radio module can be activated: there is one, and
/// it is not the active one.
pub fn validate_activate_expansion(
    expansion: Option<RadioModule<Model>>,
    active: RadioModule<Model>,
) -> (r: Result<(), Rejection>)
    ensures
        expansion is None ==> r == Err::<(), Rejection>(Rejection::NoExpansionModule),
        expansion is Some && active is Expansion ==> r == Err::<(), Rejection>(
            Rejection::ExpansionAlreadyActive,
        ),
        expansion is Some && active is Main ==> r is Ok,
{
    if expansion.is_none() {
        return Err(Rejection::NoExpansionModule);
    }
    if active.is_expansion() {
        return Err(Rejection::ExpansionAlreadyActive);
    }
    Ok(())
}

/// A sweep asked for with at least [`MIN_SWEEP_LEN`] points gets the
/// largest multiple of 16 that is not above the number asked for.
pub proof fn lemma_expected_sweep_len_is_largest_multiple(sweep_len: u16, k: u16)
    requires
        sweep_len >= MIN_SWEEP_LEN,
        k % 16 == 0,
        k <= sweep_len,
    ensures
        k <= spec_expected_sweep_len(sweep_len),
{
}

/// The settings that pass the checks have their start below their stop, and
/// both within the model's range.
pub proof fn lemma_accepted_start_stop(model: Model, start: u64, stop: u64)
    requires
        start_stop_verdict(model, start, stop) is Ok,
    ensures
        start < stop,
        min_freq_hz(model) <= start,
        stop <= max_freq_hz(model),
        min_span_hz(model) <= stop - start <= max_span_hz(model),
{
}

/// The limits on settings: amplitudes from -120 to 35 dBm, at least 112
/// points in a sweep, and up to 4096 points with the shorter command.
pub proof fn lemma_setting_limits()
    ensures
        MIN_AMP_DBM == -120,
        MAX_AMP_DBM == 35,
        MIN_SWEEP_LEN == 112,
        MAX_EXT_SWEEP_LEN == 4096,
{
}

/// A 6G module measures from 4.85 to 6.1 GHz: any start below 4.85 GHz is
/// refused as out of range, and any stop above 6.1 GHz (with the start in
/// range) too.
pub proof fn lemma_6g_band(start: u64, stop: u64)
    requires
        start < stop,
    ensures
        start < 4_850_000_000 ==> start_stop_verdict(Model::Rfe6G, start, stop) == Err::<
            (),
            Rejection,
        >(Rejection::StartOutOfRange),
        4_850_000_000 <= start <= 6_100_000_000 && 6_100_000_000 < stop ==> start_stop_verdict(
            Model::Rfe6G,
            start,
            stop,
        ) == Err::<(), Rejection>(Rejection::StopOutOfRange),
{
}

} // verus!
