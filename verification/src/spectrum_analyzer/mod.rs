//! RF Explorer spectrum analyzer types.
mod cache;
mod dsp_mode;
mod input_stage;
mod message;
mod model;
mod settings;
mod tracking_status;
mod wifi_band;

pub use cache::{with_message, MessageCache};
pub use dsp_mode::{
    dsp_mode_from_code, dsp_mode_prefix, lemma_dsp_mode_numbering, spec_dsp_mode, DspMode,
};
pub use input_stage::{
    input_stage_from_code, input_stage_prefix, lemma_input_stage_numbering, spec_input_stage,
    InputStage,
};
pub use message::{
    announced_kind, message_accepts, message_holds, setup_info_prefix, Message, MessageKind,
};
pub use model::{
    is_plus, lemma_model_bands, lemma_model_code_roundtrip, lemma_model_names_distinct,
    lemma_model_numbering, lemma_model_ranges, lemma_named_band_is_measured,
    max_freq_hz, max_span_hz, min_freq_hz, min_span_hz, model_code, model_from_code, model_name,
    Model,
};
pub use settings::{
    center_span_to_start_stop, expected_sweep_len, lemma_6g_band, lemma_accepted_start_stop,
    lemma_setting_limits,
    lemma_expected_sweep_len_is_largest_multiple, min_max_amps_verdict,
    needs_large_sweep_points_command, spec_expected_sweep_len, start_stop_verdict,
    validate_activate_expansion, validate_activate_main, validate_min_max_amps,
    validate_start_stop, validate_sweep_len_support, Rejection, MAX_AMP_DBM, MAX_EXT_SWEEP_LEN,
    MIN_AMP_DBM, MIN_SWEEP_LEN,
};
pub use tracking_status::{spec_tracking_status, tracking_status_prefix, TrackingStatus};
pub use wifi_band::WifiBand;
