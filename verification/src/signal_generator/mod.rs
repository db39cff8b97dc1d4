//! RF Explorer signal generator types.
mod cache;
mod command;
mod config;
mod config_amp_sweep;
mod config_cw;
mod message;
mod model;
mod radio;
mod temperature;

pub use cache::{
    has_callback, lemma_cache_read_back, lemma_device_info_stays, lemma_slots_stay_filled,
    slot_message, slot_of, spec_has_device_info, with_message, CacheEffect, MessageCache, Slot,
};
pub use command::{
    attenuation_code, fits_fields, holds_attenuation, holds_number, holds_power_level,
    lemma_sg_command_fields, lemma_sg_command_size_field,
    power_level_code, sg_command_bytes, Command,
};
pub use config::{
    attenuation_from_code, config_accepts, lemma_setting_numbering, config_exp_accepts, config_exp_holds,
    config_exp_prefix, config_exp_widths, config_holds, config_prefix, config_widths,
    power_level_from_code, rf_power_from_code, Attenuation, Config, ConfigExp, PowerLevel,
    RfPower,
};
pub use config_amp_sweep::{
    config_amp_sweep_accepts, config_amp_sweep_exp_accepts, config_amp_sweep_exp_holds,
    config_amp_sweep_exp_prefix, config_amp_sweep_exp_widths, config_amp_sweep_holds,
    config_amp_sweep_prefix, config_amp_sweep_widths, ConfigAmpSweep, ConfigAmpSweepExp,
};
pub use config_cw::{
    config_cw_accepts, config_cw_exp_accepts, config_cw_exp_holds, config_cw_exp_prefix,
    config_cw_exp_widths, config_cw_holds, config_cw_prefix, config_cw_widths, ConfigCw,
    ConfigCwExp,
};
pub use message::{
    announced_kind, has_prefix, message_accepts, message_holds, setup_info_prefix, Message,
    MessageKind,
};
pub use model::{
    lemma_model_names_distinct, lemma_model_ranges, lemma_sg_model_numbering, max_freq_hz,
    min_freq_hz, model_from_code,
    model_name, Model,
};
pub use radio::{
    active_radio_model, inactive_radio_model, lemma_active_inactive_partition, or_default,
    spec_active_radio_model, spec_inactive_radio_model,
};
pub use temperature::{
    lemma_temperature_numbering, lemma_temperature_ranges, spec_temperature, temperature_bounds, temperature_from_code,
    temperature_prefix, Temperature,
};
