use rfe::radio_module::RadioModule;
use rfe::MessageParseError;
use rfe::RfExplorerMessageContainer;
use rfe::setup_info::SetupInfo;
use rfe::signal_generator::Model as SgModel;
use rfe::signal_generator::{CacheEffect, Config, ConfigAmpSweepExp, ConfigExp, Slot};
use rfe::spectrum_analyzer::{
    center_span_to_start_stop, expected_sweep_len, needs_large_sweep_points_command,
    validate_activate_expansion, validate_activate_main, validate_min_max_amps,
    validate_start_stop, validate_sweep_len_support, DspMode, Model, Rejection, TrackingStatus,
};
use rfe::{
    connection_attempts, find_port, next_read_step, Frequency, ReadOutcome, ReadStep,
    SerialNumber, SerialPortEntry,
};

#[test]
fn start_stop_rules() {
    let mhz = Frequency::from_mhz;
    let model = Model::Rfe433M;
    assert_eq!(validate_start_stop(model, mhz(432), mhz(436)), Ok(()));
    assert_eq!(
        validate_start_stop(model, mhz(436), mhz(436)),
        Err(Rejection::StartNotBelowStop)
    );
    assert_eq!(
        validate_start_stop(model, mhz(437), mhz(436)),
        Err(Rejection::StartNotBelowStop)
    );
    assert_eq!(
        validate_start_stop(model, mhz(420), mhz(436)),
        Err(Rejection::StartOutOfRange)
    );
    assert_eq!(
        validate_start_stop(model, mhz(432), mhz(441)),
        Err(Rejection::StopOutOfRange)
    );
    // 50 kHz is narrower than the 112 kHz that the model needs at least
    assert_eq!(
        validate_start_stop(model, Frequency::from_khz(432_000), Frequency::from_khz(432_050)),
        Err(Rejection::SpanOutOfRange)
    );
    // the whole range is exactly the widest span
    assert_eq!(validate_start_stop(model, mhz(430), mhz(440)), Ok(()));
    assert_eq!(
        validate_start_stop(Model::RfeWSub3G, mhz(100), mhz(800)),
        Err(Rejection::SpanOutOfRange)
    );
}

#[test]
fn amplitude_rules() {
    assert_eq!(validate_min_max_amps(-120, 35), Ok(()));
    assert_eq!(validate_min_max_amps(-50, -50), Err(Rejection::MinAmpNotBelowMax));
    assert_eq!(validate_min_max_amps(10, -10), Err(Rejection::MinAmpNotBelowMax));
    assert_eq!(validate_min_max_amps(-121, 0), Err(Rejection::MinAmpOutOfRange));
    assert_eq!(validate_min_max_amps(-100, 36), Err(Rejection::MaxAmpOutOfRange));
}

#[test]
fn sweep_len_rules() {
    assert_eq!(expected_sweep_len(0), 112);
    assert_eq!(expected_sweep_len(111), 112);
    assert_eq!(expected_sweep_len(112), 112);
    assert_eq!(expected_sweep_len(127), 112);
    assert_eq!(expected_sweep_len(128), 128);
    assert_eq!(expected_sweep_len(4_095), 4_080);
    assert_eq!(expected_sweep_len(65_535), 65_520);
    assert!(!needs_large_sweep_points_command(4_096));
    assert!(needs_large_sweep_points_command(4_097));
    assert_eq!(validate_sweep_len_support(Model::Rfe6GPlus), Ok(()));
    assert_eq!(
        validate_sweep_len_support(Model::Rfe6G),
        Err(Rejection::SweepLenNotSupported)
    );
}

#[test]
fn center_and_span() {
    let (start, stop) =
        center_span_to_start_stop(Frequency::from_mhz(435), Frequency::from_hz(2_000_001));
    assert_eq!(start.as_hz(), 434_000_000);
    assert_eq!(stop.as_hz(), 436_000_000);
}

#[test]
fn radio_module_activation_rules() {
    let main = RadioModule::Main {
        model: Model::Rfe433M,
    };
    let expansion = RadioModule::Expansion {
        model: Model::Rfe24G,
    };
    assert_eq!(validate_activate_main(main), Err(Rejection::MainAlreadyActive));
    assert_eq!(validate_activate_main(expansion), Ok(()));
    assert_eq!(
        validate_activate_expansion(None, main),
        Err(Rejection::NoExpansionModule)
    );
    assert_eq!(validate_activate_expansion(Some(expansion), main), Ok(()));
    assert_eq!(
        validate_activate_expansion(Some(expansion), expansion),
        Err(Rejection::ExpansionAlreadyActive)
    );
}

fn entry(name: &str, usb_ids: Option<(u16, u16)>) -> SerialPortEntry {
    SerialPortEntry {
        port_name: name.to_string(),
        usb_ids,
    }
}

#[test]
fn connection_attempts_fast_then_slow() {
    let ports = vec![
        entry("COM1", None),
        entry("COM3", Some((0x10c4, 0xea60))),
        entry("COM4", Some((0x10c4, 0xea60))),
    ];
    assert_eq!(
        connection_attempts(&ports),
        vec![
            ("COM3".to_string(), 500_000),
            ("COM3".to_string(), 2_400),
            ("COM4".to_string(), 500_000),
            ("COM4".to_string(), 2_400),
        ]
    );
    assert_eq!(find_port(&ports, &"COM4".to_string()), Some(2));
    assert_eq!(find_port(&ports, &"COM9".to_string()), None);
}

#[test]
fn reading_loop_steps() {
    let timed_out: ReadStep<SerialNumber> = next_read_step(ReadOutcome::TimedOut, b"");
    assert_eq!(timed_out, ReadStep::RetryAfterPause);
    let failed: ReadStep<SerialNumber> = next_read_step(ReadOutcome::Failed, b"");
    assert_eq!(failed, ReadStep::Stop);
    let cached: ReadStep<SerialNumber> =
        next_read_step(ReadOutcome::Line, b"#Sn0SME38SI2X7NGR48\r\n");
    match cached {
        ReadStep::Cache(serial_number) => assert_eq!(serial_number.as_str(), "0SME38SI2X7NGR48"),
        other => panic!("unexpected {other:?}"),
    }
    let junk: ReadStep<SerialNumber> = next_read_step(ReadOutcome::Line, b"garbage\r\n");
    assert_eq!(junk, ReadStep::ClearBuffer);
}

fn setup_info(
    main: Option<SgModel>,
    expansion: Option<SgModel>,
) -> SetupInfo<SgModel> {
    SetupInfo {
        main_radio_model: main,
        expansion_radio_model: expansion,
        firmware_version: "01.07".to_string(),
    }
}

#[test]
fn signal_generator_cache() {
    let mut cache = rfe::signal_generator::MessageCache::new();
    assert!(!cache.has_device_info());
    assert_eq!(cache.firmware_version(), "");

    let effect = cache.cache_message(rfe::signal_generator::Message::Config(Config::default()));
    assert_eq!(
        effect,
        CacheEffect {
            wakes: Slot::Config,
            runs_callback: true
        }
    );
    assert!(!cache.has_device_info());

    let effect = cache.cache_message(rfe::signal_generator::Message::SetupInfo(setup_info(
        Some(SgModel::Rfe6Gen),
        Some(SgModel::Rfe6GenExpansion),
    )));
    assert_eq!(
        effect,
        CacheEffect {
            wakes: Slot::SetupInfo,
            runs_callback: false
        }
    );
    assert!(cache.has_device_info());
    assert_eq!(cache.firmware_version(), "01.07");
    assert_eq!(
        RfExplorerMessageContainer::setup_info(&cache).map(|info| info.firmware_version.clone()),
        Some("01.07".to_string())
    );
    assert_eq!(cache.active_radio_model(), SgModel::Rfe6Gen);
    assert_eq!(cache.inactive_radio_model(), Some(SgModel::Rfe6GenExpansion));

    let effect = cache.cache_message(rfe::signal_generator::Message::ConfigExp(ConfigExp::default()));
    assert_eq!(effect.wakes, Slot::ConfigExp);
    assert_eq!(cache.active_radio_model(), SgModel::Rfe6GenExpansion);
    assert_eq!(cache.inactive_radio_model(), Some(SgModel::Rfe6Gen));

    // an expansion amplitude sweep configuration wakes the waiters of its own slot
    let effect = cache.cache_message(rfe::signal_generator::Message::ConfigAmpSweepExp(ConfigAmpSweepExp::default()));
    assert_eq!(effect.wakes, Slot::ConfigAmpSweepExp);
    assert!(effect.runs_callback);
    assert!(cache.config_amp_sweep_exp.is_some());
    assert!(cache.config_amp_sweep.is_none());
    assert!(cache.has_device_info());
    // storing messages never empties a slot
    assert_eq!(cache.config, Some(Config::default()));
    assert!(cache.setup_info.is_some());
    assert!(cache.config_exp.is_some());
}

#[test]
fn spectrum_analyzer_cache() {
    let mut cache = rfe::spectrum_analyzer::MessageCache::new();
    assert!(!cache.has_dsp_mode(DspMode::Auto));
    cache.cache_message(rfe::spectrum_analyzer::Message::DspMode(DspMode::Fast));
    assert!(cache.has_dsp_mode(DspMode::Fast));
    assert!(!cache.has_dsp_mode(DspMode::Auto));
    cache.cache_message(rfe::spectrum_analyzer::Message::TrackingStatus(TrackingStatus::Enabled));
    assert_eq!(cache.tracking_status, Some(TrackingStatus::Enabled));
    cache.clear_tracking_status();
    assert_eq!(cache.tracking_status, None);
    assert_eq!(cache.dsp_mode, Some(DspMode::Fast));
    assert_eq!(cache.firmware_version(), "");
    assert!(RfExplorerMessageContainer::setup_info(&cache).is_none());
}

#[test]
fn signal_generator_messages_by_prefix() {
    let m = rfe::signal_generator::Message::try_from(b"#T:3\r\n".as_ref()).unwrap();
    assert_eq!(
        m,
        rfe::signal_generator::Message::Temperature(rfe::signal_generator::Temperature::TwentyToThirty)
    );
    let m = rfe::signal_generator::Message::try_from(b"#C3-M:060,061,01.07\r\n".as_ref()).unwrap();
    assert_eq!(
        m,
        rfe::signal_generator::Message::SetupInfo(SetupInfo {
            main_radio_model: Some(SgModel::Rfe6Gen),
            expansion_radio_model: Some(SgModel::Rfe6GenExpansion),
            firmware_version: "01.07".to_string(),
        })
    );
    let m = rfe::signal_generator::Message::try_from(b"#C3-G:0186525,0186525,0005,0001000,0,3,0\r\n".as_ref())
        .unwrap();
    assert!(matches!(m, rfe::signal_generator::Message::ConfigCw(_)));
    assert_eq!(
        rfe::signal_generator::Message::try_from(b"#C3-*:bad\r\n".as_ref()),
        Err(MessageParseError::Invalid)
    );
    assert_eq!(
        rfe::signal_generator::Message::try_from(b"#X:1\r\n".as_ref()),
        Err(MessageParseError::UnknownMessageType)
    );
    let step: ReadStep<rfe::signal_generator::Message> =
        next_read_step(ReadOutcome::Line, b"#T:9\r\n");
    assert_eq!(step, ReadStep::ClearBuffer);
    let step: ReadStep<rfe::signal_generator::Message> =
        next_read_step(ReadOutcome::Line, b"#T:0\r\n");
    assert_eq!(
        step,
        ReadStep::Cache(rfe::signal_generator::Message::Temperature(
            rfe::signal_generator::Temperature::MinusTenToZero
        ))
    );
}

#[test]
fn spectrum_analyzer_messages_by_prefix() {
    let m = rfe::spectrum_analyzer::Message::try_from(b"DSP:2".as_ref()).unwrap();
    assert_eq!(m, rfe::spectrum_analyzer::Message::DspMode(DspMode::Fast));
    let m = rfe::spectrum_analyzer::Message::try_from(b"#C2-M:004,255,01.12\r\n".as_ref()).unwrap();
    assert_eq!(
        m,
        rfe::spectrum_analyzer::Message::SetupInfo(SetupInfo {
            main_radio_model: Some(Model::Rfe24G),
            expansion_radio_model: None,
            firmware_version: "01.12".to_string(),
        })
    );
    let m = rfe::spectrum_analyzer::Message::try_from([b'#', b'K', 1].as_ref()).unwrap();
    assert_eq!(m, rfe::spectrum_analyzer::Message::TrackingStatus(TrackingStatus::Enabled));
    assert_eq!(
        rfe::spectrum_analyzer::Message::try_from(b"#a9".as_ref()),
        Err(MessageParseError::Invalid)
    );
    assert_eq!(
        rfe::spectrum_analyzer::Message::try_from(b"$Sxyz".as_ref()),
        Err(MessageParseError::UnknownMessageType)
    );
}

#[test]
fn model_names_are_distinct() {
    let models: Vec<Model> = (0..=255u8).filter_map(Model::from_code).collect();
    for a in &models {
        for b in &models {
            if a != b {
                assert_ne!(a.name(), b.name());
            }
        }
    }
    assert_eq!(Model::Rfe24GPlus.name(), "2.4G+");
    assert_eq!(Model::RfeWSub1GPlus.name(), "WSUB1G+");
    assert_eq!(Model::RfeMW5G3G.name(), "MW5G 3GHz");
    assert_eq!(Model::Unknown.name(), "Unknown");
    assert_ne!(SgModel::Rfe6Gen.name(), SgModel::Rfe6GenExpansion.name());
}

#[test]
fn serial_number_as_ref() {
    let serial_number = SerialNumber::try_from(b"#Sn0SME38SI2X7NGR48".as_ref()).unwrap();
    let text: &str = serial_number.as_ref();
    assert_eq!(text, "0SME38SI2X7NGR48");
}

#[test]
fn float_texts() {
    use_float(b"-10.5", true);
    use_float(b"+05.0", true);
    use_float(b"1e-05", true);
    use_float(b"00.5E", false);
    use_float(b".5", true);
    use_float(b"5.", true);
    use_float(b".", false);
    use_float(b"1.2.3", false);
    use_float(b"+inf", true);
    use_float(b"-NaN", true);
    use_float(b"Infinity", true);
    use_float(b"infin", false);
    use_float(b"", false);
    use_float(b" 1.0", false);
    use_float(b"1e", false);
    use_float(b"1e+", false);
    use_float(b"-1x.5", false);
}

fn use_float(text: &[u8], expected: bool) {
    assert_eq!(rfe::float_text::is_float_text(text), expected, "{text:?}");
    let std_accepts = std::str::from_utf8(text).map(|s| s.parse::<f32>().is_ok()).unwrap_or(false);
    assert_eq!(std_accepts, expected, "{text:?}");
}
