use rfe::message::MessageParseError;
use rfe::setup_info::SetupInfo;
use rfe::signal_generator::Temperature;
use rfe::spectrum_analyzer::{DspMode, InputStage, Model, TrackingStatus};
use rfe::{find_message_in_buf, SerialNumber};

#[test]
fn accept_valid_dsp_mode_message() {
    let bytes = b"DSP:0";
    let dsp_mode = DspMode::try_from(bytes.as_ref()).unwrap();
    assert_eq!(dsp_mode, DspMode::Auto);
}

#[test]
fn reject_with_invalid_prefix() {
    assert!(SerialNumber::try_from(b"$Sn0SME38SI2X7NGR48".as_ref()).is_err());
}

#[test]
fn accept_valid_serial_number() {
    assert!(SerialNumber::try_from(b"#Sn0SME38SI2X7NGR48".as_ref()).is_ok());
    assert!(SerialNumber::try_from(b"#SnB3AK7AL7CACAA74M\r\n".as_ref()).is_ok());
}

#[test]
fn accept_valid_tracking_status_message() {
    let bytes = [b'#', b'K', 0];
    let tracking_status = TrackingStatus::try_from(bytes.as_ref()).unwrap();
    assert_eq!(tracking_status, TrackingStatus::Disabled);
}

#[test]
fn serial_number_keeps_its_characters() {
    let serial_number = SerialNumber::try_from(b"#SnB3AK7AL7CACAA74M\r\n".as_ref()).unwrap();
    assert_eq!(serial_number.as_str(), "B3AK7AL7CACAA74M");
    assert_eq!(serial_number.to_string(), "B3AK7AL7CACAA74M");
}

#[test]
fn serial_number_rejects_short_long_and_symbols() {
    assert_eq!(
        SerialNumber::try_from(b"#Sn0SME38SI2X7NGR4".as_ref()),
        Err(MessageParseError::Invalid)
    );
    assert_eq!(
        SerialNumber::try_from(b"#Sn0SME38SI2X7NGR48X".as_ref()),
        Err(MessageParseError::Invalid)
    );
    assert_eq!(
        SerialNumber::try_from(b"#Sn0SME38SI2X7NG-48".as_ref()),
        Err(MessageParseError::Invalid)
    );
    assert_eq!(
        SerialNumber::try_from(b"#Sn0SME38SI2X7NGR48\n".as_ref()),
        Err(MessageParseError::Invalid)
    );
    assert!(SerialNumber::try_from(b"#Sn0SME38SI2X7NGR48\r".as_ref()).is_ok());
}

#[test]
fn dsp_mode_codes() {
    assert_eq!(DspMode::try_from(b"DSP:1\r\n".as_ref()), Ok(DspMode::Filter));
    assert_eq!(DspMode::try_from(b"DSP:2".as_ref()), Ok(DspMode::Fast));
    assert_eq!(DspMode::try_from(b"DSP:3".as_ref()), Ok(DspMode::NoImg));
    assert_eq!(DspMode::try_from(b"DSP:4".as_ref()), Err(MessageParseError::Invalid));
    assert_eq!(DspMode::try_from(b"DSQ:0".as_ref()), Err(MessageParseError::Invalid));
    assert_eq!(DspMode::Fast.code(), 2);
    assert_eq!(DspMode::from_code(3), Some(DspMode::NoImg));
    assert_eq!(DspMode::from_code(4), None);
}

#[test]
fn input_stage_codes() {
    assert_eq!(InputStage::try_from(b"#a0".as_ref()), Ok(InputStage::Direct));
    assert_eq!(InputStage::try_from(b"#a2\r\n".as_ref()), Ok(InputStage::Lna25dB));
    assert_eq!(InputStage::try_from(b"#a5".as_ref()), Err(MessageParseError::Invalid));
    assert_eq!(InputStage::Attenuator30dB.code(), b'1');
}

#[test]
fn tracking_status_enabled_and_unknown() {
    assert_eq!(TrackingStatus::try_from([b'#', b'K', 1].as_ref()), Ok(TrackingStatus::Enabled));
    assert_eq!(
        TrackingStatus::try_from([b'#', b'K', 2].as_ref()),
        Err(MessageParseError::Invalid)
    );
}

#[test]
fn temperature_messages_and_ranges() {
    assert_eq!(Temperature::try_from(b"#T:0\r\n".as_ref()), Ok(Temperature::MinusTenToZero));
    assert_eq!(Temperature::try_from(b"#T:6".as_ref()), Ok(Temperature::FiftyToSixty));
    assert_eq!(Temperature::try_from(b"#T:7".as_ref()), Err(MessageParseError::Invalid));
    assert_eq!(Temperature::MinusTenToZero.range(), -10..=0);
    assert_eq!(Temperature::TwentyToThirty.range(), 20..=30);
    for code in b'0'..=b'6' {
        let t = Temperature::from_code(code).unwrap();
        assert!(t.range().start() < t.range().end());
        assert_eq!(t.range().end() - t.range().start(), 10);
    }
}

#[test]
fn setup_info_with_both_modules() {
    let info = SetupInfo::<Model>::try_from_with_prefix(
        b"#C2-M:004,005,01.12B26\r\n".as_ref(),
        b"#C2-M:".as_ref(),
    )
    .unwrap();
    assert_eq!(info.main_radio_model, Some(Model::Rfe24G));
    assert_eq!(info.expansion_radio_model, Some(Model::RfeWSub3G));
    assert_eq!(info.firmware_version, "01.12B26");
}

#[test]
fn setup_info_without_expansion_module() {
    let info = SetupInfo::<Model>::try_from_with_prefix(
        b"#C2-M:003,255,01.15".as_ref(),
        b"#C2-M:".as_ref(),
    )
    .unwrap();
    assert_eq!(info.main_radio_model, Some(Model::RfeWSub1G));
    assert_eq!(info.expansion_radio_model, None);
    assert_eq!(info.firmware_version, "01.15");
}

#[test]
fn setup_info_rejects_unknown_model_and_bad_layout() {
    let prefix = b"#C2-M:".as_ref();
    assert!(SetupInfo::<Model>::try_from_with_prefix(b"#C2-M:007,255,01.15".as_ref(), prefix)
        .is_err());
    assert!(SetupInfo::<Model>::try_from_with_prefix(b"#C2-M:003;255,01.15".as_ref(), prefix)
        .is_err());
    assert!(SetupInfo::<Model>::try_from_with_prefix(b"#C3-M:003,255,01.15".as_ref(), prefix)
        .is_err());
    assert!(SetupInfo::<Model>::try_from_with_prefix(b"#C2-M:003,255,01\r15".as_ref(), prefix)
        .is_err());
}

#[test]
fn find_message_in_buf_reads_a_whole_message() {
    let found: Result<SerialNumber, _> = find_message_in_buf(b"#Sn0SME38SI2X7NGR48\r\n");
    assert_eq!(found.unwrap().as_str(), "0SME38SI2X7NGR48");
    let missing: Result<DspMode, _> = find_message_in_buf(b"DSP:9");
    assert_eq!(missing, Err(MessageParseError::Invalid));
}
