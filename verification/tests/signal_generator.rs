use rfe::signal_generator::{
    active_radio_model, inactive_radio_model, Attenuation, Command, Config, ConfigAmpSweep,
    ConfigAmpSweepExp, ConfigCw, ConfigCwExp, ConfigExp, Model, PowerLevel, RfPower,
};
use rfe::Frequency;
use rfe::MessageParseError;

#[test]
fn config_parse_config() {
    let bytes = b"#C3-*:0510000,0186525,0005,0001000,0,3,0000,0,0,1,3,0,00100\r\n";
    let config = Config::try_from(bytes.as_ref()).unwrap();
    assert_eq!(config.start.as_hz(), 510_000_000);
    assert_eq!(config.cw.as_hz(), 186_525_000);
    assert_eq!(config.total_steps, 5);
    assert_eq!(config.step.as_hz(), 1_000_000);
    assert_eq!(config.attenuation, Attenuation::On);
    assert_eq!(config.power_level, PowerLevel::Highest);
    assert_eq!(config.sweep_power_steps, 0);
    assert_eq!(config.start_attenuation, Attenuation::On);
    assert_eq!(config.start_power_level, PowerLevel::Lowest);
    assert_eq!(config.stop_attenuation, Attenuation::Off);
    assert_eq!(config.stop_power_level, PowerLevel::Highest);
    assert_eq!(config.rf_power, RfPower::On);
    assert_eq!(config.sweep_delay.as_millis(), 100);
}

#[test]
fn config_amp_sweep_parse_config() {
    let bytes = b"#C3-A:0186525,0000,0,0,1,3,0,00100\r\n";
    let config_amp_sweep = ConfigAmpSweep::try_from(bytes.as_ref()).unwrap();
    assert_eq!(config_amp_sweep.cw.as_khz(), 186_525);
    assert_eq!(config_amp_sweep.sweep_power_steps, 0);
    assert_eq!(config_amp_sweep.start_attenuation, Attenuation::On);
    assert_eq!(config_amp_sweep.start_power_level, PowerLevel::Lowest);
    assert_eq!(config_amp_sweep.stop_attenuation, Attenuation::Off);
    assert_eq!(config_amp_sweep.stop_power_level, PowerLevel::Highest);
    assert_eq!(config_amp_sweep.rf_power, RfPower::On);
    assert_eq!(config_amp_sweep.sweep_delay.as_millis(), 100);
}

#[test]
fn parse_config_cw() {
    let bytes = b"#C3-G:0186525,0186525,0005,0001000,0,3,0\r\n";
    let config_cw = ConfigCw::try_from(bytes.as_ref()).unwrap();
    assert_eq!(config_cw.cw.as_khz(), 186_525);
    assert_eq!(config_cw.total_steps, 5);
    assert_eq!(config_cw.step_freq.as_khz(), 1_000);
    assert_eq!(config_cw.attenuation, Attenuation::On);
    assert_eq!(config_cw.power_level, PowerLevel::Highest);
    assert_eq!(config_cw.rf_power, RfPower::On);
}

#[test]
fn config_keeps_the_given_timestamp() {
    let bytes = b"#C3-*:0510000,0186525,0005,0001000,1,2,0007,1,1,0,0,1,65535";
    let config = Config::parse(bytes.as_ref(), 1_700_000_000_123).unwrap();
    assert_eq!(config.timestamp, 1_700_000_000_123);
    assert_eq!(config.attenuation, Attenuation::Off);
    assert_eq!(config.power_level, PowerLevel::High);
    assert_eq!(config.sweep_power_steps, 7);
    assert_eq!(config.start_power_level, PowerLevel::Low);
    assert_eq!(config.rf_power, RfPower::Off);
    assert_eq!(config.sweep_delay.as_millis(), 65_535);
}

#[test]
fn config_rejects_bad_fields() {
    // a sweep delay above u16::MAX
    let bytes = b"#C3-*:0510000,0186525,0005,0001000,0,3,0000,0,0,1,3,0,65536\r\n";
    assert_eq!(Config::try_from(bytes.as_ref()), Err(MessageParseError::Invalid));
    // a power level of 4
    let bytes = b"#C3-*:0510000,0186525,0005,0001000,0,4,0000,0,0,1,3,0,00100\r\n";
    assert_eq!(Config::try_from(bytes.as_ref()), Err(MessageParseError::Invalid));
    // a missing field
    let bytes = b"#C3-*:0510000,0186525,0005,0001000,0,3,0000,0,0,1,3,0\r\n";
    assert_eq!(Config::try_from(bytes.as_ref()), Err(MessageParseError::Invalid));
    // bytes after the line end
    let bytes = b"#C3-*:0510000,0186525,0005,0001000,0,3,0000,0,0,1,3,0,00100\r\nX";
    assert_eq!(Config::try_from(bytes.as_ref()), Err(MessageParseError::Invalid));
    // another prefix
    let bytes = b"#C3-A:0186525,0000,0,0,1,3,0,00100\r\n";
    assert_eq!(Config::try_from(bytes.as_ref()), Err(MessageParseError::Invalid));
}

#[test]
fn config_cw_and_amp_sweep_reject_bad_fields() {
    assert!(ConfigCw::try_from(b"#C3-G:0186525,0186525,0005,0001000,2,3,0\r\n".as_ref()).is_err());
    assert!(ConfigCw::try_from(b"#C3-G:0186525,0186525,0005,0001000,0,3,2\r\n".as_ref()).is_err());
    assert!(ConfigAmpSweep::try_from(b"#C3-A:0186525,0000,0,0,1,3,0,0010\r\n".as_ref()).is_err());
    let amp = ConfigAmpSweep::parse(b"#C3-A:0000001,0012,1,2,0,1,1,00000".as_ref(), 5).unwrap();
    assert_eq!(amp.cw.as_hz(), 1_000);
    assert_eq!(amp.sweep_power_steps, 12);
    assert_eq!(amp.start_attenuation, Attenuation::Off);
    assert_eq!(amp.rf_power, RfPower::Off);
    assert_eq!(amp.timestamp, 5);
}

#[test]
fn codes_of_settings() {
    assert_eq!(Attenuation::from_code(0), Some(Attenuation::On));
    assert_eq!(Attenuation::from_code(1), Some(Attenuation::Off));
    assert_eq!(Attenuation::from_code(2), None);
    assert_eq!(PowerLevel::from_code(3), Some(PowerLevel::Highest));
    assert_eq!(PowerLevel::from_code(4), None);
    assert_eq!(PowerLevel::Low.code(), 1);
    assert_eq!(RfPower::from_code(0), Some(RfPower::On));
    assert_eq!(RfPower::Off.code(), 1);
}

#[test]
fn command_correct_command_size_fields() {
    let commands = [
        rfe::command::Command::RequestConfig,
        rfe::command::Command::RequestSerialNumber,
        rfe::command::Command::EnableLcd,
        rfe::command::Command::DisableLcd,
        rfe::command::Command::EnableDumpScreen,
        rfe::command::Command::DisableDumpScreen,
        rfe::command::Command::Hold,
        rfe::command::Command::SetBaudRate {
            baud_rate: rfe::BaudRate::default(),
        },
        rfe::command::Command::Reboot,
        rfe::command::Command::PowerOff,
    ];
    for command in commands {
        let command_bytes = command.to_bytes();
        assert_eq!(command_bytes[1], command_bytes.len() as u8);
    }
}

#[test]
fn device_command_bytes() {
    assert_eq!(rfe::command::Command::RequestConfig.to_bytes(), b"#\x04C0".to_vec());
    assert_eq!(rfe::command::Command::Reboot.to_bytes(), b"#\x03r".to_vec());
    let baud_rate = rfe::BaudRate::try_from(115_200).unwrap();
    assert_eq!(
        rfe::command::Command::SetBaudRate { baud_rate }.to_bytes(),
        b"#\x04c8".to_vec()
    );
}

#[test]
fn signal_generator_command_size_fields() {
    let commands = [
        Command::RfPowerOn,
        Command::RfPowerOff,
        Command::StartAmpSweep {
            cw: Frequency::from_khz(100_000),
            start_attenuation: Attenuation::On,
            start_power_level: PowerLevel::Low,
            stop_attenuation: Attenuation::Off,
            stop_power_level: PowerLevel::Highest,
            step_delay_ms: 1_000,
        },
        Command::StartCw {
            cw: Frequency::from_khz(100_000),
            attenuation: Attenuation::On,
            power_level: PowerLevel::Low,
        },
        Command::StartFreqSweep {
            start: Frequency::from_khz(100_000),
            attenuation: Attenuation::On,
            power_level: PowerLevel::Low,
            sweep_steps: 40,
            step: Frequency::from_khz(10),
            step_delay_ms: 10,
        },
        Command::StartTracking {
            start: Frequency::from_khz(100_000),
            attenuation: Attenuation::On,
            power_level: PowerLevel::Low,
            sweep_steps: 40,
            step: Frequency::from_khz(10),
        },
        Command::TrackingStep(5),
    ];
    for command in commands {
        let command_bytes = command.to_bytes();
        assert_eq!(command_bytes[1], command_bytes.len() as u8);
    }
}

#[test]
fn signal_generator_command_bytes() {
    let cw = Command::StartCw {
        cw: Frequency::from_khz(186_525),
        attenuation: Attenuation::Off,
        power_level: PowerLevel::High,
    };
    assert_eq!(cw.to_bytes(), b"#\x12C3-F:0186525,1,2".to_vec());
    let sweep = Command::StartFreqSweep {
        start: Frequency::from_khz(100_000),
        attenuation: Attenuation::On,
        power_level: PowerLevel::Low,
        sweep_steps: 40,
        step: Frequency::from_khz(10),
        step_delay_ms: 10,
    };
    assert_eq!(sweep.to_bytes(), b"#\x25C3-F:0100000,0,1,0040,0000010,00010".to_vec());
    let tracking = Command::StartTracking {
        start: Frequency::from_khz(100_000),
        attenuation: Attenuation::On,
        power_level: PowerLevel::Low,
        sweep_steps: 40,
        step: Frequency::from_khz(10),
    };
    assert_eq!(tracking.to_bytes(), b"#\x1fC3-T:0100000,0,1,0040,0000010".to_vec());
    assert_eq!(Command::TrackingStep(258).to_bytes(), vec![b'#', 5, b'k', 1, 2]);
    assert_eq!(Command::RfPowerOn.to_bytes(), b"#\x05CP1".to_vec());
    assert_eq!(Command::RfPowerOff.to_bytes(), b"#\x05CP0".to_vec());
}

#[test]
fn amp_sweep_command_size_field_is_its_length() {
    let command = Command::StartAmpSweep {
        cw: Frequency::from_khz(186_525),
        start_attenuation: Attenuation::On,
        start_power_level: PowerLevel::Lowest,
        stop_attenuation: Attenuation::Off,
        stop_power_level: PowerLevel::Highest,
        step_delay_ms: 100,
    };
    let bytes = command.to_bytes();
    assert_eq!(bytes, b"#\x1cC3-A:0186525,0,0,1,3,00100".to_vec());
    assert_eq!(bytes[1] as usize, bytes.len());
}

#[test]
fn signal_generator_models() {
    assert_eq!(Model::from_code(60), Some(Model::Rfe6Gen));
    assert_eq!(Model::from_code(61), Some(Model::Rfe6GenExpansion));
    assert_eq!(Model::from_code(62), None);
    assert_eq!(Model::Rfe6GenExpansion.code(), 61);
    assert_eq!(Model::Rfe6Gen.min_freq().as_hz(), 23_400_000);
    assert_eq!(Model::Rfe6Gen.max_freq().as_hz(), 6_000_000_000);
    assert_eq!(Model::Rfe6Gen.name(), "6Gen");
    assert_eq!(Model::Rfe6GenExpansion.name(), "6Gen Expansion");
}

#[test]
fn active_and_inactive_radio_models() {
    let main = Some(Model::Rfe6Gen);
    let expansion = Some(Model::Rfe6GenExpansion);
    assert_eq!(active_radio_model(main, None, true), Model::Rfe6Gen);
    assert_eq!(inactive_radio_model(main, None, true), None);
    assert_eq!(active_radio_model(main, expansion, true), Model::Rfe6GenExpansion);
    assert_eq!(inactive_radio_model(main, expansion, true), main);
    assert_eq!(active_radio_model(main, expansion, false), Model::Rfe6Gen);
    assert_eq!(inactive_radio_model(main, expansion, false), expansion);
    assert_eq!(active_radio_model(None, None, false), Model::Rfe6Gen);
}

#[test]
fn expansion_config_keeps_power_texts() {
    let bytes = b"#C5-*:0510000,0186525,0005,0001000,-10.5,+01.0,-40.0,+05.0,0,00100\r\n";
    let config = ConfigExp::parse(bytes.as_ref(), 7).unwrap();
    assert_eq!(config.start.as_khz(), 510_000);
    assert_eq!(config.cw.as_khz(), 186_525);
    assert_eq!(config.total_steps, 5);
    assert_eq!(config.step.as_khz(), 1_000);
    assert_eq!(&config.power_dbm, b"-10.5");
    assert_eq!(&config.step_power_dbm, b"+01.0");
    assert_eq!(&config.start_power_dbm, b"-40.0");
    assert_eq!(&config.stop_power_dbm, b"+05.0");
    assert!(config.rf_power_on);
    assert_eq!(config.sweep_delay.as_millis(), 100);
    assert_eq!(config.timestamp, 7);
    let off = b"#C5-*:0510000,0186525,0005,0001000,-10.5,+01.0,-40.0,+05.0,1,00100";
    assert!(!ConfigExp::try_from(off.as_ref()).unwrap().rf_power_on);
    let short = b"#C5-*:0510000,0186525,0005,0001000,-10.5,+01.0,-40.0,+5.0,1,00100";
    assert_eq!(ConfigExp::try_from(short.as_ref()), Err(MessageParseError::Invalid));
    let not_a_number = b"#C5-*:0510000,0186525,0005,0001000,-10.5,+01.0,-4x.0,+05.0,1,00100";
    assert_eq!(ConfigExp::try_from(not_a_number.as_ref()), Err(MessageParseError::Invalid));
    let exponent = b"#C5-*:0510000,0186525,0005,0001000,1e-05,+01.0,-40.0,+05.0,1,00100";
    assert_eq!(&ConfigExp::try_from(exponent.as_ref()).unwrap().power_dbm, b"1e-05");
}

#[test]
fn expansion_amp_sweep_and_cw_configs() {
    let amp = ConfigAmpSweepExp::try_from(b"#C5-A:0186525,-30.0,+00.5,-10.0,00250\r".as_ref())
        .unwrap();
    assert_eq!(amp.cw.as_khz(), 186_525);
    assert_eq!(&amp.start_power_dbm, b"-30.0");
    assert_eq!(&amp.step_power_dbm, b"+00.5");
    assert_eq!(&amp.stop_power_dbm, b"-10.0");
    assert_eq!(amp.sweep_delay.as_millis(), 250);
    assert!(ConfigAmpSweepExp::try_from(b"#C5-A:0186525,-30.0,+00.5,-10.0".as_ref()).is_err());
    let cw = ConfigCwExp::try_from(b"#C5-G:0186525,+10.0,1\r\n".as_ref()).unwrap();
    assert_eq!(cw.cw.as_khz(), 186_525);
    assert_eq!(&cw.power_dbm, b"+10.0");
    assert_eq!(cw.rf_power, RfPower::Off);
    assert!(ConfigCwExp::try_from(b"#C5-G:0186525,+10.0,2".as_ref()).is_err());
    assert!(ConfigCwExp::try_from(b"#C5-G:0186525,+1..0,1".as_ref()).is_err());
    assert!(ConfigAmpSweepExp::try_from(b"#C5-A:0186525,-30.0,abcde,-10.0,00250".as_ref()).is_err());
}

#[test]
fn signal_generator_correct_command_size_fields() {
    let commands = [
        Command::RfPowerOn,
        Command::RfPowerOff,
        Command::StartAmpSweep {
            cw: Frequency::from_khz(100_000),
            start_attenuation: Attenuation::On,
            start_power_level: PowerLevel::Low,
            stop_attenuation: Attenuation::Off,
            stop_power_level: PowerLevel::Highest,
            step_delay_ms: std::time::Duration::from_secs(1).as_millis(),
        },
        Command::StartCw {
            cw: Frequency::from_mhz(1),
            attenuation: Attenuation::Off,
            power_level: PowerLevel::Low,
        },
        Command::StartFreqSweep {
            start: Frequency::from_ghz(1),
            attenuation: Attenuation::Off,
            power_level: PowerLevel::High,
            sweep_steps: 10,
            step: Frequency::from_mhz(1),
            step_delay_ms: std::time::Duration::from_secs(2).as_millis(),
        },
    ];
    for command in commands {
        let command_bytes = command.to_bytes();
        assert_eq!(command_bytes[1], command_bytes.len() as u8);
    }
}

#[test]
fn default_baud_rate_command_bytes() {
    let baud_rate = rfe::BaudRate::default();
    assert_eq!(
        rfe::command::Command::SetBaudRate { baud_rate }.to_bytes(),
        vec![b'#', 4, b'c', b'0']
    );
}
