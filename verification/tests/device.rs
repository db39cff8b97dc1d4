use rfe::ffi::{RfExplorerResult, SignalGeneratorRadioModule};
use rfe::serial_port::{bps_to_code, is_silabs_cp210x, CP210X_PID, SILABS_VID};
use rfe::spectrum_analyzer::{Model, WifiBand};
use rfe::{is_driver_installed, port_names, BaudRate, Error, Frequency, RadioModule, SerialPortEntry};

#[test]
fn baud_rates_and_codes() {
    assert_eq!(bps_to_code(1_200).unwrap(), b'1');
    assert_eq!(bps_to_code(2_400).unwrap(), b'2');
    assert_eq!(bps_to_code(115_200).unwrap(), b'8');
    assert_eq!(bps_to_code(500_000).unwrap(), b'0');
    match bps_to_code(300) {
        Err(Error::InvalidInput(message)) => assert_eq!(message, "Invalid baud rate"),
        other => panic!("unexpected {other:?}"),
    }
    let default = BaudRate::default();
    assert_eq!(default.bps(), 500_000);
    assert_eq!(default.code(), b'0');
    let slow = BaudRate::try_from(2_400).unwrap();
    assert_eq!(slow.bps(), 2_400);
    assert_eq!(slow.code(), b'2');
    assert!(BaudRate::try_from(14_400).is_err());
}

fn entry(name: &str, usb_ids: Option<(u16, u16)>) -> SerialPortEntry {
    SerialPortEntry {
        port_name: name.to_string(),
        usb_ids,
    }
}

#[test]
fn only_cp210x_ports_are_listed() {
    let ports = vec![
        entry("/dev/ttyS0", None),
        entry("/dev/ttyUSB0", Some((SILABS_VID, CP210X_PID))),
        entry("/dev/ttyUSB1", Some((SILABS_VID, 1))),
        entry("/dev/ttyUSB2", Some((0x0403, CP210X_PID))),
        entry("/dev/ttyUSB3", Some((0x10c4, 0xea60))),
    ];
    assert!(!is_silabs_cp210x(&ports[0]));
    assert!(is_silabs_cp210x(&ports[1]));
    assert!(!is_silabs_cp210x(&ports[2]));
    assert_eq!(
        port_names(&ports),
        vec!["/dev/ttyUSB0".to_string(), "/dev/ttyUSB3".to_string()]
    );
    assert!(port_names(&Vec::new()).is_empty());
}

#[test]
fn driver_installed_when_any_probe_finds_it() {
    assert!(!is_driver_installed(&vec![]));
    assert!(!is_driver_installed(&vec![false, false]));
    assert!(is_driver_installed(&vec![false, true]));
    assert!(is_driver_installed(&vec![true]));
}

#[test]
fn spectrum_analyzer_models() {
    assert_eq!(Model::from_code(0), Some(Model::Rfe433M));
    assert_eq!(Model::from_code(7), None);
    assert_eq!(Model::from_code(15), None);
    assert_eq!(Model::from_code(19), Some(Model::Unknown));
    assert_eq!(Model::from_code(254), Some(Model::Unknown));
    assert_eq!(Model::from_code(255), None);
    assert_eq!(Model::Rfe6GPlus.code(), 14);
    assert!(Model::Rfe6GPlus.is_plus_model());
    assert!(!Model::Rfe6G.is_plus_model());
    assert!(Model::Rfe24G.has_wifi_analyzer());
    assert!(!Model::Rfe433M.has_wifi_analyzer());
    assert_eq!(Model::Rfe433M.min_freq().as_hz(), 430_000_000);
    assert_eq!(Model::Rfe433M.max_freq().as_hz(), 440_000_000);
    assert_eq!(Model::RfeWSub1GPlus.min_span().as_hz(), 100_000);
    assert_eq!(Model::Rfe6GPlus.max_span().as_hz(), 960_000_000);
    assert_eq!(Model::Rfe24GPlus.name(), "2.4G+");
    for code in 0..=255u8 {
        if let Some(model) = Model::from_code(code) {
            assert!(model.min_freq().as_hz() < model.max_freq().as_hz());
            assert!(model.min_span().as_hz() <= model.max_span().as_hz());
            if model != Model::Unknown {
                assert_eq!(Model::from_code(model.code()), Some(model));
            }
        }
    }
}

#[test]
fn wifi_band_codes() {
    assert_eq!(WifiBand::TwoPointFourGhz.code(), 1);
    assert_eq!(WifiBand::FiveGhz.code(), 2);
}

#[test]
fn frequency_units() {
    let f = Frequency::from_mhz(2_400);
    assert_eq!(f.as_hz(), 2_400_000_000);
    assert_eq!(f.as_khz(), 2_400_000);
    assert_eq!(f.as_mhz(), 2_400);
    assert_eq!(Frequency::from_ghz(6).as_mhz(), 6_000);
    assert_eq!(Frequency::from_khz(1_500).as_mhz(), 1);
    assert_eq!(Frequency::from_hz(999).as_khz(), 0);
}

#[test]
fn radio_modules() {
    let main = RadioModule::Main {
        model: Model::Rfe24G,
    };
    let expansion = RadioModule::Expansion {
        model: Model::RfeWSub3G,
    };
    assert!(main.is_main());
    assert!(!main.is_expansion());
    assert!(expansion.is_expansion());
    assert_eq!(expansion.model(), Model::RfeWSub3G);
}

#[test]
fn ffi_status_codes() {
    let ok: rfe::Result<u8> = Ok(1);
    assert_eq!(rfe::ffi::Result::from_result(&ok), rfe::ffi::Result::Success);
    let invalid: rfe::Result<u8> = Err(Error::InvalidInput("x".to_string()));
    assert_eq!(rfe::ffi::Result::from_result(&invalid), rfe::ffi::Result::InvalidInputError);
    assert_eq!(
        rfe::ffi::Result::from_error(&Error::InvalidOperation("x".to_string())),
        rfe::ffi::Result::InvalidOperationError
    );
    assert_eq!(
        rfe::ffi::Result::from_error(&Error::TimedOut(std::time::Duration::from_secs(1))),
        rfe::ffi::Result::TimeoutError
    );
    assert_eq!(
        rfe::ffi::Result::from_error(&Error::IncompatibleFirmware("x".to_string())),
        rfe::ffi::Result::IoError
    );
    let io: std::io::Result<()> = Err(std::io::ErrorKind::TimedOut.into());
    assert_eq!(rfe::ffi::Result::from_io_result(&io), rfe::ffi::Result::IoError);
    assert_eq!(rfe::ffi::Result::from_io_result(&Ok(())), rfe::ffi::Result::Success);
    assert_eq!(
        RfExplorerResult::from_error(&Error::InvalidInput("x".to_string())),
        RfExplorerResult::InvalidInputError
    );
}

#[test]
fn ffi_signal_generator_radio_module() {
    let module = SignalGeneratorRadioModule::from(RadioModule::Expansion {
        model: rfe::signal_generator::Model::Rfe6GenExpansion,
    });
    assert!(module.is_expansion_radio_module);
    assert_eq!(module.model, rfe::signal_generator::Model::Rfe6GenExpansion);
    let module = SignalGeneratorRadioModule::from(RadioModule::Main {
        model: rfe::signal_generator::Model::Rfe6Gen,
    });
    assert!(!module.is_expansion_radio_module);
}

#[test]
fn decimal_text() {
    let mut out = Vec::new();
    rfe::decimal::push_decimal(&mut out, 0);
    rfe::decimal::push_decimal(&mut out, 1_205);
    rfe::decimal::push_zero_padded(&mut out, 42, 5);
    rfe::decimal::push_zero_padded(&mut out, 123_456, 3);
    assert_eq!(out, b"0120500042123456".to_vec());
}
