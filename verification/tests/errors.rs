use dht_sensor::DhtError;
use display_interface::DisplayError;
use wlan_temp_sensor::errors::{Error, FaultKind};
use wlan_temp_sensor::io_pin::PinError;
use wlan_temp_sensor::rgb_led::Channel;

#[test]
fn sensor_fault_blinks_every_500_ms() {
    assert_eq!(Error::Dht(DhtError::Timeout).error_interval(), 500);
    assert_eq!(FaultKind::SensorFault.interval(), 500);
}

#[test]
fn display_fault_blinks_every_1000_ms() {
    assert_eq!(Error::Display(DisplayError::BusWriteError).error_interval(), 1000);
    assert_eq!(FaultKind::DisplayFault.interval(), 1000);
}

#[test]
fn format_fault_blinks_every_1500_ms() {
    assert_eq!(Error::Fmt(core::fmt::Error).error_interval(), 1500);
    assert_eq!(FaultKind::FormatFault.interval(), 1500);
}

#[test]
fn each_kind_has_its_channel() {
    assert_eq!(FaultKind::SensorFault.channel(), Channel::Red);
    assert_eq!(FaultKind::FormatFault.channel(), Channel::Green);
    assert_eq!(FaultKind::DisplayFault.channel(), Channel::Blue);
}

#[test]
fn each_error_has_its_kind() {
    assert_eq!(Error::Dht(DhtError::ChecksumMismatch).kind(), FaultKind::SensorFault);
    assert_eq!(Error::Display(DisplayError::DCError).kind(), FaultKind::DisplayFault);
    assert_eq!(Error::Fmt(core::fmt::Error).kind(), FaultKind::FormatFault);
}

#[test]
fn pin_error_is_a_sensor_fault() {
    let error = Error::from(DhtError::PinError(PinError));
    assert!(matches!(error, Error::Dht(DhtError::PinError(PinError))));
    assert_eq!(error.kind(), FaultKind::SensorFault);
    assert_eq!(error.error_interval(), 500);
}

#[test]
fn timeout_is_a_sensor_fault() {
    let error = Error::from(DhtError::<PinError>::Timeout);
    assert!(matches!(error, Error::Dht(DhtError::Timeout)));
    assert_eq!(error.kind(), FaultKind::SensorFault);
    assert_eq!(error.error_interval(), 500);
}

#[test]
fn checksum_mismatch_is_a_sensor_fault() {
    let error = Error::from(DhtError::<PinError>::ChecksumMismatch);
    assert!(matches!(error, Error::Dht(DhtError::ChecksumMismatch)));
    assert_eq!(error.kind(), FaultKind::SensorFault);
    assert_eq!(error.error_interval(), 500);
}

#[test]
fn classification_gives_the_same_answer_each_time() {
    for _ in 0..3 {
        assert_eq!(Error::from(DhtError::PinError(PinError)).kind(), FaultKind::SensorFault);
        assert_eq!(Error::from(DhtError::<PinError>::Timeout).kind(), FaultKind::SensorFault);
        assert_eq!(
            Error::from(DhtError::<PinError>::ChecksumMismatch).kind(),
            FaultKind::SensorFault
        );
    }
    let error = Error::from(DhtError::<PinError>::Timeout);
    assert_eq!(error.kind(), error.kind());
    assert_eq!(error.error_interval(), error.error_interval());
}

#[test]
fn display_error_becomes_a_display_fault() {
    let error = Error::from(DisplayError::BusWriteError);
    assert!(matches!(error, Error::Display(DisplayError::BusWriteError)));
    assert_eq!(error.kind(), FaultKind::DisplayFault);
}

#[test]
fn every_display_error_is_a_display_fault() {
    let errors = [
        DisplayError::InvalidFormatError,
        DisplayError::BusWriteError,
        DisplayError::DCError,
        DisplayError::CSError,
        DisplayError::DataFormatNotImplemented,
        DisplayError::RSError,
        DisplayError::OutOfBoundsError,
    ];
    for error in errors {
        let error = Error::from(error);
        assert_eq!(error.kind(), FaultKind::DisplayFault);
        assert_eq!(error.error_interval(), 1000);
    }
}

#[test]
fn format_error_becomes_a_format_fault() {
    let error = Error::from(core::fmt::Error);
    assert!(matches!(error, Error::Fmt(core::fmt::Error)));
    assert_eq!(error.kind(), FaultKind::FormatFault);
}

#[test]
fn interval_of_an_error_is_that_of_its_kind() {
    let errors = [
        Error::Dht(DhtError::Timeout),
        Error::Display(DisplayError::RSError),
        Error::Fmt(core::fmt::Error),
    ];
    for error in &errors {
        assert_eq!(error.error_interval(), error.kind().interval());
    }
}
