use hyperx_monitor::text::decimal_string;
use hyperx_monitor::{HeadsetError, Response};

#[test]
fn decimal_strings() {
    assert_eq!(decimal_string(0), "0");
    assert_eq!(decimal_string(7), "7");
    assert_eq!(decimal_string(10), "10");
    assert_eq!(decimal_string(99), "99");
    assert_eq!(decimal_string(100), "100");
    assert_eq!(decimal_string(255), "255");
}

#[test]
fn response_texts() {
    assert_eq!(Response::IsActive(true).to_string(), "device status: active");
    assert_eq!(Response::IsActive(false).to_string(), "device status: inactive");
    assert_eq!(Response::BatteryLevel(42).to_string(), "battery level: 42%");
    assert_eq!(Response::ChargingStatus(true).to_string(), "charging status: charging");
    assert_eq!(Response::ChargingStatus(false).to_string(), "charging status: not charging");
    assert_eq!(Response::AutoShutdownTime(15).to_string(), "auto-shutdown delay: 15 minute(s)");
    assert_eq!(Response::SidetoneStatus(true).to_string(), "sidetone status: active");
    assert_eq!(Response::SidetoneVolume(200).to_string(), "sidetone volume: 200");
    assert_eq!(Response::NoiseGateStatus(false).to_string(), "noisegate status: off");
    assert_eq!(Response::MicrophoneStatus(true).to_string(), "microphone status: on");
}

#[test]
fn error_texts() {
    assert_eq!(HeadsetError::Disconnected.to_string(), "device disconnected!");
    assert_eq!(HeadsetError::WriteError.to_string(), "failed to write to device!");
    assert_eq!(
        HeadsetError::ReadError { read: 3 }.to_string(),
        "failed to read data! expected: 20, got: 3"
    );
    assert_eq!(
        HeadsetError::HidApiError { msg: "boom".to_string() }.to_string(),
        "hidapi error occurred, msg: boom"
    );
    assert_eq!(HeadsetError::GetHandleError.to_string(), "failed to get device handle!");
    assert_eq!(HeadsetError::FlushError.to_string(), "failed to flush queue!");
    assert_eq!(
        HeadsetError::ParseError { msg: "bad".to_string() }.to_string(),
        "failed to parse buffer! msg: bad"
    );
}
