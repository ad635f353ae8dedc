use hyperx_monitor::{Commands, HeadsetError, Response};

fn answer(command: u8, param: u8, level: u8) -> [u8; 20] {
    let mut buf = [0u8; 20];
    buf[0] = 0x06;
    buf[1] = 0xFF;
    buf[2] = 0xBB;
    buf[3] = command;
    buf[4] = param;
    buf[7] = level;
    buf
}

fn parse_error(msg: &str) -> Result<Response, HeadsetError> {
    Err(HeadsetError::ParseError { msg: msg.to_string() })
}

#[test]
fn battery_level_comes_from_byte_seven() {
    assert_eq!(Commands::parse(&answer(2, 0, 57)), Ok(Response::BatteryLevel(57)));
    assert_eq!(Commands::parse(&answer(2, 9, 100)), Ok(Response::BatteryLevel(100)));
    assert_eq!(Commands::parse(&answer(2, 0, 1)), Ok(Response::BatteryLevel(1)));
}

#[test]
fn battery_level_zero_is_invalid() {
    assert_eq!(Commands::parse(&answer(2, 0, 0)), parse_error("invalid response value: 0"));
}

#[test]
fn byte_seven_over_hundred_counts_as_zero() {
    assert_eq!(Commands::parse(&answer(2, 42, 101)), parse_error("invalid response value: 0"));
    assert_eq!(Commands::parse(&answer(3, 1, 200)), Ok(Response::ChargingStatus(false)));
}

#[test]
fn parameter_byte_used_when_byte_seven_empty() {
    assert_eq!(Commands::parse(&answer(3, 1, 0)), Ok(Response::ChargingStatus(true)));
    assert_eq!(Commands::parse(&answer(3, 0, 0)), Ok(Response::ChargingStatus(false)));
    assert_eq!(Commands::parse(&answer(3, 2, 0)), parse_error("invalid response value: 2"));
}

#[test]
fn byte_seven_in_range_overrides_parameter() {
    assert_eq!(Commands::parse(&answer(3, 0, 1)), Ok(Response::ChargingStatus(true)));
}

#[test]
fn headset_status_values() {
    assert_eq!(Commands::parse(&answer(1, 1, 0)), Ok(Response::IsActive(true)));
    assert_eq!(Commands::parse(&answer(1, 4, 0)), Ok(Response::IsActive(true)));
    assert_eq!(Commands::parse(&answer(1, 3, 0)), Ok(Response::IsActive(false)));
    assert_eq!(Commands::parse(&answer(1, 2, 0)), parse_error("invalid response value: 2"));
    assert_eq!(Commands::parse(&answer(1, 0, 0)), parse_error("invalid response value: 0"));
}

#[test]
fn microphone_and_noise_gate_are_inverted() {
    assert_eq!(Commands::parse(&answer(5, 0, 0)), Ok(Response::MicrophoneStatus(true)));
    assert_eq!(Commands::parse(&answer(5, 1, 0)), Ok(Response::MicrophoneStatus(false)));
    assert_eq!(Commands::parse(&answer(13, 0, 0)), Ok(Response::NoiseGateStatus(true)));
    assert_eq!(Commands::parse(&answer(13, 1, 0)), Ok(Response::NoiseGateStatus(false)));
    assert_eq!(Commands::parse(&answer(13, 7, 0)), parse_error("invalid response value: 7"));
}

#[test]
fn microphone_button_byte_reads_as_microphone_status() {
    assert_eq!(Commands::parse(&answer(32, 1, 0)), Ok(Response::MicrophoneStatus(false)));
    assert_eq!(Commands::parse(&answer(32, 0, 0)), Ok(Response::MicrophoneStatus(true)));
}

#[test]
fn sidetone_status_get_and_set() {
    assert_eq!(Commands::parse(&answer(6, 1, 0)), Ok(Response::SidetoneStatus(true)));
    assert_eq!(Commands::parse(&answer(33, 0, 0)), Ok(Response::SidetoneStatus(false)));
    assert_eq!(Commands::parse(&answer(33, 255, 0)), parse_error("invalid response value: 255"));
}

#[test]
fn byte_valued_readings_take_any_value() {
    assert_eq!(Commands::parse(&answer(11, 0, 0)), Ok(Response::SidetoneVolume(0)));
    assert_eq!(Commands::parse(&answer(35, 255, 0)), Ok(Response::SidetoneVolume(255)));
    assert_eq!(Commands::parse(&answer(7, 30, 0)), Ok(Response::AutoShutdownTime(30)));
    assert_eq!(Commands::parse(&answer(34, 0, 0)), Ok(Response::AutoShutdownTime(0)));
    assert_eq!(Commands::parse(&answer(34, 0, 150)), Ok(Response::AutoShutdownTime(0)));
}

#[test]
fn unknown_command_byte_is_a_parse_error() {
    assert_eq!(
        Commands::parse(&answer(4, 1, 0)),
        parse_error("no command match for response 4 found!")
    );
    assert_eq!(
        Commands::parse(&answer(200, 1, 0)),
        parse_error("no command match for response 200 found!")
    );
    assert_eq!(
        Commands::parse(&answer(0, 1, 0)),
        parse_error("no command match for response 0 found!")
    );
}

#[test]
fn try_from_known_and_unknown_bytes() {
    assert_eq!(Commands::try_from(1), Ok(Commands::GetHeadsetStatus));
    assert_eq!(Commands::try_from(32), Ok(Commands::GetMicrophoneStatus));
    assert_eq!(Commands::try_from(35), Ok(Commands::SetSidetoneVolume));
    assert_eq!(
        Commands::try_from(12),
        Err("no command match for response 12 found!".to_string())
    );
}

#[test]
fn code_then_decode_is_identity() {
    let all = [
        Commands::GetHeadsetStatus,
        Commands::GetBatteryLevel,
        Commands::GetChargingStatus,
        Commands::GetMicrophoneStatus,
        Commands::GetSidetoneStatus,
        Commands::GetAutoShutdownTime,
        Commands::GetSidetoneVolume,
        Commands::GetNoiseGateStatus,
        Commands::SetSidetoneStatus,
        Commands::SetAutoShutdownTime,
        Commands::SetSidetoneVolume,
    ];
    let codes = [1u8, 2, 3, 5, 6, 7, 11, 13, 33, 34, 35];
    for (c, code) in all.iter().zip(codes.iter()) {
        assert_eq!(c.code(), *code);
        assert_eq!(Commands::try_from(c.code()), Ok(*c));
    }
}

#[test]
fn only_three_bytes_matter() {
    let mut a = answer(11, 40, 0);
    let b = answer(11, 40, 0);
    a[0] = 0x99;
    a[5] = 7;
    a[19] = 255;
    assert_eq!(Commands::parse(&a), Commands::parse(&b));
    assert_eq!(Commands::parse(&a), Ok(Response::SidetoneVolume(40)));
}
