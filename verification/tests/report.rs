use hyperx_monitor::{build_report, Commands, Response};

#[test]
fn report_for_battery_level() {
    let r = build_report(Commands::GetBatteryLevel, None);
    let mut expected = [0u8; 20];
    expected[0] = 0x06;
    expected[1] = 0xFF;
    expected[2] = 0xBB;
    expected[3] = 0x02;
    assert_eq!(r, expected);
}

#[test]
fn report_for_sidetone_volume_carries_parameter() {
    let r = build_report(Commands::SetSidetoneVolume, Some(9));
    assert_eq!(&r[..5], &[0x06, 0xFF, 0xBB, 0x23, 9]);
    assert!(r[5..].iter().all(|b| *b == 0));
}

#[test]
fn echoed_report_parses_to_its_value() {
    let r = build_report(Commands::SetSidetoneVolume, Some(77));
    assert_eq!(Commands::parse(&r), Ok(Response::SidetoneVolume(77)));
    let r = build_report(Commands::SetAutoShutdownTime, Some(15));
    assert_eq!(Commands::parse(&r), Ok(Response::AutoShutdownTime(15)));
    let r = build_report(Commands::SetSidetoneStatus, Some(1));
    assert_eq!(Commands::parse(&r), Ok(Response::SidetoneStatus(true)));
    let r = build_report(Commands::GetChargingStatus, None);
    assert_eq!(Commands::parse(&r), Ok(Response::ChargingStatus(false)));
}
