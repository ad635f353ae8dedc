use hyperx_monitor::{Commands, HeadsetGuiValues, HeadsetReadings, Response, State, ThreadMessage};

#[test]
fn gui_values_start_unknown() {
    let v = HeadsetGuiValues::default();
    assert_eq!(v.battery_level, None);
    assert_eq!(v.headset_status, None);
    assert!(!State::default().ready);
}

#[test]
fn apply_shows_response_value() {
    let mut v = HeadsetGuiValues::default();
    v.apply(Response::BatteryLevel(64));
    v.apply(Response::NoiseGateStatus(true));
    assert_eq!(v.battery_level, Some(64));
    assert_eq!(v.noisegate_status, Some(true));
    assert_eq!(v.sidetone_volume, None);
}

#[test]
fn labels_show_values_or_loading() {
    let mut v = HeadsetGuiValues::default();
    v.apply(Response::BatteryLevel(5));
    v.apply(Response::ChargingStatus(false));
    v.apply(Response::AutoShutdownTime(30));
    assert_eq!(
        v.labels(),
        vec![
            "battery level: 5",
            "charging status: false",
            "headset status: loading",
            "auto-shutdown time: 30",
            "sidetone status: loading",
            "sidetone volume: loading",
            "noisegate status: loading",
            "microphone status: loading",
        ]
    );
}

#[test]
fn messages_update_window() {
    let mut v = HeadsetGuiValues::default();
    let mut s = State::default();
    v.handle_message(&mut s, ThreadMessage::Request(Commands::GetBatteryLevel));
    assert_eq!(v, HeadsetGuiValues::default());
    assert!(!s.ready);
    v.handle_message(&mut s, ThreadMessage::HeadsetResponse(Response::IsActive(true)));
    assert_eq!(v.headset_status, Some(true));
    v.handle_message(&mut s, ThreadMessage::Configure { command: Commands::SetSidetoneVolume, param: Some(2) });
    assert_eq!(v.sidetone_volume, None);
    v.handle_message(&mut s, ThreadMessage::Ready);
    assert!(s.ready);
}

#[test]
fn window_follows_readings() {
    let mut v = HeadsetGuiValues::default();
    let mut r = HeadsetReadings::new();
    for resp in [
        Response::BatteryLevel(33),
        Response::MicrophoneStatus(false),
        Response::SidetoneVolume(9),
        Response::BatteryLevel(32),
    ] {
        v.apply(resp);
        r.record(resp);
    }
    assert_eq!(v.battery_level, Some(32));
    assert_eq!(r.battery_level, Some(Response::BatteryLevel(32)));
    assert_eq!(v.microphone_status, Some(false));
    assert_eq!(r.microphone_status, Some(Response::MicrophoneStatus(false)));
    assert_eq!(v.sidetone_volume, Some(9));
    assert_eq!(r.sidetone_volume, Some(Response::SidetoneVolume(9)));
    assert_eq!(v.charging_status, None);
    assert_eq!(r.charging_status, None);
}

#[test]
fn window_text_lines() {
    let mut v = HeadsetGuiValues::default();
    v.apply(Response::SidetoneVolume(3));
    let mut s = State::default();
    let lines = v.window_text(&s);
    assert_eq!(lines.len(), 12);
    assert_eq!(lines[0], "hello world!");
    assert_eq!(lines[1], "device is currently not connected!\n");
    assert_eq!(lines[2], "try hovering over the gui to update the data!\n");
    assert_eq!(lines[3], "device information:");
    assert_eq!(lines[4], "battery level: loading");
    assert_eq!(lines[9], "sidetone volume: 3");
    s.ready = true;
    let lines = v.window_text(&s);
    assert_eq!(lines.len(), 11);
    assert_eq!(lines[1], "try hovering over the gui to update the data!\n");
    assert_eq!(&lines[3..], &v.labels()[..]);
}
