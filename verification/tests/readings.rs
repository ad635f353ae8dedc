use hyperx_monitor::readings::listen_buffer;
use hyperx_monitor::{
    initial_queries, initial_query, Commands, HeadsetError, HeadsetReadings, InitialRound, Response,
    RoundStep, StatusField, LISTEN_TIMEOUT_MS,
};

fn answer(command: u8, param: u8) -> [u8; 20] {
    let mut buf = [0u8; 20];
    buf[3] = command;
    buf[4] = param;
    buf
}

#[test]
fn new_readings_are_empty() {
    let r = HeadsetReadings::new();
    assert_eq!(r.battery_level, None);
    assert_eq!(r.shutdown_time, None);
    assert_eq!(r.microphone_status, None);
}

#[test]
fn record_keeps_response_by_kind() {
    let mut r = HeadsetReadings::new();
    r.record(Response::BatteryLevel(80));
    r.record(Response::MicrophoneStatus(true));
    assert_eq!(r.battery_level, Some(Response::BatteryLevel(80)));
    assert_eq!(r.microphone_status, Some(Response::MicrophoneStatus(true)));
    assert_eq!(r.charging_status, None);
    r.record(Response::BatteryLevel(79));
    assert_eq!(r.battery_level, Some(Response::BatteryLevel(79)));
}

#[test]
fn store_answer_goes_by_command() {
    let mut r = HeadsetReadings::new();
    r.store_answer(Commands::SetSidetoneVolume, Response::SidetoneVolume(3));
    assert_eq!(r.sidetone_volume, Some(Response::SidetoneVolume(3)));
    // an answer of another kind still lands in the command's reading
    r.store_answer(Commands::GetBatteryLevel, Response::MicrophoneStatus(false));
    assert_eq!(r.battery_level, Some(Response::MicrophoneStatus(false)));
    assert_eq!(r.microphone_status, None);
}

#[test]
fn store_changes_one_field() {
    let mut r = HeadsetReadings::new();
    r.store(StatusField::ShutdownTime, Response::AutoShutdownTime(20));
    let mut expected = HeadsetReadings::new();
    expected.shutdown_time = Some(Response::AutoShutdownTime(20));
    assert_eq!(r, expected);
}

#[test]
fn on_update_handles_each_read() {
    let mut r = HeadsetReadings::new();
    let mut buf = answer(2, 50);
    assert_eq!(r.on_update(Ok(0), &mut buf), Ok(None));
    assert_eq!(r, HeadsetReadings::new());
    assert_eq!(buf, answer(2, 50));
    let mut buf = answer(3, 1);
    assert_eq!(r.on_update(Ok(20), &mut buf), Ok(Some(Response::ChargingStatus(true))));
    assert_eq!(r.charging_status, Some(Response::ChargingStatus(true)));
    assert_eq!(buf, [0u8; 20]);
    let before = r;
    let mut buf = answer(99, 1);
    assert_eq!(r.on_update(Ok(20), &mut buf), Ok(None));
    assert_eq!(r, before);
    assert_eq!(buf, [0u8; 20]);
    let mut buf = answer(3, 0);
    assert_eq!(
        r.on_update(Err("device lost".to_string()), &mut buf),
        Err(HeadsetError::HidApiError { msg: "device lost".to_string() })
    );
    assert_eq!(r, before);
    assert_eq!(buf, answer(3, 0));
    assert_eq!(LISTEN_TIMEOUT_MS, 10);
}

#[test]
fn initial_queries_in_order_cover_every_reading() {
    let q = initial_queries();
    assert_eq!(
        q,
        vec![
            Commands::GetBatteryLevel,
            Commands::GetHeadsetStatus,
            Commands::GetChargingStatus,
            Commands::GetMicrophoneStatus,
            Commands::GetAutoShutdownTime,
            Commands::GetSidetoneStatus,
            Commands::GetSidetoneVolume,
            Commands::GetNoiseGateStatus,
        ]
    );
    let mut fields: Vec<StatusField> = q.iter().map(|c| c.status_field()).collect();
    fields.dedup();
    assert_eq!(fields.len(), 8);
}

#[test]
fn answer_kind_matches_command_field() {
    assert_eq!(Commands::SetSidetoneStatus.status_field(), Response::SidetoneStatus(true).status_field());
    assert_eq!(Commands::GetHeadsetStatus.status_field(), Response::IsActive(false).status_field());
    assert_eq!(Commands::GetAutoShutdownTime.status_field(), StatusField::ShutdownTime);
}

#[test]
fn initial_query_by_position() {
    let q = initial_queries();
    for i in 0..8 {
        assert_eq!(initial_query(i), Some(q[i]));
    }
    assert_eq!(initial_query(8), None);
}

#[test]
fn first_round_asks_in_order_and_keeps_answers() {
    let mut r = HeadsetReadings::new();
    let (mut round, mut command) = InitialRound::start();
    let mut asked = vec![command];
    let answers = [
        Response::BatteryLevel(90),
        Response::IsActive(true),
        Response::ChargingStatus(false),
        Response::MicrophoneStatus(true),
        Response::AutoShutdownTime(10),
        Response::SidetoneStatus(false),
        Response::SidetoneVolume(4),
        Response::NoiseGateStatus(true),
    ];
    let mut completed = false;
    for resp in answers {
        match round.answer(&mut r, Ok(resp)) {
            RoundStep::Ask(next) => {
                command = next;
                asked.push(command);
            }
            RoundStep::Complete => completed = true,
            RoundStep::Abort(_) => panic!("no query failed"),
        }
    }
    assert!(completed);
    assert_eq!(asked, initial_queries());
    assert_eq!(r.battery_level, Some(Response::BatteryLevel(90)));
    assert_eq!(r.noisegate_status, Some(Response::NoiseGateStatus(true)));
    assert!(matches!(round.answer(&mut r, Ok(Response::BatteryLevel(1))), RoundStep::Complete));
    assert_eq!(r.battery_level, Some(Response::BatteryLevel(90)));
}

#[test]
fn first_round_stops_at_first_error() {
    let mut r = HeadsetReadings::new();
    let (mut round, _) = InitialRound::start();
    assert!(matches!(round.answer(&mut r, Ok(Response::BatteryLevel(50))), RoundStep::Ask(Commands::GetHeadsetStatus)));
    match round.answer(&mut r, Err(HeadsetError::Disconnected)) {
        RoundStep::Abort(e) => assert_eq!(e, HeadsetError::Disconnected),
        _ => panic!("the round should end"),
    }
    assert_eq!(round.asked, 1);
    assert_eq!(r.headset_status, None);
    assert_eq!(r.battery_level, Some(Response::BatteryLevel(50)));
}

#[test]
fn listening_reads_always_get_a_cleared_buffer() {
    let mut r = HeadsetReadings::new();
    let mut buf = listen_buffer();
    assert_eq!(buf, [0u8; 20]);
    // empty read: nothing written
    assert_eq!(r.on_update(Ok(0), &mut buf), Ok(None));
    assert_eq!(buf, [0u8; 20]);
    // a packet arrives
    buf[3] = 2;
    buf[7] = 44;
    assert_eq!(r.on_update(Ok(20), &mut buf), Ok(Some(Response::BatteryLevel(44))));
    assert_eq!(buf, [0u8; 20]);
    // a short packet that only writes the first four bytes
    buf[3] = 3;
    assert_eq!(r.on_update(Ok(4), &mut buf), Ok(Some(Response::ChargingStatus(false))));
    assert_eq!(buf, [0u8; 20]);
}
