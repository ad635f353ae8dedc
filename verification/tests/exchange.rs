use hyperx_monitor::{build_report, Commands, HeadsetError, Query, QueryAction, QueryEvent, Response};

fn answer(command: u8, param: u8) -> [u8; 20] {
    let mut buf = [0u8; 20];
    buf[0] = 0x06;
    buf[1] = 0xFF;
    buf[2] = 0xBB;
    buf[3] = command;
    buf[4] = param;
    buf
}

fn describe(a: &QueryAction) -> String {
    match a {
        QueryAction::SetBlocking(b) => format!("blocking {}", b),
        QueryAction::Drain => "drain".to_string(),
        QueryAction::Send(r) => format!("send {:?}", &r[..5]),
        QueryAction::Pause(ms) => format!("pause {}", ms),
        QueryAction::Receive(ms) => format!("receive {}", ms),
        QueryAction::Finish(r) => format!("finish {:?}", r),
    }
}

#[test]
fn smooth_exchange_runs_every_step() {
    let (mut q, mut a) = Query::new(Commands::SetSidetoneVolume, Some(12));
    let mut seen = vec![describe(&a)];
    let events = vec![
        QueryEvent::BlockingModeSet(Ok(())),
        QueryEvent::Drained(Ok(0)),
        QueryEvent::BlockingModeSet(Ok(())),
        QueryEvent::ReportSent(Ok(())),
        QueryEvent::Paused,
        QueryEvent::Paused,
        QueryEvent::Received(Ok(20), answer(35, 12)),
        QueryEvent::Paused,
        QueryEvent::BlockingModeSet(Ok(())),
        QueryEvent::Drained(Ok(0)),
        QueryEvent::BlockingModeSet(Ok(())),
    ];
    for e in events {
        assert!(q.accepts(&e));
        let (q2, a2) = q.step(e);
        q = q2;
        a = a2;
        seen.push(describe(&a));
    }
    assert!(q.is_done());
    assert_eq!(
        seen,
        vec![
            "blocking false",
            "drain",
            "blocking true",
            "send [6, 255, 187, 35, 12]",
            "pause 50",
            "pause 100",
            "receive 1000",
            "pause 100",
            "blocking false",
            "drain",
            "blocking true",
            "finish Ok(SidetoneVolume(12))",
        ]
    );
}

#[test]
fn sent_report_is_the_built_report() {
    let (q, _) = Query::new(Commands::GetBatteryLevel, None);
    let (q, _) = q.step(QueryEvent::BlockingModeSet(Ok(())));
    let (q, _) = q.step(QueryEvent::Drained(Ok(0)));
    let (_, a) = q.step(QueryEvent::BlockingModeSet(Ok(())));
    match a {
        QueryAction::Send(r) => assert_eq!(r, build_report(Commands::GetBatteryLevel, None)),
        _ => panic!("expected a report to send"),
    }
}

#[test]
fn drain_keeps_reading_until_empty() {
    let (q, _) = Query::new(Commands::GetBatteryLevel, None);
    let (q, _) = q.step(QueryEvent::BlockingModeSet(Ok(())));
    let (q, a) = q.step(QueryEvent::Drained(Ok(20)));
    assert!(matches!(a, QueryAction::Drain));
    let (_, a) = q.step(QueryEvent::Drained(Ok(0)));
    assert!(matches!(a, QueryAction::SetBlocking(true)));
}

fn reading(command: Commands) -> Query {
    let (q, _) = Query::new(command, None);
    let (q, _) = q.step(QueryEvent::BlockingModeSet(Ok(())));
    let (q, _) = q.step(QueryEvent::Drained(Ok(0)));
    let (q, _) = q.step(QueryEvent::BlockingModeSet(Ok(())));
    let (q, _) = q.step(QueryEvent::ReportSent(Ok(())));
    let (q, _) = q.step(QueryEvent::Paused);
    let (q, a) = q.step(QueryEvent::Paused);
    assert!(matches!(a, QueryAction::Receive(1000)));
    q
}

#[test]
fn five_empty_reads_mean_disconnected() {
    let mut q = reading(Commands::GetBatteryLevel);
    for _ in 0..4 {
        let (q2, a) = q.step(QueryEvent::Received(Ok(0), [0u8; 20]));
        assert!(matches!(a, QueryAction::Receive(1000)));
        q = q2;
    }
    let (q, a) = q.step(QueryEvent::Received(Ok(0), [0u8; 20]));
    assert!(q.is_done());
    match a {
        QueryAction::Finish(r) => assert_eq!(r, Err(HeadsetError::Disconnected)),
        _ => panic!("expected the end of the exchange"),
    }
}

#[test]
fn answer_after_empty_reads_is_accepted() {
    let q = reading(Commands::GetChargingStatus);
    let (q, _) = q.step(QueryEvent::Received(Ok(0), [0u8; 20]));
    let (q, a) = q.step(QueryEvent::Received(Ok(20), answer(3, 1)));
    assert!(matches!(a, QueryAction::Pause(100)));
    let (_, a) = q.step(QueryEvent::Paused);
    assert!(matches!(a, QueryAction::SetBlocking(false)));
}

#[test]
fn unparsable_answer_ends_the_exchange() {
    let q = reading(Commands::GetBatteryLevel);
    let (q, a) = q.step(QueryEvent::Received(Ok(20), answer(9, 1)));
    assert!(q.is_done());
    match a {
        QueryAction::Finish(r) => assert_eq!(
            r,
            Err(HeadsetError::ParseError { msg: "no command match for response 9 found!".to_string() })
        ),
        _ => panic!("expected the end of the exchange"),
    }
}

#[test]
fn device_errors_end_the_exchange() {
    let hid = |m: &str| Err::<Response, HeadsetError>(HeadsetError::HidApiError { msg: m.to_string() });
    let (q, _) = Query::new(Commands::GetBatteryLevel, None);
    let (q1, a) = q.step(QueryEvent::BlockingModeSet(Err("no mode".to_string())));
    assert!(q1.is_done());
    assert!(matches!(a, QueryAction::Finish(ref r) if *r == hid("no mode")));
    let (q, _) = q.step(QueryEvent::BlockingModeSet(Ok(())));
    let (_, a) = q.step(QueryEvent::Drained(Err("gone".to_string())));
    assert!(matches!(a, QueryAction::Finish(ref r) if *r == hid("gone")));
    let (q, _) = q.step(QueryEvent::Drained(Ok(0)));
    let (q, _) = q.step(QueryEvent::BlockingModeSet(Ok(())));
    let (_, a) = q.step(QueryEvent::ReportSent(Err("write".to_string())));
    assert!(matches!(a, QueryAction::Finish(ref r) if *r == hid("write")));
    let q = reading(Commands::GetBatteryLevel);
    let (_, a) = q.step(QueryEvent::Received(Err("read".to_string()), [0u8; 20]));
    assert!(matches!(a, QueryAction::Finish(ref r) if *r == hid("read")));
}

#[test]
fn accepts_only_the_awaited_event() {
    let (q, _) = Query::new(Commands::GetBatteryLevel, None);
    assert!(q.accepts(&QueryEvent::BlockingModeSet(Ok(()))));
    assert!(!q.accepts(&QueryEvent::Paused));
    assert!(!q.accepts(&QueryEvent::Drained(Ok(0))));
}

#[test]
fn exchange_sends_once_and_reads_at_most_five_times() {
    // a device that keeps queueing data for a while, then answers late
    let (mut q, mut a) = Query::new(Commands::GetSidetoneVolume, None);
    let mut sends = 0;
    let mut receives = 0;
    let mut drains = 0;
    let mut empty_reads = 0;
    loop {
        let e = match a {
            QueryAction::SetBlocking(_) => QueryEvent::BlockingModeSet(Ok(())),
            QueryAction::Drain => {
                drains += 1;
                QueryEvent::Drained(Ok(if drains % 4 == 0 { 0 } else { 20 }))
            }
            QueryAction::Send(_) => {
                sends += 1;
                QueryEvent::ReportSent(Ok(()))
            }
            QueryAction::Pause(_) => QueryEvent::Paused,
            QueryAction::Receive(ms) => {
                assert_eq!(ms, 1000);
                receives += 1;
                if empty_reads < 4 {
                    empty_reads += 1;
                    QueryEvent::Received(Ok(0), [0u8; 20])
                } else {
                    QueryEvent::Received(Ok(20), answer(11, 8))
                }
            }
            QueryAction::Finish(r) => {
                assert_eq!(r, Ok(Response::SidetoneVolume(8)));
                break;
            }
        };
        let (q2, a2) = q.step(e);
        q = q2;
        a = a2;
    }
    assert!(q.is_done());
    assert_eq!(sends, 1);
    assert_eq!(receives, 5);
}

#[test]
fn failed_switch_back_ends_flush_with_device_error() {
    let (q, _) = Query::new(Commands::GetBatteryLevel, None);
    let (q, _) = q.step(QueryEvent::BlockingModeSet(Ok(())));
    let (q, _) = q.step(QueryEvent::Drained(Ok(0)));
    let (q, a) = q.step(QueryEvent::BlockingModeSet(Err("mode".to_string())));
    assert!(q.is_done());
    match a {
        QueryAction::Finish(r) => {
            assert_eq!(r, Err(HeadsetError::HidApiError { msg: "mode".to_string() }))
        }
        _ => panic!("expected the end of the exchange"),
    }
}
