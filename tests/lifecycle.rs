use rusty_proxy::handshake::Handshake;
use rusty_proxy::lifecycle::{probe_request, IdleDecision, IdleMonitor, ProbeResult};
use rusty_proxy::packets::{FrameOutcome, Packet};
use rusty_proxy::status::{StatusDescription, StatusDocument, StatusPlayers, StatusStructNew, StatusVersion};

#[test]
fn idle_loop_stops_after_timeout_plus_grace() {
    let mut m = IdleMonitor::new(10, 600, 600);
    let mut stops = 0;
    let mut stop_tick = 0;
    for tick in 1..=120 {
        let d = m.tick(true, ProbeResult::Online(0));
        if d == IdleDecision::Stop {
            stops += 1;
            stop_tick = tick;
        } else {
            assert_eq!(d, IdleDecision::Continue);
            assert_eq!(m.idle_timer(), 10 * tick);
        }
    }
    assert_eq!(stops, 1);
    assert_eq!(stop_tick, 120);
    assert_eq!(m.idle_timer(), 0);
}

#[test]
fn idle_loop_players_rearm_grace_period() {
    let mut m = IdleMonitor::new(10, 600, 600);
    for _ in 0..50 {
        assert_eq!(m.tick(true, ProbeResult::Online(0)), IdleDecision::Continue);
    }
    assert_eq!(m.idle_timer(), 500);
    assert_eq!(m.tick(true, ProbeResult::Online(5)), IdleDecision::Continue);
    assert_eq!(m.idle_timer(), 600);
    for _ in 0..59 {
        assert_eq!(m.tick(true, ProbeResult::Online(0)), IdleDecision::Continue);
    }
    assert_eq!(m.idle_timer(), 1190);
    assert_eq!(m.tick(true, ProbeResult::Online(0)), IdleDecision::Stop);
}

#[test]
fn idle_loop_unreachable_and_unparseable_leave_timer() {
    let mut m = IdleMonitor::new(10, 600, 600);
    m.tick(true, ProbeResult::Online(0));
    assert_eq!(m.tick(true, ProbeResult::Unreachable), IdleDecision::Continue);
    assert_eq!(m.tick(true, ProbeResult::Unparseable), IdleDecision::Continue);
    assert_eq!(m.idle_timer(), 10);
}

#[test]
fn idle_loop_finishes_when_backend_exits() {
    let mut m = IdleMonitor::new(10, 600, 600);
    assert_eq!(m.tick(false, ProbeResult::Online(0)), IdleDecision::Finish);
}

#[test]
fn probe_result_from_document() {
    let doc = StatusDocument::Modern(StatusStructNew {
        version: StatusVersion { name: "x".to_string(), protocol: 1 },
        enforces_secure_chat: None,
        description: StatusDescription { text: String::new() },
        players: StatusPlayers { max: 10, online: 4 },
        extra: vec![],
    });
    assert_eq!(ProbeResult::from_document(Some(doc)), ProbeResult::Online(4));
    assert_eq!(ProbeResult::from_document(None), ProbeResult::Unparseable);
}

#[test]
fn probe_request_is_handshake_then_status_request() {
    let bytes = probe_request("127.0.0.1:25565".to_string()).unwrap();
    let first = match Packet::parse(&bytes) {
        FrameOutcome::Frame(p) => p,
        other => panic!("unexpected {:?}", other),
    };
    let used = first.raw().len();
    let h = Handshake::parse(first).unwrap();
    assert_eq!(h.get_protocol_version(), 746);
    assert_eq!(h.get_server_address(), "127.0.0.1:25565");
    assert_eq!(h.get_server_port(), 1234);
    assert_eq!(h.get_next_state(), 1);
    assert_eq!(&bytes[used..], &[0x01, 0x00]);
}
