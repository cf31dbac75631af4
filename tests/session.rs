use rusty_proxy::connection::{
    refusal, ClientConnectionState, ProtocolState, Rejection, Session, SessionAction, SessionEvent,
    SessionPhase, SPAWNING_REASON, STARTING_REASON,
};
use rusty_proxy::handshake::{Handshake, StatusRequest};
use rusty_proxy::login::Disconnect;
use rusty_proxy::packets::{FrameOutcome, Packet};
use rusty_proxy::relay::{after_transfer, client_status_step, relay_mode, server_status_step, RelayAction, RelayMode};
use rusty_proxy::status::{
    offline_status, StatusDescription, StatusDocument, StatusPlayers, StatusResponse, StatusStructNew,
    StatusStructOld, StatusTrait, StatusVersion, OFFLINE_DESCRIPTION, PROXY_BANNER, STARTING_DESCRIPTION,
};
use rusty_proxy::types::{UShort, VarInt, VarString};

fn handshake_frame(next_state: i32) -> Packet {
    let h = Handshake::create(
        VarInt::from(763),
        VarString::from("localhost".to_string()),
        UShort::from(25565),
        VarInt::from(next_state),
    )
    .unwrap();
    match Packet::parse(&h.get_all()) {
        FrameOutcome::Frame(p) => p,
        other => panic!("unexpected {:?}", other),
    }
}

fn frame(id: i32, payload: Vec<u8>) -> Packet {
    Packet::from_bytes(id, payload).unwrap()
}

#[test]
fn handshake_create_and_parse() {
    let p = handshake_frame(1);
    let raw = p.raw().clone();
    let h = Handshake::parse(p).unwrap();
    assert_eq!(h.get_protocol_version(), 763);
    assert_eq!(h.get_server_address(), "localhost");
    assert_eq!(h.get_server_port(), 25565);
    assert_eq!(h.get_next_state(), 1);
    assert_eq!(h.get_all(), raw);
    assert_eq!(
        raw,
        vec![0x10, 0x00, 0xfb, 0x05, 0x09, b'l', b'o', b'c', b'a', b'l', b'h', b'o', b's', b't', 0x63, 0xdd, 0x01]
    );
    assert!(Handshake::parse(frame(0, vec![0x01])).is_none());
}

#[test]
fn connection_state_from_next_state() {
    let h = Handshake::parse(handshake_frame(1)).unwrap();
    assert_eq!(
        ClientConnectionState::create(&h),
        Ok(ClientConnectionState { state: ProtocolState::Status, protocol_version: 763 })
    );
    let h = Handshake::parse(handshake_frame(2)).unwrap();
    assert_eq!(ClientConnectionState::create(&h).unwrap().state, ProtocolState::Login);
    let h = Handshake::parse(handshake_frame(3)).unwrap();
    assert_eq!(ClientConnectionState::create(&h), Err(Rejection::Unsupported(ProtocolState::Transfer)));
    let h = Handshake::parse(handshake_frame(5)).unwrap();
    assert_eq!(ClientConnectionState::create(&h), Err(Rejection::InvalidNextState(5)));
}

#[test]
fn session_status_handshake_connects() {
    let mut s = Session::new();
    let a = s.step(SessionEvent::ClientFrame(handshake_frame(1)));
    assert!(matches!(a, SessionAction::ConnectBackend));
    assert_eq!(s.phase, SessionPhase::Connecting);
    assert_eq!(s.connection.state, ProtocolState::Status);
    let a = s.step(SessionEvent::BackendReachable);
    match a {
        SessionAction::StartRelay { handshake, connection } => {
            assert_eq!(handshake, handshake_frame(1).raw().clone());
            assert_eq!(connection.state, ProtocolState::Status);
            assert_eq!(connection.protocol_version, 763);
        }
        other => panic!("unexpected {:?}", other),
    }
    assert_eq!(s.phase, SessionPhase::Relaying);
}

#[test]
fn session_login_handshake_connects() {
    let mut s = Session::new();
    let a = s.step(SessionEvent::ClientFrame(handshake_frame(2)));
    assert!(matches!(a, SessionAction::ConnectBackend));
    assert_eq!(s.connection.state, ProtocolState::Login);
}

#[test]
fn session_rejects_transfer_and_unknown_states() {
    for next in [3, 5] {
        let mut s = Session::new();
        let a = s.step(SessionEvent::ClientFrame(handshake_frame(next)));
        assert!(matches!(a, SessionAction::Close));
        assert_eq!(s.phase, SessionPhase::Closed);
    }
}

#[test]
fn session_rejects_garbage() {
    let mut s = Session::new();
    assert!(matches!(s.step(SessionEvent::ClientFrame(frame(4, vec![]))), SessionAction::Close));
    let mut s = Session::new();
    assert!(matches!(s.step(SessionEvent::ClientFrame(frame(0, vec![0x80]))), SessionAction::Close));
    let mut s = Session::new();
    assert!(matches!(s.step(SessionEvent::ClientGone), SessionAction::Close));
}

#[test]
fn session_offline_status_then_ping() {
    let mut s = Session::new();
    s.step(SessionEvent::ClientFrame(handshake_frame(1)));
    assert!(matches!(s.step(SessionEvent::BackendUnreachable { starting: false }), SessionAction::ReadFrame));
    assert_eq!(s.phase, SessionPhase::OfflineStatus);
    match s.step(SessionEvent::ClientFrame(frame(0, vec![]))) {
        SessionAction::SendStatus(d) => {
            assert_eq!(d.players.online, 0);
            assert_eq!(d.players.max, 1);
            assert_eq!(d.version.protocol, 763);
            assert_eq!(d.description.text, OFFLINE_DESCRIPTION);
        }
        other => panic!("unexpected {:?}", other),
    }
    let ping = frame(1, vec![1, 2, 3, 4, 5, 6, 7, 8]);
    let raw = ping.raw().clone();
    match s.step(SessionEvent::ClientFrame(ping)) {
        SessionAction::ReplyAndClose(bytes) => assert_eq!(bytes, raw),
        other => panic!("unexpected {:?}", other),
    }
    assert_eq!(s.phase, SessionPhase::Closed);
}

#[test]
fn session_offline_status_while_starting() {
    let mut s = Session::new();
    s.step(SessionEvent::ClientFrame(handshake_frame(1)));
    s.step(SessionEvent::BackendUnreachable { starting: true });
    match s.step(SessionEvent::ClientFrame(frame(0, vec![]))) {
        SessionAction::SendStatus(d) => {
            assert_eq!(d.players.online, 1);
            assert_eq!(d.players.max, 1);
            assert_eq!(d.description.text, STARTING_DESCRIPTION);
        }
        other => panic!("unexpected {:?}", other),
    }
    assert!(matches!(s.step(SessionEvent::ClientFrame(frame(0, vec![]))), SessionAction::Close));
}

#[test]
fn session_offline_status_wrong_request() {
    let mut s = Session::new();
    s.step(SessionEvent::ClientFrame(handshake_frame(1)));
    s.step(SessionEvent::BackendUnreachable { starting: false });
    assert!(matches!(s.step(SessionEvent::ClientFrame(frame(2, vec![]))), SessionAction::Close));
}

#[test]
fn session_offline_login_refuses_and_spawns() {
    for starting in [false, true] {
        let mut s = Session::new();
        s.step(SessionEvent::ClientFrame(handshake_frame(2)));
        assert!(matches!(s.step(SessionEvent::BackendUnreachable { starting }), SessionAction::ReadFrame));
        match s.step(SessionEvent::ClientFrame(frame(0, vec![0x03, b'b', b'o', b'b']))) {
            SessionAction::RefuseAndSpawn(bytes) => {
                let expected = if starting { STARTING_REASON } else { SPAWNING_REASON };
                let p = match Packet::parse(&bytes) {
                    FrameOutcome::Frame(p) => p,
                    other => panic!("unexpected {:?}", other),
                };
                assert_eq!(Disconnect::parse(p).unwrap().get_string(), expected);
                assert_eq!(bytes, refusal(starting));
            }
            other => panic!("unexpected {:?}", other),
        }
        assert_eq!(s.phase, SessionPhase::Closed);
    }
}

#[test]
fn disconnect_round_trip() {
    let d = Disconnect::set_reason("bye \u{a7}d<3".to_string()).unwrap();
    assert_eq!(d.get_string(), "bye \u{a7}d<3");
    let all = d.get_all();
    let p = match Packet::parse(&all) {
        FrameOutcome::Frame(p) => p,
        other => panic!("unexpected {:?}", other),
    };
    assert_eq!(p.get_id(), 0);
    assert_eq!(Disconnect::parse(p).unwrap().get_string(), "bye \u{a7}d<3");
}

#[test]
fn status_response_round_trip() {
    let json = "{\"description\":{\"text\":\"Hello\"}}".to_string();
    let r = StatusResponse::set_json(json.clone()).unwrap();
    let all = r.get_all();
    let p = match Packet::parse(&all) {
        FrameOutcome::Frame(p) => p,
        other => panic!("unexpected {:?}", other),
    };
    let back = StatusResponse::parse(p).unwrap();
    assert_eq!(back.get_string(), json);
    assert_eq!(back.get_all(), all);
}

#[test]
fn status_request_keeps_bytes() {
    let p = frame(0, vec![]);
    let raw = p.raw().clone();
    assert_eq!(StatusRequest::parse(p).unwrap().get_all(), raw);
}

fn modern(text: &str) -> StatusDocument {
    StatusDocument::Modern(StatusStructNew {
        version: StatusVersion { name: "1.20.1".to_string(), protocol: 763 },
        enforces_secure_chat: Some(true),
        description: StatusDescription { text: text.to_string() },
        players: StatusPlayers { max: 20, online: 3 },
        extra: vec![("favicon".to_string(), "\"data:x\"".to_string())],
    })
}

#[test]
fn relayed_status_gets_banner() {
    let mut conn = ClientConnectionState { state: ProtocolState::Status, protocol_version: 763 };
    let mut seen = false;
    let a = server_status_step(&mut conn, &mut seen, frame(0, vec![0x00]), Some(modern("Hello")));
    assert!(seen);
    match a {
        RelayAction::ForwardDocument(StatusDocument::Modern(d)) => {
            assert_eq!(d.description.text, format!("Hello{}", PROXY_BANNER));
            assert!(d.description.text.ends_with(PROXY_BANNER));
            assert_eq!(d.version.name, "1.20.1");
            assert_eq!(d.version.protocol, 763);
            assert_eq!(d.players.max, 20);
            assert_eq!(d.players.online, 3);
            assert_eq!(d.enforces_secure_chat, Some(true));
            assert_eq!(d.extra, vec![("favicon".to_string(), "\"data:x\"".to_string())]);
        }
        other => panic!("unexpected {:?}", other),
    }
    // A second response is abuse.
    let a = server_status_step(&mut conn, &mut seen, frame(0, vec![0x00]), Some(modern("Hello")));
    assert!(matches!(a, RelayAction::Stop));
    assert_eq!(conn.state, ProtocolState::ShutDown);
}

#[test]
fn relayed_legacy_status_gets_banner() {
    let doc = StatusDocument::Legacy(StatusStructOld {
        version: StatusVersion { name: "1.8".to_string(), protocol: 47 },
        description: "Old".to_string(),
        players: StatusPlayers { max: 5, online: 0 },
        extra: vec![],
    });
    let r = doc.with_banner();
    assert_eq!(r.get_description(), format!("Old{}", PROXY_BANNER));
    assert_eq!(r.get_players_online(), 0);
}

#[test]
fn unreadable_status_is_forwarded_unchanged() {
    let mut conn = ClientConnectionState { state: ProtocolState::Status, protocol_version: 763 };
    let mut seen = false;
    let f = frame(0, vec![0x01, b'x']);
    let raw = f.raw().clone();
    match server_status_step(&mut conn, &mut seen, f, None) {
        RelayAction::Forward(b) => assert_eq!(b, raw),
        other => panic!("unexpected {:?}", other),
    }
}

#[test]
fn pong_ends_status_phase() {
    let mut conn = ClientConnectionState { state: ProtocolState::Status, protocol_version: 763 };
    let mut seen = true;
    let f = frame(1, vec![0; 8]);
    let raw = f.raw().clone();
    match server_status_step(&mut conn, &mut seen, f, None) {
        RelayAction::ForwardAndStop(b) => assert_eq!(b, raw),
        other => panic!("unexpected {:?}", other),
    }
    assert_eq!(conn.state, ProtocolState::ShutDown);
    let mut conn = ClientConnectionState { state: ProtocolState::Status, protocol_version: 763 };
    let mut seen = false;
    assert!(matches!(server_status_step(&mut conn, &mut seen, frame(7, vec![]), None), RelayAction::Forward(_)));
    assert_eq!(conn.state, ProtocolState::Status);
}

#[test]
fn client_status_requests() {
    let mut conn = ClientConnectionState { state: ProtocolState::Status, protocol_version: 763 };
    let mut seen = false;
    let f = frame(0, vec![]);
    let raw = f.raw().clone();
    match client_status_step(&mut conn, &mut seen, f) {
        RelayAction::Forward(b) => assert_eq!(b, raw),
        other => panic!("unexpected {:?}", other),
    }
    assert!(seen);
    assert!(matches!(client_status_step(&mut conn, &mut seen, frame(0, vec![])), RelayAction::Stop));
    assert_eq!(conn.state, ProtocolState::ShutDown);

    let mut conn = ClientConnectionState { state: ProtocolState::Status, protocol_version: 763 };
    let mut seen = true;
    assert!(matches!(client_status_step(&mut conn, &mut seen, frame(1, vec![0; 8])), RelayAction::ForwardAndStop(_)));
    assert_eq!(conn.state, ProtocolState::Status);
    assert!(matches!(client_status_step(&mut conn, &mut seen, frame(9, vec![])), RelayAction::Stop));
    assert_eq!(conn.state, ProtocolState::ShutDown);
}

#[test]
fn data_phase_eof_shuts_down() {
    let mut conn = ClientConnectionState { state: ProtocolState::Login, protocol_version: 763 };
    assert!(after_transfer(&mut conn, 4096));
    assert_eq!(conn.state, ProtocolState::Login);
    assert!(!after_transfer(&mut conn, 0));
    assert_eq!(conn.state, ProtocolState::ShutDown);
}

#[test]
fn relay_modes() {
    assert_eq!(relay_mode(ProtocolState::Status), RelayMode::Frames);
    assert_eq!(relay_mode(ProtocolState::Login), RelayMode::Splice);
    for s in [ProtocolState::ShutDown, ProtocolState::Play, ProtocolState::Transfer, ProtocolState::Configuration, ProtocolState::Handshaking] {
        assert_eq!(relay_mode(s), RelayMode::Stop);
    }
}

#[test]
fn offline_status_players() {
    let d = offline_status(763, false);
    assert_eq!(d.players.online, 0);
    assert_eq!(d.players.max, 1);
    assert_eq!(d.version.protocol, 763);
    assert_eq!(d.enforces_secure_chat, Some(false));
    let d = offline_status(763, true);
    assert_eq!(d.players.online, 1);
    assert_eq!(d.players.max, 1);
}

#[test]
fn default_document() {
    let d = StatusStructNew::create();
    assert_eq!(d.version.name, "???");
    assert_eq!(d.version.protocol, -1);
    assert_eq!(d.players.online, 0);
}

#[test]
fn names_for_logs() {
    assert_eq!(ProtocolState::Status.to_string(), "Status");
    assert_eq!(ProtocolState::ShutDown.to_string(), "Shutdown");
    let p = frame(1, vec![]);
    assert_eq!(p.proto_name(&ProtocolState::Status), "PingRequest");
    assert_eq!(p.proto_name(&ProtocolState::Handshaking), "error");
    assert_eq!(p.proto_name(&ProtocolState::Login), "Dont care state");
}
