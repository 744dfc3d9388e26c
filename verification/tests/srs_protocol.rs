use dcs_grpc::sguid::create_sguid;
use dcs_grpc::srs_client::{
    control_message, create_radio_update_message, create_sync_message, create_update_message,
    Client, ControlMessage, Session, SessionAction, SessionEvent, StreamError,
};
use dcs_grpc::srs_message::{
    Coalition, IffControlMode, IffStatus, Message, MessageRequest, Modulation, MsgType, PingMessage,
    Position, Radio, RadioSwitchControls, ServerSettingsMessage, Transponder,
    VersionMismatchMessage,
};

#[test]
fn coalition_codes_follow_srs() {
    assert_eq!(Coalition::Spectator.serialize(), 0);
    assert_eq!(Coalition::Red.serialize(), 1);
    assert_eq!(Coalition::Blue.serialize(), 2);
    assert_eq!(Coalition::deserialize(2).unwrap(), Coalition::Blue);
    assert_eq!(Coalition::deserialize(1).unwrap(), Coalition::Red);
    assert_eq!(Coalition::deserialize(0).unwrap(), Coalition::Spectator);
}

#[test]
fn unknown_coalition_is_refused_with_its_number() {
    assert_eq!(
        Coalition::deserialize(7).unwrap_err(),
        "unknown Coalition value: 7"
    );
    assert_eq!(
        Coalition::deserialize(12345).unwrap_err(),
        "unknown Coalition value: 12345"
    );
}

#[test]
fn coalition_round_trip() {
    for c in [Coalition::Spectator, Coalition::Blue, Coalition::Red] {
        assert_eq!(Coalition::deserialize(c.serialize()).unwrap(), c);
    }
}

#[test]
fn modulation_codes_round_trip() {
    for v in 0u8..=255 {
        match Modulation::from_u8(v) {
            Some(m) => assert_eq!(m.to_u8(), v),
            None => assert!(v > 6),
        }
    }
    assert_eq!(Modulation::from_u8(2), Some(Modulation::Intercom));
    assert_eq!(Modulation::default(), Modulation::Disabled);
    assert_eq!(RadioSwitchControls::default(), RadioSwitchControls::Hotas);
    assert_eq!(RadioSwitchControls::from_u8(1), Some(RadioSwitchControls::InCockpit));
    assert_eq!(IffControlMode::from_u8(2), Some(IffControlMode::Disabled));
    assert_eq!(IffStatus::from_u8(1), Some(IffStatus::Normal));
    assert_eq!(IffStatus::from_u8(3), None);
}

#[test]
fn transponder_default_is_off() {
    let t = Transponder::default();
    assert_eq!(t.control, IffControlMode::Disabled);
    assert_eq!((t.mode1, t.mode3, t.mic), (-1, -1, -1));
    assert!(!t.mode4);
    assert_eq!(t.status, IffStatus::Off);
}

#[test]
fn msg_type_accepts_only_its_tag() {
    assert!(MsgType::<3>::deserialize(3).is_ok());
    assert!(MsgType::<3>::deserialize(2).is_err());
    assert_eq!(MsgType::<5>.serialize(), 5);
    assert_eq!(
        MsgType::<1>::deserialize(0).unwrap_err().message(),
        "Invalid message type"
    );
}

#[test]
fn sguid_is_22_url_safe_chars_of_a_v4_uuid() {
    for _ in 0..50 {
        let s = create_sguid();
        assert_eq!(s.len(), 22);
        assert!(s
            .chars()
            .all(|c| c.is_ascii_alphanumeric() || c == '-' || c == '_'));
        // byte 6 of a version-4 UUID is 0x4?, which base64 writes as one of Q, R, S, T
        let c8 = s.chars().nth(8).unwrap();
        assert!("QRST".contains(c8), "{}", s);
    }
    assert_ne!(create_sguid(), create_sguid());
}

#[test]
fn client_keeps_its_settings() {
    let mut c = Client::new("DCS-gRPC", 251_000_000, Coalition::Red);
    assert_eq!(c.name(), "DCS-gRPC");
    assert_eq!(c.freq(), 251_000_000);
    assert_eq!(c.coalition(), Coalition::Red);
    assert_eq!(c.sguid().len(), 22);
    assert!(c.unit().is_none());
    assert_eq!(c.radio_identity(), ("DCS-gRPC".to_string(), 0));
    c.set_unit(42, "Aerial-1-1");
    assert_eq!(c.unit().unwrap().id, 42);
    assert_eq!(c.radio_identity(), ("Aerial-1-1".to_string(), 42));
}

#[test]
fn session_rejects_other_versions() {
    let client = Client::new("x", 100, Coalition::Blue);
    let mut s = Session::new(Position { lat: 0, lon: 0, alt: 0 });
    let r = s.step(
        &client,
        SessionEvent::Control(ControlMessage::VersionMismatch {
            version: "2.0.8.6".to_string(),
        }),
    );
    match r {
        Err(e @ StreamError::VersionMismatch { .. }) => assert_eq!(
            e.message(),
            "Unsupported SRS server version 2.0.8.6 (expected 1.9.0.0)"
        ),
        _ => panic!("expected a version mismatch"),
    }
    assert!(matches!(
        s.step(&client, SessionEvent::Closed),
        Err(StreamError::Closed)
    ));
    assert_eq!(StreamError::Closed.message(), "Stream was closed unexpectedly");
}

#[test]
fn session_voice_packets_count_up_and_pick_modulation() {
    let mut fm = Client::new("fm", 87_995_000, Coalition::Blue);
    fm.set_unit(7, "u");
    let am = Client::new("am", 87_995_001, Coalition::Blue);
    let mut s = Session::new(Position { lat: 0, lon: 0, alt: 0 });
    assert_eq!(
        s.step(&fm, SessionEvent::Send).unwrap(),
        SessionAction::SendVoice { packet_id: 1, frequency: 87_995_000, modulation: Modulation::Fm, unit_id: 7 }
    );
    assert_eq!(
        s.step(&am, SessionEvent::Send).unwrap(),
        SessionAction::SendVoice { packet_id: 2, frequency: 87_995_001, modulation: Modulation::Am, unit_id: 0 }
    );
    s.packet_id = u64::MAX;
    let _ = s.step(&am, SessionEvent::Send).unwrap();
    assert_eq!(s.packet_id, 0);
}

#[test]
fn session_announces_moves_only_when_server_checks() {
    let client = Client::new("x", 100, Coalition::Blue);
    let p0 = Position { lat: 0, lon: 0, alt: 0 };
    let p1 = Position { lat: 1, lon: 0, alt: 0 };
    let mut s = Session::new(p0);
    assert_eq!(s.step(&client, SessionEvent::PositionTick(p1)).unwrap(), SessionAction::Nothing);
    let settings = vec![
        ("LOS_ENABLED".to_string(), "True".to_string()),
        ("DISTANCE_ENABLED".to_string(), "True".to_string()),
    ];
    assert_eq!(
        s.step(&client, SessionEvent::Control(ControlMessage::ServerSettings { settings })).unwrap(),
        SessionAction::Forward
    );
    assert!(s.los_enabled);
    // the distance setting is only honoured when written in lower case
    assert!(!s.distance_enabled);
    assert_eq!(
        s.step(&client, SessionEvent::PositionTick(p1)).unwrap(),
        SessionAction::SendPositionUpdate
    );
    assert_eq!(s.position, p1);
    assert_eq!(s.step(&client, SessionEvent::PositionTick(p1)).unwrap(), SessionAction::Nothing);
    assert_eq!(s.step(&client, SessionEvent::VoicePing).unwrap(), SessionAction::Ping);
    assert_eq!(s.step(&client, SessionEvent::Shutdown).unwrap(), SessionAction::Stop);
}

#[test]
fn messages_describe_the_client() {
    let mut client = Client::new("ATIS", 251_000_000, Coalition::Red);
    let pos = Position { lat: 42_000_000_000, lon: 41_000_000_000, alt: 100_000_000_000 };

    match create_sync_message(&client, pos) {
        MessageRequest::Sync(m) => {
            assert_eq!(m.version, "1.9.0.0");
            assert_eq!(m.client.client_guid, client.sguid());
            assert_eq!(m.client.name, "ATIS");
            assert_eq!(m.client.seat, 0);
            assert_eq!(m.client.coalition, Coalition::Red);
            assert!(m.client.allow_record);
            assert!(m.client.radio_info.is_none());
            assert_eq!(m.client.lat_lng_position, pos);
        }
        _ => panic!("expected a sync message"),
    }
    match create_update_message(&client, Position::default()) {
        MessageRequest::Update(m) => {
            assert_eq!(m.client.lat_lng_position, Position { lat: 0, lon: 0, alt: 0 });
            assert!(m.client.radio_info.is_none());
        }
        _ => panic!("expected an update message"),
    }
    match create_radio_update_message(&client, pos) {
        MessageRequest::RadioUpdate(m) => {
            let info = m.client.radio_info.unwrap();
            assert!(info.radios.is_empty());
            assert_eq!(info.unit, "ATIS");
            assert_eq!(info.unit_id, 0);
            assert_eq!(info.iff, Transponder::default());
        }
        _ => panic!("expected a radio update message"),
    }

    client.set_unit(7, "Tower");
    match create_radio_update_message(&client, pos) {
        MessageRequest::RadioUpdate(m) => {
            let info = m.client.radio_info.unwrap();
            assert_eq!(info.unit, "Tower");
            assert_eq!(info.unit_id, 7);
        }
        _ => panic!("expected a radio update message"),
    }
}

#[test]
fn radios_default_to_switched_off() {
    let r = Radio::default();
    assert!(!r.enc);
    assert_eq!(r.enc_key, 0);
    assert_eq!(r.freq, 1_000_000_000);
    assert_eq!(r.modulation, Modulation::Disabled);
    assert_eq!(r.sec_freq, 1_000_000_000);
    assert!(!r.retransmit);
}

#[test]
fn server_messages_that_matter_to_the_connection() {
    let m = Message::VersionMismatch(VersionMismatchMessage {
        msg_type: MsgType::<6>,
        version: "2.0.0.0".to_string(),
    });
    match control_message(m) {
        ControlMessage::VersionMismatch { version } => assert_eq!(version, "2.0.0.0"),
        _ => panic!("expected a version mismatch"),
    }
    let m = Message::ServerSettings(ServerSettingsMessage {
        msg_type: MsgType::<4>,
        server_settings: vec![("LOS_ENABLED".to_string(), "True".to_string())],
        version: "1.9.0.0".to_string(),
    });
    match control_message(m) {
        ControlMessage::ServerSettings { settings } => {
            assert_eq!(settings, vec![("LOS_ENABLED".to_string(), "True".to_string())])
        }
        _ => panic!("expected server settings"),
    }
    let m = Message::Ping(PingMessage { msg_type: MsgType::<1>, version: "1.9.0.0".to_string() });
    assert!(matches!(control_message(m), ControlMessage::Other));
}

#[test]
fn a_session_opens_with_sync_then_radio_update() {
    let client = Client::new("ATIS", 251_000_000, Coalition::Blue);
    let pos = Position { lat: 5, lon: 6, alt: 7 };
    let msgs = Session::new(pos).start(&client);
    assert_eq!(msgs.len(), 2);
    match &msgs[0] {
        MessageRequest::Sync(m) => {
            assert_eq!(m.client.client_guid, client.sguid());
            assert_eq!(m.client.lat_lng_position, pos);
            assert_eq!(m.version, "1.9.0.0");
        }
        _ => panic!("expected the sync request first"),
    }
    match &msgs[1] {
        MessageRequest::RadioUpdate(m) => {
            assert_eq!(m.client.name, "ATIS");
            assert_eq!(m.client.coalition, Coalition::Blue);
            assert!(m.client.radio_info.is_some());
        }
        _ => panic!("expected the radio update second"),
    }
}

#[test]
fn a_later_server_setting_replaces_an_earlier_one() {
    let mut s = Session::new(Position { lat: 0, lon: 0, alt: 0 });
    let client = Client::new("c", 1, Coalition::Red);
    let settings = vec![
        ("LOS_ENABLED".to_string(), "True".to_string()),
        ("LOS_ENABLED".to_string(), "False".to_string()),
        ("DISTANCE_ENABLED".to_string(), "false".to_string()),
        ("DISTANCE_ENABLED".to_string(), "true".to_string()),
    ];
    s.step(&client, SessionEvent::Control(ControlMessage::ServerSettings { settings })).unwrap();
    assert!(!s.los_enabled);
    assert!(s.distance_enabled);
}
