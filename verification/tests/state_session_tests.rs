use pumpkin_protocol::frame::CompressionConfig;
use pumpkin_protocol::net::DisconnectReason;
use pumpkin_protocol::session::{BedrockSession, ClientPlatform, OutPacket, Session, SessionError};
use pumpkin_protocol::state::{
    lookup, next_state, validate_inbound, ConnectionState, HandshakeIntent, PacketKind,
    RakNetState, RegistryError,
};

#[test]
fn registry_resolves_ids_per_state() {
    assert_eq!(lookup(ConnectionState::Handshake, 0x00), Some(PacketKind::Intention));
    assert_eq!(lookup(ConnectionState::Status, 0x01), Some(PacketKind::PingRequest));
    assert_eq!(lookup(ConnectionState::Login, 0x03), Some(PacketKind::LoginAcknowledged));
    assert_eq!(lookup(ConnectionState::Configuration, 0x03), Some(PacketKind::FinishConfiguration));
    assert_eq!(lookup(ConnectionState::Play, 0x1A), Some(PacketKind::KeepAlive));
    assert_eq!(lookup(ConnectionState::Handshake, 0x01), None);
    assert_eq!(lookup(ConnectionState::Login, 0x1A), None);
}

#[test]
fn registry_tells_unknown_from_illegal() {
    // A Play-only id while in Login is recognized but illegal there.
    assert_eq!(
        validate_inbound(ConnectionState::Login, 0x1A).unwrap_err(),
        RegistryError::IllegalStateTransition
    );
    // An id no packet carries anywhere is unknown.
    assert_eq!(
        validate_inbound(ConnectionState::Login, 0x55).unwrap_err(),
        RegistryError::UnknownPacket
    );
    assert_eq!(validate_inbound(ConnectionState::Login, 0x00).unwrap(), PacketKind::LoginStart);
}

#[test]
fn login_sequence_reaches_play_in_order() {
    // Handshake -> Login -> Configuration -> Play, one packet per step,
    // never skipping a state.
    let s0 = ConnectionState::Handshake;
    let s1 = next_state(s0, PacketKind::Intention, HandshakeIntent::Login);
    assert_eq!(s1, ConnectionState::Login);
    let s2 = next_state(s1, PacketKind::LoginStart, HandshakeIntent::Login);
    assert_eq!(s2, ConnectionState::Login);
    let s3 = next_state(s2, PacketKind::LoginAcknowledged, HandshakeIntent::Login);
    assert_eq!(s3, ConnectionState::Configuration);
    assert_ne!(s3, ConnectionState::Play);
    let s4 = next_state(s3, PacketKind::FinishConfiguration, HandshakeIntent::Login);
    assert_eq!(s4, ConnectionState::Play);
}

#[test]
fn play_walks_back_to_configuration() {
    let s = next_state(
        ConnectionState::Play,
        PacketKind::ConfigurationAcknowledged,
        HandshakeIntent::Login,
    );
    assert_eq!(s, ConnectionState::Configuration);
}

#[test]
fn handshake_intent_picks_status_or_login() {
    assert_eq!(
        next_state(ConnectionState::Handshake, PacketKind::Intention, HandshakeIntent::Status),
        ConnectionState::Status
    );
    assert_eq!(
        next_state(ConnectionState::Handshake, PacketKind::Intention, HandshakeIntent::Login),
        ConnectionState::Login
    );
}

#[test]
fn play_packet_in_login_closes_session() {
    // The state-machine scenario: a Play-only packet while in Login is
    // rejected and the session closes.
    let mut session = Session::new();
    let s = session.handle_inbound(0x00, HandshakeIntent::Login);
    assert_eq!(s.unwrap(), PacketKind::Intention);
    assert_eq!(session.current_state(), ConnectionState::Login);
    let r = session.handle_inbound(0x1A, HandshakeIntent::Login);
    assert_eq!(r.unwrap_err(), RegistryError::IllegalStateTransition);
    assert!(session.closed());
    assert_eq!(session.current_state(), ConnectionState::Login);
}

#[test]
fn session_walks_full_login_sequence() {
    let mut session = Session::new();
    session.handle_inbound(0x00, HandshakeIntent::Login).unwrap();
    assert_eq!(session.current_state(), ConnectionState::Login);
    session.handle_inbound(0x00, HandshakeIntent::Login).unwrap();
    session.handle_inbound(0x03, HandshakeIntent::Login).unwrap();
    assert_eq!(session.current_state(), ConnectionState::Configuration);
    session.handle_inbound(0x03, HandshakeIntent::Login).unwrap();
    assert_eq!(session.current_state(), ConnectionState::Play);
    assert!(!session.closed());
}

#[test]
fn unknown_packet_closes_with_its_reason() {
    let mut session = Session::new();
    let r = session.handle_inbound(0x55, HandshakeIntent::Login);
    assert_eq!(r.unwrap_err(), RegistryError::UnknownPacket);
    assert!(session.closed());
}

#[test]
fn close_flushes_what_was_enqueued_before() {
    // The session scenario: closing flushes every packet already queued
    // before the close signal, and rejects every enqueue after it.
    let mut session = Session::new();
    session.enqueue(OutPacket { id: 1, body: vec![0xAA] }).unwrap();
    session.enqueue(OutPacket { id: 2, body: vec![0xBB, 0xCC] }).unwrap();
    session.close(DisconnectReason::Shutdown);
    let rejected = session.enqueue(OutPacket { id: 3, body: vec![0xDD] });
    assert_eq!(rejected.unwrap_err(), SessionError::Closed);
    let drained = session.flush();
    assert_eq!(drained.len(), 2);
    assert_eq!(drained[0].id, 1);
    assert_eq!(drained[0].body, vec![0xAA]);
    assert_eq!(drained[1].id, 2);
    assert_eq!(drained[1].body, vec![0xBB, 0xCC]);
    let empty = session.flush();
    assert!(empty.is_empty());
}

#[test]
fn queue_keeps_fifo_order() {
    let mut session = Session::new();
    for id in 0..10u32 {
        session.enqueue(OutPacket { id, body: vec![id as u8] }).unwrap();
    }
    let drained = session.flush();
    let ids: Vec<u32> = drained.iter().map(|p| p.id).collect();
    assert_eq!(ids, (0..10).collect::<Vec<u32>>());
}

#[test]
fn compression_and_encryption_negotiate_once() {
    let mut session = Session::new();
    session.set_compression(CompressionConfig { threshold: 256, level: 6 });
    session.set_encryption(vec![0u8; 16]);
    assert!(!session.closed());
}

#[test]
fn session_ciphers_run_continuously_per_direction() {
    // One session's outbound stage and its peer's inbound stage mirror
    // each other: frames pass through both unchanged, across several
    // frames on one continuous state.
    let mut sender = Session::new();
    let mut receiver = Session::new();
    sender.set_encryption(vec![0x42; 16]);
    receiver.set_encryption(vec![0x42; 16]);
    let mut wire = Vec::new();
    for body in [vec![1u8, 2, 3], vec![4u8; 20], vec![]] {
        let mut frame = Vec::new();
        sender.send_frame(&body, &mut frame);
        let ciphered = sender.encrypt_outbound(frame);
        wire.extend_from_slice(&ciphered);
    }
    let plain = receiver.decrypt_inbound(wire);
    let (b1, p1) = receiver.receive_frame(&plain, 0, 1 << 21).unwrap();
    let (b2, p2) = receiver.receive_frame(&plain, p1, 1 << 21).unwrap();
    let (b3, p3) = receiver.receive_frame(&plain, p2, 1 << 21).unwrap();
    assert_eq!(b1, vec![1, 2, 3]);
    assert_eq!(b2, vec![4u8; 20]);
    assert_eq!(b3, Vec::<u8>::new());
    assert_eq!(p3, plain.len());
}

#[test]
fn session_below_threshold_sends_verbatim() {
    // A session below the negotiated threshold sends an uncompressed
    // frame whose uncompressedLength field is 0.
    let mut session = Session::new();
    session.set_compression(CompressionConfig { threshold: 100, level: 6 });
    let mut wire = Vec::new();
    session.send_frame(&[1, 2, 3], &mut wire);
    assert_eq!(wire, vec![4, 0, 1, 2, 3]);
    // At or above the threshold the field carries the true uncompressed
    // size and the body goes through the stage.
    let mut session = Session::new();
    session.set_compression(CompressionConfig { threshold: 3, level: 6 });
    let mut wire = Vec::new();
    session.send_frame(&[1, 2, 3], &mut wire);
    assert_eq!(wire, vec![4, 3, 1, 2, 3]);
    // Both shapes come back to the body they framed.
    let (body, _) = session.receive_frame(&wire, 0, 1 << 21).unwrap();
    assert_eq!(body, vec![1, 2, 3]);
}

#[test]
fn frame_errors_close_the_session() {
    let mut session = Session::new();
    let r = session.receive_frame(&[0x80, 0x80, 0x80, 0x80, 0x80, 0x80], 0, 1 << 21);
    assert!(r.is_err());
    assert!(session.closed());
    // A frame over the configured maximum closes too, before buffering.
    let mut session = Session::new();
    let mut wire = Vec::new();
    session.send_frame(&[7u8; 50], &mut wire);
    let r = session.receive_frame(&wire, 0, 10);
    assert!(r.is_err());
    assert!(session.closed());
}

#[test]
fn session_frames_round_trip_without_compression() {
    let mut session = Session::new();
    let mut wire = Vec::new();
    session.send_frame(&[9, 9, 9], &mut wire);
    session.send_frame(&[], &mut wire);
    session.send_frame(&[1], &mut wire);
    let (b1, p1) = session.receive_frame(&wire, 0, 1 << 21).unwrap();
    let (b2, p2) = session.receive_frame(&wire, p1, 1 << 21).unwrap();
    let (b3, p3) = session.receive_frame(&wire, p2, 1 << 21).unwrap();
    assert_eq!(b1, vec![9, 9, 9]);
    assert_eq!(b2, Vec::<u8>::new());
    assert_eq!(b3, vec![1]);
    assert_eq!(p3, wire.len());
}

#[test]
fn client_platform_wraps_both_families() {
    let java = ClientPlatform::Java(Session::new());
    assert!(!java.closed());
    let _session = java.java();
    let mut bedrock_session = BedrockSession::new();
    assert_eq!(bedrock_session.current_state(), RakNetState::Unconnected);
    bedrock_session.connect();
    assert_eq!(bedrock_session.current_state(), RakNetState::Connected);
    bedrock_session.close();
    let bedrock = ClientPlatform::Bedrock(bedrock_session);
    assert!(bedrock.closed());
    let _session = bedrock.bedrock();
}

#[test]
fn bedrock_queue_is_fifo_and_closes() {
    // Both transport families queue outbound packets the same way: FIFO,
    // kept across close for a final flush, nothing accepted after it.
    let mut session = BedrockSession::new();
    session.enqueue(OutPacket { id: 1, body: vec![0xAA] }).unwrap();
    session.enqueue(OutPacket { id: 2, body: vec![0xBB] }).unwrap();
    session.close();
    let rejected = session.enqueue(OutPacket { id: 3, body: vec![0xCC] });
    assert_eq!(rejected.unwrap_err(), SessionError::Closed);
    let drained = session.flush();
    assert_eq!(drained.len(), 2);
    assert_eq!(drained[0].id, 1);
    assert_eq!(drained[1].id, 2);
    assert!(session.flush().is_empty());
}

#[test]
fn platform_enqueue_reaches_both_families() {
    let mut java = ClientPlatform::Java(Session::new());
    java.enqueue_packet(OutPacket { id: 5, body: vec![1] }).unwrap();
    let mut bedrock = ClientPlatform::Bedrock(BedrockSession::new());
    bedrock.enqueue_packet(OutPacket { id: 6, body: vec![2] }).unwrap();
    if let ClientPlatform::Bedrock(session) = &mut bedrock {
        let drained = session.flush();
        assert_eq!(drained.len(), 1);
        assert_eq!(drained[0].id, 6);
    } else {
        panic!("expected the datagram family");
    }
}
