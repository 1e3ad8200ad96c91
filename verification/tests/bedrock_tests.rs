use pumpkin_protocol::bedrock::{
    build_server_info, CompressionLevelError, CUnconnectedPong, SubClient, UDPNetworkEncoder,
    GAME_PACKET_MARKER,
};
use pumpkin_protocol::codec::VarUInt;

#[test]
fn game_packet_without_compression() {
    let encoder = UDPNetworkEncoder::new();
    let mut out = Vec::new();
    encoder.write_game_packet(1, SubClient::Main, SubClient::Main, &[0xAB], &mut out);
    // marker, length (header byte + 1 payload byte), header, payload
    assert_eq!(out, vec![0xFE, 0x02, 0x01, 0xAB]);
}

#[test]
fn game_packet_reserves_compression_marker() {
    let mut encoder = UDPNetworkEncoder::new();
    encoder.set_compression((256, 7));
    let mut out = Vec::new();
    encoder.write_game_packet(1, SubClient::Main, SubClient::Main, &[0xAB], &mut out);
    // The wire shape stays stable with the stage negotiated: the marker
    // byte is reserved even though the stage is a no-op.
    assert_eq!(out, vec![0xFE, 0xFF, 0x02, 0x01, 0xAB]);
}

#[test]
fn game_packet_header_packs_subchannels() {
    // id 5, sender sub-channel 1, target sub-channel 2:
    // 5 + 1*1024 + 2*4096 = 9221.
    let encoder = UDPNetworkEncoder::new();
    let mut out = Vec::new();
    encoder.write_game_packet(5, SubClient::Second, SubClient::Third, &[], &mut out);
    let mut expected_header = Vec::new();
    VarUInt(9221).encode(&mut expected_header);
    let mut expected = vec![GAME_PACKET_MARKER];
    VarUInt(expected_header.len() as u32).encode(&mut expected);
    expected.extend_from_slice(&expected_header);
    assert_eq!(out, expected);
}

#[test]
fn game_packet_sized_before_payload_exists() {
    // The length prefix is computed from the header's encoded size, not
    // by materializing the frame twice.
    let encoder = UDPNetworkEncoder::new();
    let payload = vec![9u8; 300];
    let mut out = Vec::new();
    encoder.write_game_packet(1023, SubClient::Fourth, SubClient::Fourth, &payload, &mut out);
    // header 1023 + 3*1024 + 3*4096 = 16383, two VarUInt bytes.
    let mut header = Vec::new();
    VarUInt(16383).encode(&mut header);
    assert_eq!(header.len(), 2);
    let mut expected = vec![GAME_PACKET_MARKER];
    VarUInt(302).encode(&mut expected);
    expected.extend_from_slice(&header);
    expected.extend_from_slice(&payload);
    assert_eq!(out, expected);
}

#[test]
fn encryption_can_only_be_set() {
    let mut encoder = UDPNetworkEncoder::new();
    encoder.set_encryption(&vec![0u8; 16]);
    let mut out = Vec::new();
    encoder.write_game_packet(1, SubClient::Main, SubClient::Main, &[], &mut out);
    assert_eq!(out[0], 0xFE);
}

#[test]
fn server_info_carries_the_fixed_facts() {
    let info = build_server_info(
        "A server".to_string(),
        "1.21".to_string(),
        3,
        20,
        0xABCD,
        "second line".to_string(),
        "Survival".to_string(),
    );
    assert_eq!(info.edition, "MCPE");
    assert_eq!(info.protocol_version, 819);
    assert_eq!(info.player_count, 3);
    assert_eq!(info.max_player_count, 20);
    assert_eq!(info.server_unique_id, 0xABCD);
    assert_eq!(info.game_mode_numeric, 1);
    assert_eq!(info.port_ipv4, 19132);
    assert_eq!(info.port_ipv6, 19133);
}

#[test]
fn unconnected_pong_echoes_the_ping() {
    let magic = [7u8; 16];
    let pong = CUnconnectedPong::new(123456, 0xFEED, magic, "MCPE;rest".to_string());
    assert_eq!(pong.time, 123456);
    assert_eq!(pong.server_guid, 0xFEED);
    assert_eq!(pong.magic, magic);
    assert_eq!(pong.payload, "MCPE;rest");
}

#[test]
fn compression_level_error_message() {
    assert_eq!(CompressionLevelError.message(), "Invalid compression Level");
}
