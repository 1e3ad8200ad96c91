use pumpkin_protocol::codec::VarUInt;
use pumpkin_protocol::frame::{
    append_bytes, read_frame, read_payload, write_frame, write_payload, CipherContext,
    CompressionConfig, FrameError,
};

fn encode_u32(v: u32) -> Vec<u8> {
    let mut out = Vec::new();
    VarUInt(v).encode(&mut out);
    out
}

#[test]
fn payload_below_threshold_marks_zero() {
    // A body under the negotiated threshold travels verbatim behind an
    // uncompressed-length field of 0.
    let config = CompressionConfig { threshold: 64, level: 6 };
    let body = [1u8, 2, 3];
    let mut payload = Vec::new();
    write_payload(&body, &config, &mut payload);
    assert_eq!(payload, vec![0x00, 1, 2, 3]);
}

#[test]
fn payload_at_threshold_declares_true_size() {
    // A body at or over the threshold goes through the stage behind its
    // true uncompressed size.
    let config = CompressionConfig { threshold: 3, level: 6 };
    let body = [9u8, 8, 7];
    let mut payload = Vec::new();
    write_payload(&body, &config, &mut payload);
    assert_eq!(payload, vec![0x03, 9, 8, 7]);

    let larger = vec![5u8; 300];
    let mut payload = Vec::new();
    write_payload(&larger, &config, &mut payload);
    let mut expected = encode_u32(300);
    expected.extend_from_slice(&larger);
    assert_eq!(payload, expected);
}

#[test]
fn payload_round_trip_both_sides_of_threshold() {
    for threshold in [0u32, 1, 3, 4, 1000] {
        let config = CompressionConfig { threshold, level: 1 };
        let body = [10u8, 20, 30];
        let mut payload = Vec::new();
        write_payload(&body, &config, &mut payload);
        let back = read_payload(&payload).unwrap();
        assert_eq!(back, body.to_vec());
    }
}

#[test]
fn payload_length_mismatch_is_decompression_error() {
    // A declared uncompressed length that contradicts the body closes the
    // session rather than guessing.
    let data = [0x05u8, 1, 2, 3];
    assert_eq!(read_payload(&data).unwrap_err(), FrameError::DecompressionError);
}

#[test]
fn frame_round_trip_without_compression() {
    let body = [1u8, 2, 3, 4, 5];
    let mut wire = Vec::new();
    write_frame(&body, None, &mut wire);
    assert_eq!(wire, vec![5, 1, 2, 3, 4, 5]);
    let (back, end) = read_frame(&wire, 0, false, 1 << 21).unwrap();
    assert_eq!(back, body.to_vec());
    assert_eq!(end, wire.len());
}

#[test]
fn frame_round_trip_with_compression() {
    let config = CompressionConfig { threshold: 2, level: 6 };
    let body = [7u8, 7, 7];
    let mut wire = Vec::new();
    write_frame(&body, Some(&config), &mut wire);
    // frameLength 4, uncompressedLength 3, then the body.
    assert_eq!(wire, vec![4, 3, 7, 7, 7]);
    let (back, end) = read_frame(&wire, 0, true, 1 << 21).unwrap();
    assert_eq!(back, body.to_vec());
    assert_eq!(end, wire.len());
}

#[test]
fn frames_round_trip_back_to_back() {
    // Several frames in one buffer, read in order, with one continuous
    // cipher state per direction across all of them.
    let config = CompressionConfig { threshold: 4, level: 6 };
    let bodies: Vec<Vec<u8>> = vec![vec![1, 2, 3], vec![4; 10], vec![], vec![9, 9, 9, 9]];
    let mut wire = Vec::new();
    let mut encrypt = CipherContext::new();
    encrypt.upgrade(vec![0x11; 16]);
    for body in &bodies {
        let mut frame = Vec::new();
        write_frame(body, Some(&config), &mut frame);
        let ciphered = encrypt.process(frame);
        append_bytes(&ciphered, &mut wire);
    }
    let mut decrypt = CipherContext::new();
    decrypt.upgrade(vec![0x11; 16]);
    let deciphered = decrypt.process(wire);
    let mut pos = 0;
    for body in &bodies {
        let (back, end) = read_frame(&deciphered, pos, true, 1 << 21).unwrap();
        assert_eq!(&back, body);
        pos = end;
    }
    assert_eq!(pos, deciphered.len());
}

#[test]
fn oversized_frame_rejected_before_buffering() {
    // A declared frame length over the configured maximum is refused
    // outright.
    let mut wire = Vec::new();
    let body = vec![1u8; 100];
    write_frame(&body, None, &mut wire);
    assert_eq!(read_frame(&wire, 0, false, 10).unwrap_err(), FrameError::TooLarge);
    // The same frame passes under a larger maximum.
    assert!(read_frame(&wire, 0, false, 100).is_ok());
}

#[test]
fn corrupt_length_prefix_rejected() {
    let data = [0x80u8, 0x80, 0x80, 0x80, 0x80, 0x80];
    assert_eq!(read_frame(&data, 0, false, 100).unwrap_err(), FrameError::MalformedVarint);
}

#[test]
fn truncated_frame_reported() {
    let data = [0x05u8, 1, 2];
    assert_eq!(read_frame(&data, 0, false, 100).unwrap_err(), FrameError::Incomplete);
}

#[test]
fn cipher_state_is_one_way_and_continuous() {
    let mut cipher = CipherContext::new();
    // Disabled: bytes pass and no position is kept.
    let out = cipher.process(vec![1, 2, 3]);
    assert_eq!(out, vec![1, 2, 3]);
    cipher.upgrade(vec![0xAB; 16]);
    // Enabled: the running position advances with each frame and is never
    // restarted between them.
    let first = cipher.process(vec![5; 10]);
    assert_eq!(first, vec![5; 10]);
    let second = cipher.process(vec![6; 7]);
    assert_eq!(second, vec![6; 7]);
}

#[test]
fn cipher_round_trip_through_both_directions() {
    let mut encrypt = CipherContext::new();
    let mut decrypt = CipherContext::new();
    encrypt.upgrade(vec![1; 16]);
    decrypt.upgrade(vec![1; 16]);
    let payload = vec![1u8, 2, 3, 4, 5];
    let ciphered = encrypt.process(payload.clone());
    let deciphered = decrypt.process(ciphered);
    assert_eq!(deciphered, payload);
}
