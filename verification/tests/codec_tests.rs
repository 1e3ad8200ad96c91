use pumpkin_protocol::codec::{ReadingError, VarInt, VarLong, VarUInt};

fn encode_u32(v: u32) -> Vec<u8> {
    let mut out = Vec::new();
    VarUInt(v).encode(&mut out);
    out
}

fn encode_i32(v: i32) -> Vec<u8> {
    let mut out = Vec::new();
    VarInt(v).encode(&mut out);
    out
}

fn encode_i64(v: i64) -> Vec<u8> {
    let mut out = Vec::new();
    VarLong(v).encode(&mut out);
    out
}

#[test]
fn var_uint_round_trip_samples() {
    let samples: [u32; 9] = [0, 1, 127, 128, 300, 16383, 16384, u32::MAX - 1, u32::MAX];
    for &v in samples.iter() {
        let bytes = encode_u32(v);
        assert_eq!(VarUInt(v).written_size(), bytes.len());
        let (decoded, end) = VarUInt::decode(&bytes, 0).unwrap();
        assert_eq!(decoded.0, v);
        assert_eq!(end, bytes.len());
    }
}

#[test]
fn var_int_round_trip_samples() {
    let samples: [i32; 9] = [0, 1, -1, 127, -128, 300, i32::MIN, i32::MAX, -2147483647];
    for &v in samples.iter() {
        let bytes = encode_i32(v);
        assert_eq!(VarInt(v).written_size(), bytes.len());
        let (decoded, end) = VarInt::decode(&bytes, 0).unwrap();
        assert_eq!(decoded.0, v);
        assert_eq!(end, bytes.len());
    }
}

#[test]
fn var_long_round_trip_samples() {
    let samples: [i64; 10] = [0, 1, -1, 127, 128, 300, i64::MIN, i64::MAX, -300, 1 << 62];
    for &v in samples.iter() {
        let bytes = encode_i64(v);
        assert_eq!(VarLong(v).written_size(), bytes.len());
        let (decoded, end) = VarLong::decode(&bytes, 0).unwrap();
        assert_eq!(decoded.0, v);
        assert_eq!(end, bytes.len());
    }
}

#[test]
fn encoding_is_canonical() {
    // A multi-byte encoding never ends in a byte that could be dropped:
    // the last byte is non-zero and has no continuation bit.
    let samples: [u64; 6] = [128, 300, 16384, 1 << 21, 1 << 28, u64::MAX >> 1];
    for &v in samples.iter() {
        let bytes = encode_i64(v as i64);
        let last = *bytes.last().unwrap();
        assert!(bytes.len() > 1);
        assert!(last != 0);
        assert!(last < 0x80);
        for &b in &bytes[..bytes.len() - 1] {
            assert!(b >= 0x80);
        }
    }
}

#[test]
fn concrete_three_hundred() {
    let bytes = encode_i32(300);
    assert_eq!(bytes, vec![0xAC, 0x02]);
    let (decoded, end) = VarInt::decode(&[0xAC, 0x02], 0).unwrap();
    assert_eq!(decoded.0, 300);
    assert_eq!(end, 2);
    assert_eq!(VarInt(300).written_size(), 2);
    let unsigned = encode_u32(300);
    assert_eq!(unsigned, vec![0xAC, 0x02]);
}

#[test]
fn overlong_chain_rejected() {
    // Six continuation bytes: one past the 32-bit family's maximum.
    let data = [0x80u8, 0x80, 0x80, 0x80, 0x80, 0x80];
    assert_eq!(VarUInt::decode(&data, 0), Err(ReadingError::TooLarge));
    assert_eq!(VarInt::decode(&data, 0).unwrap_err(), ReadingError::TooLarge);
    // Eleven for the 64-bit family.
    let data = [0xFFu8; 11];
    assert_eq!(VarLong::decode(&data, 0).unwrap_err(), ReadingError::TooLarge);
    // All-continuation chains of exactly the maximum length fail too.
    assert_eq!(VarUInt::decode(&[0xFFu8; 5], 0).unwrap_err(), ReadingError::TooLarge);
    assert_eq!(VarLong::decode(&[0xFFu8; 10], 0).unwrap_err(), ReadingError::TooLarge);
}

#[test]
fn out_of_range_value_rejected() {
    // Five bytes whose fifth group carries bits past the 32nd: the chain
    // terminates but the value does not fit 32 bits.
    let data = [0xFFu8, 0xFF, 0xFF, 0xFF, 0x10];
    assert_eq!(VarUInt::decode(&data, 0).unwrap_err(), ReadingError::TooLarge);
    // The largest value that does fit decodes.
    let data = [0xFFu8, 0xFF, 0xFF, 0xFF, 0x0F];
    let (decoded, end) = VarUInt::decode(&data, 0).unwrap();
    assert_eq!(decoded.0, u32::MAX);
    assert_eq!(end, 5);
}

#[test]
fn incomplete_chain_reported() {
    assert_eq!(VarUInt::decode(&[0x80u8], 0).unwrap_err(), ReadingError::Incomplete);
    assert_eq!(VarUInt::decode(&[], 0).unwrap_err(), ReadingError::Incomplete);
    assert_eq!(VarLong::decode(&[0x80u8, 0x80], 0).unwrap_err(), ReadingError::Incomplete);
}

#[test]
fn decode_consumes_exactly_one_value() {
    // The decoder stops at the value's last byte and leaves the position
    // just past it, whatever follows.
    let mut data = encode_u32(300);
    data.extend_from_slice(&[0x2A, 0xBB]);
    let (decoded, end) = VarUInt::decode(&data, 0).unwrap();
    assert_eq!(decoded.0, 300);
    assert_eq!(end, 2);
    let (next, end2) = VarUInt::decode(&data, end).unwrap();
    assert_eq!(next.0, 0x2A);
    assert_eq!(end2, 3);
}

#[test]
fn var_long_minus_one_wire_form() {
    // The 64-bit pattern of -1 is all ones: nine full groups and a final
    // single bit.
    let mut expected = vec![0xFFu8; 9];
    expected.push(0x01);
    assert_eq!(encode_i64(-1), expected);
    let (decoded, end) = VarLong::decode(&expected, 0).unwrap();
    assert_eq!(decoded.0, -1);
    assert_eq!(end, 10);
}

#[test]
fn negative_values_use_full_width() {
    // A negative value carries its full two's-complement pattern: 5 bytes
    // for the 32-bit family, 10 for the 64-bit family.
    assert_eq!(encode_i32(-1).len(), 5);
    assert_eq!(encode_i64(-1).len(), 10);
    assert_eq!(VarInt(-1).written_size(), 5);
    assert_eq!(VarLong(-1).written_size(), 10);
}
