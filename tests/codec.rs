use rusty_proxy::packets::{FrameOutcome, Packet, CLOSED_ID};
use rusty_proxy::types::{CodecError, UShort, VarInt, VarString};

fn encode(x: i32) -> Vec<u8> {
    VarInt::from(x).get_data()
}

#[test]
fn varint_round_trip_listed_values() {
    for x in [0, 1, 127, 128, 255, 25565, 2147483647, -1, -2147483648] {
        let bytes = encode(x);
        assert_eq!(VarInt::read(&bytes, 0), Ok((x, bytes.len())));
        let parsed = VarInt::parse(&bytes, 0).unwrap();
        assert_eq!(parsed.get_int(), x);
        assert_eq!(parsed.get_data(), bytes);
    }
}

#[test]
fn varint_exact_encodings() {
    assert_eq!(encode(0), vec![0x00]);
    assert_eq!(encode(1), vec![0x01]);
    assert_eq!(encode(127), vec![0x7f]);
    assert_eq!(encode(128), vec![0x80, 0x01]);
    assert_eq!(encode(255), vec![0xff, 0x01]);
    assert_eq!(encode(25565), vec![0xdd, 0xc7, 0x01]);
    assert_eq!(encode(2147483647), vec![0xff, 0xff, 0xff, 0xff, 0x07]);
    assert_eq!(encode(-1), vec![0xff, 0xff, 0xff, 0xff, 0x0f]);
    assert_eq!(encode(-2147483648), vec![0x80, 0x80, 0x80, 0x80, 0x08]);
    assert_eq!(VarInt::write_varint(300), vec![0xac, 0x02]);
}

#[test]
fn varint_rejects_six_continuation_bytes() {
    let bytes = vec![0x80u8; 6];
    assert_eq!(VarInt::read(&bytes, 0), Err(CodecError::VarIntTooLong));
    assert_eq!(VarInt::read(&[0xff, 0xff, 0xff, 0xff, 0xff, 0x01], 0), Err(CodecError::VarIntTooLong));
    assert!(VarInt::parse(&bytes, 0).is_err());
}

#[test]
fn varint_five_continuation_bytes_are_too_long() {
    assert_eq!(VarInt::read(&[0x80, 0x80, 0x80, 0x80, 0x80], 0), Err(CodecError::VarIntTooLong));
}

#[test]
fn varint_truncated_input() {
    assert_eq!(VarInt::read(&[], 0), Err(CodecError::Truncated));
    assert_eq!(VarInt::read(&[0x80, 0x80], 0), Err(CodecError::Truncated));
    assert_eq!(VarInt::read(&[0x05], 1), Err(CodecError::Truncated));
}

#[test]
fn varint_read_at_offset_and_non_canonical() {
    assert_eq!(VarInt::read(&[0x09, 0xdd, 0xc7, 0x01, 0x42], 1), Ok((25565, 3)));
    // A padded encoding keeps its bytes.
    let padded = [0x81u8, 0x80, 0x00];
    assert_eq!(VarInt::read(&padded, 0), Ok((1, 3)));
    assert_eq!(VarInt::parse(&padded, 0).unwrap().get_data(), padded.to_vec());
}

#[test]
fn var_string_round_trip() {
    for s in ["", "localhost", "h\u{e9}llo w\u{f6}rld \u{2713} \u{1f3ae}"] {
        let bytes = VarString::from(s.to_string()).get_data().unwrap();
        assert_eq!(bytes[0] as usize, s.len());
        let (parsed, used) = VarString::parse(&bytes, 0).unwrap();
        assert_eq!(parsed.get_value(), s);
        assert_eq!(used, bytes.len());
    }
}

#[test]
fn var_string_counts_bytes_not_chars() {
    let bytes = VarString::from("\u{e9}".to_string()).move_data().unwrap();
    assert_eq!(bytes, vec![0x02, 0xc3, 0xa9]);
}

#[test]
fn var_string_errors() {
    assert_eq!(VarString::parse(&[0x02, 0xff, 0xfe], 0).err(), Some(CodecError::InvalidUtf8));
    assert_eq!(VarString::parse(&[0x03, b'a'], 0).err(), Some(CodecError::Truncated));
    assert_eq!(
        VarString::parse(&[0xff, 0xff, 0xff, 0xff, 0x0f], 0).err(),
        Some(CodecError::InvalidLength)
    );
}

#[test]
fn ushort_big_endian() {
    let port = UShort::from(25565);
    assert_eq!(port.get_data(), vec![0x63, 0xdd]);
    assert_eq!(port.get_value(), 25565);
    let parsed = UShort::parse(&[0x00, 0x63, 0xdd], 1).unwrap();
    assert_eq!(parsed.get_value(), 25565);
    assert!(UShort::parse(&[0x63], 0).is_err());
}

fn frame_round_trip(len: usize) {
    let payload: Vec<u8> = (0..len).map(|i| (i % 251) as u8).collect();
    let built = Packet::from_bytes(0, payload.clone()).unwrap();
    let raw = built.raw().clone();
    match Packet::parse(&raw) {
        FrameOutcome::Frame(p) => {
            assert_eq!(p.get_id(), 0);
            assert_eq!(p.payload(), &payload);
            assert_eq!(p.raw(), &raw);
        }
        other => panic!("unexpected {:?}", other),
    }
}

#[test]
fn frame_round_trip_empty_payload() {
    frame_round_trip(0);
}

#[test]
fn frame_round_trip_one_byte_payload() {
    frame_round_trip(1);
}

#[test]
fn frame_round_trip_long_payload() {
    frame_round_trip(300);
    let raw = Packet::new(0, vec![7u8; 300]).unwrap().raw().clone();
    // 301 bytes follow the length, which takes two bytes.
    assert_eq!(&raw[0..3], &[0xad, 0x02, 0x00]);
    assert_eq!(raw.len(), 303);
}

#[test]
fn frame_exact_bytes_and_recomputed_form() {
    let p = Packet::from_bytes(1, vec![9, 8]).unwrap();
    assert_eq!(p.raw(), &vec![0x03, 0x01, 0x09, 0x08]);
    assert_eq!(p.all(), Some(vec![0x03, 0x01, 0x09, 0x08]));
}

#[test]
fn frame_parse_incremental() {
    let raw = Packet::from_bytes(0, vec![1, 2, 3]).unwrap().raw().clone();
    assert!(matches!(Packet::parse(&[]), FrameOutcome::Incomplete(1)));
    assert!(matches!(Packet::parse(&raw[..1]), FrameOutcome::Incomplete(1)));
    assert!(matches!(Packet::parse(&raw[..2]), FrameOutcome::Incomplete(3)));
    assert!(matches!(Packet::parse(&raw[..4]), FrameOutcome::Incomplete(1)));
    let mut longer = raw.clone();
    longer.extend_from_slice(&[0xaa, 0xbb]);
    match Packet::parse(&longer) {
        FrameOutcome::Frame(p) => assert_eq!(p.raw(), &raw),
        other => panic!("unexpected {:?}", other),
    }
}

#[test]
fn frame_closed_marker() {
    let raw = Packet::from_bytes(CLOSED_ID, vec![]).unwrap().raw().clone();
    assert!(matches!(Packet::parse(&raw), FrameOutcome::Closed));
    // The marker is seen before the payload is there.
    assert!(matches!(Packet::parse(&[0x10, 122]), FrameOutcome::Closed));
}

#[test]
fn frame_malformed() {
    assert!(matches!(Packet::parse(&[0x00]), FrameOutcome::Malformed(CodecError::InvalidLength)));
    assert!(matches!(
        Packet::parse(&[0x01, 0x80]),
        FrameOutcome::Malformed(CodecError::InvalidLength)
    ));
    assert!(matches!(
        Packet::parse(&[0x80, 0x80, 0x80, 0x80, 0x80]),
        FrameOutcome::Malformed(CodecError::VarIntTooLong)
    ));
}
