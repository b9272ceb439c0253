use riv::packet::{
    is_known_code, DecodeError, EncodeError, RivPacket, CODE_ACK, CODE_DISPLAY, CODE_ERR, CODE_OK,
    MAX_NAME_LENGTH,
};

fn round_trip(code: u8, color: u32, name: &str) {
    let bytes = RivPacket::with_code(code, color, name).unwrap().into_inner();
    let p = RivPacket::from(&bytes).unwrap();
    assert_eq!(p.code(), code);
    assert_eq!(p.color(), color);
    assert_eq!(p.name(), name);
}

#[test]
fn round_trip_every_code() {
    for code in [CODE_DISPLAY, CODE_ACK, CODE_OK, CODE_ERR] {
        round_trip(code, 0x00ff8800, "picture.png");
        round_trip(code, 0, "");
        round_trip(code, u32::MAX, "zdjęcie żółw 🐢.jpg");
    }
}

#[test]
fn round_trip_longest_name() {
    let name = "x".repeat(MAX_NAME_LENGTH);
    round_trip(CODE_DISPLAY, 0x123456, &name);
}

#[test]
fn encoding_is_exact() {
    let bytes = RivPacket::new(0x00112233, "ab").unwrap().into_inner();
    assert_eq!(bytes, b"RIVd\x00\x11\x22\x33\x00\x02ab".to_vec());
    let bytes = RivPacket::with_code(CODE_OK, 0xa1b2c3d4, "").unwrap().to_bytes();
    assert_eq!(bytes, b"RIVo\xa1\xb2\xc3\xd4\x00\x00".to_vec());
}

#[test]
fn encode_refuses_one_byte_too_many() {
    let name = "y".repeat(MAX_NAME_LENGTH + 1);
    assert!(matches!(RivPacket::new(1, &name), Err(EncodeError::NameTooLong)));
    // a two-byte character that crosses the limit
    let name = format!("{}é", "y".repeat(MAX_NAME_LENGTH - 1));
    assert_eq!(name.len(), MAX_NAME_LENGTH + 1);
    assert!(matches!(RivPacket::new(1, &name), Err(EncodeError::NameTooLong)));
    assert_eq!(EncodeError::NameTooLong.message(), "name is too long to encode in a packet");
}

#[test]
fn decode_too_short() {
    let full = b"RIVd\x00\x00\x00\x00\x00\x00";
    for n in 0..10 {
        assert!(matches!(RivPacket::from(&full[..n]), Err(DecodeError::TooShort)));
    }
    assert!(RivPacket::from(&full[..]).is_ok());
}

#[test]
fn decode_bad_magic() {
    for head in [&b"XIVd"[..], b"RXVd", b"RIXd", b"RIVx", b"RIVD", b"rivd", b"\0\0\0\0"] {
        let mut data = head.to_vec();
        data.extend_from_slice(b"\x00\x00\x00\x00\x00\x00");
        assert!(matches!(RivPacket::from(&data), Err(DecodeError::BadMagic)));
    }
    // the magic is checked before the name length
    let data = b"RIVz\x00\x00\x00\x00\xff\xff";
    assert!(matches!(RivPacket::from(data), Err(DecodeError::BadMagic)));
}

#[test]
fn decode_bad_name_length() {
    let data = b"RIVd\x00\x00\x00\x00\x00\x03ab";
    assert!(matches!(RivPacket::from(data), Err(DecodeError::BadNameLength)));
    let mut data = b"RIVd\x00\x00\x00\x00".to_vec();
    let n = (MAX_NAME_LENGTH + 1) as u16;
    data.extend_from_slice(&n.to_be_bytes());
    data.extend(std::iter::repeat(b'a').take(MAX_NAME_LENGTH + 1));
    assert!(matches!(RivPacket::from(&data), Err(DecodeError::BadNameLength)));
}

#[test]
fn decode_invalid_utf8() {
    let data = b"RIVa\x00\x00\x00\x00\x00\x02\xc3\x28";
    assert!(matches!(RivPacket::from(data), Err(DecodeError::InvalidUtf8)));
    assert_eq!(DecodeError::InvalidUtf8.message(), "can't decode UTF-8");
}

#[test]
fn decode_ignores_trailing_bytes() {
    let data = b"RIVe\x00\x01\x02\x03\x00\x01z\xff\xfe";
    let p = RivPacket::from(data).unwrap();
    assert_eq!(p.name(), "z");
    assert_eq!(p.color(), 0x00010203);
    assert_eq!(p.into_inner(), b"RIVe\x00\x01\x02\x03\x00\x01z".to_vec());
}

#[test]
fn code_rewrite_and_queries() {
    let mut p = RivPacket::new(7, "a.png").unwrap();
    assert!(p.is_display() && !p.is_ack() && !p.is_ok());
    p.set_code(CODE_ACK);
    assert!(p.is_ack() && !p.is_display());
    p.set_code(CODE_OK);
    assert!(p.is_ok());
    assert_eq!(p.code(), b'o');
    assert_eq!(p.color(), 7);
    assert_eq!(p.name(), "a.png");
    assert!(is_known_code(b'e'));
    assert!(!is_known_code(b'x'));
}
