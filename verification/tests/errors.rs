use bytes::BytesMut;
use pilota::protocol::TBinaryProtocol;
use pilota::types::{
    field_type_from_u8, validate_message_version, DecodeErrorKind, ProtocolErrorKind,
    TMessageType, TType,
};

fn reader_over(bytes: &[u8]) -> TBinaryProtocol<BytesMut> {
    TBinaryProtocol::new(BytesMut::from(bytes), false)
}

#[test]
fn positive_header_word_is_bad_version() {
    // size > 0: a legacy unversioned header, rejected outright
    let mut r = reader_over(&[0x00, 0x00, 0x00, 0x01]);
    let e = r.read_message_begin().unwrap_err();
    assert_eq!(e.kind, DecodeErrorKind::BadVersion);
}

#[test]
fn wrong_version_bits_are_bad_version() {
    // negative word whose top 16 bits are not the version marker
    let mut r = reader_over(&[0x80, 0x02, 0x00, 0x01]);
    let e = r.read_message_begin().unwrap_err();
    assert_eq!(e.kind, DecodeErrorKind::BadVersion);
}

#[test]
fn unknown_message_type_is_invalid_data() {
    // version marker present but type nibble outside 1 through 4
    let mut r = reader_over(&[0x80, 0x01, 0x00, 0x05]);
    let e = r.read_message_begin().unwrap_err();
    assert_eq!(e.kind, DecodeErrorKind::InvalidData);

    let mut r0 = reader_over(&[0x80, 0x01, 0x00, 0x00]);
    let e0 = r0.read_message_begin().unwrap_err();
    assert_eq!(e0.kind, DecodeErrorKind::InvalidData);
}

#[test]
fn validate_message_version_accepts_each_type() {
    for (word, t) in [
        (0x80010001u32, TMessageType::Call),
        (0x80010002, TMessageType::Reply),
        (0x80010003, TMessageType::Exception),
        (0x80010004, TMessageType::OneWay),
    ] {
        assert_eq!(validate_message_version(word as i32).unwrap(), t);
    }
}

#[test]
fn validate_message_version_rejects() {
    assert_eq!(
        validate_message_version(1).unwrap_err().kind,
        DecodeErrorKind::BadVersion
    );
    assert_eq!(
        validate_message_version(0x7fffffff).unwrap_err().kind,
        DecodeErrorKind::BadVersion
    );
    assert_eq!(
        validate_message_version(0x80010005u32 as i32).unwrap_err().kind,
        DecodeErrorKind::InvalidData
    );
    assert_eq!(
        validate_message_version(0x80020001u32 as i32).unwrap_err().kind,
        DecodeErrorKind::BadVersion
    );
    assert_eq!(
        validate_message_version(0).unwrap_err().kind,
        DecodeErrorKind::InvalidData
    );
}

#[test]
fn unknown_wire_type_byte_is_rejected() {
    for b in [5u8, 7, 9, 17, 200] {
        let e = field_type_from_u8(b).unwrap_err();
        assert_eq!(e.kind, ProtocolErrorKind::InvalidData);
    }
    assert_eq!(field_type_from_u8(0).unwrap(), TType::Stop);
    assert_eq!(field_type_from_u8(8).unwrap(), TType::I32);
    assert_eq!(field_type_from_u8(16).unwrap(), TType::Uuid);
}

#[test]
fn field_begin_with_unknown_type_is_invalid_data() {
    let mut r = reader_over(&[0x07, 0x00, 0x01]);
    let e = r.read_field_begin().unwrap_err();
    assert_eq!(e.kind, DecodeErrorKind::InvalidData);
}

#[test]
fn collection_headers_with_unknown_type_are_invalid_data() {
    let mut r = reader_over(&[0x05, 0x00, 0x00, 0x00, 0x01]);
    assert_eq!(
        r.read_list_begin().unwrap_err().kind,
        DecodeErrorKind::InvalidData
    );
    let mut r2 = reader_over(&[0x05, 0x00, 0x00, 0x00, 0x01]);
    assert_eq!(
        r2.read_set_begin().unwrap_err().kind,
        DecodeErrorKind::InvalidData
    );
    // map: key tag fine, value tag unknown
    let mut r3 = reader_over(&[0x08, 0x05, 0x00, 0x00, 0x00, 0x01]);
    assert_eq!(
        r3.read_map_begin().unwrap_err().kind,
        DecodeErrorKind::InvalidData
    );
}

#[test]
fn invalid_utf8_text_is_invalid_data() {
    // length 2, payload 0xFF 0xFE: not valid UTF-8
    let mut r = reader_over(&[0x00, 0x00, 0x00, 0x02, 0xFF, 0xFE]);
    let e = r.read_string().unwrap_err();
    assert_eq!(e.kind, DecodeErrorKind::InvalidData);

    let mut r2 = reader_over(&[0x00, 0x00, 0x00, 0x02, 0xFF, 0xFE]);
    let e2 = r2.read_faststr().unwrap_err();
    assert_eq!(e2.kind, DecodeErrorKind::InvalidData);
}

#[test]
fn message_name_with_invalid_utf8_is_invalid_data() {
    let mut r = reader_over(&[
        0x80, 0x01, 0x00, 0x01, // version | Call
        0x00, 0x00, 0x00, 0x02, 0xFF, 0xFE, // bad name bytes
        0x00, 0x00, 0x00, 0x07, // sequence number
    ]);
    let e = r.read_message_begin().unwrap_err();
    assert_eq!(e.kind, DecodeErrorKind::InvalidData);
}
