use bytes::{Bytes, BytesMut};
use faststr::FastStr;
use pilota::protocol::TBinaryProtocol;
use pilota::types::{
    TListIdentifier, TMapIdentifier, TMessageIdentifier, TMessageType, TSetIdentifier,
    TStructIdentifier, TType,
};

fn writer() -> TBinaryProtocol<BytesMut> {
    TBinaryProtocol::new(BytesMut::new(), false)
}

fn reader_over(bytes: &[u8]) -> TBinaryProtocol<BytesMut> {
    TBinaryProtocol::new(BytesMut::from(bytes), false)
}

#[test]
fn roundtrip_scalars() {
    let mut w = writer();
    w.write_bool(true).unwrap();
    w.write_bool(false).unwrap();
    w.write_byte(0xab).unwrap();
    w.write_i8(-7).unwrap();
    w.write_i16(-12345).unwrap();
    w.write_i32(-123456789).unwrap();
    w.write_i64(-1234567890123456789).unwrap();
    w.write_double(3.25f64.to_bits()).unwrap();
    let buf = w.trans;

    let mut r = reader_over(&buf[..]);
    assert_eq!(r.read_bool().unwrap(), true);
    assert_eq!(r.read_bool().unwrap(), false);
    assert_eq!(r.read_byte().unwrap(), 0xab);
    assert_eq!(r.read_i8().unwrap(), -7);
    assert_eq!(r.read_i16().unwrap(), -12345);
    assert_eq!(r.read_i32().unwrap(), -123456789);
    assert_eq!(r.read_i64().unwrap(), -1234567890123456789);
    assert_eq!(f64::from_bits(r.read_double().unwrap()), 3.25f64);
}

#[test]
fn roundtrip_scalar_extremes() {
    let mut w = writer();
    w.write_i16(i16::MIN).unwrap();
    w.write_i16(i16::MAX).unwrap();
    w.write_i32(i32::MIN).unwrap();
    w.write_i32(i32::MAX).unwrap();
    w.write_i64(i64::MIN).unwrap();
    w.write_i64(i64::MAX).unwrap();
    let buf = w.trans;
    let mut r = reader_over(&buf[..]);
    assert_eq!(r.read_i16().unwrap(), i16::MIN);
    assert_eq!(r.read_i16().unwrap(), i16::MAX);
    assert_eq!(r.read_i32().unwrap(), i32::MIN);
    assert_eq!(r.read_i32().unwrap(), i32::MAX);
    assert_eq!(r.read_i64().unwrap(), i64::MIN);
    assert_eq!(r.read_i64().unwrap(), i64::MAX);
}

#[test]
fn roundtrip_uuid() {
    let u: [u8; 16] = [1, 2, 3, 4, 5, 6, 7, 8, 9, 10, 11, 12, 13, 14, 15, 16];
    let mut w = writer();
    w.write_uuid(u).unwrap();
    let buf = w.trans;
    assert_eq!(&buf[..], &u[..]);
    let mut r = reader_over(&buf[..]);
    assert_eq!(r.read_uuid().unwrap(), u);
}

#[test]
fn roundtrip_string_and_bytes() {
    let mut w = writer();
    w.write_string("hello").unwrap();
    w.write_faststr(FastStr::new("wörld")).unwrap();
    w.write_bytes(Bytes::from_static(&[9, 8, 7])).unwrap();
    w.write_bytes_vec(&[1, 2]).unwrap();
    let buf = w.trans;

    let mut r = reader_over(&buf[..]);
    assert_eq!(r.read_string().unwrap(), "hello");
    assert_eq!(r.read_faststr().unwrap(), FastStr::new("wörld"));
    assert_eq!(&r.read_bytes().unwrap()[..], &[9, 8, 7]);
    assert_eq!(r.read_bytes_vec().unwrap(), vec![1, 2]);
}

#[test]
fn roundtrip_field_begin() {
    let mut w = writer();
    w.write_field_begin(TType::I32, 5).unwrap();
    w.write_field_begin(TType::String, -2).unwrap();
    w.write_field_stop().unwrap();
    let buf = w.trans;
    assert_eq!(&buf[..], &[8, 0, 5, 11, 0xff, 0xfe, 0]);

    let mut r = reader_over(&buf[..]);
    let f1 = r.read_field_begin().unwrap();
    assert_eq!(f1.field_type, TType::I32);
    assert_eq!(f1.id, Some(5));
    let f2 = r.read_field_begin().unwrap();
    assert_eq!(f2.field_type, TType::String);
    assert_eq!(f2.id, Some(-2));
    let f3 = r.read_field_begin().unwrap();
    assert_eq!(f3.field_type, TType::Stop);
    assert_eq!(f3.id, Some(0));
}

#[test]
fn empty_struct_is_single_stop_byte() {
    let mut w = writer();
    w.write_struct_begin(&TStructIdentifier::new("Empty")).unwrap();
    w.write_field_stop().unwrap();
    w.write_struct_end().unwrap();
    let buf = w.trans;
    assert_eq!(&buf[..], &[0x00]);

    let mut r = reader_over(&buf[..]);
    assert!(r.read_struct_begin().unwrap().is_none());
    let f = r.read_field_begin().unwrap();
    assert_eq!(f.field_type, TType::Stop);
    assert_eq!(f.id, Some(0));
    r.read_struct_end().unwrap();
}

#[test]
fn ping_message_encodes_seventeen_bytes() {
    let ident = TMessageIdentifier::new(FastStr::new("ping"), TMessageType::Call, 7);
    let mut w = writer();
    w.write_message_begin(&ident).unwrap();
    w.write_struct_begin(&TStructIdentifier::new("Empty")).unwrap();
    w.write_field_stop().unwrap();
    w.write_struct_end().unwrap();
    w.write_message_end().unwrap();
    let buf = w.trans;
    assert_eq!(
        &buf[..],
        &[
            0x80, 0x01, 0x00, 0x01, 0x00, 0x00, 0x00, 0x04, 0x70, 0x69, 0x6E, 0x67, 0x00, 0x00,
            0x00, 0x07, 0x00,
        ]
    );
    assert_eq!(buf.len(), 17);

    let mut r = reader_over(&buf[..]);
    let m = r.read_message_begin().unwrap();
    assert_eq!(m.name, FastStr::new("ping"));
    assert_eq!(m.message_type, TMessageType::Call);
    assert_eq!(m.sequence_number, 7);
    let f = r.read_field_begin().unwrap();
    assert_eq!(f.field_type, TType::Stop);
    r.read_message_end().unwrap();
}

#[test]
fn roundtrip_message_all_types() {
    for (t, code) in [
        (TMessageType::Call, 1u8),
        (TMessageType::Reply, 2),
        (TMessageType::Exception, 3),
        (TMessageType::OneWay, 4),
    ] {
        let ident = TMessageIdentifier::new(FastStr::new("m"), t, -42);
        let mut w = writer();
        w.write_message_begin(&ident).unwrap();
        let buf = w.trans;
        assert_eq!(buf[3], code);
        let mut r = reader_over(&buf[..]);
        let m = r.read_message_begin().unwrap();
        assert_eq!(m.message_type, t);
        assert_eq!(m.name, FastStr::new("m"));
        assert_eq!(m.sequence_number, -42);
    }
}

#[test]
fn map_header_scenario() {
    let mut w = writer();
    w.write_map_begin(TMapIdentifier::new(TType::I32, TType::String, 2)).unwrap();
    w.write_i32(1).unwrap();
    w.write_string("one").unwrap();
    w.write_i32(2).unwrap();
    w.write_string("two").unwrap();
    let buf = w.trans;
    assert_eq!(&buf[..6], &[0x08, 0x0B, 0x00, 0x00, 0x00, 0x02]);

    let mut r = reader_over(&buf[..]);
    let m = r.read_map_begin().unwrap();
    assert_eq!(m.key_type, TType::I32);
    assert_eq!(m.value_type, TType::String);
    assert_eq!(m.size, 2);
    assert_eq!(r.read_i32().unwrap(), 1);
    assert_eq!(r.read_string().unwrap(), "one");
    assert_eq!(r.read_i32().unwrap(), 2);
    assert_eq!(r.read_string().unwrap(), "two");
}

#[test]
fn roundtrip_list_and_set_headers() {
    let mut w = writer();
    w.write_list_begin(TListIdentifier::new(TType::I64, 3)).unwrap();
    w.write_set_begin(TSetIdentifier::new(TType::Bool, 0)).unwrap();
    let buf = w.trans;
    assert_eq!(&buf[..], &[10, 0, 0, 0, 3, 2, 0, 0, 0, 0]);

    let mut r = reader_over(&buf[..]);
    let l = r.read_list_begin().unwrap();
    assert_eq!(l.element_type, TType::I64);
    assert_eq!(l.size, 3);
    let s = r.read_set_begin().unwrap();
    assert_eq!(s.element_type, TType::Bool);
    assert_eq!(s.size, 0);
}

#[test]
fn length_calculator_agrees_with_writer() {
    let ident = TMessageIdentifier::new(FastStr::new("ping"), TMessageType::Call, 7);
    let mut len_pass: TBinaryProtocol<()> = TBinaryProtocol::new((), false);
    let mut total = len_pass.write_message_begin_len(&ident);
    total += len_pass.write_struct_begin_len(&TStructIdentifier::new("Empty"));
    total += len_pass.write_field_begin_len(TType::I32, Some(1));
    total += len_pass.write_i32_len(99);
    total += len_pass.write_field_end_len();
    total += len_pass.write_field_stop_len();
    total += len_pass.write_struct_end_len();
    total += len_pass.write_message_end_len();

    let mut w = writer();
    w.write_message_begin(&ident).unwrap();
    w.write_struct_begin(&TStructIdentifier::new("Empty")).unwrap();
    w.write_field_begin(TType::I32, 1).unwrap();
    w.write_i32(99).unwrap();
    w.write_field_end().unwrap();
    w.write_field_stop().unwrap();
    w.write_struct_end().unwrap();
    w.write_message_end().unwrap();
    assert_eq!(w.trans.len(), total);
    assert_eq!(w.index, total);
}

#[test]
fn length_calculator_covers_every_construct() {
    let mut p: TBinaryProtocol<()> = TBinaryProtocol::new((), false);
    assert_eq!(p.write_bool_len(true), 1);
    assert_eq!(p.write_byte_len(9), 1);
    assert_eq!(p.write_i8_len(-1), 1);
    assert_eq!(p.write_i16_len(-1), 2);
    assert_eq!(p.write_i32_len(-1), 4);
    assert_eq!(p.write_i64_len(-1), 8);
    assert_eq!(p.write_double_len(1.5f64.to_bits()), 8);
    assert_eq!(p.write_uuid_len([0; 16]), 16);
    assert_eq!(p.write_string_len("abc"), 7);
    assert_eq!(p.write_faststr_len(&FastStr::new("abcd")), 8);
    assert_eq!(p.write_bytes_len(&[1, 2, 3]), 7);
    assert_eq!(p.write_bytes_vec_len(&[1, 2]), 6);
    assert_eq!(p.write_field_begin_len(TType::I32, Some(1)), 3);
    assert_eq!(p.write_field_stop_len(), 1);
    assert_eq!(p.write_list_begin_len(TListIdentifier::new(TType::I32, 1)), 5);
    assert_eq!(p.write_set_begin_len(TSetIdentifier::new(TType::I32, 1)), 5);
    assert_eq!(
        p.write_map_begin_len(TMapIdentifier::new(TType::I32, TType::I32, 1)),
        6
    );
    assert_eq!(p.write_list_end_len(), 0);
    assert_eq!(p.write_set_end_len(), 0);
    assert_eq!(p.write_map_end_len(), 0);
    assert_eq!(p.zero_copy_len(), 0);
}
