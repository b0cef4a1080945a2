use bytes::{Buf, Bytes, BytesMut};
use faststr::FastStr;
use linkedbytes::{LinkedBytes, Node};
use pilota::protocol::TBinaryProtocol;
use pilota::ZERO_COPY_THRESHOLD;

fn chained_writer(zero_copy: bool) -> TBinaryProtocol<LinkedBytes> {
    TBinaryProtocol::new(LinkedBytes::with_capacity(ZERO_COPY_THRESHOLD * 2), zero_copy)
}

fn segment_count(lb: &LinkedBytes) -> usize {
    lb.iter_list().count()
}

#[test]
fn length_pass_counts_payload_at_threshold() {
    let big = vec![7u8; ZERO_COPY_THRESHOLD];
    let mut p: TBinaryProtocol<()> = TBinaryProtocol::new((), true);
    let total = p.write_bytes_len(&big);
    assert_eq!(total, 4 + ZERO_COPY_THRESHOLD);
    assert_eq!(p.zero_copy_len(), ZERO_COPY_THRESHOLD);
    assert!(p.zero_copy_len() <= total);
    p.reset();
    assert_eq!(p.zero_copy_len(), 0);
}

#[test]
fn length_pass_skips_payload_below_threshold() {
    let small = vec![7u8; ZERO_COPY_THRESHOLD - 1];
    let mut p: TBinaryProtocol<()> = TBinaryProtocol::new((), true);
    let total = p.write_bytes_len(&small);
    assert_eq!(total, 4 + ZERO_COPY_THRESHOLD - 1);
    assert_eq!(p.zero_copy_len(), 0);
}

#[test]
fn length_pass_ignores_threshold_without_zero_copy() {
    let big = vec![7u8; ZERO_COPY_THRESHOLD];
    let mut p: TBinaryProtocol<()> = TBinaryProtocol::new((), false);
    let total = p.write_bytes_len(&big);
    assert_eq!(total, 4 + ZERO_COPY_THRESHOLD);
    assert_eq!(p.zero_copy_len(), 0);
}

#[test]
fn chained_writer_splices_at_threshold() {
    let payload = Bytes::from(vec![5u8; ZERO_COPY_THRESHOLD]);
    let mut w = chained_writer(true);
    w.write_i32(1).unwrap();
    w.write_bytes(payload.clone()).unwrap();
    assert!(segment_count(&w.trans) >= 2);
    assert!(w.trans.bytes().is_empty());
    assert_eq!(w.index, 0);
    let mut spliced = false;
    for node in w.trans.iter_list() {
        if let Node::Bytes(b) = node {
            assert_eq!(&b[..], &payload[..]);
            spliced = true;
        }
    }
    assert!(spliced, "the payload must enter the chain as its own segment");

    let flat = w.trans.concat();
    assert_eq!(&flat[..4], &[0, 0, 0, 1]);
    assert_eq!(&flat[4..8], &(ZERO_COPY_THRESHOLD as u32).to_be_bytes());
    assert_eq!(&flat[8..], &payload[..]);
}

#[test]
fn chained_writer_copies_below_threshold() {
    let payload = Bytes::from(vec![5u8; ZERO_COPY_THRESHOLD - 1]);
    let mut w = chained_writer(true);
    w.write_bytes(payload.clone()).unwrap();
    assert_eq!(segment_count(&w.trans), 0);
    assert_eq!(w.trans.bytes().len(), 4 + ZERO_COPY_THRESHOLD - 1);
    assert_eq!(w.index, 4 + ZERO_COPY_THRESHOLD - 1);
}

#[test]
fn chained_writer_splices_faststr_at_threshold() {
    let text = "a".repeat(ZERO_COPY_THRESHOLD);
    let mut w = chained_writer(true);
    w.write_faststr(FastStr::new(&text)).unwrap();
    assert!(segment_count(&w.trans) >= 2);
    assert_eq!(w.index, 0);

    let small = "b".repeat(ZERO_COPY_THRESHOLD - 1);
    let mut w2 = chained_writer(true);
    w2.write_faststr(FastStr::new(&small)).unwrap();
    assert_eq!(segment_count(&w2.trans), 0);
}

#[test]
fn chained_writer_matches_contiguous_encoding() {
    let mut w = chained_writer(false);
    w.write_i32(77).unwrap();
    w.write_string("abc").unwrap();
    w.write_field_begin(pilota::types::TType::Bool, 3).unwrap();
    w.write_bool(true).unwrap();
    w.write_field_stop().unwrap();
    let chained = w.trans.concat();

    let mut c = TBinaryProtocol::new(BytesMut::new(), false);
    c.write_i32(77).unwrap();
    c.write_string("abc").unwrap();
    c.write_field_begin(pilota::types::TType::Bool, 3).unwrap();
    c.write_bool(true).unwrap();
    c.write_field_stop().unwrap();
    assert_eq!(&chained[..], &c.trans[..]);
}

#[test]
fn reader_detaches_faststr_at_threshold() {
    let text = "z".repeat(ZERO_COPY_THRESHOLD);
    let mut w = TBinaryProtocol::new(BytesMut::new(), false);
    w.write_faststr(FastStr::new(&text)).unwrap();
    w.write_i32(13).unwrap();
    let buf = w.trans;
    let total = buf.len();

    let mut r = TBinaryProtocol::new(buf, true);
    let s = r.read_faststr().unwrap();
    assert_eq!(s, FastStr::new(&text));
    // the payload was split out of the buffer, only the trailing i32 is left
    assert_eq!(r.trans.len(), total - 4 - ZERO_COPY_THRESHOLD);
    assert_eq!(r.index, 0);
    assert_eq!(r.read_i32().unwrap(), 13);
}

#[test]
fn reader_copies_faststr_below_threshold() {
    let text = "z".repeat(ZERO_COPY_THRESHOLD - 1);
    let mut w = TBinaryProtocol::new(BytesMut::new(), false);
    w.write_faststr(FastStr::new(&text)).unwrap();
    let buf = w.trans;
    let total = buf.len();

    let mut r = TBinaryProtocol::new(buf, true);
    let s = r.read_faststr().unwrap();
    assert_eq!(s, FastStr::new(&text));
    // the buffer itself is untouched, only the cursor moved
    assert_eq!(r.trans.len(), total);
    assert_eq!(r.index, total);
}

#[test]
fn read_bytes_consumes_buffer() {
    let mut w = TBinaryProtocol::new(BytesMut::new(), false);
    w.write_bytes(Bytes::from_static(&[1, 2, 3, 4])).unwrap();
    w.write_byte(9).unwrap();
    let buf = w.trans;

    let mut r = TBinaryProtocol::new(buf, true);
    let b = r.read_bytes().unwrap();
    assert_eq!(&b[..], &[1, 2, 3, 4]);
    assert_eq!(r.index, 0);
    assert_eq!(r.trans.remaining(), 1);
    assert_eq!(r.read_byte().unwrap(), 9);
}
