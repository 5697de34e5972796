use hci_core::io::{ReadAs, ReadFrom, Reader, WriteAs, WriteTo, Writer};

#[test]
fn u8_round_trip() {
    let bytes = 0xa5u8.bytes().unwrap();
    assert_eq!(bytes, vec![0xa5]);
    let mut r = Reader::new(bytes);
    let (v, n) = u8::read_from(&mut r).unwrap();
    assert_eq!(v, 0xa5);
    assert_eq!(n, 1);
}

#[test]
fn u16_round_trip() {
    let bytes = 0x1234u16.bytes().unwrap();
    assert_eq!(bytes, vec![0x34, 0x12]);
    let mut r = Reader::new(bytes);
    let (v, n) = u16::read_from(&mut r).unwrap();
    assert_eq!(v, 0x1234);
    assert_eq!(n, 2);
}

#[test]
fn u32_round_trip() {
    let bytes = 0xdead_beefu32.bytes().unwrap();
    assert_eq!(bytes, vec![0xef, 0xbe, 0xad, 0xde]);
    let mut r = Reader::new(bytes);
    let (v, n) = u32::read_from(&mut r).unwrap();
    assert_eq!(v, 0xdead_beef);
    assert_eq!(n, 4);
}

#[test]
fn u64_round_trip() {
    let bytes = 0x0102_0304_0506_0708u64.bytes().unwrap();
    assert_eq!(bytes, vec![0x08, 0x07, 0x06, 0x05, 0x04, 0x03, 0x02, 0x01]);
    let mut r = Reader::new(bytes);
    let (v, n) = u64::read_from(&mut r).unwrap();
    assert_eq!(v, 0x0102_0304_0506_0708);
    assert_eq!(n, 8);
}

#[test]
fn short_source_consumes_what_is_there() {
    let mut r = Reader::new(vec![0x34]);
    let (v, n) = u16::read_from(&mut r).unwrap();
    assert_eq!(v, 0x0034);
    assert_eq!(n, 1);

    let mut r = Reader::new(vec![]);
    let (v, n) = u8::read_from(&mut r).unwrap();
    assert_eq!(v, 0);
    assert_eq!(n, 0);

    let mut r = Reader::new(vec![0xaa, 0xbb]);
    let (v, n) = u32::read_from(&mut r).unwrap();
    assert_eq!(v, 0xbbaa);
    assert_eq!(n, 2);
}

#[test]
fn read_as_decodes_in_sequence() {
    let mut r = Reader::new(vec![0x01, 0x34, 0x12, 0xef, 0xbe, 0xad, 0xde]);
    let (a, na): (u8, usize) = r.read_as().unwrap();
    let (b, nb): (u16, usize) = r.read_as().unwrap();
    let (c, nc): (u32, usize) = r.read_as().unwrap();
    assert_eq!((a, na), (0x01, 1));
    assert_eq!((b, nb), (0x1234, 2));
    assert_eq!((c, nc), (0xdead_beef, 4));
}

#[test]
fn write_as_appends_in_sequence() {
    let mut w = Writer::new();
    assert_eq!(w.write_as(0x01u8).unwrap(), 1);
    assert_eq!(w.write_as(0x1234u16).unwrap(), 2);
    assert_eq!(w.write_as(0xdead_beefu32).unwrap(), 4);
    assert_eq!(w.into_vec(), vec![0x01, 0x34, 0x12, 0xef, 0xbe, 0xad, 0xde]);
}

#[test]
fn u64_write_then_read_as() {
    let mut w = Writer::new();
    assert_eq!(w.write_as(0xffee_ddcc_bbaa_9988u64).unwrap(), 8);
    let mut r = Reader::new(w.into_vec());
    let (v, n): (u64, usize) = r.read_as().unwrap();
    assert_eq!(v, 0xffee_ddcc_bbaa_9988);
    assert_eq!(n, 8);
}

#[test]
fn reader_tracks_remaining_bytes() {
    let mut r = Reader::new(vec![1, 2, 3]);
    assert_eq!(r.remaining(), 3);
    assert_eq!(r.next(), Some(1));
    assert_eq!(r.remaining(), 2);
    assert_eq!(r.take_rest(), vec![2, 3]);
    assert_eq!(r.remaining(), 0);
    assert_eq!(r.next(), None);
}

#[test]
fn u128_encodes_sixteen_bytes() {
    let bytes = 0x0102_0304_0506_0708_090a_0b0c_0d0e_0f10u128.bytes().unwrap();
    assert_eq!(
        bytes,
        vec![
            0x10, 0x0f, 0x0e, 0x0d, 0x0c, 0x0b, 0x0a, 0x09, 0x08, 0x07, 0x06, 0x05, 0x04, 0x03,
            0x02, 0x01
        ]
    );
}
