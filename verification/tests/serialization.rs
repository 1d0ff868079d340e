use noise_engine_native::serialization::{FixedLayout, SerializationReader};

#[test]
fn checked_read_of_four_byte_buffer_succeeds_once() {
    let data = [0x78u8, 0x56, 0x34, 0x12];
    let mut reader = SerializationReader::new(&data);
    let first: Option<u32> = reader.read();
    assert_eq!(first, Some(0x12345678));
    assert_eq!(reader.index, 4);
    let second: Option<u32> = reader.read();
    assert_eq!(second, None);
    assert_eq!(reader.index, 4);
}

#[test]
fn checked_read_decodes_little_endian() {
    let data = [0x01u8, 0x00, 0xff, 0x7f];
    let mut reader = SerializationReader::new(&data);
    let a: Option<u16> = reader.read();
    assert_eq!(a, Some(1));
    let b: Option<u16> = reader.read();
    assert_eq!(b, Some(0x7fff));
}

#[test]
fn checked_read_stops_short_of_buffer_end() {
    let data = [1u8, 2, 3];
    let mut reader = SerializationReader::new(&data);
    let a: Option<u16> = reader.read();
    assert_eq!(a, Some(0x0201));
    let b: Option<u16> = reader.read();
    assert_eq!(b, None);
    assert_eq!(reader.index, 2);
    let c: Option<u8> = reader.read();
    assert_eq!(c, Some(3));
    assert_eq!(reader.index, 3);
}

#[test]
fn unchecked_read_advances_by_value_size() {
    let data = [0xaau8, 0xbb, 0xcc, 0xdd, 0xee, 0xff, 0x00, 0x11];
    let mut reader = SerializationReader::new(&data);
    let a: u32 = reader.read_unchecked();
    assert_eq!(a, 0xddccbbaa);
    assert_eq!(reader.index, 4);
    let b: u32 = reader.read_unchecked();
    assert_eq!(b, 0x1100ffee);
    assert_eq!(reader.index, 8);
}

#[test]
fn round_trip_u8() {
    for v in [0u8, 1, 0x7f, 0xff] {
        let bytes = v.encode();
        let mut reader = SerializationReader::new(&bytes);
        assert_eq!(reader.read::<u8>(), Some(v));
    }
}

#[test]
fn round_trip_u16() {
    for v in [0u16, 1, 0xabcd, u16::MAX] {
        let bytes = v.encode();
        let mut reader = SerializationReader::new(&bytes);
        assert_eq!(reader.read::<u16>(), Some(v));
    }
}

#[test]
fn round_trip_u32() {
    for v in [0u32, 1, 0xdeadbeef, u32::MAX] {
        let bytes = v.encode();
        let mut reader = SerializationReader::new(&bytes);
        assert_eq!(reader.read::<u32>(), Some(v));
    }
}

#[test]
fn round_trip_u64() {
    for v in [0u64, 1, 0x0123456789abcdef, u64::MAX] {
        let bytes = v.encode();
        let mut reader = SerializationReader::new(&bytes);
        assert_eq!(reader.read::<u64>(), Some(v));
    }
}

#[test]
fn round_trip_i32() {
    for v in [0i32, 1, -1, i32::MIN, i32::MAX, -123456789] {
        let bytes = v.encode();
        let mut reader = SerializationReader::new(&bytes);
        assert_eq!(reader.read::<i32>(), Some(v));
    }
}

#[test]
fn round_trip_i64() {
    for v in [0i64, 1, -1, i64::MIN, i64::MAX, -1234567890123456789] {
        let bytes = v.encode();
        let mut reader = SerializationReader::new(&bytes);
        assert_eq!(reader.read::<i64>(), Some(v));
    }
}

#[test]
fn negative_values_encode_as_twos_complement() {
    assert_eq!((-1i32).encode(), vec![0xff, 0xff, 0xff, 0xff]);
    assert_eq!((-2i64).encode(), vec![0xfe, 0xff, 0xff, 0xff, 0xff, 0xff, 0xff, 0xff]);
}

#[test]
fn values_decode_at_unaligned_offsets() {
    let mut bytes = vec![0x99u8];
    bytes.extend_from_slice(&0x1234abcdu32.encode());
    let mut reader = SerializationReader::new(&bytes);
    assert_eq!(reader.read::<u8>(), Some(0x99));
    assert_eq!(reader.read::<u32>(), Some(0x1234abcd));
}

#[test]
fn empty_buffer_reads_nothing() {
    let data: [u8; 0] = [];
    let mut reader = SerializationReader::new(&data);
    assert_eq!(reader.index, 0);
    assert_eq!(reader.read::<u8>(), None);
    assert_eq!(reader.index, 0);
}

#[test]
fn encode_uses_fixed_sizes() {
    assert_eq!(7u8.encode().len(), 1);
    assert_eq!(u8::size(), 1);
    assert_eq!(u16::size(), 2);
    assert_eq!(u32::size(), 4);
    assert_eq!(u64::size(), 8);
    assert_eq!(0x1122u16.encode(), vec![0x22, 0x11]);
}
