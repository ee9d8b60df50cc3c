use lzma_container::{
    read_props, u32_from_le, u32_to_le, u64_from_le, u64_to_le, write_props, CodecParameters,
    HEADER_LEN, LENGTH_LEN, PROPS_LEN,
};

fn params(lc: u32, lp: u32, pb: u32, dict_size: u32) -> CodecParameters {
    CodecParameters { lc, lp, pb, dict_size }
}

#[test]
fn default_parameters_pack_to_5d() {
    let props = write_props(&params(3, 0, 2, 1 << 23));
    assert_eq!(props, [0x5d, 0x00, 0x00, 0x80, 0x00]);
}

#[test]
fn packed_byte_follows_the_formula() {
    // (pb * 5 + lp) * 9 + lc
    assert_eq!(write_props(&params(0, 0, 0, 0))[0], 0);
    assert_eq!(write_props(&params(8, 0, 0, 0))[0], 8);
    assert_eq!(write_props(&params(0, 1, 0, 0))[0], 9);
    assert_eq!(write_props(&params(0, 0, 1, 0))[0], 45);
    assert_eq!(write_props(&params(1, 2, 3, 0))[0], (3 * 5 + 2) * 9 + 1);
    assert_eq!(write_props(&params(8, 4, 4, 0))[0], 224);
}

#[test]
fn dictionary_size_is_little_endian() {
    let props = write_props(&params(0, 0, 0, 0x1234_5678));
    assert_eq!(&props[1..], &[0x78, 0x56, 0x34, 0x12]);
    let back = read_props(&[0, 0x78, 0x56, 0x34, 0x12]);
    assert_eq!(back.dict_size, 0x1234_5678);
    assert_eq!(read_props(&[0, 0xff, 0xff, 0xff, 0xff]).dict_size, u32::MAX);
}

#[test]
fn packed_byte_is_divided_by_nine_first() {
    // 1 + 9 * (2 + 5 * 3) = 154; dividing by 5 first would give lc = 4.
    let back = read_props(&[154, 0, 0, 0, 0]);
    assert_eq!((back.lc, back.lp, back.pb), (1, 2, 3));
    let back = read_props(&[0x5d, 0, 0, 0x80, 0]);
    assert_eq!(back, params(3, 0, 2, 1 << 23));
}

#[test]
fn every_parameter_set_in_range_survives_the_record() {
    for lc in 0..9 {
        for lp in 0..5 {
            for pb in 0..5 {
                for dict_size in [0, 1, 4096, 1 << 23, 0xdead_beef, u32::MAX] {
                    let before = params(lc, lp, pb, dict_size);
                    assert!(before.is_encodable());
                    assert_eq!(read_props(&write_props(&before)), before);
                }
            }
        }
    }
}

#[test]
fn every_record_survives_its_parameters() {
    for packed in 0..=255u8 {
        let record = [packed, 0x10, 0x20, 0x30, 0x40];
        let read = read_props(&record);
        assert!(read.lc < 9 && read.lp < 5 && read.pb <= 5);
        assert!(read.is_encodable());
        assert_eq!(write_props(&read), record);
    }
}

#[test]
fn malformed_record_is_read_without_complaint() {
    let read = read_props(&[0xff, 0xff, 0xff, 0xff, 0xff]);
    assert_eq!(read, params(3, 3, 5, u32::MAX));
    let read = read_props(&[225, 0, 0, 0, 0]);
    assert_eq!((read.lc, read.lp, read.pb), (0, 0, 5));
}

#[test]
fn parameters_that_overflow_the_byte_are_told_apart() {
    assert!(params(8, 4, 4, 0).is_encodable());
    assert!(params(3, 3, 5, 0).is_encodable());
    assert!(params(0, 0, 5, 0).is_encodable());
    assert!(!params(4, 3, 5, 0).is_encodable());
    assert!(!params(0, 0, 6, 0).is_encodable());
    assert!(!params(256, 0, 0, 0).is_encodable());
    assert!(!params(0, 29, 0, 0).is_encodable());
    assert!(!params(u32::MAX, u32::MAX, u32::MAX, 0).is_encodable());
    assert!(!params(0, 0, u32::MAX, 0).is_encodable());
}

#[test]
fn lengths_are_little_endian() {
    assert_eq!(u64_to_le(0), [0; 8]);
    assert_eq!(u64_to_le(1), [1, 0, 0, 0, 0, 0, 0, 0]);
    assert_eq!(u64_to_le(100_000), [0xa0, 0x86, 0x01, 0, 0, 0, 0, 0]);
    assert_eq!(
        u64_to_le(0x0102_0304_0506_0708),
        [0x08, 0x07, 0x06, 0x05, 0x04, 0x03, 0x02, 0x01]
    );
    assert_eq!(u64_to_le(u64::MAX), [0xff; 8]);
    assert_eq!(u64_from_le(&[0xa0, 0x86, 0x01, 0, 0, 0, 0, 0]), 100_000);
    assert_eq!(u64_from_le(&[0xff; 8]), u64::MAX);
    assert_eq!(u64_from_le(&[0, 0, 0, 0, 0, 0, 0, 0x80]), 1 << 63);
    assert_eq!(u32_to_le(0x8000_0001), [0x01, 0, 0, 0x80]);
    assert_eq!(u32_from_le(&[0x01, 0, 0, 0x80]), 0x8000_0001);
}

#[test]
fn little_endian_agrees_with_std() {
    let mut x: u64 = 0x9e37_79b9_7f4a_7c15;
    for _ in 0..1000 {
        x ^= x << 13;
        x ^= x >> 7;
        x ^= x << 17;
        assert_eq!(u64_to_le(x), x.to_le_bytes());
        assert_eq!(u64_from_le(&x.to_le_bytes()), x);
        let y = x as u32;
        assert_eq!(u32_to_le(y), y.to_le_bytes());
        assert_eq!(u32_from_le(&y.to_le_bytes()), y);
    }
}

#[test]
fn header_is_twenty_one_bytes() {
    assert_eq!(PROPS_LEN, 5);
    assert_eq!(LENGTH_LEN, 8);
    assert_eq!(HEADER_LEN, PROPS_LEN + 2 * LENGTH_LEN);
}
