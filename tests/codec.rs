use libddcutil2::{
    decode_non_table, encode_non_table, encode_table, readable_len, NonTableValue, RawTable,
    TableValue,
};

#[test]
fn non_table_decode_is_big_endian() {
    let v = NonTableValue { mh: 0x12, ml: 0x34, sh: 0x00, sl: 0x64 };
    assert_eq!(decode_non_table(v), (0x1234, 100));
    let v = NonTableValue { mh: 0xff, ml: 0xff, sh: 0x01, sl: 0x00 };
    assert_eq!(decode_non_table(v), (0xffff, 256));
}

#[test]
fn non_table_encode_splits_high_first() {
    assert_eq!(encode_non_table(0x1234), (0x12, 0x34));
    assert_eq!(encode_non_table(0), (0, 0));
    assert_eq!(encode_non_table(0xffff), (0xff, 0xff));
}

#[test]
fn non_table_round_trip_all_values() {
    for value in 0..=u16::MAX {
        let (hi, lo) = encode_non_table(value);
        let (_, cur) = decode_non_table(NonTableValue { mh: 0, ml: 0, sh: hi, sl: lo });
        assert_eq!(cur, value);
    }
}

fn round_trip(bytes: &[u8]) -> Vec<u8> {
    let raw = encode_table(bytes).unwrap();
    assert_eq!(raw.bytect as usize, bytes.len());
    TableValue::decode(raw).as_slice().to_vec()
}

#[test]
fn table_round_trip_lengths() {
    assert_eq!(round_trip(&[]), Vec::<u8>::new());
    assert_eq!(round_trip(&[0x42]), vec![0x42]);
    assert_eq!(round_trip(&[1, 2, 3, 4, 5]), vec![1, 2, 3, 4, 5]);
    let long: Vec<u8> = (0..65535u32).map(|i| (i % 251) as u8).collect();
    assert_eq!(round_trip(&long), long);
}

#[test]
fn table_too_long_is_refused() {
    let long = vec![0u8; 65536];
    assert!(encode_table(&long).is_none());
}

#[test]
fn table_decode_zero_count_or_null_is_empty() {
    let v = TableValue::decode(RawTable { bytect: 0, bytes: Some(vec![9, 9]) });
    assert!(v.as_slice().is_empty());
    let v = TableValue::decode(RawTable { bytect: 4, bytes: None });
    assert!(v.as_slice().is_empty());
}

#[test]
fn table_decode_bounded_by_count() {
    let v = TableValue::decode(RawTable { bytect: 2, bytes: Some(vec![7, 8, 9]) });
    assert_eq!(v.as_slice(), &[7, 8]);
    let v = TableValue::from_bytes(vec![3, 4]);
    assert_eq!(v.as_slice(), &[3, 4]);
}

#[test]
fn readable_len_cases() {
    assert_eq!(readable_len(5, true), 5);
    assert_eq!(readable_len(5, false), 0);
    assert_eq!(readable_len(0, true), 0);
    assert_eq!(readable_len(-2, true), 0);
}
