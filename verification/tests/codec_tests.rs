use coinflip::codec::{
    i64_from_bits, i64_to_bits, push_bool, push_bytes32, push_i64, push_u64, read_bool,
    read_bytes32, read_i64, read_u64, write_prefix,
};

#[test]
fn u64_is_written_least_significant_byte_first() {
    let mut out = Vec::new();
    push_u64(&mut out, 1000);
    assert_eq!(out, vec![0xe8, 0x03, 0, 0, 0, 0, 0, 0]);
}

#[test]
fn u64_extremes_round_trip() {
    for value in [0u64, 1, 255, 256, 0x0102_0304_0506_0708, u64::MAX] {
        let mut out = vec![9u8];
        push_u64(&mut out, value);
        assert_eq!(out.len(), 9);
        assert_eq!(out[0], 9);
        assert_eq!(&out[1..], &value.to_le_bytes()[..]);
        assert_eq!(read_u64(&out, 1), value);
    }
}

#[test]
fn u64_is_read_at_an_offset() {
    let src = [7u8, 0x08, 0x07, 0x06, 0x05, 0x04, 0x03, 0x02, 0x01, 7];
    assert_eq!(read_u64(&src, 1), 0x0102_0304_0506_0708);
}

#[test]
fn i64_is_written_in_twos_complement() {
    let mut out = Vec::new();
    push_i64(&mut out, -1);
    assert_eq!(out, vec![0xff; 8]);
    let mut out = Vec::new();
    push_i64(&mut out, -2);
    assert_eq!(out, vec![0xfe, 0xff, 0xff, 0xff, 0xff, 0xff, 0xff, 0xff]);
    let mut out = Vec::new();
    push_i64(&mut out, 1_700_000_000);
    assert_eq!(out, 1_700_000_000i64.to_le_bytes().to_vec());
}

#[test]
fn i64_extremes_round_trip() {
    for value in [0i64, 1, -1, 3600, -3600, i64::MAX, i64::MIN] {
        assert_eq!(i64_to_bits(value), value as u64);
        assert_eq!(i64_from_bits(value as u64), value);
        let mut out = Vec::new();
        push_i64(&mut out, value);
        assert_eq!(out, value.to_le_bytes().to_vec());
        assert_eq!(read_i64(&out, 0), value);
    }
}

#[test]
fn bool_is_one_byte() {
    let mut out = Vec::new();
    push_bool(&mut out, false);
    push_bool(&mut out, true);
    assert_eq!(out, vec![0, 1]);
    assert_eq!(read_bool(&out, 0), Some(false));
    assert_eq!(read_bool(&out, 1), Some(true));
}

#[test]
fn bool_rejects_other_bytes() {
    assert_eq!(read_bool(&[2], 0), None);
    assert_eq!(read_bool(&[0, 255], 1), None);
}

#[test]
fn bytes32_round_trip() {
    let mut key = [0u8; 32];
    for (i, b) in key.iter_mut().enumerate() {
        *b = i as u8 + 1;
    }
    let mut out = vec![0xaa];
    push_bytes32(&mut out, &key);
    assert_eq!(out.len(), 33);
    assert_eq!(&out[1..], &key[..]);
    assert_eq!(read_bytes32(&out, 1), key);
}

#[test]
fn write_prefix_leaves_the_rest() {
    let mut dst = [9u8; 6];
    write_prefix(&mut dst, &vec![1, 2, 3]);
    assert_eq!(dst, [1, 2, 3, 9, 9, 9]);
    write_prefix(&mut dst, &vec![]);
    assert_eq!(dst, [1, 2, 3, 9, 9, 9]);
    write_prefix(&mut dst, &vec![4, 5, 6, 7, 8, 0]);
    assert_eq!(dst, [4, 5, 6, 7, 8, 0]);
}

#[test]
fn primitives_agree_with_borsh() {
    let mut out = Vec::new();
    push_u64(&mut out, 0xdead_beef_0012_3456);
    assert_eq!(out, borsh::to_vec(&0xdead_beef_0012_3456u64).unwrap());
    let mut out = Vec::new();
    push_i64(&mut out, -1_234_567_890_123);
    assert_eq!(out, borsh::to_vec(&-1_234_567_890_123i64).unwrap());
    let mut out = Vec::new();
    push_bool(&mut out, true);
    assert_eq!(out, borsh::to_vec(&true).unwrap());
    let mut out = Vec::new();
    push_bytes32(&mut out, &[5u8; 32]);
    assert_eq!(out, borsh::to_vec(&[5u8; 32]).unwrap());
}
