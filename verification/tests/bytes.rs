use escrow::bytes::{read_key, read_u64_le, same_key, u64_le_bytes, write_bytes};

#[test]
fn numbers_are_laid_out_least_significant_byte_first() {
    assert_eq!(u64_le_bytes(0), [0u8; 8]);
    assert_eq!(u64_le_bytes(10), [10, 0, 0, 0, 0, 0, 0, 0]);
    assert_eq!(u64_le_bytes(256), [0, 1, 0, 0, 0, 0, 0, 0]);
    assert_eq!(u64_le_bytes(0x0102_0304_0506_0708), [8, 7, 6, 5, 4, 3, 2, 1]);
    assert_eq!(u64_le_bytes(u64::MAX), [255u8; 8]);
    for value in [1u64, 255, 65_536, 1 << 63, 0xdead_beef_0bad_f00d] {
        assert_eq!(u64_le_bytes(value), value.to_le_bytes());
    }
}

#[test]
fn numbers_are_read_where_they_stand() {
    let src = [9u8, 9, 8, 7, 6, 5, 4, 3, 2, 1, 9];
    assert_eq!(read_u64_le(&src, 2), 0x0102_0304_0506_0708);
    assert_eq!(read_u64_le(&src, 0), u64::from_le_bytes([9, 9, 8, 7, 6, 5, 4, 3]));
    assert_eq!(read_u64_le(&src, 3), u64::from_le_bytes([7, 6, 5, 4, 3, 2, 1, 9]));
    assert_eq!(read_u64_le(&[255u8; 8], 0), u64::MAX);
    for value in [0u64, 1, 1 << 40, u64::MAX - 7] {
        assert_eq!(read_u64_le(&u64_le_bytes(value), 0), value);
    }
}

#[test]
fn keys_are_compared_byte_for_byte() {
    let key = [7u8; 32];
    assert!(same_key(&key, &[7u8; 32]));
    for at in 0..32 {
        let mut other = key;
        other[at] = 8;
        assert!(!same_key(&key, &other), "a difference at byte {}", at);
        assert!(!same_key(&other, &key));
    }
}

#[test]
fn keys_are_read_where_they_stand() {
    let src: Vec<u8> = (0u8..100).collect();
    let key = read_key(&src, 0);
    assert_eq!(&key[..], &src[..32]);
    let key = read_key(&src, 33);
    assert_eq!(&key[..], &src[33..65]);
    let key = read_key(&src, 68);
    assert_eq!(&key[..], &src[68..]);
}

#[test]
fn bytes_are_written_over_their_place_only() {
    let mut dst = vec![1u8; 10];
    write_bytes(&mut dst, 3, &[7, 8, 9]);
    assert_eq!(dst, vec![1, 1, 1, 7, 8, 9, 1, 1, 1, 1]);
    write_bytes(&mut dst, 0, &[5]);
    assert_eq!(dst, vec![5, 1, 1, 7, 8, 9, 1, 1, 1, 1]);
    write_bytes(&mut dst, 8, &[2, 3]);
    assert_eq!(dst, vec![5, 1, 1, 7, 8, 9, 1, 1, 2, 3]);
    write_bytes(&mut dst, 10, &[]);
    assert_eq!(dst, vec![5, 1, 1, 7, 8, 9, 1, 1, 2, 3]);
}
