use file_info::fees::{decode_fee, encode_download_fee, encode_fee};

#[test]
fn round_trip_zero() {
    let bytes = encode_fee(0);
    assert_eq!(bytes, vec![0u8; 16]);
    assert_eq!(decode_fee(&bytes), 0);
}

#[test]
fn round_trip_max() {
    let bytes = encode_fee(u128::MAX);
    assert_eq!(bytes, vec![0xffu8; 16]);
    assert_eq!(decode_fee(&bytes), u128::MAX);
}

#[test]
fn round_trip_one() {
    let bytes = encode_fee(1);
    let mut expected = vec![0u8; 16];
    expected[0] = 1;
    assert_eq!(bytes, expected);
    assert_eq!(decode_fee(&bytes), 1);
}

#[test]
fn encoding_is_little_endian() {
    let v = 0x0f0e0d0c_0b0a0908_07060504_03020100u128;
    let bytes = encode_fee(v);
    let expected: Vec<u8> = (0u8..16).collect();
    assert_eq!(bytes, expected);
    assert_eq!(decode_fee(&bytes), v);
}

#[test]
fn round_trip_arbitrary() {
    for v in [
        1u128,
        255,
        256,
        65_535,
        1_000_000_007,
        u128::from(u64::MAX),
        u128::from(u64::MAX) + 1,
        u128::MAX - 1,
    ] {
        assert_eq!(decode_fee(&encode_fee(v)), v);
    }
}

#[test]
fn absent_download_fee_is_sixteen_zero_bytes() {
    let bytes = encode_download_fee(None);
    assert_eq!(bytes.len(), 16);
    assert!(bytes.iter().all(|b| *b == 0));
}

#[test]
fn present_download_fee_is_exact_le_encoding() {
    let v = 0x0102030405060708_090a0b0c0d0e0f10u128;
    let bytes = encode_download_fee(Some(v));
    assert_eq!(bytes, encode_fee(v));
    assert_eq!(decode_fee(&bytes), v);
}
