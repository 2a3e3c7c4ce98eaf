use tracing_etw::bytes::{u128_le_bytes, u64_le_bytes};

#[test]
fn u64_bytes_are_little_endian() {
    for x in [0u64, 1, 255, 256, 0x0102_0304_0506_0708, u64::MAX] {
        assert_eq!(u64_le_bytes(x), x.to_le_bytes());
    }
    assert_eq!(u64_le_bytes(0x0102_0304_0506_0708), [8, 7, 6, 5, 4, 3, 2, 1]);
}

#[test]
fn u128_bytes_are_little_endian() {
    for x in [0u128, 1, u64::MAX as u128 + 1, 0x0102_0304_0506_0708_090a_0b0c_0d0e_0f10, u128::MAX] {
        assert_eq!(u128_le_bytes(x), x.to_le_bytes());
    }
}
