use canister_utils::endian::{u64_from_le_bytes, u64_to_le_bytes};

#[test]
fn encodes_each_byte_at_its_place() {
    for place in 0..8u32 {
        let mut expected = [0u8; 8];
        expected[place as usize] = 0xab;
        assert_eq!(u64_to_le_bytes(0xabu64 << (8 * place)), expected);
        assert_eq!(u64_from_le_bytes(expected), 0xabu64 << (8 * place));
    }
}

#[test]
fn encoding_agrees_with_std() {
    let mut value: u64 = 0x9e37_79b9_7f4a_7c15;
    for _ in 0..200 {
        value = value.wrapping_mul(6364136223846793005).wrapping_add(1442695040888963407);
        assert_eq!(u64_to_le_bytes(value), value.to_le_bytes());
        assert_eq!(u64_from_le_bytes(value.to_le_bytes()), value);
    }
}
