use x86_vlapic::fls32;
use x86_vlapic::utils::{extract_index_and_bitpos_u32, extract_index_u32, prio};

const INVALID_BIT_INDEX: u16 = 0xFFFF;

#[test]
fn test_fls32() {
    // Input is 0, no bits set
    assert_eq!(fls32(0x0), INVALID_BIT_INDEX);

    // Input is 1 (0b00000001), bit 0 is set
    assert_eq!(fls32(0x01), 0);

    // Input is 128 (0b10000000), bit 7 is set
    assert_eq!(fls32(0x80), 7);

    // Input is 0x80000001, bit 31 is the most significant bit set
    assert_eq!(fls32(0x80000001), 31);

    // Input is 0xFFFFFFFF, bit 31 is the most significant bit set
    assert_eq!(fls32(0xFFFFFFFF), 31);

    // Input is 0x7FFFFFFF, bit 30 is the most significant bit set
    assert_eq!(fls32(0x7FFFFFFF), 30);
}

#[test]
fn test_fls32_edge_cases() {
    // Input is 0x00000010, bit 4 is set
    assert_eq!(fls32(0x10), 4);

    // Input is 0x00001000, bit 12 is set
    assert_eq!(fls32(0x1000), 12);

    // Input is the maximum value (0xFFFFFFFF), bit 31 is set
    assert_eq!(fls32(u32::MAX), 31);

    // Input is 0x8000_0000 (highest bit set), bit 31 is set
    assert_eq!(fls32(0x8000_0000), 31);
}

#[test]
fn bank_index_and_bit_position() {
    assert_eq!(extract_index_u32(0), 0);
    assert_eq!(extract_index_u32(31), 0);
    assert_eq!(extract_index_u32(32), 1);
    assert_eq!(extract_index_u32(255), 7);
    assert_eq!(extract_index_and_bitpos_u32(40), (1, 8));
    assert_eq!(extract_index_and_bitpos_u32(5), (0, 5));
    assert_eq!(extract_index_and_bitpos_u32(0xFF), (7, 31));
}

#[test]
fn priority_class() {
    assert_eq!(prio(0x00), 0);
    assert_eq!(prio(0x2F), 2);
    assert_eq!(prio(0xF0), 15);
    assert_eq!(prio(0x1234_5678), 7);
}
