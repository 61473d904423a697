use staking_jobs::bytes::{append_bytes, u32_be_bytes, u64_be_bytes};

#[test]
fn sixty_four_bits_are_spelled_most_significant_byte_first() {
    assert_eq!(u64_be_bytes(0), [0u8; 8]);
    assert_eq!(u64_be_bytes(1), [0, 0, 0, 0, 0, 0, 0, 1]);
    assert_eq!(u64_be_bytes(0x0102_0304_0506_0708), [1, 2, 3, 4, 5, 6, 7, 8]);
    assert_eq!(u64_be_bytes(u64::MAX), [0xff; 8]);
    assert_eq!(u64_be_bytes(256), 256u64.to_be_bytes());
    assert_eq!(u64_be_bytes(0xdead_beef_0000_00ff), 0xdead_beef_0000_00ffu64.to_be_bytes());
}

#[test]
fn thirty_two_bits_are_spelled_most_significant_byte_first() {
    assert_eq!(u32_be_bytes(0), [0u8; 4]);
    assert_eq!(u32_be_bytes(0x0102_0304), [1, 2, 3, 4]);
    assert_eq!(u32_be_bytes(u32::MAX), [0xff; 4]);
    assert_eq!(u32_be_bytes(0x1c7a_48ba), [0x1c, 0x7a, 0x48, 0xba]);
}

#[test]
fn appending_keeps_what_was_there_and_adds_the_tail() {
    let mut buffer = vec![1u8, 2];
    append_bytes(&mut buffer, &[3, 4, 5]);
    assert_eq!(buffer, vec![1, 2, 3, 4, 5]);
    append_bytes(&mut buffer, &[]);
    assert_eq!(buffer, vec![1, 2, 3, 4, 5]);
    let mut empty: Vec<u8> = Vec::new();
    append_bytes(&mut empty, &[9]);
    assert_eq!(empty, vec![9]);
}
