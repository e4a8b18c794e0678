//! Tests for the full machine's memory: byte access and little-endian
//! word access with wraparound at the 16-bit boundary.

use cpu6502::mos6502::memory::{Memory, MemoryAccess};

#[test]
fn memory_test_read_returns_correct_value() {
    let memory = Memory::new_with_bytes(vec![(0x100, 0xAA)]);

    let byte_read = memory.read(0x100);

    assert_eq!(0xAA, byte_read);
}

#[test]
fn memory_test_write_sets_correct_value() {
    let mut memory = Memory::default();
    memory.write(0xFF0F, 0xAA);
    assert_eq!(0xAA, memory.read(0xFF0F));
}

#[test]
fn test_read_u16_returns_correct_value() {
    let memory = Memory::new_with_bytes(vec![(0x50, 0xAA), (0x51, 0xBB)]);

    let u16_read = memory.read_u16(0x50);
    assert_eq!(0xBBAA, u16_read);
}

#[test]
fn test_write_u16_set_correct_value() {
    let mut memory = Memory::default();
    memory.write_u16(0x8000, 0xAABB);

    assert_eq!(0xBB, memory.read(0x8000));
    assert_eq!(0xAA, memory.read(0x8001));
}

#[test]
fn write_u16_then_read_u16_round_trips() {
    // For 16-bit values and addresses, writing a word and reading it back
    // at the same address returns the word.
    let mut memory = Memory::default();

    let cases: Vec<(u16, u16)> = vec![
        (0x0000, 0x0000),
        (0x0013, 0xBEEF),
        (0x8000, 0xAABB),
        (0xFFFE, 0x1234),
        (0xFFFF, 0xC0DE),
    ];

    for (address, value) in cases {
        memory.write_u16(address, value);
        assert_eq!(value, memory.read_u16(address));
    }
}

#[test]
fn read_u16_wraps_at_address_space_top() {
    // The high byte of the word at 0xFFFF is read at 0x0000.
    let mut memory = Memory::default();
    memory.write(0xFFFF, 0x10);
    memory.write(0x0000, 0x20);

    assert_eq!(0x2010, memory.read_u16(0xFFFF));
}

#[test]
fn new_with_bytes_leaves_other_addresses_zero() {
    let memory = Memory::new_with_bytes(vec![(0x20, 0xAA), (0xAA, 0x08)]);

    assert_eq!(0xAA, memory.read(0x20));
    assert_eq!(0x08, memory.read(0xAA));
    assert_eq!(0x00, memory.read(0x21));
    assert_eq!(0x00, memory.read(0xFFFF));
}
