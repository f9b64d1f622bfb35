use gbcore::memory::{AddressOutOfRange, Memory, MemoryBank, BANK_SIZE, HEADER_SIZE, NINTENDO_LOGO_MEMORY};

#[test]
fn new_memory_is_zero_with_bank1_active() {
    let memory = Memory::new();
    let view = memory.get_active_memory_bank();
    assert_eq!(view.len(), BANK_SIZE);
    assert!(view.iter().all(|b| *b == 0));
    assert_eq!(memory.read8(0), Ok(0));
}

#[test]
fn bank_views_are_independent() {
    let mut memory = Memory::new();
    memory.set_active_memory_bank(MemoryBank::Bank1);
    memory.write_active(100, 0xAB).unwrap();
    memory.set_active_memory_bank(MemoryBank::Bank2);
    assert_eq!(memory.get_active_memory_bank()[100], 0);
    Memory::set_memory_bank(&mut memory, MemoryBank::Bank3);
    assert_eq!(memory.get_active_memory_bank()[100], 0);
    memory.set_active_memory_bank(MemoryBank::Bank1);
    assert_eq!(memory.get_active_memory_bank()[100], 0xAB);
    assert_eq!(memory.read_active(100), Ok(0xAB));
}

#[test]
fn active_bank_bounds() {
    let mut memory = Memory::new();
    assert_eq!(memory.write_active(BANK_SIZE - 1, 7), Ok(()));
    assert_eq!(memory.read_active(BANK_SIZE - 1), Ok(7));
    assert_eq!(memory.write_active(BANK_SIZE, 7), Err(AddressOutOfRange));
    assert_eq!(memory.read_active(BANK_SIZE), Err(AddressOutOfRange));
}

#[test]
fn bus_maps_header_then_active_bank() {
    let mut memory = Memory::new();
    assert_eq!(memory.write8(3, 0x11), Ok(()));
    assert_eq!(memory.read8(3), Ok(0x11));
    assert_eq!(memory.read_active(3), Ok(0));
    assert_eq!(memory.write8(HEADER_SIZE as u16, 0x22), Ok(()));
    assert_eq!(memory.read_active(0), Ok(0x22));
    memory.set_active_memory_bank(MemoryBank::Bank2);
    assert_eq!(memory.read8(HEADER_SIZE as u16), Ok(0));
    assert_eq!(memory.read8(3), Ok(0x11));
    let last = (HEADER_SIZE + BANK_SIZE - 1) as u16;
    assert_eq!(memory.write8(last, 0x33), Ok(()));
    assert_eq!(memory.read_active(BANK_SIZE - 1), Ok(0x33));
    assert_eq!(memory.read8(last + 1), Err(AddressOutOfRange));
    assert_eq!(memory.write8(last + 1, 1), Err(AddressOutOfRange));
    assert_eq!(memory.read8(0xFFFF), Err(AddressOutOfRange));
}

#[test]
fn logo_table_is_48_bytes() {
    assert_eq!(NINTENDO_LOGO_MEMORY.len(), 48);
    assert_eq!(NINTENDO_LOGO_MEMORY[0], 0xCE);
    assert_eq!(NINTENDO_LOGO_MEMORY[47], 0x3E);
}
