use gbcore::cpu::{Register, CPU};
use gbcore::decoder::{extract_opcode_from_byte, try_extract_opcode_from_byte, Opcode};
use gbcore::memory::AddressOutOfRange;

#[test]
fn decode_jump_and_unmapped_byte() {
    assert_eq!(extract_opcode_from_byte(0xC3), Opcode::JumpToImmediateAddress);
    assert_eq!(extract_opcode_from_byte(0xFF), Opcode::NOP);
    assert_eq!(try_extract_opcode_from_byte(0xFF), None);
    assert_eq!(try_extract_opcode_from_byte(0x00), Some(Opcode::NOP));
}

#[test]
fn decode_supported_subset() {
    let table = [
        (0x00u8, Opcode::NOP),
        (0x01, Opcode::LD_BC_d16),
        (0x02, Opcode::LD_AddressBC_A),
        (0x03, Opcode::INC_BC),
        (0x04, Opcode::INC_B),
        (0x05, Opcode::DEC_B),
        (0x06, Opcode::LD_B_d8),
        (0x07, Opcode::RLCA),
        (0x08, Opcode::LD_Address_SP),
        (0x0E, Opcode::LD_C_d8),
        (0x16, Opcode::LD_D_d8),
        (0x26, Opcode::LD_H_d8),
        (0x2E, Opcode::LD_L_d8),
        (0x36, Opcode::LD_HL_d8),
        (0x3E, Opcode::LD_A_d8),
        (0xC3, Opcode::JumpToImmediateAddress),
    ];
    for (byte, op) in table {
        assert_eq!(extract_opcode_from_byte(byte), op);
    }
    let mapped = (0u16..=255).filter(|b| try_extract_opcode_from_byte(*b as u8).is_some()).count();
    assert_eq!(mapped, table.len());
}

#[test]
fn fetch_word_is_little_endian() {
    let mut cpu = CPU::create();
    let memory = [0x34u8, 0x12];
    assert_eq!(cpu.fetch_word(&memory), Ok(0x1234));
    assert_eq!(cpu.get_PC(), 2);
}

#[test]
fn fetch_two_bytes_and_convert() {
    let mut cpu = CPU::create();
    cpu.set_16_bit_register(Register::PC, 1).unwrap();
    let memory = [0xAAu8, 0x34, 0x12];
    let bytes = cpu.fetch_two_bytes(&memory).unwrap();
    assert_eq!(bytes, [0x34, 0x12]);
    assert_eq!(cpu.get_PC(), 3);
    assert_eq!(cpu.convert_two_u8_to_one_u16(&bytes), 0x1234);
    assert_eq!(cpu.fetch_two_bytes(&memory), Err(AddressOutOfRange));
    assert_eq!(cpu.get_PC(), 3);
}

#[test]
fn fetch_advances_by_one() {
    let mut cpu = CPU::create();
    let memory = [0x42u8];
    assert_eq!(cpu.fetch(&memory), Ok(0x42));
    assert_eq!(cpu.get_PC(), 1);
    assert_eq!(cpu.fetch(&memory), Err(AddressOutOfRange));
    assert_eq!(cpu.get_PC(), 1);
}

#[test]
fn jump_sets_pc_regardless_of_prior_pc() {
    for start in [0u16, 1, 7] {
        let mut memory = vec![0u8; 10];
        memory[start as usize] = 0x00;
        memory[start as usize + 1] = 0x80;
        let mut cpu = CPU::create();
        cpu.set_16_bit_register(Register::PC, start).unwrap();
        assert_eq!(cpu.execute_instruction(&mut memory, Opcode::JumpToImmediateAddress), Ok(()));
        assert_eq!(cpu.get_PC(), 0x8000);
    }
}

#[test]
fn load_bc_immediate_advances_pc_by_two() {
    let mut memory = [0x01u8, 0x34, 0x12, 0x00];
    let mut cpu = CPU::create();
    cpu.set_16_bit_register(Register::PC, 1).unwrap();
    assert_eq!(cpu.execute_instruction(&mut memory, Opcode::LD_BC_d16), Ok(()));
    assert_eq!(cpu.get_BC(), 0x1234);
    assert_eq!(cpu.get_PC(), 3);
}

#[test]
fn store_a_at_address_in_bc() {
    let mut memory = [0u8; 8];
    let mut cpu = CPU::create();
    cpu.set_8_bit_register(Register::A, 0x99).unwrap();
    cpu.set_16_bit_register(Register::BC, 5).unwrap();
    assert_eq!(cpu.execute_instruction(&mut memory, Opcode::LD_AddressBC_A), Ok(()));
    assert_eq!(memory, [0, 0, 0, 0, 0, 0x99, 0, 0]);
    assert_eq!(cpu.get_PC(), 0);
    cpu.set_16_bit_register(Register::BC, 8).unwrap();
    assert_eq!(cpu.execute_instruction(&mut memory, Opcode::LD_AddressBC_A), Err(AddressOutOfRange));
    assert_eq!(memory, [0, 0, 0, 0, 0, 0x99, 0, 0]);
}

#[test]
fn increments_and_decrement_opcodes() {
    let mut memory = [0u8; 2];
    let mut cpu = CPU::create();
    cpu.set_16_bit_register(Register::BC, 0x00FF).unwrap();
    cpu.execute_instruction(&mut memory, Opcode::INC_BC).unwrap();
    assert_eq!(cpu.get_BC(), 0x0100);
    cpu.execute_instruction(&mut memory, Opcode::INC_B).unwrap();
    assert_eq!(cpu.get_B(), 0x02);
    cpu.execute_instruction(&mut memory, Opcode::DEC_B).unwrap();
    cpu.execute_instruction(&mut memory, Opcode::DEC_B).unwrap();
    cpu.execute_instruction(&mut memory, Opcode::DEC_B).unwrap();
    assert_eq!(cpu.get_B(), 0xFF);
    assert_eq!(cpu.get_PC(), 0);
    assert_eq!(cpu.get_FLAGS(), 0);
}

#[test]
fn load_immediate_8_bit_opcodes_consume_operand() {
    let cases = [
        (Opcode::LD_A_d8, Register::A),
        (Opcode::LD_B_d8, Register::B),
        (Opcode::LD_C_d8, Register::C),
        (Opcode::LD_D_d8, Register::D),
        (Opcode::LD_H_d8, Register::H),
        (Opcode::LD_L_d8, Register::L),
    ];
    for (op, reg) in cases {
        let mut memory = [0x00u8, 0x5A];
        let mut cpu = CPU::create();
        cpu.set_16_bit_register(Register::PC, 1).unwrap();
        assert_eq!(cpu.execute_instruction(&mut memory, op), Ok(()));
        assert_eq!(cpu.get_8_bit_register(reg), Ok(0x5A));
        assert_eq!(cpu.get_PC(), 2);
        assert_eq!(cpu.execute_instruction(&mut memory, op), Err(AddressOutOfRange));
        assert_eq!(cpu.get_PC(), 2);
    }
}

#[test]
fn load_hl_immediate_overwrites_pair() {
    let mut memory = [0x36u8, 0x7B];
    let mut cpu = CPU::create();
    cpu.set_16_bit_register(Register::HL, 0xFFFF).unwrap();
    cpu.set_16_bit_register(Register::PC, 1).unwrap();
    assert_eq!(cpu.execute_instruction(&mut memory, Opcode::LD_HL_d8), Ok(()));
    assert_eq!(cpu.get_HL(), 0x007B);
    assert_eq!(cpu.get_PC(), 2);
    assert_eq!(memory, [0x36, 0x7B]);
}

#[test]
fn no_effect_opcodes() {
    let mut memory = [0x11u8, 0x22];
    let mut cpu = CPU::create();
    for op in [Opcode::NOP, Opcode::RLCA, Opcode::LD_Address_SP] {
        assert_eq!(cpu.execute_instruction(&mut memory, op), Ok(()));
        assert_eq!(cpu.get_PC(), 0);
    }
    assert_eq!(memory, [0x11, 0x22]);
}

#[test]
fn step_runs_a_small_program() {
    let mut memory = [0x01u8, 0x02, 0x01, 0x04, 0xFF, 0xC3, 0x00, 0x00];
    let mut cpu = CPU::create();
    assert_eq!(cpu.step(&mut memory), Ok(Opcode::LD_BC_d16));
    assert_eq!(cpu.get_BC(), 0x0102);
    assert_eq!(cpu.get_PC(), 3);
    assert_eq!(cpu.step(&mut memory), Ok(Opcode::INC_B));
    assert_eq!(cpu.get_B(), 0x02);
    assert_eq!(cpu.step(&mut memory), Ok(Opcode::NOP));
    assert_eq!(cpu.get_PC(), 5);
    assert_eq!(cpu.step(&mut memory), Ok(Opcode::JumpToImmediateAddress));
    assert_eq!(cpu.get_PC(), 0);
}

#[test]
fn step_failure_changes_nothing() {
    let mut memory = [0x00u8, 0xC3, 0x00];
    let mut cpu = CPU::create();
    cpu.set_16_bit_register(Register::PC, 1).unwrap();
    assert_eq!(cpu.step(&mut memory), Err(AddressOutOfRange));
    assert_eq!(cpu.get_PC(), 1);
    cpu.set_16_bit_register(Register::PC, 3).unwrap();
    assert_eq!(cpu.step(&mut memory), Err(AddressOutOfRange));
    assert_eq!(cpu.get_PC(), 3);
}
