use vstd::prelude::*;

verus! {

/// The supported instruction forms. A tag carries no operands: they are read
/// from the bus when the instruction executes.
#[allow(non_camel_case_types)]
#[derive(Clone, Copy, Debug, PartialEq, Eq, Structural)]
pub enum Opcode {
    NOP,
    LD_BC_d16,
    LD_AddressBC_A,
    INC_BC,
    INC_B,
    DEC_B,
    LD_B_d8,
    RLCA,
    LD_Address_SP,
    LD_A_d8,
    LD_C_d8,
    LD_D_d8,
    LD_H_d8,
    LD_L_d8,
    LD_HL_d8,
    JumpToImmediateAddress,
}

/// The tag of an opcode byte in the supported subset, or `None` for any other
/// byte.
pub open spec fn opcode_of(byte: u8) -> Option<Opcode> {
    if byte == 0x00 {
        Some(Opcode::NOP)
    } else if byte == 0x01 {
        Some(Opcode::LD_BC_d16)
    } else if byte == 0x02 {
        Some(Opcode::LD_AddressBC_A)
    } else if byte == 0x03 {
        Some(Opcode::INC_BC)
    } else if byte == 0x04 {
        Some(Opcode::INC_B)
    } else if byte == 0x05 {
        Some(Opcode::DEC_B)
    } else if byte == 0x06 {
        Some(Opcode::LD_B_d8)
    } else if byte == 0x07 {
        Some(Opcode::RLCA)
    } else if byte == 0x08 {
        Some(Opcode::LD_Address_SP)
    } else if byte == 0x0E {
        Some(Opcode::LD_C_d8)
    } else if byte == 0x16 {
        Some(Opcode::LD_D_d8)
    } else if byte == 0x26 {
        Some(Opcode::LD_H_d8)
    } else if byte == 0x2E {
        Some(Opcode::LD_L_d8)
    } else if byte == 0x36 {
        Some(Opcode::LD_HL_d8)
    } else if byte == 0x3E {
        Some(Opcode::LD_A_d8)
    } else if byte == 0xC3 {
        Some(Opcode::JumpToImmediateAddress)
    } else {
        None
    }
}

/// The tag that the decoder hands out for a byte: bytes outside the supported
/// subset decode as the no-operation tag.
pub open spec fn decoded(byte: u8) -> Opcode {
    match opcode_of(byte) {
        Some(op) => op,
        None => Opcode::NOP,
    }
}

/// Decodes a byte, telling apart bytes outside the supported subset
/// (`None`) from the genuine no-operation instruction.
pub fn try_extract_opcode_from_byte(byte: u8) -> (r: Option<Opcode>)
    ensures
        r == opcode_of(byte),
{
    match byte {
        0x00 => Some(Opcode::NOP),
        0x01 => Some(Opcode::LD_BC_d16),
        0x02 => Some(Opcode::LD_AddressBC_A),
        0x03 => Some(Opcode::INC_BC),
        0x04 => Some(Opcode::INC_B),
        0x05 => Some(Opcode::DEC_B),
        0x06 => Some(Opcode::LD_B_d8),
        0x07 => Some(Opcode::RLCA),
        0x08 => Some(Opcode::LD_Address_SP),
        0x0E => Some(Opcode::LD_C_d8),
        0x16 => Some(Opcode::LD_D_d8),
        0x26 => Some(Opcode::LD_H_d8),
        0x2E => Some(Opcode::LD_L_d8),
        0x36 => Some(Opcode::LD_HL_d8),
        0x3E => Some(Opcode::LD_A_d8),
        0xC3 => Some(Opcode::JumpToImmediateAddress),
        _ => None,
    }
}

/// Decodes a byte; total: a byte outside the supported subset decodes as
/// the no-operation tag.
pub fn extract_opcode_from_byte(byte: u8) -> (r: Opcode)
    ensures
        r == decoded(byte),
{
    match try_extract_opcode_from_byte(byte) {
        Some(op) => op,
        None => Opcode::NOP,
    }
}

} // verus!
