#![allow(non_snake_case)]

use vstd::prelude::*;

use crate::cpu::{pair_value, CpuState, Register, CPU};
use crate::decoder::{decoded, extract_opcode_from_byte, Opcode};
use crate::memory::AddressOutOfRange;

verus! {

/// The byte at `address` of a flat memory image, if the image reaches it.
pub open spec fn byte_at(mem: Seq<u8>, address: u16) -> Option<u8> {
    if (address as int) < mem.len() {
        Some(mem[address as int])
    } else {
        None
    }
}

/// Fetching one byte: the byte at PC, and the state with PC advanced by one.
pub open spec fn fetch_spec(s: CpuState, mem: Seq<u8>) -> Result<(CpuState, u8), AddressOutOfRange> {
    match byte_at(mem, s.pc) {
        Some(b) => Ok((CpuState { pc: s.pc.wrapping_add(1), ..s }, b)),
        None => Err(AddressOutOfRange),
    }
}

/// Fetching a little-endian word: the byte at PC is the low half, the byte at
/// PC + 1 the high half; PC advances by two.
pub open spec fn fetch_word_spec(s: CpuState, mem: Seq<u8>) -> Result<
    (CpuState, u16),
    AddressOutOfRange,
> {
    match (byte_at(mem, s.pc), byte_at(mem, s.pc.wrapping_add(1))) {
        (Some(lo), Some(hi)) => Ok((CpuState { pc: s.pc.wrapping_add(2), ..s }, pair_value(hi, lo))),
        _ => Err(AddressOutOfRange),
    }
}

/// Loads an operand byte into an 8-bit register.
pub open spec fn load8_spec(s: CpuState, mem: Seq<u8>, r: Register) -> Result<
    (CpuState, Seq<u8>),
    AddressOutOfRange,
> {
    match fetch_spec(s, mem) {
        Ok((t, b)) => Ok((t.set8(r, b), mem)),
        Err(e) => Err(e),
    }
}

/// The effect of executing one opcode, whose operands are read at PC: the
/// new registers and memory, or the failure (which changes nothing).
pub open spec fn execute_spec(s: CpuState, mem: Seq<u8>, op: Opcode) -> Result<
    (CpuState, Seq<u8>),
    AddressOutOfRange,
> {
    match op {
        Opcode::LD_BC_d16 => match fetch_word_spec(s, mem) {
            Ok((t, w)) => Ok((t.set16(Register::BC, w), mem)),
            Err(e) => Err(e),
        },
        Opcode::LD_AddressBC_A => {
            let address = s.get16(Register::BC);
            if (address as int) < mem.len() {
                Ok((s, mem.update(address as int, s.a)))
            } else {
                Err(AddressOutOfRange)
            }
        },
        Opcode::INC_BC => Ok(
            (s.set16(Register::BC, s.get16(Register::BC).wrapping_add(1)), mem),
        ),
        Opcode::INC_B => Ok((s.set8(Register::B, s.b.wrapping_add(1)), mem)),
        Opcode::DEC_B => Ok((s.set8(Register::B, s.b.wrapping_sub(1)), mem)),
        Opcode::LD_A_d8 => load8_spec(s, mem, Register::A),
        Opcode::LD_B_d8 => load8_spec(s, mem, Register::B),
        Opcode::LD_C_d8 => load8_spec(s, mem, Register::C),
        Opcode::LD_D_d8 => load8_spec(s, mem, Register::D),
        Opcode::LD_H_d8 => load8_spec(s, mem, Register::H),
        Opcode::LD_L_d8 => load8_spec(s, mem, Register::L),
        Opcode::LD_HL_d8 => match fetch_spec(s, mem) {
            Ok((t, b)) => Ok((t.set16(Register::HL, b as u16), mem)),
            Err(e) => Err(e),
        },
        Opcode::JumpToImmediateAddress => match fetch_word_spec(s, mem) {
            Ok((t, w)) => Ok((t.set16(Register::PC, w), mem)),
            Err(e) => Err(e),
        },
        // NOP, and the decoded forms whose effect is not part of this core.
        _ => Ok((s, mem)),
    }
}

/// One step: fetch the opcode byte at PC, decode it, execute it. The result
/// carries the decoded tag.
pub open spec fn step_spec(s: CpuState, mem: Seq<u8>) -> Result<
    (CpuState, Seq<u8>, Opcode),
    AddressOutOfRange,
> {
    match fetch_spec(s, mem) {
        Ok((t, b)) => match execute_spec(t, mem, decoded(b)) {
            Ok((u, m)) => Ok((u, m, decoded(b))),
            Err(e) => Err(e),
        },
        Err(e) => Err(e),
    }
}

impl CPU {
    fn execute_NOP(&mut self)
        ensures
            final(self)@ == old(self)@,
    {
    }

    /// Sets PC to `address`.
    pub fn execute_jump(&mut self, address: u16)
        ensures
            final(self)@ == old(self)@.set16(Register::PC, address),
    {
        self.set_PC(address);
    }

    /// Reads the byte at PC, then advances PC by one. Nothing changes when PC
    /// lies outside `memory`.
    pub fn fetch(&mut self, memory: &[u8]) -> (r: Result<u8, AddressOutOfRange>)
        ensures
            match fetch_spec(old(self)@, memory@) {
                Ok((s, b)) => r == Ok::<u8, AddressOutOfRange>(b) && final(self)@ == s,
                Err(e) => r == Err::<u8, AddressOutOfRange>(e) && final(self)@ == old(self)@,
            },
    {
        let pc = self.get_PC() as usize;
        if pc >= memory.len() {
            return Err(AddressOutOfRange);
        }
        let byte = memory[pc];
        self.advance_PC(1);
        Ok(byte)
    }

    /// Reads the bytes at PC and PC + 1 (in that order), then advances PC by
    /// two. Nothing changes when either lies outside `memory`.
    pub fn fetch_two_bytes(&mut self, memory: &[u8]) -> (r: Result<[u8; 2], AddressOutOfRange>)
        ensures
            match (byte_at(memory@, old(self)@.pc), byte_at(memory@, old(self)@.pc.wrapping_add(1))) {
                (Some(lo), Some(hi)) => r matches Ok(bytes) && bytes@ == seq![lo, hi]
                    && final(self)@ == (CpuState { pc: old(self)@.pc.wrapping_add(2), ..old(self)@ }),
                _ => r == Err::<[u8; 2], AddressOutOfRange>(AddressOutOfRange)
                    && final(self)@ == old(self)@,
            },
    {
        let pc = self.get_PC();
        let next = pc.wrapping_add(1);
        if pc as usize >= memory.len() || next as usize >= memory.len() {
            return Err(AddressOutOfRange);
        }
        let bytes: [u8; 2] = [memory[pc as usize], memory[next as usize]];
        self.advance_PC(2);
        proof {
            assert(bytes@ =~= seq![memory@[pc as int], memory@[next as int]]);
        }
        Ok(bytes)
    }

    /// Composes two bytes little-endian: the first is the low half.
    pub fn convert_two_u8_to_one_u16(&mut self, two_bytes: &[u8; 2]) -> (r: u16)
        ensures
            r == pair_value(two_bytes@[1], two_bytes@[0]),
            final(self)@ == old(self)@,
    {
        let low_byte = two_bytes[0] as u16;
        let high_byte = two_bytes[1] as u16;
        (high_byte << 8) | low_byte
    }

    /// Reads a little-endian word at PC, then advances PC by two. Nothing
    /// changes when either byte lies outside `memory`.
    pub fn fetch_word(&mut self, memory: &[u8]) -> (r: Result<u16, AddressOutOfRange>)
        ensures
            match fetch_word_spec(old(self)@, memory@) {
                Ok((s, w)) => r == Ok::<u16, AddressOutOfRange>(w) && final(self)@ == s,
                Err(e) => r == Err::<u16, AddressOutOfRange>(e) && final(self)@ == old(self)@,
            },
    {
        match self.fetch_two_bytes(memory) {
            Ok(bytes) => Ok(self.convert_two_u8_to_one_u16(&bytes)),
            Err(e) => Err(e),
        }
    }

    /// Reads an operand byte at PC into an 8-bit register.
    fn load_operand_8_bit(&mut self, memory: &[u8], register: Register) -> (r: Result<
        (),
        AddressOutOfRange,
    >)
        requires
            register.is_load_target_8_bit(),
        ensures
            match load8_spec(old(self)@, memory@, register) {
                Ok((s, _)) => r is Ok && final(self)@ == s,
                Err(e) => r == Err::<(), AddressOutOfRange>(e) && final(self)@ == old(self)@,
            },
    {
        let value = self.fetch(memory)?;
        let _ = self.execute_LD_immediate_8_bit(register, value);
        Ok(())
    }

    /// Executes one opcode; its operands are read at PC through the fetch
    /// primitives. On a failure nothing changes.
    pub fn execute_instruction(&mut self, memory: &mut [u8], opcode: Opcode) -> (r: Result<
        (),
        AddressOutOfRange,
    >)
        ensures
            match execute_spec(old(self)@, old(memory)@, opcode) {
                Ok((s, m)) => r is Ok && final(self)@ == s && final(memory)@ == m,
                Err(e) => r == Err::<(), AddressOutOfRange>(e) && final(self)@ == old(self)@
                    && final(memory)@ == old(memory)@,
            },
    {
        match opcode {
            Opcode::NOP => self.execute_NOP(),
            Opcode::LD_BC_d16 => {
                let value = self.fetch_word(memory)?;
                self.set_BC(value);
            },
            Opcode::LD_AddressBC_A => {
                let address_in_BC = self.get_BC() as usize;
                if address_in_BC >= memory.len() {
                    return Err(AddressOutOfRange);
                }
                memory[address_in_BC] = self.get_A();
            },
            Opcode::INC_BC => {
                let _ = self.increment_16_bit_register(Register::BC);
            },
            Opcode::INC_B => {
                let _ = self.increment_8_bit_register(Register::B);
            },
            Opcode::DEC_B => {
                let _ = self.decrement_8_bit_register(Register::B);
            },
            Opcode::LD_A_d8 => self.load_operand_8_bit(memory, Register::A)?,
            Opcode::LD_B_d8 => self.load_operand_8_bit(memory, Register::B)?,
            Opcode::LD_C_d8 => self.load_operand_8_bit(memory, Register::C)?,
            Opcode::LD_D_d8 => self.load_operand_8_bit(memory, Register::D)?,
            Opcode::LD_H_d8 => self.load_operand_8_bit(memory, Register::H)?,
            Opcode::LD_L_d8 => self.load_operand_8_bit(memory, Register::L)?,
            Opcode::LD_HL_d8 => {
                let value = self.fetch(memory)?;
                self.set_HL(value as u16);
            },
            Opcode::JumpToImmediateAddress => {
                let address = self.fetch_word(memory)?;
                self.execute_jump(address);
            },
            Opcode::RLCA | Opcode::LD_Address_SP => {},
        }
        Ok(())
    }

    /// One fetch, decode, execute transition: reads the opcode byte at PC,
    /// advances PC past it, decodes it and executes it. Returns the decoded
    /// tag. On a failure nothing changes.
    pub fn step(&mut self, memory: &mut [u8]) -> (r: Result<Opcode, AddressOutOfRange>)
        ensures
            match step_spec(old(self)@, old(memory)@) {
                Ok((s, m, op)) => r == Ok::<Opcode, AddressOutOfRange>(op) && final(self)@ == s
                    && final(memory)@ == m,
                Err(e) => r == Err::<Opcode, AddressOutOfRange>(e) && final(self)@ == old(self)@
                    && final(memory)@ == old(memory)@,
            },
    {
        let start = self.get_PC();
        let byte = self.fetch(memory)?;
        let opcode = extract_opcode_from_byte(byte);
        match self.execute_instruction(memory, opcode) {
            Ok(()) => Ok(opcode),
            Err(e) => {
                self.set_PC(start);
                Err(e)
            },
        }
    }
}

/// Executing the absolute jump whose operand bytes are 0x00, 0x80 sets PC to
/// 0x8000, whatever PC held before, and changes nothing else.
pub proof fn lemma_jump_sets_pc(s: CpuState, mem: Seq<u8>)
    requires
        (s.pc as int) < mem.len(),
        (s.pc.wrapping_add(1) as int) < mem.len(),
        mem[s.pc as int] == 0x00,
        mem[s.pc.wrapping_add(1) as int] == 0x80,
    ensures
        execute_spec(s, mem, Opcode::JumpToImmediateAddress) == Ok::<
            (CpuState, Seq<u8>),
            AddressOutOfRange,
        >((CpuState { pc: 0x8000, ..s }, mem)),
{
    assert(pair_value(0x80, 0x00) == 0x8000) by (bit_vector);
}

/// Executing the 16-bit immediate load into BC over operand bytes 0x34, 0x12
/// sets BC to 0x1234 and leaves PC two bytes past where the operands began.
pub proof fn lemma_load_bc_immediate(s: CpuState, mem: Seq<u8>)
    requires
        (s.pc as int) < mem.len(),
        (s.pc.wrapping_add(1) as int) < mem.len(),
        mem[s.pc as int] == 0x34,
        mem[s.pc.wrapping_add(1) as int] == 0x12,
    ensures
        execute_spec(s, mem, Opcode::LD_BC_d16) matches Ok((t, m)) && t.get16(Register::BC)
            == 0x1234 && t.pc == s.pc.wrapping_add(2) && m == mem,
{
    assert(pair_value(0x12, 0x34) == 0x1234) by (bit_vector);
    assert(pair_value((0x1234u16 >> 8) as u8, (0x1234u16 & 0xFF) as u8) == 0x1234) by (bit_vector);
}

} // verus!
