#![allow(non_snake_case)]

use vstd::prelude::*;

verus! {

/// Mask that keeps the four status bits of the flags byte (bits 7..4).
pub const HIGH_BITS_MASK_FOR_8_BIT: u8 = 0xF0;

/// Zero flag: bit 7 of the flags byte.
pub const Z_FLAG_MASK: u8 = 0x80;

/// Subtract flag: bit 6 of the flags byte.
pub const N_FLAG_MASK: u8 = 0x40;

/// Half-carry flag: bit 5 of the flags byte.
pub const H_FLAG_MASK: u8 = 0x20;

/// Carry flag: bit 4 of the flags byte.
pub const C_FLAG_MASK: u8 = 0x10;

/// The value stored for a flags byte: the low nibble is always cleared.
pub open spec fn masked_flags(v: u8) -> u8 {
    v & 0xF0
}

/// The 16-bit pair formed by a high and a low 8-bit half.
pub open spec fn pair_value(hi: u8, lo: u8) -> u16 {
    ((hi as u16) << 8) | (lo as u16)
}

/// The high half of a 16-bit value.
pub open spec fn high_byte(v: u16) -> u8 {
    (v >> 8) as u8
}

/// The low half of a 16-bit value.
pub open spec fn low_byte(v: u16) -> u8 {
    (v & 0xFF) as u8
}

/// Register selector: the eight 8-bit registers and the six 16-bit ones.
#[derive(Clone, Copy, Debug, PartialEq, Eq, Structural)]
pub enum Register {
    A,
    B,
    C,
    D,
    E,
    H,
    L,
    FLAGS,
    AF,
    BC,
    DE,
    HL,
    PC,
    SP,
}

/// A selector of the wrong width was handed to a register operation; nothing
/// was changed.
#[derive(Clone, Copy, Debug, PartialEq, Eq, Structural)]
pub enum RegisterError {
    NotAn8BitRegister,
    NotA16BitRegister,
}

impl Register {
    pub open spec fn is_8_bit(self) -> bool {
        match self {
            Register::A | Register::B | Register::C | Register::D | Register::E | Register::H
            | Register::L | Register::FLAGS => true,
            _ => false,
        }
    }

    pub open spec fn is_16_bit(self) -> bool {
        !self.is_8_bit()
    }

    /// The 8-bit registers that an immediate load may target (all but FLAGS).
    pub open spec fn is_load_target_8_bit(self) -> bool {
        self.is_8_bit() && self != Register::FLAGS
    }
}

/// Mathematical model of the register file.
pub struct CpuState {
    pub a: u8,
    pub b: u8,
    pub c: u8,
    pub d: u8,
    pub e: u8,
    pub h: u8,
    pub l: u8,
    pub flags: u8,
    pub pc: u16,
    pub sp: u16,
}

impl CpuState {
    /// Every register zero.
    pub open spec fn zeroed() -> CpuState {
        CpuState { a: 0, b: 0, c: 0, d: 0, e: 0, h: 0, l: 0, flags: 0, pc: 0, sp: 0 }
    }

    /// The low nibble of the flags byte is zero.
    pub open spec fn flags_ok(self) -> bool {
        self.flags & 0x0F == 0
    }

    /// Value of an 8-bit register (zero for a 16-bit selector).
    pub open spec fn get8(self, r: Register) -> u8 {
        match r {
            Register::A => self.a,
            Register::B => self.b,
            Register::C => self.c,
            Register::D => self.d,
            Register::E => self.e,
            Register::H => self.h,
            Register::L => self.l,
            Register::FLAGS => self.flags,
            _ => 0,
        }
    }

    /// Value of a 16-bit register or pair (zero for an 8-bit selector).
    pub open spec fn get16(self, r: Register) -> u16 {
        match r {
            Register::AF => pair_value(self.a, self.flags),
            Register::BC => pair_value(self.b, self.c),
            Register::DE => pair_value(self.d, self.e),
            Register::HL => pair_value(self.h, self.l),
            Register::PC => self.pc,
            Register::SP => self.sp,
            _ => 0,
        }
    }

    /// The state after writing `v` into an 8-bit register; FLAGS is masked.
    /// A 16-bit selector leaves the state as it is.
    pub open spec fn set8(self, r: Register, v: u8) -> CpuState {
        match r {
            Register::A => CpuState { a: v, ..self },
            Register::B => CpuState { b: v, ..self },
            Register::C => CpuState { c: v, ..self },
            Register::D => CpuState { d: v, ..self },
            Register::E => CpuState { e: v, ..self },
            Register::H => CpuState { h: v, ..self },
            Register::L => CpuState { l: v, ..self },
            Register::FLAGS => CpuState { flags: masked_flags(v), ..self },
            _ => self,
        }
    }

    /// The state after writing `v` into a 16-bit register; a pair is split into
    /// its halves, and the low half of AF is masked. An 8-bit selector leaves
    /// the state as it is.
    pub open spec fn set16(self, r: Register, v: u16) -> CpuState {
        match r {
            Register::AF => CpuState { a: high_byte(v), flags: masked_flags(low_byte(v)), ..self },
            Register::BC => CpuState { b: high_byte(v), c: low_byte(v), ..self },
            Register::DE => CpuState { d: high_byte(v), e: low_byte(v), ..self },
            Register::HL => CpuState { h: high_byte(v), l: low_byte(v), ..self },
            Register::PC => CpuState { pc: v, ..self },
            Register::SP => CpuState { sp: v, ..self },
            _ => self,
        }
    }
}

/// The register file: seven 8-bit registers, the flags byte, PC and SP.
pub struct CPU {
    SP: u16,
    PC: u16,
    A: u8,
    B: u8,
    C: u8,
    D: u8,
    E: u8,
    H: u8,
    L: u8,
    FLAGS: u8,
}

impl View for CPU {
    type V = CpuState;

    closed spec fn view(&self) -> CpuState {
        CpuState {
            a: self.A,
            b: self.B,
            c: self.C,
            d: self.D,
            e: self.E,
            h: self.H,
            l: self.L,
            flags: self.FLAGS,
            pc: self.PC,
            sp: self.SP,
        }
    }
}

impl CPU {
    #[verifier::type_invariant]
    spec fn flags_low_nibble_clear(&self) -> bool {
        self.FLAGS & 0x0F == 0
    }

    /// A register file with every register zero.
    pub fn create() -> (r: CPU)
        ensures
            r@ == CpuState::zeroed(),
    {
        proof {
            assert(0u8 & 0x0F == 0) by (bit_vector);
        }
        CPU { A: 0, SP: 0, PC: 0, B: 0, C: 0, D: 0, E: 0, H: 0, L: 0, FLAGS: 0 }
    }

    /// Keeps a flags byte's status bits and clears its low nibble.
    fn mask_flags(value: u8) -> (r: u8)
        ensures
            r == masked_flags(value),
            r & 0x0F == 0,
    {
        proof {
            assert((value & 0xF0) & 0x0F == 0) by (bit_vector);
        }
        value & HIGH_BITS_MASK_FOR_8_BIT
    }

    pub fn get_AF(&self) -> (r: u16)
        ensures
            r == self@.get16(Register::AF),
    {
        ((self.A as u16) << 8) | (self.FLAGS as u16)
    }

    pub fn get_BC(&self) -> (r: u16)
        ensures
            r == self@.get16(Register::BC),
    {
        ((self.B as u16) << 8) | (self.C as u16)
    }

    pub fn get_DE(&self) -> (r: u16)
        ensures
            r == self@.get16(Register::DE),
    {
        ((self.D as u16) << 8) | (self.E as u16)
    }

    pub fn get_HL(&self) -> (r: u16)
        ensures
            r == self@.get16(Register::HL),
    {
        ((self.H as u16) << 8) | (self.L as u16)
    }

    pub fn get_PC(&self) -> (r: u16)
        ensures
            r == self@.pc,
    {
        self.PC
    }

    pub fn get_SP(&self) -> (r: u16)
        ensures
            r == self@.sp,
    {
        self.SP
    }

    pub fn get_A(&self) -> (r: u8)
        ensures
            r == self@.a,
    {
        self.A
    }

    pub fn get_B(&self) -> (r: u8)
        ensures
            r == self@.b,
    {
        self.B
    }

    pub fn get_C(&self) -> (r: u8)
        ensures
            r == self@.c,
    {
        self.C
    }

    pub fn get_D(&self) -> (r: u8)
        ensures
            r == self@.d,
    {
        self.D
    }

    pub fn get_E(&self) -> (r: u8)
        ensures
            r == self@.e,
    {
        self.E
    }

    pub fn get_H(&self) -> (r: u8)
        ensures
            r == self@.h,
    {
        self.H
    }

    pub fn get_L(&self) -> (r: u8)
        ensures
            r == self@.l,
    {
        self.L
    }

    /// The flags byte, whose low nibble is always zero.
    pub fn get_FLAGS(&self) -> (r: u8)
        ensures
            r == self@.flags,
            r & 0x0F == 0,
    {
        proof {
            use_type_invariant(self);
        }
        self.FLAGS
    }

    pub(crate) fn set_AF(&mut self, value: u16)
        ensures
            final(self)@ == old(self)@.set16(Register::AF, value),
    {
        proof {
            use_type_invariant(&*self);
        }
        self.A = (value >> 8) as u8;
        let low_bits = (value & 0x00FF) as u8;
        self.FLAGS = CPU::mask_flags(low_bits);
    }

    pub(crate) fn set_BC(&mut self, value: u16)
        ensures
            final(self)@ == old(self)@.set16(Register::BC, value),
    {
        proof {
            use_type_invariant(&*self);
        }
        self.B = (value >> 8) as u8;
        self.C = (value & 0x00FF) as u8;
    }

    pub(crate) fn set_DE(&mut self, value: u16)
        ensures
            final(self)@ == old(self)@.set16(Register::DE, value),
    {
        proof {
            use_type_invariant(&*self);
        }
        self.D = (value >> 8) as u8;
        self.E = (value & 0x00FF) as u8;
    }

    pub(crate) fn set_HL(&mut self, value: u16)
        ensures
            final(self)@ == old(self)@.set16(Register::HL, value),
    {
        proof {
            use_type_invariant(&*self);
        }
        self.H = (value >> 8) as u8;
        self.L = (value & 0x00FF) as u8;
    }

    pub(crate) fn set_SP(&mut self, value: u16)
        ensures
            final(self)@ == old(self)@.set16(Register::SP, value),
    {
        proof {
            use_type_invariant(&*self);
        }
        self.SP = value;
    }

    pub(crate) fn set_PC(&mut self, value: u16)
        ensures
            final(self)@ == old(self)@.set16(Register::PC, value),
    {
        proof {
            use_type_invariant(&*self);
        }
        self.PC = value;
    }

    /// Moves PC forward by `value`, wrapping modulo 65536.
    pub fn advance_PC(&mut self, value: u16)
        ensures
            final(self)@ == (CpuState { pc: old(self)@.pc.wrapping_add(value), ..old(self)@ }),
    {
        proof {
            use_type_invariant(&*self);
        }
        self.PC = self.PC.wrapping_add(value);
    }

    pub(crate) fn set_A(&mut self, value: u8)
        ensures
            final(self)@ == old(self)@.set8(Register::A, value),
    {
        proof {
            use_type_invariant(&*self);
        }
        self.A = value;
    }

    pub(crate) fn set_B(&mut self, value: u8)
        ensures
            final(self)@ == old(self)@.set8(Register::B, value),
    {
        proof {
            use_type_invariant(&*self);
        }
        self.B = value;
    }

    pub(crate) fn set_C(&mut self, value: u8)
        ensures
            final(self)@ == old(self)@.set8(Register::C, value),
    {
        proof {
            use_type_invariant(&*self);
        }
        self.C = value;
    }

    pub(crate) fn set_D(&mut self, value: u8)
        ensures
            final(self)@ == old(self)@.set8(Register::D, value),
    {
        proof {
            use_type_invariant(&*self);
        }
        self.D = value;
    }

    pub(crate) fn set_E(&mut self, value: u8)
        ensures
            final(self)@ == old(self)@.set8(Register::E, value),
    {
        proof {
            use_type_invariant(&*self);
        }
        self.E = value;
    }

    pub(crate) fn set_H(&mut self, value: u8)
        ensures
            final(self)@ == old(self)@.set8(Register::H, value),
    {
        proof {
            use_type_invariant(&*self);
        }
        self.H = value;
    }

    pub(crate) fn set_L(&mut self, value: u8)
        ensures
            final(self)@ == old(self)@.set8(Register::L, value),
    {
        proof {
            use_type_invariant(&*self);
        }
        self.L = value;
    }

    /// The one write path of the flags byte: the low nibble is cleared.
    pub(crate) fn set_FLAGS(&mut self, value: u8)
        ensures
            final(self)@ == old(self)@.set8(Register::FLAGS, value),
    {
        proof {
            use_type_invariant(&*self);
        }
        self.FLAGS = CPU::mask_flags(value);
    }

    /// Sets the carry flag (bit 4), keeping the other flags.
    pub fn set_C_flag(&mut self)
        ensures
            final(self)@ == old(self)@.set8(Register::FLAGS, old(self)@.flags | C_FLAG_MASK),
    {
        let current_flag_byte = self.get_FLAGS();
        self.set_FLAGS(current_flag_byte | C_FLAG_MASK);
    }

    /// Clears the carry flag (bit 4), keeping the other flags.
    pub fn clear_C_flag(&mut self)
        ensures
            final(self)@ == old(self)@.set8(Register::FLAGS, old(self)@.flags & !C_FLAG_MASK),
    {
        let current_flag_byte = self.get_FLAGS();
        self.set_FLAGS(current_flag_byte & !C_FLAG_MASK);
    }

    /// Reads an 8-bit register; a 16-bit selector is refused.
    pub fn get_8_bit_register(&self, register: Register) -> (r: Result<u8, RegisterError>)
        ensures
            register.is_8_bit() ==> r == Ok::<u8, RegisterError>(self@.get8(register)),
            !register.is_8_bit() ==> r == Err::<u8, RegisterError>(
                RegisterError::NotAn8BitRegister,
            ),
    {
        match register {
            Register::A => Ok(self.get_A()),
            Register::B => Ok(self.get_B()),
            Register::C => Ok(self.get_C()),
            Register::D => Ok(self.get_D()),
            Register::E => Ok(self.get_E()),
            Register::H => Ok(self.get_H()),
            Register::L => Ok(self.get_L()),
            Register::FLAGS => Ok(self.get_FLAGS()),
            _ => Err(RegisterError::NotAn8BitRegister),
        }
    }

    /// Reads a 16-bit register or pair; an 8-bit selector is refused.
    pub fn get_16_bit_register(&self, register: Register) -> (r: Result<u16, RegisterError>)
        ensures
            register.is_16_bit() ==> r == Ok::<u16, RegisterError>(self@.get16(register)),
            !register.is_16_bit() ==> r == Err::<u16, RegisterError>(
                RegisterError::NotA16BitRegister,
            ),
    {
        match register {
            Register::AF => Ok(self.get_AF()),
            Register::BC => Ok(self.get_BC()),
            Register::DE => Ok(self.get_DE()),
            Register::HL => Ok(self.get_HL()),
            Register::SP => Ok(self.get_SP()),
            Register::PC => Ok(self.get_PC()),
            _ => Err(RegisterError::NotA16BitRegister),
        }
    }

    /// Adds one to an 8-bit register, wrapping modulo 256; no flag changes
    /// (a write to FLAGS itself is masked). A 16-bit selector is refused and
    /// changes nothing.
    pub fn increment_8_bit_register(&mut self, register: Register) -> (r: Result<
        (),
        RegisterError,
    >)
        ensures
            register.is_8_bit() ==> r is Ok && final(self)@ == old(self)@.set8(
                register,
                old(self)@.get8(register).wrapping_add(1),
            ),
            !register.is_8_bit() ==> r == Err::<(), RegisterError>(
                RegisterError::NotAn8BitRegister,
            ) && final(self)@ == old(self)@,
    {
        match register {
            Register::A => self.set_A(self.get_A().wrapping_add(1)),
            Register::B => self.set_B(self.get_B().wrapping_add(1)),
            Register::C => self.set_C(self.get_C().wrapping_add(1)),
            Register::D => self.set_D(self.get_D().wrapping_add(1)),
            Register::E => self.set_E(self.get_E().wrapping_add(1)),
            Register::H => self.set_H(self.get_H().wrapping_add(1)),
            Register::L => self.set_L(self.get_L().wrapping_add(1)),
            Register::FLAGS => self.set_FLAGS(self.get_FLAGS().wrapping_add(1)),
            _ => return Err(RegisterError::NotAn8BitRegister),
        }
        Ok(())
    }

    /// Subtracts one from an 8-bit register, wrapping modulo 256; no flag
    /// changes (a write to FLAGS itself is masked). A 16-bit selector is
    /// refused and changes nothing.
    pub fn decrement_8_bit_register(&mut self, register: Register) -> (r: Result<
        (),
        RegisterError,
    >)
        ensures
            register.is_8_bit() ==> r is Ok && final(self)@ == old(self)@.set8(
                register,
                old(self)@.get8(register).wrapping_sub(1),
            ),
            !register.is_8_bit() ==> r == Err::<(), RegisterError>(
                RegisterError::NotAn8BitRegister,
            ) && final(self)@ == old(self)@,
    {
        match register {
            Register::A => self.set_A(self.get_A().wrapping_sub(1)),
            Register::B => self.set_B(self.get_B().wrapping_sub(1)),
            Register::C => self.set_C(self.get_C().wrapping_sub(1)),
            Register::D => self.set_D(self.get_D().wrapping_sub(1)),
            Register::E => self.set_E(self.get_E().wrapping_sub(1)),
            Register::H => self.set_H(self.get_H().wrapping_sub(1)),
            Register::L => self.set_L(self.get_L().wrapping_sub(1)),
            Register::FLAGS => self.set_FLAGS(self.get_FLAGS().wrapping_sub(1)),
            _ => return Err(RegisterError::NotAn8BitRegister),
        }
        Ok(())
    }

    /// Adds one to a 16-bit register or pair, wrapping modulo 65536, with no
    /// flag changes. An 8-bit selector is refused and changes nothing.
    pub fn increment_16_bit_register(&mut self, register: Register) -> (r: Result<
        (),
        RegisterError,
    >)
        ensures
            register.is_16_bit() ==> r is Ok && final(self)@ == old(self)@.set16(
                register,
                old(self)@.get16(register).wrapping_add(1),
            ),
            !register.is_16_bit() ==> r == Err::<(), RegisterError>(
                RegisterError::NotA16BitRegister,
            ) && final(self)@ == old(self)@,
    {
        match register {
            Register::AF => self.set_AF(self.get_AF().wrapping_add(1)),
            Register::BC => self.set_BC(self.get_BC().wrapping_add(1)),
            Register::DE => self.set_DE(self.get_DE().wrapping_add(1)),
            Register::HL => self.set_HL(self.get_HL().wrapping_add(1)),
            Register::SP => self.set_SP(self.get_SP().wrapping_add(1)),
            Register::PC => self.set_PC(self.get_PC().wrapping_add(1)),
            _ => return Err(RegisterError::NotA16BitRegister),
        }
        Ok(())
    }

    /// Subtracts one from a 16-bit register or pair, wrapping modulo 65536,
    /// with no flag changes. An 8-bit selector is refused and changes nothing.
    pub fn decrement_16_bit_register(&mut self, register: Register) -> (r: Result<
        (),
        RegisterError,
    >)
        ensures
            register.is_16_bit() ==> r is Ok && final(self)@ == old(self)@.set16(
                register,
                old(self)@.get16(register).wrapping_sub(1),
            ),
            !register.is_16_bit() ==> r == Err::<(), RegisterError>(
                RegisterError::NotA16BitRegister,
            ) && final(self)@ == old(self)@,
    {
        match register {
            Register::AF => self.set_AF(self.get_AF().wrapping_sub(1)),
            Register::BC => self.set_BC(self.get_BC().wrapping_sub(1)),
            Register::DE => self.set_DE(self.get_DE().wrapping_sub(1)),
            Register::HL => self.set_HL(self.get_HL().wrapping_sub(1)),
            Register::SP => self.set_SP(self.get_SP().wrapping_sub(1)),
            Register::PC => self.set_PC(self.get_PC().wrapping_sub(1)),
            _ => return Err(RegisterError::NotA16BitRegister),
        }
        Ok(())
    }

    /// Writes an 8-bit register (FLAGS through the masking path). A 16-bit
    /// selector is refused and changes nothing.
    pub fn set_8_bit_register(&mut self, register: Register, value: u8) -> (r: Result<
        (),
        RegisterError,
    >)
        ensures
            register.is_8_bit() ==> r is Ok && final(self)@ == old(self)@.set8(register, value),
            !register.is_8_bit() ==> r == Err::<(), RegisterError>(
                RegisterError::NotAn8BitRegister,
            ) && final(self)@ == old(self)@,
    {
        match register {
            Register::A => self.set_A(value),
            Register::B => self.set_B(value),
            Register::C => self.set_C(value),
            Register::D => self.set_D(value),
            Register::E => self.set_E(value),
            Register::H => self.set_H(value),
            Register::L => self.set_L(value),
            Register::FLAGS => self.set_FLAGS(value),
            _ => return Err(RegisterError::NotAn8BitRegister),
        }
        Ok(())
    }

    /// Writes a 16-bit register or pair; both halves of a pair are written
    /// before the call returns. An 8-bit selector is refused and changes
    /// nothing.
    pub fn set_16_bit_register(&mut self, register: Register, value: u16) -> (r: Result<
        (),
        RegisterError,
    >)
        ensures
            register.is_16_bit() ==> r is Ok && final(self)@ == old(self)@.set16(register, value),
            !register.is_16_bit() ==> r == Err::<(), RegisterError>(
                RegisterError::NotA16BitRegister,
            ) && final(self)@ == old(self)@,
    {
        match register {
            Register::AF => self.set_AF(value),
            Register::BC => self.set_BC(value),
            Register::DE => self.set_DE(value),
            Register::HL => self.set_HL(value),
            Register::SP => self.set_SP(value),
            Register::PC => self.set_PC(value),
            _ => return Err(RegisterError::NotA16BitRegister),
        }
        Ok(())
    }

    /// Loads an immediate byte into A, B, C, D, E, H or L. FLAGS and the
    /// 16-bit selectors are refused and change nothing.
    pub fn execute_LD_immediate_8_bit(&mut self, register: Register, value: u8) -> (r: Result<
        (),
        RegisterError,
    >)
        ensures
            register.is_load_target_8_bit() ==> r is Ok && final(self)@ == old(self)@.set8(
                register,
                value,
            ),
            !register.is_load_target_8_bit() ==> r == Err::<(), RegisterError>(
                RegisterError::NotAn8BitRegister,
            ) && final(self)@ == old(self)@,
    {
        match register {
            Register::A => self.set_A(value),
            Register::B => self.set_B(value),
            Register::C => self.set_C(value),
            Register::D => self.set_D(value),
            Register::E => self.set_E(value),
            Register::H => self.set_H(value),
            Register::L => self.set_L(value),
            _ => return Err(RegisterError::NotAn8BitRegister),
        }
        Ok(())
    }

    /// Loads an immediate 16-bit value into a register or pair. An 8-bit
    /// selector is refused and changes nothing.
    pub fn execute_LD_immediate_16_bit(&mut self, register: Register, value: u16) -> (r: Result<
        (),
        RegisterError,
    >)
        ensures
            register.is_16_bit() ==> r is Ok && final(self)@ == old(self)@.set16(register, value),
            !register.is_16_bit() ==> r == Err::<(), RegisterError>(
                RegisterError::NotA16BitRegister,
            ) && final(self)@ == old(self)@,
    {
        self.set_16_bit_register(register, value)
    }
}

/// Writing a value into BC and reading it back gives the value; B holds its
/// high byte and C its low byte.
pub proof fn lemma_bc_write_read(s: CpuState, v: u16)
    ensures
        s.set16(Register::BC, v).get16(Register::BC) == v,
        s.set16(Register::BC, v).get8(Register::B) == (v >> 8) as u8,
        s.set16(Register::BC, v).get8(Register::C) == (v & 0xFF) as u8,
{
    assert(((((v >> 8) as u8) as u16) << 8) | (((v & 0xFF) as u8) as u16) == v) by (bit_vector);
}

/// Writing a value into AF leaves FLAGS holding the value's low byte with its
/// low nibble forced to zero.
pub proof fn lemma_af_write_masks_flags(s: CpuState, v: u16)
    ensures
        s.set16(Register::AF, v).get8(Register::FLAGS) == (v & 0xF0) as u8,
        s.set16(Register::AF, v).flags_ok(),
{
    assert(((v & 0xFF) as u8) & 0xF0 == (v & 0xF0) as u8) by (bit_vector);
    assert((((v & 0xFF) as u8) & 0xF0) & 0x0F == 0) by (bit_vector);
}

} // verus!
