use vstd::prelude::*;

verus! {

/// Size in bytes of the cartridge header region.
pub const HEADER_SIZE: usize = 80;

/// Size in bytes of each memory bank.
pub const BANK_SIZE: usize = 0x4000;

/// Reference logo bytes that a cartridge header carries; kept for a loader to
/// compare header contents against.
pub const NINTENDO_LOGO_MEMORY: [u8; 48] = [
    0xCE, 0xED, 0x66, 0x66, 0xCC, 0x0D, 0x00, 0x0B,
    0x03, 0x73, 0x00, 0x83, 0x00, 0x0C, 0x00, 0x0D,
    0x00, 0x08, 0x11, 0x1F, 0x88, 0x89, 0x00, 0x0E,
    0xDC, 0xCC, 0x6E, 0xE6, 0xDD, 0xDD, 0xD9, 0x99,
    0xBB, 0xBB, 0x67, 0x63, 0x6E, 0x0E, 0xEC, 0xCC,
    0xDD, 0xDC, 0x99, 0x9F, 0xBB, 0xB9, 0x33, 0x3E,
];

/// An address outside the addressable window; nothing was read or written.
#[derive(Clone, Copy, Debug, PartialEq, Eq, Structural)]
pub struct AddressOutOfRange;

/// Identifier of one of the three banks.
#[derive(Clone, Copy, Debug, PartialEq, Eq, Structural)]
pub enum MemoryBank {
    Bank1,
    Bank2,
    Bank3,
}

/// `n` zero bytes.
pub open spec fn zeros(n: nat) -> Seq<u8> {
    Seq::new(n, |i: int| 0u8)
}

/// Mathematical model of the banked memory.
pub struct MemoryState {
    pub header: Seq<u8>,
    pub bank_1: Seq<u8>,
    pub bank_2: Seq<u8>,
    pub bank_3: Seq<u8>,
    pub active: MemoryBank,
}

impl MemoryState {
    /// Header and banks zero, Bank1 active.
    pub open spec fn zeroed() -> MemoryState {
        MemoryState {
            header: zeros(HEADER_SIZE as nat),
            bank_1: zeros(BANK_SIZE as nat),
            bank_2: zeros(BANK_SIZE as nat),
            bank_3: zeros(BANK_SIZE as nat),
            active: MemoryBank::Bank1,
        }
    }

    pub open spec fn bank(self, bank: MemoryBank) -> Seq<u8> {
        match bank {
            MemoryBank::Bank1 => self.bank_1,
            MemoryBank::Bank2 => self.bank_2,
            MemoryBank::Bank3 => self.bank_3,
        }
    }

    /// The storage of the selected bank.
    pub open spec fn active_view(self) -> Seq<u8> {
        self.bank(self.active)
    }

    /// The state with `bank` selected; no byte moves.
    pub open spec fn select(self, bank: MemoryBank) -> MemoryState {
        MemoryState { active: bank, ..self }
    }

    /// The state after writing `value` at `offset` of the selected bank.
    pub open spec fn write_active(self, offset: int, value: u8) -> MemoryState {
        match self.active {
            MemoryBank::Bank1 => MemoryState { bank_1: self.bank_1.update(offset, value), ..self },
            MemoryBank::Bank2 => MemoryState { bank_2: self.bank_2.update(offset, value), ..self },
            MemoryBank::Bank3 => MemoryState { bank_3: self.bank_3.update(offset, value), ..self },
        }
    }

    /// The byte at a bus address: the header region comes first, the selected
    /// bank follows it; any other address is out of range.
    pub open spec fn bus_read(self, address: u16) -> Result<u8, AddressOutOfRange> {
        if (address as int) < HEADER_SIZE {
            Ok(self.header[address as int])
        } else if (address as int) < HEADER_SIZE + BANK_SIZE {
            Ok(self.active_view()[address - HEADER_SIZE])
        } else {
            Err(AddressOutOfRange)
        }
    }

    /// The state after writing `value` at a bus address, laid out as in
    /// `bus_read`.
    pub open spec fn bus_write(self, address: u16, value: u8) -> Result<
        MemoryState,
        AddressOutOfRange,
    > {
        if (address as int) < HEADER_SIZE {
            Ok(MemoryState { header: self.header.update(address as int, value), ..self })
        } else if (address as int) < HEADER_SIZE + BANK_SIZE {
            Ok(self.write_active(address - HEADER_SIZE, value))
        } else {
            Err(AddressOutOfRange)
        }
    }
}

/// An 80-byte cartridge header and three 16 KiB banks, one of them selected.
pub struct Memory {
    cartridge_header: [u8; 80],
    bank_1: [u8; 0x4000],
    bank_2: [u8; 0x4000],
    bank_3: [u8; 0x4000],
    active_bank: MemoryBank,
}

impl View for Memory {
    type V = MemoryState;

    closed spec fn view(&self) -> MemoryState {
        MemoryState {
            header: self.cartridge_header@,
            bank_1: self.bank_1@,
            bank_2: self.bank_2@,
            bank_3: self.bank_3@,
            active: self.active_bank,
        }
    }
}

impl Memory {
    /// All bytes zero, Bank1 selected.
    pub fn new() -> (r: Memory)
        ensures
            r@ == MemoryState::zeroed(),
    {
        let bank_1 = [0u8; 0x4000];
        let bank_2 = [0u8; 0x4000];
        let bank_3 = [0u8; 0x4000];
        let cartridge_header = [0u8; 80];
        let r = Memory {
            active_bank: MemoryBank::Bank1,
            bank_1: bank_1,
            bank_2: bank_2,
            bank_3: bank_3,
            cartridge_header: cartridge_header,
        };
        assert(r@.header =~= zeros(HEADER_SIZE as nat));
        assert(r@.bank_1 =~= zeros(BANK_SIZE as nat));
        assert(r@.bank_2 =~= zeros(BANK_SIZE as nat));
        assert(r@.bank_3 =~= zeros(BANK_SIZE as nat));
        r
    }

    /// Selects a bank; no byte moves.
    pub fn set_active_memory_bank(&mut self, bank: MemoryBank)
        ensures
            final(self)@ == old(self)@.select(bank),
    {
        self.active_bank = bank;
    }

    /// Read-only view of the selected bank's storage.
    pub fn get_active_memory_bank(&self) -> (r: &[u8])
        ensures
            r@ == self@.active_view(),
            r@.len() == BANK_SIZE,
    {
        match self.active_bank {
            MemoryBank::Bank1 => &self.bank_1,
            MemoryBank::Bank2 => &self.bank_2,
            MemoryBank::Bank3 => &self.bank_3,
        }
    }

    /// Selects a bank of `memory`; no byte moves.
    pub fn set_memory_bank(memory: &mut Memory, bank: MemoryBank)
        ensures
            final(memory)@ == old(memory)@.select(bank),
    {
        memory.active_bank = bank;
    }

    /// Reads the byte at `offset` of the selected bank.
    pub fn read_active(&self, offset: usize) -> (r: Result<u8, AddressOutOfRange>)
        ensures
            offset < BANK_SIZE ==> r == Ok::<u8, AddressOutOfRange>(
                self@.active_view()[offset as int],
            ),
            offset >= BANK_SIZE ==> r == Err::<u8, AddressOutOfRange>(AddressOutOfRange),
    {
        if offset >= BANK_SIZE {
            return Err(AddressOutOfRange);
        }
        match self.active_bank {
            MemoryBank::Bank1 => Ok(self.bank_1[offset]),
            MemoryBank::Bank2 => Ok(self.bank_2[offset]),
            MemoryBank::Bank3 => Ok(self.bank_3[offset]),
        }
    }

    /// Writes `value` at `offset` of the selected bank; the other banks and
    /// the header are untouched.
    pub fn write_active(&mut self, offset: usize, value: u8) -> (r: Result<(), AddressOutOfRange>)
        ensures
            offset < BANK_SIZE ==> r is Ok && final(self)@ == old(self)@.write_active(
                offset as int,
                value,
            ),
            offset >= BANK_SIZE ==> r == Err::<(), AddressOutOfRange>(AddressOutOfRange)
                && final(self)@ == old(self)@,
    {
        if offset >= BANK_SIZE {
            return Err(AddressOutOfRange);
        }
        match self.active_bank {
            MemoryBank::Bank1 => self.bank_1[offset] = value,
            MemoryBank::Bank2 => self.bank_2[offset] = value,
            MemoryBank::Bank3 => self.bank_3[offset] = value,
        }
        Ok(())
    }

    /// Bus read: the header region at addresses below 80, the selected bank
    /// after it.
    pub fn read8(&self, address: u16) -> (r: Result<u8, AddressOutOfRange>)
        ensures
            r == self@.bus_read(address),
    {
        let a = address as usize;
        if a < HEADER_SIZE {
            Ok(self.cartridge_header[a])
        } else {
            self.read_active(a - HEADER_SIZE)
        }
    }

    /// Bus write, with the layout of `read8`; nothing changes on an address out
    /// of range.
    pub fn write8(&mut self, address: u16, value: u8) -> (r: Result<(), AddressOutOfRange>)
        ensures
            match old(self)@.bus_write(address, value) {
                Ok(m) => r is Ok && final(self)@ == m,
                Err(e) => r == Err::<(), AddressOutOfRange>(e) && final(self)@ == old(self)@,
            },
    {
        let a = address as usize;
        if a < HEADER_SIZE {
            self.cartridge_header[a] = value;
            Ok(())
        } else {
            self.write_active(a - HEADER_SIZE, value)
        }
    }
}

/// A write through one bank's view is never observed through another bank's
/// view: banks are independent storage.
pub proof fn lemma_banks_independent(
    m: MemoryState,
    written: MemoryBank,
    observed: MemoryBank,
    offset: int,
    value: u8,
)
    requires
        written != observed,
    ensures
        m.select(written).write_active(offset, value).select(observed).active_view()
            == m.select(observed).active_view(),
{
}

} // verus!
