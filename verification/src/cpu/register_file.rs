//! The register file: one byte of storage per 8-bit register, two bytes for
//! each of PC and SP, and four 16-bit views that are computed from pairs of
//! 8-bit registers.
use crate::bus::Bus;
use crate::cpu::flags::Flags;
use vstd::prelude::*;

verus! {

/// The names by which the register file is addressed.
///
/// `IR` up to `Z` name single bytes. `PC` and `SP` are stored 16-bit
/// registers. `BC`, `DE`, `HL` and `WZ` are views over two 8-bit registers
/// each, the first letter naming the high byte.
#[derive(Clone, Copy, Debug, PartialEq, Eq, Structural)]
pub enum Register {
    IR,
    IE,
    A,
    F,
    B,
    C,
    D,
    E,
    H,
    L,
    W,
    Z,
    PC,
    SP,
    BC,
    DE,
    HL,
    WZ,
}

/// Number of bytes of storage in the register file.
pub const REGISTER_FILE_BYTES: usize = 16;

/// Number of registers that an opcode's three-bit field can select directly.
pub const DATA_REGISTER_COUNT: u8 = 6;

/// Number of 16-bit views over pairs of 8-bit registers.
pub const REGISTER_PAIR_COUNT: u8 = 4;

impl Register {
    /// Position of the register in the order of declaration.
    pub open spec fn ordinal(self) -> int {
        match self {
            Register::IR => 0,
            Register::IE => 1,
            Register::A => 2,
            Register::F => 3,
            Register::B => 4,
            Register::C => 5,
            Register::D => 6,
            Register::E => 7,
            Register::H => 8,
            Register::L => 9,
            Register::W => 10,
            Register::Z => 11,
            Register::PC => 12,
            Register::SP => 13,
            Register::BC => 14,
            Register::DE => 15,
            Register::HL => 16,
            Register::WZ => 17,
        }
    }

    /// Whether the name stands for a single byte.
    pub open spec fn is_byte(self) -> bool {
        self.ordinal() < 12
    }

    /// Whether the name stands for a 16-bit value.
    pub open spec fn is_word(self) -> bool {
        self.ordinal() >= 12
    }

    /// Whether the name is a view over two 8-bit registers.
    pub open spec fn is_pair(self) -> bool {
        self.ordinal() >= 14
    }

    /// Storage slot that holds the high byte of a 16-bit name.
    pub open spec fn high_slot(self) -> int
        recommends
            self.is_word(),
    {
        if self.is_pair() {
            2 * self.ordinal() - 24
        } else {
            2 * self.ordinal() - 11
        }
    }

    /// Storage slot that holds the low byte of a 16-bit name.
    pub open spec fn low_slot(self) -> int
        recommends
            self.is_word(),
    {
        if self.is_pair() {
            2 * self.ordinal() - 23
        } else {
            2 * self.ordinal() - 12
        }
    }

    /// The 8-bit register that holds the high byte of a pair.
    pub open spec fn high_half(self) -> Register
        recommends
            self.is_pair(),
    {
        match self {
            Register::BC => Register::B,
            Register::DE => Register::D,
            Register::HL => Register::H,
            _ => Register::W,
        }
    }

    /// The 8-bit register that holds the low byte of a pair.
    pub open spec fn low_half(self) -> Register
        recommends
            self.is_pair(),
    {
        match self {
            Register::BC => Register::C,
            Register::DE => Register::E,
            Register::HL => Register::L,
            _ => Register::Z,
        }
    }

    /// The general-purpose register selected by a three-bit opcode field:
    /// B, C, D, E, H, L for 0 to 5.
    pub fn data_register(index: u8) -> (register: Register)
        requires
            index < DATA_REGISTER_COUNT,
        ensures
            register.ordinal() == Register::B.ordinal() + index,
    {
        match index {
            0 => Register::B,
            1 => Register::C,
            2 => Register::D,
            3 => Register::E,
            4 => Register::H,
            _ => Register::L,
        }
    }

    /// The register pair selected by a two-bit opcode field: BC, DE, HL, WZ
    /// for 0 to 3.
    pub fn register_pair(index: u8) -> (register: Register)
        requires
            index < REGISTER_PAIR_COUNT,
        ensures
            register.ordinal() == Register::BC.ordinal() + index,
    {
        match index {
            0 => Register::BC,
            1 => Register::DE,
            2 => Register::HL,
            _ => Register::WZ,
        }
    }

    /// Position of the register in the order of declaration.
    pub fn index(&self) -> (i: usize)
        ensures
            i == self.ordinal(),
    {
        match self {
            Register::IR => 0,
            Register::IE => 1,
            Register::A => 2,
            Register::F => 3,
            Register::B => 4,
            Register::C => 5,
            Register::D => 6,
            Register::E => 7,
            Register::H => 8,
            Register::L => 9,
            Register::W => 10,
            Register::Z => 11,
            Register::PC => 12,
            Register::SP => 13,
            Register::BC => 14,
            Register::DE => 15,
            Register::HL => 16,
            Register::WZ => 17,
        }
    }

    /// Whether the name stands for a single byte.
    pub fn is_u8(&self) -> (b: bool)
        ensures
            b == self.is_byte(),
    {
        self.index() < 12
    }
}

/// The byte that `register` names in the storage `regs`.
pub open spec fn byte_at(regs: Seq<u8>, register: Register) -> u8
    recommends
        regs.len() == 16,
        register.is_byte(),
{
    regs[register.ordinal()]
}

/// The 16-bit value that `register` names in the storage `regs`.
pub open spec fn word_at(regs: Seq<u8>, register: Register) -> u16
    recommends
        regs.len() == 16,
        register.is_word(),
{
    (regs[register.high_slot()] * 256 + regs[register.low_slot()]) as u16
}

/// The storage `regs` after `value` was written to the byte `register`.
pub open spec fn store_byte(regs: Seq<u8>, register: Register, value: u8) -> Seq<u8>
    recommends
        regs.len() == 16,
        register.is_byte(),
{
    regs.update(register.ordinal(), value)
}

/// The storage `regs` after `value` was written to the low byte of `register`.
pub open spec fn store_low(regs: Seq<u8>, register: Register, value: u8) -> Seq<u8>
    recommends
        regs.len() == 16,
        register.is_word(),
{
    regs.update(register.low_slot(), value)
}

/// The storage `regs` after `value` was written to the high byte of `register`.
pub open spec fn store_high(regs: Seq<u8>, register: Register, value: u8) -> Seq<u8>
    recommends
        regs.len() == 16,
        register.is_word(),
{
    regs.update(register.high_slot(), value)
}

/// The storage `regs` after `value` was written to the 16-bit `register`.
pub open spec fn store_word(regs: Seq<u8>, register: Register, value: u16) -> Seq<u8>
    recommends
        regs.len() == 16,
        register.is_word(),
{
    store_low(store_high(regs, register, (value / 256) as u8), register, (value % 256) as u8)
}

/// What a reader takes from a data line: its value, or zero when it is empty.
pub open spec fn sampled(line: Option<u8>) -> u8 {
    match line {
        Some(v) => v,
        None => 0,
    }
}

/// Splitting a 16-bit value with shifts and joining two bytes with a shift
/// and an or agree with division, remainder and multiplication by 256.
pub proof fn lemma_word_bytes(high: u8, low: u8, value: u16)
    by (bit_vector)
    ensures
        ((high as u16) << 8) | (low as u16) == (high as u16) * 256 + (low as u16),
        (value >> 8) == value / 256,
        (value >> 8) < 256,
        (value as u8) == value % 256,
{
}

/// The storage behind every register.
pub struct RegisterFile {
    pub data: [u8; REGISTER_FILE_BYTES],
}

impl View for RegisterFile {
    type V = Seq<u8>;

    /// The sixteen bytes of storage.
    open spec fn view(&self) -> Seq<u8> {
        self.data@
    }
}

impl RegisterFile {
    /// A register file with every byte zero.
    pub fn new() -> (file: RegisterFile)
        ensures
            file@ == Seq::new(16, |i: int| 0u8),
    {
        let file = RegisterFile { data: [0;16] };
        assert(file@ =~= Seq::new(16, |i: int| 0u8));
        file
    }

    /// Reads an 8-bit register.
    pub fn read_u8(&self, register: Register) -> (value: u8)
        requires
            register.is_byte(),
        ensures
            value == byte_at(self@, register),
    {
        self.data[register.index()]
    }

    /// Reads a 16-bit register; for a pair, the high byte comes from its
    /// first half and the low byte from its second.
    pub fn read_u16(&self, register: Register) -> (value: u16)
        requires
            register.is_word(),
        ensures
            value == word_at(self@, register),
    {
        let index: usize = register.index();
        let (high, low): (u8, u8) = if index < 14 {
            let i: usize = 2 * index - 12;
            (self.data[i + 1], self.data[i])
        } else {
            let i: usize = 2 * index - 24;
            (self.data[i], self.data[i + 1])
        };
        proof {
            lemma_word_bytes(high, low, 0);
        }
        ((high as u16) << 8) | (low as u16)
    }

    /// The low byte of a 16-bit register.
    pub fn read_u16_low(&self, register: Register) -> (value: u8)
        requires
            register.is_word(),
        ensures
            value == word_at(self@, register) % 256,
            value == self@[register.low_slot()],
    {
        let word: u16 = self.read_u16(register);
        proof {
            lemma_word_bytes(0, 0, word);
        }
        #[verifier::truncate]
        (word as u8)
    }

    /// The high byte of a 16-bit register.
    pub fn read_u16_high(&self, register: Register) -> (value: u8)
        requires
            register.is_word(),
        ensures
            value == word_at(self@, register) / 256,
            value == self@[register.high_slot()],
    {
        let word: u16 = self.read_u16(register);
        proof {
            lemma_word_bytes(0, 0, word);
        }
        ((word >> 8) as u8)
    }

    /// Writes an 8-bit register.
    pub fn write_u8(&mut self, register: Register, value: u8)
        requires
            register.is_byte(),
        ensures
            final(self)@ == store_byte(old(self)@, register, value),
    {
        self.data[register.index()] = value;
        assert(self@ =~= store_byte(old(self)@, register, value));
    }

    /// Writes the low byte of a 16-bit register and leaves its high byte.
    pub fn write_u16_low(&mut self, register: Register, value: u8)
        requires
            register.is_word(),
        ensures
            final(self)@ == store_low(old(self)@, register, value),
    {
        let index: usize = register.index();
        let slot: usize = if index < 14 {
            2 * index - 12
        } else {
            2 * index - 23
        };
        self.data[slot] = value;
        assert(self@ =~= store_low(old(self)@, register, value));
    }

    /// Writes the high byte of a 16-bit register and leaves its low byte.
    pub fn write_u16_high(&mut self, register: Register, value: u8)
        requires
            register.is_word(),
        ensures
            final(self)@ == store_high(old(self)@, register, value),
    {
        let index: usize = register.index();
        let slot: usize = if index < 14 {
            2 * index - 11
        } else {
            2 * index - 24
        };
        self.data[slot] = value;
        assert(self@ =~= store_high(old(self)@, register, value));
    }

    /// Writes a 16-bit register; for a pair, the write goes through to its
    /// two halves.
    pub fn write_u16(&mut self, register: Register, value: u16)
        requires
            register.is_word(),
        ensures
            final(self)@ == store_word(old(self)@, register, value),
    {
        proof {
            lemma_word_bytes(0, 0, value);
        }
        self.write_u16_high(register, (value >> 8) as u8);
        self.write_u16_low(
            register,
            #[verifier::truncate]
            (value as u8),
        );
    }

    /// Latches the value on the data bus into an 8-bit register; an empty bus
    /// reads as zero.
    pub fn read_data_bus(&mut self, register: Register, data_bus: &Bus<u8>)
        requires
            register.is_byte(),
        ensures
            final(self)@ == store_byte(old(self)@, register, sampled(data_bus@)),
    {
        let data: u8 = match data_bus.read() {
            Some(v) => v,
            None => 0,
        };
        self.write_u8(register, data);
    }

    /// Drives an 8-bit register onto the data bus.
    pub fn write_data_bus(&self, register: Register, data_bus: &mut Bus<u8>)
        requires
            register.is_byte(),
        ensures
            final(data_bus)@ == Some(byte_at(self@, register)),
    {
        let data: u8 = self.read_u8(register);
        data_bus.write(data);
    }

    /// Drives a 16-bit register onto the address bus.
    pub fn write_address_bus(&self, register: Register, address_bus: &mut Bus<u16>)
        requires
            register.is_word(),
        ensures
            final(address_bus)@ == Some(word_at(self@, register)),
    {
        let data: u16 = self.read_u16(register);
        address_bus.write(data);
    }

    /// The condition flags as the F register holds them now.
    pub fn flags(&self) -> (flags: Flags)
        ensures
            flags.data == byte_at(self@, Register::F),
    {
        Flags::from_u8(self.read_u8(Register::F))
    }
}

/// A 16-bit write is read back unchanged through the same name, and a write
/// to a pair shows its high and low byte in the pair's two halves.
pub proof fn lemma_word_round_trip(regs: Seq<u8>, register: Register, value: u16)
    requires
        regs.len() == 16,
        register.is_word(),
    ensures
        word_at(store_word(regs, register, value), register) == value,
        register.is_pair() ==> byte_at(store_word(regs, register, value), register.high_half())
            == value / 256,
        register.is_pair() ==> byte_at(store_word(regs, register, value), register.low_half())
            == value % 256,
{
}

/// A write to either half of a pair shows in the pair's 16-bit value, and the
/// other half keeps its byte.
pub proof fn lemma_pair_halves(regs: Seq<u8>, pair: Register, value: u8)
    requires
        regs.len() == 16,
        pair.is_pair(),
    ensures
        word_at(store_byte(regs, pair.high_half(), value), pair) == value * 256 + byte_at(
            regs,
            pair.low_half(),
        ),
        word_at(store_byte(regs, pair.low_half(), value), pair) == byte_at(regs, pair.high_half())
            * 256 + value,
{
}

} // verus!
