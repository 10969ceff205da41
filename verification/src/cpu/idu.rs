//! The 16-bit increment/decrement unit.
//!
//! The unit takes the value on the address bus, moves it by at most one and
//! hands the result to the register file. It works beside the ALU and never
//! touches the flags.
use crate::bus::Bus;
use crate::cpu::register_file::{lemma_word_bytes, store_byte, store_word};
use crate::cpu::register_file::{Register, RegisterFile};
use vstd::prelude::*;

verus! {

/// What a reader takes from an address line: its value, or zero when it is
/// empty.
pub open spec fn sampled_address(line: Option<u16>) -> u16 {
    match line {
        Some(v) => v,
        None => 0,
    }
}

/// The increment/decrement unit. It keeps no state between cycles.
pub struct IDU {}

impl IDU {
    pub fn new() -> (unit: IDU)
        ensures
            unit == (IDU {  }),
    {
        IDU {  }
    }

    /// The address on the bus, or zero where the bus is empty.
    fn address(address_bus: &Bus<u16>) -> (address: u16)
        ensures
            address == sampled_address(address_bus@),
    {
        match address_bus.read() {
            Some(v) => v,
            None => 0,
        }
    }

    /// Passes the address on the bus through into a 16-bit register.
    pub fn write_into(
        &self,
        address_bus: &Bus<u16>,
        register_file: &mut RegisterFile,
        register: Register,
    )
        requires
            register.is_word(),
        ensures
            final(register_file)@ == store_word(
                old(register_file)@,
                register,
                sampled_address(address_bus@),
            ),
    {
        let address: u16 = Self::address(address_bus);
        register_file.write_u16(register, address)
    }

    /// Stores the address on the bus plus one, modulo 65536, into a 16-bit
    /// register.
    pub fn increment_into(
        &self,
        address_bus: &Bus<u16>,
        register_file: &mut RegisterFile,
        register: Register,
    )
        requires
            register.is_word(),
        ensures
            final(register_file)@ == store_word(
                old(register_file)@,
                register,
                ((sampled_address(address_bus@) + 1) % 0x10000) as u16,
            ),
    {
        let address: u16 = Self::address(address_bus);
        register_file.write_u16(register, address.wrapping_add(1))
    }

    /// Stores the address on the bus minus one, modulo 65536, into a 16-bit
    /// register.
    pub fn decrement_into(
        &self,
        address_bus: &Bus<u16>,
        register_file: &mut RegisterFile,
        register: Register,
    )
        requires
            register.is_word(),
        ensures
            final(register_file)@ == store_word(
                old(register_file)@,
                register,
                ((sampled_address(address_bus@) - 1) % 0x10000) as u16,
            ),
    {
        let address: u16 = Self::address(address_bus);
        register_file.write_u16(register, address.wrapping_sub(1))
    }

    /// Stores the low byte of the address on the bus, moved by `adjustment`
    /// modulo 256, into an 8-bit register.
    pub fn adjust_u8_into(
        &self,
        address_bus: &Bus<u16>,
        register_file: &mut RegisterFile,
        register: Register,
        adjustment: i32,
    )
        requires
            register.is_byte(),
            -1 <= adjustment <= 1,
        ensures
            final(register_file)@ == store_byte(
                old(register_file)@,
                register,
                ((sampled_address(address_bus@) % 256 + adjustment) % 256) as u8,
            ),
    {
        let wide: u16 = Self::address(address_bus);
        proof {
            lemma_word_bytes(0, 0, wide);
        }
        let address: u8 = #[verifier::truncate]
        (wide as u8);

        let adjusted_address: u8 = if adjustment == 1 {
            address.wrapping_add(1)
        } else if adjustment == -1 {
            address.wrapping_sub(1)
        } else {
            address
        };

        register_file.write_u8(register, adjusted_address)
    }
}

} // verus!
