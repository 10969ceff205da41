//! The condition flags held in the low nibble of the F register.
use vstd::prelude::*;

verus! {

/// Bit of the zero flag.
pub const FLAG_Z: u8 = 0b0001;

/// Bit of the subtraction flag.
pub const FLAG_N: u8 = 0b0010;

/// Bit of the half-carry flag.
pub const FLAG_H: u8 = 0b0100;

/// Bit of the carry flag.
pub const FLAG_C: u8 = 0b1000;

/// Whether any bit selected by `mask` is set in `data`.
pub open spec fn bit_set(data: u8, mask: u8) -> bool {
    data & mask != 0
}

/// `data` with the bits selected by `mask` all set (`v`) or all cleared (`!v`).
pub open spec fn put_bits(data: u8, mask: u8, v: bool) -> u8 {
    if v {
        data | mask
    } else {
        data & !mask
    }
}

/// A view over one value of the F register with named access to each flag.
#[derive(Clone, Copy, Debug)]
pub struct Flags {
    pub data: u8,
}

impl Flags {
    /// The zero flag.
    pub open spec fn z(self) -> bool {
        bit_set(self.data, FLAG_Z)
    }

    /// The subtraction flag.
    pub open spec fn n(self) -> bool {
        bit_set(self.data, FLAG_N)
    }

    /// The half-carry flag.
    pub open spec fn h(self) -> bool {
        bit_set(self.data, FLAG_H)
    }

    /// The carry flag.
    pub open spec fn c(self) -> bool {
        bit_set(self.data, FLAG_C)
    }

    /// The four bits of the byte that hold no flag.
    pub open spec fn spare(self) -> u8 {
        self.data & 0xF0
    }

    /// These flags with the zero flag replaced.
    pub open spec fn with_z(self, v: bool) -> Flags {
        Flags { data: put_bits(self.data, FLAG_Z, v) }
    }

    /// These flags with the subtraction flag replaced.
    pub open spec fn with_n(self, v: bool) -> Flags {
        Flags { data: put_bits(self.data, FLAG_N, v) }
    }

    /// These flags with the half-carry flag replaced.
    pub open spec fn with_h(self, v: bool) -> Flags {
        Flags { data: put_bits(self.data, FLAG_H, v) }
    }

    /// These flags with the carry flag replaced.
    pub open spec fn with_c(self, v: bool) -> Flags {
        Flags { data: put_bits(self.data, FLAG_C, v) }
    }

    /// Wraps a byte read from the F register.
    pub fn from_u8(data: u8) -> (flags: Flags)
        ensures
            flags.data == data,
    {
        Flags { data }
    }

    /// The byte to store back into the F register.
    pub fn to_u8(&self) -> (data: u8)
        ensures
            data == self.data,
    {
        self.data
    }

    pub fn get_z(&self) -> (v: bool)
        ensures
            v == self.z(),
    {
        self.data & FLAG_Z != 0
    }

    pub fn get_n(&self) -> (v: bool)
        ensures
            v == self.n(),
    {
        self.data & FLAG_N != 0
    }

    pub fn get_h(&self) -> (v: bool)
        ensures
            v == self.h(),
    {
        self.data & FLAG_H != 0
    }

    pub fn get_c(&self) -> (v: bool)
        ensures
            v == self.c(),
    {
        self.data & FLAG_C != 0
    }

    /// Sets or clears the bits selected by `mask`, leaving the others alone.
    pub fn set(&mut self, mask: u8, v: bool)
        ensures
            final(self).data == put_bits(old(self).data, mask, v),
    {
        let set: u8 = self.data | mask;
        let unset: u8 = self.data & !mask;
        self.data = if v {
            set
        } else {
            unset
        };
    }

    pub fn set_z(&mut self, v: bool)
        ensures
            *final(self) == old(self).with_z(v),
    {
        self.set(FLAG_Z, v)
    }

    pub fn set_n(&mut self, v: bool)
        ensures
            *final(self) == old(self).with_n(v),
    {
        self.set(FLAG_N, v)
    }

    pub fn set_h(&mut self, v: bool)
        ensures
            *final(self) == old(self).with_h(v),
    {
        self.set(FLAG_H, v)
    }

    pub fn set_c(&mut self, v: bool)
        ensures
            *final(self) == old(self).with_c(v),
    {
        self.set(FLAG_C, v)
    }
}

/// Setting a bit makes it read as set and disturbs no other bit of the byte.
pub proof fn lemma_raise_bit(d: u8)
    by (bit_vector)
    ensures
        (d | 1) & 1 != 0 && ((d | 1) & 2 != 0) == (d & 2 != 0) && ((d | 1) & 4 != 0) == (d & 4 != 0)
            && ((d | 1) & 8 != 0) == (d & 8 != 0) && (d | 1) & 0xF0 == d & 0xF0,
        (d | 2) & 2 != 0 && ((d | 2) & 1 != 0) == (d & 1 != 0) && ((d | 2) & 4 != 0) == (d & 4 != 0)
            && ((d | 2) & 8 != 0) == (d & 8 != 0) && (d | 2) & 0xF0 == d & 0xF0,
        (d | 4) & 4 != 0 && ((d | 4) & 1 != 0) == (d & 1 != 0) && ((d | 4) & 2 != 0) == (d & 2 != 0)
            && ((d | 4) & 8 != 0) == (d & 8 != 0) && (d | 4) & 0xF0 == d & 0xF0,
        (d | 8) & 8 != 0 && ((d | 8) & 1 != 0) == (d & 1 != 0) && ((d | 8) & 2 != 0) == (d & 2 != 0)
            && ((d | 8) & 4 != 0) == (d & 4 != 0) && (d | 8) & 0xF0 == d & 0xF0,
{
}

/// Clearing a bit makes it read as clear and disturbs no other bit of the byte.
pub proof fn lemma_lower_bit(d: u8)
    by (bit_vector)
    ensures
        (d & !1u8) & 1 == 0 && ((d & !1u8) & 2 != 0) == (d & 2 != 0) && ((d & !1u8) & 4 != 0) == (d
            & 4 != 0) && ((d & !1u8) & 8 != 0) == (d & 8 != 0) && (d & !1u8) & 0xF0 == d & 0xF0,
        (d & !2u8) & 2 == 0 && ((d & !2u8) & 1 != 0) == (d & 1 != 0) && ((d & !2u8) & 4 != 0) == (d
            & 4 != 0) && ((d & !2u8) & 8 != 0) == (d & 8 != 0) && (d & !2u8) & 0xF0 == d & 0xF0,
        (d & !4u8) & 4 == 0 && ((d & !4u8) & 1 != 0) == (d & 1 != 0) && ((d & !4u8) & 2 != 0) == (d
            & 2 != 0) && ((d & !4u8) & 8 != 0) == (d & 8 != 0) && (d & !4u8) & 0xF0 == d & 0xF0,
        (d & !8u8) & 8 == 0 && ((d & !8u8) & 1 != 0) == (d & 1 != 0) && ((d & !8u8) & 2 != 0) == (d
            & 2 != 0) && ((d & !8u8) & 4 != 0) == (d & 4 != 0) && (d & !8u8) & 0xF0 == d & 0xF0,
{
}

/// Writing one flag is read back by its getter and leaves the other three
/// flags and the spare bits as they were.
pub proof fn lemma_flag_write(f: Flags, v: bool)
    ensures
        f.with_z(v).z() == v,
        f.with_z(v).n() == f.n() && f.with_z(v).h() == f.h() && f.with_z(v).c() == f.c(),
        f.with_n(v).n() == v,
        f.with_n(v).z() == f.z() && f.with_n(v).h() == f.h() && f.with_n(v).c() == f.c(),
        f.with_h(v).h() == v,
        f.with_h(v).z() == f.z() && f.with_h(v).n() == f.n() && f.with_h(v).c() == f.c(),
        f.with_c(v).c() == v,
        f.with_c(v).z() == f.z() && f.with_c(v).n() == f.n() && f.with_c(v).h() == f.h(),
        f.with_z(v).spare() == f.spare(),
        f.with_n(v).spare() == f.spare(),
        f.with_h(v).spare() == f.spare(),
        f.with_c(v).spare() == f.spare(),
{
    lemma_raise_bit(f.data);
    lemma_lower_bit(f.data);
}

} // verus!
