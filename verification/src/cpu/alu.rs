//! The 8-bit arithmetic-logic unit.
//!
//! The unit owns one working buffer. Every operation reads its operands from
//! the buffer and the register file, leaves its result in the buffer and
//! records the condition flags in the F register.
use crate::bus::Bus;
use crate::cpu::flags::{lemma_flag_write, Flags};
use crate::cpu::register_file::{byte_at, store_byte, store_high, store_low, word_at};
use crate::cpu::register_file::{Register, RegisterFile};
use vstd::prelude::*;

verus! {

/// A carry or borrow as a number.
#[verifier::inline]
pub open spec fn unit(c: bool) -> int {
    if c {
        1
    } else {
        0
    }
}

/// The low eight bits of `a + b + c`.
pub open spec fn sum_byte(a: u8, b: u8, c: bool) -> u8 {
    ((a + b + unit(c)) % 256) as u8
}

/// Whether `a + b + c`, taken below `span` only, reaches `span`: with `span`
/// the weight of bit `i + 1`, the carry out of bit `i`.
#[verifier::inline]
pub open spec fn carries_past(a: u8, b: u8, c: bool, span: int) -> bool {
    (a as int) % span + (b as int) % span + unit(c) >= span
}

/// One bit per position: bit `i` is set when `a + b + c` carries out of bit `i`.
pub open spec fn carry_bitmap(a: u8, b: u8, c: bool) -> u8 {
    (unit(carries_past(a, b, c, 2)) + 2 * unit(carries_past(a, b, c, 4)) + 4 * unit(
        carries_past(a, b, c, 8),
    ) + 8 * unit(carries_past(a, b, c, 16)) + 16 * unit(carries_past(a, b, c, 32)) + 32 * unit(
        carries_past(a, b, c, 64),
    ) + 64 * unit(carries_past(a, b, c, 128)) + 128 * unit(carries_past(a, b, c, 256))) as u8
}

/// The low eight bits of `a - b - c`.
pub open spec fn difference_byte(a: u8, b: u8, c: bool) -> u8 {
    ((a - b - unit(c)) % 256) as u8
}

/// Whether `a - b - c`, taken below `span` only, falls below zero: with
/// `span` the weight of bit `i + 1`, the borrow out of bit `i`.
#[verifier::inline]
pub open spec fn borrows_past(a: u8, b: u8, c: bool, span: int) -> bool {
    (a as int) % span < (b as int) % span + unit(c)
}

/// One bit per position: bit `i` is set when `a - b - c` borrows out of bit `i`.
pub open spec fn borrow_bitmap(a: u8, b: u8, c: bool) -> u8 {
    (unit(borrows_past(a, b, c, 2)) + 2 * unit(borrows_past(a, b, c, 4)) + 4 * unit(
        borrows_past(a, b, c, 8),
    ) + 8 * unit(borrows_past(a, b, c, 16)) + 16 * unit(borrows_past(a, b, c, 32)) + 32 * unit(
        borrows_past(a, b, c, 64),
    ) + 64 * unit(borrows_past(a, b, c, 128)) + 128 * unit(borrows_past(a, b, c, 256))) as u8
}

/// What an operation of the unit leaves behind: the byte in the buffer and
/// the condition flags.
pub struct Outcome {
    pub value: u8,
    pub flags: Flags,
}

/// The flags that `regs` holds in its F register.
pub open spec fn flags_of(regs: Seq<u8>) -> Flags {
    Flags { data: byte_at(regs, Register::F) }
}

/// `a + b + carry`: Z from the result, N cleared, H and C from the carries
/// out of bit 3 and bit 7.
pub open spec fn add_outcome(a: u8, b: u8, carry: bool, f: Flags) -> Outcome {
    let value = sum_byte(a, b, carry);
    Outcome {
        value,
        flags: f.with_z(value == 0).with_n(false).with_h(carries_past(a, b, carry, 16)).with_c(
            carries_past(a, b, carry, 256),
        ),
    }
}

/// `a - b - borrow`: Z from the result, N set, H and C from the borrows out
/// of bit 3 and bit 7.
pub open spec fn sub_outcome(a: u8, b: u8, borrow: bool, f: Flags) -> Outcome {
    let value = difference_byte(a, b, borrow);
    Outcome {
        value,
        flags: f.with_z(value == 0).with_n(true).with_h(borrows_past(a, b, borrow, 16)).with_c(
            borrows_past(a, b, borrow, 256),
        ),
    }
}

/// `a + 1`: Z from the result, N cleared, H from the carry out of bit 3; C
/// stays.
pub open spec fn increment_outcome(a: u8, f: Flags) -> Outcome {
    let value = sum_byte(a, 1, false);
    Outcome {
        value,
        flags: f.with_z(value == 0).with_n(false).with_h(carries_past(a, 1, false, 16)),
    }
}

/// `a - 1`: Z from the result, N set, H from the borrow out of bit 3; C
/// stays.
pub open spec fn decrement_outcome(a: u8, f: Flags) -> Outcome {
    let value = difference_byte(a, 1, false);
    Outcome {
        value,
        flags: f.with_z(value == 0).with_n(true).with_h(borrows_past(a, 1, false, 16)),
    }
}

/// The flags after a logic operation that gave `value`: Z from the result, N
/// and C cleared, H as given.
pub open spec fn logic_flags(value: u8, half: bool, f: Flags) -> Flags {
    f.with_z(value == 0).with_n(false).with_h(half).with_c(false)
}

/// The low pass of a 16-bit addition: `a + b`, N cleared, H and C from the
/// carries out of bit 3 and bit 7; Z stays.
pub open spec fn pair_low_outcome(a: u8, b: u8, f: Flags) -> Outcome {
    Outcome {
        value: sum_byte(a, b, false),
        flags: f.with_n(false).with_h(carries_past(a, b, false, 16)).with_c(
            carries_past(a, b, false, 256),
        ),
    }
}

/// The high pass of a 16-bit addition: `a + b` and the carry that the low
/// pass left in C, N cleared, H and C from the carries out of bit 3 and bit
/// 7; Z stays.
pub open spec fn pair_high_outcome(a: u8, b: u8, f: Flags) -> Outcome {
    Outcome {
        value: sum_byte(a, b, f.c()),
        flags: f.with_n(false).with_h(carries_past(a, b, f.c(), 16)).with_c(
            carries_past(a, b, f.c(), 256),
        ),
    }
}

/// The low pass of adding a signed offset to a 16-bit register: `a + b`, Z
/// and N cleared, H and C from the carries out of bit 3 and bit 7.
pub open spec fn offset_low_outcome(a: u8, b: u8, f: Flags) -> Outcome {
    Outcome {
        value: sum_byte(a, b, false),
        flags: f.with_z(false).with_n(false).with_h(carries_past(a, b, false, 16)).with_c(
            carries_past(a, b, false, 256),
        ),
    }
}

/// The byte that extends the sign of `offset`: 0xFF below zero, else 0x00.
pub open spec fn sign_fill(offset: u8) -> u8 {
    if offset >= 128 {
        0xFF
    } else {
        0x00
    }
}

/// The high pass of adding a signed offset to a 16-bit register: the high
/// byte, the carry of the low pass and the sign fill of the offset, modulo
/// 256.
pub open spec fn offset_high_value(offset: u8, high: u8, carry: bool) -> u8 {
    ((high + unit(carry) + sign_fill(offset)) % 256) as u8
}

/// Decimal adjustment of `a` after an addition (N clear) or a subtraction (N
/// set) of two packed decimal bytes.
///
/// After an addition 0x60 is added when C is set or `a` exceeds 0x99, and C
/// is set then; 0x06 is added when H is set or the low digit exceeds 9. After
/// a subtraction 0x60 is taken off when C is set and 0x06 when H is set, and
/// C stays. Z is from the result and H is cleared.
pub open spec fn decimal_outcome(a: u8, f: Flags) -> Outcome {
    let high_fix = f.c() || (!f.n() && a > 0x99);
    let low_fix = f.h() || (!f.n() && a % 16 > 9);
    let amount = (if high_fix {
        0x60int
    } else {
        0
    }) + (if low_fix {
        0x06int
    } else {
        0
    });
    let value = if f.n() {
        ((a - amount) % 256) as u8
    } else {
        ((a + amount) % 256) as u8
    };
    let carried = if !f.n() && high_fix {
        f.with_c(true)
    } else {
        f
    };
    Outcome { value, flags: carried.with_z(value == 0).with_h(false) }
}

/// The flags after a rotation or a shift that gave `value` and pushed `lost`
/// out: Z from the result, N and H cleared, C the lost bit.
pub open spec fn shift_flags(value: u8, lost: bool, f: Flags) -> Flags {
    f.with_z(value == 0).with_n(false).with_h(false).with_c(lost)
}

/// `a` rotated left by one bit. Bit 7 goes to C; bit 0 is filled with the
/// old C (`through_carry`) or with the bit that left.
pub open spec fn rotate_left_outcome(a: u8, through_carry: bool, f: Flags) -> Outcome {
    let lost = a >= 128;
    let fill = if through_carry {
        f.c()
    } else {
        lost
    };
    let value = ((a * 2) % 256 + unit(fill)) as u8;
    Outcome { value, flags: shift_flags(value, lost, f) }
}

/// `a` rotated right by one bit. Bit 0 goes to C; bit 7 is filled with the
/// old C (`through_carry`) or with the bit that left.
pub open spec fn rotate_right_outcome(a: u8, through_carry: bool, f: Flags) -> Outcome {
    let lost = a % 2 == 1;
    let fill = if through_carry {
        f.c()
    } else {
        lost
    };
    let value = (a / 2 + 128 * unit(fill)) as u8;
    Outcome { value, flags: shift_flags(value, lost, f) }
}

/// `a` shifted left by one bit. Bit 7 goes to C and bit 0 is cleared.
pub open spec fn shift_left_outcome(a: u8, f: Flags) -> Outcome {
    let value = ((a * 2) % 256) as u8;
    Outcome { value, flags: shift_flags(value, a >= 128, f) }
}

/// `a` shifted right by one bit. Bit 0 goes to C; bit 7 keeps its value
/// (`arithmetic`) or is cleared.
pub open spec fn shift_right_outcome(a: u8, arithmetic: bool, f: Flags) -> Outcome {
    let value = (a / 2 + 128 * unit(arithmetic && a >= 128)) as u8;
    Outcome { value, flags: shift_flags(value, a % 2 == 1, f) }
}

/// `a` with its two nibbles exchanged: Z from the result, the other flags
/// cleared.
pub open spec fn swap_outcome(a: u8, f: Flags) -> Outcome {
    let value = ((a % 16) * 16 + a / 16) as u8;
    Outcome { value, flags: shift_flags(value, false, f) }
}

/// How far the high byte of the program counter moves when the signed
/// `offset` is added to its low byte `low`: up by one on a carry out of a
/// forward jump, down by one on a backward jump without carry, else not.
pub open spec fn relative_adjustment(offset: u8, low: u8) -> int {
    let carry = carries_past(offset, low, false, 256);
    if carry && offset < 128 {
        1
    } else if !carry && offset >= 128 {
        -1
    } else {
        0
    }
}

/// The value of a byte read as a signed number.
pub open spec fn signed(offset: u8) -> int {
    if offset >= 128 {
        offset - 256
    } else {
        offset as int
    }
}

/// The two passes that add a signed offset to a 16-bit value give the sum
/// modulo 65536: the low pass adds the offset to the low byte, the high pass
/// adds its carry and the sign fill of the offset to the high byte.
#[verifier::spinoff_prover]
pub proof fn lemma_offset_passes(word: u16, offset: u8)
    ensures
        ({
            let low = (word % 256) as u8;
            let high = (word / 256) as u8;
            let carry = carries_past(offset, low, false, 256);
            offset_high_value(offset, high, carry) * 256 + sum_byte(offset, low, false) == (word
                + signed(offset)) % 0x10000
        }),
{
}

/// The two passes that add two 16-bit values give the sum modulo 65536, and
/// the carries that the high pass leaves are those out of bit 15 and out of
/// bit 11.
#[verifier::spinoff_prover]
#[verifier::rlimit(50)]
pub proof fn lemma_pair_passes(a: u16, b: u16)
    ensures
        ({
            let carry = carries_past((a % 256) as u8, (b % 256) as u8, false, 256);
            let low = sum_byte((a % 256) as u8, (b % 256) as u8, false);
            let high = sum_byte((a / 256) as u8, (b / 256) as u8, carry);
            &&& high * 256 + low == (a + b) % 0x10000
            &&& carries_past((a / 256) as u8, (b / 256) as u8, carry, 256) == (a + b >= 0x10000)
            &&& carries_past((a / 256) as u8, (b / 256) as u8, carry, 16) == (a % 0x1000 + b
                % 0x1000 >= 0x1000)
        }),
{
    let al = (a % 256) as u8;
    let ah = (a / 256) as u8;
    let bl = (b % 256) as u8;
    let bh = (b / 256) as u8;
    let carry = carries_past(al, bl, false, 256);
    let low = sum_byte(al, bl, false);
    let high = sum_byte(ah, bh, carry);
    assert(a == ah * 256 + al);
    assert(b == bh * 256 + bl);
    assert(al + bl == low + 256 * unit(carry));
    let top = ah + bh + unit(carry);
    assert(top == high + 256 * unit(top >= 256));
    assert(a + b == high * 256 + low + 0x10000 * unit(top >= 256));
    assert(carries_past(ah, bh, carry, 256) == (top >= 256));
    assert(a % 0x1000 == (ah % 16) * 256 + al);
    assert(b % 0x1000 == (bh % 16) * 256 + bl);
}

/// A relative jump lands on the program counter plus the signed offset,
/// modulo 65536: the low byte is the sum of the offset and the low byte of
/// the program counter, and the high byte moves by the adjustment.
#[verifier::spinoff_prover]
pub proof fn lemma_relative_passes(pc: u16, offset: u8)
    ensures
        ({
            let low = (pc % 256) as u8;
            let high = (pc / 256) as u8;
            ((high + relative_adjustment(offset, low)) % 256) * 256 + sum_byte(offset, low, false)
                == (pc + signed(offset)) % 0x10000
        }),
{
}

/// Shifts, masks and complements of a byte, in numbers.
proof fn lemma_byte_shifts(a: u8, r: u8)
    by (bit_vector)
    requires
        r <= 1,
    ensures
        (a >> 7u8) <= 1,
        (a >> 7u8 == 1) == (a >= 128),
        (a >> 7u8 == 0) == (a < 128),
        (a & 1) <= 1,
        (a & 1 == 1) == (a % 2u8 == 1),
        ((a << 1u8) | r) + (if a >= 128 { 256u32 } else { 0u32 }) == a * 2 + r,
        (a << 1u8) + (if a >= 128 { 256u32 } else { 0u32 }) == a * 2,
        ((a >> 1u8) | (r << 7u8)) == a / 2u8 + 128 * r,
        ((a << 4u8) | (a >> 4u8)) == (a % 16u8) * 16 + a / 16u8,
        (a & 0x0f) == a % 16u8,
{
}

/// The carry into every bit of `a + b + c`, bit 8 being the carry out of bit 7.
spec fn carry_chain(a: u8, b: u8, c: u8) -> u32 {
    (((a as u32) + (b as u32) + (c as u32)) as u32) ^ (a as u32) ^ (b as u32)
}

/// The borrow into every bit of `a - b - c`, bit 8 being the borrow out of bit 7.
spec fn borrow_chain(a: u8, b: u8, c: u8) -> u32 {
    (((a as u32) + 512 - (b as u32) - (c as u32)) as u32) ^ (a as u32) ^ (b as u32)
}

/// The bits below position `i`.
spec fn below(i: u32) -> u32 {
    ((1u32 << i) - 1) as u32
}

/// Before the first position the carry into bit 0 is the carry handed in,
/// and nothing has been gathered.
proof fn lemma_adder_start(a: u8, b: u8, c: u8, i: u8)
    by (bit_vector)
    requires
        c <= 1,
        i == 0,
    ensures
        c as u32 == (carry_chain(a, b, c) >> (i as u32)) & 1,
        0u32 == ((a as u32) + (b as u32) + (c as u32)) as u32 & below(i as u32),
        0u32 == (carry_chain(a, b, c) >> 1) & below(i as u32),
{
}

/// One position of the ripple adder: from the carry into bit `i` and the sum
/// and carries below it to the carry into bit `i + 1` and the sum and carries
/// below that.
proof fn lemma_adder_step(a: u8, b: u8, c: u8, i: u8, carry: u8, result: u8, carries: u8)
    by (bit_vector)
    requires
        i < 8,
        c <= 1,
        carry as u32 == (carry_chain(a, b, c) >> (i as u32)) & 1,
        result as u32 == ((a as u32) + (b as u32) + (c as u32)) as u32 & below(i as u32),
        carries as u32 == (carry_chain(a, b, c) >> 1) & below(i as u32),
    ensures
        (a >> i) & 1 <= 1,
        (b >> i) & 1 <= 1,
        carry <= 1,
        ({
            let sum = (((a >> i) & 1) + ((b >> i) & 1) + carry) as u8;
            let bit = sum & 1;
            let next = (sum >> 1) & 1;
            &&& bit <= 1
            &&& next <= 1
            &&& next as u32 == (carry_chain(a, b, c) >> ((i + 1) as u32)) & 1
            &&& (result | (bit << i)) as u32 == ((a as u32) + (b as u32) + (c as u32)) as u32
                & below((i + 1) as u32)
            &&& (if next == 1 {
                carries | (1u8 << i)
            } else {
                carries
            }) as u32 == (carry_chain(a, b, c) >> 1) & below((i + 1) as u32)
        }),
{
}

/// What the ripple adder has gathered after the last position, in numbers.
proof fn lemma_adder_total(a: u8, b: u8, c: u8, i: u8, result: u8, carries: u8)
    by (bit_vector)
    requires
        c <= 1,
        i == 8,
        result as u32 == ((a as u32) + (b as u32) + (c as u32)) as u32 & below(i as u32),
        carries as u32 == (carry_chain(a, b, c) >> 1) & below(i as u32),
    ensures
        a + b + c == result + (if carries & 128 != 0 { 256u32 } else { 0u32 }),
        (carries & 1 != 0) == (a % 2u8 + b % 2u8 + c >= 2),
        (carries & 2 != 0) == (a % 4u8 + b % 4u8 + c >= 4),
        (carries & 4 != 0) == (a % 8u8 + b % 8u8 + c >= 8),
        (carries & 8 != 0) == (a % 16u8 + b % 16u8 + c >= 16),
        (carries & 16 != 0) == (a % 32u8 + b % 32u8 + c >= 32),
        (carries & 32 != 0) == (a % 64u8 + b % 64u8 + c >= 64),
        (carries & 64 != 0) == (a % 128u8 + b % 128u8 + c >= 128),
        (carries & 128 != 0) == (a + b + c >= 256),
        ((carries >> 3u8) & 1 == 1) == (carries & 8 != 0),
        ((carries >> 7u8) & 1 == 1) == (carries & 128 != 0),
{
}

/// Before the first position the borrow into bit 0 is the borrow handed in,
/// and nothing has been gathered.
proof fn lemma_subtractor_start(a: u8, b: u8, c: u8, i: u8)
    by (bit_vector)
    requires
        c <= 1,
        i == 0,
    ensures
        c as u32 == (borrow_chain(a, b, c) >> (i as u32)) & 1,
        0u32 == ((a as u32) + 512 - (b as u32) - (c as u32)) as u32 & below(i as u32),
        0u32 == (borrow_chain(a, b, c) >> 1) & below(i as u32),
{
}

/// One position of the ripple subtractor: from the borrow into bit `i` and
/// the difference and borrows below it to the borrow into bit `i + 1` and the
/// difference and borrows below that.
proof fn lemma_subtractor_step(a: u8, b: u8, c: u8, i: u8, borrow: u8, result: u8, borrows: u8)
    by (bit_vector)
    requires
        i < 8,
        c <= 1,
        borrow as u32 == (borrow_chain(a, b, c) >> (i as u32)) & 1,
        result as u32 == ((a as u32) + 512 - (b as u32) - (c as u32)) as u32 & below(i as u32),
        borrows as u32 == (borrow_chain(a, b, c) >> 1) & below(i as u32),
    ensures
        (a >> i) & 1 <= 1,
        (b >> i) & 1 <= 1,
        borrow <= 1,
        0u8 & 1 == 0,
        1u8 & 1 == 1,
        ({
            let bit_a = (a >> i) & 1;
            let need = (((b >> i) & 1) + borrow) as u8;
            let next = if bit_a < need {
                1u8
            } else {
                0u8
            };
            let bit = if bit_a == need || bit_a + 2 == need {
                0u8
            } else {
                1u8
            };
            &&& next as u32 == (borrow_chain(a, b, c) >> ((i + 1) as u32)) & 1
            &&& (result | (bit << i)) as u32 == ((a as u32) + 512 - (b as u32) - (c as u32)) as u32
                & below((i + 1) as u32)
            &&& (if next == 1 {
                borrows | (1u8 << i)
            } else {
                borrows
            }) as u32 == (borrow_chain(a, b, c) >> 1) & below((i + 1) as u32)
        }),
{
}

/// What the ripple subtractor has gathered after the last position, in numbers.
proof fn lemma_subtractor_total(a: u8, b: u8, c: u8, i: u8, result: u8, borrows: u8)
    by (bit_vector)
    requires
        c <= 1,
        i == 8,
        result as u32 == ((a as u32) + 512 - (b as u32) - (c as u32)) as u32 & below(i as u32),
        borrows as u32 == (borrow_chain(a, b, c) >> 1) & below(i as u32),
    ensures
        a + (if borrows & 128 != 0 { 256u32 } else { 0u32 }) == result + b + c,
        (borrows & 1 != 0) == (a % 2u8 < b % 2u8 + c),
        (borrows & 2 != 0) == (a % 4u8 < b % 4u8 + c),
        (borrows & 4 != 0) == (a % 8u8 < b % 8u8 + c),
        (borrows & 8 != 0) == (a % 16u8 < b % 16u8 + c),
        (borrows & 16 != 0) == (a % 32u8 < b % 32u8 + c),
        (borrows & 32 != 0) == (a % 64u8 < b % 64u8 + c),
        (borrows & 64 != 0) == (a % 128u8 < b % 128u8 + c),
        (borrows & 128 != 0) == (a < b + c),
        ((borrows >> 3u8) & 1 == 1) == (borrows & 8 != 0),
        ((borrows >> 7u8) & 1 == 1) == (borrows & 128 != 0),
{
}

/// A byte is the sum of its bits.
proof fn lemma_byte_bits(x: u8)
    by (bit_vector)
    ensures
        x == (if x & 1 != 0 { 1u8 } else { 0 }) + (if x & 2 != 0 { 2u8 } else { 0 }) + (if x & 4
            != 0 { 4u8 } else { 0 }) + (if x & 8 != 0 { 8u8 } else { 0 }) + (if x & 16 != 0 {
            16u8
        } else {
            0
        }) + (if x & 32 != 0 { 32u8 } else { 0 }) + (if x & 64 != 0 { 64u8 } else { 0 }) + (if x
            & 128 != 0 { 128u8 } else { 0 }),
{
}

/// The byte that has a bit set wherever the flag for its position is set.
spec fn packed(b0: bool, b1: bool, b2: bool, b3: bool, b4: bool, b5: bool, b6: bool, b7: bool) -> int {
    unit(b0) + 2 * unit(b1) + 4 * unit(b2) + 8 * unit(b3) + 16 * unit(b4) + 32 * unit(b5) + 64
        * unit(b6) + 128 * unit(b7)
}

/// A byte is packed from its bits.
proof fn lemma_byte_is_packed(x: u8)
    ensures
        x == packed(
            x & 1 != 0,
            x & 2 != 0,
            x & 4 != 0,
            x & 8 != 0,
            x & 16 != 0,
            x & 32 != 0,
            x & 64 != 0,
            x & 128 != 0,
        ),
{
    lemma_byte_bits(x);
}

/// From the adder's total and the carry out of each position to the sum byte
/// and the carry bitmap.
#[verifier::spinoff_prover]
#[verifier::rlimit(50)]
proof fn lemma_sum_in_numbers(a: u8, b: u8, c: bool, result: u8, carries: u8)
    requires
        a + b + unit(c) == result + (if carries & 128 != 0 { 256int } else { 0int }),
        (carries & 1 != 0) == carries_past(a, b, c, 2),
        (carries & 2 != 0) == carries_past(a, b, c, 4),
        (carries & 4 != 0) == carries_past(a, b, c, 8),
        (carries & 8 != 0) == carries_past(a, b, c, 16),
        (carries & 16 != 0) == carries_past(a, b, c, 32),
        (carries & 32 != 0) == carries_past(a, b, c, 64),
        (carries & 64 != 0) == carries_past(a, b, c, 128),
        (carries & 128 != 0) == carries_past(a, b, c, 256),
    ensures
        result == sum_byte(a, b, c),
        carries == carry_bitmap(a, b, c),
{
    assert(result == sum_byte(a, b, c)) by {
        let total = a + b + unit(c);
        if carries & 128 != 0 {
            assert(total == result + 256);
            assert((result + 256) % 256 == result);
        } else {
            assert(total == result);
            assert((result as int) % 256 == result);
        }
    }
    assert(carries == carry_bitmap(a, b, c)) by {
        lemma_byte_is_packed(carries);
        assert(carry_bitmap(a, b, c) == packed(
            carries_past(a, b, c, 2),
            carries_past(a, b, c, 4),
            carries_past(a, b, c, 8),
            carries_past(a, b, c, 16),
            carries_past(a, b, c, 32),
            carries_past(a, b, c, 64),
            carries_past(a, b, c, 128),
            carries_past(a, b, c, 256),
        ) as u8);
    }
}

/// From the subtractor's total and the borrow out of each position to the
/// difference byte and the borrow bitmap.
#[verifier::spinoff_prover]
#[verifier::rlimit(50)]
proof fn lemma_difference_in_numbers(a: u8, b: u8, c: bool, result: u8, borrows: u8)
    requires
        a + (if borrows & 128 != 0 { 256int } else { 0int }) == result + b + unit(c),
        (borrows & 1 != 0) == borrows_past(a, b, c, 2),
        (borrows & 2 != 0) == borrows_past(a, b, c, 4),
        (borrows & 4 != 0) == borrows_past(a, b, c, 8),
        (borrows & 8 != 0) == borrows_past(a, b, c, 16),
        (borrows & 16 != 0) == borrows_past(a, b, c, 32),
        (borrows & 32 != 0) == borrows_past(a, b, c, 64),
        (borrows & 64 != 0) == borrows_past(a, b, c, 128),
        (borrows & 128 != 0) == borrows_past(a, b, c, 256),
    ensures
        result == difference_byte(a, b, c),
        borrows == borrow_bitmap(a, b, c),
{
    assert(result == difference_byte(a, b, c)) by {
        let total = a - b - unit(c);
        if borrows & 128 != 0 {
            assert(total == result - 256);
            assert((result - 256) % 256 == result);
        } else {
            assert(total == result);
            assert((result as int) % 256 == result);
        }
    }
    assert(borrows == borrow_bitmap(a, b, c)) by {
        lemma_byte_is_packed(borrows);
        assert(borrow_bitmap(a, b, c) == packed(
            borrows_past(a, b, c, 2),
            borrows_past(a, b, c, 4),
            borrows_past(a, b, c, 8),
            borrows_past(a, b, c, 16),
            borrows_past(a, b, c, 32),
            borrows_past(a, b, c, 64),
            borrows_past(a, b, c, 128),
            borrows_past(a, b, c, 256),
        ) as u8);
    }
}

/// What the ripple adder returns after the last position.
#[verifier::spinoff_prover]
#[verifier::rlimit(50)]
proof fn lemma_adder_finish(a: u8, b: u8, c: bool, c0: u8, i: u8, result: u8, carries: u8)
    requires
        c0 == unit(c),
        i == 8,
        result as u32 == ((a as u32) + (b as u32) + (c0 as u32)) as u32 & below(i as u32),
        carries as u32 == (carry_chain(a, b, c0) >> 1) & below(i as u32),
    ensures
        result == sum_byte(a, b, c),
        carries == carry_bitmap(a, b, c),
        ((carries >> 3u8) & 1 == 1) == carries_past(a, b, c, 16),
        ((carries >> 7u8) & 1 == 1) == carries_past(a, b, c, 256),
{
    lemma_adder_total(a, b, c0, i, result, carries);
    assert((carries & 1 != 0) == carries_past(a, b, c, 2));
    assert((carries & 2 != 0) == carries_past(a, b, c, 4));
    assert((carries & 4 != 0) == carries_past(a, b, c, 8));
    assert((carries & 8 != 0) == carries_past(a, b, c, 16));
    assert((carries & 16 != 0) == carries_past(a, b, c, 32));
    assert((carries & 32 != 0) == carries_past(a, b, c, 64));
    assert((carries & 64 != 0) == carries_past(a, b, c, 128));
    assert((carries & 128 != 0) == carries_past(a, b, c, 256));
    lemma_sum_in_numbers(a, b, c, result, carries);
}

/// What the ripple subtractor returns after the last position.
#[verifier::spinoff_prover]
#[verifier::rlimit(50)]
proof fn lemma_subtractor_finish(a: u8, b: u8, c: bool, c0: u8, i: u8, result: u8, borrows: u8)
    requires
        c0 == unit(c),
        i == 8,
        result as u32 == ((a as u32) + 512 - (b as u32) - (c0 as u32)) as u32 & below(i as u32),
        borrows as u32 == (borrow_chain(a, b, c0) >> 1) & below(i as u32),
    ensures
        result == difference_byte(a, b, c),
        borrows == borrow_bitmap(a, b, c),
        ((borrows >> 3u8) & 1 == 1) == borrows_past(a, b, c, 16),
        ((borrows >> 7u8) & 1 == 1) == borrows_past(a, b, c, 256),
{
    lemma_subtractor_total(a, b, c0, i, result, borrows);
    assert((borrows & 1 != 0) == borrows_past(a, b, c, 2));
    assert((borrows & 2 != 0) == borrows_past(a, b, c, 4));
    assert((borrows & 4 != 0) == borrows_past(a, b, c, 8));
    assert((borrows & 8 != 0) == borrows_past(a, b, c, 16));
    assert((borrows & 16 != 0) == borrows_past(a, b, c, 32));
    assert((borrows & 32 != 0) == borrows_past(a, b, c, 64));
    assert((borrows & 64 != 0) == borrows_past(a, b, c, 128));
    assert((borrows & 128 != 0) == borrows_past(a, b, c, 256));
    lemma_difference_in_numbers(a, b, c, result, borrows);
}

/// `x + y` on eight bits.
spec fn wrapped_sum(x: u8, y: u8) -> u8 {
    if x + y > 255 {
        (x + y - 256) as u8
    } else {
        (x + y) as u8
    }
}

/// `x - y` on eight bits.
spec fn wrapped_difference(x: u8, y: u8) -> u8 {
    if x - y < 0 {
        (x - y + 256) as u8
    } else {
        (x - y) as u8
    }
}

/// The two passes of a decimal adjustment after an addition add up to one
/// addition modulo 256, and the first leaves the low digit as it was.
#[verifier::spinoff_prover]
proof fn lemma_decimal_add(a: u8, high_fix: bool, low_fix: bool)
    ensures
        wrapped_sum(a, 0x60) % 16 == a % 16,
        ({
            let first = if high_fix {
                wrapped_sum(a, 0x60)
            } else {
                a
            };
            let second = if low_fix {
                wrapped_sum(first, 0x06)
            } else {
                first
            };
            second == (a + (if high_fix {
                0x60int
            } else {
                0
            }) + (if low_fix {
                0x06int
            } else {
                0
            })) % 256
        }),
{
}

/// The two passes of a decimal adjustment after a subtraction add up to one
/// subtraction modulo 256.
#[verifier::spinoff_prover]
proof fn lemma_decimal_sub(a: u8, high_fix: bool, low_fix: bool)
    ensures
        ({
            let first = if high_fix {
                wrapped_difference(a, 0x60)
            } else {
                a
            };
            let second = if low_fix {
                wrapped_difference(first, 0x06)
            } else {
                first
            };
            second == (a - ((if high_fix {
                0x60int
            } else {
                0
            }) + (if low_fix {
                0x06int
            } else {
                0
            }))) % 256
        }),
{
}

/// The arithmetic-logic unit: its working buffer.
pub struct ALU {
    pub buffer: u8,
}

impl ALU {
    /// A unit whose buffer holds zero.
    pub fn new() -> (alu: ALU)
        ensures
            alu.buffer == 0,
    {
        ALU { buffer: 0 }
    }

    /// Adds `a`, `b` and the carry `c` one bit at a time, from bit 0 up to
    /// bit 7, handing each position's carry to the next.
    ///
    /// Returns the eight sum bits and, beside them, the carry out of every
    /// position: bit 3 of the second byte is the half carry, bit 7 the carry.
    #[verifier::spinoff_prover]
    #[verifier::rlimit(50)]
    pub fn add_with_bitwise_carry(a: u8, b: u8, c: bool) -> (r: (u8, u8))
        ensures
            r.0 == sum_byte(a, b, c),
            r.1 == carry_bitmap(a, b, c),
            ((r.1 >> 3u8) & 1 == 1) == carries_past(a, b, c, 16),
            ((r.1 >> 7u8) & 1 == 1) == carries_past(a, b, c, 256),
    {
        let mut result: u8 = 0;
        let mut carry_bits: u8 = 0;
        let mut carry: u8 = if c {
            1
        } else {
            0
        };
        let ghost c0: u8 = carry;
        let mut i: u8 = 0;
        proof {
            lemma_adder_start(a, b, c0, i);
        }
        while i < 8
            invariant
                i <= 8,
                c0 <= 1,
                carry as u32 == (carry_chain(a, b, c0) >> (i as u32)) & 1,
                result as u32 == ((a as u32) + (b as u32) + (c0 as u32)) as u32 & below(i as u32),
                carry_bits as u32 == (carry_chain(a, b, c0) >> 1) & below(i as u32),
            decreases 8 - i,
        {
            proof {
                lemma_adder_step(a, b, c0, i, carry, result, carry_bits);
            }
            let bit_a: u8 = (a >> i) & 1;
            let bit_b: u8 = (b >> i) & 1;

            let sum: u8 = bit_a + bit_b + carry;
            let bit_result: u8 = sum & 1;
            carry = (sum >> 1) & 1;

            result |= bit_result << i;
            if carry == 1 {
                carry_bits |= 1 << i;
            }
            i += 1;
        }
        proof {
            lemma_adder_finish(a, b, c, c0, i, result, carry_bits);
        }
        (result, carry_bits)
    }

    /// Subtracts `b` and the borrow `c` from `a` one bit at a time, from bit
    /// 0 up to bit 7, handing each position's borrow to the next.
    ///
    /// Returns the eight difference bits and, beside them, the borrow out of
    /// every position: bit 3 of the second byte is the half carry, bit 7 the
    /// carry.
    #[verifier::spinoff_prover]
    #[verifier::rlimit(50)]
    pub fn sub_with_bitwise_carry(a: u8, b: u8, c: bool) -> (r: (u8, u8))
        ensures
            r.0 == difference_byte(a, b, c),
            r.1 == borrow_bitmap(a, b, c),
            ((r.1 >> 3u8) & 1 == 1) == borrows_past(a, b, c, 16),
            ((r.1 >> 7u8) & 1 == 1) == borrows_past(a, b, c, 256),
    {
        let mut result: u8 = 0;
        let mut carry_bits: u8 = 0;
        let mut carry: u8 = if c {
            1
        } else {
            0
        };
        let ghost c0: u8 = carry;
        let mut i: u8 = 0;
        proof {
            lemma_subtractor_start(a, b, c0, i);
        }
        while i < 8
            invariant
                i <= 8,
                c0 <= 1,
                carry as u32 == (borrow_chain(a, b, c0) >> (i as u32)) & 1,
                result as u32 == ((a as u32) + 512 - (b as u32) - (c0 as u32)) as u32 & below(
                    i as u32,
                ),
                carry_bits as u32 == (borrow_chain(a, b, c0) >> 1) & below(i as u32),
            decreases 8 - i,
        {
            proof {
                lemma_subtractor_step(a, b, c0, i, carry, result, carry_bits);
            }
            let bit_a: u8 = (a >> i) & 1;
            let bit_b: u8 = (b >> i) & 1;
            let mut diff: i8 = bit_a as i8 - bit_b as i8 - carry as i8;

            if diff < 0 {
                diff += 2;
                carry = 1;
                carry_bits |= 1 << i;
            } else {
                carry = 0;
            }

            result |= (diff as u8 & 1) << i;
            i += 1;
        }
        proof {
            lemma_subtractor_finish(a, b, c, c0, i, result, carry_bits);
        }
        (result, carry_bits)
    }
    /// One machine cycle passes; the unit has no clocked state of its own.
    pub fn clock_cycle(&mut self)
        ensures
            final(self).buffer == old(self).buffer,
    {
    }

    /// Whether the unit and the register file hold what `outcome` says: the
    /// buffer its value, the F register its flags, and every other register
    /// what it held in `before`.
    pub open spec fn settled(self, after: Seq<u8>, before: Seq<u8>, outcome: Outcome) -> bool {
        &&& self.buffer == outcome.value
        &&& after == store_byte(before, Register::F, outcome.flags.data)
    }

    /// Loads the buffer from an 8-bit register.
    pub fn read_data_register(&mut self, register_file: &RegisterFile, register: Register)
        requires
            register.is_byte(),
        ensures
            final(self).buffer == byte_at(register_file@, register),
    {
        self.buffer = register_file.read_u8(register);
    }

    /// Loads the buffer from the low byte of a 16-bit register.
    pub fn read_register_pair_low(&mut self, register_file: &RegisterFile, register: Register)
        requires
            register.is_word(),
        ensures
            final(self).buffer == register_file@[register.low_slot()],
    {
        self.buffer = register_file.read_u16_low(register);
    }

    /// Loads the buffer from the high byte of a 16-bit register.
    pub fn read_register_pair_high(&mut self, register_file: &RegisterFile, register: Register)
        requires
            register.is_word(),
        ensures
            final(self).buffer == register_file@[register.high_slot()],
    {
        self.buffer = register_file.read_u16_high(register);
    }

    /// Stores the buffer into an 8-bit register.
    pub fn write_data_register(&self, register_file: &mut RegisterFile, register: Register)
        requires
            register.is_byte(),
        ensures
            final(register_file)@ == store_byte(old(register_file)@, register, self.buffer),
    {
        register_file.write_u8(register, self.buffer);
    }

    /// Stores the buffer into the low byte of a 16-bit register.
    pub fn write_register_pair_low(&self, register_file: &mut RegisterFile, register: Register)
        requires
            register.is_word(),
        ensures
            final(register_file)@ == store_low(old(register_file)@, register, self.buffer),
    {
        register_file.write_u16_low(register, self.buffer);
    }

    /// Stores the buffer into the high byte of a 16-bit register.
    pub fn write_register_pair_high(&self, register_file: &mut RegisterFile, register: Register)
        requires
            register.is_word(),
        ensures
            final(register_file)@ == store_high(old(register_file)@, register, self.buffer),
    {
        register_file.write_u16_high(register, self.buffer);
    }

    /// Drives the buffer onto the data bus.
    pub fn write_data_bus(&self, data_bus: &mut Bus<u8>)
        ensures
            final(data_bus)@ == Some(self.buffer),
    {
        data_bus.write(self.buffer);
    }

    /// Low pass of adding the signed offset in the buffer to a 16-bit
    /// register: adds the register's low byte.
    pub fn addi_register_16_low(&mut self, register_file: &mut RegisterFile, register: Register)
        requires
            register.is_word(),
        ensures
            final(self).settled(
                final(register_file)@,
                old(register_file)@,
                offset_low_outcome(
                    old(self).buffer,
                    old(register_file)@[register.low_slot()],
                    flags_of(old(register_file)@),
                ),
            ),
    {
        let (result, bitwise_carry): (u8, u8) = Self::add_with_bitwise_carry(
            self.buffer,
            register_file.read_u16_low(register),
            false,
        );
        self.buffer = result;

        let mut flags = register_file.flags();
        flags.set_z(false);
        flags.set_n(false);
        flags.set_h(((bitwise_carry >> 3u8) & 0x1) == 0x1);
        flags.set_c(((bitwise_carry >> 7u8) & 0x1) == 0x1);
        register_file.write_u8(Register::F, flags.to_u8());
    }

    /// High pass of adding the signed offset in the buffer to a 16-bit
    /// register: adds the carry of the low pass and the sign fill of the
    /// offset to the register's high byte. The flags stay.
    pub fn addi_register_16_high(&mut self, register_file: &RegisterFile, register: Register)
        requires
            register.is_word(),
        ensures
            final(self).buffer == offset_high_value(
                old(self).buffer,
                register_file@[register.high_slot()],
                flags_of(register_file@).c(),
            ),
    {
        proof {
            lemma_byte_shifts(self.buffer, 0);
        }
        let adj: u8 = if (self.buffer >> 7u8) == 0 {
            0x00
        } else {
            0xFF
        };
        let flags = register_file.flags();
        let carry: u8 = if flags.get_c() {
            1
        } else {
            0
        };
        self.buffer = register_file.read_u16_high(register).wrapping_add(carry).wrapping_add(adj);
    }

    /// Low pass of a 16-bit addition: adds the low byte of a 16-bit register
    /// to the buffer.
    pub fn add_register_16_low(&mut self, register_file: &mut RegisterFile, register: Register)
        requires
            register.is_word(),
        ensures
            final(self).settled(
                final(register_file)@,
                old(register_file)@,
                pair_low_outcome(
                    old(self).buffer,
                    old(register_file)@[register.low_slot()],
                    flags_of(old(register_file)@),
                ),
            ),
    {
        let (result, bitwise_carry): (u8, u8) = Self::add_with_bitwise_carry(
            self.buffer,
            register_file.read_u16_low(register),
            false,
        );
        self.buffer = result;

        let mut flags = register_file.flags();
        flags.set_n(false);
        flags.set_h(((bitwise_carry >> 3u8) & 0x1) == 0x1);
        flags.set_c(((bitwise_carry >> 7u8) & 0x1) == 0x1);
        register_file.write_u8(Register::F, flags.to_u8());
    }

    /// High pass of a 16-bit addition: adds the high byte of a 16-bit
    /// register and the carry of the low pass to the buffer.
    pub fn add_register_16_high(&mut self, register_file: &mut RegisterFile, register: Register)
        requires
            register.is_word(),
        ensures
            final(self).settled(
                final(register_file)@,
                old(register_file)@,
                pair_high_outcome(
                    old(self).buffer,
                    old(register_file)@[register.high_slot()],
                    flags_of(old(register_file)@),
                ),
            ),
    {
        let mut flags = register_file.flags();
        let (result, bitwise_carry): (u8, u8) = Self::add_with_bitwise_carry(
            self.buffer,
            register_file.read_u16_high(register),
            flags.get_c(),
        );
        self.buffer = result;

        flags.set_n(false);
        flags.set_h(((bitwise_carry >> 3u8) & 0x1) == 0x1);
        flags.set_c(((bitwise_carry >> 7u8) & 0x1) == 0x1);
        register_file.write_u8(Register::F, flags.to_u8());
    }

    /// Adds an 8-bit register to the buffer, with the carry flag when
    /// `consider_carry` is set.
    pub fn add_register(
        &mut self,
        register_file: &mut RegisterFile,
        register: Register,
        consider_carry: bool,
    )
        requires
            register.is_byte(),
        ensures
            final(self).settled(
                final(register_file)@,
                old(register_file)@,
                add_outcome(
                    old(self).buffer,
                    byte_at(old(register_file)@, register),
                    consider_carry && flags_of(old(register_file)@).c(),
                    flags_of(old(register_file)@),
                ),
            ),
    {
        let mut flags = register_file.flags();
        let carry = if !consider_carry {
            false
        } else {
            flags.get_c()
        };

        let (result, bitwise_carry): (u8, u8) = Self::add_with_bitwise_carry(
            self.buffer,
            register_file.read_u8(register),
            carry,
        );
        self.buffer = result;

        flags.set_z(result == 0);
        flags.set_n(false);
        flags.set_h(((bitwise_carry >> 3u8) & 0x1) == 0x1);
        flags.set_c(((bitwise_carry >> 7u8) & 0x1) == 0x1);
        register_file.write_u8(Register::F, flags.to_u8());
    }

    /// Subtracts an 8-bit register from the buffer, with the carry flag as
    /// borrow when `consider_carry` is set.
    pub fn sub_register(
        &mut self,
        register_file: &mut RegisterFile,
        register: Register,
        consider_carry: bool,
    )
        requires
            register.is_byte(),
        ensures
            final(self).settled(
                final(register_file)@,
                old(register_file)@,
                sub_outcome(
                    old(self).buffer,
                    byte_at(old(register_file)@, register),
                    consider_carry && flags_of(old(register_file)@).c(),
                    flags_of(old(register_file)@),
                ),
            ),
    {
        let mut flags = register_file.flags();
        let carry = if !consider_carry {
            false
        } else {
            flags.get_c()
        };

        let (result, bitwise_carry): (u8, u8) = Self::sub_with_bitwise_carry(
            self.buffer,
            register_file.read_u8(register),
            carry,
        );
        self.buffer = result;

        flags.set_z(result == 0);
        flags.set_n(true);
        flags.set_h(((bitwise_carry >> 3u8) & 0x1) == 0x1);
        flags.set_c(((bitwise_carry >> 7u8) & 0x1) == 0x1);
        register_file.write_u8(Register::F, flags.to_u8());
    }

    /// Adds one to the buffer.
    pub fn increment(&mut self, register_file: &mut RegisterFile)
        ensures
            final(self).settled(
                final(register_file)@,
                old(register_file)@,
                increment_outcome(old(self).buffer, flags_of(old(register_file)@)),
            ),
    {
        let (result, bitwise_carry): (u8, u8) = Self::add_with_bitwise_carry(
            self.buffer,
            1,
            false,
        );
        self.buffer = result;

        let mut flags = register_file.flags();
        flags.set_z(result == 0);
        flags.set_n(false);
        flags.set_h(((bitwise_carry >> 3u8) & 0x1) == 0x1);
        register_file.write_u8(Register::F, flags.to_u8());
    }

    /// Takes one off the buffer.
    pub fn decrement(&mut self, register_file: &mut RegisterFile)
        ensures
            final(self).settled(
                final(register_file)@,
                old(register_file)@,
                decrement_outcome(old(self).buffer, flags_of(old(register_file)@)),
            ),
    {
        let (result, bitwise_carry): (u8, u8) = Self::sub_with_bitwise_carry(
            self.buffer,
            1,
            false,
        );
        self.buffer = result;

        let mut flags = register_file.flags();
        flags.set_z(result == 0);
        flags.set_n(true);
        flags.set_h(((bitwise_carry >> 3u8) & 0x1) == 0x1);
        register_file.write_u8(Register::F, flags.to_u8());
    }

    /// Bitwise and of the buffer with an 8-bit register; H is set.
    pub fn and(&mut self, register_file: &mut RegisterFile, register: Register)
        requires
            register.is_byte(),
        ensures
            final(self).buffer == old(self).buffer & byte_at(old(register_file)@, register),
            final(register_file)@ == store_byte(
                old(register_file)@,
                Register::F,
                logic_flags(final(self).buffer, true, flags_of(old(register_file)@)).data,
            ),
    {
        let result: u8 = self.buffer & register_file.read_u8(register);
        self.buffer = result;

        let mut flags = register_file.flags();
        flags.set_z(result == 0);
        flags.set_n(false);
        flags.set_h(true);
        flags.set_c(false);
        register_file.write_u8(Register::F, flags.to_u8());
    }

    /// Bitwise or of the buffer with an 8-bit register; H is cleared.
    pub fn or(&mut self, register_file: &mut RegisterFile, register: Register)
        requires
            register.is_byte(),
        ensures
            final(self).buffer == old(self).buffer | byte_at(old(register_file)@, register),
            final(register_file)@ == store_byte(
                old(register_file)@,
                Register::F,
                logic_flags(final(self).buffer, false, flags_of(old(register_file)@)).data,
            ),
    {
        let result: u8 = self.buffer | register_file.read_u8(register);
        self.buffer = result;

        let mut flags = register_file.flags();
        flags.set_z(result == 0);
        flags.set_n(false);
        flags.set_h(false);
        flags.set_c(false);
        register_file.write_u8(Register::F, flags.to_u8());
    }

    /// Bitwise exclusive or of the buffer with an 8-bit register; H is
    /// cleared.
    pub fn xor(&mut self, register_file: &mut RegisterFile, register: Register)
        requires
            register.is_byte(),
        ensures
            final(self).buffer == old(self).buffer ^ byte_at(old(register_file)@, register),
            final(register_file)@ == store_byte(
                old(register_file)@,
                Register::F,
                logic_flags(final(self).buffer, false, flags_of(old(register_file)@)).data,
            ),
    {
        let result: u8 = self.buffer ^ register_file.read_u8(register);
        self.buffer = result;

        let mut flags = register_file.flags();
        flags.set_z(result == 0);
        flags.set_n(false);
        flags.set_h(false);
        flags.set_c(false);
        register_file.write_u8(Register::F, flags.to_u8());
    }

    /// Inverts the carry flag and clears N and H.
    pub fn flip_carry(&self, register_file: &mut RegisterFile)
        ensures
            final(register_file)@ == store_byte(
                old(register_file)@,
                Register::F,
                flags_of(old(register_file)@).with_n(false).with_h(false).with_c(
                    !flags_of(old(register_file)@).c(),
                ).data,
            ),
    {
        let mut flags = register_file.flags();
        proof {
            lemma_flag_write(flags, false);
            lemma_flag_write(flags.with_n(false), false);
        }
        flags.set_n(false);
        flags.set_h(false);
        flags.set_c(!flags.get_c());
        register_file.write_u8(Register::F, flags.to_u8());
    }

    /// Sets the carry flag and clears N and H.
    pub fn set_carry(&self, register_file: &mut RegisterFile)
        ensures
            final(register_file)@ == store_byte(
                old(register_file)@,
                Register::F,
                flags_of(old(register_file)@).with_n(false).with_h(false).with_c(true).data,
            ),
    {
        let mut flags = register_file.flags();
        flags.set_n(false);
        flags.set_h(false);
        flags.set_c(true);
        register_file.write_u8(Register::F, flags.to_u8());
    }

    /// Corrects the buffer to packed decimal after an addition or a
    /// subtraction, in two passes: the high digit first, then the low one.
    #[verifier::spinoff_prover]
    #[verifier::rlimit(50)]
    pub fn decimal_adjust(&mut self, register_file: &mut RegisterFile)
        ensures
            final(self).settled(
                final(register_file)@,
                old(register_file)@,
                decimal_outcome(old(self).buffer, flags_of(old(register_file)@)),
            ),
    {
        let mut flags = register_file.flags();
        let ghost before = flags;
        let ghost a = self.buffer;
        proof {
            lemma_flag_write(flags, true);
        }

        if !flags.get_n() {
            let high_fix: bool = flags.get_c() || self.buffer > 0x99;
            if high_fix {
                self.buffer = self.buffer.wrapping_add(0x60);
                flags.set_c(true);
            }
            proof {
                lemma_byte_shifts(self.buffer, 0);
                lemma_decimal_add(a, high_fix, before.h() || a % 16 > 9);
                assert(self.buffer % 16 == a % 16);
            }
            let low_fix: bool = flags.get_h() || (self.buffer & 0x0f) > 0x09;
            if low_fix {
                self.buffer = self.buffer.wrapping_add(0x06);
            }
        } else {
            proof {
                lemma_decimal_sub(a, before.c(), before.h());
            }
            if flags.get_c() {
                self.buffer = self.buffer.wrapping_sub(0x60);
            }
            if flags.get_h() {
                self.buffer = self.buffer.wrapping_sub(0x06);
            }
        }
        assert(self.buffer == decimal_outcome(a, before).value);

        flags.set_z(self.buffer == 0);
        flags.set_h(false);
        register_file.write_u8(Register::F, flags.to_u8());
    }

    /// Inverts every bit of the buffer and sets N and H.
    pub fn flip(&mut self, register_file: &mut RegisterFile)
        ensures
            final(self).buffer == !old(self).buffer,
            final(register_file)@ == store_byte(
                old(register_file)@,
                Register::F,
                flags_of(old(register_file)@).with_n(true).with_h(true).data,
            ),
    {
        self.buffer = !self.buffer;

        let mut flags = register_file.flags();
        flags.set_n(true);
        flags.set_h(true);
        register_file.write_u8(Register::F, flags.to_u8());
    }

    /// Rotates the buffer left by one bit, through the carry flag when
    /// `replace_with_carry` is set.
    pub fn rotate_left(&mut self, register_file: &mut RegisterFile, replace_with_carry: bool)
        ensures
            final(self).settled(
                final(register_file)@,
                old(register_file)@,
                rotate_left_outcome(
                    old(self).buffer,
                    replace_with_carry,
                    flags_of(old(register_file)@),
                ),
            ),
    {
        let mut flags = register_file.flags();

        let high_bit: u8 = self.buffer >> 7u8;
        let carry_bit: u8 = if flags.get_c() {
            1
        } else {
            0
        };
        proof {
            lemma_byte_shifts(self.buffer, carry_bit);
            lemma_byte_shifts(self.buffer, high_bit);
        }
        let replacement: u8 = if replace_with_carry {
            carry_bit
        } else {
            high_bit
        };
        self.buffer = (self.buffer << 1u8) | replacement;

        flags.set_z(self.buffer == 0);
        flags.set_n(false);
        flags.set_h(false);
        flags.set_c(high_bit == 0x1);
        register_file.write_u8(Register::F, flags.to_u8());
    }

    /// Rotates the buffer right by one bit, through the carry flag when
    /// `replace_with_carry` is set.
    pub fn rotate_right(&mut self, register_file: &mut RegisterFile, replace_with_carry: bool)
        ensures
            final(self).settled(
                final(register_file)@,
                old(register_file)@,
                rotate_right_outcome(
                    old(self).buffer,
                    replace_with_carry,
                    flags_of(old(register_file)@),
                ),
            ),
    {
        let mut flags = register_file.flags();

        let low_bit: u8 = self.buffer & 0x1;
        let carry_bit: u8 = if flags.get_c() {
            1
        } else {
            0
        };
        proof {
            lemma_byte_shifts(self.buffer, carry_bit);
            lemma_byte_shifts(self.buffer, low_bit);
        }
        let replacement: u8 = if replace_with_carry {
            carry_bit
        } else {
            low_bit
        };
        self.buffer = (self.buffer >> 1u8) | (replacement << 7u8);

        flags.set_z(self.buffer == 0);
        flags.set_n(false);
        flags.set_h(false);
        flags.set_c(low_bit == 0x1);
        register_file.write_u8(Register::F, flags.to_u8());
    }

    /// Shifts the buffer left by one bit.
    pub fn shift_left(&mut self, register_file: &mut RegisterFile)
        ensures
            final(self).settled(
                final(register_file)@,
                old(register_file)@,
                shift_left_outcome(old(self).buffer, flags_of(old(register_file)@)),
            ),
    {
        proof {
            lemma_byte_shifts(self.buffer, 0);
        }
        let high_bit: u8 = self.buffer >> 7u8;
        self.buffer = self.buffer << 1u8;

        let mut flags = register_file.flags();
        flags.set_z(self.buffer == 0);
        flags.set_n(false);
        flags.set_h(false);
        flags.set_c(high_bit == 0x1);
        register_file.write_u8(Register::F, flags.to_u8());
    }

    /// Shifts the buffer right by one bit, keeping the sign bit when
    /// `arithmetic` is set.
    pub fn shift_right(&mut self, register_file: &mut RegisterFile, arithmetic: bool)
        ensures
            final(self).settled(
                final(register_file)@,
                old(register_file)@,
                shift_right_outcome(old(self).buffer, arithmetic, flags_of(old(register_file)@)),
            ),
    {
        proof {
            lemma_byte_shifts(self.buffer, 0);
        }
        let low_bit: u8 = self.buffer & 0x1;
        let replacement: u8 = if arithmetic {
            self.buffer >> 7u8
        } else {
            0
        };
        proof {
            lemma_byte_shifts(self.buffer, replacement);
        }
        self.buffer = (self.buffer >> 1u8) | (replacement << 7u8);

        let mut flags = register_file.flags();
        flags.set_z(self.buffer == 0);
        flags.set_n(false);
        flags.set_h(false);
        flags.set_c(low_bit == 0x1);
        register_file.write_u8(Register::F, flags.to_u8());
    }

    /// Exchanges the two nibbles of the buffer.
    pub fn swap(&mut self, register_file: &mut RegisterFile)
        ensures
            final(self).settled(
                final(register_file)@,
                old(register_file)@,
                swap_outcome(old(self).buffer, flags_of(old(register_file)@)),
            ),
    {
        proof {
            lemma_byte_shifts(self.buffer, 0);
        }
        self.buffer = (self.buffer << 4u8) | (self.buffer >> 4u8);

        let mut flags = register_file.flags();
        flags.set_z(self.buffer == 0);
        flags.set_n(false);
        flags.set_h(false);
        flags.set_c(false);
        register_file.write_u8(Register::F, flags.to_u8());
    }

    /// Sets Z to the complement of bit `bit` of the buffer. The buffer and
    /// the other flags stay.
    pub fn test_bit(&self, register_file: &mut RegisterFile, bit: u8)
        requires
            bit < 8,
        ensures
            final(register_file)@ == store_byte(
                old(register_file)@,
                Register::F,
                flags_of(old(register_file)@).with_z(self.buffer & (1u8 << bit) == 0).data,
            ),
    {
        let mut flags = register_file.flags();
        flags.set_z(self.buffer & (1u8 << bit) == 0);
        register_file.write_u8(Register::F, flags.to_u8());
    }

    /// Sets bit `bit` of the buffer. The flags stay.
    pub fn set_bit(&mut self, bit: u8)
        requires
            bit < 8,
        ensures
            final(self).buffer == old(self).buffer | (1u8 << bit),
    {
        self.buffer = self.buffer | (1u8 << bit);
    }

    /// Clears bit `bit` of the buffer. The flags stay.
    pub fn reset_bit(&mut self, bit: u8)
        requires
            bit < 8,
        ensures
            final(self).buffer == old(self).buffer & !(1u8 << bit),
    {
        self.buffer = self.buffer & !(1u8 << bit);
    }

    /// Adds the low byte of the program counter to the signed offset in the
    /// buffer and tells how the high byte has to follow. The flags stay.
    pub fn jump_relative_add(&mut self, register_file: &RegisterFile) -> (adjustment: i32)
        ensures
            final(self).buffer == sum_byte(
                old(self).buffer,
                register_file@[Register::PC.low_slot()],
                false,
            ),
            adjustment == relative_adjustment(
                old(self).buffer,
                register_file@[Register::PC.low_slot()],
            ),
    {
        proof {
            lemma_byte_shifts(self.buffer, 0);
        }
        let negative: bool = (self.buffer >> 7u8) == 1;
        let (result, bitwise_carry): (u8, u8) = Self::add_with_bitwise_carry(
            self.buffer,
            register_file.read_u16_low(Register::PC),
            false,
        );
        self.buffer = result;
        let carry: bool = ((bitwise_carry >> 7u8) & 0x1) == 0x1;
        if carry && !negative {
            1
        } else if !carry && negative {
            -1
        } else {
            0
        }
    }
}

} // verus!
