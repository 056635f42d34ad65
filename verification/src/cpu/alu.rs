//! The arithmetic of the processor on plain values: sums, differences,
//! rotations and shifts, each with the flags it produces.

use vstd::prelude::*;
use vstd::arithmetic::power2::pow2;
use vstd::arithmetic::power2::lemma2_to64;
use crate::cpu::register::Flags;
use crate::util::has_bit;
use crate::util::wrap8;
use crate::util::wrap16;

verus! {

/// An 8-bit result together with the flags it produces.
#[derive(Clone, Copy, Debug, PartialEq, Eq, Structural)]
pub struct Outcome8 {
    pub value: u8,
    pub flags: Flags,
}

/// A 16-bit result together with the flags it produces.
#[derive(Clone, Copy, Debug, PartialEq, Eq, Structural)]
pub struct Outcome16 {
    pub value: u16,
    pub flags: Flags,
}

/// One if `flag` is set, else zero.
pub open spec fn unit(flag: bool) -> int {
    if flag {
        1
    } else {
        0
    }
}

/// `a + b + carry_in` modulo 256.  Zero: the result is 0.  Half-carry: the
/// low four bits carry into bit 4.  Carry: the sum does not fit in a byte.
pub open spec fn sum8(a: u8, b: u8, carry_in: bool) -> Outcome8 {
    let total = a + b + unit(carry_in);
    Outcome8 {
        value: wrap8(total),
        flags: Flags {
            zero: total % 0x100 == 0,
            subtract: false,
            half_carry: a % 0x10 + b % 0x10 + unit(carry_in) > 0xF,
            carry: total > 0xFF,
        },
    }
}

/// `a - b - borrow_in` modulo 256.  Zero: the result is 0.  Subtract: always.
/// Half-carry: the low four bits borrow from bit 4.  Carry: the difference is
/// negative.
pub open spec fn difference8(a: u8, b: u8, borrow_in: bool) -> Outcome8 {
    let total = a - b - unit(borrow_in);
    Outcome8 {
        value: wrap8(total),
        flags: Flags {
            zero: total % 0x100 == 0,
            subtract: true,
            half_carry: a % 0x10 < b % 0x10 + unit(borrow_in),
            carry: total < 0,
        },
    }
}

/// `a + b` modulo 65536.  Zero: the result is 0.  Half-carry: the low twelve
/// bits carry into bit 12.  Carry: the sum does not fit in 16 bits.
pub open spec fn sum16(a: u16, b: u16) -> Outcome16 {
    Outcome16 {
        value: wrap16(a + b),
        flags: Flags {
            zero: (a + b) % 0x10000 == 0,
            subtract: false,
            half_carry: a % 0x1000 + b % 0x1000 > 0xFFF,
            carry: a + b > 0xFFFF,
        },
    }
}

/// The flags of a bitwise result: zero if it is 0, half-carry as given, the
/// other two clear.
pub open spec fn logic_flags(value: u8, half_carry: bool) -> Flags {
    Flags { zero: value == 0, subtract: false, half_carry, carry: false }
}

/// The flags of a rotation or shift: zero if the result is 0, carry as
/// given, the other two clear.
pub open spec fn shift_flags(value: u8, carry: bool) -> Flags {
    Flags { zero: value == 0, subtract: false, half_carry: false, carry }
}

/// `value` rotated left by one bit: bit 7 moves to bit 0 and to the carry.
pub open spec fn rotated_left(value: u8) -> Outcome8 {
    let result = wrap8(value * 2 + value / 0x80);
    Outcome8 { value: result, flags: shift_flags(result, value >= 0x80) }
}

/// `value` rotated left by one bit through the carry: the old carry moves to
/// bit 0, bit 7 to the carry.
pub open spec fn rotated_left_through(value: u8, carry_in: bool) -> Outcome8 {
    let result = wrap8(value * 2 + unit(carry_in));
    Outcome8 { value: result, flags: shift_flags(result, value >= 0x80) }
}

/// `value` rotated right by one bit: bit 0 moves to bit 7 and to the carry.
pub open spec fn rotated_right(value: u8) -> Outcome8 {
    let result = (value / 2 + (value % 2) * 0x80) as u8;
    Outcome8 { value: result, flags: shift_flags(result, value % 2 == 1) }
}

/// `value` rotated right by one bit through the carry: the old carry moves
/// to bit 7, bit 0 to the carry.
pub open spec fn rotated_right_through(value: u8, carry_in: bool) -> Outcome8 {
    let result = (value / 2 + unit(carry_in) * 0x80) as u8;
    Outcome8 { value: result, flags: shift_flags(result, value % 2 == 1) }
}

/// `value` shifted left by one bit: bit 0 becomes 0, bit 7 moves to the
/// carry.
pub open spec fn shifted_left(value: u8) -> Outcome8 {
    let result = wrap8(value * 2);
    Outcome8 { value: result, flags: shift_flags(result, value >= 0x80) }
}

/// `value` shifted right by one bit with bit 7 kept: bit 0 moves to the
/// carry.
pub open spec fn shifted_right_arithmetic(value: u8) -> Outcome8 {
    let result = (value / 2 + (value / 0x80) * 0x80) as u8;
    Outcome8 { value: result, flags: shift_flags(result, value % 2 == 1) }
}

/// `value` shifted right by one bit: bit 7 becomes 0, bit 0 moves to the
/// carry.
pub open spec fn shifted_right_logical(value: u8) -> Outcome8 {
    let result = value / 2;
    Outcome8 { value: result, flags: shift_flags(result, value % 2 == 1) }
}

/// `value` with its two four-bit halves exchanged.
pub open spec fn swapped(value: u8) -> Outcome8 {
    let result = ((value % 0x10) * 0x10 + value / 0x10) as u8;
    Outcome8 { value: result, flags: shift_flags(result, false) }
}

/// `value` with bit `bit` forced to one.
pub open spec fn with_bit_set(value: u8, bit: nat) -> u8 {
    if has_bit(value as nat, bit) {
        value
    } else {
        (value + pow2(bit)) as u8
    }
}

/// `value` with bit `bit` forced to zero.
pub open spec fn with_bit_reset(value: u8, bit: nat) -> u8 {
    if has_bit(value as nat, bit) {
        (value - pow2(bit)) as u8
    } else {
        value
    }
}

/// A signed displacement as the 16-bit word that, added modulo 65536, moves
/// an address by it.
pub open spec fn displacement_word(displacement: i8) -> u16 {
    wrap16(displacement as int)
}

/// How one-bit shifts and their combinations act on a byte, in arithmetic.
proof fn lemma_shifts(value: u8)
    ensures
        (value << 1u8) | (value >> 7u8) == (value * 2 + value / 0x80) % 0x100,
        (value << 1u8) | 1u8 == (value * 2 + 1) % 0x100,
        (value << 1u8) == (value * 2) % 0x100,
        (value >> 1u8) | (value << 7u8) == value / 2 + (value % 2) * 0x80,
        (value >> 1u8) | 0x80u8 == value / 2 + 0x80,
        (value >> 1u8) | (value & 0x80u8) == value / 2 + (value / 0x80) * 0x80,
        (value >> 1u8) == value / 2,
        (value << 4u8) | (value >> 4u8) == (value % 0x10) * 0x10 + value / 0x10,
        ((value & 0x80u8) != 0) == (value >= 0x80),
        ((value & 1u8) != 0) == (value % 2 == 1),
{
    assert((value << 1u8) | (value >> 7u8) == (value * 2 + value / 0x80) % 0x100) by (bit_vector);
    assert((value << 1u8) | 1u8 == (value * 2 + 1) % 0x100) by (bit_vector);
    assert((value << 1u8) == (value * 2) % 0x100) by (bit_vector);
    assert((value >> 1u8) | (value << 7u8) == value / 2 + (value % 2) * 0x80) by (bit_vector);
    assert((value >> 1u8) | 0x80u8 == value / 2 + 0x80) by (bit_vector);
    assert((value >> 1u8) | (value & 0x80u8) == value / 2 + (value / 0x80) * 0x80) by (bit_vector);
    assert((value >> 1u8) == value / 2) by (bit_vector);
    assert((value << 4u8) | (value >> 4u8) == (value % 0x10) * 0x10 + value / 0x10) by (bit_vector);
    assert(((value & 0x80u8) != 0) == (value >= 0x80)) by (bit_vector);
    assert(((value & 1u8) != 0) == (value % 2 == 1)) by (bit_vector);
}

/// The mask of bit `bit` is two to the power `bit`.
proof fn lemma_mask_value(bit: u8)
    by (bit_vector)
    requires
        bit < 8,
    ensures
        (1u8 << bit) == (if bit == 0 { 1u8 } else if bit == 1 { 2u8 } else if bit == 2 { 4u8 } else if bit == 3 { 8u8 } else if bit
            == 4 { 16u8 } else if bit == 5 { 32u8 } else if bit == 6 { 64u8 } else { 128u8 }),
{
}

/// How the mask of one bit acts on a byte, in arithmetic.
proof fn lemma_single_bit(value: u8, mask: u8)
    requires
        mask == 1 || mask == 2 || mask == 4 || mask == 8 || mask == 16 || mask == 32 || mask == 64 || mask == 128,
    ensures
        ((value & mask) != 0) == ((value / mask) % 2 == 1),
        (value / mask) % 2 == 1 ==> value | mask == value,
        (value / mask) % 2 != 1 ==> value | mask == value + mask,
        (value / mask) % 2 == 1 ==> value & !mask == value - mask,
        (value / mask) % 2 != 1 ==> value & !mask == value,
{
    assert(((value & mask) != 0) == ((value / mask) % 2 == 1) && ((value / mask) % 2 == 1 ==> value | mask == value) && ((value
        / mask) % 2 != 1 ==> value | mask == value + mask)) by (bit_vector)
        requires
            mask == 1 || mask == 2 || mask == 4 || mask == 8 || mask == 16 || mask == 32 || mask == 64 || mask == 128,
    ;
    assert(((value / mask) % 2 == 1 ==> value & !mask == value - mask) && ((value / mask) % 2 != 1 ==> value & !mask == value))
        by (bit_vector)
        requires
            mask == 1 || mask == 2 || mask == 4 || mask == 8 || mask == 16 || mask == 32 || mask == 64 || mask == 128,
    ;
}

/// The mask that selects bit `bit` of a byte.
fn bit_mask(bit: usize) -> (mask: u8)
    requires
        bit < 8,
    ensures
        mask == pow2(bit as nat),
        mask == 1 || mask == 2 || mask == 4 || mask == 8 || mask == 16 || mask == 32 || mask == 64 || mask == 128,
{
    proof {
        lemma_mask_value(bit as u8);
        lemma2_to64();
    }
    1u8 << bit
}

/// Adds two bytes and a carry.
pub fn add_bytes(a: u8, b: u8, carry_in: bool) -> (outcome: Outcome8)
    ensures
        outcome == sum8(a, b, carry_in),
{
    let carry: u16 = if carry_in { 1 } else { 0 };
    let total: u16 = a as u16 + b as u16 + carry;
    let low: u16 = (a % 0x10) as u16 + (b % 0x10) as u16 + carry;
    let value: u8 = (total % 0x100) as u8;
    Outcome8 { value, flags: Flags { zero: value == 0, subtract: false, half_carry: low > 0xF, carry: total > 0xFF } }
}

/// Subtracts a byte and a borrow from a byte.
pub fn subtract_bytes(a: u8, b: u8, borrow_in: bool) -> (outcome: Outcome8)
    ensures
        outcome == difference8(a, b, borrow_in),
{
    let borrow: u16 = if borrow_in { 1 } else { 0 };
    let taken: u16 = b as u16 + borrow;
    let value: u8 = if a as u16 >= taken {
        (a as u16 - taken) as u8
    } else {
        (0x100 + a as u16 - taken) as u8
    };
    Outcome8 {
        value,
        flags: Flags {
            zero: value == 0,
            subtract: true,
            half_carry: ((a % 0x10) as u16) < (b % 0x10) as u16 + borrow,
            carry: (a as u16) < taken,
        },
    }
}

/// Adds two 16-bit words.
pub fn add_words(a: u16, b: u16) -> (outcome: Outcome16)
    ensures
        outcome == sum16(a, b),
{
    let total: u32 = a as u32 + b as u32;
    let low: u32 = (a % 0x1000) as u32 + (b % 0x1000) as u32;
    let value: u16 = (total % 0x10000) as u16;
    Outcome16 { value, flags: Flags { zero: value == 0, subtract: false, half_carry: low > 0xFFF, carry: total > 0xFFFF } }
}

/// The word that stands for a signed displacement in 16-bit addition.
pub fn sign_extend(displacement: i8) -> (word: u16)
    ensures
        word == displacement_word(displacement),
{
    if displacement >= 0 {
        displacement as u16
    } else {
        (0x10000 + displacement as i32) as u16
    }
}

/// A shifted value with its flags.
fn outcome_of_shift(value: u8, carry: bool) -> (outcome: Outcome8)
    ensures
        outcome == (Outcome8 { value, flags: shift_flags(value, carry) }),
{
    Outcome8 { value, flags: Flags { zero: value == 0, subtract: false, half_carry: false, carry } }
}

/// Rotates a byte left by one bit.
pub fn rotate_left(value: u8) -> (outcome: Outcome8)
    ensures
        outcome == rotated_left(value),
{
    proof {
        lemma_shifts(value);
    }
    outcome_of_shift((value << 1) | (value >> 7), (value & 0x80) != 0)
}

/// Rotates a byte left by one bit through the carry.
pub fn rotate_left_through(value: u8, carry_in: bool) -> (outcome: Outcome8)
    ensures
        outcome == rotated_left_through(value, carry_in),
{
    proof {
        lemma_shifts(value);
    }
    let result: u8 = if carry_in {
        (value << 1) | 1
    } else {
        value << 1
    };
    outcome_of_shift(result, (value & 0x80) != 0)
}

/// Rotates a byte right by one bit.
pub fn rotate_right(value: u8) -> (outcome: Outcome8)
    ensures
        outcome == rotated_right(value),
{
    proof {
        lemma_shifts(value);
    }
    outcome_of_shift((value >> 1) | (value << 7), (value & 1) != 0)
}

/// Rotates a byte right by one bit through the carry.
pub fn rotate_right_through(value: u8, carry_in: bool) -> (outcome: Outcome8)
    ensures
        outcome == rotated_right_through(value, carry_in),
{
    proof {
        lemma_shifts(value);
    }
    let result: u8 = if carry_in {
        (value >> 1) | 0x80
    } else {
        value >> 1
    };
    outcome_of_shift(result, (value & 1) != 0)
}

/// Shifts a byte left by one bit.
pub fn shift_left(value: u8) -> (outcome: Outcome8)
    ensures
        outcome == shifted_left(value),
{
    proof {
        lemma_shifts(value);
    }
    outcome_of_shift(value << 1, (value & 0x80) != 0)
}

/// Shifts a byte right by one bit and keeps bit 7.
pub fn shift_right_arithmetic(value: u8) -> (outcome: Outcome8)
    ensures
        outcome == shifted_right_arithmetic(value),
{
    proof {
        lemma_shifts(value);
    }
    outcome_of_shift((value >> 1) | (value & 0x80), (value & 1) != 0)
}

/// Shifts a byte right by one bit.
pub fn shift_right_logical(value: u8) -> (outcome: Outcome8)
    ensures
        outcome == shifted_right_logical(value),
{
    proof {
        lemma_shifts(value);
    }
    outcome_of_shift(value >> 1, (value & 1) != 0)
}

/// Exchanges the two four-bit halves of a byte.
pub fn swap_halves(value: u8) -> (outcome: Outcome8)
    ensures
        outcome == swapped(value),
{
    proof {
        lemma_shifts(value);
    }
    outcome_of_shift((value << 4) | (value >> 4), false)
}

/// Whether bit `bit` of `value` is one.
pub fn test_bit(value: u8, bit: usize) -> (high: bool)
    requires
        bit < 8,
    ensures
        high == has_bit(value as nat, bit as nat),
{
    let mask = bit_mask(bit);
    proof {
        lemma_single_bit(value, mask);
    }
    (value & mask) != 0
}

/// `value` with bit `bit` forced to one.
pub fn set_bit(value: u8, bit: usize) -> (result: u8)
    requires
        bit < 8,
    ensures
        result == with_bit_set(value, bit as nat),
{
    let mask = bit_mask(bit);
    proof {
        lemma_single_bit(value, mask);
    }
    value | mask
}

/// `value` with bit `bit` forced to zero.
pub fn reset_bit(value: u8, bit: usize) -> (result: u8)
    requires
        bit < 8,
    ensures
        result == with_bit_reset(value, bit as nat),
{
    let mask = bit_mask(bit);
    proof {
        lemma_single_bit(value, mask);
    }
    value & !mask
}

} // verus!
