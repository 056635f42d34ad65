//! Bit-level helpers shared by the processor and the display registers.

use vstd::prelude::*;
use vstd::arithmetic::power2::pow2;
use vstd::arithmetic::power2::lemma2_to64;
use vstd::bits::lemma_u16_shr_is_div;
use crate::cpu::alu::test_bit;

verus! {

/// Whether binary digit `n` of `value` is one, digit 0 being the least
/// significant.
pub open spec fn has_bit(value: nat, n: nat) -> bool {
    (value / pow2(n)) % 2 == 1
}

/// `value` reduced to a byte, modulo 256.
pub open spec fn wrap8(value: int) -> u8 {
    (value % 0x100) as u8
}

/// `value` reduced to a 16-bit word, modulo 65536.
pub open spec fn wrap16(value: int) -> u16 {
    (value % 0x10000) as u16
}

/// The digit tests of a byte, written against the eight fixed divisors.
pub proof fn lemma_has_bit_u8(value: u8)
    ensures
        has_bit(value as nat, 0) == (value % 2 == 1),
        has_bit(value as nat, 1) == ((value / 2) % 2 == 1),
        has_bit(value as nat, 2) == ((value / 4) % 2 == 1),
        has_bit(value as nat, 3) == ((value / 8) % 2 == 1),
        has_bit(value as nat, 4) == ((value / 16) % 2 == 1),
        has_bit(value as nat, 5) == ((value / 32) % 2 == 1),
        has_bit(value as nat, 6) == ((value / 64) % 2 == 1),
        has_bit(value as nat, 7) == ((value / 128) % 2 == 1),
{
    lemma2_to64();
}

/// Reading single bits of an unsigned number.
pub trait BitGrabber {
    /// How many bits the type has.
    spec fn width() -> nat;

    /// The number as a natural number.
    spec fn number(&self) -> nat;

    /// Whether bit `n` is one, bit 0 being the least significant.
    fn nth_bit_as_bool(&self, n: usize) -> (bit: bool)
        requires
            n < Self::width(),
        ensures
            bit == has_bit(self.number(), n as nat),
    ;
}

impl BitGrabber for u8 {
    open spec fn width() -> nat {
        8
    }

    open spec fn number(&self) -> nat {
        *self as nat
    }

    fn nth_bit_as_bool(&self, n: usize) -> (bit: bool) {
        test_bit(*self, n)
    }
}

impl BitGrabber for u16 {
    open spec fn width() -> nat {
        16
    }

    open spec fn number(&self) -> nat {
        *self as nat
    }

    fn nth_bit_as_bool(&self, n: usize) -> (bit: bool) {
        let shifted: u16 = *self >> (n as u16);
        proof {
            lemma_u16_shr_is_div(*self, n as u16);
            assert(((shifted & 1u16) == 1) == (shifted % 2 == 1)) by (bit_vector);
        }
        (shifted & 1) == 1
    }
}

/// The eight bits of a byte, bit 0 first.
pub fn to_bits8(num: u8) -> (bits: [bool; 8])
    ensures
        forall|n: int| 0 <= n < 8 ==> bits[n] == has_bit(num as nat, n as nat),
{
    let mut bits = [false; 8];
    let mut n: usize = 0;
    while n < 8
        invariant
            n <= 8,
            forall|k: int| 0 <= k < n ==> bits[k] == has_bit(num as nat, k as nat),
        decreases 8 - n,
    {
        bits[n] = num.nth_bit_as_bool(n);
        n += 1;
    }
    bits
}

/// The sixteen bits of a word, bit 0 first.
pub fn to_bits16(num: u16) -> (bits: [bool; 16])
    ensures
        forall|n: int| 0 <= n < 16 ==> bits[n] == has_bit(num as nat, n as nat),
{
    let mut bits = [false; 16];
    let mut n: usize = 0;
    while n < 16
        invariant
            n <= 16,
            forall|k: int| 0 <= k < n ==> bits[k] == has_bit(num as nat, k as nat),
        decreases 16 - n,
    {
        bits[n] = num.nth_bit_as_bool(n);
        n += 1;
    }
    bits
}

} // verus!
