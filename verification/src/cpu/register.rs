//! Register pairs, the flag byte and the register file.

use vstd::prelude::*;
use crate::util::has_bit;
use crate::util::lemma_has_bit_u8;

verus! {

/// The four condition flags held in the upper half of the flag byte.
#[derive(Clone, Copy, Debug, PartialEq, Eq, Structural)]
pub struct Flags {
    pub zero: bool,
    pub subtract: bool,
    pub half_carry: bool,
    pub carry: bool,
}

/// The flag byte that holds `flags` in bits 7 to 4 and `low` in bits 3 to 0.
pub open spec fn flag_byte(flags: Flags, low: u8) -> u8 {
    ((if flags.zero { 0x80int } else { 0 }) + (if flags.subtract { 0x40int } else { 0 }) + (if flags.half_carry { 0x20int } else { 0 })
        + (if flags.carry { 0x10int } else { 0 }) + low) as u8
}

/// How the masks and toggles of the flag bits act on a byte, in arithmetic.
proof fn lemma_flag_masks(byte: u8)
    by (bit_vector)
    ensures
        ((byte & 0x80) != 0) == ((byte / 128) % 2 == 1),
        ((byte & 0x40) != 0) == ((byte / 64) % 2 == 1),
        ((byte & 0x20) != 0) == ((byte / 32) % 2 == 1),
        ((byte & 0x10) != 0) == ((byte / 16) % 2 == 1),
        byte ^ 0x80 == (if (byte / 128) % 2 == 1 { byte - 0x80 } else { byte + 0x80 }),
        byte ^ 0x40 == (if (byte / 64) % 2 == 1 { byte - 0x40 } else { byte + 0x40 }),
        byte ^ 0x20 == (if (byte / 32) % 2 == 1 { byte - 0x20 } else { byte + 0x20 }),
        byte ^ 0x10 == (if (byte / 16) % 2 == 1 { byte - 0x10 } else { byte + 0x10 }),
        byte & 0x0F == byte % 16,
{
}

/// Two 8-bit registers that can also be used as one 16-bit register, `left`
/// being the high byte.  In the pair AF, `right` is the flag byte: bit 7 is
/// the zero flag, bit 6 subtract, bit 5 half-carry and bit 4 carry.
#[derive(Clone, Copy, Debug, PartialEq, Eq, Structural)]
pub struct RegisterPair {
    pub left: u8,
    pub right: u8,
}

impl RegisterPair {
    /// The pair read as one 16-bit value.
    pub open spec fn word(&self) -> u16 {
        (self.left * 0x100 + self.right) as u16
    }

    /// The pair whose 16-bit value is `word`.
    pub open spec fn of_word(word: u16) -> RegisterPair {
        RegisterPair { left: (word / 0x100) as u8, right: (word % 0x100) as u8 }
    }

    /// The zero flag: bit 7 of `right`.
    pub open spec fn zero(&self) -> bool {
        has_bit(self.right as nat, 7)
    }

    /// The subtract flag: bit 6 of `right`.
    pub open spec fn subtract(&self) -> bool {
        has_bit(self.right as nat, 6)
    }

    /// The half-carry flag: bit 5 of `right`.
    pub open spec fn half_carry(&self) -> bool {
        has_bit(self.right as nat, 5)
    }

    /// The carry flag: bit 4 of `right`.
    pub open spec fn carry(&self) -> bool {
        has_bit(self.right as nat, 4)
    }

    /// The four flags of the pair.
    pub open spec fn flags(&self) -> Flags {
        Flags { zero: self.zero(), subtract: self.subtract(), half_carry: self.half_carry(), carry: self.carry() }
    }

    /// The pair with its four flags replaced; `left` and the low four bits
    /// of `right` stay.
    pub open spec fn with_flags(&self, flags: Flags) -> RegisterPair {
        RegisterPair { left: self.left, right: flag_byte(flags, self.right % 16) }
    }

    /// A pair is its own flags laid over its own low bits.
    pub proof fn lemma_with_own_flags(&self)
        ensures
            self.with_flags(self.flags()) == *self,
    {
        lemma_has_bit_u8(self.right);
    }

    /// Replacing the flags yields exactly those flags and keeps the low bits.
    pub proof fn lemma_flags_of_with_flags(&self, flags: Flags)
        ensures
            self.with_flags(flags).flags() == flags,
            self.with_flags(flags).right % 16 == self.right % 16,
            self.with_flags(flags).left == self.left,
    {
        lemma_has_bit_u8(self.with_flags(flags).right);
    }

    /// Of two replacements of the flags only the second one shows.
    pub proof fn lemma_with_flags_twice(&self, first: Flags, second: Flags)
        ensures
            self.with_flags(first).with_flags(second) == self.with_flags(second),
    {
        self.lemma_flags_of_with_flags(first);
    }

    /// A pair that holds zero.
    pub fn new() -> (pair: Self)
        ensures
            pair.left == 0,
            pair.right == 0,
    {
        Self { left: 0, right: 0 }
    }

    /// Reads the pair as one 16-bit value, `left` being the high byte.
    pub fn take_as_one(&self) -> (word: u16)
        ensures
            word == self.word(),
            word == self.left * 0x100 + self.right,
    {
        let top: u16 = (self.left as u16) * 0x100;
        top + self.right as u16
    }

    /// Writes a 16-bit value into the pair: the high byte to `left`, the low
    /// byte to `right`.
    pub fn change_as_one(&mut self, new: u16)
        ensures
            *final(self) == Self::of_word(new),
            final(self).word() == new,
    {
        self.left = (new / 0x100) as u8;
        self.right = (new % 0x100) as u8;
    }

    /// Whether the zero flag is set.
    pub fn is_zero_high(&self) -> (high: bool)
        ensures
            high == self.zero(),
    {
        proof {
            lemma_has_bit_u8(self.right);
            lemma_flag_masks(self.right);
        }
        (self.right & 0x80) != 0
    }

    /// Whether the subtract flag is set.
    pub fn is_subtract_high(&self) -> (high: bool)
        ensures
            high == self.subtract(),
    {
        proof {
            lemma_has_bit_u8(self.right);
            lemma_flag_masks(self.right);
        }
        (self.right & 0x40) != 0
    }

    /// Whether the half-carry flag is set.
    pub fn is_hcarry_high(&self) -> (high: bool)
        ensures
            high == self.half_carry(),
    {
        proof {
            lemma_has_bit_u8(self.right);
            lemma_flag_masks(self.right);
        }
        (self.right & 0x20) != 0
    }

    /// Whether the carry flag is set.
    pub fn is_carry_high(&self) -> (high: bool)
        ensures
            high == self.carry(),
    {
        proof {
            lemma_has_bit_u8(self.right);
            lemma_flag_masks(self.right);
        }
        (self.right & 0x10) != 0
    }

    /// Toggles the zero flag and nothing else.
    pub fn flip_zero_flag(&mut self)
        ensures
            *final(self) == old(self).with_flags(Flags { zero: !old(self).zero(), ..old(self).flags() }),
    {
        proof {
            lemma_has_bit_u8(self.right);
            lemma_flag_masks(self.right);
        }
        self.right ^= 0x80;
    }

    /// Toggles the subtract flag and nothing else.
    pub fn flip_subtract_flag(&mut self)
        ensures
            *final(self) == old(self).with_flags(Flags { subtract: !old(self).subtract(), ..old(self).flags() }),
    {
        proof {
            lemma_has_bit_u8(self.right);
            lemma_flag_masks(self.right);
        }
        self.right ^= 0x40;
    }

    /// Toggles the half-carry flag and nothing else.
    pub fn flip_hcarry_flag(&mut self)
        ensures
            *final(self) == old(self).with_flags(Flags { half_carry: !old(self).half_carry(), ..old(self).flags() }),
    {
        proof {
            lemma_has_bit_u8(self.right);
            lemma_flag_masks(self.right);
        }
        self.right ^= 0x20;
    }

    /// Toggles the carry flag and nothing else.
    pub fn flip_carry_flag(&mut self)
        ensures
            *final(self) == old(self).with_flags(Flags { carry: !old(self).carry(), ..old(self).flags() }),
    {
        proof {
            lemma_has_bit_u8(self.right);
            lemma_flag_masks(self.right);
        }
        self.right ^= 0x10;
    }

    /// Clears all four flags, whatever they were; the low four bits of
    /// `right` stay.
    pub fn flip_flags_down(&mut self)
        ensures
            *final(self) == old(self).with_flags(Flags { zero: false, subtract: false, half_carry: false, carry: false }),
    {
        proof {
            lemma_flag_masks(self.right);
        }
        self.right &= 0x0F;
    }

    /// Sets all four flags at once; the low four bits of `right` stay.
    pub fn set_flags(&mut self, flags: Flags)
        ensures
            *final(self) == old(self).with_flags(flags),
    {
        proof {
            lemma_flag_masks(self.right);
        }
        let mut upper: u8 = 0;
        if flags.zero {
            upper += 0x80;
        }
        if flags.subtract {
            upper += 0x40;
        }
        if flags.half_carry {
            upper += 0x20;
        }
        if flags.carry {
            upper += 0x10;
        }
        self.right = (self.right & 0x0F) + upper;
    }

    /// Reads all four flags at once.
    pub fn current_flags(&self) -> (flags: Flags)
        ensures
            flags == self.flags(),
    {
        Flags {
            zero: self.is_zero_high(),
            subtract: self.is_subtract_high(),
            half_carry: self.is_hcarry_high(),
            carry: self.is_carry_high(),
        }
    }
}

/// Splitting a 16-bit value into a pair and reading the pair back gives the
/// value; so does joining two bytes and splitting them again.
pub proof fn lemma_pair_round_trip(word: u16, high: u8, low: u8)
    ensures
        RegisterPair::of_word(word).word() == word,
        RegisterPair::of_word((RegisterPair { left: high, right: low }).word()) == (RegisterPair { left: high, right: low }),
{
}

/// The register file: the pairs AF, BC, DE and HL, the stack pointer and the
/// program counter.
#[derive(Clone, Copy, Debug, PartialEq, Eq, Structural)]
pub struct Registers {
    pub af: RegisterPair,
    pub bc: RegisterPair,
    pub de: RegisterPair,
    pub hl: RegisterPair,
    pub sp: u16,
    pub pc: u16,
}

impl Registers {
    /// Registers that all hold zero.
    pub fn new() -> (registers: Self)
        ensures
            registers == (Registers {
                af: RegisterPair { left: 0, right: 0 },
                bc: RegisterPair { left: 0, right: 0 },
                de: RegisterPair { left: 0, right: 0 },
                hl: RegisterPair { left: 0, right: 0 },
                sp: 0,
                pc: 0,
            }),
    {
        Self {
            af: RegisterPair::new(),
            bc: RegisterPair::new(),
            de: RegisterPair::new(),
            hl: RegisterPair::new(),
            sp: 0,
            pc: 0,
        }
    }
}

} // verus!
