//! Operand and condition codes of the instructions.

use vstd::prelude::*;

verus! {

/// Selects an operand of an instruction: a register, a register pair, or an
/// immediate value.  What a pair stands for depends on the instruction: its
/// 16-bit value, or the byte in memory that it points to.
#[derive(Clone, Copy, Debug, PartialEq, Eq, Structural)]
pub enum RegCode {
    A,
    B,
    C,
    D,
    E,
    H,
    L,
    BC,
    DE,
    HL,
    SP,
    AF,
    /// The program counter; used by calls and returns only.
    PC,
    Const8(u8),
    Const16(u16),
}

/// The condition under which a jump, call or return is taken.
#[derive(Clone, Copy, Debug, PartialEq, Eq, Structural)]
pub enum CondCode {
    /// The zero flag is clear.
    NZ,
    /// The carry flag is clear.
    NC,
    /// The zero flag is set.
    Z,
    /// The carry flag is set.
    C,
    Always,
}

impl RegCode {
    /// One of the seven 8-bit registers A, B, C, D, E, H and L.
    pub open spec fn spec_is_register8(self) -> bool {
        self is A || self is B || self is C || self is D || self is E || self is H || self is L
    }

    /// An 8-bit register, or HL for the byte it points to.
    pub open spec fn spec_is_operand8(self) -> bool {
        self.spec_is_register8() || self is HL
    }

    /// An 8-bit register, HL for the byte it points to, or an 8-bit
    /// immediate.
    pub open spec fn spec_is_source8(self) -> bool {
        self.spec_is_operand8() || self is Const8
    }

    /// An 8-bit register, one of BC, DE and HL for the byte it points to, or
    /// an 8-bit immediate.
    pub open spec fn spec_is_load8_operand(self) -> bool {
        self.spec_is_register8() || self is BC || self is DE || self is HL || self is Const8
    }

    /// One of the 16-bit registers BC, DE, HL and SP.
    pub open spec fn spec_is_register16(self) -> bool {
        self is BC || self is DE || self is HL || self is SP
    }

    /// A 16-bit register, or a 16-bit immediate.
    pub open spec fn spec_is_load16_operand(self) -> bool {
        self.spec_is_register16() || self is Const16
    }

    /// One of the pairs that can be pushed and popped: BC, DE, HL, AF and
    /// the program counter.
    pub open spec fn spec_is_stack_operand(self) -> bool {
        self is BC || self is DE || self is HL || self is AF || self is PC
    }

    /// An operand of the high-page and direct loads: A, an 8-bit offset into
    /// the page at 0xFF00, or a 16-bit address.
    pub open spec fn spec_is_direct_operand(self) -> bool {
        self is A || self is Const8 || self is Const16
    }

    /// Decides [`RegCode::spec_is_register8`].
    #[verifier::when_used_as_spec(spec_is_register8)]
    pub fn is_register8(self) -> (answer: bool)
        ensures
            answer == self.spec_is_register8(),
    {
        match self {
            RegCode::A | RegCode::B | RegCode::C | RegCode::D | RegCode::E | RegCode::H | RegCode::L => true,
            _ => false,
        }
    }

    /// Decides [`RegCode::spec_is_operand8`].
    #[verifier::when_used_as_spec(spec_is_operand8)]
    pub fn is_operand8(self) -> (answer: bool)
        ensures
            answer == self.spec_is_operand8(),
    {
        match self {
            RegCode::HL => true,
            _ => self.is_register8(),
        }
    }

    /// Decides [`RegCode::spec_is_source8`].
    #[verifier::when_used_as_spec(spec_is_source8)]
    pub fn is_source8(self) -> (answer: bool)
        ensures
            answer == self.spec_is_source8(),
    {
        match self {
            RegCode::Const8(_) => true,
            _ => self.is_operand8(),
        }
    }

    /// Decides [`RegCode::spec_is_load8_operand`].
    #[verifier::when_used_as_spec(spec_is_load8_operand)]
    pub fn is_load8_operand(self) -> (answer: bool)
        ensures
            answer == self.spec_is_load8_operand(),
    {
        match self {
            RegCode::BC | RegCode::DE | RegCode::HL | RegCode::Const8(_) => true,
            _ => self.is_register8(),
        }
    }

    /// Decides [`RegCode::spec_is_register16`].
    #[verifier::when_used_as_spec(spec_is_register16)]
    pub fn is_register16(self) -> (answer: bool)
        ensures
            answer == self.spec_is_register16(),
    {
        match self {
            RegCode::BC | RegCode::DE | RegCode::HL | RegCode::SP => true,
            _ => false,
        }
    }

    /// Decides [`RegCode::spec_is_load16_operand`].
    #[verifier::when_used_as_spec(spec_is_load16_operand)]
    pub fn is_load16_operand(self) -> (answer: bool)
        ensures
            answer == self.spec_is_load16_operand(),
    {
        match self {
            RegCode::Const16(_) => true,
            _ => self.is_register16(),
        }
    }

    /// Decides [`RegCode::spec_is_stack_operand`].
    #[verifier::when_used_as_spec(spec_is_stack_operand)]
    pub fn is_stack_operand(self) -> (answer: bool)
        ensures
            answer == self.spec_is_stack_operand(),
    {
        match self {
            RegCode::BC | RegCode::DE | RegCode::HL | RegCode::AF | RegCode::PC => true,
            _ => false,
        }
    }

    /// Decides [`RegCode::spec_is_direct_operand`].
    #[verifier::when_used_as_spec(spec_is_direct_operand)]
    pub fn is_direct_operand(self) -> (answer: bool)
        ensures
            answer == self.spec_is_direct_operand(),
    {
        match self {
            RegCode::A | RegCode::Const8(_) | RegCode::Const16(_) => true,
            _ => false,
        }
    }
}

} // verus!
