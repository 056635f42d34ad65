//! Instructions and their operands in words, for traces and messages.

use vstd::prelude::*;
use vstd::string::StringExecFns;
use crate::cpu::CondCode;
use crate::cpu::RegCode;
use crate::emulation::Instruction;
use crate::emulation::InvalidOpcode;

verus! {

/// The digit for a number below 16: `0` to `9`, then `a` to `f`.
pub open spec fn spec_digit(digit: int) -> Seq<char> {
    if digit == 0 {
        "0"@
    } else if digit == 1 {
        "1"@
    } else if digit == 2 {
        "2"@
    } else if digit == 3 {
        "3"@
    } else if digit == 4 {
        "4"@
    } else if digit == 5 {
        "5"@
    } else if digit == 6 {
        "6"@
    } else if digit == 7 {
        "7"@
    } else if digit == 8 {
        "8"@
    } else if digit == 9 {
        "9"@
    } else if digit == 10 {
        "a"@
    } else if digit == 11 {
        "b"@
    } else if digit == 12 {
        "c"@
    } else if digit == 13 {
        "d"@
    } else if digit == 14 {
        "e"@
    } else {
        "f"@
    }
}

/// A byte as `0x` and two hexadecimal digits.
pub open spec fn spec_hex8(value: u8) -> Seq<char> {
    "0x"@ + spec_digit(value as int / 16) + spec_digit(value as int % 16)
}

/// A 16-bit word as `0x` and four hexadecimal digits.
pub open spec fn spec_hex16(value: u16) -> Seq<char> {
    "0x"@ + spec_digit(value as int / 0x1000) + spec_digit((value as int / 0x100) % 16) + spec_digit(
        (value as int / 0x10) % 16,
    ) + spec_digit(value as int % 16)
}

/// The byte that holds a signed number in two's complement.
pub open spec fn spec_unsigned(value: i8) -> u8 {
    if value < 0 {
        (value + 0x100) as u8
    } else {
        value as u8
    }
}

/// A natural number in decimal digits, without leading zeros.
pub open spec fn spec_decimal(value: nat) -> Seq<char>
    decreases value,
{
    if value < 10 {
        spec_digit(value as int)
    } else {
        spec_decimal(value / 10) + spec_digit((value % 10) as int)
    }
}

/// The digit for a number below 16.
fn digit(number: u8) -> (text: &'static str)
    requires
        number < 16,
    ensures
        text@ == spec_digit(number as int),
{
    match number {
        0 => "0",
        1 => "1",
        2 => "2",
        3 => "3",
        4 => "4",
        5 => "5",
        6 => "6",
        7 => "7",
        8 => "8",
        9 => "9",
        10 => "a",
        11 => "b",
        12 => "c",
        13 => "d",
        14 => "e",
        _ => "f",
    }
}

/// Writes a byte as `0x` and two hexadecimal digits.
pub fn hex8(value: u8) -> (text: String)
    ensures
        text@ == spec_hex8(value),
{
    let mut text = String::from_str("0x");
    text.append(digit(value / 16));
    text.append(digit(value % 16));
    text
}

/// Writes a 16-bit word as `0x` and four hexadecimal digits.
pub fn hex16(value: u16) -> (text: String)
    ensures
        text@ == spec_hex16(value),
{
    let mut text = String::from_str("0x");
    text.append(digit((value / 0x1000) as u8));
    text.append(digit(((value / 0x100) % 16) as u8));
    text.append(digit(((value / 0x10) % 16) as u8));
    text.append(digit((value % 16) as u8));
    text
}

/// Writes a signed byte as the two hexadecimal digits of its two's
/// complement.
pub fn hex8_signed(value: i8) -> (text: String)
    ensures
        text@ == spec_hex8(spec_unsigned(value)),
{
    let byte: u8 = if value < 0 {
        (value as i16 + 0x100) as u8
    } else {
        value as u8
    };
    hex8(byte)
}

/// Writes a number in decimal digits.
pub fn decimal(value: usize) -> (text: String)
    ensures
        text@ == spec_decimal(value as nat),
    decreases value,
{
    if value < 10 {
        String::from_str(digit(value as u8))
    } else {
        let mut text = decimal(value / 10);
        text.append(digit((value % 10) as u8));
        text
    }
}

impl RegCode {
    /// The operand in words: the name of the register or pair, or the
    /// immediate in hexadecimal.
    pub open spec fn spec_name(self) -> Seq<char> {
        match self {
            RegCode::A => "A"@,
            RegCode::B => "B"@,
            RegCode::C => "C"@,
            RegCode::D => "D"@,
            RegCode::E => "E"@,
            RegCode::H => "H"@,
            RegCode::L => "L"@,
            RegCode::BC => "BC"@,
            RegCode::DE => "DE"@,
            RegCode::HL => "HL"@,
            RegCode::SP => "SP"@,
            RegCode::AF => "AF"@,
            RegCode::PC => "PC"@,
            RegCode::Const8(value) => spec_hex8(value),
            RegCode::Const16(value) => spec_hex16(value),
        }
    }

    pub fn name(self) -> (text: String)
        ensures
            text@ == self.spec_name(),
    {
        match self {
            RegCode::A => String::from_str("A"),
            RegCode::B => String::from_str("B"),
            RegCode::C => String::from_str("C"),
            RegCode::D => String::from_str("D"),
            RegCode::E => String::from_str("E"),
            RegCode::H => String::from_str("H"),
            RegCode::L => String::from_str("L"),
            RegCode::BC => String::from_str("BC"),
            RegCode::DE => String::from_str("DE"),
            RegCode::HL => String::from_str("HL"),
            RegCode::SP => String::from_str("SP"),
            RegCode::AF => String::from_str("AF"),
            RegCode::PC => String::from_str("PC"),
            RegCode::Const8(value) => hex8(value),
            RegCode::Const16(value) => hex16(value),
        }
    }
}

impl CondCode {
    /// The condition in words.
    pub open spec fn spec_name(self) -> Seq<char> {
        match self {
            CondCode::NZ => "NZ"@,
            CondCode::NC => "NC"@,
            CondCode::Z => "Z"@,
            CondCode::C => "C"@,
            CondCode::Always => "Always"@,
        }
    }

    pub fn name(self) -> (text: String)
        ensures
            text@ == self.spec_name(),
    {
        match self {
            CondCode::NZ => String::from_str("NZ"),
            CondCode::NC => String::from_str("NC"),
            CondCode::Z => String::from_str("Z"),
            CondCode::C => String::from_str("C"),
            CondCode::Always => String::from_str("Always"),
        }
    }
}

/// `head` followed by `value`.
fn with_one(head: &str, value: String) -> (text: String)
    ensures
        text@ == head@ + value@,
{
    let mut text = String::from_str(head);
    text.append(value.as_str());
    text
}

/// `head`, `first`, `middle` and `second` in a row.
fn with_two(head: &str, first: String, middle: &str, second: String) -> (text: String)
    ensures
        text@ == head@ + first@ + middle@ + second@,
{
    let mut text = String::from_str(head);
    text.append(first.as_str());
    text.append(middle);
    text.append(second.as_str());
    text
}

impl Instruction {
    /// What the instruction does, in words.
    pub open spec fn spec_describe(self) -> Seq<char> {
        match self {
            Instruction::PLACEHOLDER => "Placeholder Code"@,
            Instruction::NOP => "NOP"@,
            Instruction::STOP => "STOP"@,
            Instruction::HALT => "HALT"@,
            Instruction::DI => "Disable Interrupts"@,
            Instruction::EI => "Enable Interrupts"@,
            Instruction::JR(condition, by) => "Relative jump based on "@ + condition.spec_name() + ", and by "@ + spec_hex8(
                spec_unsigned(by),
            ),
            Instruction::LD8(target, source) => "LD"@,
            Instruction::LD16(target, source)
            | Instruction::LDW(target, source)
            | Instruction::LDD(target, source)
            | Instruction::LDI(target, source) => "LD from "@ + source.spec_name() + ", into "@ + target.spec_name(),
            Instruction::INC16(code) | Instruction::INC8(code) => "Incrementing "@ + code.spec_name(),
            Instruction::DEC16(code) | Instruction::DEC8(code) => "Decrementing "@ + code.spec_name(),
            Instruction::RLCA => "Rotating A left"@,
            Instruction::RLA => "Rotating A left through carry"@,
            Instruction::RRCA => "Rotating A right"@,
            Instruction::RRA => "Rotating A right through carry"@,
            Instruction::ADDSP(by) => "Adding "@ + spec_hex8(spec_unsigned(by)) + " to the stack pointer"@,
            Instruction::ADD8(code) | Instruction::ADD16(code) => "Adding to a from "@ + code.spec_name(),
            Instruction::SUB(code) => "Subtracting from a by "@ + code.spec_name(),
            Instruction::AND(code) => "Anding a by "@ + code.spec_name(),
            Instruction::XOR(code) => "XORing a by "@ + code.spec_name(),
            Instruction::OR(code) => "ORing a by "@ + code.spec_name(),
            Instruction::SBC(code) => "Subtracting to a with cary by "@ + code.spec_name(),
            Instruction::ADC(code) => "Adding to a with carry by "@ + code.spec_name(),
            Instruction::CP(code) => "Comparing by "@ + code.spec_name(),
            Instruction::PUSH(code) => "Pushing from "@ + code.spec_name(),
            Instruction::POP(code) => "Poping into "@ + code.spec_name(),
            Instruction::RET(condition) => "Returning based on "@ + condition.spec_name(),
            Instruction::RETI => "Returning and enabling Interrupts"@,
            Instruction::JP(condition, to) => "Jumping based on "@ + condition.spec_name() + ", to "@ + spec_hex16(to),
            Instruction::JPHL => "Jumping to HL"@,
            Instruction::RST(to) => "Calling RST and going to "@ + spec_hex16(to),
            Instruction::CALL(condition, to) => "Calling function at "@ + spec_hex16(to) + ", based on "@
                + condition.spec_name(),
            Instruction::RLC(code) => "Rotating left at "@ + code.spec_name(),
            Instruction::RRC(code) => "Rotating right at "@ + code.spec_name(),
            Instruction::RL(code) => "Rotating left through the carry at "@ + code.spec_name(),
            Instruction::RR(code) => "Rotating right through the carry at "@ + code.spec_name(),
            Instruction::SLA(code) => "Shifting left at "@ + code.spec_name(),
            Instruction::SRA(code) => "Shifting right arithmetically at "@ + code.spec_name(),
            Instruction::SRL(code) => "Shifting right logically at "@ + code.spec_name(),
            Instruction::SWAP(code) => "Swapping bytes at "@ + code.spec_name(),
            Instruction::BIT(bit, code) => "Checking bit "@ + spec_decimal(bit as nat) + " at "@ + code.spec_name(),
            Instruction::RES(bit, code) => "Unsetting bit "@ + spec_decimal(bit as nat) + " at "@ + code.spec_name(),
            Instruction::SET(bit, code) => "Setting bit "@ + spec_decimal(bit as nat) + " at "@ + code.spec_name(),
        }
    }

    /// Writes what the instruction does, in words.
    pub fn describe(self) -> (text: String)
        ensures
            text@ == self.spec_describe(),
    {
        match self {
            Instruction::PLACEHOLDER => String::from_str("Placeholder Code"),
            Instruction::NOP => String::from_str("NOP"),
            Instruction::STOP => String::from_str("STOP"),
            Instruction::HALT => String::from_str("HALT"),
            Instruction::DI => String::from_str("Disable Interrupts"),
            Instruction::EI => String::from_str("Enable Interrupts"),
            Instruction::JR(condition, by) => with_two(
                "Relative jump based on ",
                condition.name(),
                ", and by ",
                hex8_signed(by),
            ),
            Instruction::LD8(_, _) => String::from_str("LD"),
            Instruction::LD16(target, source)
            | Instruction::LDW(target, source)
            | Instruction::LDD(target, source)
            | Instruction::LDI(target, source) => with_two("LD from ", source.name(), ", into ", target.name()),
            Instruction::INC16(code) | Instruction::INC8(code) => with_one("Incrementing ", code.name()),
            Instruction::DEC16(code) | Instruction::DEC8(code) => with_one("Decrementing ", code.name()),
            Instruction::RLCA => String::from_str("Rotating A left"),
            Instruction::RLA => String::from_str("Rotating A left through carry"),
            Instruction::RRCA => String::from_str("Rotating A right"),
            Instruction::RRA => String::from_str("Rotating A right through carry"),
            Instruction::ADDSP(by) => {
                let mut text = with_one("Adding ", hex8_signed(by));
                text.append(" to the stack pointer");
                text
            },
            Instruction::ADD8(code) | Instruction::ADD16(code) => with_one("Adding to a from ", code.name()),
            Instruction::SUB(code) => with_one("Subtracting from a by ", code.name()),
            Instruction::AND(code) => with_one("Anding a by ", code.name()),
            Instruction::XOR(code) => with_one("XORing a by ", code.name()),
            Instruction::OR(code) => with_one("ORing a by ", code.name()),
            Instruction::SBC(code) => with_one("Subtracting to a with cary by ", code.name()),
            Instruction::ADC(code) => with_one("Adding to a with carry by ", code.name()),
            Instruction::CP(code) => with_one("Comparing by ", code.name()),
            Instruction::PUSH(code) => with_one("Pushing from ", code.name()),
            Instruction::POP(code) => with_one("Poping into ", code.name()),
            Instruction::RET(condition) => with_one("Returning based on ", condition.name()),
            Instruction::RETI => String::from_str("Returning and enabling Interrupts"),
            Instruction::JP(condition, to) => with_two("Jumping based on ", condition.name(), ", to ", hex16(to)),
            Instruction::JPHL => String::from_str("Jumping to HL"),
            Instruction::RST(to) => with_one("Calling RST and going to ", hex16(to)),
            Instruction::CALL(condition, to) => with_two("Calling function at ", hex16(to), ", based on ", condition.name()),
            Instruction::RLC(code) => with_one("Rotating left at ", code.name()),
            Instruction::RRC(code) => with_one("Rotating right at ", code.name()),
            Instruction::RL(code) => with_one("Rotating left through the carry at ", code.name()),
            Instruction::RR(code) => with_one("Rotating right through the carry at ", code.name()),
            Instruction::SLA(code) => with_one("Shifting left at ", code.name()),
            Instruction::SRA(code) => with_one("Shifting right arithmetically at ", code.name()),
            Instruction::SRL(code) => with_one("Shifting right logically at ", code.name()),
            Instruction::SWAP(code) => with_one("Swapping bytes at ", code.name()),
            Instruction::BIT(bit, code) => with_two("Checking bit ", decimal(bit), " at ", code.name()),
            Instruction::RES(bit, code) => with_two("Unsetting bit ", decimal(bit), " at ", code.name()),
            Instruction::SET(bit, code) => with_two("Setting bit ", decimal(bit), " at ", code.name()),
        }
    }
}

impl InvalidOpcode {
    /// What went wrong, in words, with the opcode in decimal.
    pub open spec fn spec_message(self) -> Seq<char> {
        "Invalid Opcode: "@ + spec_decimal(self.opcode as nat) + " | Instruction could not be fetched."@
    }

    /// Writes what went wrong, in words.
    pub fn message(self) -> (text: String)
        ensures
            text@ == self.spec_message(),
    {
        let mut text = with_one("Invalid Opcode: ", decimal(self.opcode as usize));
        text.append(" | Instruction could not be fetched.");
        text
    }
}

} // verus!
