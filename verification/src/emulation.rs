//! Instructions: their decoding from bytes and their execution.

use vstd::prelude::*;
use crate::cpu::machine::is_restart_vector;
use crate::cpu::machine::Machine;
use crate::cpu::register::Flags;
use crate::cpu::CondCode;
use crate::cpu::Cpu;
use crate::cpu::RegCode;
use crate::util::wrap16;

verus! {

/// A decoded instruction with its operands.
#[derive(Clone, Copy, Debug, PartialEq, Eq, Structural)]
pub enum Instruction {
    /// Stands for no instruction; never decoded and never executed.
    PLACEHOLDER,
    NOP,
    STOP,
    HALT,
    DI,
    EI,
    JR(CondCode, i8),
    LD16(RegCode, RegCode),
    LD8(RegCode, RegCode),
    LDW(RegCode, RegCode),
    LDD(RegCode, RegCode),
    LDI(RegCode, RegCode),
    INC16(RegCode),
    INC8(RegCode),
    DEC16(RegCode),
    DEC8(RegCode),
    RLCA,
    RLA,
    RRCA,
    RRA,
    ADDSP(i8),
    ADD8(RegCode),
    ADD16(RegCode),
    SUB(RegCode),
    AND(RegCode),
    XOR(RegCode),
    OR(RegCode),
    SBC(RegCode),
    ADC(RegCode),
    CP(RegCode),
    PUSH(RegCode),
    POP(RegCode),
    RET(CondCode),
    RETI,
    JP(CondCode, u16),
    JPHL,
    RST(u16),
    CALL(CondCode, u16),
    RLC(RegCode),
    RRC(RegCode),
    RL(RegCode),
    RR(RegCode),
    SLA(RegCode),
    SRA(RegCode),
    SRL(RegCode),
    SWAP(RegCode),
    BIT(usize, RegCode),
    RES(usize, RegCode),
    SET(usize, RegCode),
}

/// The byte that announces an instruction of the second table.
pub const PREFIX: u8 = 0xCB;

/// An opcode of the first table that stands for no instruction.
#[derive(Clone, Copy, Debug, PartialEq, Eq, Structural)]
pub struct InvalidOpcode {
    pub opcode: u8,
}

/// What the caller of [`run`] is to do next.
#[derive(Clone, Copy, Debug, PartialEq, Eq, Structural)]
pub enum RunOutcome {
    /// Go on with the next instruction.
    Continue,
    /// A STOP was executed: the emulation is over.
    Stop,
}

/// The 8-bit operand that three bits of an opcode select.
pub open spec fn spec_register_operand(index: int) -> RegCode {
    if index == 0 {
        RegCode::B
    } else if index == 1 {
        RegCode::C
    } else if index == 2 {
        RegCode::D
    } else if index == 3 {
        RegCode::E
    } else if index == 4 {
        RegCode::H
    } else if index == 5 {
        RegCode::L
    } else if index == 6 {
        RegCode::HL
    } else {
        RegCode::A
    }
}

/// The 16-bit register that two bits of an opcode select.
pub open spec fn spec_register16(index: int) -> RegCode {
    if index == 0 {
        RegCode::BC
    } else if index == 1 {
        RegCode::DE
    } else if index == 2 {
        RegCode::HL
    } else {
        RegCode::SP
    }
}

/// The pair that two bits of a push or pop select.
pub open spec fn spec_stack_pair(index: int) -> RegCode {
    if index == 3 {
        RegCode::AF
    } else {
        spec_register16(index)
    }
}

/// The condition that two bits of an opcode select.
pub open spec fn spec_branch_condition(index: int) -> CondCode {
    if index == 0 {
        CondCode::NZ
    } else if index == 1 {
        CondCode::Z
    } else if index == 2 {
        CondCode::NC
    } else {
        CondCode::C
    }
}

/// The arithmetic or logic instruction that three bits of an opcode select.
pub open spec fn spec_arithmetic(index: int, operand: RegCode) -> Instruction {
    if index == 0 {
        Instruction::ADD8(operand)
    } else if index == 1 {
        Instruction::ADC(operand)
    } else if index == 2 {
        Instruction::SUB(operand)
    } else if index == 3 {
        Instruction::SBC(operand)
    } else if index == 4 {
        Instruction::AND(operand)
    } else if index == 5 {
        Instruction::XOR(operand)
    } else if index == 6 {
        Instruction::OR(operand)
    } else {
        Instruction::CP(operand)
    }
}

/// A byte read as a signed number in two's complement.
pub open spec fn spec_signed(byte: u8) -> i8 {
    if byte < 0x80 {
        byte as i8
    } else {
        (byte - 0x100) as i8
    }
}

/// The instruction that `code` selects in the second table.  Bits 0 to 2
/// select the operand and bits 3 to 5 the row: in the first quarter the row
/// is the rotation or shift, in the other three it is the bit that BIT, RES
/// or SET works on.
pub open spec fn spec_decode_prefixed(code: u8) -> Instruction {
    let operand = spec_register_operand((code % 8) as int);
    let row = ((code / 8) % 8) as int;
    if code < 0x40 {
        if row == 0 {
            Instruction::RLC(operand)
        } else if row == 1 {
            Instruction::RRC(operand)
        } else if row == 2 {
            Instruction::RL(operand)
        } else if row == 3 {
            Instruction::RR(operand)
        } else if row == 4 {
            Instruction::SLA(operand)
        } else if row == 5 {
            Instruction::SRA(operand)
        } else if row == 6 {
            Instruction::SWAP(operand)
        } else {
            Instruction::SRL(operand)
        }
    } else if code < 0x80 {
        Instruction::BIT(row as usize, operand)
    } else if code < 0xC0 {
        Instruction::RES(row as usize, operand)
    } else {
        Instruction::SET(row as usize, operand)
    }
}

/// The instruction that `opcode` selects in the first quarter of the first
/// table, by its column (bits 0 to 2) and row (bits 3 to 5).
pub open spec fn spec_decode_low(opcode: u8, first: u8, second: u8) -> Option<Instruction> {
    let column = (opcode % 8) as int;
    let row = ((opcode / 8) % 8) as int;
    let word = (first * 0x100 + second) as u16;
    if column == 0 {
        if row == 0 {
            Some(Instruction::NOP)
        } else if row == 1 {
            Some(Instruction::LD16(RegCode::Const16(word), RegCode::SP))
        } else if row == 2 {
            Some(Instruction::STOP)
        } else if row == 3 {
            Some(Instruction::JR(CondCode::Always, spec_signed(first)))
        } else {
            Some(Instruction::JR(spec_branch_condition(row - 4), spec_signed(first)))
        }
    } else if column == 1 {
        if row % 2 == 0 {
            Some(Instruction::LD16(spec_register16(row / 2), RegCode::Const16(word)))
        } else {
            Some(Instruction::ADD16(spec_register16(row / 2)))
        }
    } else if column == 2 {
        let pointer = if row / 2 == 0 {
            RegCode::BC
        } else if row / 2 == 1 {
            RegCode::DE
        } else {
            RegCode::HL
        };
        let target = if row % 2 == 0 {
            pointer
        } else {
            RegCode::A
        };
        let source = if row % 2 == 0 {
            RegCode::A
        } else {
            pointer
        };
        if row / 2 == 2 {
            Some(Instruction::LDI(target, source))
        } else if row / 2 == 3 {
            Some(Instruction::LDD(target, source))
        } else {
            Some(Instruction::LD8(target, source))
        }
    } else if column == 3 {
        if row % 2 == 0 {
            Some(Instruction::INC16(spec_register16(row / 2)))
        } else {
            Some(Instruction::DEC16(spec_register16(row / 2)))
        }
    } else if column == 4 {
        Some(Instruction::INC8(spec_register_operand(row as int)))
    } else if column == 5 {
        Some(Instruction::DEC8(spec_register_operand(row as int)))
    } else if column == 6 {
        Some(Instruction::LD8(spec_register_operand(row as int), RegCode::Const8(first)))
    } else {
        if row == 0 {
            Some(Instruction::RLCA)
        } else if row == 1 {
            Some(Instruction::RRCA)
        } else if row == 2 {
            Some(Instruction::RLA)
        } else if row == 3 {
            Some(Instruction::RRA)
        } else {
            None
        }
    }
}

/// The instruction that `opcode` selects in the last quarter of the first
/// table, by its column (bits 0 to 2) and row (bits 3 to 5).  The prefix
/// byte has no entry here.  0xD3 is taken as a NOP.
pub open spec fn spec_decode_high(opcode: u8, first: u8, second: u8) -> Option<Instruction> {
    let column = (opcode % 8) as int;
    let row = ((opcode / 8) % 8) as int;
    let word = (first * 0x100 + second) as u16;
    if column == 0 {
        if row < 4 {
            Some(Instruction::RET(spec_branch_condition(row as int)))
        } else if row == 4 {
            Some(Instruction::LDW(RegCode::Const8(first), RegCode::A))
        } else if row == 6 {
            Some(Instruction::LDW(RegCode::A, RegCode::Const8(first)))
        } else {
            None
        }
    } else if column == 1 {
        if row % 2 == 0 {
            Some(Instruction::POP(spec_stack_pair(row / 2)))
        } else if row == 1 {
            Some(Instruction::RET(CondCode::Always))
        } else if row == 3 {
            Some(Instruction::RETI)
        } else if row == 5 {
            Some(Instruction::JPHL)
        } else {
            None
        }
    } else if column == 2 {
        if row < 4 {
            Some(Instruction::JP(spec_branch_condition(row as int), word))
        } else if row == 4 {
            Some(Instruction::LDW(RegCode::C, RegCode::A))
        } else if row == 5 {
            Some(Instruction::LDW(RegCode::Const16(word), RegCode::A))
        } else if row == 6 {
            Some(Instruction::LDW(RegCode::A, RegCode::C))
        } else {
            Some(Instruction::LDW(RegCode::A, RegCode::Const16(word)))
        }
    } else if column == 3 {
        if row == 0 {
            Some(Instruction::JP(CondCode::Always, word))
        } else if row == 2 {
            Some(Instruction::NOP)
        } else if row == 6 {
            Some(Instruction::DI)
        } else if row == 7 {
            Some(Instruction::EI)
        } else {
            None
        }
    } else if column == 4 {
        if row < 4 {
            Some(Instruction::CALL(spec_branch_condition(row as int), word))
        } else {
            None
        }
    } else if column == 5 {
        if row % 2 == 0 {
            Some(Instruction::PUSH(spec_stack_pair(row / 2)))
        } else if row == 1 {
            Some(Instruction::CALL(CondCode::Always, word))
        } else {
            None
        }
    } else if column == 6 {
        Some(spec_arithmetic(row as int, RegCode::Const8(first)))
    } else {
        Some(Instruction::RST((row * 8) as u16))
    }
}

/// The instruction that starts with `opcode`, where `first` and `second`
/// are the two bytes that follow it; `None` where `opcode` stands for no
/// instruction.  After the prefix byte, `first` selects from the second
/// table.  A 16-bit operand has its high byte in `first`.
pub open spec fn spec_decode(opcode: u8, first: u8, second: u8) -> Option<Instruction> {
    if opcode == PREFIX {
        Some(spec_decode_prefixed(first))
    } else if opcode < 0x40 {
        spec_decode_low(opcode, first, second)
    } else if opcode == 0x76 {
        Some(Instruction::HALT)
    } else if opcode < 0x80 {
        Some(Instruction::LD8(spec_register_operand(((opcode / 8) % 8) as int), spec_register_operand((opcode % 8) as int)))
    } else if opcode < 0xC0 {
        Some(spec_arithmetic(((opcode / 8) % 8) as int, spec_register_operand((opcode % 8) as int)))
    } else {
        spec_decode_high(opcode, first, second)
    }
}

/// How many bytes after `opcode` belong to its instruction.
pub open spec fn spec_operand_length(opcode: u8) -> int {
    let column = (opcode % 8) as int;
    let row = ((opcode / 8) % 8) as int;
    if opcode == PREFIX {
        1
    } else if opcode < 0x40 {
        if column == 6 || (column == 0 && row >= 3) {
            1
        } else if opcode == 0x08 || (column == 1 && row % 2 == 0) {
            2
        } else {
            0
        }
    } else if opcode < 0xC0 {
        0
    } else {
        if column == 6 || opcode == 0xE0 || opcode == 0xF0 {
            1
        } else if opcode == 0xC3 || opcode == 0xCD || opcode == 0xEA || opcode == 0xFA || ((column == 2 || column == 4) && row
            < 4) {
            2
        } else {
            0
        }
    }
}

/// Whether `opcode` starts an instruction.
pub open spec fn spec_is_defined(opcode: u8) -> bool {
    spec_decode(opcode, 0, 0) is Some
}

impl Instruction {
    /// Whether the instruction can be executed: its operands are among
    /// those that its operation takes.  RETI and the placeholder cannot.
    pub open spec fn spec_is_executable(self) -> bool {
        match self {
            Instruction::PLACEHOLDER | Instruction::RETI => false,
            Instruction::LD16(target, source) => target.is_load16_operand() && source.is_load16_operand(),
            Instruction::LD8(target, source) => target.is_load8_operand() && source.is_load8_operand(),
            Instruction::LDW(target, source) => target.is_direct_operand() && source.is_direct_operand(),
            Instruction::LDD(target, source) | Instruction::LDI(target, source) => (target is HL && source is A) || (target is A
                && source is HL),
            Instruction::INC16(code) | Instruction::DEC16(code) | Instruction::ADD16(code) => code.is_register16(),
            Instruction::INC8(code) | Instruction::DEC8(code) => code.is_operand8(),
            Instruction::ADD8(code)
            | Instruction::SUB(code)
            | Instruction::AND(code)
            | Instruction::XOR(code)
            | Instruction::OR(code)
            | Instruction::SBC(code)
            | Instruction::ADC(code)
            | Instruction::CP(code) => code.is_source8(),
            Instruction::PUSH(code) | Instruction::POP(code) => code.is_stack_operand(),
            Instruction::RST(to) => is_restart_vector(to),
            Instruction::RLC(code)
            | Instruction::RRC(code)
            | Instruction::RL(code)
            | Instruction::RR(code)
            | Instruction::SLA(code)
            | Instruction::SRA(code)
            | Instruction::SRL(code)
            | Instruction::SWAP(code) => code.is_operand8(),
            Instruction::BIT(bit, code) | Instruction::RES(bit, code) | Instruction::SET(bit, code) => bit < 8
                && code.is_operand8(),
            _ => true,
        }
    }

    #[verifier::when_used_as_spec(spec_is_executable)]
    pub fn is_executable(self) -> (answer: bool)
        ensures
            answer == self.spec_is_executable(),
    {
        match self {
            Instruction::PLACEHOLDER | Instruction::RETI => false,
            Instruction::LD16(target, source) => target.is_load16_operand() && source.is_load16_operand(),
            Instruction::LD8(target, source) => target.is_load8_operand() && source.is_load8_operand(),
            Instruction::LDW(target, source) => target.is_direct_operand() && source.is_direct_operand(),
            Instruction::LDD(target, source) | Instruction::LDI(target, source) => match (target, source) {
                (RegCode::HL, RegCode::A) | (RegCode::A, RegCode::HL) => true,
                _ => false,
            },
            Instruction::INC16(code) | Instruction::DEC16(code) | Instruction::ADD16(code) => code.is_register16(),
            Instruction::INC8(code) | Instruction::DEC8(code) => code.is_operand8(),
            Instruction::ADD8(code)
            | Instruction::SUB(code)
            | Instruction::AND(code)
            | Instruction::XOR(code)
            | Instruction::OR(code)
            | Instruction::SBC(code)
            | Instruction::ADC(code)
            | Instruction::CP(code) => code.is_source8(),
            Instruction::PUSH(code) | Instruction::POP(code) => code.is_stack_operand(),
            Instruction::RST(to) => to % 8 == 0 && to <= 0x38,
            Instruction::RLC(code)
            | Instruction::RRC(code)
            | Instruction::RL(code)
            | Instruction::RR(code)
            | Instruction::SLA(code)
            | Instruction::SRA(code)
            | Instruction::SRL(code)
            | Instruction::SWAP(code) => code.is_operand8(),
            Instruction::BIT(bit, code) | Instruction::RES(bit, code) | Instruction::SET(bit, code) => bit < 8
                && code.is_operand8(),
            _ => true,
        }
    }
}

/// The state after `instruction` has been executed in state `machine`.
/// STOP and NOP leave the state as it is.
pub open spec fn effect(machine: Machine, instruction: Instruction) -> Machine {
    match instruction {
        Instruction::HALT => machine.halt(),
        Instruction::DI => machine.di(),
        Instruction::EI => machine.ei(),
        Instruction::JR(condition, displacement) => machine.jump_relative(condition, displacement),
        Instruction::LD16(target, source) => machine.load16(target, source),
        Instruction::LD8(target, source) => machine.load8(target, source),
        Instruction::LDW(target, source) => machine.load_weird(target, source),
        Instruction::LDD(target, source) => machine.load_dec(target, source),
        Instruction::LDI(target, source) => machine.load_inc(target, source),
        Instruction::INC16(target) => machine.increment16(target),
        Instruction::INC8(target) => machine.increment8(target),
        Instruction::DEC16(target) => machine.decrement16(target),
        Instruction::DEC8(target) => machine.decrement8(target),
        Instruction::RLCA => machine.rotate_left_a(),
        Instruction::RLA => machine.rotate_left_carry_a(),
        Instruction::RRCA => machine.rotate_right_a(),
        Instruction::RRA => machine.rotate_right_carry_a(),
        Instruction::ADDSP(displacement) => machine.add_sp(displacement),
        Instruction::ADD8(source) => machine.add8(source),
        Instruction::ADD16(source) => machine.add16(source),
        Instruction::SUB(source) => machine.sub(source),
        Instruction::AND(source) => machine.and(source),
        Instruction::XOR(source) => machine.xor(source),
        Instruction::OR(source) => machine.or(source),
        Instruction::SBC(source) => machine.subc(source),
        Instruction::ADC(source) => machine.addc(source),
        Instruction::CP(source) => machine.cp(source),
        Instruction::PUSH(source) => machine.push(source),
        Instruction::POP(target) => machine.pop(target),
        Instruction::RET(condition) => machine.ret(condition),
        Instruction::JP(condition, to) => machine.jump(condition, to),
        Instruction::JPHL => machine.jump_hl(),
        Instruction::RST(to) => machine.restart(to),
        Instruction::CALL(condition, to) => machine.call(condition, to),
        Instruction::RLC(code) => machine.rotate_left(code),
        Instruction::RRC(code) => machine.rotate_right(code),
        Instruction::RL(code) => machine.rotate_left_carry(code),
        Instruction::RR(code) => machine.rotate_right_carry(code),
        Instruction::SLA(code) => machine.shift_left(code),
        Instruction::SRA(code) => machine.shift_right_arithmetic(code),
        Instruction::SRL(code) => machine.shift_right_logical(code),
        Instruction::SWAP(code) => machine.swap(code),
        Instruction::BIT(bit, code) => machine.bit_check_zero(bit as nat, code),
        Instruction::RES(bit, code) => machine.bit_reset(bit as nat, code),
        Instruction::SET(bit, code) => machine.bit_set(bit as nat, code),
        _ => machine,
    }
}

/// The instruction at the program counter of `machine`, if there is one.
pub open spec fn instruction_at(machine: Machine) -> Option<Instruction> {
    let pc = machine.registers.pc;
    spec_decode(machine.byte(pc), machine.byte(wrap16(pc + 1)), machine.byte(wrap16(pc + 2)))
}

/// The state after the instruction at the program counter has been fetched:
/// the program counter has moved past the opcode and its operand bytes.
pub open spec fn after_fetch(machine: Machine) -> Machine {
    let pc = machine.registers.pc;
    machine.with_pc(wrap16(pc + 1 + spec_operand_length(machine.byte(pc))))
}

/// The 8-bit operand that three bits of an opcode select.
fn register_operand(index: u8) -> (operand: RegCode)
    requires
        index < 8,
    ensures
        operand == spec_register_operand(index as int),
{
    match index {
        0 => RegCode::B,
        1 => RegCode::C,
        2 => RegCode::D,
        3 => RegCode::E,
        4 => RegCode::H,
        5 => RegCode::L,
        6 => RegCode::HL,
        _ => RegCode::A,
    }
}

/// The arithmetic or logic instruction that three bits of an opcode select.
fn arithmetic(index: u8, operand: RegCode) -> (instruction: Instruction)
    requires
        index < 8,
    ensures
        instruction == spec_arithmetic(index as int, operand),
{
    match index {
        0 => Instruction::ADD8(operand),
        1 => Instruction::ADC(operand),
        2 => Instruction::SUB(operand),
        3 => Instruction::SBC(operand),
        4 => Instruction::AND(operand),
        5 => Instruction::XOR(operand),
        6 => Instruction::OR(operand),
        _ => Instruction::CP(operand),
    }
}

/// Reads a byte as a signed number in two's complement.
pub fn signed(byte: u8) -> (value: i8)
    ensures
        value == spec_signed(byte),
        value == (if byte < 0x80 { byte as int } else { byte - 0x100 }),
{
    assert(byte as i8 == (if byte < 0x80u8 { byte as int } else { byte - 0x100 })) by (bit_vector);
    byte as i8
}

/// How the fields of an opcode are cut out of it.
proof fn lemma_opcode_fields(opcode: u8)
    by (bit_vector)
    ensures
        opcode & 7 == opcode % 8,
        (opcode >> 3u8) & 7 == (opcode / 8) % 8,
        (opcode >> 6u8) == opcode / 64,
{
}

/// Decodes a byte of the second table, the one that follows the prefix.
/// Every byte stands for an instruction there.
#[verifier::when_used_as_spec(spec_decode_prefixed)]
pub fn decode_prefixed(code: u8) -> (instruction: Instruction)
    ensures
        instruction == spec_decode_prefixed(code),
        instruction.is_executable(),
{
    proof {
        lemma_opcode_fields(code);
    }
    let operand = register_operand(code & 7);
    let row: u8 = (code >> 3) & 7;
    match code >> 6 {
        0 => match row {
            0 => Instruction::RLC(operand),
            1 => Instruction::RRC(operand),
            2 => Instruction::RL(operand),
            3 => Instruction::RR(operand),
            4 => Instruction::SLA(operand),
            5 => Instruction::SRA(operand),
            6 => Instruction::SWAP(operand),
            _ => Instruction::SRL(operand),
        },
        1 => Instruction::BIT(row as usize, operand),
        2 => Instruction::RES(row as usize, operand),
        _ => Instruction::SET(row as usize, operand),
    }
}

/// Decodes an opcode of the first and the last quarter of the first table,
/// entry by entry.
fn decode_outer(opcode: u8, first: u8, second: u8) -> (decoded: Option<Instruction>)
    requires
        opcode < 0x40 || opcode >= 0xC0,
        opcode != PREFIX,
    ensures
        decoded == spec_decode(opcode, first, second),
{
    let word: u16 = first as u16 * 0x100 + second as u16;
    let displacement = signed(first);
    match opcode {
        0x00 => Some(Instruction::NOP),
        0x01 => Some(Instruction::LD16(RegCode::BC, RegCode::Const16(word))),
        0x02 => Some(Instruction::LD8(RegCode::BC, RegCode::A)),
        0x03 => Some(Instruction::INC16(RegCode::BC)),
        0x04 => Some(Instruction::INC8(RegCode::B)),
        0x05 => Some(Instruction::DEC8(RegCode::B)),
        0x06 => Some(Instruction::LD8(RegCode::B, RegCode::Const8(first))),
        0x07 => Some(Instruction::RLCA),
        0x08 => Some(Instruction::LD16(RegCode::Const16(word), RegCode::SP)),
        0x09 => Some(Instruction::ADD16(RegCode::BC)),
        0x0A => Some(Instruction::LD8(RegCode::A, RegCode::BC)),
        0x0B => Some(Instruction::DEC16(RegCode::BC)),
        0x0C => Some(Instruction::INC8(RegCode::C)),
        0x0D => Some(Instruction::DEC8(RegCode::C)),
        0x0E => Some(Instruction::LD8(RegCode::C, RegCode::Const8(first))),
        0x0F => Some(Instruction::RRCA),
        0x10 => Some(Instruction::STOP),
        0x11 => Some(Instruction::LD16(RegCode::DE, RegCode::Const16(word))),
        0x12 => Some(Instruction::LD8(RegCode::DE, RegCode::A)),
        0x13 => Some(Instruction::INC16(RegCode::DE)),
        0x14 => Some(Instruction::INC8(RegCode::D)),
        0x15 => Some(Instruction::DEC8(RegCode::D)),
        0x16 => Some(Instruction::LD8(RegCode::D, RegCode::Const8(first))),
        0x17 => Some(Instruction::RLA),
        0x18 => Some(Instruction::JR(CondCode::Always, displacement)),
        0x19 => Some(Instruction::ADD16(RegCode::DE)),
        0x1A => Some(Instruction::LD8(RegCode::A, RegCode::DE)),
        0x1B => Some(Instruction::DEC16(RegCode::DE)),
        0x1C => Some(Instruction::INC8(RegCode::E)),
        0x1D => Some(Instruction::DEC8(RegCode::E)),
        0x1E => Some(Instruction::LD8(RegCode::E, RegCode::Const8(first))),
        0x1F => Some(Instruction::RRA),
        0x20 => Some(Instruction::JR(CondCode::NZ, displacement)),
        0x21 => Some(Instruction::LD16(RegCode::HL, RegCode::Const16(word))),
        0x22 => Some(Instruction::LDI(RegCode::HL, RegCode::A)),
        0x23 => Some(Instruction::INC16(RegCode::HL)),
        0x24 => Some(Instruction::INC8(RegCode::H)),
        0x25 => Some(Instruction::DEC8(RegCode::H)),
        0x26 => Some(Instruction::LD8(RegCode::H, RegCode::Const8(first))),
        0x28 => Some(Instruction::JR(CondCode::Z, displacement)),
        0x29 => Some(Instruction::ADD16(RegCode::HL)),
        0x2A => Some(Instruction::LDI(RegCode::A, RegCode::HL)),
        0x2B => Some(Instruction::DEC16(RegCode::HL)),
        0x2C => Some(Instruction::INC8(RegCode::L)),
        0x2D => Some(Instruction::DEC8(RegCode::L)),
        0x2E => Some(Instruction::LD8(RegCode::L, RegCode::Const8(first))),
        0x30 => Some(Instruction::JR(CondCode::NC, displacement)),
        0x31 => Some(Instruction::LD16(RegCode::SP, RegCode::Const16(word))),
        0x32 => Some(Instruction::LDD(RegCode::HL, RegCode::A)),
        0x33 => Some(Instruction::INC16(RegCode::SP)),
        0x34 => Some(Instruction::INC8(RegCode::HL)),
        0x35 => Some(Instruction::DEC8(RegCode::HL)),
        0x36 => Some(Instruction::LD8(RegCode::HL, RegCode::Const8(first))),
        0x38 => Some(Instruction::JR(CondCode::C, displacement)),
        0x39 => Some(Instruction::ADD16(RegCode::SP)),
        0x3A => Some(Instruction::LDD(RegCode::A, RegCode::HL)),
        0x3B => Some(Instruction::DEC16(RegCode::SP)),
        0x3C => Some(Instruction::INC8(RegCode::A)),
        0x3D => Some(Instruction::DEC8(RegCode::A)),
        0x3E => Some(Instruction::LD8(RegCode::A, RegCode::Const8(first))),
        0xC0 => Some(Instruction::RET(CondCode::NZ)),
        0xC1 => Some(Instruction::POP(RegCode::BC)),
        0xC2 => Some(Instruction::JP(CondCode::NZ, word)),
        0xC3 => Some(Instruction::JP(CondCode::Always, word)),
        0xC4 => Some(Instruction::CALL(CondCode::NZ, word)),
        0xC5 => Some(Instruction::PUSH(RegCode::BC)),
        0xC6 => Some(Instruction::ADD8(RegCode::Const8(first))),
        0xC7 => Some(Instruction::RST(0x00)),
        0xC8 => Some(Instruction::RET(CondCode::Z)),
        0xC9 => Some(Instruction::RET(CondCode::Always)),
        0xCA => Some(Instruction::JP(CondCode::Z, word)),
        0xCC => Some(Instruction::CALL(CondCode::Z, word)),
        0xCD => Some(Instruction::CALL(CondCode::Always, word)),
        0xCE => Some(Instruction::ADC(RegCode::Const8(first))),
        0xCF => Some(Instruction::RST(0x08)),
        0xD0 => Some(Instruction::RET(CondCode::NC)),
        0xD1 => Some(Instruction::POP(RegCode::DE)),
        0xD2 => Some(Instruction::JP(CondCode::NC, word)),
        0xD3 => Some(Instruction::NOP),
        0xD4 => Some(Instruction::CALL(CondCode::NC, word)),
        0xD5 => Some(Instruction::PUSH(RegCode::DE)),
        0xD6 => Some(Instruction::SUB(RegCode::Const8(first))),
        0xD7 => Some(Instruction::RST(0x10)),
        0xD8 => Some(Instruction::RET(CondCode::C)),
        0xD9 => Some(Instruction::RETI),
        0xDA => Some(Instruction::JP(CondCode::C, word)),
        0xDC => Some(Instruction::CALL(CondCode::C, word)),
        0xDE => Some(Instruction::SBC(RegCode::Const8(first))),
        0xDF => Some(Instruction::RST(0x18)),
        0xE0 => Some(Instruction::LDW(RegCode::Const8(first), RegCode::A)),
        0xE1 => Some(Instruction::POP(RegCode::HL)),
        0xE2 => Some(Instruction::LDW(RegCode::C, RegCode::A)),
        0xE5 => Some(Instruction::PUSH(RegCode::HL)),
        0xE6 => Some(Instruction::AND(RegCode::Const8(first))),
        0xE7 => Some(Instruction::RST(0x20)),
        0xE9 => Some(Instruction::JPHL),
        0xEA => Some(Instruction::LDW(RegCode::Const16(word), RegCode::A)),
        0xEE => Some(Instruction::XOR(RegCode::Const8(first))),
        0xEF => Some(Instruction::RST(0x28)),
        0xF0 => Some(Instruction::LDW(RegCode::A, RegCode::Const8(first))),
        0xF1 => Some(Instruction::POP(RegCode::AF)),
        0xF2 => Some(Instruction::LDW(RegCode::A, RegCode::C)),
        0xF3 => Some(Instruction::DI),
        0xF5 => Some(Instruction::PUSH(RegCode::AF)),
        0xF6 => Some(Instruction::OR(RegCode::Const8(first))),
        0xF7 => Some(Instruction::RST(0x30)),
        0xFA => Some(Instruction::LDW(RegCode::A, RegCode::Const16(word))),
        0xFB => Some(Instruction::EI),
        0xFE => Some(Instruction::CP(RegCode::Const8(first))),
        0xFF => Some(Instruction::RST(0x38)),
        _ => None,
    }
}

/// Decodes the instruction that starts with `opcode`, where `first` and
/// `second` are the two bytes that follow it in memory.
#[verifier::when_used_as_spec(spec_decode)]
pub fn decode(opcode: u8, first: u8, second: u8) -> (decoded: Option<Instruction>)
    ensures
        decoded == spec_decode(opcode, first, second),
        decoded is Some <==> spec_is_defined(opcode),
{
    proof {
        lemma_opcode_fields(opcode);
    }
    if opcode == PREFIX {
        Some(decode_prefixed(first))
    } else if opcode == 0x76 {
        Some(Instruction::HALT)
    } else if opcode >= 0x40 && opcode < 0x80 {
        Some(Instruction::LD8(register_operand((opcode >> 3) & 7), register_operand(opcode & 7)))
    } else if opcode >= 0x80 && opcode < 0xC0 {
        Some(arithmetic((opcode >> 3) & 7, register_operand(opcode & 7)))
    } else {
        decode_outer(opcode, first, second)
    }
}

/// How many bytes after `opcode` belong to its instruction: none, one or
/// two.
pub fn operand_length(opcode: u8) -> (length: u8)
    ensures
        length == spec_operand_length(opcode),
        length <= 2,
{
    match opcode {
        0x06 | 0x0E | 0x16 | 0x1E | 0x26 | 0x2E | 0x36 | 0x3E => 1,
        0x18 | 0x20 | 0x28 | 0x30 | 0x38 => 1,
        0xC6 | 0xCE | 0xD6 | 0xDE | 0xE6 | 0xEE | 0xF6 | 0xFE => 1,
        0xE0 | 0xF0 | 0xCB => 1,
        0x01 | 0x11 | 0x21 | 0x31 | 0x08 => 2,
        0xC2 | 0xCA | 0xD2 | 0xDA | 0xC3 => 2,
        0xC4 | 0xCC | 0xD4 | 0xDC | 0xCD => 2,
        0xEA | 0xFA => 2,
        _ => 0,
    }
}

/// Whether `opcode` starts an instruction.
#[verifier::when_used_as_spec(spec_is_defined)]
pub fn is_defined(opcode: u8) -> (defined: bool)
    ensures
        defined == spec_is_defined(opcode),
{
    decode(opcode, 0, 0).is_some()
}

/// Bytes that do not belong to an instruction have no part in its decoding,
/// and whether an opcode starts an instruction does not depend on what
/// follows it.
pub proof fn lemma_unread_operands(opcode: u8, first: u8, second: u8)
    ensures
        spec_operand_length(opcode) == 0 ==> spec_decode(opcode, first, second) == spec_decode(opcode, 0, 0),
        spec_operand_length(opcode) == 1 ==> spec_decode(opcode, first, second) == spec_decode(opcode, first, 0),
        0 <= spec_operand_length(opcode) <= 2,
        spec_decode(opcode, first, second) is Some <==> spec_is_defined(opcode),
{
}

/// Every decoded instruction can be executed, but for RETI (0xD9) and the
/// two loads through register C (0xE2 and 0xF2), which are decoded and have
/// no execution.
pub proof fn lemma_decoded_is_executable(opcode: u8, first: u8, second: u8)
    requires
        opcode != 0xD9,
        opcode != 0xE2,
        opcode != 0xF2,
    ensures
        match spec_decode(opcode, first, second) {
            Some(instruction) => instruction.is_executable(),
            None => true,
        },
{
}

/// Every instruction leaves memory with one byte for each address.
pub proof fn lemma_effect_keeps_well_formed(machine: Machine, instruction: Instruction)
    requires
        machine.well_formed(),
    ensures
        effect(machine, instruction).well_formed(),
        after_fetch(machine).well_formed(),
{
}

/// Replacing the flags keeps the low four bits of the flag byte, and so does
/// writing an 8-bit operand or a 16-bit register other than AF.
proof fn lemma_flag_byte_frame(machine: Machine)
    ensures
        forall|flags: Flags| (#[trigger] machine.with_flags(flags)).registers.af.right % 16 == machine.registers.af.right % 16,
        forall|code: RegCode, value: u8| (#[trigger] machine.with_value8(code, value)).registers.af.right == machine.registers.af.right,
        forall|code: RegCode, value: u16|
            !(code is AF) ==> (#[trigger] machine.with_value16(code, value)).registers.af.right == machine.registers.af.right,
{
    assert forall|flags: Flags| (#[trigger] machine.with_flags(flags)).registers.af.right % 16 == machine.registers.af.right
        % 16 by {
        machine.registers.af.lemma_flags_of_with_flags(flags);
    }
}

/// The low four bits of the flag byte, which hold no flag, stay zero under
/// every instruction but POP AF, which takes the whole byte from the stack.
pub proof fn lemma_unused_flag_bits_stay_zero(machine: Machine, instruction: Instruction)
    requires
        instruction.is_executable(),
        machine.registers.af.right % 16 == 0,
        instruction != Instruction::POP(RegCode::AF),
    ensures
        effect(machine, instruction).registers.af.right % 16 == 0,
{
    lemma_flag_byte_frame(machine);
    match instruction {
        Instruction::ADD8(source) | Instruction::ADC(source) | Instruction::SUB(source) | Instruction::SBC(source) | Instruction::AND(
            source,
        ) | Instruction::XOR(source) | Instruction::OR(source) => {
            lemma_flag_byte_frame(machine.with_accumulator(effect(machine, instruction).accumulator()));
        },
        Instruction::RLCA | Instruction::RLA | Instruction::RRCA | Instruction::RRA => {
            lemma_flag_byte_frame(machine.with_accumulator(effect(machine, instruction).accumulator()));
        },
        Instruction::RLC(code)
        | Instruction::RRC(code)
        | Instruction::RL(code)
        | Instruction::RR(code)
        | Instruction::SLA(code)
        | Instruction::SRA(code)
        | Instruction::SRL(code)
        | Instruction::SWAP(code) => {
            lemma_flag_byte_frame(machine.with_value8(code, effect(machine, instruction).value8(code)));
        },
        Instruction::ADD16(source) => {
            lemma_flag_byte_frame(machine.with_value16(RegCode::HL, effect(machine, instruction).registers.hl.word()));
        },
        Instruction::ADDSP(displacement) => {
            lemma_flag_byte_frame(machine.with_sp(effect(machine, instruction).registers.sp));
        },
        Instruction::LDI(target, source) | Instruction::LDD(target, source) => {
            lemma_flag_byte_frame(machine.load8(target, source));
        },
        _ => {},
    }
}

/// Decodes the instruction at the program counter and moves the program
/// counter past it.  Where the byte at the program counter starts no
/// instruction, that byte is returned as the error and the processor is
/// left as it was.
pub fn try_fetch(cpu: &mut Cpu) -> (fetched: Result<Instruction, InvalidOpcode>)
    ensures
        match instruction_at(old(cpu)@) {
            Some(instruction) => fetched == Ok::<Instruction, InvalidOpcode>(instruction) && final(cpu)@ == after_fetch(
                old(cpu)@,
            ),
            None => fetched == Err::<Instruction, InvalidOpcode>(
                InvalidOpcode { opcode: old(cpu)@.byte(old(cpu)@.registers.pc) },
            ) && final(cpu)@ == old(cpu)@,
        },
{
    let opcode = cpu.current_pc_byte();
    let ghost before = cpu@;
    proof {
        let pc = before.registers.pc;
        lemma_unread_operands(opcode, before.byte(wrap16(pc + 1)), before.byte(wrap16(pc + 2)));
    }
    if !is_defined(opcode) {
        return Err(InvalidOpcode { opcode });
    }
    cpu.increment_pc();
    let length = operand_length(opcode);
    let mut first: u8 = 0;
    let mut second: u8 = 0;
    if length == 1 {
        first = cpu.current_pc_byte();
        cpu.increment_pc();
    } else if length == 2 {
        let word = cpu.get_16_pc();
        cpu.increment_pc();
        first = (word / 0x100) as u8;
        second = (word % 0x100) as u8;
    }
    match decode(opcode, first, second) {
        Some(instruction) => Ok(instruction),
        None => Err(InvalidOpcode { opcode }),
    }
}

/// Decodes the instruction at the program counter and moves the program
/// counter past the opcode and its operand bytes.  The byte at the program
/// counter must start an instruction; [`try_fetch`] takes any byte.
pub fn fetch(cpu: &mut Cpu) -> (instruction: Instruction)
    requires
        spec_is_defined(old(cpu)@.byte(old(cpu)@.registers.pc)),
    ensures
        instruction_at(old(cpu)@) == Some(instruction),
        final(cpu)@ == after_fetch(old(cpu)@),
{
    proof {
        let pc = cpu@.registers.pc;
        lemma_unread_operands(cpu@.byte(pc), cpu@.byte(wrap16(pc + 1)), cpu@.byte(wrap16(pc + 2)));
    }
    match try_fetch(cpu) {
        Ok(instruction) => instruction,
        Err(_) => Instruction::PLACEHOLDER,
    }
}

/// Executes `instruction` on the processor.  STOP changes nothing and asks
/// the caller to end the emulation.
pub fn run(cpu: &mut Cpu, instruction: Instruction) -> (outcome: RunOutcome)
    requires
        instruction.is_executable(),
    ensures
        final(cpu)@ == effect(old(cpu)@, instruction),
        outcome == (if instruction is STOP {
            RunOutcome::Stop
        } else {
            RunOutcome::Continue
        }),
{
    match instruction {
        Instruction::STOP => {
            return RunOutcome::Stop;
        },
        Instruction::NOP => {},
        Instruction::HALT => cpu.halt(),
        Instruction::INC8(target) => cpu.increment8(target),
        Instruction::INC16(target) => cpu.increment16(target),
        Instruction::DEC8(target) => cpu.decrement8(target),
        Instruction::DEC16(target) => cpu.decrement16(target),
        Instruction::OR(source) => cpu.or(source),
        Instruction::AND(source) => cpu.and(source),
        Instruction::XOR(source) => cpu.xor(source),
        Instruction::ADD16(source) => cpu.add16(source),
        Instruction::ADD8(source) => cpu.add8(source),
        Instruction::ADDSP(displacement) => cpu.add_sp(displacement),
        Instruction::LD8(target, source) => cpu.load8(target, source),
        Instruction::LD16(target, source) => cpu.load16(target, source),
        Instruction::LDD(target, source) => cpu.load_dec(target, source),
        Instruction::LDI(target, source) => cpu.load_inc(target, source),
        Instruction::SUB(source) => cpu.sub(source),
        Instruction::ADC(source) => cpu.addc(source),
        Instruction::SBC(source) => cpu.subc(source),
        Instruction::RRCA => cpu.rotate_right_a(),
        Instruction::RRA => cpu.rotate_right_carry_a(),
        Instruction::RLCA => cpu.rotate_left_a(),
        Instruction::RLA => cpu.rotate_left_carry_a(),
        Instruction::JR(condition, displacement) => cpu.jump_relative(condition, displacement),
        Instruction::CP(source) => cpu.cp(source),
        Instruction::PUSH(source) => cpu.push(source),
        Instruction::POP(target) => cpu.pop(target),
        Instruction::RST(to) => cpu.restart(to),
        Instruction::CALL(condition, to) => cpu.call(condition, to),
        Instruction::RET(condition) => cpu.ret(condition),
        Instruction::LDW(target, source) => cpu.load_weird(target, source),
        Instruction::DI => cpu.di(),
        Instruction::EI => cpu.ei(),
        Instruction::JP(condition, to) => cpu.jump(condition, to),
        Instruction::JPHL => cpu.jump_hl(),
        Instruction::RLC(code) => cpu.rotate_left(code),
        Instruction::RL(code) => cpu.rotate_left_carry(code),
        Instruction::RRC(code) => cpu.rotate_right(code),
        Instruction::RR(code) => cpu.rotate_right_carry(code),
        Instruction::SLA(code) => cpu.shift_left(code),
        Instruction::SRA(code) => cpu.shift_right_arithmetic(code),
        Instruction::SRL(code) => cpu.shift_right_logical(code),
        Instruction::SWAP(code) => cpu.swap(code),
        Instruction::BIT(bit, code) => cpu.bit_check_zero(bit, code),
        Instruction::RES(bit, code) => cpu.bit_reset(bit, code),
        Instruction::SET(bit, code) => cpu.bit_set(bit, code),
        Instruction::RETI | Instruction::PLACEHOLDER => {},
    }
    RunOutcome::Continue
}

} // verus!
