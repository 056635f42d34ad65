//! The mathematical model of the processor: its state as plain values, and
//! the effect of every instruction as a function from state to state.

use vstd::prelude::*;
use crate::cpu::alu::difference8;
use crate::cpu::alu::displacement_word;
use crate::cpu::alu::logic_flags;
use crate::cpu::alu::rotated_left;
use crate::cpu::alu::rotated_left_through;
use crate::cpu::alu::rotated_right;
use crate::cpu::alu::rotated_right_through;
use crate::cpu::alu::shifted_left;
use crate::cpu::alu::shifted_right_arithmetic;
use crate::cpu::alu::shifted_right_logical;
use crate::cpu::alu::sum16;
use crate::cpu::alu::sum8;
use crate::cpu::alu::swapped;
use crate::cpu::alu::with_bit_reset;
use crate::cpu::alu::with_bit_set;
use crate::cpu::alu::Outcome8;
use crate::cpu::operand::CondCode;
use crate::cpu::operand::RegCode;
use crate::cpu::register::Flags;
use crate::cpu::register::RegisterPair;
use crate::cpu::register::Registers;
use crate::util::has_bit;
use crate::util::wrap16;
use crate::util::wrap8;

verus! {

/// The state of the processor: the contents of memory by address, the
/// register file, and the two control flags.
pub struct Machine {
    pub memory: Seq<u8>,
    pub registers: Registers,
    pub interrupts: bool,
    pub halted: bool,
}

/// The address in the page at 0xFF00 that `offset` selects.
pub open spec fn high_page(offset: u8) -> u16 {
    (0xFF00 + offset) as u16
}

/// The eight addresses that a restart may call.
pub open spec fn is_restart_vector(address: u16) -> bool {
    address == 0x00 || address == 0x08 || address == 0x10 || address == 0x18 || address == 0x20 || address == 0x28 || address
        == 0x30 || address == 0x38
}

impl Machine {
    /// Memory holds one byte for each 16-bit address.
    pub open spec fn well_formed(self) -> bool {
        self.memory.len() == 0x10000
    }

    /// The state after power-on: memory and registers zero, the stack
    /// pointer at 0xFFFF, interrupts enabled, not halted.
    pub open spec fn initial() -> Machine {
        Machine::loaded(Seq::empty()).with_pc(0)
    }

    /// The state after loading a program: its bytes in memory from 0x0100
    /// on and zero elsewhere, the program counter at 0x0100, the stack
    /// pointer at 0xFFFF, the other registers zero, interrupts enabled, not
    /// halted.
    pub open spec fn loaded(rom: Seq<u8>) -> Machine {
        Machine {
            memory: Seq::new(
                0x10000,
                |address: int|
                    if 0x100 <= address < 0x100 + rom.len() {
                        rom[address - 0x100]
                    } else {
                        0u8
                    },
            ),
            registers: Registers {
                af: RegisterPair { left: 0, right: 0 },
                bc: RegisterPair { left: 0, right: 0 },
                de: RegisterPair { left: 0, right: 0 },
                hl: RegisterPair { left: 0, right: 0 },
                sp: 0xFFFF,
                pc: 0x100,
            },
            interrupts: true,
            halted: false,
        }
    }

    /// The byte stored at `address`.
    pub open spec fn byte(self, address: u16) -> u8 {
        self.memory[address as int]
    }

    /// The state with `value` stored at `address`.
    pub open spec fn with_byte(self, address: u16, value: u8) -> Machine {
        Machine { memory: self.memory.update(address as int, value), ..self }
    }

    /// The state with the program counter at `address`.
    pub open spec fn with_pc(self, address: u16) -> Machine {
        Machine { registers: Registers { pc: address, ..self.registers }, ..self }
    }

    /// The state with the stack pointer at `address`.
    pub open spec fn with_sp(self, address: u16) -> Machine {
        Machine { registers: Registers { sp: address, ..self.registers }, ..self }
    }

    /// The state with the four flags replaced.
    pub open spec fn with_flags(self, flags: Flags) -> Machine {
        Machine { registers: Registers { af: self.registers.af.with_flags(flags), ..self.registers }, ..self }
    }

    /// The four flags.
    pub open spec fn flags(self) -> Flags {
        self.registers.af.flags()
    }

    /// The accumulator, register A.
    pub open spec fn accumulator(self) -> u8 {
        self.registers.af.left
    }

    /// The state with `value` in the accumulator.
    pub open spec fn with_accumulator(self, value: u8) -> Machine {
        self.with_value8(RegCode::A, value)
    }

    /// The 8-bit value that `code` selects: the register, the byte that the
    /// pair points to, or the immediate.
    pub open spec fn value8(self, code: RegCode) -> u8 {
        match code {
            RegCode::A => self.registers.af.left,
            RegCode::B => self.registers.bc.left,
            RegCode::C => self.registers.bc.right,
            RegCode::D => self.registers.de.left,
            RegCode::E => self.registers.de.right,
            RegCode::H => self.registers.hl.left,
            RegCode::L => self.registers.hl.right,
            RegCode::BC => self.byte(self.registers.bc.word()),
            RegCode::DE => self.byte(self.registers.de.word()),
            RegCode::HL => self.byte(self.registers.hl.word()),
            RegCode::Const8(value) => value,
            _ => 0,
        }
    }

    /// The state with `value` written where `code` selects: into the
    /// register, or into the byte that the pair points to.  An immediate
    /// takes no value.
    pub open spec fn with_value8(self, code: RegCode, value: u8) -> Machine {
        let registers = self.registers;
        match code {
            RegCode::A => Machine { registers: Registers { af: RegisterPair { left: value, ..registers.af }, ..registers }, ..self },
            RegCode::B => Machine { registers: Registers { bc: RegisterPair { left: value, ..registers.bc }, ..registers }, ..self },
            RegCode::C => Machine { registers: Registers { bc: RegisterPair { right: value, ..registers.bc }, ..registers }, ..self },
            RegCode::D => Machine { registers: Registers { de: RegisterPair { left: value, ..registers.de }, ..registers }, ..self },
            RegCode::E => Machine { registers: Registers { de: RegisterPair { right: value, ..registers.de }, ..registers }, ..self },
            RegCode::H => Machine { registers: Registers { hl: RegisterPair { left: value, ..registers.hl }, ..registers }, ..self },
            RegCode::L => Machine { registers: Registers { hl: RegisterPair { right: value, ..registers.hl }, ..registers }, ..self },
            RegCode::BC => self.with_byte(registers.bc.word(), value),
            RegCode::DE => self.with_byte(registers.de.word(), value),
            RegCode::HL => self.with_byte(registers.hl.word(), value),
            _ => self,
        }
    }

    /// The 16-bit value that `code` selects: the pair, the stack pointer,
    /// the program counter, or the immediate.
    pub open spec fn value16(self, code: RegCode) -> u16 {
        match code {
            RegCode::BC => self.registers.bc.word(),
            RegCode::DE => self.registers.de.word(),
            RegCode::HL => self.registers.hl.word(),
            RegCode::AF => self.registers.af.word(),
            RegCode::SP => self.registers.sp,
            RegCode::PC => self.registers.pc,
            RegCode::Const16(value) => value,
            _ => 0,
        }
    }

    /// The state with `value` written into the 16-bit register that `code`
    /// selects.
    pub open spec fn with_value16(self, code: RegCode, value: u16) -> Machine {
        let registers = self.registers;
        match code {
            RegCode::BC => Machine { registers: Registers { bc: RegisterPair::of_word(value), ..registers }, ..self },
            RegCode::DE => Machine { registers: Registers { de: RegisterPair::of_word(value), ..registers }, ..self },
            RegCode::HL => Machine { registers: Registers { hl: RegisterPair::of_word(value), ..registers }, ..self },
            RegCode::AF => Machine { registers: Registers { af: RegisterPair::of_word(value), ..registers }, ..self },
            RegCode::SP => self.with_sp(value),
            RegCode::PC => self.with_pc(value),
            _ => self,
        }
    }

    /// Whether `condition` holds of the flags.
    pub open spec fn holds(self, condition: CondCode) -> bool {
        match condition {
            CondCode::NZ => !self.registers.af.zero(),
            CondCode::NC => !self.registers.af.carry(),
            CondCode::Z => self.registers.af.zero(),
            CondCode::C => self.registers.af.carry(),
            CondCode::Always => true,
        }
    }

    /// The state with an 8-bit result in the accumulator and its flags in
    /// the flag byte.
    pub open spec fn with_accumulated(self, outcome: Outcome8) -> Machine {
        self.with_accumulator(outcome.value).with_flags(outcome.flags)
    }

    /// The state with an 8-bit result written where `code` selects and its
    /// flags in the flag byte.
    pub open spec fn with_outcome(self, code: RegCode, outcome: Outcome8) -> Machine {
        self.with_value8(code, outcome.value).with_flags(outcome.flags)
    }

    /// The value of `source` copied to `target`.
    pub open spec fn load8(self, target: RegCode, source: RegCode) -> Machine {
        self.with_value8(target, self.value8(source))
    }

    /// The 16-bit value of `source` copied to `target`.  Where `target` is
    /// an address, the high byte goes to that address and the low byte to
    /// the next one.
    pub open spec fn load16(self, target: RegCode, source: RegCode) -> Machine {
        let value = self.value16(source);
        match target {
            RegCode::Const16(address) => self.with_byte(address, (value / 0x100) as u8).with_byte(
                wrap16(address + 1),
                (value % 0x100) as u8,
            ),
            _ => self.with_value16(target, value),
        }
    }

    /// The 8-bit value that `code` selects in a high-page or direct load:
    /// the accumulator, the byte at `0xFF00 + offset`, or the byte at the
    /// address.
    pub open spec fn direct_value(self, code: RegCode) -> u8 {
        match code {
            RegCode::A => self.accumulator(),
            RegCode::Const8(offset) => self.byte(high_page(offset)),
            RegCode::Const16(address) => self.byte(address),
            _ => 0,
        }
    }

    /// The state with `value` written where `code` selects in a high-page or
    /// direct load.
    pub open spec fn with_direct_value(self, code: RegCode, value: u8) -> Machine {
        match code {
            RegCode::A => self.with_accumulator(value),
            RegCode::Const8(offset) => self.with_byte(high_page(offset), value),
            RegCode::Const16(address) => self.with_byte(address, value),
            _ => self,
        }
    }

    /// A high-page or direct load from `source` to `target`.
    pub open spec fn load_weird(self, target: RegCode, source: RegCode) -> Machine {
        self.with_direct_value(target, self.direct_value(source))
    }

    /// An 8-bit load followed by HL moving up by one.
    pub open spec fn load_inc(self, target: RegCode, source: RegCode) -> Machine {
        let after = self.load8(target, source);
        after.with_value16(RegCode::HL, wrap16(after.registers.hl.word() + 1))
    }

    /// An 8-bit load followed by HL moving down by one.
    pub open spec fn load_dec(self, target: RegCode, source: RegCode) -> Machine {
        let after = self.load8(target, source);
        after.with_value16(RegCode::HL, wrap16(after.registers.hl.word() - 1))
    }

    /// The 8-bit operand plus one, 255 becoming 0.  No flag changes.
    pub open spec fn increment8(self, target: RegCode) -> Machine {
        self.with_value8(target, wrap8(self.value8(target) + 1))
    }

    /// The 8-bit operand minus one, 0 becoming 255.  No flag changes.
    pub open spec fn decrement8(self, target: RegCode) -> Machine {
        self.with_value8(target, wrap8(self.value8(target) - 1))
    }

    /// The 16-bit register plus one, 0xFFFF becoming 0.
    pub open spec fn increment16(self, target: RegCode) -> Machine {
        self.with_value16(target, wrap16(self.value16(target) + 1))
    }

    /// The 16-bit register minus one, 0 becoming 0xFFFF.
    pub open spec fn decrement16(self, target: RegCode) -> Machine {
        self.with_value16(target, wrap16(self.value16(target) - 1))
    }

    /// The program counter moved by `displacement`, modulo 65536, if
    /// `condition` holds.
    pub open spec fn jump_relative(self, condition: CondCode, displacement: i8) -> Machine {
        if self.holds(condition) {
            self.with_pc(wrap16(self.registers.pc + displacement))
        } else {
            self
        }
    }

    /// The flags of a rotation of the accumulator: carry as the rotation
    /// gives it, the other three clear.
    pub open spec fn accumulator_rotation(outcome: Outcome8) -> Outcome8 {
        Outcome8 { value: outcome.value, flags: Flags { zero: false, ..outcome.flags } }
    }

    /// RLCA: the accumulator rotated left, bit 7 into bit 0 and the carry.
    pub open spec fn rotate_left_a(self) -> Machine {
        self.with_accumulated(Self::accumulator_rotation(rotated_left(self.accumulator())))
    }

    /// RLA: the accumulator rotated left through the carry.
    pub open spec fn rotate_left_carry_a(self) -> Machine {
        self.with_accumulated(Self::accumulator_rotation(rotated_left_through(self.accumulator(), self.flags().carry)))
    }

    /// RRCA: the accumulator rotated right, bit 0 into bit 7 and the carry.
    pub open spec fn rotate_right_a(self) -> Machine {
        self.with_accumulated(Self::accumulator_rotation(rotated_right(self.accumulator())))
    }

    /// RRA: the accumulator rotated right through the carry.
    pub open spec fn rotate_right_carry_a(self) -> Machine {
        self.with_accumulated(Self::accumulator_rotation(rotated_right_through(self.accumulator(), self.flags().carry)))
    }

    /// The accumulator plus the value of `source`, with the flags of the sum.
    pub open spec fn add8(self, source: RegCode) -> Machine {
        self.with_accumulated(sum8(self.accumulator(), self.value8(source), false))
    }

    /// The accumulator plus the value of `source` plus the carry flag, with the
    /// flags of the sum.
    pub open spec fn addc(self, source: RegCode) -> Machine {
        self.with_accumulated(sum8(self.accumulator(), self.value8(source), self.flags().carry))
    }

    /// HL plus the 16-bit value of `source`, with the flags of the sum.
    pub open spec fn add16(self, source: RegCode) -> Machine {
        let outcome = sum16(self.registers.hl.word(), self.value16(source));
        self.with_value16(RegCode::HL, outcome.value).with_flags(outcome.flags)
    }

    /// The stack pointer plus the sign-extended `displacement`, with the flags
    /// of that 16-bit sum.
    pub open spec fn add_sp(self, displacement: i8) -> Machine {
        let outcome = sum16(self.registers.sp, displacement_word(displacement));
        self.with_sp(outcome.value).with_flags(outcome.flags)
    }

    /// The accumulator minus the value of `source`, with the flags of the
    /// difference.
    pub open spec fn sub(self, source: RegCode) -> Machine {
        self.with_accumulated(difference8(self.accumulator(), self.value8(source), false))
    }

    /// The accumulator minus the value of `source` minus the carry flag, with
    /// the flags of the difference.
    pub open spec fn subc(self, source: RegCode) -> Machine {
        self.with_accumulated(difference8(self.accumulator(), self.value8(source), self.flags().carry))
    }

    /// The flags of a subtraction; the accumulator stays.
    pub open spec fn cp(self, source: RegCode) -> Machine {
        self.with_flags(difference8(self.accumulator(), self.value8(source), false).flags)
    }

    /// The accumulator and the value of `source`, bit by bit; half-carry is
    /// set.
    pub open spec fn and(self, source: RegCode) -> Machine {
        let value = self.accumulator() & self.value8(source);
        self.with_accumulated(Outcome8 { value, flags: logic_flags(value, true) })
    }

    /// The accumulator or the value of `source`, bit by bit.
    pub open spec fn or(self, source: RegCode) -> Machine {
        let value = self.accumulator() | self.value8(source);
        self.with_accumulated(Outcome8 { value, flags: logic_flags(value, false) })
    }

    /// The accumulator or else the value of `source`, bit by bit.
    pub open spec fn xor(self, source: RegCode) -> Machine {
        let value = self.accumulator() ^ self.value8(source);
        self.with_accumulated(Outcome8 { value, flags: logic_flags(value, false) })
    }

    /// The stack pointer moves down by two; the high byte of the value of
    /// `source` lies at the higher of the two addresses, the low byte at the
    /// lower one, which is the new stack pointer.
    pub open spec fn push(self, source: RegCode) -> Machine {
        let value = self.value16(source);
        let upper = wrap16(self.registers.sp - 1);
        let lower = wrap16(self.registers.sp - 2);
        self.with_byte(upper, (value / 0x100) as u8).with_byte(lower, (value % 0x100) as u8).with_sp(lower)
    }

    /// The low byte is read at the stack pointer and the high byte at the
    /// next address; the stack pointer moves up by two and `target` takes
    /// the value.
    pub open spec fn pop(self, target: RegCode) -> Machine {
        let low = self.byte(self.registers.sp);
        let high = self.byte(wrap16(self.registers.sp + 1));
        self.with_sp(wrap16(self.registers.sp + 2)).with_value16(target, (high * 0x100 + low) as u16)
    }

    /// A pop into the program counter, if `condition` holds.
    pub open spec fn ret(self, condition: CondCode) -> Machine {
        if self.holds(condition) {
            self.pop(RegCode::PC)
        } else {
            self
        }
    }

    /// The program counter at `to`, if `condition` holds.
    pub open spec fn jump(self, condition: CondCode, to: u16) -> Machine {
        if self.holds(condition) {
            self.with_pc(to)
        } else {
            self
        }
    }

    /// The program counter at the value of HL.
    pub open spec fn jump_hl(self) -> Machine {
        self.with_pc(self.registers.hl.word())
    }

    /// The program counter pushed and then set to `to`, if `condition` holds.
    pub open spec fn call(self, condition: CondCode, to: u16) -> Machine {
        if self.holds(condition) {
            self.push(RegCode::PC).with_pc(to)
        } else {
            self
        }
    }

    /// The program counter pushed and then set to `to`.
    pub open spec fn restart(self, to: u16) -> Machine {
        self.push(RegCode::PC).with_pc(to)
    }

    /// RLC: the operand rotated left, bit 7 into bit 0 and the carry.
    pub open spec fn rotate_left(self, code: RegCode) -> Machine {
        self.with_outcome(code, rotated_left(self.value8(code)))
    }

    /// RL: the operand rotated left through the carry.
    pub open spec fn rotate_left_carry(self, code: RegCode) -> Machine {
        self.with_outcome(code, rotated_left_through(self.value8(code), self.flags().carry))
    }

    /// RRC: the operand rotated right, bit 0 into bit 7 and the carry.
    pub open spec fn rotate_right(self, code: RegCode) -> Machine {
        self.with_outcome(code, rotated_right(self.value8(code)))
    }

    /// RR: the operand rotated right through the carry.
    pub open spec fn rotate_right_carry(self, code: RegCode) -> Machine {
        self.with_outcome(code, rotated_right_through(self.value8(code), self.flags().carry))
    }

    /// SLA: the operand shifted left, bit 7 into the carry.
    pub open spec fn shift_left(self, code: RegCode) -> Machine {
        self.with_outcome(code, shifted_left(self.value8(code)))
    }

    /// SRA: the operand shifted right with bit 7 kept, bit 0 into the carry.
    pub open spec fn shift_right_arithmetic(self, code: RegCode) -> Machine {
        self.with_outcome(code, shifted_right_arithmetic(self.value8(code)))
    }

    /// SRL: the operand shifted right, bit 0 into the carry.
    pub open spec fn shift_right_logical(self, code: RegCode) -> Machine {
        self.with_outcome(code, shifted_right_logical(self.value8(code)))
    }

    /// SWAP: the two halves of the operand exchanged.
    pub open spec fn swap(self, code: RegCode) -> Machine {
        self.with_outcome(code, swapped(self.value8(code)))
    }

    /// Zero is set if the tested bit is 0, subtract is cleared, half-carry
    /// is set, carry stays.
    pub open spec fn bit_check_zero(self, bit: nat, code: RegCode) -> Machine {
        self.with_flags(
            Flags { zero: !has_bit(self.value8(code) as nat, bit), subtract: false, half_carry: true, carry: self.flags().carry },
        )
    }

    /// The operand with bit `bit` forced to one.  No flag changes.
    pub open spec fn bit_set(self, bit: nat, code: RegCode) -> Machine {
        self.with_value8(code, with_bit_set(self.value8(code), bit))
    }

    /// The operand with bit `bit` forced to zero.  No flag changes.
    pub open spec fn bit_reset(self, bit: nat, code: RegCode) -> Machine {
        self.with_value8(code, with_bit_reset(self.value8(code), bit))
    }

    /// The processor marked as halted.
    pub open spec fn halt(self) -> Machine {
        Machine { halted: true, ..self }
    }

    /// Interrupts enabled.
    pub open spec fn ei(self) -> Machine {
        Machine { interrupts: true, ..self }
    }

    /// Interrupts disabled.
    pub open spec fn di(self) -> Machine {
        Machine { interrupts: false, ..self }
    }
}

} // verus!
