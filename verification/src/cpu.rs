//! The processor: operand codes, the register file, memory and the effect of
//! each instruction.

pub mod alu;
pub mod machine;
pub mod memory;
pub mod operand;
pub mod register;
pub mod theorems;

pub use self::operand::CondCode;
pub use self::operand::RegCode;

use vstd::prelude::*;
use self::alu::Outcome8;
use self::machine::is_restart_vector;
use self::machine::Machine;
use self::memory::Memory;
use self::register::Flags;
use self::register::Registers;

verus! {

/// The processor with its memory.  Its model is a [`Machine`], and every
/// instruction is specified as a function on that model.
pub struct Cpu {
    pub memory: Memory,
    pub registers: Registers,
    /// Whether interrupts are enabled.
    pub interrupts: bool,
    /// Whether the processor has been halted.
    pub halted: bool,
}

impl View for Cpu {
    type V = Machine;

    open spec fn view(&self) -> Machine {
        Machine {
            memory: self.memory@,
            registers: self.registers,
            interrupts: self.interrupts,
            halted: self.halted,
        }
    }
}

impl Cpu {
    /// The model of every processor is well formed.
    pub proof fn lemma_well_formed(&self)
        ensures
            self@.well_formed(),
    {
        self.memory.lemma_len();
    }

    /// A processor with `rom` loaded at address 0x0100 and ready to run it.
    pub fn new_with_rom(rom: &Vec<u8>) -> (cpu: Self)
        requires
            rom.len() <= 0xFF00,
        ensures
            cpu@ == Machine::loaded(rom@),
    {
        let mut registers = Registers::new();
        registers.sp = 0xFFFF;
        registers.pc = 0x100;

        let mut memory = Memory::new();
        proof {
            memory.lemma_len();
        }
        let mut i: usize = 0;
        while i < rom.len()
            invariant
                i <= rom.len() <= 0xFF00,
                memory@.len() == 0x10000,
                forall|address: int|
                    0 <= address < 0x10000 ==> memory@[address] == (if 0x100 <= address < 0x100 + i {
                        rom@[address - 0x100]
                    } else {
                        0u8
                    }),
            decreases rom.len() - i,
        {
            memory.write((0x100 + i) as u16, rom[i]);
            i += 1;
        }
        assert(memory@ =~= Machine::loaded(rom@).memory);

        Self { memory, registers, interrupts: true, halted: false }
    }

    /// A processor after power-on, with nothing loaded.
    pub fn new() -> (cpu: Self)
        ensures
            cpu@ == Machine::initial(),
    {
        let mut registers = Registers::new();
        registers.sp = 0xFFFF;
        let memory = Memory::new();
        assert(memory@ =~= Machine::initial().memory);

        Self { memory, registers, interrupts: true, halted: false }
    }

    /// The byte that the program counter points to.
    pub fn current_pc_byte(&self) -> (byte: u8)
        ensures
            byte == self@.byte(self@.registers.pc),
    {
        self.memory.read(self.registers.pc)
    }

    /// Moves the program counter up by one, from 0xFFFF to 0.
    pub fn increment_pc(&mut self)
        ensures
            final(self)@ == old(self)@.increment16(RegCode::PC),
    {
        self.registers.pc = self.registers.pc.wrapping_add(1);
    }

    /// Moves the program counter down by one, from 0 to 0xFFFF.
    pub fn decrement_pc(&mut self)
        ensures
            final(self)@ == old(self)@.decrement16(RegCode::PC),
    {
        self.registers.pc = self.registers.pc.wrapping_sub(1);
    }

    /// Reads a 16-bit value at the program counter, high byte first, and
    /// leaves the program counter on the low byte.
    pub fn get_16_pc(&mut self) -> (word: u16)
        ensures
            word == old(self)@.byte(old(self)@.registers.pc) * 0x100 + old(self)@.byte(
                old(self)@.increment16(RegCode::PC).registers.pc,
            ),
            final(self)@ == old(self)@.increment16(RegCode::PC),
    {
        let high: u16 = self.current_pc_byte() as u16;
        self.increment_pc();
        let low: u16 = self.current_pc_byte() as u16;
        high * 0x100 + low
    }

    /// HALT: marks the processor as halted.
    pub fn halt(&mut self)
        ensures
            final(self)@ == old(self)@.halt(),
    {
        self.halted = true;
    }

    /// EI: enables interrupts.
    pub fn ei(&mut self)
        ensures
            final(self)@ == old(self)@.ei(),
    {
        self.interrupts = true;
    }

    /// DI: disables interrupts.
    pub fn di(&mut self)
        ensures
            final(self)@ == old(self)@.di(),
    {
        self.interrupts = false;
    }

    fn get8(&self, code: RegCode) -> (value: u8)
        requires
            code.is_load8_operand(),
        ensures
            value == self@.value8(code),
    {
        match code {
            RegCode::A => self.registers.af.left,
            RegCode::B => self.registers.bc.left,
            RegCode::C => self.registers.bc.right,
            RegCode::D => self.registers.de.left,
            RegCode::E => self.registers.de.right,
            RegCode::H => self.registers.hl.left,
            RegCode::L => self.registers.hl.right,
            RegCode::BC => self.memory.read(self.registers.bc.take_as_one()),
            RegCode::DE => self.memory.read(self.registers.de.take_as_one()),
            RegCode::HL => self.memory.read(self.registers.hl.take_as_one()),
            RegCode::Const8(value) => value,
            _ => 0,
        }
    }

    fn put8(&mut self, code: RegCode, value: u8)
        requires
            code.is_load8_operand(),
        ensures
            final(self)@ == old(self)@.with_value8(code, value),
    {
        match code {
            RegCode::A => self.registers.af.left = value,
            RegCode::B => self.registers.bc.left = value,
            RegCode::C => self.registers.bc.right = value,
            RegCode::D => self.registers.de.left = value,
            RegCode::E => self.registers.de.right = value,
            RegCode::H => self.registers.hl.left = value,
            RegCode::L => self.registers.hl.right = value,
            RegCode::BC => self.memory.write(self.registers.bc.take_as_one(), value),
            RegCode::DE => self.memory.write(self.registers.de.take_as_one(), value),
            RegCode::HL => self.memory.write(self.registers.hl.take_as_one(), value),
            _ => (),
        }
    }

    fn get16(&self, code: RegCode) -> (value: u16)
        requires
            code.is_load16_operand() || code.is_stack_operand(),
        ensures
            value == self@.value16(code),
    {
        match code {
            RegCode::BC => self.registers.bc.take_as_one(),
            RegCode::DE => self.registers.de.take_as_one(),
            RegCode::HL => self.registers.hl.take_as_one(),
            RegCode::AF => self.registers.af.take_as_one(),
            RegCode::SP => self.registers.sp,
            RegCode::PC => self.registers.pc,
            RegCode::Const16(value) => value,
            _ => 0,
        }
    }

    fn put16(&mut self, code: RegCode, value: u16)
        requires
            code.is_register16() || code.is_stack_operand(),
        ensures
            final(self)@ == old(self)@.with_value16(code, value),
    {
        match code {
            RegCode::BC => self.registers.bc.change_as_one(value),
            RegCode::DE => self.registers.de.change_as_one(value),
            RegCode::HL => self.registers.hl.change_as_one(value),
            RegCode::AF => self.registers.af.change_as_one(value),
            RegCode::SP => self.registers.sp = value,
            RegCode::PC => self.registers.pc = value,
            _ => (),
        }
    }

    fn holds(&self, condition: CondCode) -> (taken: bool)
        ensures
            taken == self@.holds(condition),
    {
        match condition {
            CondCode::Z => self.registers.af.is_zero_high(),
            CondCode::NZ => !self.registers.af.is_zero_high(),
            CondCode::C => self.registers.af.is_carry_high(),
            CondCode::NC => !self.registers.af.is_carry_high(),
            CondCode::Always => true,
        }
    }

    fn accumulate(&mut self, outcome: Outcome8)
        ensures
            final(self)@ == old(self)@.with_accumulated(outcome),
    {
        self.registers.af.left = outcome.value;
        self.registers.af.set_flags(outcome.flags);
    }

    fn store_outcome(&mut self, code: RegCode, outcome: Outcome8)
        requires
            code.is_operand8(),
        ensures
            final(self)@ == old(self)@.with_outcome(code, outcome),
    {
        self.put8(code, outcome.value);
        self.registers.af.set_flags(outcome.flags);
    }

    /// LD for 8-bit values: copies the value of `source` to `target`.  Each
    /// is a register, one of BC, DE and HL for the byte it points to, or an
    /// immediate; a load into an immediate changes nothing.
    pub fn load8(&mut self, target: RegCode, source: RegCode)
        requires
            target.is_load8_operand(),
            source.is_load8_operand(),
        ensures
            final(self)@ == old(self)@.load8(target, source),
    {
        let value = self.get8(source);
        self.put8(target, value);
    }

    /// LD for 16-bit values: copies the value of `source`, one of BC, DE,
    /// HL, SP and an immediate, to `target`.  Where `target` is an immediate
    /// it is an address: the high byte is stored there and the low byte at
    /// the next address.
    pub fn load16(&mut self, target: RegCode, source: RegCode)
        requires
            target.is_load16_operand(),
            source.is_load16_operand(),
        ensures
            final(self)@ == old(self)@.load16(target, source),
    {
        let value = self.get16(source);
        match target {
            RegCode::Const16(address) => {
                self.memory.write(address, (value / 0x100) as u8);
                self.memory.write(address.wrapping_add(1), (value % 0x100) as u8);
            },
            _ => self.put16(target, value),
        }
    }

    fn get_direct(&self, code: RegCode) -> (value: u8)
        requires
            code.is_direct_operand(),
        ensures
            value == self@.direct_value(code),
    {
        match code {
            RegCode::Const16(address) => self.memory.read(address),
            RegCode::Const8(offset) => self.memory.read(0xFF00 + offset as u16),
            _ => self.registers.af.left,
        }
    }

    /// The high-page and direct loads: copies between the accumulator, the
    /// byte at `0xFF00 + offset` for an 8-bit immediate, and the byte at the
    /// address given by a 16-bit immediate.
    pub fn load_weird(&mut self, target: RegCode, source: RegCode)
        requires
            target.is_direct_operand(),
            source.is_direct_operand(),
        ensures
            final(self)@ == old(self)@.load_weird(target, source),
    {
        let value = self.get_direct(source);
        match target {
            RegCode::Const16(address) => self.memory.write(address, value),
            RegCode::Const8(offset) => self.memory.write(0xFF00 + offset as u16, value),
            _ => self.registers.af.left = value,
        }
    }

    /// LDI: a load between the accumulator and the byte that HL points to,
    /// after which HL moves up by one.
    pub fn load_inc(&mut self, target: RegCode, source: RegCode)
        requires
            (target is HL && source is A) || (target is A && source is HL),
        ensures
            final(self)@ == old(self)@.load_inc(target, source),
    {
        self.load8(target, source);
        self.increment16(RegCode::HL);
    }

    /// LDD: a load between the accumulator and the byte that HL points to,
    /// after which HL moves down by one.
    pub fn load_dec(&mut self, target: RegCode, source: RegCode)
        requires
            (target is HL && source is A) || (target is A && source is HL),
        ensures
            final(self)@ == old(self)@.load_dec(target, source),
    {
        self.load8(target, source);
        self.decrement16(RegCode::HL);
    }

    /// INC for 8-bit values: adds one to a register or to the byte that HL
    /// points to, 255 becoming 0.  No flag changes.
    pub fn increment8(&mut self, target: RegCode)
        requires
            target.is_operand8(),
        ensures
            final(self)@ == old(self)@.increment8(target),
    {
        let value = self.get8(target);
        self.put8(target, value.wrapping_add(1));
    }

    /// INC for 16-bit values: adds one to BC, DE, HL or SP, 0xFFFF becoming
    /// 0.
    pub fn increment16(&mut self, target: RegCode)
        requires
            target.is_register16(),
        ensures
            final(self)@ == old(self)@.increment16(target),
    {
        let value = self.get16(target);
        self.put16(target, value.wrapping_add(1));
    }

    /// DEC for 8-bit values: subtracts one from a register or from the byte
    /// that HL points to, 0 becoming 255.  No flag changes.
    pub fn decrement8(&mut self, target: RegCode)
        requires
            target.is_operand8(),
        ensures
            final(self)@ == old(self)@.decrement8(target),
    {
        let value = self.get8(target);
        self.put8(target, value.wrapping_sub(1));
    }

    /// DEC for 16-bit values: subtracts one from BC, DE, HL or SP, 0
    /// becoming 0xFFFF.
    pub fn decrement16(&mut self, target: RegCode)
        requires
            target.is_register16(),
        ensures
            final(self)@ == old(self)@.decrement16(target),
    {
        let value = self.get16(target);
        self.put16(target, value.wrapping_sub(1));
    }

    /// JR: if `cond` holds, moves the program counter by `jump_by`, modulo
    /// 65536.
    pub fn jump_relative(&mut self, cond: CondCode, jump_by: i8)
        ensures
            final(self)@ == old(self)@.jump_relative(cond, jump_by),
    {
        if self.holds(cond) {
            self.registers.pc = self.registers.pc.wrapping_add(alu::sign_extend(jump_by));
        }
    }

    /// RLA: rotates the accumulator left through the carry.  The old carry
    /// enters bit 0, bit 7 becomes the carry, the other flags are cleared.
    pub fn rotate_left_carry_a(&mut self)
        ensures
            final(self)@ == old(self)@.rotate_left_carry_a(),
    {
        let outcome = alu::rotate_left_through(self.registers.af.left, self.registers.af.is_carry_high());
        self.accumulate(Outcome8 { value: outcome.value, flags: Flags { zero: false, ..outcome.flags } });
    }

    /// RLCA: rotates the accumulator left.  Bit 7 enters bit 0 and becomes
    /// the carry, the other flags are cleared.
    pub fn rotate_left_a(&mut self)
        ensures
            final(self)@ == old(self)@.rotate_left_a(),
    {
        let outcome = alu::rotate_left(self.registers.af.left);
        self.accumulate(Outcome8 { value: outcome.value, flags: Flags { zero: false, ..outcome.flags } });
    }

    /// RRA: rotates the accumulator right through the carry.  The old carry
    /// enters bit 7, bit 0 becomes the carry, the other flags are cleared.
    pub fn rotate_right_carry_a(&mut self)
        ensures
            final(self)@ == old(self)@.rotate_right_carry_a(),
    {
        let outcome = alu::rotate_right_through(self.registers.af.left, self.registers.af.is_carry_high());
        self.accumulate(Outcome8 { value: outcome.value, flags: Flags { zero: false, ..outcome.flags } });
    }

    /// RRCA: rotates the accumulator right.  Bit 0 enters bit 7 and becomes
    /// the carry, the other flags are cleared.
    pub fn rotate_right_a(&mut self)
        ensures
            final(self)@ == old(self)@.rotate_right_a(),
    {
        let outcome = alu::rotate_right(self.registers.af.left);
        self.accumulate(Outcome8 { value: outcome.value, flags: Flags { zero: false, ..outcome.flags } });
    }

    /// ADD for 8-bit values: adds the value of `source` to the accumulator,
    /// modulo 256, and sets all four flags from the addition.
    pub fn add8(&mut self, source: RegCode)
        requires
            source.is_source8(),
        ensures
            final(self)@ == old(self)@.add8(source),
    {
        let outcome = alu::add_bytes(self.registers.af.left, self.get8(source), false);
        self.accumulate(outcome);
    }

    /// ADD for 16-bit values: adds BC, DE, HL or SP to HL, modulo 65536, and
    /// sets all four flags from the addition.
    pub fn add16(&mut self, source: RegCode)
        requires
            source.is_register16(),
        ensures
            final(self)@ == old(self)@.add16(source),
    {
        let outcome = alu::add_words(self.registers.hl.take_as_one(), self.get16(source));
        self.registers.hl.change_as_one(outcome.value);
        self.registers.af.set_flags(outcome.flags);
    }

    /// ADD for the stack pointer: adds the signed `val` to SP, modulo 65536,
    /// and sets all four flags from the 16-bit addition of its sign-extended
    /// word.
    pub fn add_sp(&mut self, val: i8)
        ensures
            final(self)@ == old(self)@.add_sp(val),
    {
        let outcome = alu::add_words(self.registers.sp, alu::sign_extend(val));
        self.registers.sp = outcome.value;
        self.registers.af.set_flags(outcome.flags);
    }

    /// SUB: subtracts the value of `source` from the accumulator, modulo
    /// 256, and sets all four flags from the subtraction.
    pub fn sub(&mut self, source: RegCode)
        requires
            source.is_source8(),
        ensures
            final(self)@ == old(self)@.sub(source),
    {
        let outcome = alu::subtract_bytes(self.registers.af.left, self.get8(source), false);
        self.accumulate(outcome);
    }

    /// AND: the accumulator becomes its bitwise and with the value of
    /// `source`.  Zero is set if the result is 0, half-carry is set, the
    /// other flags are cleared.
    pub fn and(&mut self, source: RegCode)
        requires
            source.is_source8(),
        ensures
            final(self)@ == old(self)@.and(source),
    {
        let value = self.registers.af.left & self.get8(source);
        self.accumulate(
            Outcome8 { value, flags: Flags { zero: value == 0, subtract: false, half_carry: true, carry: false } },
        );
    }

    /// OR: the accumulator becomes its bitwise or with the value of
    /// `source`.  Zero is set if the result is 0, the other flags are
    /// cleared.
    pub fn or(&mut self, source: RegCode)
        requires
            source.is_source8(),
        ensures
            final(self)@ == old(self)@.or(source),
    {
        let value = self.registers.af.left | self.get8(source);
        self.accumulate(
            Outcome8 { value, flags: Flags { zero: value == 0, subtract: false, half_carry: false, carry: false } },
        );
    }

    /// XOR: the accumulator becomes its bitwise exclusive or with the value
    /// of `source`.  Zero is set if the result is 0, the other flags are
    /// cleared.
    pub fn xor(&mut self, source: RegCode)
        requires
            source.is_source8(),
        ensures
            final(self)@ == old(self)@.xor(source),
    {
        let value = self.registers.af.left ^ self.get8(source);
        self.accumulate(
            Outcome8 { value, flags: Flags { zero: value == 0, subtract: false, half_carry: false, carry: false } },
        );
    }

    /// ADC: adds the value of `source` and the carry flag to the
    /// accumulator, modulo 256, and sets all four flags from the addition.
    pub fn addc(&mut self, source: RegCode)
        requires
            source.is_source8(),
        ensures
            final(self)@ == old(self)@.addc(source),
    {
        let carry = self.registers.af.is_carry_high();
        let outcome = alu::add_bytes(self.registers.af.left, self.get8(source), carry);
        self.accumulate(outcome);
    }

    /// SBC: subtracts the value of `source` and the carry flag from the
    /// accumulator, modulo 256, and sets all four flags from the
    /// subtraction.
    pub fn subc(&mut self, source: RegCode)
        requires
            source.is_source8(),
        ensures
            final(self)@ == old(self)@.subc(source),
    {
        let carry = self.registers.af.is_carry_high();
        let outcome = alu::subtract_bytes(self.registers.af.left, self.get8(source), carry);
        self.accumulate(outcome);
    }

    /// CP: sets the flags as SUB does and leaves the accumulator as it was.
    pub fn cp(&mut self, source: RegCode)
        requires
            source.is_source8(),
        ensures
            final(self)@ == old(self)@.cp(source),
    {
        let outcome = alu::subtract_bytes(self.registers.af.left, self.get8(source), false);
        self.registers.af.set_flags(outcome.flags);
    }

    /// PUSH: moves the stack pointer down by one and stores the high byte of
    /// `source` there, then down by one again and stores the low byte.
    pub fn push(&mut self, source: RegCode)
        requires
            source.is_stack_operand(),
        ensures
            final(self)@ == old(self)@.push(source),
    {
        let value = self.get16(source);
        self.decrement16(RegCode::SP);
        self.memory.write(self.registers.sp, (value / 0x100) as u8);
        self.decrement16(RegCode::SP);
        self.memory.write(self.registers.sp, (value % 0x100) as u8);
    }

    /// POP: reads the low byte at the stack pointer and moves it up by one,
    /// reads the high byte there and moves it up by one again, and writes
    /// the value to `target`.
    pub fn pop(&mut self, target: RegCode)
        requires
            target.is_stack_operand(),
        ensures
            final(self)@ == old(self)@.pop(target),
    {
        let low: u16 = self.memory.read(self.registers.sp) as u16;
        self.increment16(RegCode::SP);
        let high: u16 = self.memory.read(self.registers.sp) as u16;
        self.increment16(RegCode::SP);
        self.put16(target, high * 0x100 + low);
    }

    /// RET: if `cond` holds, pops the program counter.
    pub fn ret(&mut self, cond: CondCode)
        ensures
            final(self)@ == old(self)@.ret(cond),
    {
        if self.holds(cond) {
            self.pop(RegCode::PC);
        }
    }

    /// JP: if `cond` holds, sets the program counter to `to`.
    pub fn jump(&mut self, cond: CondCode, to: u16)
        ensures
            final(self)@ == old(self)@.jump(cond, to),
    {
        if self.holds(cond) {
            self.registers.pc = to;
        }
    }

    /// JP (HL): sets the program counter to HL.
    pub fn jump_hl(&mut self)
        ensures
            final(self)@ == old(self)@.jump_hl(),
    {
        self.registers.pc = self.registers.hl.take_as_one();
    }

    /// CALL: if `cond` holds, pushes the program counter and sets it to
    /// `to`.
    pub fn call(&mut self, cond: CondCode, to: u16)
        ensures
            final(self)@ == old(self)@.call(cond, to),
    {
        if self.holds(cond) {
            self.push(RegCode::PC);
            self.registers.pc = to;
        }
    }

    /// RST: pushes the program counter and sets it to `to`, one of the eight
    /// restart vectors.
    pub fn restart(&mut self, to: u16)
        requires
            is_restart_vector(to),
        ensures
            final(self)@ == old(self)@.restart(to),
    {
        self.push(RegCode::PC);
        self.registers.pc = to;
    }

    /// RL: rotates a register, or the byte that HL points to, left through
    /// the carry.  Zero is set if the result is 0, carry takes bit 7, the
    /// other flags are cleared.
    pub fn rotate_left_carry(&mut self, code: RegCode)
        requires
            code.is_operand8(),
        ensures
            final(self)@ == old(self)@.rotate_left_carry(code),
    {
        let outcome = alu::rotate_left_through(self.get8(code), self.registers.af.is_carry_high());
        self.store_outcome(code, outcome);
    }

    /// RR: rotates a register, or the byte that HL points to, right through
    /// the carry.  Zero is set if the result is 0, carry takes bit 0, the
    /// other flags are cleared.
    pub fn rotate_right_carry(&mut self, code: RegCode)
        requires
            code.is_operand8(),
        ensures
            final(self)@ == old(self)@.rotate_right_carry(code),
    {
        let outcome = alu::rotate_right_through(self.get8(code), self.registers.af.is_carry_high());
        self.store_outcome(code, outcome);
    }

    /// RLC: rotates a register, or the byte that HL points to, left.  Zero
    /// is set if the result is 0, carry takes bit 7, the other flags are
    /// cleared.
    pub fn rotate_left(&mut self, code: RegCode)
        requires
            code.is_operand8(),
        ensures
            final(self)@ == old(self)@.rotate_left(code),
    {
        let outcome = alu::rotate_left(self.get8(code));
        self.store_outcome(code, outcome);
    }

    /// RRC: rotates a register, or the byte that HL points to, right.  Zero
    /// is set if the result is 0, carry takes bit 0, the other flags are
    /// cleared.
    pub fn rotate_right(&mut self, code: RegCode)
        requires
            code.is_operand8(),
        ensures
            final(self)@ == old(self)@.rotate_right(code),
    {
        let outcome = alu::rotate_right(self.get8(code));
        self.store_outcome(code, outcome);
    }

    /// SLA: shifts a register, or the byte that HL points to, left by one
    /// bit.  Zero is set if the result is 0, carry takes bit 7, the other
    /// flags are cleared.
    pub fn shift_left(&mut self, code: RegCode)
        requires
            code.is_operand8(),
        ensures
            final(self)@ == old(self)@.shift_left(code),
    {
        let outcome = alu::shift_left(self.get8(code));
        self.store_outcome(code, outcome);
    }

    /// SRA: shifts a register, or the byte that HL points to, right by one
    /// bit and keeps bit 7.  Zero is set if the result is 0, carry takes bit
    /// 0, the other flags are cleared.
    pub fn shift_right_arithmetic(&mut self, code: RegCode)
        requires
            code.is_operand8(),
        ensures
            final(self)@ == old(self)@.shift_right_arithmetic(code),
    {
        let outcome = alu::shift_right_arithmetic(self.get8(code));
        self.store_outcome(code, outcome);
    }

    /// SRL: shifts a register, or the byte that HL points to, right by one
    /// bit.  Zero is set if the result is 0, carry takes bit 0, the other
    /// flags are cleared.
    pub fn shift_right_logical(&mut self, code: RegCode)
        requires
            code.is_operand8(),
        ensures
            final(self)@ == old(self)@.shift_right_logical(code),
    {
        let outcome = alu::shift_right_logical(self.get8(code));
        self.store_outcome(code, outcome);
    }

    /// SWAP: exchanges the two halves of a register or of the byte that HL
    /// points to.  Zero is set if the result is 0, the other flags are
    /// cleared.
    pub fn swap(&mut self, code: RegCode)
        requires
            code.is_operand8(),
        ensures
            final(self)@ == old(self)@.swap(code),
    {
        let outcome = alu::swap_halves(self.get8(code));
        self.store_outcome(code, outcome);
    }

    /// BIT: tests bit `bit` of a register or of the byte that HL points to.
    /// Zero is set if the bit is 0, subtract is cleared, half-carry is set,
    /// carry stays.
    pub fn bit_check_zero(&mut self, bit: usize, code: RegCode)
        requires
            bit < 8,
            code.is_operand8(),
        ensures
            final(self)@ == old(self)@.bit_check_zero(bit as nat, code),
    {
        let high = alu::test_bit(self.get8(code), bit);
        let carry = self.registers.af.is_carry_high();
        self.registers.af.set_flags(Flags { zero: !high, subtract: false, half_carry: true, carry });
    }

    /// SET: forces bit `bit` of a register, or of the byte that HL points
    /// to, to one.  No flag changes.
    pub fn bit_set(&mut self, bit: usize, code: RegCode)
        requires
            bit < 8,
            code.is_operand8(),
        ensures
            final(self)@ == old(self)@.bit_set(bit as nat, code),
    {
        let value = alu::set_bit(self.get8(code), bit);
        self.put8(code, value);
    }

    /// RES: forces bit `bit` of a register, or of the byte that HL points
    /// to, to zero.  No flag changes.
    pub fn bit_reset(&mut self, bit: usize, code: RegCode)
        requires
            bit < 8,
            code.is_operand8(),
        ensures
            final(self)@ == old(self)@.bit_reset(bit as nat, code),
    {
        let value = alu::reset_bit(self.get8(code), bit);
        self.put8(code, value);
    }
}

} // verus!
