//! What holds of the instructions in every state.

use vstd::prelude::*;
use crate::cpu::alu::difference8;
use crate::cpu::alu::rotated_left;
use crate::cpu::alu::rotated_left_through;
use crate::cpu::alu::rotated_right;
use crate::cpu::alu::rotated_right_through;
use crate::cpu::machine::Machine;
use crate::cpu::operand::RegCode;
use crate::cpu::register::Flags;
use crate::cpu::register::RegisterPair;
use crate::util::lemma_has_bit_u8;
use crate::util::wrap16;
use crate::util::wrap8;

verus! {

/// Incrementing an 8-bit operand and then decrementing it, or the other way
/// round, restores the state, also across the boundary: one above 255 is 0
/// and one below 0 is 255.
pub proof fn lemma_increment_decrement_cancel(machine: Machine, target: RegCode)
    requires
        machine.well_formed(),
        target.is_operand8(),
    ensures
        machine.increment8(target).decrement8(target) == machine,
        machine.decrement8(target).increment8(target) == machine,
        machine.increment8(target).value8(target) == wrap8(machine.value8(target) + 1),
        machine.decrement8(target).value8(target) == wrap8(machine.value8(target) - 1),
        machine.value8(target) == 255 ==> machine.increment8(target).value8(target) == 0,
        machine.value8(target) == 0 ==> machine.decrement8(target).value8(target) == 255,
{
    assert(machine.increment8(target).decrement8(target).memory =~= machine.memory);
    assert(machine.decrement8(target).increment8(target).memory =~= machine.memory);
}

/// The same for the 16-bit registers, across the boundary between 0xFFFF and
/// 0.
pub proof fn lemma_increment_decrement16_cancel(machine: Machine, target: RegCode)
    requires
        target.is_register16(),
    ensures
        machine.increment16(target).decrement16(target) == machine,
        machine.decrement16(target).increment16(target) == machine,
{
    let value = machine.value16(target);
    let up = wrap16(value + 1);
    let down = wrap16(value - 1);
    assert(RegisterPair::of_word(up).word() == up);
    assert(RegisterPair::of_word(down).word() == down);
    assert(wrap16(up - 1) == value);
    assert(wrap16(down + 1) == value);
    assert(!(target is SP) ==> RegisterPair::of_word(value) == (match target {
        RegCode::BC => machine.registers.bc,
        RegCode::DE => machine.registers.de,
        _ => machine.registers.hl,
    }));
}

/// A 16-bit register holds exactly the value that was loaded into it.
pub proof fn lemma_load16_round_trip(machine: Machine, target: RegCode, value: u16)
    requires
        target.is_register16(),
    ensures
        machine.load16(target, RegCode::Const16(value)).value16(target) == value,
{
}

/// A 16-bit register copied to another arrives unchanged.
pub proof fn lemma_load16_copies(machine: Machine, target: RegCode, source: RegCode)
    requires
        target.is_register16(),
        source.is_register16(),
    ensures
        machine.load16(target, source).value16(target) == machine.value16(source),
{
}

/// A value stored by a 16-bit load to an address lies there high byte
/// first, the low byte at the next address, which after 0xFFFF is 0.
pub proof fn lemma_load16_to_memory(machine: Machine, address: u16, source: RegCode)
    requires
        machine.well_formed(),
        source.is_load16_operand(),
    ensures
        ({
            let after = machine.load16(RegCode::Const16(address), source);
            after.byte(address) * 0x100 + after.byte(wrap16(address + 1)) == machine.value16(source)
        }),
{
}

/// A push followed by a pop hands the 16-bit value of the pushed pair to the
/// popped one unchanged, and the stack pointer is where it was before.
pub proof fn lemma_push_pop(machine: Machine, source: RegCode, target: RegCode)
    requires
        machine.well_formed(),
        source.is_stack_operand(),
        target.is_stack_operand(),
    ensures
        machine.push(source).pop(target).value16(target) == machine.value16(source),
        machine.push(source).pop(target).registers.sp == machine.registers.sp,
{
}

/// A push moves the stack pointer down by two and a pop moves it up by two,
/// modulo 65536.
pub proof fn lemma_stack_pointer_moves(machine: Machine, code: RegCode)
    requires
        code.is_stack_operand(),
    ensures
        machine.push(code).registers.sp == wrap16(machine.registers.sp - 2),
        machine.pop(code).registers.sp == wrap16(machine.registers.sp + 2),
{
}

/// Clearing the flags a second time changes nothing.
pub proof fn lemma_clearing_flags_is_idempotent(pair: RegisterPair)
    ensures
        ({
            let none = Flags { zero: false, subtract: false, half_carry: false, carry: false };
            pair.with_flags(none).with_flags(none) == pair.with_flags(none) && pair.with_flags(none).flags() == none
        }),
{
    let none = Flags { zero: false, subtract: false, half_carry: false, carry: false };
    pair.lemma_flags_of_with_flags(none);
    lemma_has_bit_u8(pair.with_flags(none).right);
}

/// Toggling a flag twice changes nothing.
pub proof fn lemma_double_toggle(pair: RegisterPair)
    ensures
        ({
            let once = pair.with_flags(Flags { carry: !pair.carry(), ..pair.flags() });
            once.with_flags(Flags { carry: !once.carry(), ..once.flags() }) == pair
        }),
{
    let once = pair.with_flags(Flags { carry: !pair.carry(), ..pair.flags() });
    pair.lemma_flags_of_with_flags(Flags { carry: !pair.carry(), ..pair.flags() });
    pair.lemma_with_own_flags();
    lemma_has_bit_u8(pair.right);
    lemma_has_bit_u8(once.right);
}

/// A comparison sets the flags of the subtraction and changes nothing else.
pub proof fn lemma_compare_is_subtract_without_result(machine: Machine, source: RegCode)
    requires
        source.is_source8(),
    ensures
        machine.cp(source).flags() == machine.sub(source).flags(),
        machine.cp(source).accumulator() == machine.accumulator(),
        machine.cp(source).memory == machine.memory,
        machine.cp(source) == machine.with_flags(machine.sub(source).flags()),
{
    let after = machine.sub(source);
    let flags = difference8(machine.accumulator(), machine.value8(source), false).flags;
    machine.with_accumulator(after.accumulator()).registers.af.lemma_flags_of_with_flags(flags);
    machine.registers.af.lemma_flags_of_with_flags(flags);
}

/// The rotations of the second table, applied to the accumulator, give the
/// accumulator and the carry that the four accumulator rotations give; only
/// the zero flag can differ, which the accumulator rotations clear.
pub proof fn lemma_rotations_agree_on_accumulator(machine: Machine)
    ensures
        machine.rotate_left(RegCode::A).with_flags(Flags { zero: false, ..machine.rotate_left(RegCode::A).flags() })
            == machine.rotate_left_a(),
        machine.rotate_left_carry(RegCode::A).with_flags(
            Flags { zero: false, ..machine.rotate_left_carry(RegCode::A).flags() },
        ) == machine.rotate_left_carry_a(),
        machine.rotate_right(RegCode::A).with_flags(Flags { zero: false, ..machine.rotate_right(RegCode::A).flags() })
            == machine.rotate_right_a(),
        machine.rotate_right_carry(RegCode::A).with_flags(
            Flags { zero: false, ..machine.rotate_right_carry(RegCode::A).flags() },
        ) == machine.rotate_right_carry_a(),
{
    let value = machine.accumulator();
    let carry = machine.flags().carry;
    let pair = machine.with_accumulator(rotated_left(value).value).registers.af;
    pair.lemma_flags_of_with_flags(rotated_left(value).flags);
    pair.lemma_with_flags_twice(rotated_left(value).flags, Flags { zero: false, ..rotated_left(value).flags });
    let pair = machine.with_accumulator(rotated_left_through(value, carry).value).registers.af;
    pair.lemma_flags_of_with_flags(rotated_left_through(value, carry).flags);
    pair.lemma_with_flags_twice(
        rotated_left_through(value, carry).flags,
        Flags { zero: false, ..rotated_left_through(value, carry).flags },
    );
    let pair = machine.with_accumulator(rotated_right(value).value).registers.af;
    pair.lemma_flags_of_with_flags(rotated_right(value).flags);
    pair.lemma_with_flags_twice(rotated_right(value).flags, Flags { zero: false, ..rotated_right(value).flags });
    let pair = machine.with_accumulator(rotated_right_through(value, carry).value).registers.af;
    pair.lemma_flags_of_with_flags(rotated_right_through(value, carry).flags);
    pair.lemma_with_flags_twice(
        rotated_right_through(value, carry).flags,
        Flags { zero: false, ..rotated_right_through(value, carry).flags },
    );
}

} // verus!
