use gb_core::cpu::alu::{
    add_bytes, add_words, reset_bit, rotate_left, rotate_left_through, rotate_right, rotate_right_through, set_bit,
    shift_left, shift_right_arithmetic, shift_right_logical, sign_extend, subtract_bytes, swap_halves, test_bit,
    Outcome16, Outcome8,
};
use gb_core::cpu::memory::Memory;
use gb_core::cpu::register::{Flags, RegisterPair, Registers};
use gb_core::cpu::RegCode;

fn flags(zero: bool, subtract: bool, half_carry: bool, carry: bool) -> Flags {
    Flags { zero, subtract, half_carry, carry }
}

#[test]
fn a_new_pair_is_zero() {
    let pair = RegisterPair::new();
    assert_eq!(pair.left, 0);
    assert_eq!(pair.right, 0);
    assert_eq!(pair.take_as_one(), 0);
}

#[test]
fn new_registers_are_zero() {
    let registers = Registers::new();
    assert_eq!(registers.af, RegisterPair { left: 0, right: 0 });
    assert_eq!(registers.bc, RegisterPair { left: 0, right: 0 });
    assert_eq!(registers.de, RegisterPair { left: 0, right: 0 });
    assert_eq!(registers.hl, RegisterPair { left: 0, right: 0 });
    assert_eq!(registers.sp, 0);
    assert_eq!(registers.pc, 0);
}

#[test]
fn a_pair_joins_high_and_low_byte() {
    let pair = RegisterPair { left: 0x12, right: 0x34 };
    assert_eq!(pair.take_as_one(), 0x1234);
    let pair = RegisterPair { left: 0xFF, right: 0xFF };
    assert_eq!(pair.take_as_one(), 0xFFFF);
    let pair = RegisterPair { left: 0x00, right: 0x80 };
    assert_eq!(pair.take_as_one(), 0x0080);
}

#[test]
fn a_pair_splits_into_high_and_low_byte() {
    let mut pair = RegisterPair::new();
    pair.change_as_one(0xABCD);
    assert_eq!(pair.left, 0xAB);
    assert_eq!(pair.right, 0xCD);
    pair.change_as_one(400);
    assert_eq!(pair.left, 1);
    assert_eq!(pair.right, 144);
}

#[test]
fn joining_and_splitting_round_trip() {
    for word in [0u16, 1, 0xFF, 0x100, 0x1234, 0x8000, 0xFFFF] {
        let mut pair = RegisterPair::new();
        pair.change_as_one(word);
        assert_eq!(pair.take_as_one(), word);
    }
    for high in [0u8, 1, 0x7F, 0x80, 0xFF] {
        for low in [0u8, 1, 0x7F, 0x80, 0xFF] {
            let mut pair = RegisterPair::new();
            pair.change_as_one(RegisterPair { left: high, right: low }.take_as_one());
            assert_eq!(pair, RegisterPair { left: high, right: low });
        }
    }
}

#[test]
fn each_flag_has_its_own_bit() {
    let pair = RegisterPair { left: 0, right: 0b1000_0000 };
    assert_eq!(pair.current_flags(), flags(true, false, false, false));
    let pair = RegisterPair { left: 0, right: 0b0100_0000 };
    assert_eq!(pair.current_flags(), flags(false, true, false, false));
    let pair = RegisterPair { left: 0, right: 0b0010_0000 };
    assert_eq!(pair.current_flags(), flags(false, false, true, false));
    let pair = RegisterPair { left: 0, right: 0b0001_0000 };
    assert_eq!(pair.current_flags(), flags(false, false, false, true));
    let pair = RegisterPair { left: 0xFF, right: 0b0000_1111 };
    assert_eq!(pair.current_flags(), flags(false, false, false, false));
    assert!(!pair.is_zero_high());
    assert!(!pair.is_subtract_high());
    assert!(!pair.is_hcarry_high());
    assert!(!pair.is_carry_high());
}

#[test]
fn flips_toggle_one_bit_each() {
    let mut pair = RegisterPair { left: 0x42, right: 0 };
    pair.flip_zero_flag();
    assert_eq!(pair.right, 0x80);
    pair.flip_subtract_flag();
    assert_eq!(pair.right, 0xC0);
    pair.flip_hcarry_flag();
    assert_eq!(pair.right, 0xE0);
    pair.flip_carry_flag();
    assert_eq!(pair.right, 0xF0);
    pair.flip_zero_flag();
    assert_eq!(pair.right, 0x70);
    pair.flip_subtract_flag();
    assert_eq!(pair.right, 0x30);
    pair.flip_hcarry_flag();
    assert_eq!(pair.right, 0x10);
    pair.flip_carry_flag();
    assert_eq!(pair.right, 0x00);
    assert_eq!(pair.left, 0x42);
}

#[test]
fn clearing_the_flags_twice_leaves_them_clear() {
    let mut pair = RegisterPair { left: 7, right: 0xF0 };
    pair.flip_flags_down();
    assert_eq!(pair, RegisterPair { left: 7, right: 0 });
    pair.flip_flags_down();
    assert_eq!(pair, RegisterPair { left: 7, right: 0 });

    let mut pair = RegisterPair { left: 7, right: 0xA5 };
    pair.flip_flags_down();
    assert_eq!(pair.right, 0x05);
    pair.flip_flags_down();
    assert_eq!(pair.right, 0x05);
}

#[test]
fn set_flags_writes_all_four_and_keeps_the_low_bits() {
    let mut pair = RegisterPair { left: 9, right: 0x0F };
    pair.set_flags(flags(true, false, true, false));
    assert_eq!(pair, RegisterPair { left: 9, right: 0xAF });
    pair.set_flags(flags(false, true, false, true));
    assert_eq!(pair, RegisterPair { left: 9, right: 0x5F });
    pair.set_flags(flags(false, false, false, false));
    assert_eq!(pair, RegisterPair { left: 9, right: 0x0F });
    pair.set_flags(flags(true, true, true, true));
    assert_eq!(pair, RegisterPair { left: 9, right: 0xFF });
}

#[test]
fn memory_starts_at_zero_and_keeps_what_is_written() {
    let mut memory = Memory::new();
    assert_eq!(memory.read(0), 0);
    assert_eq!(memory.read(0x8000), 0);
    assert_eq!(memory.read(0xFFFF), 0);
    memory.write(0xFFFF, 0xAA);
    memory.write(0, 0x55);
    assert_eq!(memory.read(0xFFFF), 0xAA);
    assert_eq!(memory.read(0), 0x55);
    assert_eq!(memory.read(1), 0);
    assert_eq!(memory[0xFFFF], 0xAA);
    assert_eq!(memory[0], 0x55);
    memory.write(0xFFFF, 1);
    assert_eq!(memory.read(0xFFFF), 1);
    assert_eq!(memory.read(0), 0x55);
}

#[test]
fn sums_of_bytes() {
    assert_eq!(add_bytes(0x88, 0x88, false), Outcome8 { value: 0x10, flags: flags(false, false, true, true) });
    assert_eq!(add_bytes(0, 0, false), Outcome8 { value: 0, flags: flags(true, false, false, false) });
    assert_eq!(add_bytes(0xFF, 0x01, false), Outcome8 { value: 0, flags: flags(true, false, true, true) });
    assert_eq!(add_bytes(0x0F, 0x01, false), Outcome8 { value: 0x10, flags: flags(false, false, true, false) });
    assert_eq!(add_bytes(0xF0, 0x10, false), Outcome8 { value: 0, flags: flags(true, false, false, true) });
    assert_eq!(add_bytes(0x0F, 0x00, true), Outcome8 { value: 0x10, flags: flags(false, false, true, false) });
    assert_eq!(add_bytes(0xFF, 0xFF, true), Outcome8 { value: 0xFF, flags: flags(false, false, true, true) });
    assert_eq!(add_bytes(0x00, 0xFF, true), Outcome8 { value: 0, flags: flags(true, false, true, true) });
    assert_eq!(add_bytes(1, 2, true), Outcome8 { value: 4, flags: flags(false, false, false, false) });
}

#[test]
fn differences_of_bytes() {
    assert_eq!(subtract_bytes(0, 90, false), Outcome8 { value: 166, flags: flags(false, true, true, true) });
    assert_eq!(subtract_bytes(166, 166, false), Outcome8 { value: 0, flags: flags(true, true, false, false) });
    assert_eq!(subtract_bytes(0x10, 0x08, false), Outcome8 { value: 0x08, flags: flags(false, true, true, false) });
    assert_eq!(subtract_bytes(0x18, 0x08, false), Outcome8 { value: 0x10, flags: flags(false, true, false, false) });
    assert_eq!(subtract_bytes(90, 89, true), Outcome8 { value: 0, flags: flags(true, true, false, false) });
    assert_eq!(subtract_bytes(0, 0, true), Outcome8 { value: 0xFF, flags: flags(false, true, true, true) });
    assert_eq!(subtract_bytes(0, 0xFF, true), Outcome8 { value: 0, flags: flags(true, true, true, true) });
    assert_eq!(subtract_bytes(0x20, 0x0F, true), Outcome8 { value: 0x10, flags: flags(false, true, true, false) });
}

#[test]
fn sums_of_words() {
    assert_eq!(add_words(0x8800, 0x8800), Outcome16 { value: 0x1000, flags: flags(false, false, true, true) });
    assert_eq!(add_words(0, 0), Outcome16 { value: 0, flags: flags(true, false, false, false) });
    assert_eq!(add_words(0xFFFF, 1), Outcome16 { value: 0, flags: flags(true, false, true, true) });
    assert_eq!(add_words(0x0FFF, 1), Outcome16 { value: 0x1000, flags: flags(false, false, true, false) });
    assert_eq!(add_words(0xF000, 0x1000), Outcome16 { value: 0, flags: flags(true, false, false, true) });
    assert_eq!(add_words(0x1234, 0x1111), Outcome16 { value: 0x2345, flags: flags(false, false, false, false) });
}

#[test]
fn sign_extension() {
    assert_eq!(sign_extend(0), 0);
    assert_eq!(sign_extend(10), 10);
    assert_eq!(sign_extend(127), 127);
    assert_eq!(sign_extend(-1), 0xFFFF);
    assert_eq!(sign_extend(-10), 0xFFF6);
    assert_eq!(sign_extend(-128), 0xFF80);
}

#[test]
fn rotations() {
    assert_eq!(rotate_left(0x80), Outcome8 { value: 0x01, flags: flags(false, false, false, true) });
    assert_eq!(rotate_left(0x55), Outcome8 { value: 0xAA, flags: flags(false, false, false, false) });
    assert_eq!(rotate_left(0), Outcome8 { value: 0, flags: flags(true, false, false, false) });
    assert_eq!(rotate_left(0xFF), Outcome8 { value: 0xFF, flags: flags(false, false, false, true) });

    assert_eq!(rotate_left_through(0x80, false), Outcome8 { value: 0, flags: flags(true, false, false, true) });
    assert_eq!(rotate_left_through(0xAA, true), Outcome8 { value: 0x55, flags: flags(false, false, false, true) });
    assert_eq!(rotate_left_through(0x01, true), Outcome8 { value: 0x03, flags: flags(false, false, false, false) });

    assert_eq!(rotate_right(0x01), Outcome8 { value: 0x80, flags: flags(false, false, false, true) });
    assert_eq!(rotate_right(0xAA), Outcome8 { value: 0x55, flags: flags(false, false, false, false) });
    assert_eq!(rotate_right(0), Outcome8 { value: 0, flags: flags(true, false, false, false) });

    assert_eq!(rotate_right_through(0x01, false), Outcome8 { value: 0, flags: flags(true, false, false, true) });
    assert_eq!(rotate_right_through(0xAA, true), Outcome8 { value: 0xD5, flags: flags(false, false, false, false) });
    assert_eq!(rotate_right_through(0x03, false), Outcome8 { value: 0x01, flags: flags(false, false, false, true) });
}

#[test]
fn shifts() {
    assert_eq!(shift_left(0x80), Outcome8 { value: 0, flags: flags(true, false, false, true) });
    assert_eq!(shift_left(0x41), Outcome8 { value: 0x82, flags: flags(false, false, false, false) });
    assert_eq!(shift_left(0xFF), Outcome8 { value: 0xFE, flags: flags(false, false, false, true) });

    assert_eq!(shift_right_arithmetic(0x80), Outcome8 { value: 0xC0, flags: flags(false, false, false, false) });
    assert_eq!(shift_right_arithmetic(0x81), Outcome8 { value: 0xC0, flags: flags(false, false, false, true) });
    assert_eq!(shift_right_arithmetic(0x01), Outcome8 { value: 0, flags: flags(true, false, false, true) });
    assert_eq!(shift_right_arithmetic(0x7E), Outcome8 { value: 0x3F, flags: flags(false, false, false, false) });

    assert_eq!(shift_right_logical(0x80), Outcome8 { value: 0x40, flags: flags(false, false, false, false) });
    assert_eq!(shift_right_logical(0x81), Outcome8 { value: 0x40, flags: flags(false, false, false, true) });
    assert_eq!(shift_right_logical(0x01), Outcome8 { value: 0, flags: flags(true, false, false, true) });

    assert_eq!(swap_halves(0x12), Outcome8 { value: 0x21, flags: flags(false, false, false, false) });
    assert_eq!(swap_halves(0xF0), Outcome8 { value: 0x0F, flags: flags(false, false, false, false) });
    assert_eq!(swap_halves(0), Outcome8 { value: 0, flags: flags(true, false, false, false) });
}

#[test]
fn single_bits() {
    for bit in 0..8usize {
        assert!(test_bit(0xFF, bit));
        assert!(!test_bit(0x00, bit));
        assert_eq!(set_bit(0, bit), 1 << bit);
        assert_eq!(set_bit(0xFF, bit), 0xFF);
        assert_eq!(reset_bit(0xFF, bit), 0xFF ^ (1 << bit));
        assert_eq!(reset_bit(0, bit), 0);
    }
    assert!(test_bit(0b0001_0000, 4));
    assert!(!test_bit(0b0001_0000, 3));
    assert_eq!(set_bit(0b0001_0000, 0), 0b0001_0001);
    assert_eq!(reset_bit(0b0001_0001, 4), 0b0000_0001);
}

#[test]
fn operand_classes() {
    let all = [
        RegCode::A,
        RegCode::B,
        RegCode::C,
        RegCode::D,
        RegCode::E,
        RegCode::H,
        RegCode::L,
        RegCode::BC,
        RegCode::DE,
        RegCode::HL,
        RegCode::SP,
        RegCode::AF,
        RegCode::PC,
        RegCode::Const8(1),
        RegCode::Const16(1),
    ];
    let count = |class: fn(RegCode) -> bool| all.iter().filter(|code| class(**code)).count();
    assert_eq!(count(RegCode::is_register8), 7);
    assert_eq!(count(RegCode::is_operand8), 8);
    assert_eq!(count(RegCode::is_source8), 9);
    assert_eq!(count(RegCode::is_load8_operand), 11);
    assert_eq!(count(RegCode::is_register16), 4);
    assert_eq!(count(RegCode::is_load16_operand), 5);
    assert_eq!(count(RegCode::is_stack_operand), 5);
    assert_eq!(count(RegCode::is_direct_operand), 3);
    assert!(RegCode::HL.is_operand8());
    assert!(!RegCode::BC.is_operand8());
    assert!(RegCode::BC.is_load8_operand());
    assert!(RegCode::Const8(0).is_source8());
    assert!(!RegCode::Const16(0).is_source8());
    assert!(RegCode::SP.is_register16());
    assert!(!RegCode::SP.is_stack_operand());
    assert!(RegCode::AF.is_stack_operand());
    assert!(RegCode::PC.is_stack_operand());
    assert!(!RegCode::AF.is_register16());
    assert!(RegCode::A.is_direct_operand());
    assert!(!RegCode::C.is_direct_operand());
}
