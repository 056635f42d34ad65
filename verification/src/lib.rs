//! An emulation core for the Sharp LR35902, the processor of the Game Boy.
//!
//! The crate models the register file, the 64 KiB address space, the
//! instruction decoder and the effect of every instruction.  Each executable
//! function carries a contract over a mathematical model of the machine
//! ([`cpu::machine::Machine`]), and the contracts are proved by Verus.

pub mod cpu;
pub mod description;
pub mod display;
pub mod emulation;
pub mod graphics;
pub mod input;
pub mod util;
