//! A CHIP-8 virtual machine: memory, registers, display and keypad state,
//! and an execution engine whose every instruction is specified and proved.

pub mod cpu;
pub mod display;
pub mod emulator;
pub mod hex_util;
pub mod isa;
pub mod lemmas;
pub mod semantics;
