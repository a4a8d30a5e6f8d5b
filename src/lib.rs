//! A virtual machine for the classic 8-bit interpreted instruction set with
//! 4 KiB of memory, sixteen byte registers, a 64x32 monochrome display, a
//! sixteen-key keypad and two 60 Hz countdown timers.

pub mod cpu;
pub mod debugger;
pub mod instruction;
pub mod instructions;
pub mod keyboard;
pub mod laws;
pub mod ram;
pub mod registers;
pub mod rom;
pub mod screen;
pub mod semantics;
pub mod timer;
