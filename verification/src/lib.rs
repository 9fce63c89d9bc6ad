//! An interpreter for the CHIP-8 virtual machine.

pub mod chip8;
pub mod cpu;
pub mod instruction;
pub mod keyboard;
pub mod laws;
pub mod machine;
pub mod renderer;
