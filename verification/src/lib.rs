//! An interpreter for the CHIP-8 virtual machine.

pub mod display;
pub mod engine;
pub mod error;
pub mod keypad;
pub mod laws;
pub mod machine;
pub mod memory;
pub mod opcode;
mod random;

pub use engine::{Chip8, Registers};
pub use error::{ExecError, LoadError};
pub use opcode::Instruction;
