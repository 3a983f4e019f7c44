//! A small stack machine: a fixed program of arithmetic and stack instructions
//! runs against an operand stack of 32-bit signed integers.
//!
//! The machine itself performs no input or output. What a `Print` instruction
//! emits is recorded in the machine and handed to the caller as plain values.

pub mod arith;
pub mod machine;
pub mod opcode;
pub mod theorems;
pub mod vm;

pub use opcode::{OpCode, Output, Status, VmError};
pub use vm::StackVm;
