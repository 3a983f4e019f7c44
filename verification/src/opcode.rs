//! The instruction set, and the plain values a run reports.

use vstd::prelude::*;

verus! {

/// One instruction of a program.
#[derive(Clone, Copy, Debug, PartialEq, Eq)]
pub enum OpCode {
    /// Pushes the value onto the stack.
    Push(i32),
    /// Replaces the two topmost values by their sum.
    Add,
    /// Replaces the two topmost values by the deeper one minus the upper one.
    Sub,
    /// Replaces the two topmost values by their product.
    Mul,
    /// Replaces the two topmost values by the deeper one divided by the upper one.
    Div,
    /// Emits the topmost value, or a notice that the stack is empty.
    Print,
    /// Removes the topmost value, if there is one.
    Pop,
    /// Ends the run.
    Halt,
}

/// Why a run was aborted.
#[derive(Clone, Copy, Debug, PartialEq, Eq)]
pub enum VmError {
    /// An arithmetic instruction found fewer than two operands.
    StackUnderflow,
    /// A division found zero as its right operand.
    DivisionByZero,
}

/// Where a machine is in its life.
#[derive(Clone, Copy, Debug, PartialEq, Eq)]
pub enum Status {
    /// The next instruction has yet to be executed.
    Running,
    /// The program ended, by `Halt` or by running past its last instruction.
    Halted,
    /// An instruction failed; nothing further executes.
    Faulted(VmError),
}

/// What one `Print` instruction emitted.
#[derive(Clone, Copy, Debug, PartialEq, Eq)]
pub enum Output {
    /// The value that was on top of the stack.
    Value(i32),
    /// The stack was empty.
    EmptyStack,
}

impl OpCode {
    /// Whether the instruction takes two operands from the stack.
    pub open spec fn is_arithmetic(self) -> bool {
        self is Add || self is Sub || self is Mul || self is Div
    }
}

} // verus!
