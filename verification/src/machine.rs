//! The mathematical model of the machine: its state, one step, a whole run.

use vstd::prelude::*;
use crate::arith::{trunc_div, wrap32};
use crate::opcode::{OpCode, Output, Status, VmError};

verus! {

/// Everything about a machine that execution changes.
pub struct State {
    /// The operand stack, bottom first.
    pub stack: Seq<i32>,
    /// The index of the next instruction.
    pub ip: nat,
    /// What the `Print` instructions emitted so far, oldest first.
    pub output: Seq<Output>,
    /// Whether the machine still runs.
    pub status: Status,
}

/// The value an arithmetic instruction leaves for left operand `a` and right
/// operand `b`. Sums, differences, products and quotients are exact where they
/// fit in 32 bits and wrap around where they do not.
pub open spec fn arith_result(op: OpCode, a: i32, b: i32) -> i32
    recommends
        op.is_arithmetic(),
        op is Div ==> b != 0,
{
    match op {
        OpCode::Add => wrap32(a + b),
        OpCode::Sub => wrap32(a - b),
        OpCode::Mul => wrap32(a * b),
        _ => wrap32(trunc_div(a as int, b as int)),
    }
}

/// Whether a machine for `program` can stand at `ip` with `status`: the
/// instruction pointer never leaves the program by more than one place, a
/// halted machine rests on a `Halt` or behind the last instruction, and a
/// faulted one rests on the instruction that failed.
pub open spec fn rests_properly(program: Seq<OpCode>, ip: nat, status: Status) -> bool {
    &&& ip <= program.len()
    &&& status is Halted ==> ip == program.len() || program[ip as int] is Halt
    &&& status matches Status::Faulted(e) ==> {
        &&& ip < program.len()
        &&& program[ip as int].is_arithmetic()
        &&& e is DivisionByZero ==> program[ip as int] is Div
    }
}

impl State {
    /// The state of a machine that has executed nothing.
    pub open spec fn initial() -> State {
        State { stack: Seq::empty(), ip: 0, output: Seq::empty(), status: Status::Running }
    }

    /// The state after the instruction `op` has been executed in this state.
    ///
    /// Every instruction but `Halt` advances the instruction pointer when it
    /// succeeds. An arithmetic instruction with fewer than two operands faults
    /// and leaves the stack as it was. A division by zero faults after both
    /// operands have been taken from the stack.
    pub open spec fn execute(self, op: OpCode) -> State {
        let depth: int = self.stack.len() as int;
        match op {
            OpCode::Push(v) => State { stack: self.stack.push(v), ip: self.ip + 1, ..self },
            OpCode::Print => State {
                output: self.output.push(
                    if depth > 0 {
                        Output::Value(self.stack.last())
                    } else {
                        Output::EmptyStack
                    },
                ),
                ip: self.ip + 1,
                ..self
            },
            OpCode::Pop => State {
                stack: if depth > 0 {
                    self.stack.drop_last()
                } else {
                    self.stack
                },
                ip: self.ip + 1,
                ..self
            },
            OpCode::Halt => State { status: Status::Halted, ..self },
            _ => if depth < 2 {
                State { status: Status::Faulted(VmError::StackUnderflow), ..self }
            } else {
                let a: i32 = self.stack[depth - 2];
                let b: i32 = self.stack[depth - 1];
                let rest = self.stack.take(depth - 2);
                if op is Div && b == 0 {
                    State { stack: rest, status: Status::Faulted(VmError::DivisionByZero), ..self }
                } else {
                    State { stack: rest.push(arith_result(op, a, b)), ip: self.ip + 1, ..self }
                }
            },
        }
    }

    /// What holds of every state that a machine reaches on `program`.
    pub open spec fn consistent(self, program: Seq<OpCode>) -> bool {
        rests_properly(program, self.ip, self.status)
    }

    /// One step of the machine on `program`. A machine that no longer runs
    /// stays as it is; one that has run past the last instruction halts.
    pub open spec fn step(self, program: Seq<OpCode>) -> State {
        if !(self.status is Running) {
            self
        } else if self.ip >= program.len() {
            State { status: Status::Halted, ..self }
        } else {
            self.execute(program[self.ip as int])
        }
    }

    /// An upper bound on the number of steps that are left.
    pub open spec fn steps_left(self, program: Seq<OpCode>) -> nat {
        if !(self.status is Running) {
            0
        } else if self.ip >= program.len() {
            1
        } else {
            (program.len() - self.ip + 1) as nat
        }
    }

    /// The state in which the machine comes to rest on `program`.
    pub open spec fn run(self, program: Seq<OpCode>) -> State
        decreases self.steps_left(program),
    {
        if self.status is Running {
            self.step(program).run(program)
        } else {
            self
        }
    }
}

} // verus!
