//! The executable machine.

use vstd::prelude::*;
use crate::arith::{wrapping_difference, wrapping_product, wrapping_quotient, wrapping_sum};
use crate::machine::{rests_properly, State};
use crate::opcode::{OpCode, Output, Status, VmError};

verus! {

/// A stack machine that owns its program and its operand stack.
pub struct StackVm {
    stack: Vec<i32>,
    output: Vec<Output>,
    control: Control,
}

/// The program and the place the machine has reached in it.
struct Control {
    program: Vec<OpCode>,
    ip: usize,
    status: Status,
}

impl Control {
    #[verifier::type_invariant]
    spec fn inv(&self) -> bool {
        rests_properly(self.program@, self.ip as nat, self.status)
    }
}

impl View for StackVm {
    type V = State;

    closed spec fn view(&self) -> State {
        State {
            stack: self.stack@,
            ip: self.control.ip as nat,
            output: self.output@,
            status: self.control.status,
        }
    }
}

/// What a run reports for the status in which the machine came to rest.
pub open spec fn outcome(status: Status) -> Result<(), VmError> {
    match status {
        Status::Faulted(e) => Err(e),
        _ => Ok(()),
    }
}

impl StackVm {
    /// The program the machine was made with.
    pub closed spec fn program(&self) -> Seq<OpCode> {
        self.control.program@
    }

    /// Whether the machine is in a state that its program can lead to. Every
    /// machine is: `new` makes one that is, and no step leads out.
    pub open spec fn wf(&self) -> bool {
        self@.consistent(self.program())
    }

    /// A machine for `program`, with an empty stack, before its first
    /// instruction. The program is taken as it is.
    pub fn new(program: Vec<OpCode>) -> (vm: StackVm)
        ensures
            vm.wf(),
            vm.program() == program@,
            vm@ == State::initial(),
    {
        StackVm {
            stack: Vec::new(),
            output: Vec::new(),
            control: Control { program, ip: 0, status: Status::Running },
        }
    }

    /// Executes one instruction, and returns the status afterwards.
    pub fn step(&mut self) -> (status: Status)
        ensures
            final(self).wf(),
            final(self).program() == old(self).program(),
            final(self)@ == old(self)@.step(old(self).program()),
            status == final(self)@.status,
    {
        proof {
            use_type_invariant(&self.control);
        }
        match self.control.status {
            Status::Running => {},
            _ => {
                return self.control.status;
            },
        }
        if self.control.ip >= self.control.program.len() {
            self.control.status = Status::Halted;
            return self.control.status;
        }
        let op = self.control.program[self.control.ip];
        match op {
            OpCode::Push(value) => {
                self.stack.push(value);
                self.control.ip += 1;
            },
            OpCode::Print => {
                let depth: usize = self.stack.len();
                let emitted = if depth > 0 {
                    Output::Value(self.stack[depth - 1])
                } else {
                    Output::EmptyStack
                };
                self.output.push(emitted);
                self.control.ip += 1;
            },
            OpCode::Pop => {
                self.stack.pop();
                self.control.ip += 1;
            },
            OpCode::Halt => {
                self.control.status = Status::Halted;
            },
            OpCode::Add | OpCode::Sub | OpCode::Mul | OpCode::Div => {
                let depth: usize = self.stack.len();
                if depth < 2 {
                    self.control.status = Status::Faulted(VmError::StackUnderflow);
                } else {
                    let b: i32 = self.stack[depth - 1];
                    let a: i32 = self.stack[depth - 2];
                    self.stack.truncate(depth - 2);
                    match op {
                        OpCode::Add => {
                            self.stack.push(wrapping_sum(a, b));
                            self.control.ip += 1;
                        },
                        OpCode::Sub => {
                            self.stack.push(wrapping_difference(a, b));
                            self.control.ip += 1;
                        },
                        OpCode::Mul => {
                            self.stack.push(wrapping_product(a, b));
                            self.control.ip += 1;
                        },
                        _ => {
                            if b == 0 {
                                self.control.status = Status::Faulted(VmError::DivisionByZero);
                            } else {
                                self.stack.push(wrapping_quotient(a, b));
                                self.control.ip += 1;
                            }
                        },
                    }
                }
            },
        }
        self.control.status
    }

    /// Executes instructions until the machine halts or faults. Returns the
    /// error of a faulted machine, and `Ok` for a halted one. A machine that
    /// had come to rest before the call is left as it was.
    pub fn run(&mut self) -> (result: Result<(), VmError>)
        ensures
            final(self).wf(),
            final(self).program() == old(self).program(),
            final(self)@ == old(self)@.run(old(self).program()),
            !(final(self)@.status is Running),
            result == outcome(final(self)@.status),
    {
        loop
            invariant
                self.program() == old(self).program(),
                self@.run(self.program()) == old(self)@.run(old(self).program()),
            decreases self@.steps_left(self.program()),
        {
            match self.step() {
                Status::Running => {},
                Status::Halted => {
                    return Ok(());
                },
                Status::Faulted(e) => {
                    return Err(e);
                },
            }
        }
    }

    /// The stack as it stands, bottom first. The machine is not changed.
    pub fn stack_dump(&self) -> (contents: Vec<i32>)
        ensures
            contents@ == self@.stack,
    {
        self.stack.clone()
    }

    /// What the `Print` instructions executed so far have emitted, oldest
    /// first.
    pub fn output(&self) -> (emitted: &Vec<Output>)
        ensures
            emitted@ == self@.output,
    {
        &self.output
    }

    /// The index of the instruction that executes next, or on which the
    /// machine came to rest.
    pub fn ip(&self) -> (ip: usize)
        ensures
            self.wf(),
            ip == self@.ip,
    {
        proof {
            use_type_invariant(&self.control);
        }
        self.control.ip
    }

    /// Whether the machine runs, has halted, or has faulted.
    pub fn status(&self) -> (status: Status)
        ensures
            self.wf(),
            status == self@.status,
    {
        proof {
            use_type_invariant(&self.control);
        }
        self.control.status
    }
}

} // verus!
