//! What holds of every program and every run.

use vstd::prelude::*;
use crate::arith::{lemma_trunc_div_fits, lemma_wrap32_exact, trunc_div, wrap32};
use crate::machine::{arith_result, State};
use crate::opcode::{OpCode, Status, VmError};

verus! {

/// Where the exact result of an arithmetic instruction fits in 32 bits, that
/// is the value the instruction leaves: the sum, the left operand minus the
/// right one, the product, or the quotient rounded toward zero.
pub proof fn lemma_arith_result_exact(op: OpCode, a: i32, b: i32)
    requires
        op.is_arithmetic(),
        op is Div ==> b != 0,
    ensures
        op is Add && i32::MIN <= a + b <= i32::MAX ==> arith_result(op, a, b) == a + b,
        op is Sub && i32::MIN <= a - b <= i32::MAX ==> arith_result(op, a, b) == a - b,
        op is Mul && i32::MIN <= a * b <= i32::MAX ==> arith_result(op, a, b) == a * b,
        op is Div && !(a == i32::MIN && b == -1) ==> arith_result(op, a, b) == trunc_div(
            a as int,
            b as int,
        ),
{
    if op is Add && i32::MIN <= a + b <= i32::MAX {
        lemma_wrap32_exact(a + b);
    }
    if op is Sub && i32::MIN <= a - b <= i32::MAX {
        lemma_wrap32_exact(a - b);
    }
    if op is Mul && i32::MIN <= a * b <= i32::MAX {
        lemma_wrap32_exact(a * b);
    }
    if op is Div && !(a == i32::MIN && b == -1) {
        lemma_trunc_div_fits(a, b);
        lemma_wrap32_exact(trunc_div(a as int, b as int));
    }
}

/// A state that the program can lead to steps to another such state.
pub proof fn lemma_step_keeps_consistent(s: State, program: Seq<OpCode>)
    requires
        s.consistent(program),
    ensures
        s.step(program).consistent(program),
{
}

/// A machine that has halted or faulted stays where it is, whatever is
/// asked of it.
pub proof fn lemma_rest_is_final(s: State, program: Seq<OpCode>)
    requires
        !(s.status is Running),
    ensures
        s.step(program) == s,
        s.run(program) == s,
{
}

/// Every run comes to rest: it ends halted or faulted, with the instruction
/// pointer no lower than it started, and in a state the program can lead to
/// if it started in one.
pub proof fn lemma_run_comes_to_rest(s: State, program: Seq<OpCode>)
    ensures
        !(s.run(program).status is Running),
        s.run(program).ip >= s.ip,
        s.consistent(program) ==> s.run(program).consistent(program),
    decreases s.steps_left(program),
{
    if s.status is Running {
        lemma_run_comes_to_rest(s.step(program), program);
    }
}

/// A run that comes to rest inside the program, on a `Halt` or on a fault,
/// has read no instruction beyond that place: a program that is the same up
/// to and including it leads to the same state.
pub proof fn lemma_run_reads_no_further(s: State, p: Seq<OpCode>, q: Seq<OpCode>)
    requires
        s.run(p).ip < p.len(),
        s.run(p).ip < q.len(),
        forall|i: int| 0 <= i <= s.run(p).ip ==> p[i] == q[i],
    ensures
        s.run(q) == s.run(p),
    decreases s.steps_left(p),
{
    if s.status is Running {
        lemma_run_comes_to_rest(s.step(p), p);
        assert(s.step(q) == s.step(p));
        lemma_run_reads_no_further(s.step(p), p, q);
    }
}

/// A run never passes a `Halt` that lies ahead of it.
pub proof fn lemma_run_stops_at_halt(s: State, program: Seq<OpCode>, h: int)
    requires
        s.ip <= h < program.len(),
        program[h] is Halt,
    ensures
        s.run(program).ip <= h,
    decreases s.steps_left(program),
{
    if s.status is Running {
        if !(program[s.ip as int] is Halt) {
            lemma_run_stops_at_halt(s.step(program), program, h);
        } else {
            lemma_rest_is_final(s.step(program), program);
        }
    }
}

/// Nothing that follows a `Halt` is ever executed: two programs that are the
/// same up to and including a `Halt` leave a fresh machine in the same
/// state, with the same stack and the same output.
pub proof fn lemma_halt_short_circuits(p: Seq<OpCode>, q: Seq<OpCode>, h: int)
    requires
        0 <= h < p.len(),
        h < q.len(),
        p[h] is Halt,
        forall|i: int| 0 <= i <= h ==> p[i] == q[i],
    ensures
        State::initial().run(q) == State::initial().run(p),
{
    lemma_run_stops_at_halt(State::initial(), p, h);
    lemma_run_reads_no_further(State::initial(), p, q);
}

/// Whether the instruction neither computes nor can fail.
pub open spec fn is_plain(op: OpCode) -> bool {
    op is Push || op is Pop || op is Print || op is Halt
}

/// What an ordinary stack holds after the instructions `ops` have been
/// applied to it in order, up to the first `Halt`: a `Push` adds its value on
/// top, a `Pop` takes the topmost value off if there is one, and every other
/// instruction leaves the stack alone.
pub open spec fn plain_stack(ops: Seq<OpCode>, stack: Seq<i32>) -> Seq<i32>
    decreases ops.len(),
{
    if ops.len() == 0 {
        stack
    } else {
        match ops.first() {
            OpCode::Halt => stack,
            OpCode::Push(v) => plain_stack(ops.drop_first(), stack.push(v)),
            OpCode::Pop => plain_stack(
                ops.drop_first(),
                if stack.len() > 0 {
                    stack.drop_last()
                } else {
                    stack
                },
            ),
            _ => plain_stack(ops.drop_first(), stack),
        }
    }
}

/// A running machine whose remaining instructions are all plain halts with
/// the stack that an ordinary stack would hold after them.
proof fn lemma_plain_rest(s: State, program: Seq<OpCode>)
    requires
        s.status is Running,
        s.ip <= program.len(),
        forall|i: int| s.ip <= i < program.len() ==> is_plain(#[trigger] program[i]),
    ensures
        s.run(program).status is Halted,
        s.run(program).stack == plain_stack(program.skip(s.ip as int), s.stack),
    decreases program.len() - s.ip,
{
    let ops = program.skip(s.ip as int);
    let next = s.step(program);
    if s.ip < program.len() {
        assert(is_plain(program[s.ip as int]));
        assert(ops.first() == program[s.ip as int]);
        assert(ops.drop_first() =~= program.skip(s.ip as int + 1));
        if program[s.ip as int] is Halt {
            lemma_rest_is_final(next, program);
        } else {
            lemma_plain_rest(next, program);
        }
    } else {
        lemma_rest_is_final(next, program);
    }
}

/// A program made of `Push`, `Pop`, `Print` and `Halt` alone never faults,
/// and leaves the stack that an ordinary stack would hold after the same
/// pushes and pops.
pub proof fn lemma_plain_program(program: Seq<OpCode>)
    requires
        forall|i: int| 0 <= i < program.len() ==> is_plain(#[trigger] program[i]),
    ensures
        State::initial().run(program).status is Halted,
        State::initial().run(program).stack == plain_stack(program, Seq::empty()),
{
    lemma_plain_rest(State::initial(), program);
    assert(program.skip(0) =~= program);
}

/// Of two operands, the one pushed first is the left one: pushing `a`, then
/// `b`, then executing an arithmetic instruction leaves exactly the result
/// for left operand `a` and right operand `b`, so a `Sub` leaves `a - b`.
pub proof fn lemma_operand_order(a: i32, b: i32, op: OpCode)
    requires
        op.is_arithmetic(),
        op is Div ==> b != 0,
    ensures
        State::initial().run(seq![OpCode::Push(a), OpCode::Push(b), op]).status is Halted,
        State::initial().run(seq![OpCode::Push(a), OpCode::Push(b), op]).stack == seq![
            arith_result(op, a, b),
        ],
        op is Sub ==> arith_result(op, a, b) == wrap32(a - b),
{
    let program = seq![OpCode::Push(a), OpCode::Push(b), op];
    let s0 = State::initial();
    let s1 = s0.step(program);
    let s2 = s1.step(program);
    let s3 = s2.step(program);
    let s4 = s3.step(program);
    assert(s1.stack =~= seq![a]);
    assert(s2.stack =~= seq![a, b]);
    assert(s2.stack.take(0) =~= Seq::<i32>::empty());
    assert(s3.stack =~= seq![arith_result(op, a, b)]);
    assert(s4.status is Halted);
    assert(s4.run(program) == s4);
    assert(s3.run(program) == s4);
    assert(s2.run(program) == s4);
    assert(s1.run(program) == s4);
    assert(s0.run(program) == s4);
}

/// Sums and products do not depend on which operand was pushed first.
pub proof fn lemma_add_and_mul_commute(a: i32, b: i32)
    ensures
        arith_result(OpCode::Add, a, b) == arith_result(OpCode::Add, b, a),
        arith_result(OpCode::Mul, a, b) == arith_result(OpCode::Mul, b, a),
{
    assert(a * b == b * a) by (nonlinear_arith);
}

/// A division by zero faults at once: the quotient is never pushed, the
/// machine rests on the `Div`, and whatever follows it in the program is not
/// executed.
pub proof fn lemma_division_by_zero_aborts(s: State, program: Seq<OpCode>)
    requires
        s.status is Running,
        s.ip < program.len(),
        program[s.ip as int] is Div,
        s.stack.len() >= 2,
        s.stack.last() == 0,
    ensures
        s.run(program) == s.step(program),
        s.run(program).status == Status::Faulted(VmError::DivisionByZero),
        s.run(program).ip == s.ip,
        s.run(program).output == s.output,
        s.run(program).stack == s.stack.take(s.stack.len() - 2),
{
    lemma_rest_is_final(s.step(program), program);
}

/// An arithmetic instruction that finds fewer than two operands faults at
/// once and changes nothing else.
pub proof fn lemma_underflow_aborts(s: State, program: Seq<OpCode>)
    requires
        s.status is Running,
        s.ip < program.len(),
        program[s.ip as int].is_arithmetic(),
        s.stack.len() < 2,
    ensures
        s.run(program) == s.step(program),
        s.run(program) == (State {
            status: Status::Faulted(VmError::StackUnderflow),
            ..s
        }),
{
    lemma_rest_is_final(s.step(program), program);
}

/// Looking at the stack changes nothing: two dumps taken of one state, with
/// no step between them, are the same.
pub proof fn lemma_dump_is_repeatable(s: State, first: Seq<i32>, second: Seq<i32>)
    requires
        first == s.stack,
        second == s.stack,
    ensures
        first == second,
{
}

} // verus!
