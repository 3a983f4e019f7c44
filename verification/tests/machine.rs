use stack_vm::{OpCode, Output, StackVm, Status, VmError};

fn sample_program() -> Vec<OpCode> {
    vec![
        OpCode::Push(5),
        OpCode::Push(10),
        OpCode::Add,
        OpCode::Push(2),
        OpCode::Mul,
        OpCode::Print,
        OpCode::Halt,
    ]
}

#[test]
fn sample_program_runs_to_thirty() {
    let mut vm = StackVm::new(sample_program());
    assert_eq!(vm.run(), Ok(()));
    assert_eq!(vm.output(), &vec![Output::Value(30)]);
    assert_eq!(vm.stack_dump(), vec![30]);
    assert_eq!(vm.status(), Status::Halted);
    assert_eq!(vm.ip(), 6);
}

#[test]
fn sample_program_step_by_step() {
    let mut vm = StackVm::new(sample_program());
    assert_eq!(vm.stack_dump(), Vec::<i32>::new());
    assert_eq!(vm.step(), Status::Running);
    assert_eq!(vm.stack_dump(), vec![5]);
    assert_eq!(vm.step(), Status::Running);
    assert_eq!(vm.stack_dump(), vec![5, 10]);
    assert_eq!(vm.step(), Status::Running);
    assert_eq!(vm.stack_dump(), vec![15]);
    assert_eq!(vm.step(), Status::Running);
    assert_eq!(vm.stack_dump(), vec![15, 2]);
    assert_eq!(vm.step(), Status::Running);
    assert_eq!(vm.stack_dump(), vec![30]);
    assert_eq!(vm.output(), &Vec::<Output>::new());
    assert_eq!(vm.step(), Status::Running);
    assert_eq!(vm.output(), &vec![Output::Value(30)]);
    assert_eq!(vm.stack_dump(), vec![30]);
    assert_eq!(vm.ip(), 6);
    assert_eq!(vm.step(), Status::Halted);
    assert_eq!(vm.ip(), 6);
    assert_eq!(vm.stack_dump(), vec![30]);
}

#[test]
fn new_machine_has_executed_nothing() {
    let vm = StackVm::new(sample_program());
    assert_eq!(vm.status(), Status::Running);
    assert_eq!(vm.ip(), 0);
    assert_eq!(vm.stack_dump(), Vec::<i32>::new());
    assert_eq!(vm.output(), &Vec::<Output>::new());
}

#[test]
fn new_accepts_a_program_that_will_fail() {
    let vm = StackVm::new(vec![OpCode::Div, OpCode::Add]);
    assert_eq!(vm.status(), Status::Running);
}

#[test]
fn empty_program_halts_at_once() {
    let mut vm = StackVm::new(Vec::new());
    assert_eq!(vm.run(), Ok(()));
    assert_eq!(vm.status(), Status::Halted);
    assert_eq!(vm.ip(), 0);
    assert_eq!(vm.stack_dump(), Vec::<i32>::new());
}

#[test]
fn running_past_the_end_halts() {
    let mut vm = StackVm::new(vec![OpCode::Push(1), OpCode::Push(2)]);
    assert_eq!(vm.step(), Status::Running);
    assert_eq!(vm.step(), Status::Running);
    assert_eq!(vm.ip(), 2);
    assert_eq!(vm.step(), Status::Halted);
    assert_eq!(vm.ip(), 2);
    assert_eq!(vm.stack_dump(), vec![1, 2]);
}

#[test]
fn halt_short_circuits() {
    let mut vm = StackVm::new(vec![
        OpCode::Push(1),
        OpCode::Halt,
        OpCode::Print,
        OpCode::Push(2),
        OpCode::Add,
    ]);
    assert_eq!(vm.run(), Ok(()));
    assert_eq!(vm.output(), &Vec::<Output>::new());
    assert_eq!(vm.stack_dump(), vec![1]);
    assert_eq!(vm.ip(), 1);
}

#[test]
fn what_follows_a_halt_does_not_matter() {
    let mut short = StackVm::new(vec![OpCode::Push(7), OpCode::Print, OpCode::Halt]);
    let mut long = StackVm::new(vec![
        OpCode::Push(7),
        OpCode::Print,
        OpCode::Halt,
        OpCode::Add,
        OpCode::Print,
    ]);
    assert_eq!(short.run(), long.run());
    assert_eq!(short.stack_dump(), long.stack_dump());
    assert_eq!(short.output(), long.output());
    assert_eq!(short.ip(), long.ip());
    assert_eq!(short.status(), long.status());
}

#[test]
fn halt_does_not_advance() {
    let mut vm = StackVm::new(vec![OpCode::Halt, OpCode::Push(1)]);
    assert_eq!(vm.step(), Status::Halted);
    assert_eq!(vm.ip(), 0);
    assert_eq!(vm.step(), Status::Halted);
    assert_eq!(vm.ip(), 0);
    assert_eq!(vm.stack_dump(), Vec::<i32>::new());
}

#[test]
fn print_peeks_and_does_not_pop() {
    let mut vm = StackVm::new(vec![OpCode::Push(4), OpCode::Print, OpCode::Print]);
    assert_eq!(vm.run(), Ok(()));
    assert_eq!(vm.output(), &vec![Output::Value(4), Output::Value(4)]);
    assert_eq!(vm.stack_dump(), vec![4]);
}

#[test]
fn print_on_empty_stack_gives_notice() {
    let mut vm = StackVm::new(vec![OpCode::Print, OpCode::Push(3), OpCode::Print]);
    assert_eq!(vm.run(), Ok(()));
    assert_eq!(vm.output(), &vec![Output::EmptyStack, Output::Value(3)]);
}

#[test]
fn pop_removes_the_top() {
    let mut vm = StackVm::new(vec![OpCode::Push(1), OpCode::Push(2), OpCode::Pop]);
    assert_eq!(vm.run(), Ok(()));
    assert_eq!(vm.stack_dump(), vec![1]);
}

#[test]
fn pop_on_empty_stack_is_no_op() {
    let mut vm = StackVm::new(vec![OpCode::Pop, OpCode::Pop, OpCode::Push(6)]);
    assert_eq!(vm.run(), Ok(()));
    assert_eq!(vm.stack_dump(), vec![6]);
    assert_eq!(vm.ip(), 3);
}

#[test]
fn plain_program_matches_an_ordinary_stack() {
    let program = vec![
        OpCode::Push(3),
        OpCode::Pop,
        OpCode::Pop,
        OpCode::Push(-1),
        OpCode::Print,
        OpCode::Push(8),
        OpCode::Push(9),
        OpCode::Pop,
        OpCode::Print,
        OpCode::Halt,
        OpCode::Push(100),
    ];
    let mut expected: Vec<i32> = Vec::new();
    for op in program.iter() {
        match op {
            OpCode::Push(v) => expected.push(*v),
            OpCode::Pop => {
                expected.pop();
            }
            OpCode::Halt => break,
            _ => {}
        }
    }
    let mut vm = StackVm::new(program);
    assert_eq!(vm.run(), Ok(()));
    assert_eq!(vm.stack_dump(), expected);
    assert_eq!(vm.stack_dump(), vec![-1, 8]);
    assert_eq!(vm.output(), &vec![Output::Value(-1), Output::Value(8)]);
}

#[test]
fn stack_dump_is_idempotent() {
    let mut vm = StackVm::new(sample_program());
    assert_eq!(vm.stack_dump(), vm.stack_dump());
    vm.step();
    vm.step();
    let first = vm.stack_dump();
    let second = vm.stack_dump();
    let third = vm.stack_dump();
    assert_eq!(first, vec![5, 10]);
    assert_eq!(first, second);
    assert_eq!(second, third);
    assert_eq!(vm.ip(), 2);
    assert_eq!(vm.run(), Ok(()));
    assert_eq!(vm.stack_dump(), vm.stack_dump());
}

#[test]
fn stack_dump_returns_a_copy() {
    let mut vm = StackVm::new(vec![OpCode::Push(1)]);
    vm.step();
    let mut dump = vm.stack_dump();
    dump.push(2);
    assert_eq!(vm.stack_dump(), vec![1]);
}

#[test]
fn faulted_machine_stays_faulted() {
    let mut vm = StackVm::new(vec![
        OpCode::Push(5),
        OpCode::Push(0),
        OpCode::Div,
        OpCode::Push(1),
    ]);
    assert_eq!(vm.run(), Err(VmError::DivisionByZero));
    assert_eq!(vm.step(), Status::Faulted(VmError::DivisionByZero));
    assert_eq!(vm.run(), Err(VmError::DivisionByZero));
    assert_eq!(vm.ip(), 2);
    assert_eq!(vm.stack_dump(), Vec::<i32>::new());
}

#[test]
fn halted_machine_stays_halted() {
    let mut vm = StackVm::new(sample_program());
    assert_eq!(vm.run(), Ok(()));
    assert_eq!(vm.run(), Ok(()));
    assert_eq!(vm.step(), Status::Halted);
    assert_eq!(vm.output(), &vec![Output::Value(30)]);
    assert_eq!(vm.stack_dump(), vec![30]);
}

#[test]
fn output_before_a_fault_is_kept() {
    let mut vm = StackVm::new(vec![
        OpCode::Push(2),
        OpCode::Print,
        OpCode::Sub,
        OpCode::Print,
    ]);
    assert_eq!(vm.run(), Err(VmError::StackUnderflow));
    assert_eq!(vm.output(), &vec![Output::Value(2)]);
    assert_eq!(vm.stack_dump(), vec![2]);
}

#[test]
fn run_continues_after_single_steps() {
    let mut vm = StackVm::new(sample_program());
    vm.step();
    vm.step();
    vm.step();
    assert_eq!(vm.run(), Ok(()));
    assert_eq!(vm.stack_dump(), vec![30]);
}
