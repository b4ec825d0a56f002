use vm_lib::bytecode::ProgramCode;
use vm_lib::data::{Arg, Data, Fault};
use vm_lib::instructions::{Instruction, SuperInstruction};
use vm_lib::ops::BinaryOp;
use vm_lib::traits::Compilable;
use vm_lib::vm::{Process, ProcessContext, StackMachine};

fn imm(i: i64) -> Arg {
    Arg::Const(Data::Int(i))
}

fn process_of(code: Vec<Instruction>) -> Process {
    Process::new(64, ProgramCode::new(code, vec![]).compile(), 1)
}

fn run_alone(code: Vec<Instruction>) -> Result<Vec<Data>, Fault> {
    let mut vm = StackMachine::new();
    vm.add_process(ProgramCode::new(code, vec![]), 7);
    vm.run(10_000)
}

#[test]
fn test_test() {
    let code = vec![
        Instruction::BinaryOp(BinaryOp::Add, imm(24), imm(4)),
        Instruction::Print(Arg::Acc),
        Instruction::BinaryOp(BinaryOp::Divide, Arg::Acc, imm(3)),
        Instruction::Print(Arg::Acc),
        Instruction::HALT,
    ];
    let mut vm = StackMachine::new();
    vm.add_process(ProgramCode::new(code, vec![]), 42);
    let printed = vm.run(100).unwrap();
    assert_eq!(printed, vec![Data::Int(28), Data::Int(9)]);
    assert!(vm.proceses.is_empty());
}

#[test]
fn end_to_end_marks_process_finished() {
    let mut p = process_of(vec![
        Instruction::BinaryOp(BinaryOp::Add, imm(24), imm(4)),
        Instruction::Print(Arg::Acc),
        Instruction::BinaryOp(BinaryOp::Divide, Arg::Acc, imm(3)),
        Instruction::Print(Arg::Acc),
        Instruction::HALT,
    ]);
    assert_eq!(p.run(), Ok(None));
    assert_eq!(p.run(), Ok(Some(Data::Int(28))));
    assert_eq!(p.run(), Ok(None));
    assert_eq!(p.run(), Ok(Some(Data::Int(9))));
    assert!(!p.is_finished());
    assert_eq!(p.run(), Ok(None));
    assert!(p.is_finished());
}

#[test]
fn scheduler_interleaves_processes() {
    let first = vec![
        Instruction::Print(imm(1)),
        Instruction::Print(imm(2)),
        Instruction::Print(imm(3)),
        Instruction::HALT,
    ];
    let second = vec![
        Instruction::Print(imm(10)),
        Instruction::Print(imm(20)),
        Instruction::Print(imm(30)),
        Instruction::HALT,
    ];
    let mut vm = StackMachine::new();
    vm.add_process(ProgramCode::new(first, vec![]), 1);
    vm.add_process(ProgramCode::new(second, vec![]), 2);
    let printed = vm.run(100).unwrap();
    let expected: Vec<Data> = [1, 10, 2, 20, 3, 30].iter().map(|i| Data::Int(*i)).collect();
    assert_eq!(printed, expected);
    assert!(vm.proceses.is_empty());
}

#[test]
fn scheduler_continues_after_removal() {
    let short = vec![Instruction::Print(imm(1)), Instruction::HALT];
    let long = vec![
        Instruction::Print(imm(10)),
        Instruction::Print(imm(20)),
        Instruction::Print(imm(30)),
        Instruction::HALT,
    ];
    let mut vm = StackMachine::new();
    vm.add_process(ProgramCode::new(short, vec![]), 1);
    vm.add_process(ProgramCode::new(long, vec![]), 2);
    let printed = vm.run(100).unwrap();
    let expected: Vec<Data> = [1, 10, 20, 30].iter().map(|i| Data::Int(*i)).collect();
    assert_eq!(printed, expected);
}

#[test]
fn run_stops_after_max_turns() {
    let looping = vec![Instruction::Print(imm(5)), Instruction::Jump(imm(-2))];
    let mut vm = StackMachine::new();
    vm.add_process(ProgramCode::new(looping, vec![]), 3);
    let printed = vm.run(6).unwrap();
    assert_eq!(printed, vec![Data::Int(5), Data::Int(5), Data::Int(5)]);
    assert_eq!(vm.proceses.len(), 1);
}

#[test]
fn step_on_empty_machine_does_nothing() {
    let mut vm = StackMachine::new();
    assert_eq!(vm.step(), Ok(None));
    assert_eq!(vm.run(5), Ok(vec![]));
}

#[test]
fn swap_exchanges_registers() {
    let mut code = vec![Instruction::Store(imm(7)), Instruction::Store(imm(8))];
    code.extend(SuperInstruction::Swap(Arg::Ref(0), Arg::Ref(1)).compile());
    code.push(Instruction::Print(Arg::Ref(0)));
    code.push(Instruction::Print(Arg::Ref(1)));
    code.push(Instruction::Print(Arg::Acc));
    code.push(Instruction::HALT);
    assert_eq!(
        run_alone(code),
        Ok(vec![Data::Int(7), Data::Int(8), Data::Int(8)])
    );
}

#[test]
fn compile_expands_in_order() {
    let swap = SuperInstruction::Swap(Arg::Ref(0), Arg::Ref(1)).compile();
    assert_eq!(swap.len(), 3);
    assert!(matches!(&swap[0], Instruction::Copy(Arg::Ref(0), Arg::Acc)));
    assert!(matches!(&swap[1], Instruction::Copy(Arg::Ref(1), Arg::Ref(0))));
    assert!(matches!(&swap[2], Instruction::Copy(Arg::Acc, Arg::Ref(1))));
    let branch = SuperInstruction::IF(Arg::Acc, 9).compile();
    assert_eq!(branch.len(), 3);
    assert!(matches!(&branch[0], Instruction::Jump(Arg::Acc)));
    assert!(matches!(&branch[1], Instruction::Jump(Arg::Const(Data::Pointer(1)))));
    assert!(matches!(&branch[2], Instruction::Jump(Arg::Const(Data::Pointer(9)))));
    let simple = SuperInstruction::Simple(Instruction::Free(2)).compile();
    assert_eq!(simple.len(), 1);
    assert!(matches!(&simple[0], Instruction::Free(2)));
}

#[test]
fn store_then_load_follows_pointer() {
    let code = vec![
        Instruction::Store(imm(5)),
        Instruction::Load(Arg::Acc),
        Instruction::Print(Arg::Acc),
        Instruction::HALT,
    ];
    assert_eq!(run_alone(code), Ok(vec![Data::Int(5)]));
}

#[test]
fn load_acc_rejects_non_pointer() {
    let code = vec![
        Instruction::Load(imm(5)),
        Instruction::Load(Arg::Acc),
        Instruction::HALT,
    ];
    assert_eq!(run_alone(code), Err(Fault::TypeFault));
}

#[test]
fn store_ref_is_relative_to_instruction_pointer() {
    let code = vec![
        Instruction::Print(imm(0)),
        Instruction::Print(imm(0)),
        Instruction::Store(Arg::Ref(2)),
        Instruction::Print(Arg::Acc),
        Instruction::HALT,
    ];
    assert_eq!(
        run_alone(code),
        Ok(vec![Data::Int(0), Data::Int(0), Data::Pointer(0)])
    );
}

#[test]
fn doubling_loop_with_relative_jumps() {
    let code = vec![
        Instruction::Store(imm(1)),
        Instruction::BinaryOp(BinaryOp::LT, imm(1000), Arg::Ref(0)),
        Instruction::JumpIf(Arg::Acc, imm(3)),
        Instruction::BinaryOp(BinaryOp::Multiply, Arg::Ref(0), imm(2)),
        Instruction::Copy(Arg::Acc, Arg::Ref(0)),
        Instruction::Jump(imm(-5)),
        Instruction::Print(Arg::Ref(0)),
        Instruction::Print(Arg::Const(Data::String("done".to_string()))),
        Instruction::HALT,
    ];
    assert_eq!(
        run_alone(code),
        Ok(vec![Data::Int(1024), Data::String("done".to_string())])
    );
}

#[test]
fn jump_to_absolute_pointer() {
    let code = vec![
        Instruction::Jump(Arg::Const(Data::Pointer(2))),
        Instruction::Print(imm(1)),
        Instruction::Print(imm(2)),
        Instruction::Print(imm(3)),
        Instruction::HALT,
    ];
    assert_eq!(run_alone(code), Ok(vec![Data::Int(3)]));
}

#[test]
fn jump_if_falsy_does_not_jump() {
    let code = vec![
        Instruction::JumpIf(Arg::Const(Data::Bool(false)), imm(2)),
        Instruction::JumpIf(imm(0), imm(2)),
        Instruction::JumpIf(Arg::Const(Data::Nil), imm(2)),
        Instruction::Print(imm(1)),
        Instruction::HALT,
    ];
    assert_eq!(run_alone(code), Ok(vec![Data::Int(1)]));
}

#[test]
fn jump_if_rejects_negative_condition() {
    let code = vec![Instruction::JumpIf(imm(-1), imm(2)), Instruction::HALT];
    assert_eq!(run_alone(code), Err(Fault::TypeFault));
}

#[test]
fn jump_rejects_string_target() {
    let code = vec![
        Instruction::Jump(Arg::Const(Data::String("x".to_string()))),
        Instruction::HALT,
    ];
    assert_eq!(run_alone(code), Err(Fault::TypeFault));
}

#[test]
fn copy_to_constant_is_a_type_fault() {
    let code = vec![Instruction::Copy(imm(1), imm(2)), Instruction::HALT];
    assert_eq!(run_alone(code), Err(Fault::TypeFault));
}

#[test]
fn free_below_bottom_is_a_stack_fault() {
    let code = vec![Instruction::Free(1), Instruction::HALT];
    assert_eq!(run_alone(code), Err(Fault::StackFault));
}

#[test]
fn free_discards_slots() {
    let code = vec![
        Instruction::Store(imm(4)),
        Instruction::Store(imm(6)),
        Instruction::Free(2),
        Instruction::Load(Arg::Ref(0)),
        Instruction::HALT,
    ];
    assert_eq!(run_alone(code), Err(Fault::StackFault));
}

#[test]
fn running_past_the_code_is_an_address_fault() {
    let code = vec![Instruction::Print(imm(1))];
    assert_eq!(run_alone(code), Err(Fault::AddressFault));
}

#[test]
fn divide_by_zero_is_an_arithmetic_fault() {
    let code = vec![
        Instruction::BinaryOp(BinaryOp::Divide, imm(1), imm(0)),
        Instruction::HALT,
    ];
    assert_eq!(run_alone(code), Err(Fault::ArithmeticFault));
}

#[test]
fn mismatched_operands_are_a_type_fault() {
    let code = vec![
        Instruction::BinaryOp(BinaryOp::Add, imm(1), Arg::Const(Data::Bool(true))),
        Instruction::HALT,
    ];
    assert_eq!(run_alone(code), Err(Fault::TypeFault));
}

#[test]
fn relative_jump_wraps_around() {
    let mut ctx = ProcessContext::new(4);
    assert_eq!(ctx.get_rel_ipntr(-1), usize::MAX);
    ctx.goto_rel(-1);
    assert_eq!(ctx.get_ipntr(), usize::MAX);
    ctx.goto_rel(3);
    assert_eq!(ctx.get_ipntr(), 2);
    ctx.goto(40);
    assert_eq!(ctx.get_rel_ipntr(-8), 32);
}
