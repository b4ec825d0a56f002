use crate::data::{Arg, Data, Fault, Value};
use crate::ops::BinaryOp;
use crate::stack::{Stack, StackModel};
use crate::traits::Compilable;
use vstd::prelude::*;

verus! {

/// The primitive instructions.
#[derive(Debug)]
pub enum Instruction {
    /// Computes an operator on two operands into the accumulator.
    BinaryOp(BinaryOp, Arg, Arg),
    /// Allocates a slot and puts a pointer to it into the accumulator.
    Store(Arg),
    /// Loads a value into the accumulator, following a pointer held there.
    Load(Arg),
    /// Copies a value into a register or the accumulator.
    Copy(Arg, Arg),
    /// Discards slots below the frontier.
    Free(u8),
    /// Moves the instruction pointer.
    Jump(Arg),
    /// Jumps when the condition holds.
    JumpIf(Arg, Arg),
    /// Hands a value to the output sink.
    Print(Arg),
    /// Finishes the process.
    HALT,
}

/// A composite instruction that the compiler expands into primitive ones.
#[derive(Debug)]
pub enum SuperInstruction {
    IF(Arg, usize),
    Swap(Arg, Arg),
    Simple(Instruction),
}

/// The model of an operand.
pub enum ArgModel {
    Const(Value),
    Ref(usize),
    Acc,
}

/// The model of an instruction.
pub enum InstructionModel {
    BinaryOp(BinaryOp, ArgModel, ArgModel),
    Store(ArgModel),
    Load(ArgModel),
    Copy(ArgModel, ArgModel),
    Free(u8),
    Jump(ArgModel),
    JumpIf(ArgModel, ArgModel),
    Print(ArgModel),
    HALT,
}

impl View for Arg {
    type V = ArgModel;

    open spec fn view(&self) -> ArgModel {
        match self {
            Arg::Const(d) => ArgModel::Const(d@),
            Arg::Ref(i) => ArgModel::Ref(*i),
            Arg::Acc => ArgModel::Acc,
        }
    }
}

impl View for Instruction {
    type V = InstructionModel;

    open spec fn view(&self) -> InstructionModel {
        match self {
            Instruction::BinaryOp(op, a, b) => InstructionModel::BinaryOp(*op, a@, b@),
            Instruction::Store(a) => InstructionModel::Store(a@),
            Instruction::Load(a) => InstructionModel::Load(a@),
            Instruction::Copy(a, b) => InstructionModel::Copy(a@, b@),
            Instruction::Free(n) => InstructionModel::Free(*n),
            Instruction::Jump(a) => InstructionModel::Jump(a@),
            Instruction::JumpIf(a, b) => InstructionModel::JumpIf(a@, b@),
            Instruction::Print(a) => InstructionModel::Print(a@),
            Instruction::HALT => InstructionModel::HALT,
        }
    }
}

impl ArgModel {
    /// The value an operand denotes in a register file: `Ref(i)` is the slot
    /// `i + 1` below the frontier and `Acc` the slot at the frontier.
    pub open spec fn resolve(self, s: StackModel) -> Result<Value, Fault> {
        match self {
            ArgModel::Const(v) => Ok(v),
            ArgModel::Ref(i) => s.read_register(i + 1),
            ArgModel::Acc => s.read_register(0),
        }
    }

    /// The absolute slot an operand names as the target of a write.
    pub open spec fn target(self, s: StackModel) -> Result<int, Fault> {
        match self {
            ArgModel::Const(_) => Err(Fault::TypeFault),
            ArgModel::Ref(i) => s.register_index(i + 1),
            ArgModel::Acc => s.register_index(0),
        }
    }
}

impl Arg {
    /// Resolves the operand against a register file, without changing it.
    pub fn deref<'a>(&'a self, stack: &'a Stack) -> (r: Result<&'a Data, Fault>)
        requires
            stack.wf(),
        ensures
            match self@.resolve(stack@) {
                Ok(v) => r is Ok && r->Ok_0@ == v,
                Err(e) => r is Err && r->Err_0 == e,
            },
    {
        match self {
            Arg::Const(data) => Ok(data),
            Arg::Ref(name) => {
                if *name >= stack.len() {
                    return Err(Fault::StackFault);
                }
                stack.peek_register(*name + 1)
            },
            Arg::Acc => stack.peek_register(0),
        }
    }

    /// A copy of the operand.
    pub fn duplicate(&self) -> (r: Arg)
        ensures
            r@ == self@,
    {
        match self {
            Arg::Const(data) => Arg::Const(data.duplicate()),
            Arg::Ref(i) => Arg::Ref(*i),
            Arg::Acc => Arg::Acc,
        }
    }
}

impl Instruction {
    /// A copy of the instruction.
    pub fn duplicate(&self) -> (r: Instruction)
        ensures
            r@ == self@,
    {
        match self {
            Instruction::BinaryOp(op, a, b) => Instruction::BinaryOp(*op, a.duplicate(), b.duplicate()),
            Instruction::Store(a) => Instruction::Store(a.duplicate()),
            Instruction::Load(a) => Instruction::Load(a.duplicate()),
            Instruction::Copy(a, b) => Instruction::Copy(a.duplicate(), b.duplicate()),
            Instruction::Free(n) => Instruction::Free(*n),
            Instruction::Jump(a) => Instruction::Jump(a.duplicate()),
            Instruction::JumpIf(a, b) => Instruction::JumpIf(a.duplicate(), b.duplicate()),
            Instruction::Print(a) => Instruction::Print(a.duplicate()),
            Instruction::HALT => Instruction::HALT,
        }
    }
}

impl SuperInstruction {
    /// The primitive sequence a super-instruction expands to.
    pub open spec fn expansion(&self) -> Seq<InstructionModel> {
        match self {
            SuperInstruction::IF(arg, lines) => seq![
                InstructionModel::Jump(arg@),
                InstructionModel::Jump(ArgModel::Const(Value::Pointer(1))),
                InstructionModel::Jump(ArgModel::Const(Value::Pointer(*lines))),
            ],
            SuperInstruction::Swap(a, b) => seq![
                InstructionModel::Copy(a@, ArgModel::Acc),
                InstructionModel::Copy(b@, a@),
                InstructionModel::Copy(ArgModel::Acc, b@),
            ],
            SuperInstruction::Simple(i) => seq![i@],
        }
    }
}

impl Compilable<Instruction> for SuperInstruction {
    open spec fn compiled(&self) -> Seq<InstructionModel> {
        self.expansion()
    }

    /// Expands the super-instruction into primitive instructions.
    fn compile(&self) -> (r: Vec<Instruction>) {
        let r = match self {
            SuperInstruction::IF(arg, lines) => vec![
                Instruction::Jump(arg.duplicate()),
                Instruction::Jump(Arg::Const(Data::Pointer(1))),
                Instruction::Jump(Arg::Const(Data::Pointer(*lines))),
            ],
            SuperInstruction::Swap(a, b) => vec![
                Instruction::Copy(a.duplicate(), Arg::Acc),
                Instruction::Copy(b.duplicate(), a.duplicate()),
                Instruction::Copy(Arg::Acc, b.duplicate()),
            ],
            SuperInstruction::Simple(i) => vec![i.duplicate()],
        };
        assert(r@.map_values(|i: Instruction| i@) =~= self.expansion());
        r
    }
}

} // verus!
