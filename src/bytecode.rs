use crate::data::{Data, Fault, Value};
use crate::instructions::{Instruction, InstructionModel};
use vstd::prelude::*;

verus! {

/// The model of a program: its instructions and its constant pool.
pub struct ProgramModel {
    pub code: Seq<InstructionModel>,
    pub constants: Seq<Value>,
}

/// A program as its author assembled it.
pub struct ProgramCode {
    instructions: Vec<Instruction>,
    constants: Vec<Data>,
}

/// The compiled, immutable form of a program.
pub struct ByteCode {
    instructions: Vec<Instruction>,
    constants: Vec<Data>,
}

impl View for ProgramCode {
    type V = ProgramModel;

    closed spec fn view(&self) -> ProgramModel {
        ProgramModel {
            code: self.instructions@.map_values(|i: Instruction| i@),
            constants: self.constants@.map_values(|d: Data| d@),
        }
    }
}

impl View for ByteCode {
    type V = ProgramModel;

    closed spec fn view(&self) -> ProgramModel {
        ProgramModel {
            code: self.instructions@.map_values(|i: Instruction| i@),
            constants: self.constants@.map_values(|d: Data| d@),
        }
    }
}

fn copy_instructions(v: &Vec<Instruction>) -> (r: Vec<Instruction>)
    ensures
        r@.map_values(|i: Instruction| i@) == v@.map_values(|i: Instruction| i@),
{
    let mut r: Vec<Instruction> = Vec::new();
    let mut i: usize = 0;
    while i < v.len()
        invariant
            i <= v.len(),
            r.len() == i,
            forall|k: int| 0 <= k < i ==> (#[trigger] r[k])@ == v[k]@,
        decreases v.len() - i,
    {
        r.push(v[i].duplicate());
        i = i + 1;
    }
    assert(r@.map_values(|i: Instruction| i@) =~= v@.map_values(|i: Instruction| i@));
    r
}

fn copy_constants(v: &Vec<Data>) -> (r: Vec<Data>)
    ensures
        r@.map_values(|d: Data| d@) == v@.map_values(|d: Data| d@),
{
    let mut r: Vec<Data> = Vec::new();
    let mut i: usize = 0;
    while i < v.len()
        invariant
            i <= v.len(),
            r.len() == i,
            forall|k: int| 0 <= k < i ==> (#[trigger] r[k])@ == v[k]@,
        decreases v.len() - i,
    {
        r.push(v[i].duplicate());
        i = i + 1;
    }
    assert(r@.map_values(|d: Data| d@) =~= v@.map_values(|d: Data| d@));
    r
}

impl ProgramCode {
    pub fn new(instructions: Vec<Instruction>, constants: Vec<Data>) -> (r: ProgramCode)
        ensures
            r@.code == instructions@.map_values(|i: Instruction| i@),
            r@.constants == constants@.map_values(|d: Data| d@),
    {
        ProgramCode { instructions, constants }
    }

    /// Compiles the program into bytecode holding the same instructions and constants.
    pub fn compile(&self) -> (r: ByteCode)
        ensures
            r@ == self@,
    {
        ByteCode {
            instructions: copy_instructions(&self.instructions),
            constants: copy_constants(&self.constants),
        }
    }
}

impl ByteCode {
    pub fn new(instructions: Vec<Instruction>, constants: Vec<Data>) -> (r: ByteCode)
        ensures
            r@.code == instructions@.map_values(|i: Instruction| i@),
            r@.constants == constants@.map_values(|d: Data| d@),
    {
        ByteCode { instructions, constants }
    }

    /// The instructions.
    pub fn get(&self) -> (r: &[Instruction])
        ensures
            r@.map_values(|i: Instruction| i@) == self@.code,
    {
        self.instructions.as_slice()
    }

    /// The instruction at an address.
    pub fn get_at(&self, ipointer: usize) -> (r: Result<&Instruction, Fault>)
        ensures
            ipointer < self@.code.len() ==> r is Ok && r->Ok_0@ == self@.code[ipointer as int],
            ipointer >= self@.code.len() ==> r is Err && r->Err_0 == Fault::AddressFault,
    {
        if ipointer >= self.instructions.len() {
            return Err(Fault::AddressFault);
        }
        Ok(&self.instructions[ipointer])
    }

    /// The constant pool.
    pub fn get_constants(&self) -> (r: &[Data])
        ensures
            r@.map_values(|d: Data| d@) == self@.constants,
    {
        self.constants.as_slice()
    }
}

} // verus!
