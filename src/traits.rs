use crate::data::{Data, Fault, Value};
use crate::instructions::InstructionModel;
use crate::vm::{ContextModel, ProcessContext};
use vstd::prelude::*;

verus! {

/// A type that can be held in the machine's register files.
pub trait NativeType {

}

/// The model of what an instruction hands to the output sink.
pub open spec fn output_view(o: Option<Data>) -> Option<Value> {
    match o {
        Some(d) => Some(d@),
        None => None,
    }
}

/// An instruction that acts on a process context.
pub trait Executable {
    /// What executing the instruction does to a context, and what it prints.
    spec fn effect_on(&self, c: ContextModel) -> Result<(ContextModel, Option<Value>), Fault>;

    fn execute(&self, proc: &mut ProcessContext) -> (r: Result<Option<Data>, Fault>)
        requires
            old(proc).wf(),
        ensures
            final(proc).wf(),
            match self.effect_on(old(proc)@) {
                Ok((c, out)) => r is Ok && final(proc)@ == c && output_view(r->Ok_0) == out,
                Err(e) => r is Err && r->Err_0 == e,
            },
    ;
}

/// A composite instruction that expands into primitive instructions.
pub trait Compilable<I: View<V = InstructionModel>> {
    /// The primitive sequence the instruction expands to.
    spec fn compiled(&self) -> Seq<InstructionModel>;

    fn compile(&self) -> (r: Vec<I>)
        ensures
            r@.map_values(|i: I| i@) == self.compiled(),
    ;
}

/// Control of an instruction pointer.
pub trait OpManager {
    spec fn ip(&self) -> usize;

    fn goto(&mut self, ipntr: usize)
        ensures
            final(self).ip() == ipntr,
    ;

    fn get_ipntr(&self) -> (r: usize)
        ensures
            r == self.ip(),
    ;
}

/// Something the scheduler can advance one quantum at a time.
pub trait Runnable: Sized {
    /// The invariant that a quantum needs and keeps.
    spec fn ready(&self) -> bool;

    spec fn done(&self) -> bool;

    /// Whether one quantum can lead from `self` to `after`, printing `out`.
    spec fn quantum(&self, after: Self, out: Option<Value>) -> bool;

    /// The fault that the next quantum raises, if any.
    spec fn next_fault(&self) -> Option<Fault>;

    fn run(&mut self) -> (r: Result<Option<Data>, Fault>)
        requires
            old(self).ready(),
        ensures
            final(self).ready(),
            match r {
                Ok(o) => old(self).quantum(*final(self), output_view(o)),
                Err(e) => old(self).next_fault() == Some(e),
            },
    ;

    fn is_finished(&self) -> (r: bool)
        ensures
            r == self.done(),
    ;
}

} // verus!
