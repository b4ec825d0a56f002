use crate::data::{Arg, Fault, Value};
use crate::instructions::{ArgModel, InstructionModel, SuperInstruction};
use crate::ops::BinaryOp;
use crate::vm::{ContextModel, MachineModel, ProcessModel};
use vstd::prelude::*;

verus! {

/// Adding `b` and then subtracting `b` gives back `a`, for two integers or
/// two bytes, whenever the addition does not overflow.
pub proof fn lemma_add_then_subtract(a: Value, b: Value)
    requires
        (a is Int && b is Int) || (a is Byte && b is Byte),
        BinaryOp::Add.apply(a, b) is Ok,
    ensures
        BinaryOp::Subtract.apply(BinaryOp::Add.apply(a, b)->Ok_0, b) == Ok::<Value, Fault>(a),
{
}

/// Concatenation of strings, and of byte arrays, is associative.
pub proof fn lemma_concat_associative(a: Value, b: Value, c: Value)
    requires
        (a is String && b is String && c is String) || (a is ByteArray && b is ByteArray
            && c is ByteArray),
    ensures
        BinaryOp::Add.apply(a, b) is Ok,
        BinaryOp::Add.apply(b, c) is Ok,
        BinaryOp::Add.apply(BinaryOp::Add.apply(a, b)->Ok_0, c) == BinaryOp::Add.apply(
            a,
            BinaryOp::Add.apply(b, c)->Ok_0,
        ),
{
    match (a, b, c) {
        (Value::String(x), Value::String(y), Value::String(z)) => {
            assert((x + y) + z =~= x + (y + z));
        },
        (Value::ByteArray(x), Value::ByteArray(y), Value::ByteArray(z)) => {
            assert((x + y) + z =~= x + (y + z));
        },
        _ => {},
    }
}

/// The empty string is the identity of string concatenation.
pub proof fn lemma_empty_string_identity(a: Value)
    requires
        a is String,
    ensures
        BinaryOp::Add.apply(a, Value::String(Seq::empty())) == Ok::<Value, Fault>(a),
        BinaryOp::Add.apply(Value::String(Seq::empty()), a) == Ok::<Value, Fault>(a),
{
    let x = a->String_0;
    assert(x + Seq::empty() =~= x);
    assert(Seq::empty() + x =~= x);
}

/// The empty byte array is the identity of byte-array concatenation.
pub proof fn lemma_empty_bytes_identity(a: Value)
    requires
        a is ByteArray,
    ensures
        BinaryOp::Add.apply(a, Value::ByteArray(Seq::empty())) == Ok::<Value, Fault>(a),
        BinaryOp::Add.apply(Value::ByteArray(Seq::empty()), a) == Ok::<Value, Fault>(a),
{
    let x = a->ByteArray_0;
    assert(x + Seq::empty() =~= x);
    assert(Seq::empty() + x =~= x);
}

/// `LT(a, b)` is `GET(b, a)` and `LET(a, b)` is `GT(b, a)`, faults included.
pub proof fn lemma_flipped_comparisons(a: Value, b: Value)
    ensures
        BinaryOp::LT.apply(a, b) == BinaryOp::GET.apply(b, a),
        BinaryOp::LET.apply(a, b) == BinaryOp::GT.apply(b, a),
{
}

/// `n` quanta of a process, or the first fault.
pub open spec fn steps(p: ProcessModel, n: nat) -> Result<ProcessModel, Fault>
    decreases n,
{
    if n == 0 {
        Ok(p)
    } else {
        match p.step() {
            Ok((q, _)) => steps(q, (n - 1) as nat),
            Err(e) => Err(e),
        }
    }
}

/// One quantum of a process whose current instruction is a `Copy` that
/// succeeds: the target slot receives the source value.
proof fn lemma_copy_quantum(p: ProcessModel, src: ArgModel, tgt: ArgModel)
    requires
        p.context.ip < p.code.len(),
        p.context.ip + 1 < crate::vm::ip_modulus(),
        p.code[p.context.ip as int] == InstructionModel::Copy(src, tgt),
        src.resolve(p.context.stack) is Ok,
        tgt.target(p.context.stack) is Ok,
        p.context.stack.write(tgt.target(p.context.stack)->Ok_0, src.resolve(p.context.stack)->Ok_0) is Ok,
    ensures
        p.step() is Ok,
        p.step()->Ok_0.0 == (ProcessModel {
            context: ContextModel {
                stack: p.context.stack.write(
                    tgt.target(p.context.stack)->Ok_0,
                    src.resolve(p.context.stack)->Ok_0,
                )->Ok_0,
                ip: (p.context.ip + 1) as usize,
                ..p.context
            },
            ..p
        }),
{
    vstd::arithmetic::div_mod::lemma_small_mod((p.context.ip + 1) as nat, crate::vm::ip_modulus() as nat);
}

/// Running the expansion of `Swap(Ref(0), Ref(1))` exchanges the two
/// registers below the frontier and leaves the first one's old value in the
/// accumulator; the frontier and every other slot stay as they were.
pub proof fn lemma_swap_exchanges(p: ProcessModel)
    requires
        p.code == SuperInstruction::Swap(Arg::Ref(0), Arg::Ref(1)).expansion(),
        p.context.ip == 0,
        p.context.stack.wf(),
        2 <= p.context.stack.frontier < p.context.stack.cells.len(),
    ensures
        ({
            let f = p.context.stack.frontier as int;
            let before = p.context.stack.cells;
            let r = steps(p, 3);
            &&& r is Ok
            &&& r->Ok_0.context.ip == 3
            &&& r->Ok_0.context.stack.frontier == f
            &&& r->Ok_0.context.stack.cells == before.update(f, before[f - 1]).update(f - 1, before[f - 2]).update(
                f - 2,
                before[f - 1],
            )
        }),
{
    let f = p.context.stack.frontier as int;
    let before = p.context.stack.cells;
    let code = p.code;
    assert(code[0] == InstructionModel::Copy(ArgModel::Ref(0), ArgModel::Acc));
    assert(code[1] == InstructionModel::Copy(ArgModel::Ref(1), ArgModel::Ref(0)));
    assert(code[2] == InstructionModel::Copy(ArgModel::Acc, ArgModel::Ref(1)));
    lemma_copy_quantum(p, ArgModel::Ref(0), ArgModel::Acc);
    let p1 = p.step()->Ok_0.0;
    assert(p1.context.stack.cells == before.update(f, before[f - 1]));
    lemma_copy_quantum(p1, ArgModel::Ref(1), ArgModel::Ref(0));
    let p2 = p1.step()->Ok_0.0;
    assert(p2.context.stack.cells == before.update(f, before[f - 1]).update(f - 1, before[f - 2]));
    lemma_copy_quantum(p2, ArgModel::Acc, ArgModel::Ref(1));
    let p3 = p2.step()->Ok_0.0;
    assert(steps(p3, 0) == Ok::<ProcessModel, Fault>(p3));
    assert(steps(p2, 1) == steps(p3, 0));
    assert(steps(p1, 2) == steps(p2, 1));
    assert(steps(p, 3) == steps(p1, 2));
}

/// `Load(Acc)` follows a pointer held in the accumulator and faults with a
/// type fault on any other value there.
pub proof fn lemma_load_acc_needs_pointer(c: ContextModel)
    requires
        c.stack.read_register(0) is Ok,
        !(c.stack.read_register(0)->Ok_0 is Pointer),
    ensures
        InstructionModel::Load(ArgModel::Acc).effect(c) == Err::<(ContextModel, Option<Value>), Fault>(
            Fault::TypeFault,
        ),
{
}

/// A turn changes only the process that ran: every other process keeps its
/// state and its place in admission order, and the shared heap is untouched.
pub proof fn lemma_turn_isolates_processes(m: MachineModel)
    requires
        m.procs.len() > 0,
        m.turn() is Ok,
    ensures
        ({
            let i = m.current();
            let after = m.turn()->Ok_0.0;
            &&& after.heap == m.heap
            &&& forall|j: int| 0 <= j < i ==> after.procs[j] == m.procs[j]
            &&& after.procs.len() == m.procs.len() ==> forall|j: int|
                i < j < m.procs.len() ==> after.procs[j] == m.procs[j]
            &&& after.procs.len() + 1 == m.procs.len() ==> forall|j: int|
                i < j < m.procs.len() ==> after.procs[j - 1] == m.procs[j]
        }),
{
}

} // verus!
