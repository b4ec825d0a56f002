use crate::bytecode::{ByteCode, ProgramCode};
use crate::data::{Arg, Data, Fault, Value};
use crate::instructions::{ArgModel, Instruction, InstructionModel};
use crate::ops::BinaryOp;
use crate::stack::{Stack, StackModel};
use crate::traits::{output_view, Executable, OpManager, Runnable};
use vstd::prelude::*;

verus! {

/// The number of distinct instruction addresses.
pub open spec fn ip_modulus() -> int {
    usize::MAX as int + 1
}

/// An instruction address computed with wraparound.
pub open spec fn wrap(x: int) -> usize {
    (x % ip_modulus()) as usize
}

proof fn lemma_wrap(x: int)
    requires
        -ip_modulus() <= x < 2 * ip_modulus(),
    ensures
        wrap(x) == if x < 0 {
            x + ip_modulus()
        } else if x >= ip_modulus() {
            x - ip_modulus()
        } else {
            x
        },
{
    let m = ip_modulus();
    if x < 0 {
        vstd::arithmetic::div_mod::lemma_mod_add_multiples_vanish(x, m);
        vstd::arithmetic::div_mod::lemma_small_mod((x + m) as nat, m as nat);
    } else if x >= m {
        vstd::arithmetic::div_mod::lemma_mod_sub_multiples_vanish(x, m);
        vstd::arithmetic::div_mod::lemma_small_mod((x - m) as nat, m as nat);
    } else {
        vstd::arithmetic::div_mod::lemma_small_mod(x as nat, m as nat);
    }
}

/// The model of a process's execution state.
pub struct ContextModel {
    pub stack: StackModel,
    pub ip: usize,
    pub calls: Seq<usize>,
    pub finished: bool,
}

impl ContextModel {
    pub open spec fn with_stack(self, s: StackModel) -> ContextModel {
        ContextModel { stack: s, ..self }
    }

    pub open spec fn with_ip(self, ip: usize) -> ContextModel {
        ContextModel { ip: ip, ..self }
    }

    /// The context after a jump to the resolved target: bytes and pointers are
    /// absolute addresses, integers and booleans are offsets from the
    /// instruction pointer, and `Nil` leaves it unchanged.
    pub open spec fn jump_to(self, target: Value) -> Result<(ContextModel, Option<Value>), Fault> {
        match target {
            Value::Byte(b) => Ok((self.with_ip(b as usize), None)),
            Value::Pointer(p) => Ok((self.with_ip(p), None)),
            Value::Int(i) => Ok((self.with_ip(wrap(self.ip + i)), None)),
            Value::Bool(b) => Ok((self.with_ip(wrap(self.ip + if b { 1int } else { 0int })), None)),
            Value::Nil => Ok((self, None)),
            _ => Err(Fault::TypeFault),
        }
    }

    /// The context after a jump to the value an operand resolves to.
    pub open spec fn jump_via(self, a: ArgModel) -> Result<(ContextModel, Option<Value>), Fault> {
        match a.resolve(self.stack) {
            Ok(v) => self.jump_to(v),
            Err(e) => Err(e),
        }
    }

    /// The context with a new register file, or the fault that prevented it.
    pub open spec fn then_stack(self, s: Result<StackModel, Fault>) -> Result<(ContextModel, Option<Value>), Fault> {
        match s {
            Ok(s) => Ok((self.with_stack(s), None)),
            Err(e) => Err(e),
        }
    }

    /// Allocates a slot above the frontier and puts a pointer to the former
    /// frontier into the new accumulator.
    pub open spec fn push_pointer(self, s: StackModel) -> Result<(ContextModel, Option<Value>), Fault> {
        match s.advance() {
            Ok(s2) => self.then_stack(s2.write(s2.frontier as int, Value::Pointer(s.frontier as usize))),
            Err(e) => Err(e),
        }
    }
}

/// Writes a value into the accumulator slot.
pub open spec fn set_acc(s: StackModel, v: Value) -> Result<StackModel, Fault> {
    s.write(s.frontier as int, v)
}

impl BinaryOp {
    /// Resolves both operands, applies the operator and writes the result
    /// into the accumulator slot.
    pub open spec fn on_stack(self, a: ArgModel, b: ArgModel, s: StackModel) -> Result<StackModel, Fault> {
        match a.resolve(s) {
            Err(e) => Err(e),
            Ok(x) => match b.resolve(s) {
                Err(e) => Err(e),
                Ok(y) => match self.apply(x, y) {
                    Err(e) => Err(e),
                    Ok(v) => set_acc(s, v),
                },
            },
        }
    }

    pub fn execute(&self, stack: &mut Stack, a: &Arg, b: &Arg) -> (r: Result<(), Fault>)
        requires
            old(stack).wf(),
        ensures
            final(stack).wf(),
            match self.on_stack(a@, b@, old(stack)@) {
                Ok(s) => r is Ok && final(stack)@ == s,
                Err(e) => r is Err && r->Err_0 == e,
            },
    {
        let x = a.deref(stack)?;
        let y = b.deref(stack)?;
        let v = self.compute(x, y)?;
        stack.to_register(v)
    }
}

impl InstructionModel {
    /// What one instruction does to a context, before the instruction
    /// pointer moves on, and the value it hands to the output sink.
    pub open spec fn effect(self, c: ContextModel) -> Result<(ContextModel, Option<Value>), Fault> {
        let s = c.stack;
        match self {
            InstructionModel::BinaryOp(op, a, b) => c.then_stack(op.on_stack(a, b, s)),
            InstructionModel::Store(a) => match a {
                ArgModel::Ref(rel) => c.then_stack(set_acc(s, Value::Pointer(wrap(c.ip - rel)))),
                ArgModel::Const(v) => match set_acc(s, v) {
                    Ok(s1) => c.push_pointer(s1),
                    Err(e) => Err(e),
                },
                ArgModel::Acc => c.push_pointer(s),
            },
            InstructionModel::Load(a) => match a {
                ArgModel::Acc => match s.read_register(0) {
                    Ok(Value::Pointer(p)) => match s.read(p as int) {
                        Ok(v) => c.then_stack(set_acc(s, v)),
                        Err(e) => Err(e),
                    },
                    Ok(_) => Err(Fault::TypeFault),
                    Err(e) => Err(e),
                },
                _ => match a.resolve(s) {
                    Ok(v) => c.then_stack(set_acc(s, v)),
                    Err(e) => Err(e),
                },
            },
            InstructionModel::Copy(src, tgt) => match src.resolve(s) {
                Ok(v) => match tgt.target(s) {
                    Ok(i) => c.then_stack(s.write(i, v)),
                    Err(e) => Err(e),
                },
                Err(e) => Err(e),
            },
            InstructionModel::Free(n) => c.then_stack(s.discard(n as nat)),
            InstructionModel::Jump(a) => c.jump_via(a),
            InstructionModel::JumpIf(cond, a) => match cond.resolve(s) {
                Ok(Value::Bool(true)) => c.jump_via(a),
                Ok(Value::Int(i)) => if i >= 1 {
                    c.jump_via(a)
                } else if i == 0 {
                    Ok((c, None))
                } else {
                    Err(Fault::TypeFault)
                },
                Ok(Value::Bool(false)) => Ok((c, None)),
                Ok(Value::Nil) => Ok((c, None)),
                Ok(_) => Err(Fault::TypeFault),
                Err(e) => Err(e),
            },
            InstructionModel::Print(a) => match a.resolve(s) {
                Ok(v) => Ok((c, Some(v))),
                Err(e) => Err(e),
            },
            InstructionModel::HALT => Ok((ContextModel { finished: true, ..c }, None)),
        }
    }
}

/// The execution state of one process.
pub struct ProcessContext {
    pub stack: Stack,
    pub ipointer: usize,
    pub calls_history: Vec<usize>,
    pub is_finished: bool,
}

impl View for ProcessContext {
    type V = ContextModel;

    open spec fn view(&self) -> ContextModel {
        ContextModel {
            stack: self.stack@,
            ip: self.ipointer,
            calls: self.calls_history@,
            finished: self.is_finished,
        }
    }
}

/// The address `offset` instructions away from `ip`, with wraparound.
fn offset_address(ip: usize, offset: i64) -> (r: usize)
    ensures
        r == wrap(ip + offset),
{
    let m: u128 = usize::MAX as u128 + 1;
    let t: i128 = ip as i128 + offset as i128;
    assert(m * 0x4000_0000_0000_0000u128 <= 0x4000_0000_0000_0000_0000_0000_0000_0000u128) by (nonlinear_arith)
        requires
            m <= 0x1_0000_0000_0000_0000u128,
    ;
    let shift: u128 = m * 0x4000_0000_0000_0000u128;
    assert(shift >= 0x1_0000_0000u128 * 0x4000_0000_0000_0000u128) by (nonlinear_arith)
        requires
            shift == m * 0x4000_0000_0000_0000u128,
            m >= 0x1_0000_0000u128,
    ;
    let s: u128 = (t + shift as i128) as u128;
    let r: u128 = s % m;
    proof {
        vstd::arithmetic::div_mod::lemma_mod_multiples_vanish(0x4000_0000_0000_0000int, t as int, m as int);
        assert(m * 0x4000_0000_0000_0000int == 0x4000_0000_0000_0000int * m) by (nonlinear_arith);
    }
    r as usize
}

/// The address `back` instructions before `ip`, with wraparound.
fn back_address(ip: usize, back: usize) -> (r: usize)
    ensures
        r == wrap(ip - back),
{
    proof {
        lemma_wrap(ip - back);
    }
    if back <= ip {
        ip - back
    } else {
        usize::MAX - (back - ip) + 1
    }
}

/// The address after `ip`, with wraparound.
fn next_address(ip: usize) -> (r: usize)
    ensures
        r == wrap(ip + 1),
{
    proof {
        lemma_wrap(ip + 1);
    }
    if ip == usize::MAX {
        0
    } else {
        ip + 1
    }
}

impl ProcessContext {
    pub open spec fn wf(&self) -> bool {
        self.stack.wf()
    }

    /// A fresh context: an empty register file of `stack_size` slots and the
    /// instruction pointer at the start.
    pub fn new(stack_size: usize) -> (r: ProcessContext)
        ensures
            r.wf(),
            r@.stack.frontier == 0,
            r@.stack.cells == Seq::new(stack_size as nat, |i: int| Value::Nil),
            r@.ip == 0,
            r@.calls.len() == 0,
            !r@.finished,
    {
        ProcessContext { stack: Stack::new(stack_size), ipointer: 0, calls_history: Vec::new(), is_finished: false }
    }

    /// Sets the instruction pointer.
    pub fn goto(&mut self, ipntr: usize)
        ensures
            final(self)@ == old(self)@.with_ip(ipntr),
    {
        self.ipointer = ipntr;
    }

    /// The instruction pointer.
    pub fn get_ipntr(&self) -> (r: usize)
        ensures
            r == self@.ip,
    {
        self.ipointer
    }

    /// Moves the instruction pointer by a signed offset, with wraparound.
    pub fn goto_rel(&mut self, offset: i64)
        ensures
            final(self)@ == old(self)@.with_ip(wrap(old(self)@.ip + offset)),
    {
        let target = self.get_rel_ipntr(offset);
        self.goto(target);
    }

    /// The address at a signed offset from the instruction pointer, with wraparound.
    pub fn get_rel_ipntr(&self, offset: i64) -> (r: usize)
        ensures
            r == wrap(self@.ip + offset),
    {
        offset_address(self.ipointer, offset)
    }

    /// Marks the process as finished.
    pub fn halt(&mut self)
        ensures
            final(self)@ == (ContextModel { finished: true, ..old(self)@ }),
    {
        self.is_finished = true;
    }
}

impl Executable for Instruction {
    open spec fn effect_on(&self, c: ContextModel) -> Result<(ContextModel, Option<Value>), Fault> {
        self@.effect(c)
    }

    fn execute(&self, proc: &mut ProcessContext) -> (r: Result<Option<Data>, Fault>) {
        match self {
            Instruction::BinaryOp(op, a, b) => {
                op.execute(&mut proc.stack, a, b)?;
                Ok(None)
            },
            Instruction::Store(arg) => Self::store(proc, arg),
            Instruction::Load(arg) => Self::load(proc, arg),
            Instruction::Copy(src, tgt) => Self::copy(proc, src, tgt),
            Instruction::Free(n) => {
                Self::clean_stack(&mut proc.stack, *n as usize)?;
                Ok(None)
            },
            Instruction::Jump(arg) => Self::jump(proc, arg),
            Instruction::JumpIf(cond, arg) => Self::jump_if(proc, cond, arg),
            Instruction::Print(arg) => {
                let v = arg.deref(&proc.stack)?;
                Ok(Some(v.duplicate()))
            },
            Instruction::HALT => {
                proc.halt();
                Ok(None)
            },
        }
    }
}

impl Instruction {
    /// Discards the `n` slots below the frontier.
    fn clean_stack(stack: &mut Stack, n: usize) -> (r: Result<(), Fault>)
        requires
            old(stack).wf(),
        ensures
            final(stack).wf(),
            match old(stack)@.discard(n as nat) {
                Ok(s) => r is Ok && final(stack)@ == s,
                Err(e) => r is Err && r->Err_0 == e,
            },
    {
        stack.pop(n)?;
        Ok(())
    }

    fn jump(proc: &mut ProcessContext, arg: &Arg) -> (r: Result<Option<Data>, Fault>)
        requires
            old(proc).wf(),
        ensures
            final(proc).wf(),
            match old(proc)@.jump_via(arg@) {
                Ok((c, out)) => r is Ok && final(proc)@ == c && output_view(r->Ok_0) == out,
                Err(e) => r is Err && r->Err_0 == e,
            },
    {
        let ip = proc.ipointer;
        let target = match arg.deref(&proc.stack)? {
            Data::Byte(b) => *b as usize,
            Data::Pointer(p) => *p,
            Data::Int(i) => offset_address(ip, *i),
            Data::Bool(b) => offset_address(ip, if *b { 1 } else { 0 }),
            Data::Nil => ip,
            _ => return Err(Fault::TypeFault),
        };
        proc.goto(target);
        Ok(None)
    }

    fn jump_if(proc: &mut ProcessContext, cond: &Arg, arg: &Arg) -> (r: Result<Option<Data>, Fault>)
        requires
            old(proc).wf(),
        ensures
            final(proc).wf(),
            match InstructionModel::JumpIf(cond@, arg@).effect(old(proc)@) {
                Ok((c, out)) => r is Ok && final(proc)@ == c && output_view(r->Ok_0) == out,
                Err(e) => r is Err && r->Err_0 == e,
            },
    {
        let taken = match cond.deref(&proc.stack)? {
            Data::Bool(b) => *b,
            Data::Int(i) => {
                if *i >= 1 {
                    true
                } else if *i == 0 {
                    false
                } else {
                    return Err(Fault::TypeFault);
                }
            },
            Data::Nil => false,
            _ => return Err(Fault::TypeFault),
        };
        if taken {
            Self::jump(proc, arg)
        } else {
            Ok(None)
        }
    }

    fn copy(proc: &mut ProcessContext, src: &Arg, tgt: &Arg) -> (r: Result<Option<Data>, Fault>)
        requires
            old(proc).wf(),
        ensures
            final(proc).wf(),
            match InstructionModel::Copy(src@, tgt@).effect(old(proc)@) {
                Ok((c, out)) => r is Ok && final(proc)@ == c && output_view(r->Ok_0) == out,
                Err(e) => r is Err && r->Err_0 == e,
            },
    {
        let value = src.deref(&proc.stack)?.duplicate();
        match tgt {
            Arg::Ref(name) => {
                if *name >= proc.stack.len() {
                    return Err(Fault::StackFault);
                }
                let index = proc.stack.len() - (*name + 1);
                proc.stack.store_at(index, value)?;
            },
            Arg::Acc => {
                proc.stack.to_register(value)?;
            },
            Arg::Const(_) => {
                return Err(Fault::TypeFault);
            },
        }
        Ok(None)
    }

    fn store(proc: &mut ProcessContext, arg: &Arg) -> (r: Result<Option<Data>, Fault>)
        requires
            old(proc).wf(),
        ensures
            final(proc).wf(),
            match InstructionModel::Store(arg@).effect(old(proc)@) {
                Ok((c, out)) => r is Ok && final(proc)@ == c && output_view(r->Ok_0) == out,
                Err(e) => r is Err && r->Err_0 == e,
            },
    {
        match arg {
            Arg::Ref(rel) => {
                let pointer = back_address(proc.ipointer, *rel);
                proc.stack.to_register(Data::Pointer(pointer))?;
            },
            Arg::Const(data) => {
                proc.stack.to_register(data.duplicate())?;
                let pointer = proc.stack.store_register()?;
                proc.stack.to_register(Data::Pointer(pointer))?;
            },
            Arg::Acc => {
                let pointer = proc.stack.store_register()?;
                proc.stack.to_register(Data::Pointer(pointer))?;
            },
        }
        Ok(None)
    }

    fn load(proc: &mut ProcessContext, arg: &Arg) -> (r: Result<Option<Data>, Fault>)
        requires
            old(proc).wf(),
        ensures
            final(proc).wf(),
            match InstructionModel::Load(arg@).effect(old(proc)@) {
                Ok((c, out)) => r is Ok && final(proc)@ == c && output_view(r->Ok_0) == out,
                Err(e) => r is Err && r->Err_0 == e,
            },
    {
        let value = match arg {
            Arg::Acc => match proc.stack.peek_register(0)? {
                Data::Pointer(p) => proc.stack.peek_at(*p)?.duplicate(),
                _ => return Err(Fault::TypeFault),
            },
            _ => arg.deref(&proc.stack)?.duplicate(),
        };
        proc.stack.to_register(value)?;
        Ok(None)
    }
}

/// The model of a process: its identifier, its code and its context.
pub struct ProcessModel {
    pub pid: usize,
    pub code: Seq<InstructionModel>,
    pub context: ContextModel,
}

impl ProcessModel {
    /// One quantum: fetch the instruction at the instruction pointer, execute
    /// it, and move the instruction pointer on by one.
    pub open spec fn step(self) -> Result<(ProcessModel, Option<Value>), Fault> {
        if self.context.ip >= self.code.len() {
            Err(Fault::AddressFault)
        } else {
            match self.code[self.context.ip as int].effect(self.context) {
                Ok((c, out)) => Ok((ProcessModel { context: c.with_ip(wrap(c.ip + 1)), ..self }, out)),
                Err(e) => Err(e),
            }
        }
    }
}

/// One program instance with its own code and execution context.
pub struct Process {
    pid: usize,
    code: ByteCode,
    context: ProcessContext,
}

impl View for Process {
    type V = ProcessModel;

    closed spec fn view(&self) -> ProcessModel {
        ProcessModel { pid: self.pid, code: self.code@.code, context: self.context@ }
    }
}

impl Process {
    pub closed spec fn wf(&self) -> bool {
        self.context.wf()
    }

    /// A process that runs `code` from its first instruction on a fresh
    /// register file of `stack_size` slots.
    pub fn new(stack_size: usize, code: ByteCode, pid: usize) -> (r: Process)
        ensures
            r.wf(),
            r@.pid == pid,
            r@.code == code@.code,
            r@.context.stack.frontier == 0,
            r@.context.stack.cells == Seq::new(stack_size as nat, |i: int| Value::Nil),
            r@.context.ip == 0,
            r@.context.calls.len() == 0,
            !r@.context.finished,
    {
        Process { pid, code, context: ProcessContext::new(stack_size) }
    }

    /// The identifier given at admission.
    pub fn pid(&self) -> (r: usize)
        ensures
            r == self@.pid,
    {
        self.pid
    }

    /// Runs one quantum: exactly one instruction.
    pub fn run(&mut self) -> (r: Result<Option<Data>, Fault>)
        requires
            old(self).wf(),
        ensures
            final(self).wf(),
            match old(self)@.step() {
                Ok((p, out)) => r is Ok && final(self)@ == p && output_view(r->Ok_0) == out,
                Err(e) => r is Err && r->Err_0 == e,
            },
    {
        let instruction = self.code.get_at(self.context.ipointer)?;
        let out = instruction.execute(&mut self.context)?;
        self.context.ipointer = next_address(self.context.ipointer);
        Ok(out)
    }

    /// Whether the process has halted.
    pub fn is_finished(&self) -> (r: bool)
        ensures
            r == self@.context.finished,
    {
        self.context.is_finished
    }
}

/// The values a list of outputs denotes.
pub open spec fn outputs_view(s: Seq<Data>) -> Seq<Value> {
    s.map_values(|d: Data| d@)
}

/// An optional output as a sequence of zero or one values.
pub open spec fn output_seq(o: Option<Value>) -> Seq<Value> {
    match o {
        Some(v) => seq![v],
        None => Seq::empty(),
    }
}

/// The model of the scheduler: the active processes in admission order and
/// the position of the next one to run.
pub struct MachineModel {
    pub procs: Seq<ProcessModel>,
    pub cursor: nat,
    pub heap: StackModel,
}

impl MachineModel {
    /// The process that the next turn runs.
    pub open spec fn current(self) -> int {
        if self.cursor >= self.procs.len() {
            0
        } else {
            self.cursor as int
        }
    }

    /// One turn: the current process runs one instruction; if it finished it
    /// leaves the set and the cursor stays, otherwise the cursor moves on.
    pub open spec fn turn(self) -> Result<(MachineModel, Option<Value>), Fault> {
        if self.procs.len() == 0 {
            Ok((self, None))
        } else {
            let i = self.current();
            match self.procs[i].step() {
                Err(e) => Err(e),
                Ok((p, out)) => if p.context.finished {
                    Ok((MachineModel { procs: self.procs.remove(i), cursor: i as nat, ..self }, out))
                } else {
                    Ok((MachineModel { procs: self.procs.update(i, p), cursor: (i + 1) as nat, ..self }, out))
                },
            }
        }
    }

    /// Up to `turns` turns, stopping early once no process is left; the
    /// final state and every value handed to the output sink, in order.
    pub open spec fn run(self, turns: nat) -> Result<(MachineModel, Seq<Value>), Fault>
        decreases turns,
    {
        if turns == 0 || self.procs.len() == 0 {
            Ok((self, Seq::empty()))
        } else {
            match self.turn() {
                Err(e) => Err(e),
                Ok((m, out)) => match m.run((turns - 1) as nat) {
                    Err(e) => Err(e),
                    Ok((m2, outs)) => Ok((m2, output_seq(out) + outs)),
                },
            }
        }
    }
}

/// `r` with `prefix` put before its outputs.
pub open spec fn after_outputs(
    prefix: Seq<Value>,
    r: Result<(MachineModel, Seq<Value>), Fault>,
) -> Result<(MachineModel, Seq<Value>), Fault> {
    match r {
        Ok((m, outs)) => Ok((m, prefix + outs)),
        Err(e) => Err(e),
    }
}

/// The scheduler: a set of processes run round-robin, one instruction per
/// turn, and a heap that is shared by all of them.
pub struct StackMachine {
    pub heap: Stack,
    pub proceses: Vec<Process>,
    cursor: usize,
}

impl View for StackMachine {
    type V = MachineModel;

    closed spec fn view(&self) -> MachineModel {
        MachineModel {
            procs: self.proceses@.map_values(|p: Process| p@),
            cursor: self.cursor as nat,
            heap: self.heap@,
        }
    }
}

impl StackMachine {
    pub closed spec fn wf(&self) -> bool {
        forall|i: int| 0 <= i < self.proceses.len() ==> (#[trigger] self.proceses[i]).wf()
    }

    /// A machine with no process and an empty heap of 1024 slots.
    pub fn new() -> (r: StackMachine)
        ensures
            r.wf(),
            r@.procs.len() == 0,
            r@.cursor == 0,
            r@.heap.wf(),
            r@.heap.frontier == 0,
            r@.heap.cells == Seq::new(1024, |i: int| Value::Nil),
    {
        let r = StackMachine { heap: Stack::new(1024), proceses: Vec::new(), cursor: 0 };
        assert(r@.procs =~= Seq::<ProcessModel>::empty());
        r
    }

    /// Compiles a program and appends a fresh process running it, with
    /// `pid` as its identifier and a register file of 64 slots.
    pub fn add_process(&mut self, program_code: ProgramCode, pid: usize)
        requires
            old(self).wf(),
        ensures
            final(self).wf(),
            final(self)@.cursor == old(self)@.cursor,
            final(self)@.heap == old(self)@.heap,
            final(self)@.procs.len() == old(self)@.procs.len() + 1,
            final(self)@.procs.drop_last() == old(self)@.procs,
            final(self)@.procs.last() == (ProcessModel {
                pid: pid,
                code: program_code@.code,
                context: ContextModel {
                    stack: StackModel { frontier: 0, cells: Seq::new(64, |i: int| Value::Nil) },
                    ip: 0,
                    calls: Seq::empty(),
                    finished: false,
                },
            }),
    {
        let bytecode = program_code.compile();
        let process = Process::new(64, bytecode, pid);
        proof {
            assert(process@.context.calls =~= Seq::<usize>::empty());
        }
        self.proceses.push(process);
        assert(self@.procs.drop_last() =~= old(self)@.procs);
    }

    /// Runs one turn.
    pub fn step(&mut self) -> (r: Result<Option<Data>, Fault>)
        requires
            old(self).wf(),
        ensures
            final(self).wf(),
            match old(self)@.turn() {
                Ok((m, out)) => r is Ok && final(self)@ == m && output_view(r->Ok_0) == out,
                Err(e) => r is Err && r->Err_0 == e,
            },
    {
        if self.proceses.len() == 0 {
            return Ok(None);
        }
        if self.cursor >= self.proceses.len() {
            self.cursor = 0;
        }
        let i = self.cursor;
        let mut process = self.proceses.remove(i);
        assert(process@ == old(self)@.procs[i as int]);
        let out = process.run()?;
        if process.is_finished() {
            assert(self@.procs =~= old(self)@.procs.remove(i as int));
        } else {
            self.proceses.insert(i, process);
            self.cursor = i + 1;
            assert(self@.procs =~= old(self)@.procs.update(i as int, self.proceses@[i as int]@));
        }
        Ok(out)
    }

    /// Runs turns until no process is left or `max_turns` turns have run,
    /// and returns what the processes printed, in order.
    pub fn run(&mut self, max_turns: usize) -> (r: Result<Vec<Data>, Fault>)
        requires
            old(self).wf(),
        ensures
            final(self).wf(),
            match old(self)@.run(max_turns as nat) {
                Ok((m, outs)) => r is Ok && final(self)@ == m && outputs_view(r->Ok_0@) == outs,
                Err(e) => r is Err && r->Err_0 == e,
            },
    {
        let mut printed: Vec<Data> = Vec::new();
        let mut turns: usize = 0;
        while turns < max_turns && self.proceses.len() > 0
            invariant
                turns <= max_turns,
                self.wf(),
                old(self)@.run(max_turns as nat) == after_outputs(
                    outputs_view(printed@),
                    self@.run((max_turns - turns) as nat),
                ),
            decreases max_turns - turns,
        {
            let ghost m0 = self@;
            let ghost p0 = printed@;
            let out = self.step()?;
            match out {
                Some(d) => printed.push(d),
                None => {},
            }
            turns = turns + 1;
            proof {
                let (m1, o) = m0.turn()->Ok_0;
                assert(outputs_view(printed@) =~= outputs_view(p0) + output_seq(o));
                match m1.run((max_turns - turns) as nat) {
                    Ok((m2, outs)) => {
                        assert(outputs_view(p0) + (output_seq(o) + outs) =~= outputs_view(printed@) + outs);
                    },
                    Err(e) => {},
                }
            }
        }
        proof {
            assert(outputs_view(printed@) + Seq::<Value>::empty() =~= outputs_view(printed@));
        }
        Ok(printed)
    }
}

impl OpManager for ProcessContext {
    open spec fn ip(&self) -> usize {
        self@.ip
    }

    fn goto(&mut self, ipntr: usize) {
        ProcessContext::goto(self, ipntr);
    }

    fn get_ipntr(&self) -> (r: usize) {
        ProcessContext::get_ipntr(self)
    }
}

impl Runnable for Process {
    open spec fn ready(&self) -> bool {
        self.wf()
    }

    open spec fn done(&self) -> bool {
        self@.context.finished
    }

    open spec fn quantum(&self, after: Process, out: Option<Value>) -> bool {
        self@.step() == Ok::<(ProcessModel, Option<Value>), Fault>((after@, out))
    }

    open spec fn next_fault(&self) -> Option<Fault> {
        match self@.step() {
            Ok(_) => None,
            Err(e) => Some(e),
        }
    }

    fn run(&mut self) -> (r: Result<Option<Data>, Fault>) {
        Process::run(self)
    }

    fn is_finished(&self) -> (r: bool) {
        Process::is_finished(self)
    }
}

} // verus!
