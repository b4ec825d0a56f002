use crate::data::{Data, Fault, Value};
use vstd::prelude::*;

verus! {

/// The model of a register file: its cells and its frontier.
///
/// The slot at the frontier is the accumulator; the slots below it are the
/// register window.
pub struct StackModel {
    pub frontier: nat,
    pub cells: Seq<Value>,
}

impl StackModel {
    pub open spec fn wf(self) -> bool {
        self.frontier <= self.cells.len()
    }

    /// The absolute index of the slot `back` places below the frontier.
    pub open spec fn register_index(self, back: int) -> Result<int, Fault> {
        if back > self.frontier {
            Err(Fault::StackFault)
        } else if self.frontier - back >= self.cells.len() {
            Err(Fault::AddressFault)
        } else {
            Ok(self.frontier - back)
        }
    }

    /// The value held at an absolute index.
    pub open spec fn read(self, index: int) -> Result<Value, Fault> {
        if 0 <= index < self.cells.len() {
            Ok(self.cells[index])
        } else {
            Err(Fault::AddressFault)
        }
    }

    /// The value held `back` places below the frontier.
    pub open spec fn read_register(self, back: int) -> Result<Value, Fault> {
        match self.register_index(back) {
            Ok(i) => Ok(self.cells[i]),
            Err(e) => Err(e),
        }
    }

    /// The file after writing `v` at an absolute index.
    pub open spec fn write(self, index: int, v: Value) -> Result<StackModel, Fault> {
        if 0 <= index < self.cells.len() {
            Ok(StackModel { frontier: self.frontier, cells: self.cells.update(index, v) })
        } else {
            Err(Fault::AddressFault)
        }
    }

    /// The file after moving the frontier up by one slot.
    pub open spec fn advance(self) -> Result<StackModel, Fault> {
        if self.frontier < self.cells.len() {
            Ok(StackModel { frontier: self.frontier + 1, cells: self.cells })
        } else {
            Err(Fault::StackFault)
        }
    }

    /// The file after discarding the `n` slots below the frontier.
    pub open spec fn discard(self, n: nat) -> Result<StackModel, Fault> {
        if n > self.frontier {
            Err(Fault::StackFault)
        } else {
            let bottom = self.frontier - n;
            Ok(
                StackModel {
                    frontier: bottom as nat,
                    cells: Seq::new(
                        self.cells.len(),
                        |i: int|
                            if bottom <= i < self.frontier {
                                Value::Nil
                            } else {
                                self.cells[i]
                            },
                    ),
                },
            )
        }
    }
}

/// A fixed-capacity register file with a frontier pointer.
#[derive(Debug)]
pub struct Stack {
    pointer: usize,
    data: Vec<Data>,
}

impl View for Stack {
    type V = StackModel;

    closed spec fn view(&self) -> StackModel {
        StackModel { frontier: self.pointer as nat, cells: self.data@.map_values(|d: Data| d@) }
    }
}

impl Stack {
    pub open spec fn wf(&self) -> bool {
        self@.wf()
    }

    /// A file of `stack_size` empty slots with its frontier at the bottom.
    pub fn new(stack_size: usize) -> (r: Stack)
        ensures
            r.wf(),
            r@.frontier == 0,
            r@.cells == Seq::new(stack_size as nat, |i: int| Value::Nil),
    {
        let mut data: Vec<Data> = Vec::new();
        let mut i: usize = 0;
        while i < stack_size
            invariant
                i <= stack_size,
                data.len() == i,
                forall|k: int| 0 <= k < i ==> (#[trigger] data[k])@ == Value::Nil,
            decreases stack_size - i,
        {
            data.push(Data::Nil);
            i = i + 1;
        }
        let r = Stack { pointer: 0, data };
        assert(r@.cells =~= Seq::new(stack_size as nat, |i: int| Value::Nil));
        r
    }

    /// Writes `value` into the accumulator slot.
    pub fn to_register(&mut self, value: Data) -> (r: Result<(), Fault>)
        requires
            old(self).wf(),
        ensures
            final(self).wf(),
            match old(self)@.write(old(self)@.frontier as int, value@) {
                Ok(m) => r is Ok && final(self)@ == m,
                Err(e) => r == Err::<(), Fault>(e),
            },
    {
        let p = self.pointer;
        self.store_at(p, value)
    }

    /// Writes `value` at an absolute slot.
    pub fn store_at(&mut self, pointer: usize, value: Data) -> (r: Result<(), Fault>)
        requires
            old(self).wf(),
        ensures
            final(self).wf(),
            match old(self)@.write(pointer as int, value@) {
                Ok(m) => r is Ok && final(self)@ == m,
                Err(e) => r == Err::<(), Fault>(e) && final(self)@ == old(self)@,
            },
    {
        if pointer >= self.data.len() {
            return Err(Fault::AddressFault);
        }
        let ghost v = value@;
        self.data.set(pointer, value);
        assert(self@.cells =~= old(self)@.cells.update(pointer as int, v));
        Ok(())
    }

    /// Moves the frontier up by one slot and returns its former position.
    pub fn store_register(&mut self) -> (r: Result<usize, Fault>)
        requires
            old(self).wf(),
        ensures
            final(self).wf(),
            match old(self)@.advance() {
                Ok(m) => r == Ok::<usize, Fault>(old(self)@.frontier as usize) && final(self)@ == m,
                Err(e) => r == Err::<usize, Fault>(e) && final(self)@ == old(self)@,
            },
    {
        if self.pointer >= self.data.len() {
            return Err(Fault::StackFault);
        }
        let pointer = self.pointer;
        self.pointer = self.pointer + 1;
        Ok(pointer)
    }

    /// Removes the `n` slots below the frontier and returns them, lowest first.
    pub fn pop(&mut self, n: usize) -> (r: Result<Vec<Data>, Fault>)
        requires
            old(self).wf(),
        ensures
            final(self).wf(),
            match old(self)@.discard(n as nat) {
                Ok(m) => r is Ok && final(self)@ == m && r->Ok_0@.map_values(|d: Data| d@)
                    == old(self)@.cells.subrange(
                    old(self)@.frontier - n,
                    old(self)@.frontier as int,
                ),
                Err(e) => r is Err && r->Err_0 == e && final(self)@ == old(self)@,
            },
    {
        if n > self.pointer {
            return Err(Fault::StackFault);
        }
        let bottom = self.pointer - n;
        let top = self.pointer;
        let mut out: Vec<Data> = Vec::new();
        let mut i: usize = bottom;
        while i < top
            invariant
                bottom <= i <= top,
                top == old(self).pointer,
                top <= self.data.len(),
                self.pointer == old(self).pointer,
                self.data.len() == old(self).data.len(),
                out.len() == i - bottom,
                forall|k: int| 0 <= k < out.len() ==> (#[trigger] out[k])@ == old(self)@.cells[bottom + k],
                forall|k: int|
                    0 <= k < self.data.len() ==> (#[trigger] self.data[k])@ == if bottom <= k < i {
                        Value::Nil
                    } else {
                        old(self)@.cells[k]
                    },
            decreases top - i,
        {
            let mut slot = Data::Nil;
            std::mem::swap(&mut slot, &mut self.data[i]);
            out.push(slot);
            i = i + 1;
        }
        self.pointer = bottom;
        let ghost d = old(self)@.discard(n as nat);
        assert(self@.cells =~= d->Ok_0.cells);
        assert(out@.map_values(|d: Data| d@) =~= old(self)@.cells.subrange(bottom as int, top as int));
        Ok(out)
    }

    /// Exchanges the accumulator with the slot just below it.
    pub fn swap(&mut self) -> (r: Result<(), Fault>)
        requires
            old(self).wf(),
        ensures
            final(self).wf(),
            final(self)@.frontier == old(self)@.frontier,
            if 1 <= old(self)@.frontier < old(self)@.cells.len() {
                let f = old(self)@.frontier as int;
                r is Ok && final(self)@.cells == old(self)@.cells.update(f - 1, old(self)@.cells[f]).update(
                    f,
                    old(self)@.cells[f - 1],
                )
            } else {
                r == Err::<(), Fault>(
                    if old(self)@.frontier == 0 {
                        Fault::StackFault
                    } else {
                        Fault::AddressFault
                    },
                ) && final(self)@ == old(self)@
            },
    {
        if self.pointer == 0 {
            return Err(Fault::StackFault);
        }
        if self.pointer >= self.data.len() {
            return Err(Fault::AddressFault);
        }
        let p = self.pointer;
        let mut upper = Data::Nil;
        std::mem::swap(&mut upper, &mut self.data[p]);
        let mut lower = Data::Nil;
        std::mem::swap(&mut lower, &mut self.data[p - 1]);
        self.data.set(p - 1, upper);
        self.data.set(p, lower);
        let ghost f = p as int;
        assert(self@.cells =~= old(self)@.cells.update(f - 1, old(self)@.cells[f]).update(
            f,
            old(self)@.cells[f - 1],
        ));
        Ok(())
    }

    /// Copies of the `n` slots below the frontier, lowest first.
    pub fn peek(&self, n: usize) -> (r: Result<Vec<Data>, Fault>)
        requires
            self.wf(),
        ensures
            n <= self@.frontier ==> r is Ok && r->Ok_0@.map_values(|d: Data| d@) == self@.cells.subrange(
                self@.frontier - n,
                self@.frontier as int,
            ),
            n > self@.frontier ==> r == Err::<Vec<Data>, Fault>(Fault::StackFault),
    {
        if n > self.pointer {
            return Err(Fault::StackFault);
        }
        let bottom = self.pointer - n;
        let mut out: Vec<Data> = Vec::new();
        let mut i: usize = bottom;
        while i < self.pointer
            invariant
                bottom <= i <= self.pointer,
                self.pointer <= self.data.len(),
                out.len() == i - bottom,
                forall|k: int| 0 <= k < out.len() ==> (#[trigger] out[k])@ == self@.cells[bottom + k],
            decreases self.pointer - i,
        {
            out.push(self.data[i].duplicate());
            i = i + 1;
        }
        assert(out@.map_values(|d: Data| d@) =~= self@.cells.subrange(bottom as int, self.pointer as int));
        Ok(out)
    }

    /// The value at an absolute slot.
    pub fn peek_at(&self, pointer: usize) -> (r: Result<&Data, Fault>)
        requires
            self.wf(),
        ensures
            match self@.read(pointer as int) {
                Ok(v) => r is Ok && r->Ok_0@ == v,
                Err(e) => r is Err && r->Err_0 == e,
            },
    {
        if pointer >= self.data.len() {
            return Err(Fault::AddressFault);
        }
        Ok(&self.data[pointer])
    }

    /// The value `pointer` places below the frontier; `0` is the accumulator.
    pub fn peek_register(&self, pointer: usize) -> (r: Result<&Data, Fault>)
        requires
            self.wf(),
        ensures
            match self@.read_register(pointer as int) {
                Ok(v) => r is Ok && r->Ok_0@ == v,
                Err(e) => r is Err && r->Err_0 == e,
            },
    {
        if pointer > self.pointer {
            return Err(Fault::StackFault);
        }
        let index = self.pointer - pointer;
        if index >= self.data.len() {
            return Err(Fault::AddressFault);
        }
        Ok(&self.data[index])
    }

    /// The position of the frontier.
    pub fn len(&self) -> (r: usize)
        ensures
            r == self@.frontier,
    {
        self.pointer
    }

    /// Whether the frontier is at the bottom.
    pub fn is_empty(&self) -> (r: bool)
        ensures
            r == (self@.frontier == 0),
    {
        self.pointer == 0
    }

    /// The number of slots.
    pub fn capacity(&self) -> (r: usize)
        ensures
            r == self@.cells.len(),
    {
        self.data.len()
    }
}

} // verus!
