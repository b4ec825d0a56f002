use std::rc::Rc;
use crate::traits::NativeType;
use vstd::prelude::*;

verus! {

/// A runtime value of the machine.
///
/// Composite payloads are immutable once built and are shared between copies.
#[derive(Debug, PartialEq)]
pub enum Data {
    Int(i64),
    Bool(bool),
    Byte(u8),
    ByteArray(Vec<u8>),
    String(String),
    Tuple(Rc<Vec<Data>>),
    List(Rc<Vec<Data>>),
    Dict(Rc<Vec<(Data, Data)>>),
    Pointer(usize),
    Function(String),
    Nil,
}

/// What a [`Data`] value denotes: byte arrays and strings as sequences.
pub enum Value {
    Int(i64),
    Bool(bool),
    Byte(u8),
    ByteArray(Seq<u8>),
    String(Seq<char>),
    Tuple(Seq<Data>),
    List(Seq<Data>),
    Dict(Seq<(Data, Data)>),
    Pointer(usize),
    Function(Seq<char>),
    Nil,
}

impl View for Data {
    type V = Value;

    open spec fn view(&self) -> Value {
        match self {
            Data::Int(i) => Value::Int(*i),
            Data::Bool(b) => Value::Bool(*b),
            Data::Byte(b) => Value::Byte(*b),
            Data::ByteArray(bytes) => Value::ByteArray(bytes@),
            Data::String(s) => Value::String(s@),
            Data::Tuple(items) => Value::Tuple((**items)@),
            Data::List(items) => Value::List((**items)@),
            Data::Dict(pairs) => Value::Dict((**pairs)@),
            Data::Pointer(p) => Value::Pointer(*p),
            Data::Function(name) => Value::Function(name@),
            Data::Nil => Value::Nil,
        }
    }
}

/// The faults of the machine. Each one aborts the whole run.
#[derive(Debug, Clone, Copy, PartialEq, Eq, Structural)]
pub enum Fault {
    /// A pop, peek or push beyond the capacity of the register file or below its bottom.
    StackFault,
    /// A register or instruction index out of bounds.
    AddressFault,
    /// An operand of the wrong variant.
    TypeFault,
    /// Division by zero or numeric overflow.
    ArithmeticFault,
}

/// Operand addressing mode of an instruction.
#[derive(Debug)]
pub enum Arg {
    /// An immediate literal.
    Const(Data),
    /// The slot `i + 1` below the frontier of the register window.
    Ref(usize),
    /// The accumulator: the slot at the frontier.
    Acc,
}

/// Relies on `Rc::clone`: the new handle points at the same allocation, so it
/// denotes the same value.
#[verifier::external_body]
fn share<T>(p: &Rc<T>) -> (r: Rc<T>)
    ensures
        r == *p,
{
    Rc::clone(p)
}

fn copy_bytes(v: &Vec<u8>) -> (r: Vec<u8>)
    ensures
        r@ == v@,
{
    let mut r: Vec<u8> = Vec::new();
    let mut i: usize = 0;
    while i < v.len()
        invariant
            i <= v.len(),
            r@ == v@.subrange(0, i as int),
        decreases v.len() - i,
    {
        r.push(v[i]);
        i = i + 1;
        assert(r@ =~= v@.subrange(0, i as int));
    }
    assert(v@.subrange(0, i as int) =~= v@);
    r
}

impl Data {
    /// A copy of the value: it denotes the same thing as `self`.
    pub fn duplicate(&self) -> (r: Data)
        ensures
            r@ == self@,
    {
        match self {
            Data::Int(i) => Data::Int(*i),
            Data::Bool(b) => Data::Bool(*b),
            Data::Byte(b) => Data::Byte(*b),
            Data::ByteArray(bytes) => Data::ByteArray(copy_bytes(bytes)),
            Data::String(s) => Data::String(s.clone()),
            Data::Tuple(items) => Data::Tuple(share(items)),
            Data::List(items) => Data::List(share(items)),
            Data::Dict(pairs) => Data::Dict(share(pairs)),
            Data::Pointer(p) => Data::Pointer(*p),
            Data::Function(name) => Data::Function(name.clone()),
            Data::Nil => Data::Nil,
        }
    }
}

impl Default for Data {
    fn default() -> (r: Data)
        ensures
            r@ == Value::Nil,
    {
        Data::Nil
    }
}

impl Default for Arg {
    fn default() -> (r: Arg)
        ensures
            r is Acc,
    {
        Arg::Acc
    }
}

impl NativeType for Data {

}

} // verus!
