use crate::data::{Data, Fault, Value};
use vstd::prelude::*;

verus! {

/// The binary operators of the instruction set.
#[derive(Debug, Clone, Copy, PartialEq, Eq, Structural)]
pub enum BinaryOp {
    Add,
    Subtract,
    Multiply,
    Divide,
    GT,
    GET,
    LT,
    LET,
    EQ,
    NEQ,
}

/// An `i64` result, or an arithmetic fault when `x` leaves the range.
pub open spec fn int_result(x: int) -> Result<Value, Fault> {
    if i64::MIN <= x <= i64::MAX {
        Ok(Value::Int(x as i64))
    } else {
        Err(Fault::ArithmeticFault)
    }
}

/// A `u8` result, or an arithmetic fault when `x` leaves the range.
pub open spec fn byte_result(x: int) -> Result<Value, Fault> {
    if 0 <= x <= u8::MAX {
        Ok(Value::Byte(x as u8))
    } else {
        Err(Fault::ArithmeticFault)
    }
}

pub open spec fn abs(x: int) -> int {
    if x < 0 {
        -x
    } else {
        x
    }
}

/// Division rounding toward zero.
pub open spec fn trunc_div(a: int, b: int) -> int {
    if (a < 0) == (b < 0) {
        abs(a) / abs(b)
    } else {
        -(abs(a) / abs(b))
    }
}

pub open spec fn add_spec(a: Value, b: Value) -> Result<Value, Fault> {
    match (a, b) {
        (Value::Int(x), Value::Int(y)) => int_result(x + y),
        (Value::Byte(x), Value::Byte(y)) => byte_result(x + y),
        (Value::ByteArray(x), Value::ByteArray(y)) => Ok(Value::ByteArray(x + y)),
        (Value::String(x), Value::String(y)) => Ok(Value::String(x + y)),
        _ => Err(Fault::TypeFault),
    }
}

pub open spec fn subtract_spec(a: Value, b: Value) -> Result<Value, Fault> {
    match (a, b) {
        (Value::Int(x), Value::Int(y)) => int_result(x - y),
        (Value::Byte(x), Value::Byte(y)) => byte_result(x - y),
        _ => Err(Fault::TypeFault),
    }
}

pub open spec fn multiply_spec(a: Value, b: Value) -> Result<Value, Fault> {
    match (a, b) {
        (Value::Int(x), Value::Int(y)) => int_result(x * y),
        (Value::Byte(x), Value::Byte(y)) => byte_result(x * y),
        _ => Err(Fault::TypeFault),
    }
}

pub open spec fn divide_spec(a: Value, b: Value) -> Result<Value, Fault> {
    match (a, b) {
        (Value::Int(x), Value::Int(y)) => if y == 0 {
            Err(Fault::ArithmeticFault)
        } else {
            int_result(trunc_div(x as int, y as int))
        },
        (Value::Byte(x), Value::Byte(y)) => if y == 0 {
            Err(Fault::ArithmeticFault)
        } else {
            Ok(Value::Byte((x / y) as u8))
        },
        _ => Err(Fault::TypeFault),
    }
}

/// `a > b` on two integers or two bytes.
pub open spec fn gt_spec(a: Value, b: Value) -> Result<Value, Fault> {
    match (a, b) {
        (Value::Int(x), Value::Int(y)) => Ok(Value::Bool(x > y)),
        (Value::Byte(x), Value::Byte(y)) => Ok(Value::Bool(x > y)),
        _ => Err(Fault::TypeFault),
    }
}

/// `a >= b` on two integers or two bytes.
pub open spec fn gte_spec(a: Value, b: Value) -> Result<Value, Fault> {
    match (a, b) {
        (Value::Int(x), Value::Int(y)) => Ok(Value::Bool(x >= y)),
        (Value::Byte(x), Value::Byte(y)) => Ok(Value::Bool(x >= y)),
        _ => Err(Fault::TypeFault),
    }
}

pub open spec fn eq_spec(a: Value, b: Value) -> Result<Value, Fault> {
    match (a, b) {
        (Value::Int(x), Value::Int(y)) => Ok(Value::Bool(x == y)),
        (Value::Byte(x), Value::Byte(y)) => Ok(Value::Bool(x == y)),
        _ => Err(Fault::TypeFault),
    }
}

pub open spec fn neq_spec(a: Value, b: Value) -> Result<Value, Fault> {
    match (a, b) {
        (Value::Int(x), Value::Int(y)) => Ok(Value::Bool(x != y)),
        (Value::Byte(x), Value::Byte(y)) => Ok(Value::Bool(x != y)),
        _ => Err(Fault::TypeFault),
    }
}

impl BinaryOp {
    /// The result of the operator on two operands. `LT` is `GET` with its
    /// operands exchanged and `LET` is `GT` with its operands exchanged.
    pub open spec fn apply(self, a: Value, b: Value) -> Result<Value, Fault> {
        match self {
            BinaryOp::Add => add_spec(a, b),
            BinaryOp::Subtract => subtract_spec(a, b),
            BinaryOp::Multiply => multiply_spec(a, b),
            BinaryOp::Divide => divide_spec(a, b),
            BinaryOp::GT => gt_spec(a, b),
            BinaryOp::GET => gte_spec(a, b),
            BinaryOp::LT => gte_spec(b, a),
            BinaryOp::LET => gt_spec(b, a),
            BinaryOp::EQ => eq_spec(a, b),
            BinaryOp::NEQ => neq_spec(a, b),
        }
    }

    /// Computes the operator on two resolved operands.
    pub fn compute(&self, a: &Data, b: &Data) -> (r: Result<Data, Fault>)
        ensures
            match self.apply(a@, b@) {
                Ok(v) => r is Ok && r->Ok_0@ == v,
                Err(e) => r is Err && r->Err_0 == e,
            },
    {
        match self {
            BinaryOp::Add => Self::add(a, b),
            BinaryOp::Subtract => Self::substract(a, b),
            BinaryOp::Multiply => Self::multiply(a, b),
            BinaryOp::Divide => Self::divide(a, b),
            BinaryOp::GT => Self::gt(a, b),
            BinaryOp::GET => Self::gte(a, b),
            BinaryOp::LT => Self::gte(b, a),
            BinaryOp::LET => Self::gt(b, a),
            BinaryOp::EQ => Self::eq(a, b),
            BinaryOp::NEQ => Self::neq(a, b),
        }
    }

    fn int_of(x: i128) -> (r: Result<Data, Fault>)
        ensures
            match int_result(x as int) {
                Ok(v) => r is Ok && r->Ok_0@ == v,
                Err(e) => r is Err && r->Err_0 == e,
            },
    {
        if x < i64::MIN as i128 || x > i64::MAX as i128 {
            Err(Fault::ArithmeticFault)
        } else {
            Ok(Data::Int(x as i64))
        }
    }

    fn byte_of(x: i32) -> (r: Result<Data, Fault>)
        ensures
            match byte_result(x as int) {
                Ok(v) => r is Ok && r->Ok_0@ == v,
                Err(e) => r is Err && r->Err_0 == e,
            },
    {
        if x < 0 || x > 255 {
            Err(Fault::ArithmeticFault)
        } else {
            Ok(Data::Byte(x as u8))
        }
    }

    pub fn add(a: &Data, b: &Data) -> (r: Result<Data, Fault>)
        ensures
            match add_spec(a@, b@) {
                Ok(v) => r is Ok && r->Ok_0@ == v,
                Err(e) => r is Err && r->Err_0 == e,
            },
    {
        match (a, b) {
            (Data::Int(x), Data::Int(y)) => Self::int_of(*x as i128 + *y as i128),
            (Data::Byte(x), Data::Byte(y)) => Self::byte_of(*x as i32 + *y as i32),
            (Data::ByteArray(x), Data::ByteArray(y)) => {
                let mut joined: Vec<u8> = Vec::new();
                let mut i: usize = 0;
                while i < x.len()
                    invariant
                        i <= x.len(),
                        joined@ == x@.subrange(0, i as int),
                    decreases x.len() - i,
                {
                    joined.push(x[i]);
                    i = i + 1;
                    assert(joined@ =~= x@.subrange(0, i as int));
                }
                let mut j: usize = 0;
                while j < y.len()
                    invariant
                        j <= y.len(),
                        joined@ == x@ + y@.subrange(0, j as int),
                    decreases y.len() - j,
                {
                    joined.push(y[j]);
                    j = j + 1;
                    assert(joined@ =~= x@ + y@.subrange(0, j as int));
                }
                assert(x@.subrange(0, x.len() as int) =~= x@);
                assert(y@.subrange(0, y.len() as int) =~= y@);
                Ok(Data::ByteArray(joined))
            },
            (Data::String(x), Data::String(y)) => {
                let mut joined = x.clone();
                joined.append(y.as_str());
                Ok(Data::String(joined))
            },
            _ => Err(Fault::TypeFault),
        }
    }

    pub fn substract(a: &Data, b: &Data) -> (r: Result<Data, Fault>)
        ensures
            match subtract_spec(a@, b@) {
                Ok(v) => r is Ok && r->Ok_0@ == v,
                Err(e) => r is Err && r->Err_0 == e,
            },
    {
        match (a, b) {
            (Data::Int(x), Data::Int(y)) => Self::int_of(*x as i128 - *y as i128),
            (Data::Byte(x), Data::Byte(y)) => Self::byte_of(*x as i32 - *y as i32),
            _ => Err(Fault::TypeFault),
        }
    }

    pub fn multiply(a: &Data, b: &Data) -> (r: Result<Data, Fault>)
        ensures
            match multiply_spec(a@, b@) {
                Ok(v) => r is Ok && r->Ok_0@ == v,
                Err(e) => r is Err && r->Err_0 == e,
            },
    {
        match (a, b) {
            (Data::Int(x), Data::Int(y)) => {
                let (p, q) = (*x as i128, *y as i128);
                assert(-0x4000_0000_0000_0000_0000_0000_0000_0000 <= p * q <= 0x4000_0000_0000_0000_0000_0000_0000_0000)
                    by (nonlinear_arith)
                    requires
                        -0x8000_0000_0000_0000 <= p <= 0x8000_0000_0000_0000,
                        -0x8000_0000_0000_0000 <= q <= 0x8000_0000_0000_0000,
                ;
                Self::int_of(p * q)
            },
            (Data::Byte(x), Data::Byte(y)) => {
                let (p, q) = (*x as i32, *y as i32);
                assert(0 <= p * q <= 65025) by (nonlinear_arith)
                    requires
                        0 <= p <= 255,
                        0 <= q <= 255,
                ;
                Self::byte_of(p * q)
            },
            _ => Err(Fault::TypeFault),
        }
    }

    fn magnitude(x: i64) -> (r: u64)
        ensures
            r == abs(x as int),
    {
        if x >= 0 {
            x as u64
        } else {
            ((-(x + 1)) as u64) + 1
        }
    }

    pub fn divide(a: &Data, b: &Data) -> (r: Result<Data, Fault>)
        ensures
            match divide_spec(a@, b@) {
                Ok(v) => r is Ok && r->Ok_0@ == v,
                Err(e) => r is Err && r->Err_0 == e,
            },
    {
        match (a, b) {
            (Data::Int(x), Data::Int(y)) => {
                if *y == 0 {
                    return Err(Fault::ArithmeticFault);
                }
                let q = Self::magnitude(*x) / Self::magnitude(*y);
                if (*x < 0) == (*y < 0) {
                    Self::int_of(q as i128)
                } else {
                    Self::int_of(-(q as i128))
                }
            },
            (Data::Byte(x), Data::Byte(y)) => {
                if *y == 0 {
                    return Err(Fault::ArithmeticFault);
                }
                Ok(Data::Byte(*x / *y))
            },
            _ => Err(Fault::TypeFault),
        }
    }

    pub fn gt(a: &Data, b: &Data) -> (r: Result<Data, Fault>)
        ensures
            match gt_spec(a@, b@) {
                Ok(v) => r is Ok && r->Ok_0@ == v,
                Err(e) => r is Err && r->Err_0 == e,
            },
    {
        match (a, b) {
            (Data::Int(x), Data::Int(y)) => Ok(Data::Bool(*x > *y)),
            (Data::Byte(x), Data::Byte(y)) => Ok(Data::Bool(*x > *y)),
            _ => Err(Fault::TypeFault),
        }
    }

    pub fn gte(a: &Data, b: &Data) -> (r: Result<Data, Fault>)
        ensures
            match gte_spec(a@, b@) {
                Ok(v) => r is Ok && r->Ok_0@ == v,
                Err(e) => r is Err && r->Err_0 == e,
            },
    {
        match (a, b) {
            (Data::Int(x), Data::Int(y)) => Ok(Data::Bool(*x >= *y)),
            (Data::Byte(x), Data::Byte(y)) => Ok(Data::Bool(*x >= *y)),
            _ => Err(Fault::TypeFault),
        }
    }

    pub fn eq(a: &Data, b: &Data) -> (r: Result<Data, Fault>)
        ensures
            match eq_spec(a@, b@) {
                Ok(v) => r is Ok && r->Ok_0@ == v,
                Err(e) => r is Err && r->Err_0 == e,
            },
    {
        match (a, b) {
            (Data::Int(x), Data::Int(y)) => Ok(Data::Bool(*x == *y)),
            (Data::Byte(x), Data::Byte(y)) => Ok(Data::Bool(*x == *y)),
            _ => Err(Fault::TypeFault),
        }
    }

    pub fn neq(a: &Data, b: &Data) -> (r: Result<Data, Fault>)
        ensures
            match neq_spec(a@, b@) {
                Ok(v) => r is Ok && r->Ok_0@ == v,
                Err(e) => r is Err && r->Err_0 == e,
            },
    {
        match (a, b) {
            (Data::Int(x), Data::Int(y)) => Ok(Data::Bool(*x != *y)),
            (Data::Byte(x), Data::Byte(y)) => Ok(Data::Bool(*x != *y)),
            _ => Err(Fault::TypeFault),
        }
    }
}

} // verus!
