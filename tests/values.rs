use vm_lib::data::{Data, Fault};
use vm_lib::ops::BinaryOp;
use vm_lib::stack::Stack;

#[test]
fn add_then_subtract_restores_operand() {
    let sum = BinaryOp::add(&Data::Int(-17), &Data::Int(40)).unwrap();
    assert_eq!(sum, Data::Int(23));
    assert_eq!(BinaryOp::substract(&sum, &Data::Int(40)), Ok(Data::Int(-17)));
    let bytes = BinaryOp::add(&Data::Byte(200), &Data::Byte(55)).unwrap();
    assert_eq!(bytes, Data::Byte(255));
    assert_eq!(BinaryOp::substract(&bytes, &Data::Byte(55)), Ok(Data::Byte(200)));
}

#[test]
fn overflow_is_an_arithmetic_fault() {
    assert_eq!(
        BinaryOp::add(&Data::Int(i64::MAX), &Data::Int(1)),
        Err(Fault::ArithmeticFault)
    );
    assert_eq!(
        BinaryOp::add(&Data::Byte(255), &Data::Byte(1)),
        Err(Fault::ArithmeticFault)
    );
    assert_eq!(
        BinaryOp::substract(&Data::Byte(0), &Data::Byte(1)),
        Err(Fault::ArithmeticFault)
    );
    assert_eq!(
        BinaryOp::multiply(&Data::Int(i64::MAX), &Data::Int(2)),
        Err(Fault::ArithmeticFault)
    );
    assert_eq!(
        BinaryOp::divide(&Data::Int(i64::MIN), &Data::Int(-1)),
        Err(Fault::ArithmeticFault)
    );
}

#[test]
fn arithmetic_results() {
    assert_eq!(BinaryOp::multiply(&Data::Int(-6), &Data::Int(7)), Ok(Data::Int(-42)));
    assert_eq!(BinaryOp::multiply(&Data::Byte(15), &Data::Byte(17)), Ok(Data::Byte(255)));
    assert_eq!(BinaryOp::divide(&Data::Int(28), &Data::Int(3)), Ok(Data::Int(9)));
    assert_eq!(BinaryOp::divide(&Data::Int(-7), &Data::Int(2)), Ok(Data::Int(-3)));
    assert_eq!(BinaryOp::divide(&Data::Int(7), &Data::Int(-2)), Ok(Data::Int(-3)));
    assert_eq!(BinaryOp::divide(&Data::Int(-7), &Data::Int(-2)), Ok(Data::Int(3)));
    assert_eq!(
        BinaryOp::divide(&Data::Int(i64::MIN), &Data::Int(1)),
        Ok(Data::Int(i64::MIN))
    );
    assert_eq!(BinaryOp::divide(&Data::Byte(9), &Data::Byte(4)), Ok(Data::Byte(2)));
    assert_eq!(
        BinaryOp::divide(&Data::Byte(9), &Data::Byte(0)),
        Err(Fault::ArithmeticFault)
    );
}

#[test]
fn string_concat_is_associative() {
    let a = Data::String("ab".to_string());
    let b = Data::String("c".to_string());
    let c = Data::String("de".to_string());
    let left = BinaryOp::add(&BinaryOp::add(&a, &b).unwrap(), &c).unwrap();
    let right = BinaryOp::add(&a, &BinaryOp::add(&b, &c).unwrap()).unwrap();
    assert_eq!(left, Data::String("abcde".to_string()));
    assert_eq!(left, right);
    let empty = Data::String(String::new());
    assert_eq!(BinaryOp::add(&a, &empty), Ok(Data::String("ab".to_string())));
    assert_eq!(BinaryOp::add(&empty, &a), Ok(Data::String("ab".to_string())));
}

#[test]
fn byte_array_concat_is_associative() {
    let a = Data::ByteArray(vec![1, 2]);
    let b = Data::ByteArray(vec![3]);
    let c = Data::ByteArray(vec![4, 5]);
    let left = BinaryOp::add(&BinaryOp::add(&a, &b).unwrap(), &c).unwrap();
    let right = BinaryOp::add(&a, &BinaryOp::add(&b, &c).unwrap()).unwrap();
    assert_eq!(left, Data::ByteArray(vec![1, 2, 3, 4, 5]));
    assert_eq!(left, right);
    let empty = Data::ByteArray(vec![]);
    assert_eq!(BinaryOp::add(&a, &empty), Ok(Data::ByteArray(vec![1, 2])));
    assert_eq!(BinaryOp::add(&empty, &a), Ok(Data::ByteArray(vec![1, 2])));
}

#[test]
fn flipped_comparisons_keep_their_operand_order() {
    let pairs = [(2, 3), (3, 3), (4, 3), (-5, 5)];
    for (a, b) in pairs {
        let (x, y) = (Data::Int(a), Data::Int(b));
        assert_eq!(BinaryOp::LT.compute(&x, &y), BinaryOp::GET.compute(&y, &x));
        assert_eq!(BinaryOp::LET.compute(&x, &y), BinaryOp::GT.compute(&y, &x));
    }
    assert_eq!(
        BinaryOp::LT.compute(&Data::Int(3), &Data::Int(3)),
        Ok(Data::Bool(true))
    );
    assert_eq!(
        BinaryOp::LET.compute(&Data::Int(3), &Data::Int(3)),
        Ok(Data::Bool(false))
    );
    assert_eq!(
        BinaryOp::LT.compute(&Data::Byte(1), &Data::Int(3)),
        Err(Fault::TypeFault)
    );
}

#[test]
fn comparison_results() {
    assert_eq!(BinaryOp::gt(&Data::Byte(4), &Data::Byte(3)), Ok(Data::Bool(true)));
    assert_eq!(BinaryOp::gte(&Data::Int(3), &Data::Int(4)), Ok(Data::Bool(false)));
    assert_eq!(BinaryOp::eq(&Data::Int(3), &Data::Int(3)), Ok(Data::Bool(true)));
    assert_eq!(BinaryOp::neq(&Data::Int(3), &Data::Int(3)), Ok(Data::Bool(false)));
    assert_eq!(
        BinaryOp::eq(&Data::String("a".to_string()), &Data::String("a".to_string())),
        Err(Fault::TypeFault)
    );
}

#[test]
fn duplicate_copies_the_value() {
    let v = Data::String("text".to_string());
    assert_eq!(v.duplicate(), v);
    let t = Data::Tuple(std::rc::Rc::new(vec![Data::Int(1), Data::Bool(false)]));
    assert_eq!(t.duplicate(), t);
    assert_eq!(Data::default(), Data::Nil);
}

#[test]
fn stack_frontier_and_registers() {
    let mut s = Stack::new(3);
    assert!(s.is_empty());
    assert_eq!(s.capacity(), 3);
    assert_eq!(s.to_register(Data::Int(1)), Ok(()));
    assert_eq!(s.store_register(), Ok(0));
    assert_eq!(s.to_register(Data::Int(2)), Ok(()));
    assert_eq!(s.store_register(), Ok(1));
    assert_eq!(s.len(), 2);
    assert_eq!(s.peek_register(1), Ok(&Data::Int(2)));
    assert_eq!(s.peek_register(2), Ok(&Data::Int(1)));
    assert_eq!(s.peek_register(3), Err(Fault::StackFault));
    assert_eq!(s.peek_at(0), Ok(&Data::Int(1)));
    assert_eq!(s.peek_at(3), Err(Fault::AddressFault));
    assert_eq!(s.peek(2), Ok(vec![Data::Int(1), Data::Int(2)]));
    assert_eq!(s.peek(3), Err(Fault::StackFault));
    assert_eq!(s.to_register(Data::Int(9)), Ok(()));
    assert_eq!(s.swap(), Ok(()));
    assert_eq!(s.peek_register(0), Ok(&Data::Int(2)));
    assert_eq!(s.peek_register(1), Ok(&Data::Int(9)));
    assert_eq!(s.pop(2), Ok(vec![Data::Int(1), Data::Int(9)]));
    assert!(s.is_empty());
    assert_eq!(s.peek_at(0), Ok(&Data::Nil));
    assert_eq!(s.pop(1), Err(Fault::StackFault));
}

#[test]
fn stack_overflow_is_a_stack_fault() {
    let mut s = Stack::new(1);
    assert_eq!(s.store_register(), Ok(0));
    assert_eq!(s.store_register(), Err(Fault::StackFault));
    assert_eq!(s.to_register(Data::Int(1)), Err(Fault::AddressFault));
    assert_eq!(s.store_at(5, Data::Int(1)), Err(Fault::AddressFault));
}
