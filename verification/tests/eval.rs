use cubecl::ir::constant::ConstantScalarValue;
use cubecl::ir::elem::{Elem, FloatKind, IntKind};
use cubecl::ir::eval::{Arithmetic, Bitwise, Comparison, FloatAnswer, FloatOp, FloatTask, Folded};
use cubecl::ir::operation::{
    BinaryOperator, ClampOperator, FmaOperator, Operation, Operator, UnaryOperator,
};
use cubecl::ir::variable::{Item, Variable};
use cubecl::opt::const_eval::{checked_const_eval, try_const_eval, Foldable};

fn signed(value: i64, kind: IntKind) -> Variable {
    Variable::ConstantScalar(ConstantScalarValue::Int(value, kind))
}

fn unsigned(value: u64) -> Variable {
    Variable::ConstantScalar(ConstantScalarValue::UInt(value))
}

fn truth(value: bool) -> Variable {
    Variable::ConstantScalar(ConstantScalarValue::Bool(value))
}

fn float(value: f64) -> Variable {
    Variable::ConstantScalar(ConstantScalarValue::Float(value.to_bits(), FloatKind::F64))
}

fn out() -> Variable {
    Variable::Local { id: 0, item: Item::new(Elem::Int(IntKind::I32)), depth: 0 }
}

fn fold(operator: Operator) -> Folded {
    try_const_eval(&Operation::Operator(operator))
}

fn binary(lhs: Variable, rhs: Variable) -> BinaryOperator {
    BinaryOperator { lhs, rhs, out: out() }
}

fn unary(input: Variable) -> UnaryOperator {
    UnaryOperator { input, out: out() }
}

fn int32(value: i64) -> Folded {
    Folded::Value(ConstantScalarValue::Int(value, IntKind::I32))
}

fn int64(value: i64) -> Folded {
    Folded::Value(ConstantScalarValue::Int(value, IntKind::I64))
}

fn uint(value: u64) -> Folded {
    Folded::Value(ConstantScalarValue::UInt(value))
}

fn flag(value: bool) -> Folded {
    Folded::Value(ConstantScalarValue::Bool(value))
}

#[test]
fn signed_arithmetic_is_evaluated_at_the_width_of_the_kind() {
    let i32s = |a: i64, b: i64| binary(signed(a, IntKind::I32), signed(b, IntKind::I32));
    let i64s = |a: i64, b: i64| binary(signed(a, IntKind::I64), signed(b, IntKind::I64));
    assert_eq!(fold(Operator::Add(i32s(i32::MAX as i64, 1))), int32(i32::MIN as i64));
    assert_eq!(fold(Operator::Sub(i32s(i32::MIN as i64, 1))), int32(i32::MAX as i64));
    assert_eq!(fold(Operator::Mul(i32s(65536, 65536))), int32(0));
    assert_eq!(fold(Operator::Mul(i32s(-7, 6))), int32(-42));
    assert_eq!(fold(Operator::Dot(i32s(-7, 6))), int32(-42));
    assert_eq!(fold(Operator::Add(i64s(i64::MAX, 1))), int64(i64::MIN));
    assert_eq!(fold(Operator::Sub(i64s(i64::MIN, 1))), int64(i64::MAX));
    assert_eq!(fold(Operator::Mul(i64s(i64::MAX, 2))), int64(-2));
    assert_eq!(fold(Operator::Mul(i64s(1 << 32, 1 << 32))), int64(0));
    assert_eq!(fold(Operator::Max(i64s(-3, 2))), int64(2));
    assert_eq!(fold(Operator::Min(i64s(-3, 2))), int64(-3));
}

#[test]
fn signed_division_rounds_toward_zero() {
    let i64s = |a: i64, b: i64| binary(signed(a, IntKind::I64), signed(b, IntKind::I64));
    assert_eq!(fold(Operator::Div(i64s(7, 2))), int64(3));
    assert_eq!(fold(Operator::Div(i64s(-7, 2))), int64(-3));
    assert_eq!(fold(Operator::Div(i64s(7, -2))), int64(-3));
    assert_eq!(fold(Operator::Div(i64s(-7, -2))), int64(3));
    assert_eq!(fold(Operator::Modulo(i64s(7, 2))), int64(1));
    assert_eq!(fold(Operator::Modulo(i64s(-7, 2))), int64(-1));
    assert_eq!(fold(Operator::Modulo(i64s(7, -2))), int64(1));
    assert_eq!(fold(Operator::Modulo(i64s(-7, -2))), int64(-1));
    assert_eq!(fold(Operator::Div(i64s(i64::MIN, -1))), int64(i64::MIN));
    assert_eq!(fold(Operator::Modulo(i64s(i64::MIN, -1))), int64(0));
    for a in [-9i64, -8, -1, 0, 1, 5, 100] {
        for b in [-4i64, -3, -1, 1, 2, 7] {
            assert_eq!(fold(Operator::Div(i64s(a, b))), int64(a / b));
            assert_eq!(fold(Operator::Modulo(i64s(a, b))), int64(a % b));
        }
    }
    assert_eq!(Arithmetic::Div.on_signed(-7, 2, IntKind::I32), -3);
    assert_eq!(Arithmetic::Modulo.on_unsigned(7, 4), 3);
}

#[test]
fn unsigned_arithmetic_wraps_at_64_bits() {
    let uints = |a: u64, b: u64| binary(unsigned(a), unsigned(b));
    assert_eq!(fold(Operator::Add(uints(u64::MAX, 2))), uint(1));
    assert_eq!(fold(Operator::Sub(uints(1, 2))), uint(u64::MAX));
    assert_eq!(fold(Operator::Mul(uints(1 << 63, 2))), uint(0));
    assert_eq!(fold(Operator::Div(uints(7, 2))), uint(3));
    assert_eq!(fold(Operator::Modulo(uints(7, 2))), uint(1));
    assert_eq!(fold(Operator::Max(uints(7, 2))), uint(7));
    assert_eq!(fold(Operator::Min(uints(7, 2))), uint(2));
}

#[test]
fn right_operand_takes_the_family_of_the_left() {
    assert_eq!(fold(Operator::Add(binary(signed(5, IntKind::I32), unsigned(2)))), int32(7));
    assert_eq!(fold(Operator::Add(binary(unsigned(5), signed(-2, IntKind::I32)))), uint(3));
    assert_eq!(fold(Operator::Add(binary(signed(5, IntKind::I32), float(2.9)))), int32(7));
    assert_eq!(fold(Operator::Add(binary(signed(5, IntKind::I32), truth(true)))), int32(6));
    assert_eq!(
        fold(Operator::Add(binary(signed(5, IntKind::I32), signed(0x1_0000_0002, IntKind::I64)))),
        int32(7)
    );
    assert_eq!(
        fold(Operator::Lower(binary(signed(5, IntKind::I32), signed(0x1_0000_0002, IntKind::I64)))),
        flag(false)
    );
    assert_eq!(
        fold(Operator::Mul(binary(float(1.5), unsigned(2)))),
        Folded::Float(FloatTask {
            op: FloatOp::Mul,
            kind: FloatKind::F64,
            a: 1.5f64.to_bits(),
            b: 2f64.to_bits(),
            c: 0,
        })
    );
}

#[test]
fn comparisons() {
    let i32s = |a: i64, b: i64| binary(signed(a, IntKind::I32), signed(b, IntKind::I32));
    let uints = |a: u64, b: u64| binary(unsigned(a), unsigned(b));
    assert_eq!(fold(Operator::Equal(i32s(3, 3))), flag(true));
    assert_eq!(fold(Operator::NotEqual(i32s(3, 3))), flag(false));
    assert_eq!(fold(Operator::Lower(i32s(-3, 3))), flag(true));
    assert_eq!(fold(Operator::Greater(i32s(-3, 3))), flag(false));
    assert_eq!(fold(Operator::LowerEqual(i32s(3, 3))), flag(true));
    assert_eq!(fold(Operator::GreaterEqual(i32s(2, 3))), flag(false));
    assert_eq!(fold(Operator::Lower(uints(2, u64::MAX))), flag(true));
    assert_eq!(fold(Operator::GreaterEqual(uints(u64::MAX, 2))), flag(true));
    assert!(Comparison::Lower.on_signed(-1, 0));
    assert!(!Comparison::Lower.on_unsigned(u64::MAX, 0));
    assert_eq!(
        fold(Operator::Equal(binary(float(1.0), float(1.0)))),
        Folded::Float(FloatTask {
            op: FloatOp::Equal,
            kind: FloatKind::F64,
            a: 1f64.to_bits(),
            b: 1f64.to_bits(),
            c: 0,
        })
    );
}

#[test]
fn boolean_operators() {
    for a in [false, true] {
        for b in [false, true] {
            assert_eq!(fold(Operator::And(binary(truth(a), truth(b)))), flag(a && b));
            assert_eq!(fold(Operator::Or(binary(truth(a), truth(b)))), flag(a || b));
        }
        assert_eq!(fold(Operator::Not(unary(truth(a)))), flag(!a));
    }
}

#[test]
fn bitwise_operators() {
    let i32s = |a: i64, b: i64| binary(signed(a, IntKind::I32), signed(b, IntKind::I32));
    let i64s = |a: i64, b: i64| binary(signed(a, IntKind::I64), signed(b, IntKind::I64));
    let uints = |a: u64, b: u64| binary(unsigned(a), unsigned(b));
    assert_eq!(fold(Operator::BitwiseAnd(i32s(0b1100, 0b1010))), int32(0b1000));
    assert_eq!(fold(Operator::BitwiseOr(i32s(0b1100, 0b1010))), int32(0b1110));
    assert_eq!(fold(Operator::BitwiseXor(i32s(0b1100, 0b1010))), int32(0b0110));
    assert_eq!(fold(Operator::BitwiseAnd(i32s(-1, 0xff))), int32(0xff));
    assert_eq!(fold(Operator::BitwiseXor(uints(u64::MAX, 1))), uint(u64::MAX - 1));
    assert_eq!(fold(Operator::ShiftLeft(i32s(1, 31))), int32(i32::MIN as i64));
    assert_eq!(fold(Operator::ShiftLeft(i32s(3, 4))), int32(48));
    assert_eq!(fold(Operator::ShiftLeft(i32s(-3, 4))), int32(-48));
    assert_eq!(fold(Operator::ShiftLeft(i64s(1, 63))), int64(i64::MIN));
    assert_eq!(fold(Operator::ShiftLeft(i64s(3, 63))), int64(i64::MIN));
    assert_eq!(fold(Operator::ShiftRight(i64s(-1, 63))), int64(-1));
    assert_eq!(fold(Operator::ShiftRight(i64s(i64::MAX, 63))), int64(0));
    assert_eq!(fold(Operator::ShiftRight(i32s(-48, 4))), int32(-3));
    assert_eq!(fold(Operator::ShiftRight(i32s(-47, 4))), int32(-3));
    assert_eq!(fold(Operator::ShiftRight(i32s(48, 4))), int32(3));
    assert_eq!(fold(Operator::ShiftLeft(uints(1, 63))), uint(1 << 63));
    assert_eq!(fold(Operator::ShiftLeft(uints(3, 63))), uint(1 << 63));
    assert_eq!(fold(Operator::ShiftRight(uints(u64::MAX, 60))), uint(15));
    for a in [-1000i64, -1, 0, 1, 12345, i64::MAX, i64::MIN] {
        for s in [0i64, 1, 5, 31, 62, 63] {
            assert_eq!(Bitwise::ShiftLeft.on_signed(a, s, IntKind::I64), a << s);
            assert_eq!(Bitwise::ShiftRight.on_signed(a, s, IntKind::I64), a >> s);
            assert_eq!(Bitwise::ShiftLeft.on_unsigned(a as u64, s as u64), (a as u64) << s);
            assert_eq!(Bitwise::ShiftRight.on_unsigned(a as u64, s as u64), (a as u64) >> s);
        }
    }
}

#[test]
fn magnitude_and_negation() {
    assert_eq!(fold(Operator::Abs(unary(signed(-5, IntKind::I32)))), int32(5));
    assert_eq!(fold(Operator::Abs(unary(signed(5, IntKind::I32)))), int32(5));
    assert_eq!(fold(Operator::Abs(unary(signed(i64::MIN, IntKind::I64)))), int64(i64::MIN));
    assert_eq!(
        fold(Operator::Abs(unary(signed(i32::MIN as i64, IntKind::I32)))),
        int32(i32::MIN as i64)
    );
    assert_eq!(fold(Operator::Neg(unary(signed(5, IntKind::I32)))), int32(-5));
    assert_eq!(fold(Operator::Neg(unary(signed(i64::MIN, IntKind::I64)))), int64(i64::MIN));
    assert_eq!(
        fold(Operator::Neg(unary(float(2.0)))),
        Folded::Float(FloatTask {
            op: FloatOp::Neg,
            kind: FloatKind::F64,
            a: 2f64.to_bits(),
            b: 0,
            c: 0,
        })
    );
}

#[test]
fn clamp_and_fused_multiply_add() {
    let clamp = |input: Variable, min_value: Variable, max_value: Variable| {
        Operator::Clamp(ClampOperator { input, min_value, max_value, out: out() })
    };
    let i32c = |v: i64| signed(v, IntKind::I32);
    assert_eq!(fold(clamp(i32c(5), i32c(0), i32c(3))), int32(3));
    assert_eq!(fold(clamp(i32c(-5), i32c(0), i32c(3))), int32(0));
    assert_eq!(fold(clamp(i32c(2), i32c(0), i32c(3))), int32(2));
    assert_eq!(fold(clamp(unsigned(9), unsigned(1), i32c(4))), uint(4));
    assert_eq!(
        checked_const_eval(&Operation::Operator(clamp(i32c(2), i32c(3), i32c(0)))),
        None
    );
    assert_eq!(
        checked_const_eval(&Operation::Operator(clamp(truth(true), i32c(0), i32c(3)))),
        None
    );
    let fma = |a: Variable, b: Variable, c: Variable| {
        Operator::Fma(FmaOperator { a, b, c, out: out() })
    };
    assert_eq!(
        fold(fma(float(2.0), unsigned(3), float(0.5))),
        Folded::Float(FloatTask {
            op: FloatOp::Fma,
            kind: FloatKind::F64,
            a: 2f64.to_bits(),
            b: 3f64.to_bits(),
            c: 0.5f64.to_bits(),
        })
    );
    assert_eq!(
        checked_const_eval(&Operation::Operator(fma(unsigned(2), unsigned(3), unsigned(1)))),
        None
    );
}

#[test]
fn operations_with_a_variable_operand_are_unchanged() {
    let x = out();
    let five = signed(5, IntKind::I32);
    assert_eq!(fold(Operator::Add(binary(x, five))), Folded::Unchanged);
    assert_eq!(fold(Operator::Add(binary(five, x))), Folded::Unchanged);
    assert_eq!(fold(Operator::BitwiseAnd(binary(float(1.0), x))), Folded::Unchanged);
    assert_eq!(fold(Operator::Abs(unary(x))), Folded::Unchanged);
    assert_eq!(
        fold(Operator::Fma(FmaOperator { a: float(1.0), b: float(1.0), c: x, out: x })),
        Folded::Unchanged
    );
    assert_eq!(fold(Operator::Remainder(binary(five, five))), Folded::Unchanged);
    assert_eq!(fold(Operator::Erf(unary(float(1.0)))), Folded::Unchanged);
    assert_eq!(fold(Operator::Assign(unary(five))), Folded::Unchanged);
}

#[test]
fn classes_of_operators() {
    let b = binary(out(), out());
    assert_eq!(Operator::Dot(b).fold_class(), Foldable::Arithmetic(Arithmetic::Mul, b));
    assert_eq!(Operator::Modulo(b).fold_class(), Foldable::Arithmetic(Arithmetic::Modulo, b));
    assert_eq!(Operator::ShiftLeft(b).fold_class(), Foldable::Bitwise(Bitwise::ShiftLeft, b));
    assert_eq!(Operator::Lower(b).fold_class(), Foldable::Comparison(Comparison::Lower, b));
    assert_eq!(Operator::Index(b).fold_class(), Foldable::Unsupported);
    let u = unary(out());
    assert_eq!(Operator::Tanh(u).fold_class(), Foldable::Float(FloatOp::Tanh, u));
    assert_eq!(Operator::Cast(u).fold_class(), Foldable::Unsupported);
    assert_eq!(Arithmetic::Max.float_op(), FloatOp::Max);
    assert_eq!(Comparison::GreaterEqual.float_op(), FloatOp::GreaterEqual);
    assert!(FloatOp::Equal.is_comparison());
    assert!(!FloatOp::Add.is_comparison());
}

#[test]
fn answers_to_float_tasks() {
    let sum = FloatTask { op: FloatOp::Add, kind: FloatKind::F16, a: 0, b: 0, c: 0 };
    assert_eq!(
        sum.literal(FloatAnswer::Value(7)),
        Some(ConstantScalarValue::Float(7, FloatKind::F16))
    );
    assert_eq!(sum.literal(FloatAnswer::Truth(true)), None);
    let lower = FloatTask { op: FloatOp::Lower, kind: FloatKind::F16, a: 0, b: 0, c: 0 };
    assert_eq!(lower.literal(FloatAnswer::Truth(true)), Some(ConstantScalarValue::Bool(true)));
    assert_eq!(lower.literal(FloatAnswer::Value(1)), None);
}

#[test]
fn outputs_of_operations() {
    let b = binary(out(), out());
    assert_eq!(Operator::Add(b).out(), out());
    assert_eq!(Operation::Operator(Operator::Add(b)).out(), Some(out()));
    assert_eq!(Operation::from(Operator::Add(b)), Operation::Operator(Operator::Add(b)));
}
