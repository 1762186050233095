//! Constant folding: an operator whose operands are all constants is evaluated and
//! becomes the assignment of a literal.

use vstd::prelude::*;
use crate::ir::constant::ConstantScalarValue;
use crate::ir::elem::{wrap_u64, IntKind};
use crate::ir::eval::{
    Arithmetic, Bitwise, Comparison, FloatAnswer, FloatOp, FloatTask, Folded,
};
use crate::ir::operation::{
    assign, BinaryOperator, ClampOperator, FmaOperator, Operation, Operator, UnaryOperator,
};
use crate::ir::variable::Variable;
use crate::opt::graph::{ChangeCounter, Optimizer, Program, Slice, SliceRegistry};
use crate::opt::pass::{rewrite_program, OptimizerPass, RewriteRule};

verus! {

/// The operators that are evaluated on constants, by the way they are evaluated. What
/// is not listed here is `Unsupported` and never folded.
#[derive(Clone, Copy, Debug, PartialEq, Eq, Hash, Structural)]
pub enum Foldable {
    /// Two numbers of one family to a number of that family.
    Arithmetic(Arithmetic, BinaryOperator),
    /// Two integers to an integer, bit by bit.
    Bitwise(Bitwise, BinaryOperator),
    /// Two numbers of one family to a truth value.
    Comparison(Comparison, BinaryOperator),
    /// Two truth values to their conjunction.
    And(BinaryOperator),
    /// Two truth values to their disjunction.
    Or(BinaryOperator),
    /// Two floats to a float.
    Powf(BinaryOperator),
    /// A signed integer or a float to its magnitude.
    Abs(UnaryOperator),
    /// A signed integer or a float to its negation.
    Neg(UnaryOperator),
    /// A truth value to its negation.
    Not(UnaryOperator),
    /// A float to a float.
    Float(FloatOp, UnaryOperator),
    /// Three floats to `a * b + c`.
    Fma(FmaOperator),
    /// A number and two bounds of its family to the number brought within the bounds.
    Clamp(ClampOperator),
    /// Not evaluated at compile time.
    Unsupported,
}

impl Operator {
    /// The way in which the operator is evaluated on constants. The dot product of two
    /// constants is their product, constants being scalars.
    pub open spec fn spec_fold_class(&self) -> Foldable {
        match *self {
            Operator::Add(op) => Foldable::Arithmetic(Arithmetic::Add, op),
            Operator::Sub(op) => Foldable::Arithmetic(Arithmetic::Sub, op),
            Operator::Mul(op) => Foldable::Arithmetic(Arithmetic::Mul, op),
            Operator::Div(op) => Foldable::Arithmetic(Arithmetic::Div, op),
            Operator::Modulo(op) => Foldable::Arithmetic(Arithmetic::Modulo, op),
            Operator::Max(op) => Foldable::Arithmetic(Arithmetic::Max, op),
            Operator::Min(op) => Foldable::Arithmetic(Arithmetic::Min, op),
            Operator::Dot(op) => Foldable::Arithmetic(Arithmetic::Mul, op),
            Operator::Powf(op) => Foldable::Powf(op),
            Operator::Equal(op) => Foldable::Comparison(Comparison::Equal, op),
            Operator::NotEqual(op) => Foldable::Comparison(Comparison::NotEqual, op),
            Operator::Lower(op) => Foldable::Comparison(Comparison::Lower, op),
            Operator::Greater(op) => Foldable::Comparison(Comparison::Greater, op),
            Operator::LowerEqual(op) => Foldable::Comparison(Comparison::LowerEqual, op),
            Operator::GreaterEqual(op) => Foldable::Comparison(Comparison::GreaterEqual, op),
            Operator::And(op) => Foldable::And(op),
            Operator::Or(op) => Foldable::Or(op),
            Operator::BitwiseAnd(op) => Foldable::Bitwise(Bitwise::And, op),
            Operator::BitwiseOr(op) => Foldable::Bitwise(Bitwise::Or, op),
            Operator::BitwiseXor(op) => Foldable::Bitwise(Bitwise::Xor, op),
            Operator::ShiftLeft(op) => Foldable::Bitwise(Bitwise::ShiftLeft, op),
            Operator::ShiftRight(op) => Foldable::Bitwise(Bitwise::ShiftRight, op),
            Operator::Abs(op) => Foldable::Abs(op),
            Operator::Neg(op) => Foldable::Neg(op),
            Operator::Not(op) => Foldable::Not(op),
            Operator::Exp(op) => Foldable::Float(FloatOp::Exp, op),
            Operator::Log(op) => Foldable::Float(FloatOp::Log, op),
            Operator::Log1p(op) => Foldable::Float(FloatOp::Log1p, op),
            Operator::Cos(op) => Foldable::Float(FloatOp::Cos, op),
            Operator::Sin(op) => Foldable::Float(FloatOp::Sin, op),
            Operator::Tanh(op) => Foldable::Float(FloatOp::Tanh, op),
            Operator::Sqrt(op) => Foldable::Float(FloatOp::Sqrt, op),
            Operator::Round(op) => Foldable::Float(FloatOp::Round, op),
            Operator::Floor(op) => Foldable::Float(FloatOp::Floor, op),
            Operator::Ceil(op) => Foldable::Float(FloatOp::Ceil, op),
            Operator::Recip(op) => Foldable::Float(FloatOp::Recip, op),
            Operator::Fma(op) => Foldable::Fma(op),
            Operator::Clamp(op) => Foldable::Clamp(op),
            Operator::Remainder(_) | Operator::Index(_) | Operator::IndexAssign(_)
            | Operator::Erf(_) | Operator::Cast(_) | Operator::Assign(_) => Foldable::Unsupported,
        }
    }

    /// The way in which the operator is evaluated on constants.
    #[verifier::when_used_as_spec(spec_fold_class)]
    pub fn fold_class(&self) -> (r: Foldable)
        ensures
            r == self.spec_fold_class(),
    {
        match *self {
            Operator::Add(op) => Foldable::Arithmetic(Arithmetic::Add, op),
            Operator::Sub(op) => Foldable::Arithmetic(Arithmetic::Sub, op),
            Operator::Mul(op) => Foldable::Arithmetic(Arithmetic::Mul, op),
            Operator::Div(op) => Foldable::Arithmetic(Arithmetic::Div, op),
            Operator::Modulo(op) => Foldable::Arithmetic(Arithmetic::Modulo, op),
            Operator::Max(op) => Foldable::Arithmetic(Arithmetic::Max, op),
            Operator::Min(op) => Foldable::Arithmetic(Arithmetic::Min, op),
            Operator::Dot(op) => Foldable::Arithmetic(Arithmetic::Mul, op),
            Operator::Powf(op) => Foldable::Powf(op),
            Operator::Equal(op) => Foldable::Comparison(Comparison::Equal, op),
            Operator::NotEqual(op) => Foldable::Comparison(Comparison::NotEqual, op),
            Operator::Lower(op) => Foldable::Comparison(Comparison::Lower, op),
            Operator::Greater(op) => Foldable::Comparison(Comparison::Greater, op),
            Operator::LowerEqual(op) => Foldable::Comparison(Comparison::LowerEqual, op),
            Operator::GreaterEqual(op) => Foldable::Comparison(Comparison::GreaterEqual, op),
            Operator::And(op) => Foldable::And(op),
            Operator::Or(op) => Foldable::Or(op),
            Operator::BitwiseAnd(op) => Foldable::Bitwise(Bitwise::And, op),
            Operator::BitwiseOr(op) => Foldable::Bitwise(Bitwise::Or, op),
            Operator::BitwiseXor(op) => Foldable::Bitwise(Bitwise::Xor, op),
            Operator::ShiftLeft(op) => Foldable::Bitwise(Bitwise::ShiftLeft, op),
            Operator::ShiftRight(op) => Foldable::Bitwise(Bitwise::ShiftRight, op),
            Operator::Abs(op) => Foldable::Abs(op),
            Operator::Neg(op) => Foldable::Neg(op),
            Operator::Not(op) => Foldable::Not(op),
            Operator::Exp(op) => Foldable::Float(FloatOp::Exp, op),
            Operator::Log(op) => Foldable::Float(FloatOp::Log, op),
            Operator::Log1p(op) => Foldable::Float(FloatOp::Log1p, op),
            Operator::Cos(op) => Foldable::Float(FloatOp::Cos, op),
            Operator::Sin(op) => Foldable::Float(FloatOp::Sin, op),
            Operator::Tanh(op) => Foldable::Float(FloatOp::Tanh, op),
            Operator::Sqrt(op) => Foldable::Float(FloatOp::Sqrt, op),
            Operator::Round(op) => Foldable::Float(FloatOp::Round, op),
            Operator::Floor(op) => Foldable::Float(FloatOp::Floor, op),
            Operator::Ceil(op) => Foldable::Float(FloatOp::Ceil, op),
            Operator::Recip(op) => Foldable::Float(FloatOp::Recip, op),
            Operator::Fma(op) => Foldable::Fma(op),
            Operator::Clamp(op) => Foldable::Clamp(op),
            Operator::Remainder(_) | Operator::Index(_) | Operator::IndexAssign(_)
            | Operator::Erf(_) | Operator::Cast(_) | Operator::Assign(_) => Foldable::Unsupported,
        }
    }
}

/// The task of evaluating `op` on floats of `kind`.
pub open spec fn float_task(op: FloatOp, kind: crate::ir::elem::FloatKind, a: u64, b: u64, c: u64) -> Folded {
    Folded::Float(FloatTask { op, kind, a, b, c })
}

/// The magnitude of `a`.
pub open spec fn magnitude(a: int) -> int {
    if a >= 0 {
        a
    } else {
        -a
    }
}

/// `a` brought into the range from `lo` to `hi`.
pub open spec fn clamped(a: int, lo: int, hi: int) -> int {
    if a < lo {
        lo
    } else if a > hi {
        hi
    } else {
        a
    }
}

/// An arithmetic operator on two constants, the right one cast to the element type of
/// the left one. `None` where the operator has no result: the left operand is a truth
/// value, or an integer is divided by zero.
pub open spec fn fold_arithmetic(
    op: Arithmetic,
    lhs: ConstantScalarValue,
    rhs: ConstantScalarValue,
) -> Option<Folded> {
    match (lhs, rhs.cast(lhs.spec_elem())) {
        (ConstantScalarValue::Int(a, kind), ConstantScalarValue::Int(b, _)) => if op.defined(
            b as int,
        ) {
            Some(
                Folded::Value(
                    ConstantScalarValue::Int(kind.wrap(op.apply(a as int, b as int)) as i64, kind),
                ),
            )
        } else {
            None
        },
        (ConstantScalarValue::UInt(a), ConstantScalarValue::UInt(b)) => if op.defined(b as int) {
            Some(
                Folded::Value(
                    ConstantScalarValue::UInt(wrap_u64(op.apply(a as int, b as int)) as u64),
                ),
            )
        } else {
            None
        },
        (ConstantScalarValue::Float(a, kind), ConstantScalarValue::Float(b, _)) => Some(
            float_task(op.spec_float_op(), kind, a, b, 0),
        ),
        _ => None,
    }
}

/// A bitwise operator on two constants, the right one cast to the element type of the
/// left one. `None` where the operator has no result: the left operand is no integer,
/// or the shift is by a negative number of bits or by no fewer than the left operand has.
pub open spec fn fold_bitwise(op: Bitwise, lhs: ConstantScalarValue, rhs: ConstantScalarValue) -> Option<
    Folded,
> {
    match (lhs, rhs.cast(lhs.spec_elem())) {
        (ConstantScalarValue::Int(a, kind), ConstantScalarValue::Int(b, _)) => if op.defined(
            b as int,
            kind.spec_bits() as int,
        ) {
            Some(
                Folded::Value(
                    ConstantScalarValue::Int(kind.wrap(op.apply_signed(a, b)) as i64, kind),
                ),
            )
        } else {
            None
        },
        (ConstantScalarValue::UInt(a), ConstantScalarValue::UInt(b)) => if op.defined(
            b as int,
            64,
        ) {
            Some(
                Folded::Value(ConstantScalarValue::UInt(wrap_u64(op.apply_unsigned(a, b)) as u64)),
            )
        } else {
            None
        },
        _ => None,
    }
}

/// A comparison of two constants, the right one cast to the element type of the left
/// one. `None` where the left operand is a truth value.
pub open spec fn fold_comparison(
    op: Comparison,
    lhs: ConstantScalarValue,
    rhs: ConstantScalarValue,
) -> Option<Folded> {
    match (lhs, rhs.cast(lhs.spec_elem())) {
        (ConstantScalarValue::Int(a, _), ConstantScalarValue::Int(b, _)) => Some(
            Folded::Value(ConstantScalarValue::Bool(op.apply(a as int, b as int))),
        ),
        (ConstantScalarValue::UInt(a), ConstantScalarValue::UInt(b)) => Some(
            Folded::Value(ConstantScalarValue::Bool(op.apply(a as int, b as int))),
        ),
        (ConstantScalarValue::Float(a, kind), ConstantScalarValue::Float(b, _)) => Some(
            float_task(op.spec_float_op(), kind, a, b, 0),
        ),
        _ => None,
    }
}

/// The conjunction (`conjunction` set) or disjunction of two constants. `None` unless
/// both are truth values.
pub open spec fn fold_logical(
    conjunction: bool,
    lhs: ConstantScalarValue,
    rhs: ConstantScalarValue,
) -> Option<Folded> {
    match (lhs, rhs) {
        (ConstantScalarValue::Bool(a), ConstantScalarValue::Bool(b)) => Some(
            Folded::Value(
                ConstantScalarValue::Bool(
                    if conjunction {
                        a && b
                    } else {
                        a || b
                    },
                ),
            ),
        ),
        _ => None,
    }
}

/// A power of two constants, the exponent cast to the element type of the base. `None`
/// unless the base is a float.
pub open spec fn fold_powf(lhs: ConstantScalarValue, rhs: ConstantScalarValue) -> Option<Folded> {
    match (lhs, rhs.cast(lhs.spec_elem())) {
        (ConstantScalarValue::Float(a, kind), ConstantScalarValue::Float(b, _)) => Some(
            float_task(FloatOp::Powf, kind, a, b, 0),
        ),
        _ => None,
    }
}

/// The magnitude of a constant. `None` unless it is a signed integer or a float.
pub open spec fn fold_abs(input: ConstantScalarValue) -> Option<Folded> {
    match input {
        ConstantScalarValue::Int(a, kind) => Some(
            Folded::Value(ConstantScalarValue::Int(kind.wrap(magnitude(a as int)) as i64, kind)),
        ),
        ConstantScalarValue::Float(a, kind) => Some(float_task(FloatOp::Abs, kind, a, 0, 0)),
        _ => None,
    }
}

/// The negation of a constant. `None` unless it is a signed integer or a float.
pub open spec fn fold_neg(input: ConstantScalarValue) -> Option<Folded> {
    match input {
        ConstantScalarValue::Int(a, kind) => Some(
            Folded::Value(ConstantScalarValue::Int(kind.wrap(-(a as int)) as i64, kind)),
        ),
        ConstantScalarValue::Float(a, kind) => Some(float_task(FloatOp::Neg, kind, a, 0, 0)),
        _ => None,
    }
}

/// The negation of a truth value. `None` for any other constant.
pub open spec fn fold_not(input: ConstantScalarValue) -> Option<Folded> {
    match input {
        ConstantScalarValue::Bool(a) => Some(Folded::Value(ConstantScalarValue::Bool(!a))),
        _ => None,
    }
}

/// A function of one float. `None` for any other constant.
pub open spec fn fold_float(op: FloatOp, input: ConstantScalarValue) -> Option<Folded> {
    match input {
        ConstantScalarValue::Float(a, kind) => Some(float_task(op, kind, a, 0, 0)),
        _ => None,
    }
}

/// A fused multiply-add of three constants, the second and third cast to the element
/// type of the first. `None` unless the first is a float.
pub open spec fn fold_fma(
    a: ConstantScalarValue,
    b: ConstantScalarValue,
    c: ConstantScalarValue,
) -> Option<Folded> {
    match (a, b.cast(a.spec_elem()), c.cast(a.spec_elem())) {
        (
            ConstantScalarValue::Float(a, kind),
            ConstantScalarValue::Float(b, _),
            ConstantScalarValue::Float(c, _),
        ) => Some(float_task(FloatOp::Fma, kind, a, b, c)),
        _ => None,
    }
}

/// A clamp of a constant between two others, both cast to its element type. `None`
/// where the input is a truth value, or the lower integer bound lies above the upper.
pub open spec fn fold_clamp(
    input: ConstantScalarValue,
    min_value: ConstantScalarValue,
    max_value: ConstantScalarValue,
) -> Option<Folded> {
    match (input, min_value.cast(input.spec_elem()), max_value.cast(input.spec_elem())) {
        (
            ConstantScalarValue::Int(a, kind),
            ConstantScalarValue::Int(lo, _),
            ConstantScalarValue::Int(hi, _),
        ) => if lo <= hi {
            Some(
                Folded::Value(
                    ConstantScalarValue::Int(
                        kind.wrap(clamped(a as int, lo as int, hi as int)) as i64,
                        kind,
                    ),
                ),
            )
        } else {
            None
        },
        (
            ConstantScalarValue::UInt(a),
            ConstantScalarValue::UInt(lo),
            ConstantScalarValue::UInt(hi),
        ) => if lo <= hi {
            Some(
                Folded::Value(
                    ConstantScalarValue::UInt(clamped(a as int, lo as int, hi as int) as u64),
                ),
            )
        } else {
            None
        },
        (
            ConstantScalarValue::Float(a, kind),
            ConstantScalarValue::Float(lo, _),
            ConstantScalarValue::Float(hi, _),
        ) => Some(float_task(FloatOp::Clamp, kind, a, lo, hi)),
        _ => None,
    }
}

/// What the target makes of an operation whose operands are all constants.
///
/// `Some(Unchanged)`: an operand is no constant, or the operation is not one that is
/// evaluated at compile time. `Some(Value(..))`: this literal, computed on integers or
/// truth values. `Some(Float(..))`: what the described float operation gives. `None`: the
/// operation has no value, because the program is not well typed (a bitwise operator
/// on floats, say) or asks for what the target leaves undefined (a division by zero).
pub open spec fn native_evaluate(op: Operation) -> Option<Folded> {
    match op {
        Operation::Operator(operator) => match operator.spec_fold_class() {
            Foldable::Arithmetic(kind, op) => match (op.lhs.spec_as_const(), op.rhs.spec_as_const()) {
                (Some(lhs), Some(rhs)) => fold_arithmetic(kind, lhs, rhs),
                _ => Some(Folded::Unchanged),
            },
            Foldable::Bitwise(kind, op) => match (op.lhs.spec_as_const(), op.rhs.spec_as_const()) {
                (Some(lhs), Some(rhs)) => fold_bitwise(kind, lhs, rhs),
                _ => Some(Folded::Unchanged),
            },
            Foldable::Comparison(kind, op) => match (op.lhs.spec_as_const(), op.rhs.spec_as_const()) {
                (Some(lhs), Some(rhs)) => fold_comparison(kind, lhs, rhs),
                _ => Some(Folded::Unchanged),
            },
            Foldable::And(op) => match (op.lhs.spec_as_const(), op.rhs.spec_as_const()) {
                (Some(lhs), Some(rhs)) => fold_logical(true, lhs, rhs),
                _ => Some(Folded::Unchanged),
            },
            Foldable::Or(op) => match (op.lhs.spec_as_const(), op.rhs.spec_as_const()) {
                (Some(lhs), Some(rhs)) => fold_logical(false, lhs, rhs),
                _ => Some(Folded::Unchanged),
            },
            Foldable::Powf(op) => match (op.lhs.spec_as_const(), op.rhs.spec_as_const()) {
                (Some(lhs), Some(rhs)) => fold_powf(lhs, rhs),
                _ => Some(Folded::Unchanged),
            },
            Foldable::Abs(op) => match op.input.spec_as_const() {
                Some(input) => fold_abs(input),
                None => Some(Folded::Unchanged),
            },
            Foldable::Neg(op) => match op.input.spec_as_const() {
                Some(input) => fold_neg(input),
                None => Some(Folded::Unchanged),
            },
            Foldable::Not(op) => match op.input.spec_as_const() {
                Some(input) => fold_not(input),
                None => Some(Folded::Unchanged),
            },
            Foldable::Float(kind, op) => match op.input.spec_as_const() {
                Some(input) => fold_float(kind, input),
                None => Some(Folded::Unchanged),
            },
            Foldable::Fma(op) => match (
                op.a.spec_as_const(),
                op.b.spec_as_const(),
                op.c.spec_as_const(),
            ) {
                (Some(a), Some(b), Some(c)) => fold_fma(a, b, c),
                _ => Some(Folded::Unchanged),
            },
            Foldable::Clamp(op) => match (
                op.input.spec_as_const(),
                op.min_value.spec_as_const(),
                op.max_value.spec_as_const(),
            ) {
                (Some(input), Some(min_value), Some(max_value)) => fold_clamp(
                    input,
                    min_value,
                    max_value,
                ),
                _ => Some(Folded::Unchanged),
            },
            Foldable::Unsupported => Some(Folded::Unchanged),
        },
        _ => Some(Folded::Unchanged),
    }
}

/// Whether the operation can be shown to constant folding: it is well typed as far as
/// its constant operands go, and asks for nothing undefined.
pub open spec fn evaluable(op: Operation) -> bool {
    native_evaluate(op) is Some
}

/// Evaluates an arithmetic operator on two constants.
pub fn eval_arithmetic(op: Arithmetic, lhs: ConstantScalarValue, rhs: ConstantScalarValue) -> (r:
    Option<Folded>)
    ensures
        r == fold_arithmetic(op, lhs, rhs),
{
    let divides = matches!(op, Arithmetic::Div | Arithmetic::Modulo);
    let rhs = rhs.cast_to(lhs.elem());
    match (lhs, rhs) {
        (ConstantScalarValue::Int(a, kind), ConstantScalarValue::Int(b, _)) => {
            if divides && b == 0 {
                None
            } else {
                Some(Folded::Value(ConstantScalarValue::Int(op.on_signed(a, b, kind), kind)))
            }
        },
        (ConstantScalarValue::UInt(a), ConstantScalarValue::UInt(b)) => {
            if divides && b == 0 {
                None
            } else {
                Some(Folded::Value(ConstantScalarValue::UInt(op.on_unsigned(a, b))))
            }
        },
        (ConstantScalarValue::Float(a, kind), ConstantScalarValue::Float(b, _)) => Some(
            Folded::Float(FloatTask { op: op.float_op(), kind, a, b, c: 0 }),
        ),
        _ => None,
    }
}

/// Evaluates a bitwise operator on two constants.
pub fn eval_bitwise(op: Bitwise, lhs: ConstantScalarValue, rhs: ConstantScalarValue) -> (r: Option<
    Folded,
>)
    ensures
        r == fold_bitwise(op, lhs, rhs),
{
    let shifts = matches!(op, Bitwise::ShiftLeft | Bitwise::ShiftRight);
    let rhs = rhs.cast_to(lhs.elem());
    match (lhs, rhs) {
        (ConstantScalarValue::Int(a, kind), ConstantScalarValue::Int(b, _)) => {
            if shifts && (b < 0 || b >= kind.bits()) {
                None
            } else {
                Some(Folded::Value(ConstantScalarValue::Int(op.on_signed(a, b, kind), kind)))
            }
        },
        (ConstantScalarValue::UInt(a), ConstantScalarValue::UInt(b)) => {
            if shifts && b >= 64 {
                None
            } else {
                Some(Folded::Value(ConstantScalarValue::UInt(op.on_unsigned(a, b))))
            }
        },
        _ => None,
    }
}

/// Evaluates a comparison of two constants.
pub fn eval_comparison(op: Comparison, lhs: ConstantScalarValue, rhs: ConstantScalarValue) -> (r:
    Option<Folded>)
    ensures
        r == fold_comparison(op, lhs, rhs),
{
    let rhs = rhs.cast_to(lhs.elem());
    match (lhs, rhs) {
        (ConstantScalarValue::Int(a, _), ConstantScalarValue::Int(b, _)) => Some(
            Folded::Value(ConstantScalarValue::Bool(op.on_signed(a, b))),
        ),
        (ConstantScalarValue::UInt(a), ConstantScalarValue::UInt(b)) => Some(
            Folded::Value(ConstantScalarValue::Bool(op.on_unsigned(a, b))),
        ),
        (ConstantScalarValue::Float(a, kind), ConstantScalarValue::Float(b, _)) => Some(
            Folded::Float(FloatTask { op: op.float_op(), kind, a, b, c: 0 }),
        ),
        _ => None,
    }
}

/// Evaluates the conjunction or disjunction of two constants.
pub fn eval_logical(conjunction: bool, lhs: ConstantScalarValue, rhs: ConstantScalarValue) -> (r:
    Option<Folded>)
    ensures
        r == fold_logical(conjunction, lhs, rhs),
{
    match (lhs, rhs) {
        (ConstantScalarValue::Bool(a), ConstantScalarValue::Bool(b)) => Some(
            Folded::Value(
                ConstantScalarValue::Bool(
                    if conjunction {
                        a && b
                    } else {
                        a || b
                    },
                ),
            ),
        ),
        _ => None,
    }
}

/// Describes the power of two constants.
pub fn eval_powf(lhs: ConstantScalarValue, rhs: ConstantScalarValue) -> (r: Option<Folded>)
    ensures
        r == fold_powf(lhs, rhs),
{
    let rhs = rhs.cast_to(lhs.elem());
    match (lhs, rhs) {
        (ConstantScalarValue::Float(a, kind), ConstantScalarValue::Float(b, _)) => Some(
            Folded::Float(FloatTask { op: FloatOp::Powf, kind, a, b, c: 0 }),
        ),
        _ => None,
    }
}

/// Evaluates the magnitude of a constant.
pub fn eval_abs(input: ConstantScalarValue) -> (r: Option<Folded>)
    ensures
        r == fold_abs(input),
{
    match input {
        ConstantScalarValue::Int(a, kind) => {
            let value = if a >= 0 {
                kind.truncate(a)
            } else {
                proof {
                    IntKind::lemma_wrap_near(0 - a);
                    kind.lemma_wrap_of_wrapped(0 - a);
                }
                kind.truncate(0i64.wrapping_sub(a))
            };
            Some(Folded::Value(ConstantScalarValue::Int(value, kind)))
        },
        ConstantScalarValue::Float(a, kind) => Some(
            Folded::Float(FloatTask { op: FloatOp::Abs, kind, a, b: 0, c: 0 }),
        ),
        _ => None,
    }
}

/// Evaluates the negation of a constant.
pub fn eval_neg(input: ConstantScalarValue) -> (r: Option<Folded>)
    ensures
        r == fold_neg(input),
{
    match input {
        ConstantScalarValue::Int(a, kind) => {
            proof {
                IntKind::lemma_wrap_near(0 - a);
                kind.lemma_wrap_of_wrapped(0 - a);
            }
            let value = kind.truncate(0i64.wrapping_sub(a));
            Some(Folded::Value(ConstantScalarValue::Int(value, kind)))
        },
        ConstantScalarValue::Float(a, kind) => Some(
            Folded::Float(FloatTask { op: FloatOp::Neg, kind, a, b: 0, c: 0 }),
        ),
        _ => None,
    }
}

/// Evaluates the negation of a truth value.
pub fn eval_not(input: ConstantScalarValue) -> (r: Option<Folded>)
    ensures
        r == fold_not(input),
{
    match input {
        ConstantScalarValue::Bool(a) => Some(Folded::Value(ConstantScalarValue::Bool(!a))),
        _ => None,
    }
}

/// Describes a function of one float.
pub fn eval_float(op: FloatOp, input: ConstantScalarValue) -> (r: Option<Folded>)
    ensures
        r == fold_float(op, input),
{
    match input {
        ConstantScalarValue::Float(a, kind) => Some(
            Folded::Float(FloatTask { op, kind, a, b: 0, c: 0 }),
        ),
        _ => None,
    }
}

/// Describes a fused multiply-add of three constants.
pub fn eval_fma(a: ConstantScalarValue, b: ConstantScalarValue, c: ConstantScalarValue) -> (r:
    Option<Folded>)
    ensures
        r == fold_fma(a, b, c),
{
    let b = b.cast_to(a.elem());
    let c = c.cast_to(a.elem());
    match (a, b, c) {
        (
            ConstantScalarValue::Float(a, kind),
            ConstantScalarValue::Float(b, _),
            ConstantScalarValue::Float(c, _),
        ) => Some(Folded::Float(FloatTask { op: FloatOp::Fma, kind, a, b, c })),
        _ => None,
    }
}

/// Evaluates a clamp of a constant between two others.
pub fn eval_clamp(
    input: ConstantScalarValue,
    min_value: ConstantScalarValue,
    max_value: ConstantScalarValue,
) -> (r: Option<Folded>)
    ensures
        r == fold_clamp(input, min_value, max_value),
{
    let min_value = min_value.cast_to(input.elem());
    let max_value = max_value.cast_to(input.elem());
    match (input, min_value, max_value) {
        (
            ConstantScalarValue::Int(a, kind),
            ConstantScalarValue::Int(lo, _),
            ConstantScalarValue::Int(hi, _),
        ) => {
            if lo <= hi {
                let value = if a < lo {
                    lo
                } else if a > hi {
                    hi
                } else {
                    a
                };
                Some(Folded::Value(ConstantScalarValue::Int(kind.truncate(value), kind)))
            } else {
                None
            }
        },
        (
            ConstantScalarValue::UInt(a),
            ConstantScalarValue::UInt(lo),
            ConstantScalarValue::UInt(hi),
        ) => {
            if lo <= hi {
                let value = if a < lo {
                    lo
                } else if a > hi {
                    hi
                } else {
                    a
                };
                Some(Folded::Value(ConstantScalarValue::UInt(value)))
            } else {
                None
            }
        },
        (
            ConstantScalarValue::Float(a, kind),
            ConstantScalarValue::Float(lo, _),
            ConstantScalarValue::Float(hi, _),
        ) => Some(Folded::Float(FloatTask { op: FloatOp::Clamp, kind, a, b: lo, c: hi })),
        _ => None,
    }
}

/// Evaluates an operation on its constant operands, or finds that it has no value.
pub fn checked_const_eval(op: &Operation) -> (r: Option<Folded>)
    ensures
        r == native_evaluate(*op),
{
    match op {
        Operation::Operator(operator) => match operator.fold_class() {
            Foldable::Arithmetic(kind, op) => match (op.lhs.as_const(), op.rhs.as_const()) {
                (Some(lhs), Some(rhs)) => eval_arithmetic(kind, lhs, rhs),
                _ => Some(Folded::Unchanged),
            },
            Foldable::Bitwise(kind, op) => match (op.lhs.as_const(), op.rhs.as_const()) {
                (Some(lhs), Some(rhs)) => eval_bitwise(kind, lhs, rhs),
                _ => Some(Folded::Unchanged),
            },
            Foldable::Comparison(kind, op) => match (op.lhs.as_const(), op.rhs.as_const()) {
                (Some(lhs), Some(rhs)) => eval_comparison(kind, lhs, rhs),
                _ => Some(Folded::Unchanged),
            },
            Foldable::And(op) => match (op.lhs.as_const(), op.rhs.as_const()) {
                (Some(lhs), Some(rhs)) => eval_logical(true, lhs, rhs),
                _ => Some(Folded::Unchanged),
            },
            Foldable::Or(op) => match (op.lhs.as_const(), op.rhs.as_const()) {
                (Some(lhs), Some(rhs)) => eval_logical(false, lhs, rhs),
                _ => Some(Folded::Unchanged),
            },
            Foldable::Powf(op) => match (op.lhs.as_const(), op.rhs.as_const()) {
                (Some(lhs), Some(rhs)) => eval_powf(lhs, rhs),
                _ => Some(Folded::Unchanged),
            },
            Foldable::Abs(op) => match op.input.as_const() {
                Some(input) => eval_abs(input),
                None => Some(Folded::Unchanged),
            },
            Foldable::Neg(op) => match op.input.as_const() {
                Some(input) => eval_neg(input),
                None => Some(Folded::Unchanged),
            },
            Foldable::Not(op) => match op.input.as_const() {
                Some(input) => eval_not(input),
                None => Some(Folded::Unchanged),
            },
            Foldable::Float(kind, op) => match op.input.as_const() {
                Some(input) => eval_float(kind, input),
                None => Some(Folded::Unchanged),
            },
            Foldable::Fma(op) => match (op.a.as_const(), op.b.as_const(), op.c.as_const()) {
                (Some(a), Some(b), Some(c)) => eval_fma(a, b, c),
                _ => Some(Folded::Unchanged),
            },
            Foldable::Clamp(op) => match (
                op.input.as_const(),
                op.min_value.as_const(),
                op.max_value.as_const(),
            ) {
                (Some(input), Some(min_value), Some(max_value)) => eval_clamp(
                    input,
                    min_value,
                    max_value,
                ),
                _ => Some(Folded::Unchanged),
            },
            Foldable::Unsupported => Some(Folded::Unchanged),
        },
        _ => Some(Folded::Unchanged),
    }
}

/// Whether the operation can be shown to constant folding.
pub fn is_evaluable(op: &Operation) -> (r: bool)
    ensures
        r == evaluable(*op),
{
    checked_const_eval(op).is_some()
}

/// Evaluates an operation on its constant operands. What comes back is what the target
/// would compute, the right operand first cast to the left operand's element type.
pub fn try_const_eval(op: &Operation) -> (r: Folded)
    requires
        evaluable(*op),
    ensures
        Some(r) == native_evaluate(*op),
{
    match checked_const_eval(op) {
        Some(folded) => folded,
        None => Folded::Unchanged,
    }
}

/// Evaluates operations of which every operand is constant and replaces them with the
/// assignment of a literal. Operations on floats are left in place; see
/// [`ConstEval::next_float_task`].
pub struct ConstEval;

/// The assignment that takes the place of an operation once its value is known.
pub open spec fn folded_assignment(op: Operation, value: ConstantScalarValue) -> Option<Operation> {
    match op.spec_out() {
        Some(out) => Some(assign(out, Variable::ConstantScalar(value))),
        None => None,
    }
}

/// What constant folding makes of one operation: where its value is a literal, the
/// assignment of that literal to its output.
pub open spec fn const_folded(op: Operation) -> Option<Operation> {
    match native_evaluate(op) {
        Some(Folded::Value(value)) => folded_assignment(op, value),
        _ => None,
    }
}

/// The float task that an operation waits for, if it waits for one.
#[verifier::opaque]
pub open spec fn float_task_of(op: Operation) -> Option<FloatTask> {
    match native_evaluate(op) {
        Some(Folded::Float(task)) => Some(task),
        _ => None,
    }
}

/// The float task that an operation waits for, if it waits for one.
pub fn pending_task(op: &Operation) -> (r: Option<FloatTask>)
    ensures
        r == float_task_of(*op),
{
    reveal(float_task_of);
    match checked_const_eval(op) {
        Some(Folded::Float(task)) => Some(task),
        _ => None,
    }
}

impl RewriteRule for ConstEval {
    /// Constant folding takes the operations that have a value.
    open spec fn accepts(&self, op: Operation) -> bool {
        evaluable(op)
    }

    open spec fn rewritten(&self, op: Operation, slices: Map<(u16, u8), Slice>) -> Option<
        Operation,
    > {
        const_folded(op)
    }

    fn rewrite(&self, op: &Operation, slices: &SliceRegistry) -> (r: Option<Operation>) {
        match op.out() {
            Some(out) => match try_const_eval(op) {
                Folded::Value(value) => Some(assign(out, Variable::ConstantScalar(value))),
                _ => None,
            },
            None => None,
        }
    }

    proof fn lemma_rewritten(&self, op: Operation, slices: Map<(u16, u8), Slice>) {
    }
}

impl OptimizerPass for ConstEval {
    fn apply_post_ssa(&mut self, opt: &mut Optimizer, changes: &mut ChangeCounter) {
        rewrite_program(&*self, &mut opt.program, changes);
    }
}

/// An operation on float constants that waits to be evaluated, and where it stands.
#[derive(Clone, Copy, Debug, PartialEq, Eq, Structural)]
pub struct PendingFloat {
    pub node: usize,
    pub index: usize,
    pub task: FloatTask,
}

/// Whether position `(n, i)` comes before position `(node, index)` in program order.
pub open spec fn precedes(n: int, i: int, node: int, index: int) -> bool {
    n < node || (n == node && i < index)
}

impl ConstEval {
    /// The first operation, in program order, whose operands are float constants and
    /// which therefore waits for its value to be computed elsewhere; `None` when no
    /// operation waits.
    pub fn next_float_task(&self, opt: &Optimizer) -> (r: Option<PendingFloat>)
        ensures
            match r {
                Some(pending) => {
                    &&& opt.program.has_position(pending.node as int, pending.index as int)
                    &&& float_task_of(opt.program.op_at(pending.node as int, pending.index as int))
                        == Some(pending.task)
                    &&& forall|n: int, i: int|
                        opt.program.has_position(n, i) && precedes(
                            n,
                            i,
                            pending.node as int,
                            pending.index as int,
                        ) ==> float_task_of(#[trigger] opt.program.op_at(n, i)) is None
                },
                None => forall|n: int, i: int|
                    opt.program.has_position(n, i) ==> float_task_of(
                        #[trigger] opt.program.op_at(n, i),
                    ) is None,
            },
    {
        let mut n: usize = 0;
        while n < opt.program.nodes.len()
            invariant
                n <= opt.program.nodes.len(),
                forall|k: int, i: int|
                    opt.program.has_position(k, i) && k < n ==> float_task_of(
                        #[trigger] opt.program.op_at(k, i),
                    ) is None,
            decreases opt.program.nodes.len() - n,
        {
            let mut i: usize = 0;
            while i < opt.program.nodes[n].ops.len()
                invariant
                    n < opt.program.nodes.len(),
                    i <= opt.program.nodes[n as int].ops.len(),
                    forall|k: int, j: int|
                        opt.program.has_position(k, j) && k < n ==> float_task_of(
                            #[trigger] opt.program.op_at(k, j),
                        ) is None,
                    forall|j: int|
                        0 <= j < i ==> float_task_of(#[trigger] opt.program.op_at(n as int, j))
                            is None,
                decreases opt.program.nodes[n as int].ops.len() - i,
            {
                let op = opt.program.nodes[n].ops[i];
                match pending_task(&op) {
                    Some(task) => {
                        return Some(PendingFloat { node: n, index: i, task });
                    },
                    None => {},
                }
                i = i + 1;
            }
            n = n + 1;
        }
        None
    }

    /// Puts the answer to a float task in place: the operation at `(node, index)`
    /// becomes the assignment of the literal that `answer` stands for, and the
    /// replacement is counted. Nothing happens, and `false` comes back, unless an
    /// operation stands there that waits for a float task and `answer` is of the sort
    /// that the task asks for.
    pub fn complete_float(
        &self,
        opt: &mut Optimizer,
        node: usize,
        index: usize,
        answer: FloatAnswer,
        changes: &mut ChangeCounter,
    ) -> (done: bool)
        ensures
            final(opt).program.same_shape(&old(opt).program),
            forall|n: int, i: int|
                old(opt).program.has_position(n, i) && (n != node || i != index) ==> final(opt).program.op_at(n, i) == old(opt).program.op_at(n, i),
            done <==> float_answered(&old(opt).program, node, index, answer) is Some,
            done ==> Some(final(opt).program.op_at(node as int, index as int)) == float_answered(
                &old(opt).program,
                node,
                index,
                answer,
            ),
            !done && old(opt).program.has_position(node as int, index as int) ==> final(opt).program.op_at(node as int, index as int) == old(opt).program.op_at(
                node as int,
                index as int,
            ),
            final(changes).value() == if done {
                old(changes).after(1)
            } else {
                old(changes).value()
            },
    {
        let op = match opt.program.get_op(node, index) {
            Some(op) => op,
            None => {
                return false;
            },
        };
        let task = match pending_task(&op) {
            Some(task) => task,
            None => {
                return false;
            },
        };
        let value = match task.literal(answer) {
            Some(value) => value,
            None => {
                return false;
            },
        };
        match op.out() {
            Some(out) => {
                opt.program.replace_op(node, index, assign(out, Variable::ConstantScalar(value)));
                changes.inc();
                true
            },
            None => false,
        }
    }
}

/// The assignment that an answer to the float task at `(node, index)` puts there, where
/// a float task waits there and the answer is of the right sort.
pub open spec fn float_answered(
    program: &Program,
    node: usize,
    index: usize,
    answer: FloatAnswer,
) -> Option<Operation> {
    if program.has_position(node as int, index as int) {
        let op = program.op_at(node as int, index as int);
        match float_task_of(op) {
            Some(task) => match task.spec_literal(answer) {
                Some(value) => folded_assignment(op, value),
                None => None,
            },
            None => None,
        }
    } else {
        None
    }
}

} // verus!
