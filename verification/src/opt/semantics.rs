//! What an operation computes at run time, and the proofs that the rewrites keep it.
//!
//! A valuation gives each variable the value it holds when the operation runs. The
//! value that an operation writes is what the operator makes of its operands' values,
//! cast to the element type of the output. Floats are outside this account: an
//! operation that computes on floats has no value here.

use vstd::prelude::*;
use crate::ir::constant::ConstantScalarValue;
use crate::ir::eval::{trunc_div, trunc_rem, Arithmetic, Folded};
use crate::ir::operation::{assign, Branch, Metadata, Operation, Operator, Select};
use crate::ir::variable::Variable;
use crate::opt::const_eval::{
    const_folded, fold_abs, fold_arithmetic, fold_bitwise, fold_clamp, fold_comparison,
    fold_float, fold_fma, fold_logical, fold_neg, fold_not, fold_powf, native_evaluate,
    Foldable,
};
use crate::opt::graph::{known_length, Slice};
use crate::opt::simplify::simplified;

verus! {

/// Whether a valuation gives every constant its literal.
pub open spec fn reads_constants(env: spec_fn(Variable) -> ConstantScalarValue) -> bool {
    forall|c: ConstantScalarValue| #[trigger] env(Variable::ConstantScalar(c)) == c
}

/// What an operator makes of the values of its operands. `None` where it has no value;
/// a value on floats comes as a task, as in [`native_evaluate`].
pub open spec fn evaluate_in(
    class: Foldable,
    env: spec_fn(Variable) -> ConstantScalarValue,
) -> Option<Folded> {
    match class {
        Foldable::Arithmetic(kind, op) => fold_arithmetic(kind, env(op.lhs), env(op.rhs)),
        Foldable::Bitwise(kind, op) => fold_bitwise(kind, env(op.lhs), env(op.rhs)),
        Foldable::Comparison(kind, op) => fold_comparison(kind, env(op.lhs), env(op.rhs)),
        Foldable::And(op) => fold_logical(true, env(op.lhs), env(op.rhs)),
        Foldable::Or(op) => fold_logical(false, env(op.lhs), env(op.rhs)),
        Foldable::Powf(op) => fold_powf(env(op.lhs), env(op.rhs)),
        Foldable::Abs(op) => fold_abs(env(op.input)),
        Foldable::Neg(op) => fold_neg(env(op.input)),
        Foldable::Not(op) => fold_not(env(op.input)),
        Foldable::Float(kind, op) => fold_float(kind, env(op.input)),
        Foldable::Fma(op) => fold_fma(env(op.a), env(op.b), env(op.c)),
        Foldable::Clamp(op) => fold_clamp(env(op.input), env(op.min_value), env(op.max_value)),
        Foldable::Unsupported => None,
    }
}

/// The length of the storage behind a variable, where it is fixed at compile time.
pub open spec fn static_length(var: Variable, slices: Map<(u16, u8), Slice>) -> Option<u32> {
    match var {
        Variable::ConstantArray { length, .. } => Some(length),
        Variable::SharedMemory { length, .. } => Some(length),
        Variable::LocalArray { length, .. } => Some(length),
        Variable::Slice { id, depth, .. } => known_length(slices, id, depth),
        _ => None,
    }
}

/// The value that an operation writes to its output under a valuation. `None` for an
/// operation that writes nothing, has no value, computes on floats, or is not among
/// those that the passes know.
pub open spec fn written_value(
    op: Operation,
    env: spec_fn(Variable) -> ConstantScalarValue,
    slices: Map<(u16, u8), Slice>,
) -> Option<ConstantScalarValue> {
    match op {
        Operation::Operator(Operator::Assign(unary)) => Some(
            env(unary.input).cast(unary.out.spec_item().elem),
        ),
        Operation::Operator(operator) => match evaluate_in(operator.spec_fold_class(), env) {
            Some(Folded::Value(value)) => Some(value.cast(operator.spec_out().spec_item().elem)),
            _ => None,
        },
        Operation::Branch(Branch::Select(Select { cond, then, or_else, out })) => match env(cond) {
            ConstantScalarValue::Bool(truth) => Some(
                (if truth {
                    env(then)
                } else {
                    env(or_else)
                }).cast(out.spec_item().elem),
            ),
            _ => None,
        },
        Operation::Metadata(Metadata::Length { var, out }) => match static_length(var, slices) {
            Some(length) => Some(
                ConstantScalarValue::UInt(length as u64).cast(out.spec_item().elem),
            ),
            None => None,
        },
        _ => None,
    }
}

/// Whether the values of the operands of an arithmetic operator have the element type
/// of its output, as they do in a well-typed program.
pub open spec fn uniformly_typed(op: Operation, env: spec_fn(Variable) -> ConstantScalarValue) -> bool {
    match op {
        Operation::Operator(operator) => match operator.spec_fold_class() {
            Foldable::Arithmetic(_, binary) => {
                &&& env(binary.lhs).spec_elem() == binary.out.spec_item().elem
                &&& env(binary.rhs).spec_elem() == binary.out.spec_item().elem
            },
            _ => true,
        },
        _ => true,
    }
}

/// Nothing divided by something is nothing, with nothing left over.
pub proof fn lemma_zero_divided(b: int)
    requires
        b != 0,
    ensures
        trunc_div(0, b) == 0,
        trunc_rem(0, b) == 0,
{
    if b > 0 {
        vstd::arithmetic::div_mod::lemma_div_of0(b);
    } else {
        vstd::arithmetic::div_mod::lemma_div_of0(-b);
    }
}

/// Dividing by one changes nothing and leaves nothing over.
pub proof fn lemma_divided_by_one(a: int)
    ensures
        trunc_div(a, 1) == a,
        trunc_rem(a, 1) == 0,
{
    vstd::arithmetic::div_mod::lemma_div_basics_2(a);
    vstd::arithmetic::div_mod::lemma_div_basics_2(-a);
}

/// Algebraic simplification keeps the value that an operation writes.
///
/// For every operation to which a rule applies, and every valuation under which the
/// operation has a value, the assignment that replaces it writes the same value. The
/// operation having a value leaves out the operations on floats, which this library
/// does not evaluate, and the divisions of zero by zero, which have no value.
pub proof fn law_simplify_keeps_value(
    op: Operation,
    env: spec_fn(Variable) -> ConstantScalarValue,
    slices: Map<(u16, u8), Slice>,
)
    requires
        reads_constants(env),
        uniformly_typed(op, env),
        written_value(op, env, slices) is Some,
    ensures
        match simplified(op, slices) {
            Some(replacement) => written_value(replacement, env, slices) == written_value(
                op,
                env,
                slices,
            ),
            None => true,
        },
{
    match op {
        Operation::Operator(Operator::Mul(binary)) => {
            lemma_arithmetic_identities(Arithmetic::Mul, env(binary.lhs), env(binary.rhs));
        },
        Operation::Operator(Operator::Add(binary)) => {
            lemma_arithmetic_identities(Arithmetic::Add, env(binary.lhs), env(binary.rhs));
        },
        Operation::Operator(Operator::Sub(binary)) => {
            lemma_arithmetic_identities(Arithmetic::Sub, env(binary.lhs), env(binary.rhs));
        },
        Operation::Operator(Operator::Div(binary)) => {
            lemma_arithmetic_identities(Arithmetic::Div, env(binary.lhs), env(binary.rhs));
        },
        Operation::Operator(Operator::Modulo(binary)) => {
            lemma_arithmetic_identities(Arithmetic::Modulo, env(binary.lhs), env(binary.rhs));
        },
        _ => {},
    }
}

/// The identities behind the arithmetic rules, on two constants of one element type:
/// zero absorbs in a product and is neutral in a sum; one is neutral in a product and as
/// a divisor; zero divided and anything modulo one give zero.
pub proof fn lemma_arithmetic_identities(
    op: Arithmetic,
    lhs: ConstantScalarValue,
    rhs: ConstantScalarValue,
)
    requires
        lhs.spec_elem() == rhs.spec_elem(),
        fold_arithmetic(op, lhs, rhs) matches Some(Folded::Value(_)),
    ensures
        ({
            let value = fold_arithmetic(op, lhs, rhs)->Some_0->Value_0;
            let elem = lhs.spec_elem();
            let zero = ConstantScalarValue::UInt(0).cast(elem);
            &&& op is Mul && lhs.equals_integer(0) ==> value.cast(elem) == lhs.cast(elem)
            &&& op is Mul && rhs.equals_integer(0) ==> value.cast(elem) == rhs.cast(elem)
            &&& op is Mul && lhs.equals_integer(1) ==> value.cast(elem) == rhs.cast(elem)
            &&& op is Mul && rhs.equals_integer(1) ==> value.cast(elem) == lhs.cast(elem)
            &&& op is Add && lhs.equals_integer(0) ==> value.cast(elem) == rhs.cast(elem)
            &&& op is Add && rhs.equals_integer(0) ==> value.cast(elem) == lhs.cast(elem)
            &&& op is Sub && rhs.equals_integer(0) ==> value.cast(elem) == lhs.cast(elem)
            &&& op is Div && (lhs.equals_integer(0) || rhs.equals_integer(1)) ==> value.cast(elem)
                == lhs.cast(elem)
            &&& op is Modulo && (rhs.equals_integer(1) || lhs.equals_integer(0)) ==> value.cast(
                elem,
            ) == zero.cast(elem)
        }),
{
    match (lhs, rhs) {
        (ConstantScalarValue::Int(a, kind), ConstantScalarValue::Int(b, _)) => {
            kind.lemma_wrap_fits(a as int);
            kind.lemma_wrap_fits(b as int);
            let b2 = kind.wrap(b as int);
            kind.lemma_wrap_fits(op.apply(a as int, b2));
            kind.lemma_wrap_fits(0);
            kind.lemma_wrap_fits(1);
            lemma_divided_by_one(a as int);
            if b2 != 0 {
                lemma_zero_divided(b2);
            }
            assert(1 * b2 == b2) by (nonlinear_arith);
        },
        (ConstantScalarValue::UInt(a), ConstantScalarValue::UInt(b)) => {
            lemma_divided_by_one(a as int);
            if b != 0 {
                lemma_zero_divided(b as int);
            }
            assert(a * 1 == a) by (nonlinear_arith);
        },
        _ => {},
    }
}

/// Constant folding keeps the value that an operation writes, and computes what the
/// target computes.
///
/// Where every operand of an operation is a constant, what folding computes is what the
/// operator makes of those constants, whatever else the valuation holds; and the
/// assignment that replaces the operation writes the value that the operation wrote.
pub proof fn law_fold_keeps_value(
    op: Operation,
    env: spec_fn(Variable) -> ConstantScalarValue,
    slices: Map<(u16, u8), Slice>,
)
    requires
        reads_constants(env),
    ensures
        match (op, native_evaluate(op)) {
            (Operation::Operator(operator), Some(Folded::Value(_))) => native_evaluate(op)
                == evaluate_in(operator.spec_fold_class(), env),
            _ => true,
        },
        match const_folded(op) {
            Some(replacement) => written_value(replacement, env, slices) == written_value(
                op,
                env,
                slices,
            ),
            None => true,
        },
{
    match op {
        Operation::Operator(operator) => {
            let class = operator.spec_fold_class();
            match class {
                Foldable::Arithmetic(_, binary) => {
                    lemma_reads(env, binary.lhs);
                    lemma_reads(env, binary.rhs);
                },
                Foldable::Bitwise(_, binary) => {
                    lemma_reads(env, binary.lhs);
                    lemma_reads(env, binary.rhs);
                },
                Foldable::Comparison(_, binary) => {
                    lemma_reads(env, binary.lhs);
                    lemma_reads(env, binary.rhs);
                },
                Foldable::And(binary) => {
                    lemma_reads(env, binary.lhs);
                    lemma_reads(env, binary.rhs);
                },
                Foldable::Or(binary) => {
                    lemma_reads(env, binary.lhs);
                    lemma_reads(env, binary.rhs);
                },
                Foldable::Powf(binary) => {
                    lemma_reads(env, binary.lhs);
                    lemma_reads(env, binary.rhs);
                },
                Foldable::Abs(unary) => {
                    lemma_reads(env, unary.input);
                },
                Foldable::Neg(unary) => {
                    lemma_reads(env, unary.input);
                },
                Foldable::Not(unary) => {
                    lemma_reads(env, unary.input);
                },
                Foldable::Float(_, unary) => {
                    lemma_reads(env, unary.input);
                },
                Foldable::Fma(fma) => {
                    lemma_reads(env, fma.a);
                    lemma_reads(env, fma.b);
                    lemma_reads(env, fma.c);
                },
                Foldable::Clamp(clamp) => {
                    lemma_reads(env, clamp.input);
                    lemma_reads(env, clamp.min_value);
                    lemma_reads(env, clamp.max_value);
                },
                Foldable::Unsupported => {},
            }
        },
        _ => {},
    }
}

/// A valuation that reads constants gives a constant variable its literal.
pub proof fn lemma_reads(env: spec_fn(Variable) -> ConstantScalarValue, var: Variable)
    requires
        reads_constants(env),
    ensures
        var.spec_as_const() matches Some(c) ==> env(var) == c,
{
    match var {
        Variable::ConstantScalar(c) => {
        },
        _ => {},
    }
}

/// Where both operands of a product are zero, the left one is assigned: of the rules
/// that match, the first listed decides.
pub proof fn law_first_rule_decides(op: Operation, slices: Map<(u16, u8), Slice>)
    ensures
        match op {
            Operation::Operator(Operator::Mul(binary)) => binary.lhs.spec_is_constant(0)
                ==> simplified(op, slices) == Some(assign(binary.out, binary.lhs)),
            Operation::Operator(Operator::Add(binary)) => binary.lhs.spec_is_constant(0)
                ==> simplified(op, slices) == Some(assign(binary.out, binary.rhs)),
            Operation::Operator(Operator::Div(binary)) => binary.lhs.spec_is_constant(0)
                ==> simplified(op, slices) == Some(assign(binary.out, binary.lhs)),
            _ => true,
        },
{
}

} // verus!
