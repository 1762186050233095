//! Algebraic simplification: an operation with a recognised constant operand becomes a
//! plain assignment. Each rule looks at one operation only.

use vstd::prelude::*;
use crate::ir::constant::ConstantScalarValue;
use crate::ir::elem::Elem;
use crate::ir::operation::{assign, Branch, Metadata, Operation, Operator, Select};
use crate::ir::variable::Variable;
use crate::opt::graph::{known_length, ChangeCounter, Optimizer, Slice, SliceRegistry};
use crate::opt::pass::{rewrite_program, OptimizerPass, RewriteRule};

verus! {

/// Simplifies operations of which one operand is a constant: `out = x * 1` becomes
/// `out = x`.
pub struct ConstOperandSimplify;

/// The constant zero of the element type `elem`.
pub open spec fn zero_of(elem: Elem) -> Variable {
    Variable::ConstantScalar(ConstantScalarValue::UInt(0).cast(elem))
}

/// The length `length` as a constant.
pub open spec fn length_constant(length: u32) -> Variable {
    Variable::ConstantScalar(ConstantScalarValue::UInt(length as u64))
}

/// The rule table. The rules of one operator are tried in the order written and the
/// first that matches decides, so `0 * 0` becomes an assignment of the left operand.
///
/// | operation | condition | becomes `out =` |
/// |---|---|---|
/// | `lhs * rhs` | `lhs` is 0 | `lhs` |
/// | | `rhs` is 0 | `rhs` |
/// | | `lhs` is 1 | `rhs` |
/// | | `rhs` is 1 | `lhs` |
/// | `lhs + rhs` | `lhs` is 0 | `rhs` |
/// | | `rhs` is 0 | `lhs` |
/// | `lhs - rhs` | `rhs` is 0 | `lhs` |
/// | `lhs / rhs` | `lhs` is 0 or `rhs` is 1 | `lhs` |
/// | `lhs % rhs` | `rhs` is 1 or `lhs` is 0 | zero of `out`'s element type |
/// | `lhs \|\| rhs` | either is `true` | `true` |
/// | | `lhs` is `false` | `rhs` |
/// | | `rhs` is `false` | `lhs` |
/// | `lhs && rhs` | either is `false` | `false` |
/// | | `lhs` is `true` | `rhs` |
/// | | `rhs` is `true` | `lhs` |
/// | `select(cond, then, or_else)` | `cond` is `true` | `then` |
/// | | `cond` is `false` | `or_else` |
/// | `length(var)` | `var` has a fixed length | that length |
/// | | `var` is a slice of registered length | that length |
pub open spec fn simplified(op: Operation, slices: Map<(u16, u8), Slice>) -> Option<Operation> {
    match op {
        Operation::Operator(Operator::Mul(bin_op)) => {
            if bin_op.lhs.is_constant(0) {
                Some(assign(bin_op.out, bin_op.lhs))
            } else if bin_op.rhs.is_constant(0) {
                Some(assign(bin_op.out, bin_op.rhs))
            } else if bin_op.lhs.is_constant(1) {
                Some(assign(bin_op.out, bin_op.rhs))
            } else if bin_op.rhs.is_constant(1) {
                Some(assign(bin_op.out, bin_op.lhs))
            } else {
                None
            }
        },
        Operation::Operator(Operator::Add(bin_op)) => {
            if bin_op.lhs.is_constant(0) {
                Some(assign(bin_op.out, bin_op.rhs))
            } else if bin_op.rhs.is_constant(0) {
                Some(assign(bin_op.out, bin_op.lhs))
            } else {
                None
            }
        },
        Operation::Operator(Operator::Sub(bin_op)) => {
            if bin_op.rhs.is_constant(0) {
                Some(assign(bin_op.out, bin_op.lhs))
            } else {
                None
            }
        },
        Operation::Operator(Operator::Div(bin_op)) => {
            if bin_op.lhs.is_constant(0) || bin_op.rhs.is_constant(1) {
                Some(assign(bin_op.out, bin_op.lhs))
            } else {
                None
            }
        },
        Operation::Operator(Operator::Modulo(bin_op)) => {
            if bin_op.rhs.is_constant(1) || bin_op.lhs.is_constant(0) {
                Some(assign(bin_op.out, zero_of(bin_op.out.item().elem)))
            } else {
                None
            }
        },
        Operation::Operator(Operator::Or(bin_op)) => {
            if bin_op.lhs.is_true() || bin_op.rhs.is_true() {
                Some(assign(bin_op.out, Variable::ConstantScalar(ConstantScalarValue::Bool(true))))
            } else if bin_op.lhs.is_false() {
                Some(assign(bin_op.out, bin_op.rhs))
            } else if bin_op.rhs.is_false() {
                Some(assign(bin_op.out, bin_op.lhs))
            } else {
                None
            }
        },
        Operation::Operator(Operator::And(bin_op)) => {
            if bin_op.lhs.is_false() || bin_op.rhs.is_false() {
                Some(
                    assign(bin_op.out, Variable::ConstantScalar(ConstantScalarValue::Bool(false))),
                )
            } else if bin_op.lhs.is_true() {
                Some(assign(bin_op.out, bin_op.rhs))
            } else if bin_op.rhs.is_true() {
                Some(assign(bin_op.out, bin_op.lhs))
            } else {
                None
            }
        },
        Operation::Branch(Branch::Select(Select { cond, then, or_else, out })) => {
            if cond.is_true() {
                Some(assign(out, then))
            } else if cond.is_false() {
                Some(assign(out, or_else))
            } else {
                None
            }
        },
        Operation::Metadata(Metadata::Length { var, out }) => match var {
            Variable::ConstantArray { length, .. } => Some(assign(out, length_constant(length))),
            Variable::SharedMemory { length, .. } => Some(assign(out, length_constant(length))),
            Variable::LocalArray { length, .. } => Some(assign(out, length_constant(length))),
            Variable::Slice { id, depth, .. } => match known_length(slices, id, depth) {
                Some(length) => Some(assign(out, length_constant(length))),
                None => None,
            },
            _ => None,
        },
        _ => None,
    }
}

/// Applies the rule table to one operation: the assignment that replaces it, or `None`
/// where no rule matches.
pub fn simplify(op: &Operation, slices: &SliceRegistry) -> (r: Option<Operation>)
    ensures
        r == simplified(*op, slices@),
{
    match op {
        Operation::Operator(Operator::Mul(bin_op)) => {
            if bin_op.lhs.is_constant(0) {
                Some(assign(bin_op.out, bin_op.lhs))
            } else if bin_op.rhs.is_constant(0) {
                Some(assign(bin_op.out, bin_op.rhs))
            } else if bin_op.lhs.is_constant(1) {
                Some(assign(bin_op.out, bin_op.rhs))
            } else if bin_op.rhs.is_constant(1) {
                Some(assign(bin_op.out, bin_op.lhs))
            } else {
                None
            }
        },
        Operation::Operator(Operator::Add(bin_op)) => {
            if bin_op.lhs.is_constant(0) {
                Some(assign(bin_op.out, bin_op.rhs))
            } else if bin_op.rhs.is_constant(0) {
                Some(assign(bin_op.out, bin_op.lhs))
            } else {
                None
            }
        },
        Operation::Operator(Operator::Sub(bin_op)) => {
            if bin_op.rhs.is_constant(0) {
                Some(assign(bin_op.out, bin_op.lhs))
            } else {
                None
            }
        },
        Operation::Operator(Operator::Div(bin_op)) => {
            if bin_op.lhs.is_constant(0) || bin_op.rhs.is_constant(1) {
                Some(assign(bin_op.out, bin_op.lhs))
            } else {
                None
            }
        },
        Operation::Operator(Operator::Modulo(bin_op)) => {
            if bin_op.rhs.is_constant(1) || bin_op.lhs.is_constant(0) {
                let value = ConstantScalarValue::UInt(0).cast_to(bin_op.out.item().elem);
                Some(assign(bin_op.out, Variable::ConstantScalar(value)))
            } else {
                None
            }
        },
        Operation::Operator(Operator::Or(bin_op)) => {
            if bin_op.lhs.is_true() || bin_op.rhs.is_true() {
                Some(assign(bin_op.out, Variable::ConstantScalar(ConstantScalarValue::Bool(true))))
            } else if bin_op.lhs.is_false() {
                Some(assign(bin_op.out, bin_op.rhs))
            } else if bin_op.rhs.is_false() {
                Some(assign(bin_op.out, bin_op.lhs))
            } else {
                None
            }
        },
        Operation::Operator(Operator::And(bin_op)) => {
            if bin_op.lhs.is_false() || bin_op.rhs.is_false() {
                Some(
                    assign(bin_op.out, Variable::ConstantScalar(ConstantScalarValue::Bool(false))),
                )
            } else if bin_op.lhs.is_true() {
                Some(assign(bin_op.out, bin_op.rhs))
            } else if bin_op.rhs.is_true() {
                Some(assign(bin_op.out, bin_op.lhs))
            } else {
                None
            }
        },
        Operation::Branch(Branch::Select(Select { cond, then, or_else, out })) => {
            if cond.is_true() {
                Some(assign(*out, *then))
            } else if cond.is_false() {
                Some(assign(*out, *or_else))
            } else {
                None
            }
        },
        Operation::Metadata(Metadata::Length { var, out }) => match var {
            Variable::ConstantArray { length, .. }
            | Variable::SharedMemory { length, .. }
            | Variable::LocalArray { length, .. } => Some(
                assign(*out, Variable::ConstantScalar(ConstantScalarValue::UInt(*length as u64))),
            ),
            Variable::Slice { id, depth, .. } => match slices.get(*id, *depth) {
                Some(Slice { const_len: Some(length) }) => Some(
                    assign(
                        *out,
                        Variable::ConstantScalar(ConstantScalarValue::UInt(length as u64)),
                    ),
                ),
                _ => None,
            },
            _ => None,
        },
        _ => None,
    }
}

impl RewriteRule for ConstOperandSimplify {
    /// The rule table reads no constant's value beyond comparing it, so it takes any
    /// operation.
    open spec fn accepts(&self, op: Operation) -> bool {
        true
    }

    open spec fn rewritten(&self, op: Operation, slices: Map<(u16, u8), Slice>) -> Option<
        Operation,
    > {
        simplified(op, slices)
    }

    fn rewrite(&self, op: &Operation, slices: &SliceRegistry) -> (r: Option<Operation>) {
        simplify(op, slices)
    }

    proof fn lemma_rewritten(&self, op: Operation, slices: Map<(u16, u8), Slice>) {
    }
}

impl OptimizerPass for ConstOperandSimplify {
    fn apply_post_ssa(&mut self, opt: &mut Optimizer, changes: &mut ChangeCounter) {
        rewrite_program(&*self, &mut opt.program, changes);
    }
}

} // verus!
