//! The operation catalogue: a closed sum of operators, branches, metadata queries and
//! synchronization markers, each naming the variables it reads and the one it writes.

use vstd::prelude::*;
use vstd::std_specs::convert::FromSpecImpl;
use crate::ir::variable::Variable;

verus! {

/// Operands of an operator with two inputs.
#[derive(Clone, Copy, Debug, PartialEq, Eq, Hash, Structural)]
pub struct BinaryOperator {
    pub lhs: Variable,
    pub rhs: Variable,
    pub out: Variable,
}

/// Operands of an operator with one input.
#[derive(Clone, Copy, Debug, PartialEq, Eq, Hash, Structural)]
pub struct UnaryOperator {
    pub input: Variable,
    pub out: Variable,
}

/// Operands of a fused multiply-add: `a * b + c`.
#[derive(Clone, Copy, Debug, PartialEq, Eq, Hash, Structural)]
pub struct FmaOperator {
    pub a: Variable,
    pub b: Variable,
    pub c: Variable,
    pub out: Variable,
}

/// Operands of a clamp of `input` to the range from `min_value` to `max_value`.
#[derive(Clone, Copy, Debug, PartialEq, Eq, Hash, Structural)]
pub struct ClampOperator {
    pub input: Variable,
    pub min_value: Variable,
    pub max_value: Variable,
    pub out: Variable,
}

/// Operands of a conditional assignment: `out = if cond { then } else { or_else }`.
#[derive(Clone, Copy, Debug, PartialEq, Eq, Hash, Structural)]
pub struct Select {
    pub cond: Variable,
    pub then: Variable,
    pub or_else: Variable,
    pub out: Variable,
}

/// Arithmetic, comparison, logical and bitwise operators.
#[derive(Clone, Copy, Debug, PartialEq, Eq, Hash, Structural)]
pub enum Operator {
    Add(BinaryOperator),
    Sub(BinaryOperator),
    Mul(BinaryOperator),
    Div(BinaryOperator),
    Modulo(BinaryOperator),
    Powf(BinaryOperator),
    Equal(BinaryOperator),
    NotEqual(BinaryOperator),
    Lower(BinaryOperator),
    Greater(BinaryOperator),
    LowerEqual(BinaryOperator),
    GreaterEqual(BinaryOperator),
    And(BinaryOperator),
    Or(BinaryOperator),
    Max(BinaryOperator),
    Min(BinaryOperator),
    BitwiseAnd(BinaryOperator),
    BitwiseOr(BinaryOperator),
    BitwiseXor(BinaryOperator),
    ShiftLeft(BinaryOperator),
    ShiftRight(BinaryOperator),
    Dot(BinaryOperator),
    Remainder(BinaryOperator),
    Index(BinaryOperator),
    IndexAssign(BinaryOperator),
    Abs(UnaryOperator),
    Exp(UnaryOperator),
    Log(UnaryOperator),
    Log1p(UnaryOperator),
    Cos(UnaryOperator),
    Sin(UnaryOperator),
    Tanh(UnaryOperator),
    Sqrt(UnaryOperator),
    Round(UnaryOperator),
    Floor(UnaryOperator),
    Ceil(UnaryOperator),
    Recip(UnaryOperator),
    Erf(UnaryOperator),
    Not(UnaryOperator),
    Neg(UnaryOperator),
    Cast(UnaryOperator),
    Assign(UnaryOperator),
    Fma(FmaOperator),
    Clamp(ClampOperator),
}

/// Conditional assignment of data, and the terminators of structured control flow. The
/// targets of a control transfer are the edges of the graph, not fields here.
#[derive(Clone, Copy, Debug, PartialEq, Eq, Hash, Structural)]
pub enum Branch {
    Select(Select),
    If { cond: Variable },
    IfElse { cond: Variable },
    Loop,
    Break,
    Return,
}

/// Queries about the storage behind a variable.
#[derive(Clone, Copy, Debug, PartialEq, Eq, Hash, Structural)]
pub enum Metadata {
    Length { var: Variable, out: Variable },
    Stride { dim: Variable, var: Variable, out: Variable },
    Shape { dim: Variable, var: Variable, out: Variable },
}

/// Barriers, which write no variable.
#[derive(Clone, Copy, Debug, PartialEq, Eq, Hash, Structural)]
pub enum Synchronization {
    SyncUnits,
    SyncStorage,
}

/// One operation of a basic block.
#[derive(Clone, Copy, Debug, PartialEq, Eq, Hash, Structural)]
pub enum Operation {
    Operator(Operator),
    Branch(Branch),
    Metadata(Metadata),
    Synchronization(Synchronization),
}

impl Operator {
    /// The variable that the operator writes.
    pub open spec fn spec_out(&self) -> Variable {
        match *self {
            Operator::Add(op) | Operator::Sub(op) | Operator::Mul(op) | Operator::Div(op)
            | Operator::Modulo(op) | Operator::Powf(op) | Operator::Equal(op)
            | Operator::NotEqual(op) | Operator::Lower(op) | Operator::Greater(op)
            | Operator::LowerEqual(op) | Operator::GreaterEqual(op) | Operator::And(op)
            | Operator::Or(op) | Operator::Max(op) | Operator::Min(op)
            | Operator::BitwiseAnd(op) | Operator::BitwiseOr(op) | Operator::BitwiseXor(op)
            | Operator::ShiftLeft(op) | Operator::ShiftRight(op) | Operator::Dot(op)
            | Operator::Remainder(op) | Operator::Index(op) | Operator::IndexAssign(op) => op.out,
            Operator::Abs(op) | Operator::Exp(op) | Operator::Log(op) | Operator::Log1p(op)
            | Operator::Cos(op) | Operator::Sin(op) | Operator::Tanh(op) | Operator::Sqrt(op)
            | Operator::Round(op) | Operator::Floor(op) | Operator::Ceil(op)
            | Operator::Recip(op) | Operator::Erf(op) | Operator::Not(op) | Operator::Neg(op)
            | Operator::Cast(op) | Operator::Assign(op) => op.out,
            Operator::Fma(op) => op.out,
            Operator::Clamp(op) => op.out,
        }
    }

    /// The variable that the operator writes.
    #[verifier::when_used_as_spec(spec_out)]
    pub fn out(&self) -> (r: Variable)
        ensures
            r == self.spec_out(),
    {
        match self {
            Operator::Add(op) | Operator::Sub(op) | Operator::Mul(op) | Operator::Div(op)
            | Operator::Modulo(op) | Operator::Powf(op) | Operator::Equal(op)
            | Operator::NotEqual(op) | Operator::Lower(op) | Operator::Greater(op)
            | Operator::LowerEqual(op) | Operator::GreaterEqual(op) | Operator::And(op)
            | Operator::Or(op) | Operator::Max(op) | Operator::Min(op)
            | Operator::BitwiseAnd(op) | Operator::BitwiseOr(op) | Operator::BitwiseXor(op)
            | Operator::ShiftLeft(op) | Operator::ShiftRight(op) | Operator::Dot(op)
            | Operator::Remainder(op) | Operator::Index(op) | Operator::IndexAssign(op) => op.out,
            Operator::Abs(op) | Operator::Exp(op) | Operator::Log(op) | Operator::Log1p(op)
            | Operator::Cos(op) | Operator::Sin(op) | Operator::Tanh(op) | Operator::Sqrt(op)
            | Operator::Round(op) | Operator::Floor(op) | Operator::Ceil(op)
            | Operator::Recip(op) | Operator::Erf(op) | Operator::Not(op) | Operator::Neg(op)
            | Operator::Cast(op) | Operator::Assign(op) => op.out,
            Operator::Fma(op) => op.out,
            Operator::Clamp(op) => op.out,
        }
    }
}

impl Operation {
    /// The variable that the operation writes, if it writes one.
    pub open spec fn spec_out(&self) -> Option<Variable> {
        match *self {
            Operation::Operator(op) => Some(op.spec_out()),
            Operation::Branch(Branch::Select(select)) => Some(select.out),
            Operation::Branch(_) => None,
            Operation::Metadata(Metadata::Length { out, .. }) => Some(out),
            Operation::Metadata(Metadata::Stride { out, .. }) => Some(out),
            Operation::Metadata(Metadata::Shape { out, .. }) => Some(out),
            Operation::Synchronization(_) => None,
        }
    }

    /// The variable that the operation writes, if it writes one.
    #[verifier::when_used_as_spec(spec_out)]
    pub fn out(&self) -> (r: Option<Variable>)
        ensures
            r == self.spec_out(),
    {
        match self {
            Operation::Operator(op) => Some(op.out()),
            Operation::Branch(Branch::Select(select)) => Some(select.out),
            Operation::Branch(_) => None,
            Operation::Metadata(Metadata::Length { out, .. }) => Some(*out),
            Operation::Metadata(Metadata::Stride { out, .. }) => Some(*out),
            Operation::Metadata(Metadata::Shape { out, .. }) => Some(*out),
            Operation::Synchronization(_) => None,
        }
    }

    /// Whether the operation is a plain assignment.
    pub open spec fn is_assign(&self) -> bool {
        *self matches Operation::Operator(Operator::Assign(_))
    }
}

/// The plain assignment `out = value`.
pub open spec fn spec_assign(out: Variable, value: Variable) -> Operation {
    Operation::Operator(Operator::Assign(UnaryOperator { input: value, out }))
}

/// The plain assignment `out = value`.
#[verifier::when_used_as_spec(spec_assign)]
pub fn assign(out: Variable, value: Variable) -> (r: Operation)
    ensures
        r == spec_assign(out, value),
{
    Operation::Operator(Operator::Assign(UnaryOperator { input: value, out }))
}

impl From<Operator> for Operation {
    fn from(value: Operator) -> (r: Operation) {
        Operation::Operator(value)
    }
}

impl FromSpecImpl<Operator> for Operation {
    open spec fn obeys_from_spec() -> bool {
        true
    }

    open spec fn from_spec(value: Operator) -> Operation {
        Operation::Operator(value)
    }
}

} // verus!
