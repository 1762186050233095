//! What the operators compute on constants.
//!
//! Integers are evaluated as the target would evaluate them: the mathematical result,
//! reduced to the width of the left operand's kind. The right operand is first cast to
//! the left operand's element type, so the left operand's kind always wins. Floats are
//! not evaluated here: an operation on float constants is described by a [`FloatTask`]
//! for the caller to evaluate.

use vstd::prelude::*;
use vstd::arithmetic::power2::{
    lemma2_to64_rest, lemma_pow2_pos, lemma_pow2_strictly_increases, pow2,
};
use vstd::arithmetic::div_mod::lemma_mul_mod_noop_left;
use crate::ir::constant::ConstantScalarValue;
use crate::ir::elem::{signed_of, unsigned_of, wrap_u64, FloatKind, IntKind};
use crate::ir::float::pow2_u64;

verus! {

/// The operations on float constants that are handed out for evaluation.
#[derive(Clone, Copy, Debug, PartialEq, Eq, Hash, Structural)]
pub enum FloatOp {
    Add,
    Sub,
    Mul,
    Div,
    Modulo,
    Max,
    Min,
    Powf,
    Equal,
    NotEqual,
    Lower,
    Greater,
    LowerEqual,
    GreaterEqual,
    Abs,
    Neg,
    Exp,
    Log,
    Log1p,
    Cos,
    Sin,
    Tanh,
    Sqrt,
    Round,
    Floor,
    Ceil,
    Recip,
    Fma,
    Clamp,
}

impl FloatOp {
    /// Whether the operation answers with a truth value rather than a float.
    pub open spec fn spec_is_comparison(&self) -> bool {
        matches!(
            *self,
            FloatOp::Equal | FloatOp::NotEqual | FloatOp::Lower | FloatOp::Greater
                | FloatOp::LowerEqual | FloatOp::GreaterEqual
        )
    }

    /// Whether the operation answers with a truth value rather than a float.
    #[verifier::when_used_as_spec(spec_is_comparison)]
    pub fn is_comparison(&self) -> (r: bool)
        ensures
            r == self.spec_is_comparison(),
    {
        matches!(
            self,
            FloatOp::Equal | FloatOp::NotEqual | FloatOp::Lower | FloatOp::Greater
                | FloatOp::LowerEqual | FloatOp::GreaterEqual
        )
    }
}

/// An operation on float constants, for the caller to evaluate at the precision of
/// `kind`. The operands are binary64 encodings, all already cast to floats; an operand
/// that the operation does not have is zero.
#[derive(Clone, Copy, Debug, PartialEq, Eq, Hash, Structural)]
pub struct FloatTask {
    pub op: FloatOp,
    pub kind: FloatKind,
    pub a: u64,
    pub b: u64,
    pub c: u64,
}

/// The answer to a [`FloatTask`].
#[derive(Clone, Copy, Debug, PartialEq, Eq, Hash, Structural)]
pub enum FloatAnswer {
    /// The encoding of the float that an arithmetic operation gave.
    Value(u64),
    /// What a comparison gave.
    Truth(bool),
}

impl FloatTask {
    /// The literal that `answer` stands for, where it is an answer of the right sort:
    /// a truth value to a comparison, a float of the task's kind to anything else.
    pub open spec fn spec_literal(&self, answer: FloatAnswer) -> Option<ConstantScalarValue> {
        match answer {
            FloatAnswer::Value(bits) => if self.op.is_comparison() {
                None
            } else {
                Some(ConstantScalarValue::Float(bits, self.kind))
            },
            FloatAnswer::Truth(truth) => if self.op.is_comparison() {
                Some(ConstantScalarValue::Bool(truth))
            } else {
                None
            },
        }
    }

    /// The literal that `answer` stands for, or `None` for an answer of the wrong sort.
    #[verifier::when_used_as_spec(spec_literal)]
    pub fn literal(&self, answer: FloatAnswer) -> (r: Option<ConstantScalarValue>)
        ensures
            r == self.spec_literal(answer),
    {
        match answer {
            FloatAnswer::Value(bits) => if self.op.is_comparison() {
                None
            } else {
                Some(ConstantScalarValue::Float(bits, self.kind))
            },
            FloatAnswer::Truth(truth) => if self.op.is_comparison() {
                Some(ConstantScalarValue::Bool(truth))
            } else {
                None
            },
        }
    }
}

/// What evaluating an operation on constants comes to.
#[derive(Clone, Copy, Debug, PartialEq, Eq, Hash, Structural)]
pub enum Folded {
    /// Nothing: an operand is no constant, or the operator is not one that is evaluated.
    Unchanged,
    /// This literal.
    Value(ConstantScalarValue),
    /// What the caller finds by evaluating the float operation described.
    Float(FloatTask),
}

/// Integer division as the hardware has it: the quotient rounded toward zero.
pub open spec fn trunc_div(a: int, b: int) -> int {
    if a >= 0 {
        if b > 0 {
            a / b
        } else {
            -(a / (-b))
        }
    } else {
        if b > 0 {
            -((-a) / b)
        } else {
            (-a) / (-b)
        }
    }
}

/// The remainder that goes with [`trunc_div`]; it has the sign of the dividend.
pub open spec fn trunc_rem(a: int, b: int) -> int {
    a - b * trunc_div(a, b)
}

/// The operators that combine two numbers of one family into a number of that family.
#[derive(Clone, Copy, Debug, PartialEq, Eq, Hash, Structural)]
pub enum Arithmetic {
    Add,
    Sub,
    Mul,
    Div,
    Modulo,
    Max,
    Min,
}

impl Arithmetic {
    /// Whether the operator has a result for the right operand `b`: nothing is divided
    /// by zero.
    pub open spec fn defined(self, b: int) -> bool {
        (self is Div || self is Modulo) ==> b != 0
    }

    /// The mathematical result.
    pub open spec fn apply(self, a: int, b: int) -> int {
        match self {
            Arithmetic::Add => a + b,
            Arithmetic::Sub => a - b,
            Arithmetic::Mul => a * b,
            Arithmetic::Div => trunc_div(a, b),
            Arithmetic::Modulo => trunc_rem(a, b),
            Arithmetic::Max => if a >= b {
                a
            } else {
                b
            },
            Arithmetic::Min => if a <= b {
                a
            } else {
                b
            },
        }
    }

    /// The float operation of the same name.
    pub open spec fn spec_float_op(&self) -> FloatOp {
        match *self {
            Arithmetic::Add => FloatOp::Add,
            Arithmetic::Sub => FloatOp::Sub,
            Arithmetic::Mul => FloatOp::Mul,
            Arithmetic::Div => FloatOp::Div,
            Arithmetic::Modulo => FloatOp::Modulo,
            Arithmetic::Max => FloatOp::Max,
            Arithmetic::Min => FloatOp::Min,
        }
    }

    /// The float operation of the same name.
    #[verifier::when_used_as_spec(spec_float_op)]
    pub fn float_op(&self) -> (r: FloatOp)
        ensures
            r == self.spec_float_op(),
    {
        match self {
            Arithmetic::Add => FloatOp::Add,
            Arithmetic::Sub => FloatOp::Sub,
            Arithmetic::Mul => FloatOp::Mul,
            Arithmetic::Div => FloatOp::Div,
            Arithmetic::Modulo => FloatOp::Modulo,
            Arithmetic::Max => FloatOp::Max,
            Arithmetic::Min => FloatOp::Min,
        }
    }

    /// Evaluates the operator on signed integers at the width of `kind`.
    pub fn on_signed(self, a: i64, b: i64, kind: IntKind) -> (r: i64)
        requires
            self.defined(b as int),
        ensures
            r == kind.wrap(self.apply(a as int, b as int)),
    {
        match self {
            Arithmetic::Add => {
                let sum = a.wrapping_add(b);
                proof {
                    IntKind::lemma_wrap_near(a + b);
                    kind.lemma_wrap_of_wrapped(a + b);
                }
                kind.truncate(sum)
            },
            Arithmetic::Sub => {
                let difference = a.wrapping_sub(b);
                proof {
                    IntKind::lemma_wrap_near(a - b);
                    kind.lemma_wrap_of_wrapped(a - b);
                    assert(kind.wrap(difference as int) == kind.wrap(a - b));
                }
                kind.truncate(difference)
            },
            Arithmetic::Mul => {
                let product = a.wrapping_mul(b);
                proof {
                    kind.lemma_wrap_of_wrapped(a * b);
                }
                kind.truncate(product)
            },
            Arithmetic::Div => match a.checked_div(b) {
                Some(q) => {
                    kind.truncate(q)
                },
                None => {
                    proof {
                        IntKind::lemma_wrap_near(0x8000_0000_0000_0000);
                        kind.lemma_wrap_of_wrapped(0x8000_0000_0000_0000);
                    }
                    kind.truncate(i64::MIN)
                },
            },
            Arithmetic::Modulo => match a.checked_rem(b) {
                Some(r) => {
                    proof {
                        lemma_trunc_rem(a as int, b as int);
                    }
                    kind.truncate(r)
                },
                None => {
                    assert(trunc_rem(a as int, b as int) == 0) by (nonlinear_arith)
                        requires
                            b == -1,
                            trunc_rem(a as int, b as int) == a - b * (-(a as int)),
                    ;
                    0
                },
            },
            Arithmetic::Max => kind.truncate(
                if a >= b {
                    a
                } else {
                    b
                },
            ),
            Arithmetic::Min => kind.truncate(
                if a <= b {
                    a
                } else {
                    b
                },
            ),
        }
    }

    /// Evaluates the operator on unsigned integers, modulo two to the power of 64.
    pub fn on_unsigned(self, a: u64, b: u64) -> (r: u64)
        requires
            self.defined(b as int),
        ensures
            r == wrap_u64(self.apply(a as int, b as int)),
    {
        match self {
            Arithmetic::Add => a.wrapping_add(b),
            Arithmetic::Sub => a.wrapping_sub(b),
            Arithmetic::Mul => a.wrapping_mul(b),
            Arithmetic::Div => a / b,
            Arithmetic::Modulo => {
                proof {
                    lemma_trunc_rem(a as int, b as int);
                }
                a % b
            },
            Arithmetic::Max => if a >= b {
                a
            } else {
                b
            },
            Arithmetic::Min => if a <= b {
                a
            } else {
                b
            },
        }
    }
}

/// For dividends and divisors of either sign, the truncated remainder is the remainder
/// of the magnitudes with the sign of the dividend.
pub proof fn lemma_trunc_rem(a: int, b: int)
    requires
        b != 0,
    ensures
        a >= 0 && b > 0 ==> trunc_rem(a, b) == a % b,
        a >= 0 && b < 0 ==> trunc_rem(a, b) == a % (-b),
        a < 0 && b > 0 ==> trunc_rem(a, b) == -((-a) % b),
        a < 0 && b < 0 ==> trunc_rem(a, b) == -((-a) % (-b)),
{
    let x = if a >= 0 {
        a
    } else {
        -a
    };
    let d = if b > 0 {
        b
    } else {
        -b
    };
    vstd::arithmetic::div_mod::lemma_fundamental_div_mod(x, d);
    assert(b * trunc_div(a, b) == if a >= 0 {
        d * (x / d)
    } else {
        -(d * (x / d))
    }) by (nonlinear_arith)
        requires
            b != 0,
            x == if a >= 0 {
                a
            } else {
                -a
            },
            d == if b > 0 {
                b
            } else {
                -b
            },
            trunc_div(a, b) == if (a >= 0) == (b > 0) {
                x / d
            } else {
                -(x / d)
            },
    ;
}

/// Dividing by a positive number and rounding down brings a number no further from
/// zero than it was.
pub proof fn lemma_floor_div_bounds(a: int, d: int)
    requires
        d >= 1,
    ensures
        a >= 0 ==> 0 <= a / d <= a,
        a < 0 ==> a <= a / d < 0,
{
    vstd::arithmetic::div_mod::lemma_fundamental_div_mod(a, d);
    let q = a / d;
    let r = a % d;
    assert((a >= 0 ==> 0 <= q <= a) && (a < 0 ==> a <= q < 0)) by (nonlinear_arith)
        requires
            a == d * q + r,
            0 <= r < d,
            d >= 1,
    ;
}

/// The operators that work on the bits of integers.
#[derive(Clone, Copy, Debug, PartialEq, Eq, Hash, Structural)]
pub enum Bitwise {
    And,
    Or,
    Xor,
    ShiftLeft,
    ShiftRight,
}

impl Bitwise {
    /// Whether the operator has a result for the right operand `b` at `width` bits: a
    /// shift is by fewer bits than the left operand has.
    pub open spec fn defined(self, b: int, width: int) -> bool {
        (self is ShiftLeft || self is ShiftRight) ==> 0 <= b < width
    }

    /// The result on signed integers, before it is reduced to a width. A shift to the
    /// left multiplies by a power of two; a shift to the right divides by one, rounding
    /// down.
    pub open spec fn apply_signed(self, a: i64, b: i64) -> int {
        match self {
            Bitwise::And => (a & b) as int,
            Bitwise::Or => (a | b) as int,
            Bitwise::Xor => (a ^ b) as int,
            Bitwise::ShiftLeft => a * pow2(b as nat),
            Bitwise::ShiftRight => a as int / (pow2(b as nat) as int),
        }
    }

    /// The result on unsigned integers, before it is reduced to 64 bits.
    pub open spec fn apply_unsigned(self, a: u64, b: u64) -> int {
        match self {
            Bitwise::And => (a & b) as int,
            Bitwise::Or => (a | b) as int,
            Bitwise::Xor => (a ^ b) as int,
            Bitwise::ShiftLeft => a * pow2(b as nat),
            Bitwise::ShiftRight => a as int / (pow2(b as nat) as int),
        }
    }

    /// Evaluates the operator on signed integers at the width of `kind`.
    pub fn on_signed(self, a: i64, b: i64, kind: IntKind) -> (r: i64)
        requires
            self.defined(b as int, 64),
        ensures
            r == kind.wrap(self.apply_signed(a, b)),
    {
        match self {
            Bitwise::And => kind.truncate(a & b),
            Bitwise::Or => kind.truncate(a | b),
            Bitwise::Xor => kind.truncate(a ^ b),
            Bitwise::ShiftLeft => {
                let scale = pow2_u64(b as u64);
                let bits = unsigned_of(a);
                let product = bits.wrapping_mul(scale);
                proof {
                    let p = scale as int;
                    let m = 0x1_0000_0000_0000_0000int;
                    lemma_mul_mod_noop_left(a as int, p, m);
                    assert(product as int == ((a as int % m) * p) % m) by {
                        assert((bits as nat * scale as nat) == (a as int % m) * p)
                            by (nonlinear_arith)
                            requires
                                bits as int == a as int % m,
                                scale as int == p,
                        ;
                    }
                    kind.lemma_wrap_of_wrapped(wrap_u64(a * p));
                    kind.lemma_wrap_of_wrapped(a * p);
                }
                let shifted = signed_of(product);
                kind.truncate(shifted)
            },
            Bitwise::ShiftRight => {
                if b == 63 {
                    proof {
                        lemma2_to64_rest();
                        lemma_floor_div_bounds(a as int, pow2(63) as int);
                        vstd::arithmetic::div_mod::lemma_fundamental_div_mod(
                            a as int,
                            pow2(63) as int,
                        );
                    }
                    assert(a as int / (pow2(63) as int) == if a < 0 {
                        -1int
                    } else {
                        0int
                    });
                    kind.truncate(
                        if a < 0 {
                            -1
                        } else {
                            0
                        },
                    )
                } else {
                    let unit = pow2_u64(b as u64);
                    proof {
                        lemma2_to64_rest();
                        lemma_pow2_pos(b as nat);
                        lemma_pow2_strictly_increases(b as nat, 63);
                        lemma_floor_div_bounds(a as int, unit as int);
                    }
                    match a.checked_div_euclid(unit as i64) {
                        Some(q) => {
                            kind.truncate(q)
                        },
                        None => {
                            kind.truncate(a)
                        },
                    }
                }
            },
        }
    }

    /// Evaluates the operator on unsigned integers, modulo two to the power of 64.
    pub fn on_unsigned(self, a: u64, b: u64) -> (r: u64)
        requires
            self.defined(b as int, 64),
        ensures
            r == wrap_u64(self.apply_unsigned(a, b)),
    {
        match self {
            Bitwise::And => a & b,
            Bitwise::Or => a | b,
            Bitwise::Xor => a ^ b,
            Bitwise::ShiftLeft => {
                let scale = pow2_u64(b);
                a.wrapping_mul(scale)
            },
            Bitwise::ShiftRight => {
                let unit = pow2_u64(b);
                proof {
                    lemma_pow2_pos(b as nat);
                }
                a / unit
            },
        }
    }
}

/// The comparisons of two numbers of one family.
#[derive(Clone, Copy, Debug, PartialEq, Eq, Hash, Structural)]
pub enum Comparison {
    Equal,
    NotEqual,
    Lower,
    Greater,
    LowerEqual,
    GreaterEqual,
}

impl Comparison {
    /// The truth of the comparison.
    pub open spec fn apply(self, a: int, b: int) -> bool {
        match self {
            Comparison::Equal => a == b,
            Comparison::NotEqual => a != b,
            Comparison::Lower => a < b,
            Comparison::Greater => a > b,
            Comparison::LowerEqual => a <= b,
            Comparison::GreaterEqual => a >= b,
        }
    }

    /// The float operation of the same name.
    pub open spec fn spec_float_op(&self) -> FloatOp {
        match *self {
            Comparison::Equal => FloatOp::Equal,
            Comparison::NotEqual => FloatOp::NotEqual,
            Comparison::Lower => FloatOp::Lower,
            Comparison::Greater => FloatOp::Greater,
            Comparison::LowerEqual => FloatOp::LowerEqual,
            Comparison::GreaterEqual => FloatOp::GreaterEqual,
        }
    }

    /// The float operation of the same name.
    #[verifier::when_used_as_spec(spec_float_op)]
    pub fn float_op(&self) -> (r: FloatOp)
        ensures
            r == self.spec_float_op(),
            r.spec_is_comparison(),
    {
        match self {
            Comparison::Equal => FloatOp::Equal,
            Comparison::NotEqual => FloatOp::NotEqual,
            Comparison::Lower => FloatOp::Lower,
            Comparison::Greater => FloatOp::Greater,
            Comparison::LowerEqual => FloatOp::LowerEqual,
            Comparison::GreaterEqual => FloatOp::GreaterEqual,
        }
    }

    /// Compares two signed integers.
    pub fn on_signed(self, a: i64, b: i64) -> (r: bool)
        ensures
            r == self.apply(a as int, b as int),
    {
        match self {
            Comparison::Equal => a == b,
            Comparison::NotEqual => a != b,
            Comparison::Lower => a < b,
            Comparison::Greater => a > b,
            Comparison::LowerEqual => a <= b,
            Comparison::GreaterEqual => a >= b,
        }
    }

    /// Compares two unsigned integers.
    pub fn on_unsigned(self, a: u64, b: u64) -> (r: bool)
        ensures
            r == self.apply(a as int, b as int),
    {
        match self {
            Comparison::Equal => a == b,
            Comparison::NotEqual => a != b,
            Comparison::Lower => a < b,
            Comparison::Greater => a > b,
            Comparison::LowerEqual => a <= b,
            Comparison::GreaterEqual => a >= b,
        }
    }
}

} // verus!
