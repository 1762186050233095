//! Constant scalar values and the rules for casting them between element types.

use vstd::prelude::*;
use crate::ir::elem::{signed_of, unsigned_of, wrap_u64, Elem, FloatKind, IntKind};
use crate::ir::float::{
    float_from_i64, float_from_u64, float_is_one, float_is_zero, float_of_int, float_of_nat,
    float_to_i64, float_to_int, float_to_u64, is_one_bits, FLOAT_ONE,
};

verus! {

/// One literal of a given element type.
///
/// A signed integer is held in 64 bits whatever its kind; a float is held as the bits
/// of its binary64 encoding whatever its kind.
#[derive(Clone, Copy, Debug, PartialEq, Eq, Hash, Structural)]
pub enum ConstantScalarValue {
    Int(i64, IntKind),
    Float(u64, FloatKind),
    UInt(u64),
    Bool(bool),
}

impl ConstantScalarValue {
    /// The element type of the literal.
    pub open spec fn spec_elem(&self) -> Elem {
        match *self {
            ConstantScalarValue::Int(_, kind) => Elem::Int(kind),
            ConstantScalarValue::Float(_, kind) => Elem::Float(kind),
            ConstantScalarValue::UInt(_) => Elem::UInt,
            ConstantScalarValue::Bool(_) => Elem::Bool,
        }
    }

    /// The element type of the literal.
    #[verifier::when_used_as_spec(spec_elem)]
    pub fn elem(&self) -> (r: Elem)
        ensures
            r == self.spec_elem(),
    {
        match self {
            ConstantScalarValue::Int(_, kind) => Elem::Int(*kind),
            ConstantScalarValue::Float(_, kind) => Elem::Float(*kind),
            ConstantScalarValue::UInt(_) => Elem::UInt,
            ConstantScalarValue::Bool(_) => Elem::Bool,
        }
    }

    /// Whether the literal is a float, which this library holds but does not compute with.
    pub open spec fn is_float(self) -> bool {
        self is Float
    }

    /// The number that an integer or boolean literal stands for; `true` is one. Of a
    /// float literal it says nothing.
    pub open spec fn number(self) -> int {
        match self {
            ConstantScalarValue::Int(v, _) => v as int,
            ConstantScalarValue::UInt(v) => v as int,
            ConstantScalarValue::Bool(b) => if b {
                1
            } else {
                0
            },
            ConstantScalarValue::Float(_, _) => 0,
        }
    }

    /// The literal cast to the element type `elem`.
    ///
    /// The number is kept where the target can hold it. Where it cannot, a signed target
    /// keeps the low bits of its width in two's complement and an unsigned target keeps
    /// the value modulo two to the power of 64. A float becomes an integer by truncation
    /// toward zero, saturating at the 64-bit bounds, and an integer becomes the nearest
    /// float. Only one becomes `true`. Between float kinds the encoding is kept and the
    /// kind replaced. No literal has the unit type: a cast to it gives the unsigned zero.
    pub open spec fn cast(self, elem: Elem) -> ConstantScalarValue {
        match elem {
            Elem::Float(kind) => match self {
                ConstantScalarValue::Int(v, _) => ConstantScalarValue::Float(
                    float_of_int(v as int) as u64,
                    kind,
                ),
                ConstantScalarValue::Float(bits, _) => ConstantScalarValue::Float(bits, kind),
                ConstantScalarValue::UInt(v) => ConstantScalarValue::Float(
                    float_of_nat(v as nat) as u64,
                    kind,
                ),
                ConstantScalarValue::Bool(b) => ConstantScalarValue::Float(
                    if b {
                        FLOAT_ONE
                    } else {
                        0
                    },
                    kind,
                ),
            },
            Elem::Int(kind) => match self {
                ConstantScalarValue::Float(bits, _) => ConstantScalarValue::Int(
                    kind.wrap(float_to_int(bits, i64::MIN as int, i64::MAX as int)) as i64,
                    kind,
                ),
                _ => ConstantScalarValue::Int(kind.wrap(self.number()) as i64, kind),
            },
            Elem::UInt => match self {
                ConstantScalarValue::Float(bits, _) => ConstantScalarValue::UInt(
                    float_to_int(bits, 0, u64::MAX as int) as u64,
                ),
                _ => ConstantScalarValue::UInt(wrap_u64(self.number()) as u64),
            },
            Elem::Bool => match self {
                ConstantScalarValue::Float(bits, _) => ConstantScalarValue::Bool(
                    float_is_one(bits),
                ),
                _ => ConstantScalarValue::Bool(self.number() == 1),
            },
            Elem::Unit => ConstantScalarValue::UInt(0),
        }
    }

    /// Casts the literal to the element type `elem`.
    pub fn cast_to(&self, elem: Elem) -> (r: ConstantScalarValue)
        ensures
            r == self.cast(elem),
            !(elem is Unit) ==> r.spec_elem() == elem,
    {
        match elem {
            Elem::Float(kind) => match self {
                ConstantScalarValue::Int(v, _) => ConstantScalarValue::Float(
                    float_from_i64(*v),
                    kind,
                ),
                ConstantScalarValue::Float(bits, _) => ConstantScalarValue::Float(*bits, kind),
                ConstantScalarValue::UInt(v) => ConstantScalarValue::Float(
                    float_from_u64(*v),
                    kind,
                ),
                ConstantScalarValue::Bool(b) => ConstantScalarValue::Float(
                    if *b {
                        FLOAT_ONE
                    } else {
                        0
                    },
                    kind,
                ),
            },
            Elem::Int(kind) => match self {
                ConstantScalarValue::Int(v, _) => ConstantScalarValue::Int(
                    kind.truncate(*v),
                    kind,
                ),
                ConstantScalarValue::Float(bits, _) => ConstantScalarValue::Int(
                    kind.truncate(float_to_i64(*bits)),
                    kind,
                ),
                ConstantScalarValue::UInt(v) => {
                    proof {
                        kind.lemma_wrap_of_wrapped(*v as int);
                    }
                    ConstantScalarValue::Int(kind.truncate(signed_of(*v)), kind)
                },
                ConstantScalarValue::Bool(b) => ConstantScalarValue::Int(
                    if *b {
                        1
                    } else {
                        0
                    },
                    kind,
                ),
            },
            Elem::UInt => match self {
                ConstantScalarValue::Int(v, _) => ConstantScalarValue::UInt(unsigned_of(*v)),
                ConstantScalarValue::Float(bits, _) => ConstantScalarValue::UInt(
                    float_to_u64(*bits),
                ),
                ConstantScalarValue::UInt(v) => ConstantScalarValue::UInt(*v),
                ConstantScalarValue::Bool(b) => ConstantScalarValue::UInt(
                    if *b {
                        1
                    } else {
                        0
                    },
                ),
            },
            Elem::Bool => match self {
                ConstantScalarValue::Int(v, _) => ConstantScalarValue::Bool(*v == 1),
                ConstantScalarValue::Float(bits, _) => ConstantScalarValue::Bool(
                    is_one_bits(*bits),
                ),
                ConstantScalarValue::UInt(v) => ConstantScalarValue::Bool(*v == 1),
                ConstantScalarValue::Bool(b) => ConstantScalarValue::Bool(*b),
            },
            Elem::Unit => ConstantScalarValue::UInt(0),
        }
    }

    /// Whether the literal is a number equal to the integer `value`. A boolean is no
    /// number; a float is compared as a float, so both zeros equal 0.
    pub open spec fn equals_integer(self, value: int) -> bool {
        match self {
            ConstantScalarValue::Int(v, _) => v == value,
            ConstantScalarValue::UInt(v) => v == value,
            ConstantScalarValue::Float(bits, _) => if value == 0 {
                float_is_zero(bits)
            } else {
                bits == float_of_int(value)
            },
            ConstantScalarValue::Bool(_) => false,
        }
    }
}

/// Whether the number `n` can be held in the element type `elem` as it is: within the
/// range of an integer type, of magnitude below two to the power of 53 for a float, and
/// zero or one for a truth value.
pub open spec fn representable(n: int, elem: Elem) -> bool {
    match elem {
        Elem::Int(kind) => kind.fits(n),
        Elem::UInt => 0 <= n <= u64::MAX,
        Elem::Float(_) => -0x20_0000_0000_0000 < n < 0x20_0000_0000_0000,
        Elem::Bool => n == 0 || n == 1,
        Elem::Unit => false,
    }
}

/// A cast loses nothing where the target can hold the number.
///
/// An integer or truth value whose number the target type can hold is cast to a literal
/// of the same number; and where the target is a float, the cast back gives the literal
/// that was cast.
pub proof fn law_cast_keeps_representable_numbers(c: ConstantScalarValue, elem: Elem)
    requires
        !c.is_float(),
        representable(c.number(), c.spec_elem()),
        representable(c.number(), elem),
    ensures
        c.cast(elem).spec_elem() == elem,
        !(elem is Float) ==> c.cast(elem).number() == c.number(),
        elem is Float ==> c.cast(elem).cast(c.spec_elem()) == c,
{
    match elem {
        Elem::Int(kind) => {
            kind.lemma_wrap_fits(c.number());
        },
        Elem::Float(_) => {
            let (lo, hi) = match c {
                ConstantScalarValue::Int(_, _) => (i64::MIN as int, i64::MAX as int),
                _ => (0int, u64::MAX as int),
            };
            crate::ir::float::lemma_float_round_trip_signed(c.number(), lo, hi);
            match c {
                ConstantScalarValue::Int(v, kind) => {
                    kind.lemma_wrap_fits(v as int);
                },
                ConstantScalarValue::UInt(v) => {
                    crate::ir::float::lemma_float_round_trip(v as nat, lo, hi);
                },
                _ => {},
            }
        },
        _ => {},
    }
}

/// Casting a literal to the element type it already has changes nothing, provided a
/// signed integer lies within its own kind.
pub proof fn lemma_cast_to_own_elem(c: ConstantScalarValue)
    requires
        c matches ConstantScalarValue::Int(v, kind) ==> kind.fits(v as int),
    ensures
        c.cast(c.spec_elem()) == c,
{
}

} // verus!
