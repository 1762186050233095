//! The Rust types that literals are written in, and the constants that they stand for.

use vstd::prelude::*;
use crate::ir::constant::ConstantScalarValue;
use crate::ir::elem::{Elem, IntKind};

verus! {

/// A Rust type that has an element type.
pub trait SquareType {
    /// The element type of values of the type.
    fn ir_type() -> Elem;
}

/// A Rust type whose values are literals.
pub trait Primitive: SquareType {
    /// The constant that the value stands for.
    fn value(&self) -> ConstantScalarValue;
}

/// A primitive that is an integer.
pub trait Integer: SquareType + Clone {

}

impl SquareType for () {
    fn ir_type() -> (r: Elem)
        ensures
            r == Elem::Unit,
    {
        Elem::Unit
    }
}

impl Primitive for () {
    /// No literal has the unit type; the unit value stands for the unsigned zero.
    fn value(&self) -> (r: ConstantScalarValue)
        ensures
            r == ConstantScalarValue::UInt(0),
    {
        ConstantScalarValue::UInt(0)
    }
}

impl SquareType for i32 {
    fn ir_type() -> (r: Elem)
        ensures
            r == Elem::Int(IntKind::I32),
    {
        Elem::Int(IntKind::I32)
    }
}

impl Integer for i32 {

}

impl Primitive for i32 {
    fn value(&self) -> (r: ConstantScalarValue)
        ensures
            r == ConstantScalarValue::Int(*self as i64, IntKind::I32),
    {
        ConstantScalarValue::Int(*self as i64, IntKind::I32)
    }
}

impl SquareType for i64 {
    fn ir_type() -> (r: Elem)
        ensures
            r == Elem::Int(IntKind::I64),
    {
        Elem::Int(IntKind::I64)
    }
}

impl Integer for i64 {

}

impl Primitive for i64 {
    fn value(&self) -> (r: ConstantScalarValue)
        ensures
            r == ConstantScalarValue::Int(*self, IntKind::I64),
    {
        ConstantScalarValue::Int(*self, IntKind::I64)
    }
}

impl SquareType for u32 {
    fn ir_type() -> (r: Elem)
        ensures
            r == Elem::UInt,
    {
        Elem::UInt
    }
}

impl Integer for u32 {

}

impl Primitive for u32 {
    fn value(&self) -> (r: ConstantScalarValue)
        ensures
            r == ConstantScalarValue::UInt(*self as u64),
    {
        ConstantScalarValue::UInt(*self as u64)
    }
}

impl SquareType for bool {
    fn ir_type() -> (r: Elem)
        ensures
            r == Elem::Bool,
    {
        Elem::Bool
    }
}

impl Primitive for bool {
    fn value(&self) -> (r: ConstantScalarValue)
        ensures
            r == ConstantScalarValue::Bool(*self),
    {
        ConstantScalarValue::Bool(*self)
    }
}

} // verus!
