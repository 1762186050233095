//! Variables: typed references to storage, each with an element type and a line size.

use vstd::prelude::*;
use vstd::std_specs::convert::FromSpecImpl;
use crate::ir::constant::ConstantScalarValue;
use crate::ir::elem::Elem;
use crate::ir::float::{float_from_i64, is_zero_bits};

verus! {

/// The type of a variable: its element type and the number of lanes that it packs.
#[derive(Clone, Copy, Debug, PartialEq, Eq, Hash, Structural)]
pub struct Item {
    pub elem: Elem,
    pub vectorization: u8,
}

impl Item {
    /// A variable packs at least one lane.
    pub open spec fn wf(&self) -> bool {
        self.vectorization >= 1
    }

    /// The type of a scalar of the given element type.
    pub fn new(elem: Elem) -> (r: Item)
        ensures
            r == (Item { elem, vectorization: 1 }),
            r.wf(),
    {
        Item { elem, vectorization: 1 }
    }

    /// The type of a line of `vectorization` lanes; zero lanes means a scalar.
    pub fn vectorized(elem: Elem, vectorization: u8) -> (r: Item)
        ensures
            r.elem == elem,
            r.vectorization == if vectorization == 0 {
                1u8
            } else {
                vectorization
            },
            r.wf(),
    {
        if vectorization == 0 {
            Item { elem, vectorization: 1 }
        } else {
            Item { elem, vectorization }
        }
    }

    /// Whether two operands of one operation may stand together: their line sizes are
    /// equal, or one of them is a scalar that is broadcast.
    pub open spec fn compatible(&self, other: &Item) -> bool {
        self.vectorization == other.vectorization || self.vectorization == 1
            || other.vectorization == 1
    }

    /// Whether two operands of one operation may stand together.
    pub fn is_compatible(&self, other: &Item) -> (r: bool)
        ensures
            r == self.compatible(other),
    {
        self.vectorization == other.vectorization || self.vectorization == 1
            || other.vectorization == 1
    }
}

/// A reference to a storage location, identified by value.
#[derive(Clone, Copy, Debug, PartialEq, Eq, Hash, Structural)]
pub enum Variable {
    /// An immediate value.
    ConstantScalar(ConstantScalarValue),
    /// A named mutable scalar or register.
    Local { id: u16, item: Item, depth: u8 },
    /// An array of constants, of fixed length.
    ConstantArray { id: u16, item: Item, length: u32 },
    /// A shared-memory buffer, of fixed length.
    SharedMemory { id: u16, item: Item, length: u32 },
    /// An array local to a unit, of fixed length.
    LocalArray { id: u16, item: Item, depth: u8, length: u32 },
    /// A view into an array or buffer, whose length may be known to the slice registry.
    Slice { id: u16, item: Item, depth: u8 },
}

impl Variable {
    /// The type of the variable. A constant is a scalar of its literal's element type.
    pub open spec fn spec_item(&self) -> Item {
        match *self {
            Variable::ConstantScalar(value) => Item { elem: value.spec_elem(), vectorization: 1 },
            Variable::Local { item, .. } => item,
            Variable::ConstantArray { item, .. } => item,
            Variable::SharedMemory { item, .. } => item,
            Variable::LocalArray { item, .. } => item,
            Variable::Slice { item, .. } => item,
        }
    }

    /// The type of the variable.
    #[verifier::when_used_as_spec(spec_item)]
    pub fn item(&self) -> (r: Item)
        ensures
            r == self.spec_item(),
    {
        match self {
            Variable::ConstantScalar(value) => Item::new(value.elem()),
            Variable::Local { item, .. } => *item,
            Variable::ConstantArray { item, .. } => *item,
            Variable::SharedMemory { item, .. } => *item,
            Variable::LocalArray { item, .. } => *item,
            Variable::Slice { item, .. } => *item,
        }
    }

    /// The literal of a compile-time constant, and `None` for any other variable.
    pub open spec fn spec_as_const(&self) -> Option<ConstantScalarValue> {
        match *self {
            Variable::ConstantScalar(value) => Some(value),
            _ => None,
        }
    }

    /// The literal of a compile-time constant, and `None` for any other variable.
    #[verifier::when_used_as_spec(spec_as_const)]
    pub fn as_const(&self) -> (r: Option<ConstantScalarValue>)
        ensures
            r == self.spec_as_const(),
    {
        match self {
            Variable::ConstantScalar(value) => Some(*value),
            _ => None,
        }
    }

    /// Whether the variable is a numeric constant equal to the integer `value`.
    pub open spec fn spec_is_constant(&self, value: i64) -> bool {
        match *self {
            Variable::ConstantScalar(c) => c.equals_integer(value as int),
            _ => false,
        }
    }

    /// Whether the variable is a numeric constant equal to the integer `value`.
    #[verifier::when_used_as_spec(spec_is_constant)]
    pub fn is_constant(&self, value: i64) -> (r: bool)
        ensures
            r == self.spec_is_constant(value),
    {
        match self {
            Variable::ConstantScalar(ConstantScalarValue::Int(v, _)) => *v == value,
            Variable::ConstantScalar(ConstantScalarValue::UInt(v)) => value >= 0 && *v
                == value as u64,
            Variable::ConstantScalar(ConstantScalarValue::Float(bits, _)) => if value == 0 {
                is_zero_bits(*bits)
            } else {
                *bits == float_from_i64(value)
            },
            _ => false,
        }
    }

    /// Whether the variable is the boolean constant `true`.
    pub open spec fn spec_is_true(&self) -> bool {
        *self == Variable::ConstantScalar(ConstantScalarValue::Bool(true))
    }

    /// Whether the variable is the boolean constant `true`.
    #[verifier::when_used_as_spec(spec_is_true)]
    pub fn is_true(&self) -> (r: bool)
        ensures
            r == self.spec_is_true(),
    {
        match self {
            Variable::ConstantScalar(ConstantScalarValue::Bool(b)) => *b,
            _ => false,
        }
    }

    /// Whether the variable is the boolean constant `false`.
    pub open spec fn spec_is_false(&self) -> bool {
        *self == Variable::ConstantScalar(ConstantScalarValue::Bool(false))
    }

    /// Whether the variable is the boolean constant `false`.
    #[verifier::when_used_as_spec(spec_is_false)]
    pub fn is_false(&self) -> (r: bool)
        ensures
            r == self.spec_is_false(),
    {
        match self {
            Variable::ConstantScalar(ConstantScalarValue::Bool(b)) => !*b,
            _ => false,
        }
    }
}

impl From<bool> for Variable {
    fn from(value: bool) -> (r: Variable) {
        Variable::ConstantScalar(ConstantScalarValue::Bool(value))
    }
}

impl FromSpecImpl<bool> for Variable {
    open spec fn obeys_from_spec() -> bool {
        true
    }

    open spec fn from_spec(value: bool) -> Variable {
        Variable::ConstantScalar(ConstantScalarValue::Bool(value))
    }
}

impl From<u32> for Variable {
    fn from(value: u32) -> (r: Variable) {
        Variable::ConstantScalar(ConstantScalarValue::UInt(value as u64))
    }
}

impl FromSpecImpl<u32> for Variable {
    open spec fn obeys_from_spec() -> bool {
        true
    }

    open spec fn from_spec(value: u32) -> Variable {
        Variable::ConstantScalar(ConstantScalarValue::UInt(value as u64))
    }
}

} // verus!
