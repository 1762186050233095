//! The intermediate representation: element types, constants, variables and operations.

pub mod elem;
pub mod float;
pub mod constant;
pub mod variable;
pub mod operation;
pub mod eval;
pub mod primitive;
