//! A typed intermediate representation for compute kernels, the rewrite passes that
//! simplify it to a fixpoint, and the host-side selection rules that sit around it.

pub mod ir;
pub mod opt;
pub mod runtime;
pub mod linalg;
pub mod reduce;
