//! The optimizer: the program graph, the rewrite passes and the round driver.

pub mod graph;
pub mod pass;
pub mod simplify;
pub mod const_eval;
pub mod driver;
pub mod semantics;
