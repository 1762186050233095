//! Reduction instructions: what a reduction keeps of the items it is shown.

pub mod maxabs;
