//! Matrix multiplication on the host side: how a problem is cut into tiles, stages and
//! cubes before a kernel is launched, and which addresses the loading kernels touch.

pub mod components;

pub mod selector;
pub mod config;
pub mod algorithm;
pub mod loading;
pub mod im2col;
pub mod cmma;
pub mod cmma_checks;
