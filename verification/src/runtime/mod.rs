//! The host side of the runtime: handles to device storage.

pub mod storage;
