//! Verified core of a binding layer for a native power-system simulation engine.
//!
//! The engine is reached through opaque context handles and reports results in
//! per-handle scratch buffers and an out-of-band error flag. This crate holds the
//! rules that make that boundary safe: the lifecycle of handles, the
//! read-and-clear error protocol, and the checked decoding of buffer contents
//! into owned values.
#![allow(non_snake_case)]

pub mod complex;
pub mod context;
pub mod enums;
pub mod error;
pub mod marshal;
pub mod wire;
