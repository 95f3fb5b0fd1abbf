//! Numeric chunk kernels for a host-driven computation.
//!
//! The host hands each call a single payload: either a sequence of 64-bit
//! floating-point numbers or a half-open integer range. This crate owns the
//! payload schema, its validation, and the integer structure of the range
//! kernel; a value's floating-point reading never enters the verified code,
//! so every number travels as its 64-bit pattern plus, where exact, its
//! unsigned 32-bit reading.

pub mod payload;
pub mod range;
