//! Fixed-step simulation of a series RLC circuit, and the colour table of
//! the log terminal that reports on it.
//!
//! Circuit quantities are IEEE 754 binary64 numbers held as their 64-bit
//! patterns. The integrator takes its arithmetic from the caller, as one
//! function from an [`arithmetic::Operation`] and two operands to a result,
//! and every contract is stated for each mathematical model that this
//! function follows.

pub mod arithmetic;
pub mod binary64;
pub mod types;
pub mod circuit;
pub mod colors;
