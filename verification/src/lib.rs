//! Symbolic expressions in one real variable, evaluated together with their
//! first derivative by forward-mode automatic differentiation, and a
//! Newton-Raphson root finder driven by that evaluator.
//!
//! All arithmetic is exact fixed-point arithmetic: a number is a count of
//! 2^-32 units stored in an `i64`, so every operation is an integer operation
//! whose result the contracts pin down exactly.

pub mod expr;
pub mod eval;
pub mod fixnum;
pub mod newton;
