//! A small symbolic-algebra toolkit: algebraic formulas as owned
//! expression trees, a bottom-up simplifier, structural differentiation
//! with a chain rule over named derivable functions, a fully
//! parenthesized formatter, and variable substitution down to a numeric
//! result.
//!
//! The numeric leaves are IEEE-754 doubles held by their bit patterns;
//! the arithmetic on them is delegated to outside crates through the
//! trusted wrappers of [`scalar`], and everything built on top of those
//! wrappers is verified.

pub mod scalar;

pub mod expression;

pub mod simplify;

pub mod differentiate;

pub mod render;

pub mod evaluate;

pub mod plane;

