//! An inferential-statistics engine over exactly specified arithmetic.
//!
//! Samples are sequences of fixed-point numbers (see [`fixed`]). The engine
//! computes sample moments, confidence-interval plans and hypothesis-test
//! plans entirely in checked integer arithmetic; evaluating a reference
//! distribution (normal, Student's t, Fisher–Snedecor) is the caller's part,
//! and the verified conclusion step turns the returned probabilities into
//! interval bounds or p-values.

pub mod conf_int;
pub mod dist;
pub mod fixed;
pub mod moments;
pub mod types;
