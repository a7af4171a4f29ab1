//! Distributions whose parameters are whole numbers.

pub mod chi;
pub mod f;
pub mod t;
