//! Seeded pseudo-random number engine: the integer core.
//!
//! The crate holds the Xorshift160 generator, the rejection loops that turn
//! its output into numerators of uniform deviates, the rule that keeps the
//! seeds of sibling generators apart, and the integer decisions of the
//! samplers that are built on them.

pub mod engine;
pub mod uniform;
pub mod seeds;
pub mod normal;
pub mod laplace;
pub mod distributions;
pub mod xorshift128;

pub use crate::engine::{generate_random_state, xorshift160};
pub use crate::uniform::{xorshift160_0_1, xorshift160_0_1_open, xorshift160_0_open_1_open};
pub use crate::seeds::{adjust_seeds, generate_seeds};
pub use crate::normal::{standard_normal_foot_pair, standard_normal_word, NormalWord};
pub use crate::distributions::chi::Chi;
pub use crate::distributions::f::FDistribution;
pub use crate::distributions::t::{TDistribution, TMethod};
pub use crate::laplace::standard_laplace_deviate;
