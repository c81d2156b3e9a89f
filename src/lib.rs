//! RC4OK: a keyed pseudo-random byte generator built on an improved RC4
//! construction, with a low-overhead way to fold fresh entropy into its state.
//!
//! `model` states the scheme over mathematical values, `generator` holds the
//! executable engine proved against it, `permutation` proves that the table
//! stays a permutation, and `laws` states the properties that relate several
//! operations.

pub mod generator;
pub mod laws;
pub mod model;
pub mod permutation;

pub use generator::RC4ok;
pub use model::GeneratorModel;
