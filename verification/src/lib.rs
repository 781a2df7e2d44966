//! Type inference and Wasm re-encoding for the peephole mutator of wasm-mutate,
//! with the constant-unfolding mutation.

pub mod analysis;
pub mod encoder;
pub mod error;
pub mod lang;
pub mod locals;
pub mod rng;
pub mod types;
pub mod unfold_constant;
pub mod wasm_spec;
