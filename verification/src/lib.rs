//! The semantic core of a small dependently typed functional language: the
//! desugarer that turns the concrete syntax tree into a name-resolved raw
//! tree, the bidirectional elaborator that turns raw terms into fully
//! checked core terms, the normalizer that gives core terms a decidable
//! notion of equality, and the diagnostics the two can produce.

pub mod builtins;
pub mod concrete;
pub mod context;
pub mod core_syntax;
pub mod desugar;
pub mod diagnostic;
pub mod domain;
pub mod elaborate;
pub mod errors;
pub mod laws;
pub mod normalize;
pub mod raw;
pub mod span;
pub mod var;
