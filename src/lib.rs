//! Instantiation identity, deduplication and linkage names for the generic
//! wrappers and function types of a language bridge, and the fixed-arity
//! call bridge for foreign function values.

pub mod function;
pub mod instantiate;
pub mod lemmas;
pub mod registry;
pub mod syntax;
