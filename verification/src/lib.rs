//! A tree-walking evaluator for a small dynamically typed, homoiconic
//! scripting language with exactly two value kinds, integers and text.
//!
//! The heart of the crate is [`context::Context::exec`], the recursive
//! evaluator. Its behaviour on the host-independent fragment of the language
//! is pinned by the spec-level interpreter [`sem::eval_pure`], and the
//! general laws of the language are proved in [`laws`]; where the host
//! decides (the file system, the external parser a caller supplies), the
//! evaluator is verified against what holds of every outcome.

pub mod ast;
pub mod context;
pub mod laws;
pub mod sem;
pub mod show;

mod host;
