//! Constant-folding optimization pass for a small imperative expression
//! language: a parsed program is rewritten so that every sub-expression whose
//! operands are all integer literals is replaced by its computed value, while
//! sub-expressions involving unresolved identifiers are kept intact.

pub mod ast;
pub mod constant_folding;
pub mod error;
pub mod parser;
pub mod render;
