//! A small scripting runtime for section-based, branching documents: the
//! language's syntax tree and parser, a tree-walking evaluator with three
//! variable scopes, the host functions, and the navigator that sequences
//! sections and honours jumps.

pub mod ast;
pub mod builtins;
pub mod document;
pub mod error;
pub mod eval;
pub mod grammar;
pub mod laws;
pub mod navigator;
pub mod parser;
pub mod scope;
pub mod semantics;
pub mod text;
pub mod value;
