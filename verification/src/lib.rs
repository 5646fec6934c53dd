//! Backend of a compiler for a small imperative language: a register-based
//! intermediate representation, a constant-propagating optimizer over it, and
//! the bookkeeping that patches call sites once the code layout is known.
//! Beside it stand the interpreter for the scripting subset of the language
//! and what the language server computes on documents.

pub mod backend;
pub mod interpreter;
pub mod ir;
pub mod lsp;
pub mod optimization;
pub mod semantics;
pub mod strings;
