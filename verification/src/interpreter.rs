//! A tree-walking interpreter for the scripting subset of the language.

pub mod ast;
pub mod builtin;
pub mod interpreter;
pub mod scope;
pub mod value;
