//! Passes that rewrite a function's instructions without changing what the
//! function computes.

use vstd::prelude::*;

use crate::ir::Function;

pub mod register;
pub mod soundness;

verus! {

/// A pass over one function.
pub trait FunctionOptimizer {
    fn optimize(&mut self, function: &mut Function);
}

} // verus!
