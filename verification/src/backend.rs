//! From instructions to machine code: the call sites that are patched once
//! the layout of the code is known.

pub mod aarch64;
pub mod call;
pub mod link;
