//! What the language server computes for an editor: positions in a document
//! and the code actions that are offered at the cursor.

pub mod actions;
pub mod location;
pub mod text;
