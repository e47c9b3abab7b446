//! Generation of the syntax-tree sources (node kinds, key fields and typed
//! AST wrappers) from a description of the syntax nodes.

pub mod ast;
pub mod blocks;
pub mod enums;
pub mod kinds;
pub mod laws;
pub mod lists;
pub mod spec;
pub mod structs;
pub mod text;
pub mod tokens;
