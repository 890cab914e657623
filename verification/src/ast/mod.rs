//! The abstract syntax tree of a Beach program and the builders that assemble it.

pub mod builder;
pub mod builders;
pub mod node;
