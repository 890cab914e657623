//! The parser: it builds a program from a stream of tokens.

pub mod expression;
pub mod function_call;
pub mod function_declaration;
pub mod grammar;
pub mod if_statement;
pub mod statement;
pub mod token;
pub mod variable_declaration;
