//! An interpreter for the Beach programming language: a lexer, a parser that
//! builds an abstract syntax tree, a type checker and an evaluator, each with a
//! contract stated over mathematical models of the syntax tree.

pub mod ast;
pub mod cli;
pub mod evaluation;
pub mod parsing;
pub mod table;
pub mod text;
pub mod token_stream;
pub mod type_checking;
