//! Builders that assemble syntax trees step by step, each part given by a
//! function of a builder for that part.

pub mod ast_builder;
pub mod expression_builder;
pub mod function_call_builder;
pub mod function_declaration_builder;
pub mod if_statement_builder;
pub mod operation_builder;
pub mod statement_builder;
pub mod variable_declaration_builder;
