//! Evaluation of programs.
//!
//! Each evaluating function comes in two parts: a core that carries a fuel and
//! reports every outcome, `Eval`, and a public function that runs the core with
//! the full budget on inputs where it completes, and gives its result.

pub mod ast;
pub mod expression;
pub mod function;
pub mod if_statement;
pub mod intrinsics;
pub mod laws;
pub mod node;
pub mod operation;
pub mod semantics;
