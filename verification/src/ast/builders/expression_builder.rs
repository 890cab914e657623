//! Building expressions.

use vstd::prelude::*;

use crate::ast::builders::function_call_builder::FunctionCallBuilder;
use crate::ast::builders::operation_builder::OperationBuilder;
use crate::ast::node::{Expression, FunctionCall, Operation, Value};

verus! {

/// Builds one expression.
pub struct ExpressionBuilder {}

impl Default for ExpressionBuilder {
    fn default() -> (b: Self)
        ensures
            b == (ExpressionBuilder {}),
    {
        ExpressionBuilder {}
    }
}

impl ExpressionBuilder {
    /// A call, built by `function_call_fn` from an empty call builder.
    pub fn function_call<F: FnOnce(FunctionCallBuilder) -> FunctionCall>(self, function_call_fn: F) -> (e:
        Expression)
        requires
            call_requires(
                function_call_fn,
                (FunctionCallBuilder { function_id: None, parameters: None },),
            ),
        ensures
            e matches Expression::FunctionCall(c) && call_ensures(
                function_call_fn,
                (FunctionCallBuilder { function_id: None, parameters: None },),
                c,
            ),
    {
        let function_call = function_call_fn(FunctionCallBuilder { function_id: None, parameters: None });
        Expression::FunctionCall(function_call)
    }

    /// The variable `variable_name`.
    pub fn variable(self, variable_name: &str) -> (e: Expression)
        ensures
            e matches Expression::VariableAccess(name) && name@ == variable_name@,
    {
        Expression::VariableAccess(variable_name.to_owned())
    }

    /// The literal `value`.
    pub fn value_literal(self, value: Value) -> (e: Expression)
        ensures
            e == Expression::ValueLiteral(value),
    {
        Expression::ValueLiteral(value)
    }

    /// An operation, built by `operation_fn`.
    pub fn operation<F: FnOnce(OperationBuilder) -> Operation>(self, operation_fn: F) -> (e: Expression)
        requires
            call_requires(operation_fn, (OperationBuilder {},)),
        ensures
            e matches Expression::Operation(o) && call_ensures(operation_fn, (OperationBuilder {},), o),
    {
        let operation = operation_fn(OperationBuilder {});
        Expression::Operation(operation)
    }
}

} // verus!
