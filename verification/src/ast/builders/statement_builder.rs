//! Building statements.

use vstd::prelude::*;

use crate::ast::builders::expression_builder::ExpressionBuilder;
use crate::ast::builders::function_call_builder::FunctionCallBuilder;
use crate::ast::builders::if_statement_builder::IfStatementBuilder;
use crate::ast::builders::variable_declaration_builder::VariableDeclarationBuilder;
use crate::ast::node::{Expression, FunctionCall, Node};

verus! {

/// Builds one statement.
pub struct StatementBuilder {}

impl Default for StatementBuilder {
    fn default() -> (b: Self)
        ensures
            b == (StatementBuilder {}),
    {
        StatementBuilder {}
    }
}

impl StatementBuilder {
    /// A `return` statement without a value.
    pub fn return_void(self) -> (n: Node)
        ensures
            n == (Node::FunctionReturn { return_value: None }),
    {
        Node::FunctionReturn { return_value: None }
    }

    /// A variable declaration, built by `var_declaration_fn` from an empty
    /// declaration builder.
    pub fn var_declaration<F: FnOnce(VariableDeclarationBuilder) -> Node>(self, var_declaration_fn: F) -> (n:
        Node)
        requires
            call_requires(
                var_declaration_fn,
                (VariableDeclarationBuilder { var_name: None, var_type: None },),
            ),
        ensures
            call_ensures(
                var_declaration_fn,
                (VariableDeclarationBuilder { var_name: None, var_type: None },),
                n,
            ),
    {
        var_declaration_fn(VariableDeclarationBuilder { var_name: None, var_type: None })
    }

    /// An `if` statement, built by `if_statement_fn` from a new `if`
    /// statement builder.
    pub fn if_statement<F: FnOnce(IfStatementBuilder) -> Node>(self, if_statement_fn: F) -> (n: Node)
        requires
            forall|b: IfStatementBuilder| b.is_new() ==> call_requires(if_statement_fn, (b,)),
        ensures
            exists|b: IfStatementBuilder| b.is_new() && call_ensures(if_statement_fn, (b,), n),
    {
        let b = IfStatementBuilder::new();
        let ghost g = b;
        let n = if_statement_fn(b);
        assert(g.is_new() && call_ensures(if_statement_fn, (g,), n));
        n
    }

    /// A call statement, the call built by `function_call_fn` from an empty
    /// call builder.
    pub fn function_call<F: FnOnce(FunctionCallBuilder) -> FunctionCall>(self, function_call_fn: F) -> (n:
        Node)
        requires
            call_requires(
                function_call_fn,
                (FunctionCallBuilder { function_id: None, parameters: None },),
            ),
        ensures
            n matches Node::FunctionCall(c) && call_ensures(
                function_call_fn,
                (FunctionCallBuilder { function_id: None, parameters: None },),
                c,
            ),
    {
        Node::FunctionCall(function_call_fn(FunctionCallBuilder { function_id: None, parameters: None }))
    }

    /// A `return` statement with the value built by `expression`.
    pub fn return_value<F: FnOnce(ExpressionBuilder) -> Expression>(self, expression: F) -> (n: Node)
        requires
            call_requires(expression, (ExpressionBuilder {},)),
        ensures
            n matches Node::FunctionReturn { return_value: Some(e) } && call_ensures(
                expression,
                (ExpressionBuilder {},),
                e,
            ),
    {
        Node::FunctionReturn { return_value: Some(expression(ExpressionBuilder {})) }
    }
}

} // verus!
