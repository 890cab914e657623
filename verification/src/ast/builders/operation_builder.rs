//! Building operations.

use vstd::prelude::*;

use crate::ast::builders::expression_builder::ExpressionBuilder;
use crate::ast::node::{BinaryOperation, Expression, Operation, UnaryOperation};

verus! {

/// Builds one operation.
pub struct OperationBuilder {}

impl Default for OperationBuilder {
    fn default() -> (b: Self)
        ensures
            b == (OperationBuilder {}),
    {
        OperationBuilder {}
    }
}

impl OperationBuilder {
    /// `!` on the expression built by `expression_fn`.
    pub fn not<F: FnOnce(ExpressionBuilder) -> Expression>(self, expression_fn: F) -> (o: Operation)
        requires
            call_requires(expression_fn, (ExpressionBuilder {},)),
        ensures
            o matches Operation::Unary { operation: UnaryOperation::Not, value } && call_ensures(
                expression_fn,
                (ExpressionBuilder {},),
                *value,
            ),
    {
        Operation::Unary {
            operation: UnaryOperation::Not,
            value: Box::new(expression_fn(ExpressionBuilder {})),
        }
    }

    /// `>` on the expressions built by `left_fn` and `right_fn`.
    pub fn greater_than<L: FnOnce(ExpressionBuilder) -> Expression, R: FnOnce(ExpressionBuilder) -> Expression>(
        self,
        left_fn: L,
        right_fn: R,
    ) -> (o: Operation)
        requires
            call_requires(left_fn, (ExpressionBuilder {},)),
            call_requires(right_fn, (ExpressionBuilder {},)),
        ensures
            o matches Operation::Binary { operation: BinaryOperation::GreaterThan, left, right }
                && call_ensures(left_fn, (ExpressionBuilder {},), *left) && call_ensures(
                right_fn,
                (ExpressionBuilder {},),
                *right,
            ),
    {
        let left = left_fn(ExpressionBuilder {});
        let right = right_fn(ExpressionBuilder {});
        Operation::Binary {
            operation: BinaryOperation::GreaterThan,
            left: Box::new(left),
            right: Box::new(right),
        }
    }

    /// `+` on the expressions built by `left_fn` and `right_fn`.
    pub fn plus<L: FnOnce(ExpressionBuilder) -> Expression, R: FnOnce(ExpressionBuilder) -> Expression>(
        self,
        left_fn: L,
        right_fn: R,
    ) -> (o: Operation)
        requires
            call_requires(left_fn, (ExpressionBuilder {},)),
            call_requires(right_fn, (ExpressionBuilder {},)),
        ensures
            o matches Operation::Binary { operation: BinaryOperation::Plus, left, right }
                && call_ensures(left_fn, (ExpressionBuilder {},), *left) && call_ensures(
                right_fn,
                (ExpressionBuilder {},),
                *right,
            ),
    {
        let left = left_fn(ExpressionBuilder {});
        let right = right_fn(ExpressionBuilder {});
        Operation::Binary { operation: BinaryOperation::Plus, left: Box::new(left), right: Box::new(right) }
    }
}

} // verus!
