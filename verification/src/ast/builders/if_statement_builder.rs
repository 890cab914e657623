//! Building `if` statements.

use vstd::prelude::*;

use crate::ast::builders::ast_builder::AstBuilder;
use crate::ast::builders::expression_builder::ExpressionBuilder;
use crate::ast::node::{Ast, ElseIfBlock, Expression, IfStatement, Node};

verus! {

/// Builds one `if` statement: its check and its block once set, its `else if`
/// blocks, and its `else` block if set.
pub struct IfStatementBuilder {
    pub check_expression: Option<Expression>,
    pub body: Option<Vec<Node>>,
    pub else_if_blocks: Vec<ElseIfBlock>,
    pub else_block: Option<Vec<Node>>,
}

impl IfStatementBuilder {
    /// Nothing is set yet.
    pub open spec fn is_new(&self) -> bool {
        &&& self.check_expression is None
        &&& self.body is None
        &&& self.else_if_blocks@.len() == 0
        &&& self.else_block is None
    }

    /// A builder with nothing set.
    pub fn new() -> (b: Self)
        ensures
            b.is_new(),
    {
        IfStatementBuilder {
            check_expression: None,
            body: None,
            else_if_blocks: Vec::new(),
            else_block: None,
        }
    }

    /// Sets the check, built by `expression_fn`.
    pub fn check_expression<F: FnOnce(ExpressionBuilder) -> Expression>(self, expression_fn: F) -> (b: Self)
        requires
            call_requires(expression_fn, (ExpressionBuilder {},)),
        ensures
            b.check_expression matches Some(e) && call_ensures(expression_fn, (ExpressionBuilder {},), e),
            b.body == self.body,
            b.else_if_blocks == self.else_if_blocks,
            b.else_block == self.else_block,
    {
        let expression = expression_fn(ExpressionBuilder {});
        IfStatementBuilder {
            check_expression: Some(expression),
            body: self.body,
            else_if_blocks: self.else_if_blocks,
            else_block: self.else_block,
        }
    }

    /// Sets the block, the statements of the program built by `body_fn` from
    /// an empty program builder.
    pub fn body<F: FnOnce(AstBuilder) -> Ast>(self, body_fn: F) -> (b: Self)
        requires
            forall|e: AstBuilder| e.is_empty() ==> call_requires(body_fn, (e,)),
        ensures
            exists|e: AstBuilder, a: Ast|
                e.is_empty() && call_ensures(body_fn, (e,), a) && b.body == Some(a.nodes),
            b.check_expression == self.check_expression,
            b.else_if_blocks == self.else_if_blocks,
            b.else_block == self.else_block,
    {
        let e = AstBuilder::default();
        let ghost g = e;
        let body = body_fn(e);
        let ghost a = body;
        let b = IfStatementBuilder {
            check_expression: self.check_expression,
            body: Some(body.nodes),
            else_if_blocks: self.else_if_blocks,
            else_block: self.else_block,
        };
        assert(g.is_empty() && call_ensures(body_fn, (g,), a) && b.body == Some(a.nodes));
        b
    }

    /// Adds an `else if` block: its check built by `check_fn`, its statements
    /// those of the program built by `body_fn` from an empty program builder.
    pub fn else_if<C: FnOnce(ExpressionBuilder) -> Expression, B: FnOnce(AstBuilder) -> Ast>(
        self,
        check_fn: C,
        body_fn: B,
    ) -> (b: Self)
        requires
            call_requires(check_fn, (ExpressionBuilder {},)),
            forall|e: AstBuilder| e.is_empty() ==> call_requires(body_fn, (e,)),
        ensures
            b.else_if_blocks@.len() == self.else_if_blocks@.len() + 1,
            b.else_if_blocks@.drop_last() == self.else_if_blocks@,
            call_ensures(check_fn, (ExpressionBuilder {},), b.else_if_blocks@.last().check),
            exists|e: AstBuilder, a: Ast|
                e.is_empty() && call_ensures(body_fn, (e,), a) && b.else_if_blocks@.last().block
                    == a.nodes,
            b.check_expression == self.check_expression,
            b.body == self.body,
            b.else_block == self.else_block,
    {
        let check = check_fn(ExpressionBuilder {});
        let e = AstBuilder::default();
        let ghost g = e;
        let body = body_fn(e);
        let ghost a = body;
        let mut else_if_blocks = self.else_if_blocks;
        let ghost before = else_if_blocks@;
        else_if_blocks.push(ElseIfBlock { check, block: body.nodes });
        assert(else_if_blocks@.drop_last() =~= before);
        let b = IfStatementBuilder {
            check_expression: self.check_expression,
            body: self.body,
            else_if_blocks,
            else_block: self.else_block,
        };
        assert(g.is_empty() && call_ensures(body_fn, (g,), a) && b.else_if_blocks@.last().block
            == a.nodes);
        b
    }

    /// Sets the `else` block, the statements of the program built by
    /// `body_fn` from an empty program builder.
    pub fn else_block<F: FnOnce(AstBuilder) -> Ast>(self, body_fn: F) -> (b: Self)
        requires
            forall|e: AstBuilder| e.is_empty() ==> call_requires(body_fn, (e,)),
        ensures
            exists|e: AstBuilder, a: Ast|
                e.is_empty() && call_ensures(body_fn, (e,), a) && b.else_block == Some(a.nodes),
            b.check_expression == self.check_expression,
            b.body == self.body,
            b.else_if_blocks == self.else_if_blocks,
    {
        let e = AstBuilder::default();
        let ghost g = e;
        let body = body_fn(e);
        let ghost a = body;
        let b = IfStatementBuilder {
            check_expression: self.check_expression,
            body: self.body,
            else_if_blocks: self.else_if_blocks,
            else_block: Some(body.nodes),
        };
        assert(g.is_empty() && call_ensures(body_fn, (g,), a) && b.else_block == Some(a.nodes));
        b
    }

    /// The `if` statement; its check and its block must have been set.
    pub fn build(self) -> (n: Node)
        requires
            self.check_expression is Some,
            self.body is Some,
        ensures
            n == Node::IfStatement(
                IfStatement {
                    check_expression: self.check_expression->0,
                    if_block: self.body->0,
                    else_if_blocks: self.else_if_blocks,
                    else_block: self.else_block,
                },
            ),
    {
        match (self.check_expression, self.body) {
            (Some(check_expression), Some(if_block)) => Node::IfStatement(
                IfStatement {
                    check_expression,
                    if_block,
                    else_if_blocks: self.else_if_blocks,
                    else_block: self.else_block,
                },
            ),
            _ => vstd::pervasive::unreached(),
        }
    }
}

} // verus!
