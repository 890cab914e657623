//! Parsing statements.

use vstd::prelude::*;

use crate::ast::node::{lemma_call_view, lemma_if_view, Expression, Node, NodeV, VariableDeclarationType};
use crate::token_stream::expression::take_expression;
use crate::token_stream::function_call::take_function_call;
use crate::token_stream::grammar::{call_statement, return_statement, statement, Parse};
use crate::token_stream::if_statement::try_create_if_statement;
use crate::token_stream::token::{
    ensure_token, failure, outcome, parsed_end, tokens_view, Parsed, Token,
};
use crate::token_stream::variable_declaration::try_create_variable_declaration;

verus! {

/// The model of an optional statement.
pub open spec fn optional_node(n: Option<Node>) -> Option<NodeV> {
    match n {
        Some(x) => Some(x@),
        None => None,
    }
}

/// Takes a statement from `pos` if the token there starts one: a call, a
/// variable declaration, an `if` statement or a `return` statement. Otherwise
/// gives nothing and leaves the token in place.
pub fn try_create_statement(tokens: &Vec<Token>, pos: usize) -> (r: Parsed<Option<Node>>)
    requires
        pos <= tokens@.len(),
    ensures
        outcome(r, |n: Option<Node>| optional_node(n)) == statement(tokens_view(tokens@), pos as nat),
        parsed_end(r) <= tokens@.len(),
        r matches Ok((None, p)) ==> p == pos,
        r matches Ok((Some(_), p)) ==> p > pos,
        r matches Err((_, p)) ==> p > pos,
    decreases tokens@.len() - pos, 1nat,
{
    if pos >= tokens.len() {
        return Ok((None, pos));
    }
    let ghost toks = tokens_view(tokens@);
    assert(toks[pos as int] == tokens@[pos as int]@);
    let r = match &tokens[pos] {
        Token::Identifier(identifier) => take_function_call_statement(identifier.clone(), tokens, pos + 1),
        Token::TypeKeyword(var_type) => try_create_variable_declaration(
            VariableDeclarationType::Type(*var_type),
            tokens,
            pos + 1,
        ),
        Token::InferKeyword => try_create_variable_declaration(
            VariableDeclarationType::Infer,
            tokens,
            pos + 1,
        ),
        Token::IfKeyword => match try_create_if_statement(tokens, pos + 1) {
            Ok((if_statement, p)) => {
                proof {
                    lemma_if_view(if_statement);
                }
                Ok((Node::IfStatement(if_statement), p))
            },
            Err(e) => Err(e),
        },
        Token::ReturnKeyword => take_return_statement(tokens, pos + 1),
        _ => {
            return Ok((None, pos));
        },
    };
    match r {
        Ok((node, p)) => Ok((Some(node), p)),
        Err(e) => Err(e),
    }
}

/// A call statement of `identifier`: the call, then `;`.
fn take_function_call_statement(identifier: String, tokens: &Vec<Token>, pos: usize) -> (r: Parsed<
    Node,
>)
    requires
        pos <= tokens@.len(),
    ensures
        outcome(r, |n: Node| n@) == call_statement(tokens_view(tokens@), identifier@, pos as nat),
        pos <= parsed_end(r) <= tokens@.len(),
{
    let (function_call, p) = match take_function_call(identifier, tokens, pos) {
        Ok(x) => x,
        Err(e) => {
            return Err(e);
        },
    };
    let q = match ensure_token(tokens, p, Token::SemiColon) {
        Ok(q) => q,
        Err(e) => {
            return Err(e);
        },
    };
    proof {
        lemma_call_view(function_call);
    }
    Ok((Node::FunctionCall(function_call), q))
}

/// A `return` statement after `return`: `;`, or an expression and `;`.
fn take_return_statement(tokens: &Vec<Token>, pos: usize) -> (r: Parsed<Node>)
    requires
        pos <= tokens@.len(),
    ensures
        outcome(r, |n: Node| n@) == return_statement(tokens_view(tokens@), pos as nat),
        pos <= parsed_end(r) <= tokens@.len(),
{
    if pos >= tokens.len() {
        return failure("expected ;".to_owned(), pos);
    }
    if let Token::SemiColon = &tokens[pos] {
        return Ok((build_return_statement(None), pos + 1));
    }
    let (expression, p) = match take_expression(tokens, pos) {
        Ok(x) => x,
        Err(e) => {
            return Err(e);
        },
    };
    let q = match ensure_token(tokens, p, Token::SemiColon) {
        Ok(q) => q,
        Err(e) => {
            return Err(e);
        },
    };
    Ok((build_return_statement(Some(expression)), q))
}

/// A `return` statement with the value `expression`, if any.
fn build_return_statement(expression: Option<Expression>) -> (n: Node)
    ensures
        n@ == (NodeV::Return {
            value: match expression {
                Some(e) => Some(e@),
                None => None,
            },
        }),
{
    Node::FunctionReturn { return_value: expression }
}

} // verus!
