//! Parsing `if` statements.

use vstd::prelude::*;

use crate::ast::node::{nodes_view, ElseIfBlock, Expression, IfStatement, IfV, Node};
use crate::token_stream::expression::take_expression;
use crate::token_stream::grammar::{else_message, guarded_block, if_rest, if_statement, Parse};
use crate::token_stream::token::{
    ensure_token, failure, get_block_statements, outcome, parsed_end, tokens_view, Parsed, Token,
};

verus! {

/// Takes a check in parentheses and a block from `pos`: `(`, an expression,
/// `)`, `{`, and the block's statements up to `}`.
pub fn take_guarded_block(tokens: &Vec<Token>, pos: usize) -> (r: Parsed<(Expression, Vec<Node>)>)
    requires
        pos <= tokens@.len(),
    ensures
        outcome(r, |x: (Expression, Vec<Node>)| (x.0@, nodes_view(x.1@))) == guarded_block(
            tokens_view(tokens@),
            pos as nat,
        ),
        pos <= parsed_end(r) <= tokens@.len(),
        r is Ok ==> parsed_end(r) > pos,
    decreases tokens@.len() - pos, 3nat,
{
    let p1 = match ensure_token(tokens, pos, Token::LeftParenthesis) {
        Ok(p) => p,
        Err(e) => {
            return Err(e);
        },
    };
    let (check_expression, p2) = match take_expression(tokens, p1) {
        Ok(x) => x,
        Err(e) => {
            return Err(e);
        },
    };
    let p3 = match ensure_token(tokens, p2, Token::RightParenthesis) {
        Ok(p) => p,
        Err(e) => {
            return Err(e);
        },
    };
    let p4 = match ensure_token(tokens, p3, Token::LeftCurleyBrace) {
        Ok(p) => p,
        Err(e) => {
            return Err(e);
        },
    };
    match get_block_statements(tokens, p4) {
        Ok((statements, p)) => Ok(((check_expression, statements), p)),
        Err(e) => Err(e),
    }
}

/// The message for a token that cannot follow `else`.
fn else_error_message() -> (s: String)
    ensures
        s@ == else_message(),
{
    let mut message = "Expected ".to_owned();
    message.append(Token::IfKeyword.text().as_str());
    message.append(" or ");
    message.append(Token::LeftCurleyBrace.text().as_str());
    message
}

/// Takes an `if` statement from `pos`, after `if`: its check and block, then
/// any `else if` blocks and an `else` block.
pub fn try_create_if_statement(tokens: &Vec<Token>, pos: usize) -> (r: Parsed<IfStatement>)
    requires
        pos <= tokens@.len(),
    ensures
        outcome(r, |s: IfStatement| s@) == if_statement(tokens_view(tokens@), pos as nat),
        pos <= parsed_end(r) <= tokens@.len(),
    decreases tokens@.len() - pos, 5nat,
{
    let ghost toks = tokens_view(tokens@);
    let ((check_expression, statements), p) = match take_guarded_block(tokens, pos) {
        Ok(x) => x,
        Err(e) => {
            return Err(e);
        },
    };
    let mut else_if_blocks: Vec<ElseIfBlock> = Vec::new();
    let mut found_else = false;
    let mut q = p;
    assert(else_if_blocks@.map_values(|b: ElseIfBlock| b@) =~= Seq::empty());
    loop
        invariant
            pos < q <= tokens@.len(),
            toks == tokens_view(tokens@),
            if_statement(toks, pos as nat) == if_rest(
                toks,
                q as nat,
                check_expression@,
                nodes_view(statements@),
                else_if_blocks@.map_values(|b: ElseIfBlock| b@),
                found_else,
            ),
        decreases tokens@.len() - q,
    {
        if q >= tokens.len() {
            if found_else {
                return failure(else_error_message(), q);
            }
            return Ok((build_if_statement(check_expression, statements, None, else_if_blocks), q));
        }
        assert(toks[q as int] == tokens@[q as int]@);
        match &tokens[q] {
            Token::ElseKeyword => {
                if found_else {
                    return failure(else_error_message(), q + 1);
                }
                found_else = true;
                q = q + 1;
            },
            Token::LeftCurleyBrace if found_else => {
                match get_block_statements(tokens, q + 1) {
                    Ok((else_statements, p2)) => {
                        return Ok(
                            (
                                build_if_statement(
                                    check_expression,
                                    statements,
                                    Some(else_statements),
                                    else_if_blocks,
                                ),
                                p2,
                            ),
                        );
                    },
                    Err(e) => {
                        return Err(e);
                    },
                }
            },
            Token::IfKeyword if found_else => {
                match take_guarded_block(tokens, q + 1) {
                    Ok(((check, block), p2)) => {
                        let ghost before = else_if_blocks@.map_values(|b: ElseIfBlock| b@);
                        let b = ElseIfBlock { check, block };
                        let ghost bv = b@;
                        else_if_blocks.push(b);
                        assert(else_if_blocks@.map_values(|b: ElseIfBlock| b@) =~= before.push(bv));
                        found_else = false;
                        q = p2;
                    },
                    Err(e) => {
                        return Err(e);
                    },
                }
            },
            _ => {
                if found_else {
                    return failure(else_error_message(), q + 1);
                }
                return Ok((build_if_statement(check_expression, statements, None, else_if_blocks), q));
            },
        }
    }
}

/// The `if` statement with the check `check_expression`, the block
/// `statements`, the `else` block `else_statements` if any, and the `else if`
/// blocks `else_if_blocks`.
fn build_if_statement(
    check_expression: Expression,
    statements: Vec<Node>,
    else_statements: Option<Vec<Node>>,
    else_if_blocks: Vec<ElseIfBlock>,
) -> (s: IfStatement)
    ensures
        s@ == (IfV {
            check: check_expression@,
            if_block: nodes_view(statements@),
            else_ifs: else_if_blocks@.map_values(|b: ElseIfBlock| b@),
            else_block: match else_statements {
                Some(b) => Some(nodes_view(b@)),
                None => None,
            },
        }),
{
    IfStatement {
        check_expression,
        if_block: statements,
        else_if_blocks,
        else_block: else_statements,
    }
}

} // verus!
