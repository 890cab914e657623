//! Parsing calls.

use vstd::prelude::*;

use crate::ast::node::{exprs_view, Expression, FunctionCall, FunctionId};
use crate::token_stream::expression::take_expression;
use crate::token_stream::grammar::{arguments, function_call};
use crate::token_stream::token::{
    ensure_token, failure, outcome, parsed_end, tokens_view, Parsed, Token,
};

verus! {

/// Takes a call of `identifier` from `pos`: `(`, then argument expressions
/// separated by commas, then `)`.
pub fn take_function_call(identifier: String, tokens: &Vec<Token>, pos: usize) -> (r: Parsed<
    FunctionCall,
>)
    requires
        pos <= tokens@.len(),
    ensures
        outcome(r, |c: FunctionCall| c@) == function_call(tokens_view(tokens@), identifier@, pos as nat),
        pos <= parsed_end(r) <= tokens@.len(),
        r is Ok ==> parsed_end(r) > pos,
    decreases tokens@.len() - pos, 7nat,
{
    let ghost toks = tokens_view(tokens@);
    let ghost id = identifier@;
    let mut p = match ensure_token(tokens, pos, Token::LeftParenthesis) {
        Ok(p) => p,
        Err(e) => {
            return Err(e);
        },
    };
    let mut params: Vec<Expression> = Vec::new();
    let mut found_comma = false;
    assert(exprs_view(params@) =~= Seq::empty());
    loop
        invariant
            pos < p <= tokens@.len(),
            toks == tokens_view(tokens@),
            id == identifier@,
            function_call(toks, id, pos as nat) == arguments(
                toks,
                id,
                p as nat,
                exprs_view(params@),
                found_comma,
            ),
        decreases tokens@.len() - p,
    {
        if p >= tokens.len() {
            return failure("unexpected end of function call".to_owned(), p);
        }
        assert(toks[p as int] == tokens@[p as int]@);
        match &tokens[p] {
            Token::RightParenthesis => {
                return Ok(
                    (FunctionCall { function_id: FunctionId(identifier), parameters: params }, p + 1),
                );
            },
            Token::Comma => {
                if params.len() == 0 {
                    return failure("unexpected ,".to_owned(), p + 1);
                }
                found_comma = true;
                p = p + 1;
            },
            _ => {
                if params.len() > 0 && !found_comma {
                    return failure("Require comma separating parameters".to_owned(), p + 1);
                }
                found_comma = false;
                match take_expression(tokens, p) {
                    Ok((e, q)) => {
                        let ghost before = exprs_view(params@);
                        params.push(e);
                        assert(exprs_view(params@) =~= before.push(e@));
                        p = q;
                    },
                    Err(e) => {
                        return Err(e);
                    },
                }
            },
        }
    }
}

} // verus!
