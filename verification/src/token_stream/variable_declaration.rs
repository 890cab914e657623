//! Parsing variable declarations.

use vstd::prelude::*;

use crate::ast::node::{Node, VariableDeclarationType};
use crate::token_stream::expression::take_expression;
use crate::token_stream::grammar::{first_semicolon, variable_declaration};
use crate::token_stream::token::{failure, outcome, parsed_end, tokens_view, Parsed, Token};

verus! {

/// The position of the first `;` at or after `pos`, if any.
fn find_semicolon(tokens: &Vec<Token>, pos: usize) -> (r: Option<usize>)
    requires
        pos <= tokens@.len(),
    ensures
        match r {
            Some(k) => first_semicolon(tokens_view(tokens@), pos as nat) == Some(k as nat) && pos <= k
                < tokens@.len(),
            None => first_semicolon(tokens_view(tokens@), pos as nat) is None,
        },
{
    let ghost toks = tokens_view(tokens@);
    let mut i = pos;
    while i < tokens.len()
        invariant
            pos <= i <= tokens@.len(),
            toks == tokens_view(tokens@),
            first_semicolon(toks, pos as nat) == first_semicolon(toks, i as nat),
        decreases tokens@.len() - i,
    {
        assert(toks[i as int] == tokens@[i as int]@);
        if let Token::SemiColon = &tokens[i] {
            return Some(i);
        }
        i += 1;
    }
    None
}

/// A copy of the tokens from `from` up to `to`.
fn copy_tokens(tokens: &Vec<Token>, from: usize, to: usize) -> (sub: Vec<Token>)
    requires
        from <= to <= tokens@.len(),
    ensures
        tokens_view(sub@) == tokens_view(tokens@).subrange(from as int, to as int),
{
    let mut sub: Vec<Token> = Vec::new();
    let mut i = from;
    while i < to
        invariant
            from <= i <= to <= tokens@.len(),
            tokens_view(sub@) =~= tokens_view(tokens@).subrange(from as int, i as int),
        decreases to - i,
    {
        let ghost before = sub@;
        sub.push(tokens[i].duplicate());
        assert(tokens_view(sub@) =~= tokens_view(before).push(tokens@[i as int]@));
        i += 1;
    }
    sub
}

/// A variable declaration of type `var_type` after its type or `infer`: every
/// token up to the first `;` is taken, with the `;`; they must be the
/// variable's name, `=` and an expression.
pub fn try_create_variable_declaration(
    var_type: VariableDeclarationType,
    tokens: &Vec<Token>,
    pos: usize,
) -> (r: Parsed<Node>)
    requires
        pos <= tokens@.len(),
    ensures
        outcome(r, |n: Node| n@) == variable_declaration(tokens_view(tokens@), var_type, pos as nat),
        pos <= parsed_end(r) <= tokens@.len(),
{
    let k = match find_semicolon(tokens, pos) {
        Some(k) => k,
        None => {
            return failure("expected ;".to_owned(), tokens.len());
        },
    };
    let n = tokens.len();
    assert(k < n);
    let after = k + 1;
    let sub = copy_tokens(tokens, pos, k);
    let ghost s = tokens_view(sub@);
    let name = if sub.len() > 0 {
        assert(s[0] == sub@[0]@);
        match &sub[0] {
            Token::Identifier(name) => name.clone(),
            _ => {
                return failure("expected variable identifier".to_owned(), after);
            },
        }
    } else {
        return failure("expected variable identifier".to_owned(), after);
    };
    let assigned = if sub.len() > 1 {
        assert(s[1] == sub@[1]@);
        match &sub[1] {
            Token::AssignmentOperator => true,
            _ => false,
        }
    } else {
        false
    };
    if !assigned {
        return failure("expected assignment operator \"=\"".to_owned(), after);
    }
    match take_expression(&sub, 2) {
        Ok((value, _)) => Ok((Node::VariableDeclaration { var_type, var_name: name, value }, after)),
        Err((errors, _)) => Err((errors, after)),
    }
}

} // verus!
