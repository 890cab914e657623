//! Parsing function declarations.

use vstd::prelude::*;

use crate::ast::node::{
    params_view, FunctionDeclaration, FunctionId, FunctionParameter, FunctionReturnType,
};
use crate::token_stream::grammar::{function_declaration, parameters, return_type};
use crate::token_stream::token::{
    ensure_token, failure, get_block_statements, outcome, parsed_end, tokens_view, Parsed, Token,
};

verus! {

/// Takes the parameters of a function declaration from `pos`, after `(`, up
/// to and with `)`: typed names separated by commas.
fn take_parameters(tokens: &Vec<Token>, pos: usize) -> (r: Parsed<Vec<FunctionParameter>>)
    requires
        pos <= tokens@.len(),
    ensures
        outcome(r, |v: Vec<FunctionParameter>| params_view(v@)) == parameters(
            tokens_view(tokens@),
            pos as nat,
            Seq::empty(),
            false,
        ),
        pos <= parsed_end(r) <= tokens@.len(),
{
    let ghost toks = tokens_view(tokens@);
    let mut params: Vec<FunctionParameter> = Vec::new();
    let mut found_comma = false;
    let mut p = pos;
    assert(params_view(params@) =~= Seq::empty());
    loop
        invariant
            pos <= p <= tokens@.len(),
            toks == tokens_view(tokens@),
            parameters(toks, pos as nat, Seq::empty(), false) == parameters(
                toks,
                p as nat,
                params_view(params@),
                found_comma,
            ),
        decreases tokens@.len() - p,
    {
        if p >= tokens.len() {
            return failure("expected type or )".to_owned(), p);
        }
        assert(toks[p as int] == tokens@[p as int]@);
        match &tokens[p] {
            Token::RightParenthesis => {
                return Ok((params, p + 1));
            },
            Token::Comma => {
                found_comma = true;
                p = p + 1;
            },
            Token::TypeKeyword(param_type) => {
                if !found_comma && params.len() > 0 {
                    return failure("expected , or )".to_owned(), p + 1);
                }
                if p + 1 >= tokens.len() {
                    return failure("expected parameter name".to_owned(), p + 1);
                }
                assert(toks[p + 1] == tokens@[p + 1]@);
                match &tokens[p + 1] {
                    Token::Identifier(identifier) => {
                        let ghost before = params_view(params@);
                        let param = FunctionParameter::FunctionParameter {
                            param_type: *param_type,
                            param_name: identifier.clone(),
                        };
                        let ghost pv = param@;
                        params.push(param);
                        assert(params_view(params@) =~= before.push(pv));
                        found_comma = false;
                        p = p + 2;
                    },
                    _ => {
                        return failure("expected parameter name".to_owned(), p + 2);
                    },
                }
            },
            _ => {
                return failure("expected type, ',', or )".to_owned(), p + 1);
            },
        }
    }
}

/// Takes the return type of a function declaration from `pos`, after its
/// parameters, up to and with the `{` that opens its body.
fn take_return_type(tokens: &Vec<Token>, pos: usize) -> (r: Parsed<FunctionReturnType>)
    requires
        pos <= tokens@.len(),
    ensures
        outcome(r, |t: FunctionReturnType| t) == return_type(tokens_view(tokens@), pos as nat),
        pos <= parsed_end(r) <= tokens@.len(),
{
    let ghost toks = tokens_view(tokens@);
    if pos >= tokens.len() {
        return failure("Expected -> or {".to_owned(), pos);
    }
    assert(toks[pos as int] == tokens@[pos as int]@);
    match &tokens[pos] {
        Token::FunctionSignitureSplitter => {
            if pos + 1 >= tokens.len() {
                return failure("Expected return type".to_owned(), pos + 1);
            }
            assert(toks[pos + 1] == tokens@[pos + 1]@);
            match &tokens[pos + 1] {
                Token::TypeKeyword(t) => match ensure_token(tokens, pos + 2, Token::LeftCurleyBrace) {
                    Ok(p) => Ok((FunctionReturnType::Type(*t), p)),
                    Err(e) => Err(e),
                },
                _ => failure("Expected return type".to_owned(), pos + 2),
            }
        },
        Token::LeftCurleyBrace => Ok((FunctionReturnType::Void, pos + 1)),
        _ => failure("Expected -> or {".to_owned(), pos + 1),
    }
}

/// Takes a function declaration from `pos`, after `function`: its name, its
/// parameters in parentheses, `->` and a return type if it has one, and its
/// body in braces.
pub fn build_function_declaration(tokens: &Vec<Token>, pos: usize) -> (r: Parsed<
    FunctionDeclaration,
>)
    requires
        pos <= tokens@.len(),
    ensures
        outcome(r, |d: FunctionDeclaration| d@) == function_declaration(
            tokens_view(tokens@),
            pos as nat,
        ),
        pos <= parsed_end(r) <= tokens@.len(),
{
    let ghost toks = tokens_view(tokens@);
    if pos >= tokens.len() {
        return failure("expected function name".to_owned(), pos);
    }
    assert(toks[pos as int] == tokens@[pos as int]@);
    let function_name = match &tokens[pos] {
        Token::Identifier(function_name) => function_name.clone(),
        token => {
            let mut message = "expected function name. found ".to_owned();
            message.append(token.text().as_str());
            return failure(message, pos + 1);
        },
    };
    let p1 = match ensure_token(tokens, pos + 1, Token::LeftParenthesis) {
        Ok(p) => p,
        Err(e) => {
            return Err(e);
        },
    };
    let (params, p2) = match take_parameters(tokens, p1) {
        Ok(x) => x,
        Err(e) => {
            return Err(e);
        },
    };
    let (return_type, p3) = match take_return_type(tokens, p2) {
        Ok(x) => x,
        Err(e) => {
            return Err(e);
        },
    };
    let (statements, p) = match get_block_statements(tokens, p3) {
        Ok(x) => x,
        Err(e) => {
            return Err(e);
        },
    };
    Ok(
        (
            FunctionDeclaration {
                id: FunctionId(function_name.clone()),
                name: function_name,
                parameters: params,
                return_type,
                body: statements,
            },
            p,
        ),
    )
}

} // verus!
