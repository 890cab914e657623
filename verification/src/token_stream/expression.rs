//! Parsing expressions.

use vstd::prelude::*;

use crate::ast::node::{
    lemma_call_view, BinaryOperation, BoolValue, Expression, FunctionCall, Operation, UIntValue,
    UnaryOperation, Value,
};
use crate::token_stream::function_call::take_function_call;
use crate::token_stream::grammar::{
    binary_expression, binary_operator, expression, expression_rest, function_call,
    identifier_expression, operand_rest, starts_operand, Parse,
};
use crate::token_stream::token::{
    failure, outcome, parsed_end, tokens_view, Parsed, Token, TokenStreamError,
};

verus! {

/// The model of an optional expression.
pub open spec fn optional_expression(e: Option<Expression>) -> Option<crate::ast::node::ExprV> {
    match e {
        Some(x) => Some(x@),
        None => None,
    }
}

/// Takes an expression from `pos`: operands joined by `+` and `>`, each
/// operator taking the whole expression that follows as its right operand.
/// It ends before the first token that cannot continue it.
pub fn take_expression(tokens: &Vec<Token>, pos: usize) -> (r: Parsed<Expression>)
    requires
        pos <= tokens@.len(),
    ensures
        outcome(r, |e: Expression| e@) == expression(tokens_view(tokens@), pos as nat),
        pos <= parsed_end(r) <= tokens@.len(),
        r is Ok ==> parsed_end(r) > pos,
    decreases tokens@.len() - pos, 3nat,
{
    let ghost toks = tokens_view(tokens@);
    let mut acc: Option<Expression> = None;
    let mut p = pos;
    loop
        invariant
            pos <= p <= tokens@.len(),
            toks == tokens_view(tokens@),
            expression(toks, pos as nat) == expression_rest(toks, p as nat, optional_expression(acc)),
            acc is Some ==> p > pos,
        decreases tokens@.len() - p,
    {
        if p >= tokens.len() {
            match acc {
                Some(e) => {
                    return Ok((e, p));
                },
                None => {
                    return failure("expected expression".to_owned(), p);
                },
            }
        }
        let token = &tokens[p];
        assert(toks[p as int] == token@);
        let operand_start = match token {
            Token::FalseKeyword | Token::TrueKeyword | Token::UIntValue(_) | Token::Identifier(_)
            | Token::NotOperator => true,
            _ => false,
        };
        if operand_start && acc.is_some() {
            return failure("expected +, > or (".to_owned(), p + 1);
        }
        let r = match token {
            Token::FalseKeyword => take_value_expression(
                tokens,
                Expression::ValueLiteral(Value::Boolean(BoolValue(false))),
                p + 1,
            ),
            Token::TrueKeyword => take_value_expression(
                tokens,
                Expression::ValueLiteral(Value::Boolean(BoolValue(true))),
                p + 1,
            ),
            Token::UIntValue(value) => take_value_expression(
                tokens,
                Expression::ValueLiteral(Value::UInt(UIntValue(*value))),
                p + 1,
            ),
            Token::Identifier(identifier) => take_identifier_expression(
                tokens,
                identifier.clone(),
                p + 1,
            ),
            Token::NotOperator => match take_expression(tokens, p + 1) {
                Ok((value, q)) => Ok(
                    (
                        Expression::Operation(
                            Operation::Unary { operation: UnaryOperation::Not, value: Box::new(value) },
                        ),
                        q,
                    ),
                ),
                Err(e) => Err(e),
            },
            Token::PlusOperator => match acc {
                Some(left) => take_binary_operation_expression(
                    tokens,
                    BinaryOperation::Plus,
                    left,
                    p + 1,
                ),
                None => {
                    return failure("Expected expression".to_owned(), p + 1);
                },
            },
            Token::RightAngle => match acc {
                Some(left) => take_binary_operation_expression(
                    tokens,
                    BinaryOperation::GreaterThan,
                    left,
                    p + 1,
                ),
                None => {
                    return failure("Expected expression".to_owned(), p + 1);
                },
            },
            _ => match acc {
                Some(e) => {
                    return Ok((e, p));
                },
                None => {
                    let mut message = "unexpected token ".to_owned();
                    message.append(token.text().as_str());
                    return failure(message, p + 1);
                },
            },
        };
        match r {
            Ok((e, q)) => {
                acc = Some(e);
                p = q;
            },
            Err(e) => {
                return Err(e);
            },
        }
    }
}

/// What follows an operand `value` at `pos`: `+` or `>` and the right
/// operand, or nothing.
fn take_value_expression(tokens: &Vec<Token>, value: Expression, pos: usize) -> (r: Parsed<
    Expression,
>)
    requires
        pos <= tokens@.len(),
    ensures
        outcome(r, |e: Expression| e@) == operand_rest(tokens_view(tokens@), value@, pos as nat),
        pos <= parsed_end(r) <= tokens@.len(),
    decreases tokens@.len() - pos, 5nat,
{
    if pos < tokens.len() {
        match &tokens[pos] {
            Token::PlusOperator => {
                return take_binary_operation_expression(tokens, BinaryOperation::Plus, value, pos + 1);
            },
            Token::RightAngle => {
                return take_binary_operation_expression(
                    tokens,
                    BinaryOperation::GreaterThan,
                    value,
                    pos + 1,
                );
            },
            _ => {},
        }
    }
    Ok((value, pos))
}

/// A binary operation `operation` whose left operand is `left_expression`: the
/// right operand is the expression at `pos`.
fn take_binary_operation_expression(
    tokens: &Vec<Token>,
    operation: BinaryOperation,
    left_expression: Expression,
    pos: usize,
) -> (r: Parsed<Expression>)
    requires
        pos <= tokens@.len(),
    ensures
        outcome(r, |e: Expression| e@) == binary_expression(
            tokens_view(tokens@),
            operation,
            left_expression@,
            pos as nat,
        ),
        pos <= parsed_end(r) <= tokens@.len(),
    decreases tokens@.len() - pos, 4nat,
{
    match take_expression(tokens, pos) {
        Ok((right_expression, p)) => Ok(
            (
                Expression::Operation(
                    Operation::Binary {
                        operation,
                        left: Box::new(left_expression),
                        right: Box::new(right_expression),
                    },
                ),
                p,
            ),
        ),
        Err(e) => Err(e),
    }
}

/// An expression that starts with `identifier`, whose next token is at
/// `pos`: a call if a `(` follows, else a variable.
fn take_identifier_expression(tokens: &Vec<Token>, identifier: String, pos: usize) -> (r: Parsed<
    Expression,
>)
    requires
        pos <= tokens@.len(),
    ensures
        outcome(r, |e: Expression| e@) == identifier_expression(
            tokens_view(tokens@),
            identifier@,
            pos as nat,
        ),
        pos <= parsed_end(r) <= tokens@.len(),
    decreases tokens@.len() - pos, 9nat,
{
    if pos < tokens.len() {
        if let Token::LeftParenthesis = &tokens[pos] {
            return take_function_call_expression(tokens, pos, identifier);
        }
    }
    Ok((Expression::VariableAccess(identifier), pos))
}

/// A call of `identifier`, as an expression.
fn take_function_call_expression(tokens: &Vec<Token>, pos: usize, identifier: String) -> (r: Parsed<
    Expression,
>)
    requires
        pos <= tokens@.len(),
    ensures
        outcome(r, |e: Expression| e@) == match function_call(
            tokens_view(tokens@),
            identifier@,
            pos as nat,
        ) {
            Parse::Built(c, p) => Parse::Built(crate::ast::node::ExprV::Call(c), p),
            Parse::Failed(m, p) => Parse::Failed(m, p),
        },
        pos <= parsed_end(r) <= tokens@.len(),
    decreases tokens@.len() - pos, 8nat,
{
    match take_function_call(identifier, tokens, pos) {
        Ok((function_call, p)) => {
            proof {
                lemma_call_view(function_call);
            }
            Ok((Expression::FunctionCall(function_call), p))
        },
        Err(e) => Err(e),
    }
}

} // verus!
