//! The grammar: what the parser builds from a token sequence, stated over
//! token models and syntax tree models.
//!
//! Each rule reads the tokens from a position and gives what it built with
//! the position after the tokens it took, or error messages with the position
//! where it stopped. A rule that puts a token back leaves the position on it.

use vstd::prelude::*;

use crate::ast::node::{
    BinaryOperation, BoolValue, CallV, ElseIfV, ExprV, FuncDeclV, FunctionReturnType, IfV, NodeV,
    OpV, ParamV, UIntValue, UnaryOperation, Value, VariableDeclarationType,
};
use crate::token_stream::token::{token_text, TokenV};

verus! {

/// Error messages, in the order they are reported.
pub type Messages = Seq<Seq<char>>;

/// The outcome of a rule.
pub enum Parse<T> {
    /// What was built, and the position after it.
    Built(T, nat),
    /// The errors, and the position where the rule stopped.
    Failed(Messages, nat),
}

/// A single message.
pub open spec fn fail<T>(m: Seq<char>, p: nat) -> Parse<T> {
    Parse::Failed(seq![m], p)
}

/// Taking the token `expected`.
pub open spec fn expect(toks: Seq<TokenV>, pos: nat, expected: TokenV) -> Parse<()> {
    if pos >= toks.len() {
        fail("Expected "@ + token_text(expected), pos)
    } else if toks[pos as int] == expected {
        Parse::Built((), pos + 1)
    } else {
        fail("Expected "@ + token_text(expected) + ", found "@ + token_text(toks[pos as int]), pos + 1)
    }
}

/// A token that starts an operand.
pub open spec fn starts_operand(t: TokenV) -> bool {
    ||| t is FalseKeyword
    ||| t is TrueKeyword
    ||| t is UIntValue
    ||| t is Identifier
    ||| t is NotOperator
}

/// The binary operation a token stands for.
pub open spec fn binary_operator(t: TokenV) -> Option<BinaryOperation> {
    match t {
        TokenV::PlusOperator => Some(BinaryOperation::Plus),
        TokenV::RightAngle => Some(BinaryOperation::GreaterThan),
        _ => None,
    }
}

/// An expression: operands joined by `+` and `>`, each operator taking the
/// whole expression that follows it as its right operand.
pub open spec fn expression(toks: Seq<TokenV>, pos: nat) -> Parse<ExprV>
    decreases toks.len() - pos, 3nat,
{
    expression_rest(toks, pos, None)
}

/// Continuing an expression whose part read so far is `acc`.
pub open spec fn expression_continue(toks: Seq<TokenV>, pos: nat, r: Parse<ExprV>) -> Parse<ExprV>
    decreases toks.len() - pos, 1nat,
{
    match r {
        Parse::Built(e, p) => if pos < p <= toks.len() {
            expression_rest(toks, p, Some(e))
        } else {
            Parse::Built(e, p)
        },
        Parse::Failed(m, p) => Parse::Failed(m, p),
    }
}

/// The rest of an expression whose part read so far, if any, is `acc`.
pub open spec fn expression_rest(toks: Seq<TokenV>, pos: nat, acc: Option<ExprV>) -> Parse<ExprV>
    decreases toks.len() - pos, 2nat,
{
    if pos >= toks.len() {
        match acc {
            Some(e) => Parse::Built(e, pos),
            None => fail("expected expression"@, pos),
        }
    } else {
        let t = toks[pos as int];
        if starts_operand(t) && acc is Some {
            fail("expected +, > or ("@, pos + 1)
        } else {
            match t {
                TokenV::FalseKeyword => expression_continue(
                    toks,
                    pos,
                    operand_rest(toks, ExprV::Literal(Value::Boolean(BoolValue(false))), pos + 1),
                ),
                TokenV::TrueKeyword => expression_continue(
                    toks,
                    pos,
                    operand_rest(toks, ExprV::Literal(Value::Boolean(BoolValue(true))), pos + 1),
                ),
                TokenV::UIntValue(v) => expression_continue(
                    toks,
                    pos,
                    operand_rest(toks, ExprV::Literal(Value::UInt(UIntValue(v))), pos + 1),
                ),
                TokenV::Identifier(id) => expression_continue(
                    toks,
                    pos,
                    identifier_expression(toks, id, pos + 1),
                ),
                TokenV::NotOperator => expression_continue(
                    toks,
                    pos,
                    match expression(toks, pos + 1) {
                        Parse::Built(v, p) => Parse::Built(
                            ExprV::Op(OpV::Unary { op: UnaryOperation::Not, value: Box::new(v) }),
                            p,
                        ),
                        Parse::Failed(m, p) => Parse::Failed(m, p),
                    },
                ),
                TokenV::PlusOperator | TokenV::RightAngle => match acc {
                    Some(a) => expression_continue(
                        toks,
                        pos,
                        binary_expression(toks, binary_operator(t)->0, a, pos + 1),
                    ),
                    None => fail("Expected expression"@, pos + 1),
                },
                _ => match acc {
                    Some(e) => Parse::Built(e, pos),
                    None => fail("unexpected token "@ + token_text(t), pos + 1),
                },
            }
        }
    }
}

/// What follows an operand: `+` or `>` and the right operand, or nothing.
pub open spec fn operand_rest(toks: Seq<TokenV>, v: ExprV, pos: nat) -> Parse<ExprV>
    decreases toks.len() - pos, 5nat,
{
    if pos < toks.len() && binary_operator(toks[pos as int]) is Some {
        binary_expression(toks, binary_operator(toks[pos as int])->0, v, pos + 1)
    } else {
        Parse::Built(v, pos)
    }
}

/// A binary operation whose left operand is `left`: the right operand is the
/// expression that follows.
pub open spec fn binary_expression(toks: Seq<TokenV>, op: BinaryOperation, left: ExprV, pos: nat) -> Parse<
    ExprV,
>
    decreases toks.len() - pos, 4nat,
{
    match expression(toks, pos) {
        Parse::Built(right, p) => Parse::Built(
            ExprV::Op(OpV::Binary { op, left: Box::new(left), right: Box::new(right) }),
            p,
        ),
        Parse::Failed(m, p) => Parse::Failed(m, p),
    }
}

/// An expression that starts with the identifier `id`: a call if a `(`
/// follows, else a variable.
pub open spec fn identifier_expression(toks: Seq<TokenV>, id: Seq<char>, pos: nat) -> Parse<ExprV>
    decreases toks.len() - pos, 8nat,
{
    if pos < toks.len() && toks[pos as int] is LeftParenthesis {
        match function_call(toks, id, pos) {
            Parse::Built(c, p) => Parse::Built(ExprV::Call(c), p),
            Parse::Failed(m, p) => Parse::Failed(m, p),
        }
    } else {
        Parse::Built(ExprV::Var(id), pos)
    }
}

/// A call of `id`: `(`, then argument expressions separated by commas, then
/// `)`.
pub open spec fn function_call(toks: Seq<TokenV>, id: Seq<char>, pos: nat) -> Parse<CallV>
    decreases toks.len() - pos, 7nat,
{
    match expect(toks, pos, TokenV::LeftParenthesis) {
        Parse::Built(_, p) => if pos < p <= toks.len() {
            arguments(toks, id, p, Seq::empty(), false)
        } else {
            Parse::Failed(Seq::empty(), p)
        },
        Parse::Failed(m, p) => Parse::Failed(m, p),
    }
}

/// The rest of the arguments of a call of `id`, after `args`;
/// `found_comma` tells whether a comma followed the last argument.
pub open spec fn arguments(toks: Seq<TokenV>, id: Seq<char>, pos: nat, args: Seq<ExprV>, found_comma: bool) -> Parse<
    CallV,
>
    decreases toks.len() - pos, 6nat,
{
    if pos >= toks.len() {
        fail("unexpected end of function call"@, pos)
    } else {
        match toks[pos as int] {
            TokenV::RightParenthesis => Parse::Built(CallV { id, args }, pos + 1),
            TokenV::Comma => if args.len() == 0 {
                fail("unexpected ,"@, pos + 1)
            } else {
                arguments(toks, id, pos + 1, args, true)
            },
            _ => if args.len() > 0 && !found_comma {
                fail("Require comma separating parameters"@, pos + 1)
            } else {
                match expression(toks, pos) {
                    Parse::Built(e, p) => if pos < p <= toks.len() {
                        arguments(toks, id, p, args.push(e), false)
                    } else {
                        Parse::Failed(Seq::empty(), p)
                    },
                    Parse::Failed(m, p) => Parse::Failed(m, p),
                }
            },
        }
    }
}

/// The position of the first `;` at or after `pos`, if any.
pub open spec fn first_semicolon(toks: Seq<TokenV>, pos: nat) -> Option<nat>
    decreases toks.len() - pos,
{
    if pos >= toks.len() {
        None
    } else if toks[pos as int] is SemiColon {
        Some(pos)
    } else {
        first_semicolon(toks, pos + 1)
    }
}

/// A variable declaration after its type or `infer`: every token up to the
/// first `;` is taken, with the `;`; they must be the variable's name, `=`,
/// and an expression.
pub open spec fn variable_declaration(toks: Seq<TokenV>, var_type: VariableDeclarationType, pos: nat) -> Parse<
    NodeV,
> {
    match first_semicolon(toks, pos) {
        None => fail("expected ;"@, toks.len()),
        Some(k) => {
            let sub = toks.subrange(pos as int, k as int);
            if !(sub.len() > 0 && sub[0] is Identifier) {
                fail("expected variable identifier"@, k + 1)
            } else if !(sub.len() > 1 && sub[1] is AssignmentOperator) {
                fail("expected assignment operator \"=\""@, k + 1)
            } else {
                match expression(sub, 2) {
                    Parse::Built(e, _) => Parse::Built(
                        NodeV::VarDecl { var_type, name: sub[0]->Identifier_0, value: e },
                        k + 1,
                    ),
                    Parse::Failed(m, _) => Parse::Failed(m, k + 1),
                }
            }
        },
    }
}

/// A call statement: the call, then `;`.
pub open spec fn call_statement(toks: Seq<TokenV>, id: Seq<char>, pos: nat) -> Parse<NodeV> {
    match function_call(toks, id, pos) {
        Parse::Built(c, p) => match expect(toks, p, TokenV::SemiColon) {
            Parse::Built(_, q) => Parse::Built(NodeV::Call(c), q),
            Parse::Failed(m, q) => Parse::Failed(m, q),
        },
        Parse::Failed(m, p) => Parse::Failed(m, p),
    }
}

/// A `return` statement after `return`: `;`, or an expression and `;`.
pub open spec fn return_statement(toks: Seq<TokenV>, pos: nat) -> Parse<NodeV> {
    if pos >= toks.len() {
        fail("expected ;"@, pos)
    } else if toks[pos as int] is SemiColon {
        Parse::Built(NodeV::Return { value: None }, pos + 1)
    } else {
        match expression(toks, pos) {
            Parse::Built(e, p) => match expect(toks, p, TokenV::SemiColon) {
                Parse::Built(_, q) => Parse::Built(NodeV::Return { value: Some(e) }, q),
                Parse::Failed(m, q) => Parse::Failed(m, q),
            },
            Parse::Failed(m, p) => Parse::Failed(m, p),
        }
    }
}

/// A statement, if the token at `pos` starts one; otherwise nothing, with the
/// token left in place.
pub open spec fn statement(toks: Seq<TokenV>, pos: nat) -> Parse<Option<NodeV>>
    decreases toks.len() - pos, 1nat,
{
    if pos >= toks.len() {
        Parse::Built(None, pos)
    } else {
        let r = match toks[pos as int] {
            TokenV::Identifier(id) => call_statement(toks, id, pos + 1),
            TokenV::TypeKeyword(t) => variable_declaration(toks, VariableDeclarationType::Type(t), pos + 1),
            TokenV::InferKeyword => variable_declaration(toks, VariableDeclarationType::Infer, pos + 1),
            TokenV::IfKeyword => match if_statement(toks, pos + 1) {
                Parse::Built(s, p) => Parse::Built(NodeV::If(s), p),
                Parse::Failed(m, p) => Parse::Failed(m, p),
            },
            TokenV::ReturnKeyword => return_statement(toks, pos + 1),
            _ => Parse::Failed(Seq::empty(), pos),
        };
        if starts_statement(toks[pos as int]) {
            match r {
                Parse::Built(n, p) => Parse::Built(Some(n), p),
                Parse::Failed(m, p) => Parse::Failed(m, p),
            }
        } else {
            Parse::Built(None, pos)
        }
    }
}

/// A token that starts a statement.
pub open spec fn starts_statement(t: TokenV) -> bool {
    ||| t is Identifier
    ||| t is TypeKeyword
    ||| t is InferKeyword
    ||| t is IfKeyword
    ||| t is ReturnKeyword
}

/// The statements of a block after `{`, up to and with the closing `}`.
pub open spec fn block(toks: Seq<TokenV>, pos: nat, stmts: Seq<NodeV>) -> Parse<Seq<NodeV>>
    decreases toks.len() - pos, 2nat,
{
    if pos >= toks.len() {
        fail("expected }"@, pos)
    } else if toks[pos as int] is RightCurleyBrace {
        Parse::Built(stmts, pos + 1)
    } else {
        match statement(toks, pos) {
            Parse::Built(Some(s), p) => if pos < p <= toks.len() {
                block(toks, p, stmts.push(s))
            } else {
                Parse::Failed(Seq::empty(), p)
            },
            Parse::Built(None, _) => fail("Expected }"@, pos + 1),
            Parse::Failed(m, p) => Parse::Failed(m, p),
        }
    }
}

/// A check in parentheses and a block: `(`, an expression, `)`, `{`, and the
/// block's statements up to `}`.
pub open spec fn guarded_block(toks: Seq<TokenV>, pos: nat) -> Parse<(ExprV, Seq<NodeV>)>
    decreases toks.len() - pos, 3nat,
{
    match expect(toks, pos, TokenV::LeftParenthesis) {
        Parse::Failed(m, p) => Parse::Failed(m, p),
        Parse::Built(_, p1) => match expression(toks, p1) {
            Parse::Failed(m, p) => Parse::Failed(m, p),
            Parse::Built(check, p2) => match expect(toks, p2, TokenV::RightParenthesis) {
                Parse::Failed(m, p) => Parse::Failed(m, p),
                Parse::Built(_, p3) => match expect(toks, p3, TokenV::LeftCurleyBrace) {
                    Parse::Failed(m, p) => Parse::Failed(m, p),
                    Parse::Built(_, p4) => if pos < p4 <= toks.len() {
                        match block(toks, p4, Seq::empty()) {
                            Parse::Built(stmts, p) => Parse::Built((check, stmts), p),
                            Parse::Failed(m, p) => Parse::Failed(m, p),
                        }
                    } else {
                        Parse::Failed(Seq::empty(), p4)
                    },
                },
            },
        },
    }
}

/// The message for a token that cannot follow `else`.
pub open spec fn else_message() -> Seq<char> {
    "Expected "@ + token_text(TokenV::IfKeyword) + " or "@ + token_text(TokenV::LeftCurleyBrace)
}

/// An `if` statement after `if`: its check and block, then `else if` blocks
/// and an `else` block.
pub open spec fn if_statement(toks: Seq<TokenV>, pos: nat) -> Parse<IfV>
    decreases toks.len() - pos, 5nat,
{
    match guarded_block(toks, pos) {
        Parse::Built((check, stmts), p) => if pos < p <= toks.len() {
            if_rest(toks, p, check, stmts, Seq::empty(), false)
        } else {
            Parse::Failed(Seq::empty(), p)
        },
        Parse::Failed(m, p) => Parse::Failed(m, p),
    }
}

/// The rest of an `if` statement: `else` followed by `if` and a guarded block
/// or by a block; `found_else` tells whether an `else` was just read.
pub open spec fn if_rest(
    toks: Seq<TokenV>,
    pos: nat,
    check: ExprV,
    stmts: Seq<NodeV>,
    else_ifs: Seq<ElseIfV>,
    found_else: bool,
) -> Parse<IfV>
    decreases toks.len() - pos, 4nat,
{
    let done = IfV { check, if_block: stmts, else_ifs, else_block: None };
    if pos >= toks.len() {
        if found_else {
            fail(else_message(), pos)
        } else {
            Parse::Built(done, pos)
        }
    } else {
        match toks[pos as int] {
            TokenV::ElseKeyword => if found_else {
                fail(else_message(), pos + 1)
            } else {
                if_rest(toks, pos + 1, check, stmts, else_ifs, true)
            },
            TokenV::LeftCurleyBrace if found_else => match block(toks, pos + 1, Seq::empty()) {
                Parse::Built(b, p) => Parse::Built(
                    IfV { check, if_block: stmts, else_ifs, else_block: Some(b) },
                    p,
                ),
                Parse::Failed(m, p) => Parse::Failed(m, p),
            },
            TokenV::IfKeyword if found_else => match guarded_block(toks, pos + 1) {
                Parse::Built((c, b), p) => if pos < p <= toks.len() {
                    if_rest(toks, p, check, stmts, else_ifs.push(ElseIfV { check: c, block: b }), false)
                } else {
                    Parse::Failed(Seq::empty(), p)
                },
                Parse::Failed(m, p) => Parse::Failed(m, p),
            },
            _ => if found_else {
                fail(else_message(), pos + 1)
            } else {
                Parse::Built(done, pos)
            },
        }
    }
}

/// The parameters of a function declaration after `(`, up to and with `)`.
pub open spec fn parameters(toks: Seq<TokenV>, pos: nat, params: Seq<ParamV>, found_comma: bool) -> Parse<
    Seq<ParamV>,
>
    decreases toks.len() - pos,
{
    if pos >= toks.len() {
        fail("expected type or )"@, pos)
    } else {
        match toks[pos as int] {
            TokenV::RightParenthesis => Parse::Built(params, pos + 1),
            TokenV::Comma => parameters(toks, pos + 1, params, true),
            TokenV::TypeKeyword(ty) => if !found_comma && params.len() > 0 {
                fail("expected , or )"@, pos + 1)
            } else if pos + 1 >= toks.len() {
                fail("expected parameter name"@, pos + 1)
            } else {
                match toks[(pos + 1) as int] {
                    TokenV::Identifier(name) => parameters(
                        toks,
                        pos + 2,
                        params.push(ParamV::Typed { ty, name }),
                        false,
                    ),
                    _ => fail("expected parameter name"@, pos + 2),
                }
            },
            _ => fail("expected type, ',', or )"@, pos + 1),
        }
    }
}

/// The return type of a function declaration after its parameters, up to and
/// with the `{` that opens its body.
pub open spec fn return_type(toks: Seq<TokenV>, pos: nat) -> Parse<FunctionReturnType> {
    if pos >= toks.len() {
        fail("Expected -> or {"@, pos)
    } else {
        match toks[pos as int] {
            TokenV::FunctionSignitureSplitter => if pos + 1 >= toks.len() {
                fail("Expected return type"@, pos + 1)
            } else {
                match toks[(pos + 1) as int] {
                    TokenV::TypeKeyword(ty) => match expect(toks, pos + 2, TokenV::LeftCurleyBrace) {
                        Parse::Built(_, p) => Parse::Built(FunctionReturnType::Type(ty), p),
                        Parse::Failed(m, p) => Parse::Failed(m, p),
                    },
                    _ => fail("Expected return type"@, pos + 2),
                }
            },
            TokenV::LeftCurleyBrace => Parse::Built(FunctionReturnType::Void, pos + 1),
            _ => fail("Expected -> or {"@, pos + 1),
        }
    }
}

/// A function declaration after `function`: its name, its parameters, its
/// return type and its body.
pub open spec fn function_declaration(toks: Seq<TokenV>, pos: nat) -> Parse<FuncDeclV> {
    if pos >= toks.len() {
        fail("expected function name"@, pos)
    } else {
        match toks[pos as int] {
            TokenV::Identifier(name) => match expect(toks, pos + 1, TokenV::LeftParenthesis) {
                Parse::Failed(m, p) => Parse::Failed(m, p),
                Parse::Built(_, p1) => match parameters(toks, p1, Seq::empty(), false) {
                    Parse::Failed(m, p) => Parse::Failed(m, p),
                    Parse::Built(params, p2) => match return_type(toks, p2) {
                        Parse::Failed(m, p) => Parse::Failed(m, p),
                        Parse::Built(ret, p3) => match block(toks, p3, Seq::empty()) {
                            Parse::Built(body, p) => Parse::Built(
                                FuncDeclV { id: name, name, params, ret, body },
                                p,
                            ),
                            Parse::Failed(m, p) => Parse::Failed(m, p),
                        },
                    },
                },
            },
            t => fail("expected function name. found "@ + token_text(t), pos + 1),
        }
    }
}

/// What a whole token sequence builds: its function declarations and its top
/// level statements.
pub struct ProgramV {
    pub functions: Seq<FuncDeclV>,
    pub nodes: Seq<NodeV>,
}

/// Reading declarations and statements from `pos` on; every error is
/// collected, and reading goes on after it.
pub open spec fn program_rest(toks: Seq<TokenV>, pos: nat, built: ProgramV, errors: Messages) -> Result<
    ProgramV,
    Messages,
>
    decreases toks.len() - pos,
{
    if pos >= toks.len() {
        if errors.len() == 0 {
            Ok(built)
        } else {
            Err(errors)
        }
    } else if toks[pos as int] is FunctionKeyword {
        match function_declaration(toks, pos + 1) {
            Parse::Built(f, p) => if pos < p <= toks.len() {
                program_rest(toks, p, ProgramV { functions: built.functions.push(f), ..built }, errors)
            } else {
                Err(errors)
            },
            Parse::Failed(m, p) => if pos < p <= toks.len() {
                program_rest(toks, p, built, errors + m)
            } else {
                Err(errors)
            },
        }
    } else {
        match statement(toks, pos) {
            Parse::Built(Some(s), p) => if pos < p <= toks.len() {
                program_rest(toks, p, ProgramV { nodes: built.nodes.push(s), ..built }, errors)
            } else {
                Err(errors)
            },
            Parse::Built(None, _) => program_rest(
                toks,
                pos + 1,
                built,
                errors.push(token_text(toks[pos as int]) + " is not a valid statement beginning"@),
            ),
            Parse::Failed(m, p) => if pos < p <= toks.len() {
                program_rest(toks, p, built, errors + m)
            } else {
                Err(errors)
            },
        }
    }
}

/// What a token sequence builds, or every error found in it.
pub open spec fn program(toks: Seq<TokenV>) -> Result<ProgramV, Messages> {
    program_rest(toks, 0, ProgramV { functions: Seq::empty(), nodes: Seq::empty() }, Seq::empty())
}

} // verus!
