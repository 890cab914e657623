//! The typing rules: what the type checker reports for each part of a program,
//! stated over the models of the syntax tree.
//!
//! A check gives the error messages it reports, in order; no message means the
//! part is well typed. A check is `Undefined` where the checker does not
//! return: where it needs the type of a call of a function that does not exist,
//! or the current function is missing from the function table, or a function
//! returns a value although it is declared to return nothing.

use vstd::prelude::*;

use crate::ast::node::{
    spec_type_name, BinaryOperation, CallV, ElseIfV, ExprV, FuncV, FunctionReturnType, IfV,
    NodeV, OpV, ParamV, Type, UnaryOperation, Value, VariableDeclarationType, Function,
};
use crate::evaluation::intrinsics::intrinsic_env;
use crate::evaluation::semantics::{fn_overlay, model_env, FnEnv};
use crate::table::{seq_insert, seq_insert_all, seq_lookup};
use crate::text::spec_decimal;

verus! {

/// The variables in scope and their types.
pub type TypeEnv = Seq<(Seq<char>, Type)>;

/// Error messages, in the order they are reported.
pub type Messages = Seq<Seq<char>>;

/// The outcome of a check.
pub enum Checked<T> {
    /// The check returned this.
    Done(T),
    /// The check does not return.
    Undefined,
}

/// The message for a value of type `actual` where `expected` is wanted, if
/// they differ.
pub open spec fn type_mismatch(actual: Option<Type>, expected: Type) -> Option<Seq<char>> {
    match actual {
        None => Some("Expected type to be "@ + spec_type_name(expected) + ", but none was found"@),
        Some(found) => if found != expected {
            Some(
                "Expected type to be "@ + spec_type_name(expected) + ", but found "@
                    + spec_type_name(found),
            )
        } else {
            None
        },
    }
}

/// The message, if any, as a list.
pub open spec fn listed(m: Option<Seq<char>>) -> Messages {
    match m {
        Some(s) => seq![s],
        None => Seq::empty(),
    }
}

/// The type of a value.
pub open spec fn value_type(v: Value) -> Type {
    match v {
        Value::UInt(_) => Type::UInt,
        Value::Boolean(_) => Type::Boolean,
    }
}

/// The type of an operation: `!` gives a boolean, `+` and `>` an unsigned
/// integer.
pub open spec fn operation_type(op: OpV) -> Type {
    match op {
        OpV::Unary { op: UnaryOperation::Not, .. } => Type::Boolean,
        OpV::Binary { op: BinaryOperation::GreaterThan, .. } => Type::UInt,
        OpV::Binary { op: BinaryOperation::Plus, .. } => Type::UInt,
    }
}

/// The type a function returns, if any.
pub open spec fn returned_type(r: FunctionReturnType) -> Option<Type> {
    match r {
        FunctionReturnType::Void => None,
        FunctionReturnType::Type(t) => Some(t),
    }
}

/// The type of an expression, if it has one: a call of a void function has
/// none, nor has a variable that is not in scope. Undefined for a call of a
/// function that does not exist.
pub open spec fn expr_type(e: ExprV, fns: FnEnv, locals: TypeEnv) -> Checked<Option<Type>> {
    match e {
        ExprV::Literal(v) => Checked::Done(Some(value_type(v))),
        ExprV::Call(c) => match fns(c.id) {
            Some(f) => Checked::Done(returned_type(f.ret())),
            None => Checked::Undefined,
        },
        ExprV::Op(op) => Checked::Done(Some(operation_type(op))),
        ExprV::Var(name) => Checked::Done(seq_lookup(locals, name)),
    }
}

/// The messages for an operand of type `t` where `expected` is wanted.
pub open spec fn operand_check(t: Checked<Option<Type>>, expected: Type) -> Checked<Messages> {
    match t {
        Checked::Done(t) => Checked::Done(listed(type_mismatch(t, expected))),
        Checked::Undefined => Checked::Undefined,
    }
}

/// Both checks, the messages of the first before those of the second.
pub open spec fn both(a: Checked<Messages>, b: Checked<Messages>) -> Checked<Messages> {
    match (a, b) {
        (Checked::Done(x), Checked::Done(y)) => Checked::Done(x + y),
        _ => Checked::Undefined,
    }
}

/// The message for a variable that is not in scope.
pub open spec fn variable_check(name: Seq<char>, locals: TypeEnv) -> Messages {
    if seq_lookup(locals, name) is Some {
        Seq::empty()
    } else {
        seq!["Could not find variable with name "@ + name]
    }
}

/// Checking an expression.
pub open spec fn tc_expr(e: ExprV, fns: FnEnv, locals: TypeEnv) -> Checked<Messages>
    decreases e,
{
    match e {
        ExprV::Literal(_) => Checked::Done(Seq::empty()),
        ExprV::Call(c) => tc_call(c, fns, locals),
        ExprV::Op(OpV::Unary { op: UnaryOperation::Not, value }) => both(
            tc_expr(*value, fns, locals),
            operand_check(expr_type(*value, fns, locals), Type::Boolean),
        ),
        ExprV::Op(OpV::Binary { left, right, .. }) => both(
            both(tc_expr(*left, fns, locals), tc_expr(*right, fns, locals)),
            both(
                operand_check(expr_type(*left, fns, locals), Type::UInt),
                operand_check(expr_type(*right, fns, locals), Type::UInt),
            ),
        ),
        ExprV::Var(name) => Checked::Done(variable_check(name, locals)),
    }
}

/// Checking each of the argument expressions, in order.
pub open spec fn tc_args(args: Seq<ExprV>, fns: FnEnv, locals: TypeEnv) -> Checked<Messages>
    decreases args,
{
    if args.len() == 0 {
        Checked::Done(Seq::empty())
    } else {
        both(tc_args(args.drop_last(), fns, locals), tc_expr(args[args.len() - 1], fns, locals))
    }
}

/// The message for an argument of type `found` given for parameter `p`: an
/// intrinsic parameter takes a value of any type but needs a value.
pub open spec fn parameter_mismatch(p: ParamV, found: Option<Type>) -> Option<Seq<char>> {
    match p {
        ParamV::Any { name } => if found is None {
            Some("Expected parameter "@ + name + " to be present"@)
        } else {
            None
        },
        ParamV::Typed { ty, .. } => type_mismatch(found, ty),
    }
}

/// The messages for the first `n` arguments against the parameters.
pub open spec fn argument_types_check(
    params: Seq<ParamV>,
    args: Seq<ExprV>,
    n: nat,
    fns: FnEnv,
    locals: TypeEnv,
) -> Checked<Messages>
    decreases n,
{
    if n == 0 {
        Checked::Done(Seq::empty())
    } else {
        both(
            argument_types_check(params, args, (n - 1) as nat, fns, locals),
            match expr_type(args[n - 1], fns, locals) {
                Checked::Done(t) => Checked::Done(listed(parameter_mismatch(params[n - 1], t))),
                Checked::Undefined => Checked::Undefined,
            },
        )
    }
}

/// The smaller of two numbers.
pub open spec fn min_len(a: nat, b: nat) -> nat {
    if a < b {
        a
    } else {
        b
    }
}

/// The message for a call with the wrong number of arguments.
pub open spec fn arity_check(f: FuncV, n_args: nat) -> Messages {
    if n_args != f.params().len() {
        seq![
            f.name() + " expects "@ + spec_decimal(f.params().len()) + " parameter(s), but you provided "@
                + spec_decimal(n_args),
        ]
    } else {
        Seq::empty()
    }
}

/// Checking a call: its argument expressions, then that the function exists,
/// that the number of arguments is right and that each argument has the type
/// of its parameter.
pub open spec fn tc_call(c: CallV, fns: FnEnv, locals: TypeEnv) -> Checked<Messages>
    decreases c,
{
    let args_check = tc_args(c.args, fns, locals);
    match fns(c.id) {
        Some(f) => both(
            both(args_check, Checked::Done(arity_check(f, c.args.len()))),
            argument_types_check(
                f.params(),
                c.args,
                min_len(c.args.len(), f.params().len()),
                fns,
                locals,
            ),
        ),
        None => both(
            args_check,
            Checked::Done(seq!["Could not find function with name "@ + c.id]),
        ),
    }
}

/// The messages for a `return` statement, given the type of its value.
pub open spec fn return_check(returned: Option<Type>, fns: FnEnv, current: Option<Seq<char>>) -> Checked<
    Messages,
> {
    match current {
        Some(id) => match fns(id) {
            None => Checked::Undefined,
            Some(f) => Checked::Done(
                match (f.ret(), returned) {
                    (FunctionReturnType::Void, Some(t)) => seq![
                        f.name() + " is a void function, but you returned a "@ + spec_type_name(t)
                            + " value"@,
                    ],
                    (FunctionReturnType::Type(expected), None) => seq![
                        f.name() + " expects a return type of "@ + spec_type_name(expected)
                            + ", but you returned void"@,
                    ],
                    (FunctionReturnType::Type(expected), Some(t)) => if expected != t {
                        seq![
                            f.name() + " expects a return type of "@ + spec_type_name(expected)
                                + ", but you returned a "@ + spec_type_name(t) + " value"@,
                        ]
                    } else {
                        Seq::empty()
                    },
                    (FunctionReturnType::Void, None) => Seq::empty(),
                },
            ),
        },
        None => Checked::Done(
            match returned {
                Some(Type::Boolean) => seq!["Cannot return a Boolean from a top level statement"@],
                _ => Seq::empty(),
            },
        ),
    }
}

/// Checking a `return` statement: its value's expression, then the value's
/// type against what the current function returns; a top level statement may
/// return an unsigned integer, the exit code, or nothing.
pub open spec fn tc_return(value: Option<ExprV>, fns: FnEnv, locals: TypeEnv, current: Option<Seq<char>>) -> Checked<Messages> {
    match value {
        None => return_check(None, fns, current),
        Some(e) => match expr_type(e, fns, locals) {
            Checked::Done(t) => both(tc_expr(e, fns, locals), return_check(t, fns, current)),
            Checked::Undefined => Checked::Undefined,
        },
    }
}

/// Checking a variable declaration: the scope after it and the messages. A
/// variable already in scope keeps its type; an inferred variable is added only
/// if its value has a type.
pub open spec fn tc_declaration(
    var_type: VariableDeclarationType,
    name: Seq<char>,
    value: ExprV,
    fns: FnEnv,
    locals: TypeEnv,
) -> Checked<(TypeEnv, Messages)> {
    match (expr_type(value, fns, locals), tc_expr(value, fns, locals)) {
        (Checked::Done(t), Checked::Done(value_messages)) => {
            let exists = seq_lookup(locals, name) is Some;
            let messages = if exists {
                value_messages.push("Variable "@ + name + " is already defined"@)
            } else {
                value_messages
            };
            match var_type {
                VariableDeclarationType::Infer => match t {
                    Some(found) => Checked::Done(
                        (if exists { locals } else { seq_insert(locals, name, found) }, messages),
                    ),
                    None => Checked::Done(
                        (locals, messages.push("cannot assign void to variable "@ + name)),
                    ),
                },
                VariableDeclarationType::Type(expected) => Checked::Done(
                    (
                        if exists { locals } else { seq_insert(locals, name, expected) },
                        messages + listed(type_mismatch(t, expected)),
                    ),
                ),
            }
        },
        _ => Checked::Undefined,
    }
}

/// What checking one statement gives: the scope after it, whether it is a
/// `return` statement, and the messages.
pub struct NodeCheck {
    pub locals: TypeEnv,
    pub returned: bool,
    pub messages: Messages,
}

/// Checking a statement.
pub open spec fn tc_node(n: NodeV, fns: FnEnv, locals: TypeEnv, current: Option<Seq<char>>) -> Checked<
    NodeCheck,
>
    decreases n,
{
    match n {
        NodeV::VarDecl { var_type, name, value } => match tc_declaration(
            var_type,
            name,
            value,
            fns,
            locals,
        ) {
            Checked::Done((l, m)) => Checked::Done(NodeCheck { locals: l, returned: false, messages: m }),
            Checked::Undefined => Checked::Undefined,
        },
        NodeV::Return { value } => match tc_return(value, fns, locals, current) {
            Checked::Done(m) => Checked::Done(NodeCheck { locals, returned: true, messages: m }),
            Checked::Undefined => Checked::Undefined,
        },
        NodeV::Call(c) => match tc_call(c, fns, locals) {
            Checked::Done(m) => Checked::Done(NodeCheck { locals, returned: false, messages: m }),
            Checked::Undefined => Checked::Undefined,
        },
        NodeV::If(s) => match tc_if(s, fns, locals, current) {
            Checked::Done(m) => Checked::Done(NodeCheck { locals, returned: false, messages: m }),
            Checked::Undefined => Checked::Undefined,
        },
    }
}

/// What checking a block gives: the scope after it, the type of the value of
/// its first `return` statement if it has one (`Some(None)` for a `return`
/// without a value of some type), and the messages.
pub struct BlockCheck {
    pub locals: TypeEnv,
    pub first_return: Option<Option<Type>>,
    pub messages: Messages,
}

/// The type of the value a statement returns, if it is a `return` statement.
pub open spec fn returned_value_type(n: NodeV, fns: FnEnv, locals: TypeEnv) -> Checked<Option<Type>> {
    match n {
        NodeV::Return { value: Some(e) } => expr_type(e, fns, locals),
        _ => Checked::Done(None),
    }
}

/// Checking the statements of a block in order, each in the scope the ones
/// before it leave.
pub open spec fn tc_block(nodes: Seq<NodeV>, fns: FnEnv, locals: TypeEnv, current: Option<Seq<char>>) -> Checked<
    BlockCheck,
>
    decreases nodes,
{
    if nodes.len() == 0 {
        Checked::Done(BlockCheck { locals, first_return: None, messages: Seq::empty() })
    } else {
        let last = nodes[nodes.len() - 1];
        match tc_block(nodes.drop_last(), fns, locals, current) {
            Checked::Done(before) => match (
                returned_value_type(last, fns, before.locals),
                tc_node(last, fns, before.locals, current),
            ) {
                (Checked::Done(t), Checked::Done(c)) => Checked::Done(
                    BlockCheck {
                        locals: c.locals,
                        first_return: if before.first_return is None && c.returned {
                            Some(t)
                        } else {
                            before.first_return
                        },
                        messages: before.messages + c.messages,
                    },
                ),
                _ => Checked::Undefined,
            },
            Checked::Undefined => Checked::Undefined,
        }
    }
}

/// Checking an `else if` block: its check must be a boolean.
pub open spec fn tc_else_if(b: ElseIfV, fns: FnEnv, locals: TypeEnv, current: Option<Seq<char>>) -> Checked<
    Messages,
>
    decreases b,
{
    both(
        both(operand_check(expr_type(b.check, fns, locals), Type::Boolean), tc_expr(b.check, fns, locals)),
        match tc_block(b.block, fns, locals, current) {
            Checked::Done(r) => Checked::Done(r.messages),
            Checked::Undefined => Checked::Undefined,
        },
    )
}

/// Checking the `else if` blocks in order.
pub open spec fn tc_else_ifs(bs: Seq<ElseIfV>, fns: FnEnv, locals: TypeEnv, current: Option<Seq<char>>) -> Checked<
    Messages,
>
    decreases bs,
{
    if bs.len() == 0 {
        Checked::Done(Seq::empty())
    } else {
        both(tc_else_ifs(bs.drop_last(), fns, locals, current), tc_else_if(bs[bs.len() - 1], fns, locals, current))
    }
}

/// Checking an `if` statement: its check must be a boolean; each block is
/// checked in a scope of its own.
pub open spec fn tc_if(s: IfV, fns: FnEnv, locals: TypeEnv, current: Option<Seq<char>>) -> Checked<Messages>
    decreases s,
{
    both(
        both(
            both(operand_check(expr_type(s.check, fns, locals), Type::Boolean), tc_expr(s.check, fns, locals)),
            match tc_block(s.if_block, fns, locals, current) {
                Checked::Done(r) => Checked::Done(r.messages),
                Checked::Undefined => Checked::Undefined,
            },
        ),
        both(
            tc_else_ifs(s.else_ifs, fns, locals, current),
            match s.else_block {
                Some(b) => match tc_block(b, fns, locals, current) {
                    Checked::Done(r) => Checked::Done(r.messages),
                    Checked::Undefined => Checked::Undefined,
                },
                None => Checked::Done(Seq::empty()),
            },
        ),
    )
}

/// The type of the value of a block's first `return` statement, if it has
/// one with a value of some type.
pub open spec fn found_return(first_return: Option<Option<Type>>) -> Option<Type> {
    match first_return {
        Some(t) => t,
        None => None,
    }
}

/// The typed parameters of a function, as variables in scope in its body.
pub open spec fn typed_parameters(params: Seq<ParamV>) -> TypeEnv
    decreases params.len(),
{
    if params.len() == 0 {
        Seq::empty()
    } else {
        let rest = typed_parameters(params.drop_last());
        match params[params.len() - 1] {
            ParamV::Typed { ty, name } => rest.push((name, ty)),
            ParamV::Any { .. } => rest,
        }
    }
}

/// Checking a function: an intrinsic function is well typed; a declared
/// function's body is checked with its typed parameters in scope, and a
/// function with a return type must return a value of some type in its first
/// top level `return` statement.
pub open spec fn tc_function(f: FuncV, fns: FnEnv) -> Checked<Messages> {
    match f {
        FuncV::Intrinsic { .. } => Checked::Done(Seq::empty()),
        FuncV::Custom { id, params, ret, body, .. } => match tc_block(
            body,
            fns,
            seq_insert_all(Seq::empty(), typed_parameters(params)),
            Some(id),
        ) {
            Checked::Undefined => Checked::Undefined,
            Checked::Done(b) => if b.messages.len() > 0 {
                Checked::Done(b.messages)
            } else {
                match (found_return(b.first_return), ret) {
                    (None, FunctionReturnType::Type(_)) => Checked::Done(
                        seq!["expected return value, but void was returned"@],
                    ),
                    (Some(_), FunctionReturnType::Void) => Checked::Undefined,
                    _ => Checked::Done(Seq::empty()),
                }
            },
        },
    }
}

/// The functions a program is checked with: the intrinsic functions, and its
/// own functions whose names are not those of intrinsic functions.
pub open spec fn checking_env(functions: Seq<(Seq<char>, FuncV)>) -> FnEnv {
    fn_overlay(intrinsic_env(), model_env(functions))
}

/// Checking the program's own functions in order; one named like an intrinsic
/// function is replaced by it and not checked.
pub open spec fn tc_functions(functions: Seq<(Seq<char>, FuncV)>, fns: FnEnv) -> Checked<Messages>
    decreases functions.len(),
{
    if functions.len() == 0 {
        Checked::Done(Seq::empty())
    } else {
        let (name, f) = functions[functions.len() - 1];
        both(
            tc_functions(functions.drop_last(), fns),
            if intrinsic_env()(name) is Some {
                Checked::Done(Seq::empty())
            } else {
                tc_function(f, fns)
            },
        )
    }
}

/// Checking a program, given the models of its functions by name: its top
/// level statements, then its functions.
pub open spec fn tc_program(functions: Seq<(Seq<char>, FuncV)>, nodes: Seq<NodeV>) -> Checked<Messages> {
    let fns = checking_env(functions);
    both(
        match tc_block(nodes, fns, Seq::empty(), None) {
            Checked::Done(b) => Checked::Done(b.messages),
            Checked::Undefined => Checked::Undefined,
        },
        tc_functions(functions, fns),
    )
}

} // verus!
