//! The meaning of a program: a big-step semantics over the models of the syntax
//! tree.
//!
//! Every function takes a `fuel` that bounds the depth of nested evaluation; when
//! it runs out the outcome is `Exhausted`. An evaluation that the interpreter
//! cannot carry out (an unknown variable or function, an operand of the wrong
//! type, an overflowing addition, a wrong number of arguments) has the outcome
//! `Fault`. Each function also gives the sequence of values printed so far,
//! `out` extended by what the evaluation printed before it ended.

use vstd::prelude::*;

use crate::ast::node::{
    functions_view, BinaryOperation, BoolValue, CallV, ExprV, FuncV, Function, IfV, NodeV, OpV,
    ParamV, UIntValue, UnaryOperation, Value,
};
use crate::table::{seq_insert, seq_insert_all, seq_lookup};

verus! {

/// How an evaluation ends.
#[derive(Debug, PartialEq, Eq, Structural)]
pub enum Eval<T> {
    /// It produced a result.
    Done(T),
    /// It reached a state that the interpreter rejects.
    Fault,
    /// It nested deeper than its fuel allows.
    Exhausted,
}

/// What evaluating a statement, or a block of statements, produced.
#[derive(Clone, Copy, Debug, PartialEq, Eq, Structural)]
pub enum NodeResult {
    /// The statements ran to their end.
    NoReturn,
    /// A `return` statement was reached, with the returned value if any.
    FunctionReturn { value: Option<Value> },
}

impl NodeResult {
    /// Whether a `return` statement was reached.
    pub fn is_return(&self) -> (b: bool)
        ensures
            b == (*self is FunctionReturn),
    {
        matches!(self, NodeResult::FunctionReturn { .. })
    }
}

/// The functions a program can call, by name.
pub type FnEnv = spec_fn(Seq<char>) -> Option<FuncV>;

/// The variables in scope: names and values, each name once.
pub type Locals = Seq<(Seq<char>, Value)>;

/// The functions of a table, looked up by name.
pub open spec fn fn_env(t: Seq<(Seq<char>, Function)>) -> FnEnv {
    |k: Seq<char>|
        match seq_lookup(t, k) {
            Some(f) => Some(f@),
            None => None,
        }
}

/// The functions of a table of function models, looked up by name.
pub open spec fn model_env(fs: Seq<(Seq<char>, FuncV)>) -> FnEnv {
    |k: Seq<char>| seq_lookup(fs, k)
}

/// Looking a name up in a table of functions, or in the table of their
/// models, finds the same function.
pub proof fn lemma_lookup_models(t: Seq<(Seq<char>, Function)>, k: Seq<char>)
    ensures
        seq_lookup(functions_view(t), k) == match seq_lookup(t, k) {
            Some(f) => Some(f@),
            None => None,
        },
    decreases t.len(),
{
    if t.len() > 0 {
        assert(functions_view(t).drop_last() =~= functions_view(t.drop_last()));
        lemma_lookup_models(t.drop_last(), k);
    }
}

/// The functions of a table are those of the table of their models.
pub proof fn lemma_fn_env_models(t: Seq<(Seq<char>, Function)>)
    ensures
        fn_env(t) == model_env(functions_view(t)),
{
    assert forall|k: Seq<char>| #[trigger] fn_env(t)(k) == model_env(functions_view(t))(k) by {
        lemma_lookup_models(t, k);
    }
    assert(fn_env(t) =~= model_env(functions_view(t)));
}

/// The functions of `inner`, and those of `outer` whose names `inner` lacks.
pub open spec fn fn_overlay(inner: FnEnv, outer: FnEnv) -> FnEnv {
    |k: Seq<char>|
        match inner(k) {
            Some(f) => Some(f),
            None => outer(k),
        }
}

/// The fuel the evaluator runs with.
pub open spec fn evaluation_budget() -> nat {
    u64::MAX as nat
}

/// `!` on a value.
pub open spec fn spec_not(v: Value) -> Eval<Value> {
    match v {
        Value::Boolean(BoolValue(b)) => Eval::Done(Value::Boolean(BoolValue(!b))),
        Value::UInt(_) => Eval::Fault,
    }
}

/// `+` on two values; the sum must fit in 32 bits.
pub open spec fn spec_plus(a: Value, b: Value) -> Eval<Value> {
    match (a, b) {
        (Value::UInt(UIntValue(x)), Value::UInt(UIntValue(y))) => if x + y <= u32::MAX {
            Eval::Done(Value::UInt(UIntValue((x + y) as u32)))
        } else {
            Eval::Fault
        },
        _ => Eval::Fault,
    }
}

/// `>` on two values.
pub open spec fn spec_greater_than(a: Value, b: Value) -> Eval<Value> {
    match (a, b) {
        (Value::UInt(UIntValue(x)), Value::UInt(UIntValue(y))) => Eval::Done(
            Value::Boolean(BoolValue(x > y)),
        ),
        _ => Eval::Fault,
    }
}

/// A binary operation on two values.
pub open spec fn spec_binary(op: BinaryOperation, a: Value, b: Value) -> Eval<Value> {
    match op {
        BinaryOperation::Plus => spec_plus(a, b),
        BinaryOperation::GreaterThan => spec_greater_than(a, b),
    }
}

/// The variables a call starts with: each parameter bound to its argument, in
/// order, a later parameter replacing an earlier one of the same name.
pub open spec fn bind_parameters(params: Seq<ParamV>, values: Seq<Value>) -> Locals {
    seq_insert_all(
        Seq::empty(),
        Seq::new(params.len(), |i: int| (params[i].name(), values[i])),
    )
}

/// What an intrinsic function does: `print` prints its parameter `value`.
pub open spec fn eval_intrinsic(id: Seq<char>, params: Locals, out: Seq<Value>) -> (
    Seq<Value>,
    Eval<Option<Value>>,
) {
    if id == "print"@ {
        match seq_lookup(params, "value"@) {
            Some(v) => (out.push(v), Eval::Done(None)),
            None => (out, Eval::Fault),
        }
    } else {
        (out, Eval::Fault)
    }
}

/// The value of an expression.
pub open spec fn eval_expr(fuel: nat, e: ExprV, fns: FnEnv, locals: Locals, out: Seq<Value>) -> (
    Seq<Value>,
    Eval<Value>,
)
    decreases fuel, 0nat,
{
    if fuel == 0 {
        (out, Eval::Exhausted)
    } else {
        match e {
            ExprV::Literal(v) => (out, Eval::Done(v)),
            ExprV::Var(name) => match seq_lookup(locals, name) {
                Some(v) => (out, Eval::Done(v)),
                None => (out, Eval::Fault),
            },
            ExprV::Call(c) => eval_call_value((fuel - 1) as nat, c, fns, locals, out),
            ExprV::Op(op) => eval_op((fuel - 1) as nat, op, fns, locals, out),
        }
    }
}

/// The value of an operation.
pub open spec fn eval_op(fuel: nat, op: OpV, fns: FnEnv, locals: Locals, out: Seq<Value>) -> (
    Seq<Value>,
    Eval<Value>,
)
    decreases fuel, 0nat,
{
    if fuel == 0 {
        (out, Eval::Exhausted)
    } else {
        match op {
            OpV::Unary { op: UnaryOperation::Not, value } => {
                let (o, r) = eval_expr((fuel - 1) as nat, *value, fns, locals, out);
                match r {
                    Eval::Done(v) => (o, spec_not(v)),
                    Eval::Fault => (o, Eval::Fault),
                    Eval::Exhausted => (o, Eval::Exhausted),
                }
            },
            OpV::Binary { op, left, right } => {
                let (o1, r1) = eval_expr((fuel - 1) as nat, *left, fns, locals, out);
                match r1 {
                    Eval::Done(a) => {
                        let (o2, r2) = eval_expr((fuel - 1) as nat, *right, fns, locals, o1);
                        match r2 {
                            Eval::Done(b) => (o2, spec_binary(op, a, b)),
                            Eval::Fault => (o2, Eval::Fault),
                            Eval::Exhausted => (o2, Eval::Exhausted),
                        }
                    },
                    Eval::Fault => (o1, Eval::Fault),
                    Eval::Exhausted => (o1, Eval::Exhausted),
                }
            },
        }
    }
}

/// The value of a call used as an expression: the function must exist, must not
/// be void, and must return a value.
pub open spec fn eval_call_value(
    fuel: nat,
    c: CallV,
    fns: FnEnv,
    locals: Locals,
    out: Seq<Value>,
) -> (Seq<Value>, Eval<Value>)
    decreases fuel, 0nat,
{
    if fuel == 0 {
        (out, Eval::Exhausted)
    } else {
        match fns(c.id) {
            None => (out, Eval::Fault),
            Some(f) => if f.ret() is Void {
                (out, Eval::Fault)
            } else {
                let (o, r) = eval_function((fuel - 1) as nat, f, c.args, fns, locals, out);
                match r {
                    Eval::Done(Some(v)) => (o, Eval::Done(v)),
                    Eval::Done(None) => (o, Eval::Fault),
                    Eval::Fault => (o, Eval::Fault),
                    Eval::Exhausted => (o, Eval::Exhausted),
                }
            },
        }
    }
}

/// The values of `args[i..]`, appended to `vals`, evaluated from left to right.
pub open spec fn eval_args(
    fuel: nat,
    args: Seq<ExprV>,
    i: nat,
    fns: FnEnv,
    locals: Locals,
    vals: Seq<Value>,
    out: Seq<Value>,
) -> (Seq<Value>, Eval<Seq<Value>>)
    decreases fuel, args.len() + 1 - i,
{
    if i >= args.len() {
        (out, Eval::Done(vals))
    } else {
        let (o, r) = eval_expr(fuel, args[i as int], fns, locals, out);
        match r {
            Eval::Done(v) => eval_args(fuel, args, i + 1, fns, locals, vals.push(v), o),
            Eval::Fault => (o, Eval::Fault),
            Eval::Exhausted => (o, Eval::Exhausted),
        }
    }
}

/// Calling a function with argument expressions evaluated in the caller's
/// scope: the number of arguments must match the number of parameters; the
/// body runs with only the parameters in scope.
pub open spec fn eval_function(
    fuel: nat,
    f: FuncV,
    args: Seq<ExprV>,
    fns: FnEnv,
    locals: Locals,
    out: Seq<Value>,
) -> (Seq<Value>, Eval<Option<Value>>)
    decreases fuel, 0nat,
{
    if fuel == 0 {
        (out, Eval::Exhausted)
    } else if args.len() != f.params().len() {
        (out, Eval::Fault)
    } else {
        let (o, r) = eval_args((fuel - 1) as nat, args, 0, fns, locals, Seq::empty(), out);
        match r {
            Eval::Done(vals) => {
                let params = bind_parameters(f.params(), vals);
                match f {
                    FuncV::Custom { body, .. } => {
                        let (o2, r2) = eval_nodes((fuel - 1) as nat, body, fns, params, o);
                        match r2 {
                            Eval::Done(NodeResult::FunctionReturn { value }) => (o2, Eval::Done(value)),
                            Eval::Done(NodeResult::NoReturn) => (o2, Eval::Done(None)),
                            Eval::Fault => (o2, Eval::Fault),
                            Eval::Exhausted => (o2, Eval::Exhausted),
                        }
                    },
                    FuncV::Intrinsic { id, .. } => eval_intrinsic(id, params, o),
                }
            },
            Eval::Fault => (o, Eval::Fault),
            Eval::Exhausted => (o, Eval::Exhausted),
        }
    }
}

/// Running a block: its statements in order, in a scope of its own that starts
/// as `locals`, until one of them returns.
pub open spec fn eval_nodes(
    fuel: nat,
    nodes: Seq<NodeV>,
    fns: FnEnv,
    locals: Locals,
    out: Seq<Value>,
) -> (Seq<Value>, Eval<NodeResult>)
    decreases fuel, 0nat,
{
    if fuel == 0 {
        (out, Eval::Exhausted)
    } else {
        eval_block((fuel - 1) as nat, nodes, 0, fns, locals, out)
    }
}

/// Running `nodes[i..]` in the scope `locals`.
pub open spec fn eval_block(
    fuel: nat,
    nodes: Seq<NodeV>,
    i: nat,
    fns: FnEnv,
    locals: Locals,
    out: Seq<Value>,
) -> (Seq<Value>, Eval<NodeResult>)
    decreases fuel, nodes.len() + 1 - i,
{
    if i >= nodes.len() {
        (out, Eval::Done(NodeResult::NoReturn))
    } else {
        let (o, l, r) = eval_node(fuel, nodes[i as int], fns, locals, out);
        match r {
            Eval::Done(NodeResult::NoReturn) => eval_block(fuel, nodes, i + 1, fns, l, o),
            Eval::Done(ret) => (o, Eval::Done(ret)),
            Eval::Fault => (o, Eval::Fault),
            Eval::Exhausted => (o, Eval::Exhausted),
        }
    }
}

/// Running one statement: the printed values, the scope after it, and what it
/// produced.
pub open spec fn eval_node(fuel: nat, n: NodeV, fns: FnEnv, locals: Locals, out: Seq<Value>) -> (
    Seq<Value>,
    Locals,
    Eval<NodeResult>,
)
    decreases fuel, 0nat,
{
    if fuel == 0 {
        (out, locals, Eval::Exhausted)
    } else {
        match n {
            NodeV::VarDecl { name, value, .. } => {
                let (o, r) = eval_expr((fuel - 1) as nat, value, fns, locals, out);
                match r {
                    Eval::Done(v) => (o, seq_insert(locals, name, v), Eval::Done(NodeResult::NoReturn)),
                    Eval::Fault => (o, locals, Eval::Fault),
                    Eval::Exhausted => (o, locals, Eval::Exhausted),
                }
            },
            NodeV::Return { value: None } => (
                out,
                locals,
                Eval::Done(NodeResult::FunctionReturn { value: None }),
            ),
            NodeV::Return { value: Some(e) } => {
                let (o, r) = eval_expr((fuel - 1) as nat, e, fns, locals, out);
                match r {
                    Eval::Done(v) => (
                        o,
                        locals,
                        Eval::Done(NodeResult::FunctionReturn { value: Some(v) }),
                    ),
                    Eval::Fault => (o, locals, Eval::Fault),
                    Eval::Exhausted => (o, locals, Eval::Exhausted),
                }
            },
            NodeV::Call(c) => match fns(c.id) {
                None => (out, locals, Eval::Fault),
                Some(f) => {
                    let (o, r) = eval_function((fuel - 1) as nat, f, c.args, fns, locals, out);
                    match r {
                        Eval::Done(_) => (o, locals, Eval::Done(NodeResult::NoReturn)),
                        Eval::Fault => (o, locals, Eval::Fault),
                        Eval::Exhausted => (o, locals, Eval::Exhausted),
                    }
                },
            },
            NodeV::If(s) => {
                let (o, r) = eval_if((fuel - 1) as nat, s, fns, locals, out);
                (o, locals, r)
            },
        }
    }
}

/// Running an `if` statement: the first block whose check is true, or the
/// `else` block; every check evaluated must be a boolean.
pub open spec fn eval_if(fuel: nat, s: IfV, fns: FnEnv, locals: Locals, out: Seq<Value>) -> (
    Seq<Value>,
    Eval<NodeResult>,
)
    decreases fuel, 0nat,
{
    if fuel == 0 {
        (out, Eval::Exhausted)
    } else {
        let (o, r) = eval_expr((fuel - 1) as nat, s.check, fns, locals, out);
        match r {
            Eval::Done(Value::Boolean(BoolValue(true))) => eval_nodes(
                (fuel - 1) as nat,
                s.if_block,
                fns,
                locals,
                o,
            ),
            Eval::Done(Value::Boolean(BoolValue(false))) => eval_else_ifs(
                (fuel - 1) as nat,
                s,
                0,
                fns,
                locals,
                o,
            ),
            Eval::Done(Value::UInt(_)) => (o, Eval::Fault),
            Eval::Fault => (o, Eval::Fault),
            Eval::Exhausted => (o, Eval::Exhausted),
        }
    }
}

/// The `else if` blocks of `s` from the `j`-th on, then its `else` block.
pub open spec fn eval_else_ifs(
    fuel: nat,
    s: IfV,
    j: nat,
    fns: FnEnv,
    locals: Locals,
    out: Seq<Value>,
) -> (Seq<Value>, Eval<NodeResult>)
    decreases fuel,
        if j <= s.else_ifs.len() {
            s.else_ifs.len() + 1 - j
        } else {
            1
        },
{
    if j >= s.else_ifs.len() {
        match s.else_block {
            Some(b) => eval_nodes(fuel, b, fns, locals, out),
            None => (out, Eval::Done(NodeResult::NoReturn)),
        }
    } else {
        let (o, r) = eval_expr(fuel, s.else_ifs[j as int].check, fns, locals, out);
        match r {
            Eval::Done(Value::Boolean(BoolValue(true))) => eval_nodes(
                fuel,
                s.else_ifs[j as int].block,
                fns,
                locals,
                o,
            ),
            Eval::Done(Value::Boolean(BoolValue(false))) => eval_else_ifs(
                fuel,
                s,
                j + 1,
                fns,
                locals,
                o,
            ),
            Eval::Done(Value::UInt(_)) => (o, Eval::Fault),
            Eval::Fault => (o, Eval::Fault),
            Eval::Exhausted => (o, Eval::Exhausted),
        }
    }
}

} // verus!
