//! Properties of running programs, stated over the evaluation rules.

use vstd::prelude::*;

use crate::ast::node::{BoolValue, CallV, ExprV, FuncV, IfV, NodeV, OpV, Value, VariableDeclarationType};
use crate::evaluation::intrinsics::intrinsic_env;
use crate::evaluation::semantics::{
    bind_parameters, eval_args, eval_block, eval_call_value, eval_else_ifs, eval_expr, eval_function, eval_if,
    eval_node, eval_nodes, eval_op, Eval, FnEnv, Locals, NodeResult,
};
use crate::table::{keys_unique, lemma_insert, seq_insert_all};

verus! {

/// A variable reads back the value it was declared with: running
/// `var name = value; return name;` returns the value of `value`, and prints
/// what evaluating `value` printed.
pub proof fn law_declared_variable_reads_back(
    fuel: nat,
    var_type: VariableDeclarationType,
    name: Seq<char>,
    value: ExprV,
    fns: FnEnv,
    locals: Locals,
    out: Seq<Value>,
)
    requires
        fuel >= 3,
        keys_unique(locals),
        eval_expr((fuel - 2) as nat, value, fns, locals, out).1 is Done,
    ensures
        ({
            let (o, r) = eval_expr((fuel - 2) as nat, value, fns, locals, out);
            eval_nodes(
                fuel,
                seq![NodeV::VarDecl { var_type, name, value }, NodeV::Return { value: Some(ExprV::Var(name)) }],
                fns,
                locals,
                out,
            ) == (o, Eval::Done(NodeResult::FunctionReturn { value: Some(r->Done_0) }))
        }),
{
    let nodes = seq![NodeV::VarDecl { var_type, name, value }, NodeV::Return { value: Some(ExprV::Var(name)) }];
    let f = (fuel - 1) as nat;
    let (o, r) = eval_expr((fuel - 2) as nat, value, fns, locals, out);
    let v = r->Done_0;
    let scope = crate::table::seq_insert(locals, name, v);
    lemma_insert(locals, name, v);
    assert(eval_expr((f - 1) as nat, value, fns, locals, out) == (o, r));
    assert(eval_node(f, nodes[0], fns, locals, out) == (o, scope, Eval::<NodeResult>::Done(NodeResult::NoReturn)));
    assert(eval_expr((f - 1) as nat, ExprV::Var(name), fns, scope, o) == (o, Eval::Done(v)));
    assert(eval_node(f, nodes[1], fns, scope, o) == (
        o,
        scope,
        Eval::Done(NodeResult::FunctionReturn { value: Some(v) }),
    ));
    assert(eval_block(f, nodes, 1, fns, scope, o) == (o, Eval::Done(NodeResult::FunctionReturn { value: Some(v) })));
}

/// A `return` statement ends its block: the statements after it are not run.
pub proof fn law_return_ends_block(fuel: nat, nodes: Seq<NodeV>, i: nat, fns: FnEnv, locals: Locals, out: Seq<Value>)
    requires
        fuel >= 1,
        i < nodes.len(),
        nodes[i as int] == (NodeV::Return { value: None }),
    ensures
        eval_block(fuel, nodes, i, fns, locals, out) == (out, Eval::Done(NodeResult::FunctionReturn { value: None })),
{
    assert(eval_node(fuel, nodes[i as int], fns, locals, out) == (
        out,
        locals,
        Eval::Done(NodeResult::FunctionReturn { value: None }),
    ));
}

/// `print` with one argument prints the argument's value after what
/// evaluating the argument printed, and the statement does not return.
pub proof fn law_print_appends(fuel: nat, arg: ExprV, fns: FnEnv, locals: Locals, out: Seq<Value>)
    requires
        fuel >= 2,
        fns("print"@) == intrinsic_env()("print"@),
        eval_expr((fuel - 2) as nat, arg, fns, locals, out).1 is Done,
    ensures
        ({
            let (o, r) = eval_expr((fuel - 2) as nat, arg, fns, locals, out);
            eval_node(fuel, NodeV::Call(CallV { id: "print"@, args: seq![arg] }), fns, locals, out) == (
                o.push(r->Done_0),
                locals,
                Eval::<NodeResult>::Done(NodeResult::NoReturn),
            )
        }),
{
    let (o, r) = eval_expr((fuel - 2) as nat, arg, fns, locals, out);
    let v = r->Done_0;
    let pairs = seq![("value"@, v)];
    let empty = Seq::<(Seq<char>, Value)>::empty();
    let bound = seq_insert_all(empty, pairs);
    assert(pairs.drop_last() =~= empty);
    assert(seq_insert_all(empty, pairs.drop_last()) == empty);
    assert(bound == crate::table::seq_insert(empty, "value"@, v));
    lemma_insert(empty, "value"@, v);
    assert(crate::table::seq_lookup(bound, "value"@) == Some(v));
    let params = crate::evaluation::intrinsics::print_model().params();
    assert(Seq::new(params.len(), |i: int| (params[i].name(), seq![v][i])) =~= pairs);
    assert(crate::evaluation::semantics::bind_parameters(params, seq![v]) == bound);
}

/// An `if` statement runs its blocks in scopes of their own: the variables in
/// scope after it are those before it.
pub proof fn law_if_keeps_scope(fuel: nat, s: IfV, fns: FnEnv, locals: Locals, out: Seq<Value>)
    ensures
        eval_node(fuel, NodeV::If(s), fns, locals, out).1 == locals,
{
}

/// `e` evaluates to the boolean `b` without printing, whatever was printed
/// before.
pub open spec fn evaluates_to_bool(fuel: nat, e: ExprV, fns: FnEnv, locals: Locals, b: bool) -> bool {
    forall|o: Seq<Value>| #[trigger] eval_expr(fuel, e, fns, locals, o) == (o, Eval::Done(Value::Boolean(BoolValue(b))))
}

proof fn lemma_else_ifs_pick(fuel: nat, s: IfV, j: nat, k: nat, fns: FnEnv, locals: Locals, out: Seq<Value>)
    requires
        j <= k < s.else_ifs.len(),
        forall|i: int| j <= i < k ==> evaluates_to_bool(fuel, (#[trigger] s.else_ifs[i]).check, fns, locals, false),
        evaluates_to_bool(fuel, s.else_ifs[k as int].check, fns, locals, true),
    ensures
        eval_else_ifs(fuel, s, j, fns, locals, out) == eval_nodes(fuel, s.else_ifs[k as int].block, fns, locals, out),
    decreases k - j,
{
    if j < k {
        assert(evaluates_to_bool(fuel, s.else_ifs[j as int].check, fns, locals, false));
        assert(eval_expr(fuel, s.else_ifs[j as int].check, fns, locals, out) == (
            out,
            Eval::Done(Value::Boolean(BoolValue(false))),
        ));
        lemma_else_ifs_pick(fuel, s, j + 1, k, fns, locals, out);
    } else {
        assert(eval_expr(fuel, s.else_ifs[j as int].check, fns, locals, out) == (
            out,
            Eval::Done(Value::Boolean(BoolValue(true))),
        ));
    }
}

proof fn lemma_else_ifs_none(fuel: nat, s: IfV, j: nat, fns: FnEnv, locals: Locals, out: Seq<Value>)
    requires
        j <= s.else_ifs.len(),
        forall|i: int| j <= i < s.else_ifs.len() ==> evaluates_to_bool(fuel, (#[trigger] s.else_ifs[i]).check, fns, locals, false),
    ensures
        eval_else_ifs(fuel, s, j, fns, locals, out) == match s.else_block {
            Some(b) => eval_nodes(fuel, b, fns, locals, out),
            None => (out, Eval::Done(NodeResult::NoReturn)),
        },
    decreases s.else_ifs.len() - j,
{
    if j < s.else_ifs.len() {
        assert(evaluates_to_bool(fuel, s.else_ifs[j as int].check, fns, locals, false));
        assert(eval_expr(fuel, s.else_ifs[j as int].check, fns, locals, out) == (
            out,
            Eval::Done(Value::Boolean(BoolValue(false))),
        ));
        lemma_else_ifs_none(fuel, s, j + 1, fns, locals, out);
    }
}

/// An `if` statement runs the block of the first check that is true: when its
/// own check and the checks of its first `k` `else if` blocks are false and
/// the check of the next one is true, exactly that `else if` block runs,
/// whatever `k` is, and the `else` block runs only when every check is false.
pub proof fn law_if_runs_first_true_block(fuel: nat, s: IfV, k: nat, fns: FnEnv, locals: Locals, out: Seq<Value>)
    requires
        fuel >= 1,
        evaluates_to_bool((fuel - 1) as nat, s.check, fns, locals, false),
        forall|i: int| 0 <= i < k && i < s.else_ifs.len() ==> evaluates_to_bool(
            (fuel - 1) as nat,
            (#[trigger] s.else_ifs[i]).check,
            fns,
            locals,
            false,
        ),
    ensures
        k < s.else_ifs.len() && evaluates_to_bool((fuel - 1) as nat, s.else_ifs[k as int].check, fns, locals, true)
            ==> eval_if(fuel, s, fns, locals, out) == eval_nodes(
            (fuel - 1) as nat,
            s.else_ifs[k as int].block,
            fns,
            locals,
            out,
        ),
        k >= s.else_ifs.len() ==> eval_if(fuel, s, fns, locals, out) == match s.else_block {
            Some(b) => eval_nodes((fuel - 1) as nat, b, fns, locals, out),
            None => (out, Eval::Done(NodeResult::NoReturn)),
        },
{
    let f = (fuel - 1) as nat;
    assert(eval_expr(f, s.check, fns, locals, out) == (out, Eval::Done(Value::Boolean(BoolValue(false)))));
    assert(eval_if(fuel, s, fns, locals, out) == eval_else_ifs(f, s, 0, fns, locals, out));
    if k < s.else_ifs.len() && evaluates_to_bool(f, s.else_ifs[k as int].check, fns, locals, true) {
        lemma_else_ifs_pick(f, s, 0, k, fns, locals, out);
    }
    if k >= s.else_ifs.len() {
        lemma_else_ifs_none(f, s, 0, fns, locals, out);
    }
}

/// More fuel does not change the value of an expression that was not cut
/// short.
pub proof fn lemma_more_fuel_expr(f: nat, g: nat, e: ExprV, fns: FnEnv, locals: Locals, out: Seq<Value>)
    requires
        f <= g,
        !(eval_expr(f, e, fns, locals, out).1 is Exhausted),
    ensures
        eval_expr(g, e, fns, locals, out) == eval_expr(f, e, fns, locals, out),
    decreases f, 0nat,
{
    match e {
        ExprV::Call(c) => lemma_more_fuel_call_value((f - 1) as nat, (g - 1) as nat, c, fns, locals, out),
        ExprV::Op(op) => lemma_more_fuel_op((f - 1) as nat, (g - 1) as nat, op, fns, locals, out),
        _ => {},
    }
}

/// More fuel does not change the value of an operation that was not cut
/// short.
pub proof fn lemma_more_fuel_op(f: nat, g: nat, op: OpV, fns: FnEnv, locals: Locals, out: Seq<Value>)
    requires
        f <= g,
        !(eval_op(f, op, fns, locals, out).1 is Exhausted),
    ensures
        eval_op(g, op, fns, locals, out) == eval_op(f, op, fns, locals, out),
    decreases f, 0nat,
{
    match op {
        OpV::Unary { value, .. } => {
            lemma_more_fuel_expr((f - 1) as nat, (g - 1) as nat, *value, fns, locals, out);
        },
        OpV::Binary { left, right, .. } => {
            lemma_more_fuel_expr((f - 1) as nat, (g - 1) as nat, *left, fns, locals, out);
            let (o1, r1) = eval_expr((f - 1) as nat, *left, fns, locals, out);
            if r1 is Done {
                lemma_more_fuel_expr((f - 1) as nat, (g - 1) as nat, *right, fns, locals, o1);
            }
        },
    }
}

/// More fuel does not change the value of a call that was not cut short.
pub proof fn lemma_more_fuel_call_value(f: nat, g: nat, c: CallV, fns: FnEnv, locals: Locals, out: Seq<Value>)
    requires
        f <= g,
        !(eval_call_value(f, c, fns, locals, out).1 is Exhausted),
    ensures
        eval_call_value(g, c, fns, locals, out) == eval_call_value(f, c, fns, locals, out),
    decreases f, 0nat,
{
    if let Some(func) = fns(c.id) {
        if !(func.ret() is Void) {
            lemma_more_fuel_function((f - 1) as nat, (g - 1) as nat, func, c.args, fns, locals, out);
        }
    }
}

/// More fuel does not change the values of arguments that were not cut short.
pub proof fn lemma_more_fuel_args(
    f: nat,
    g: nat,
    args: Seq<ExprV>,
    i: nat,
    fns: FnEnv,
    locals: Locals,
    vals: Seq<Value>,
    out: Seq<Value>,
)
    requires
        f <= g,
        !(eval_args(f, args, i, fns, locals, vals, out).1 is Exhausted),
    ensures
        eval_args(g, args, i, fns, locals, vals, out) == eval_args(f, args, i, fns, locals, vals, out),
    decreases f, args.len() + 1 - i,
{
    if i < args.len() {
        lemma_more_fuel_expr(f, g, args[i as int], fns, locals, out);
        let (o, r) = eval_expr(f, args[i as int], fns, locals, out);
        if let Eval::Done(v) = r {
            lemma_more_fuel_args(f, g, args, i + 1, fns, locals, vals.push(v), o);
        }
    }
}

/// More fuel does not change the result of a call that was not cut short.
pub proof fn lemma_more_fuel_function(
    f: nat,
    g: nat,
    func: FuncV,
    args: Seq<ExprV>,
    fns: FnEnv,
    locals: Locals,
    out: Seq<Value>,
)
    requires
        f <= g,
        !(eval_function(f, func, args, fns, locals, out).1 is Exhausted),
    ensures
        eval_function(g, func, args, fns, locals, out) == eval_function(f, func, args, fns, locals, out),
    decreases f, 0nat,
{
    if args.len() == func.params().len() {
        lemma_more_fuel_args((f - 1) as nat, (g - 1) as nat, args, 0, fns, locals, Seq::empty(), out);
        let (o, r) = eval_args((f - 1) as nat, args, 0, fns, locals, Seq::empty(), out);
        if let Eval::Done(vals) = r {
            if let FuncV::Custom { body, .. } = func {
                let params = bind_parameters(func.params(), vals);
                lemma_more_fuel_nodes((f - 1) as nat, (g - 1) as nat, body, fns, params, o);
            }
        }
    }
}

/// More fuel does not change the result of a block that was not cut short.
pub proof fn lemma_more_fuel_nodes(f: nat, g: nat, nodes: Seq<NodeV>, fns: FnEnv, locals: Locals, out: Seq<Value>)
    requires
        f <= g,
        !(eval_nodes(f, nodes, fns, locals, out).1 is Exhausted),
    ensures
        eval_nodes(g, nodes, fns, locals, out) == eval_nodes(f, nodes, fns, locals, out),
    decreases f, 0nat,
{
    lemma_more_fuel_block((f - 1) as nat, (g - 1) as nat, nodes, 0, fns, locals, out);
}

/// More fuel does not change the result of the rest of a block that was not
/// cut short.
pub proof fn lemma_more_fuel_block(
    f: nat,
    g: nat,
    nodes: Seq<NodeV>,
    i: nat,
    fns: FnEnv,
    locals: Locals,
    out: Seq<Value>,
)
    requires
        f <= g,
        !(eval_block(f, nodes, i, fns, locals, out).1 is Exhausted),
    ensures
        eval_block(g, nodes, i, fns, locals, out) == eval_block(f, nodes, i, fns, locals, out),
    decreases f, nodes.len() + 1 - i,
{
    if i < nodes.len() {
        lemma_more_fuel_node(f, g, nodes[i as int], fns, locals, out);
        let (o, l, r) = eval_node(f, nodes[i as int], fns, locals, out);
        if r == Eval::<NodeResult>::Done(NodeResult::NoReturn) {
            lemma_more_fuel_block(f, g, nodes, i + 1, fns, l, o);
        }
    }
}

/// More fuel does not change the result of a statement that was not cut
/// short.
pub proof fn lemma_more_fuel_node(f: nat, g: nat, n: NodeV, fns: FnEnv, locals: Locals, out: Seq<Value>)
    requires
        f <= g,
        !(eval_node(f, n, fns, locals, out).2 is Exhausted),
    ensures
        eval_node(g, n, fns, locals, out) == eval_node(f, n, fns, locals, out),
    decreases f, 0nat,
{
    match n {
        NodeV::VarDecl { value, .. } => lemma_more_fuel_expr((f - 1) as nat, (g - 1) as nat, value, fns, locals, out),
        NodeV::Return { value: Some(e) } => lemma_more_fuel_expr((f - 1) as nat, (g - 1) as nat, e, fns, locals, out),
        NodeV::Return { value: None } => {},
        NodeV::Call(c) => {
            if let Some(func) = fns(c.id) {
                lemma_more_fuel_function((f - 1) as nat, (g - 1) as nat, func, c.args, fns, locals, out);
            }
        },
        NodeV::If(st) => lemma_more_fuel_if((f - 1) as nat, (g - 1) as nat, st, fns, locals, out),
    }
}

/// More fuel does not change the result of an `if` statement that was not
/// cut short.
pub proof fn lemma_more_fuel_if(f: nat, g: nat, st: IfV, fns: FnEnv, locals: Locals, out: Seq<Value>)
    requires
        f <= g,
        !(eval_if(f, st, fns, locals, out).1 is Exhausted),
    ensures
        eval_if(g, st, fns, locals, out) == eval_if(f, st, fns, locals, out),
    decreases f, 0nat,
{
    lemma_more_fuel_expr((f - 1) as nat, (g - 1) as nat, st.check, fns, locals, out);
    let (o, r) = eval_expr((f - 1) as nat, st.check, fns, locals, out);
    match r {
        Eval::Done(Value::Boolean(BoolValue(true))) => lemma_more_fuel_nodes(
            (f - 1) as nat,
            (g - 1) as nat,
            st.if_block,
            fns,
            locals,
            o,
        ),
        Eval::Done(Value::Boolean(BoolValue(false))) => lemma_more_fuel_else_ifs(
            (f - 1) as nat,
            (g - 1) as nat,
            st,
            0,
            fns,
            locals,
            o,
        ),
        _ => {},
    }
}

/// More fuel does not change the result of the `else if` and `else` blocks
/// when it was not cut short.
pub proof fn lemma_more_fuel_else_ifs(
    f: nat,
    g: nat,
    st: IfV,
    j: nat,
    fns: FnEnv,
    locals: Locals,
    out: Seq<Value>,
)
    requires
        f <= g,
        !(eval_else_ifs(f, st, j, fns, locals, out).1 is Exhausted),
    ensures
        eval_else_ifs(g, st, j, fns, locals, out) == eval_else_ifs(f, st, j, fns, locals, out),
    decreases f,
        if j <= st.else_ifs.len() {
            st.else_ifs.len() + 1 - j
        } else {
            1
        },
{
    if j >= st.else_ifs.len() {
        if let Some(b) = st.else_block {
            lemma_more_fuel_nodes(f, g, b, fns, locals, out);
        }
    } else {
        lemma_more_fuel_expr(f, g, st.else_ifs[j as int].check, fns, locals, out);
        let (o, r) = eval_expr(f, st.else_ifs[j as int].check, fns, locals, out);
        match r {
            Eval::Done(Value::Boolean(BoolValue(true))) => lemma_more_fuel_nodes(
                f,
                g,
                st.else_ifs[j as int].block,
                fns,
                locals,
                o,
            ),
            Eval::Done(Value::Boolean(BoolValue(false))) => lemma_more_fuel_else_ifs(
                f,
                g,
                st,
                j + 1,
                fns,
                locals,
                o,
            ),
            _ => {},
        }
    }
}

/// The evaluation budget only bounds how deep calls may nest: a run that
/// completes, or meets a state the evaluator rejects, with some budget does
/// exactly the same with any larger budget.
pub proof fn law_larger_budget_same_run(
    f: nat,
    g: nat,
    nodes: Seq<NodeV>,
    fns: FnEnv,
    locals: Locals,
    out: Seq<Value>,
)
    requires
        f <= g,
        !(eval_nodes(f, nodes, fns, locals, out).1 is Exhausted),
    ensures
        eval_nodes(g, nodes, fns, locals, out) == eval_nodes(f, nodes, fns, locals, out),
{
    lemma_more_fuel_nodes(f, g, nodes, fns, locals, out);
}

} // verus!
