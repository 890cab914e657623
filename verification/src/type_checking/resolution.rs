//! When the type checker returns.
//!
//! Checking needs the type of some expressions: operands, values of
//! declarations and of `return` statements, arguments of calls of existing
//! functions, and the checks of `if` statements. The type of a call of a
//! function that does not exist cannot be found, and a `return` statement
//! needs the current function to exist; everywhere else the checker returns.
//! Whether it does depends on the program's shape and on which functions
//! exist, not on the variables in scope.

use vstd::prelude::*;

use crate::ast::node::{
    lemma_call_view, lemma_if_view, params_view, CallV, ElseIfV, ExprV, Expression, Function, FunctionCall,
    FunctionId, IfStatement, IfV, Node, NodeV, OpV, Operation, exprs_view, nodes_view,
};
use crate::evaluation::semantics::{fn_env, FnEnv};
use crate::table::Table;
use crate::type_checking::function_return::current_name;
use crate::evaluation::intrinsics::intrinsic_env;
use crate::table::{keys_unique, lemma_lookup_at, seq_insert_all};
use crate::type_checking::rules::{
    argument_types_check, checking_env, expr_type, found_return, min_len, returned_value_type, tc_args,
    tc_block, tc_call, tc_else_if, tc_else_ifs, tc_expr, tc_functions, tc_if, tc_node, tc_program,
    typed_parameters, TypeEnv,
};

verus! {

/// The type of `e` can be found: it is not a call of a function that does not
/// exist.
pub open spec fn type_found(e: ExprV, fns: FnEnv) -> bool {
    e matches ExprV::Call(c) ==> fns(c.id) is Some
}

/// Checking the expression returns.
pub open spec fn expr_resolves(e: ExprV, fns: FnEnv) -> bool
    decreases e,
{
    match e {
        ExprV::Call(c) => call_resolves(c, fns),
        ExprV::Op(OpV::Unary { value, .. }) => expr_resolves(*value, fns) && type_found(*value, fns),
        ExprV::Op(OpV::Binary { left, right, .. }) => expr_resolves(*left, fns) && expr_resolves(*right, fns)
            && type_found(*left, fns) && type_found(*right, fns),
        _ => true,
    }
}

/// Checking each of the argument expressions returns.
pub open spec fn args_resolve(args: Seq<ExprV>, fns: FnEnv) -> bool
    decreases args,
{
    if args.len() == 0 {
        true
    } else {
        args_resolve(args.drop_last(), fns) && expr_resolves(args[args.len() - 1], fns)
    }
}

/// The types of the first `n` arguments can be found.
pub open spec fn arg_types_found(args: Seq<ExprV>, n: nat, fns: FnEnv) -> bool
    decreases n,
{
    if n == 0 {
        true
    } else {
        arg_types_found(args, (n - 1) as nat, fns) && type_found(args[n - 1], fns)
    }
}

/// Checking the call returns: its arguments are checked, and the types of the
/// arguments that meet a parameter of an existing function are found.
pub open spec fn call_resolves(c: CallV, fns: FnEnv) -> bool
    decreases c,
{
    args_resolve(c.args, fns) && match fns(c.id) {
        Some(f) => arg_types_found(c.args, min_len(c.args.len(), f.params().len()), fns),
        None => true,
    }
}

/// A `return` statement can be checked: at the top level, or in a function
/// that exists.
pub open spec fn return_resolves(fns: FnEnv, current: Option<Seq<char>>) -> bool {
    current matches Some(id) ==> fns(id) is Some
}

/// Checking the statement returns.
pub open spec fn node_resolves(n: NodeV, fns: FnEnv, current: Option<Seq<char>>) -> bool
    decreases n,
{
    match n {
        NodeV::VarDecl { value, .. } => type_found(value, fns) && expr_resolves(value, fns),
        NodeV::Return { value: None } => return_resolves(fns, current),
        NodeV::Return { value: Some(e) } => type_found(e, fns) && expr_resolves(e, fns) && return_resolves(
            fns,
            current,
        ),
        NodeV::Call(c) => call_resolves(c, fns),
        NodeV::If(s) => if_resolves(s, fns, current),
    }
}

/// Checking the statements of the block returns.
pub open spec fn block_resolves(nodes: Seq<NodeV>, fns: FnEnv, current: Option<Seq<char>>) -> bool
    decreases nodes,
{
    if nodes.len() == 0 {
        true
    } else {
        block_resolves(nodes.drop_last(), fns, current) && node_resolves(nodes[nodes.len() - 1], fns, current)
    }
}

/// Checking the `else if` block returns.
pub open spec fn else_if_resolves(b: ElseIfV, fns: FnEnv, current: Option<Seq<char>>) -> bool
    decreases b,
{
    type_found(b.check, fns) && expr_resolves(b.check, fns) && block_resolves(b.block, fns, current)
}

/// Checking the `else if` blocks returns.
pub open spec fn else_ifs_resolve(bs: Seq<ElseIfV>, fns: FnEnv, current: Option<Seq<char>>) -> bool
    decreases bs,
{
    if bs.len() == 0 {
        true
    } else {
        else_ifs_resolve(bs.drop_last(), fns, current) && else_if_resolves(bs[bs.len() - 1], fns, current)
    }
}

/// Checking the `if` statement returns.
pub open spec fn if_resolves(s: IfV, fns: FnEnv, current: Option<Seq<char>>) -> bool
    decreases s,
{
    &&& type_found(s.check, fns)
    &&& expr_resolves(s.check, fns)
    &&& block_resolves(s.if_block, fns, current)
    &&& else_ifs_resolve(s.else_ifs, fns, current)
    &&& match s.else_block {
        Some(b) => block_resolves(b, fns, current),
        None => true,
    }
}

/// The type of an expression is found exactly when it is not a call of a
/// missing function.
pub proof fn lemma_type_found(e: ExprV, fns: FnEnv, locals: TypeEnv)
    ensures
        expr_type(e, fns, locals) is Done <==> type_found(e, fns),
{
}

/// Checking an expression returns exactly when it resolves, whatever the
/// variables in scope.
pub proof fn lemma_expr_resolves(e: ExprV, fns: FnEnv, locals: TypeEnv)
    ensures
        tc_expr(e, fns, locals) is Done <==> expr_resolves(e, fns),
    decreases e,
{
    match e {
        ExprV::Call(c) => lemma_call_resolves(c, fns, locals),
        ExprV::Op(OpV::Unary { value, .. }) => lemma_expr_resolves(*value, fns, locals),
        ExprV::Op(OpV::Binary { left, right, .. }) => {
            lemma_expr_resolves(*left, fns, locals);
            lemma_expr_resolves(*right, fns, locals);
        },
        _ => {},
    }
}

/// Checking arguments returns exactly when they resolve.
pub proof fn lemma_args_resolve(args: Seq<ExprV>, fns: FnEnv, locals: TypeEnv)
    ensures
        tc_args(args, fns, locals) is Done <==> args_resolve(args, fns),
    decreases args,
{
    if args.len() > 0 {
        lemma_args_resolve(args.drop_last(), fns, locals);
        lemma_expr_resolves(args[args.len() - 1], fns, locals);
    }
}

/// Checking argument types returns exactly when their types are found.
pub proof fn lemma_arg_types_found(
    params: Seq<crate::ast::node::ParamV>,
    args: Seq<ExprV>,
    n: nat,
    fns: FnEnv,
    locals: TypeEnv,
)
    ensures
        argument_types_check(params, args, n, fns, locals) is Done <==> arg_types_found(args, n, fns),
    decreases n,
{
    if n > 0 {
        lemma_arg_types_found(params, args, (n - 1) as nat, fns, locals);
    }
}

/// Checking a call returns exactly when it resolves.
pub proof fn lemma_call_resolves(c: CallV, fns: FnEnv, locals: TypeEnv)
    ensures
        tc_call(c, fns, locals) is Done <==> call_resolves(c, fns),
    decreases c,
{
    lemma_args_resolve(c.args, fns, locals);
    if let Some(f) = fns(c.id) {
        lemma_arg_types_found(f.params(), c.args, min_len(c.args.len(), f.params().len()), fns, locals);
    }
}

/// Checking a statement returns exactly when it resolves, whatever the
/// variables in scope.
pub proof fn lemma_node_resolves(n: NodeV, fns: FnEnv, locals: TypeEnv, current: Option<Seq<char>>)
    ensures
        tc_node(n, fns, locals, current) is Done <==> node_resolves(n, fns, current),
    decreases n,
{
    match n {
        NodeV::VarDecl { value, .. } => lemma_expr_resolves(value, fns, locals),
        NodeV::Return { value: Some(e) } => lemma_expr_resolves(e, fns, locals),
        NodeV::Return { value: None } => {},
        NodeV::Call(c) => lemma_call_resolves(c, fns, locals),
        NodeV::If(s) => lemma_if_resolves(s, fns, locals, current),
    }
}

/// Checking a block returns exactly when it resolves, whatever the variables
/// in scope.
pub proof fn lemma_block_resolves(nodes: Seq<NodeV>, fns: FnEnv, locals: TypeEnv, current: Option<Seq<char>>)
    ensures
        tc_block(nodes, fns, locals, current) is Done <==> block_resolves(nodes, fns, current),
    decreases nodes,
{
    if nodes.len() > 0 {
        let last = nodes[nodes.len() - 1];
        lemma_block_resolves(nodes.drop_last(), fns, locals, current);
        if let crate::type_checking::rules::Checked::Done(before) = tc_block(nodes.drop_last(), fns, locals, current) {
            lemma_node_resolves(last, fns, before.locals, current);
            if let NodeV::Return { value: Some(e) } = last {
                lemma_type_found(e, fns, before.locals);
            }
            assert(node_resolves(last, fns, current) ==> returned_value_type(last, fns, before.locals) is Done);
        }
    }
}

/// Checking an `else if` block returns exactly when it resolves.
pub proof fn lemma_else_if_resolves(b: ElseIfV, fns: FnEnv, locals: TypeEnv, current: Option<Seq<char>>)
    ensures
        tc_else_if(b, fns, locals, current) is Done <==> else_if_resolves(b, fns, current),
    decreases b,
{
    lemma_expr_resolves(b.check, fns, locals);
    lemma_block_resolves(b.block, fns, locals, current);
}

/// Checking `else if` blocks returns exactly when they resolve.
pub proof fn lemma_else_ifs_resolve(bs: Seq<ElseIfV>, fns: FnEnv, locals: TypeEnv, current: Option<Seq<char>>)
    ensures
        tc_else_ifs(bs, fns, locals, current) is Done <==> else_ifs_resolve(bs, fns, current),
    decreases bs,
{
    if bs.len() > 0 {
        lemma_else_ifs_resolve(bs.drop_last(), fns, locals, current);
        lemma_else_if_resolves(bs[bs.len() - 1], fns, locals, current);
    }
}

/// Checking an `if` statement returns exactly when it resolves.
pub proof fn lemma_if_resolves(s: IfV, fns: FnEnv, locals: TypeEnv, current: Option<Seq<char>>)
    ensures
        tc_if(s, fns, locals, current) is Done <==> if_resolves(s, fns, current),
    decreases s,
{
    lemma_expr_resolves(s.check, fns, locals);
    lemma_block_resolves(s.if_block, fns, locals, current);
    lemma_else_ifs_resolve(s.else_ifs, fns, locals, current);
    if let Some(b) = s.else_block {
        lemma_block_resolves(b, fns, locals, current);
    }
}

/// In a function that is declared to return nothing, a first top level
/// `return` statement with a value of some type is always reported.
pub proof fn lemma_void_return_reported(
    nodes: Seq<NodeV>,
    fns: FnEnv,
    locals: TypeEnv,
    id: Seq<char>,
    f: crate::ast::node::FuncV,
)
    requires
        fns(id) == Some(f),
        f.ret() is Void,
        tc_block(nodes, fns, locals, Some(id)) is Done,
        found_return(tc_block(nodes, fns, locals, Some(id))->Done_0.first_return) is Some,
    ensures
        tc_block(nodes, fns, locals, Some(id))->Done_0.messages.len() > 0,
    decreases nodes.len(),
{
    let before = tc_block(nodes.drop_last(), fns, locals, Some(id))->Done_0;
    let last = nodes[nodes.len() - 1];
    if found_return(before.first_return) is Some {
        lemma_void_return_reported(nodes.drop_last(), fns, locals, id, f);
    } else if before.first_return is None {
        let c = tc_node(last, fns, before.locals, Some(id))->Done_0;
        assert(c.returned);
        if let NodeV::Return { value: Some(e) } = last {
            let t = expr_type(e, fns, before.locals)->Done_0;
            assert(t is Some);
            assert(crate::type_checking::rules::return_check(t, fns, Some(id))->Done_0.len() == 1);
            assert(c.messages.len() > 0);
        }
    }
}

/// Checking the program's functions, each filed under its own name, returns
/// exactly where their bodies resolve.
proof fn lemma_functions_resolve(fs: Seq<(Seq<char>, crate::ast::node::FuncV)>, k: int)
    requires
        keys_unique(fs),
        forall|i: int| 0 <= i < fs.len() ==> (#[trigger] fs[i]).1.id() == fs[i].0,
        0 <= k <= fs.len(),
    ensures
        tc_functions(fs.take(k), checking_env(fs)) is Done <==> forall|i: int|
            0 <= i < k ==> #[trigger] function_resolves(fs[i], checking_env(fs)),
    decreases k,
{
    let fns = checking_env(fs);
    if k > 0 {
        lemma_functions_resolve(fs, k - 1);
        assert(fs.take(k).drop_last() =~= fs.take(k - 1));
        assert(fs.take(k)[k - 1] == fs[k - 1]);
        let (name, f) = fs[k - 1];
        if intrinsic_env()(name) is None {
            if let crate::ast::node::FuncV::Custom { id, params, ret, body, .. } = f {
                let locals = seq_insert_all(Seq::empty(), typed_parameters(params));
                lemma_block_resolves(body, fns, locals, Some(id));
                if tc_block(body, fns, locals, Some(id)) is Done {
                    let b = tc_block(body, fns, locals, Some(id))->Done_0;
                    lemma_lookup_at(fs, k - 1);
                    assert(fns(id) == Some(f));
                    if b.messages.len() == 0 && found_return(b.first_return) is Some && ret is Void {
                        lemma_void_return_reported(body, fns, locals, id, f);
                    }
                }
            }
        }
        assert((forall|i: int| 0 <= i < k ==> #[trigger] function_resolves(fs[i], fns)) <==> ((forall|i: int|
            0 <= i < k - 1 ==> #[trigger] function_resolves(fs[i], fns)) && function_resolves(fs[k - 1], fns)));
    }
}

/// Checking the function filed under a name returns: one named like an
/// intrinsic function is not checked, and a declared function's body must
/// resolve.
pub open spec fn function_resolves(entry: (Seq<char>, crate::ast::node::FuncV), fns: FnEnv) -> bool {
    intrinsic_env()(entry.0) is None ==> match entry.1 {
        crate::ast::node::FuncV::Custom { id, body, .. } => block_resolves(body, fns, Some(id)),
        crate::ast::node::FuncV::Intrinsic { .. } => true,
    }
}

/// Type checking a program whose functions are each filed under their own
/// name, once, returns exactly where its statements and the bodies of its
/// functions resolve: it never meets a function that returns a value although
/// it is declared to return nothing without having reported it.
pub proof fn law_checking_returns_where_calls_resolve(fs: Seq<(Seq<char>, crate::ast::node::FuncV)>, nodes: Seq<NodeV>)
    requires
        keys_unique(fs),
        forall|i: int| 0 <= i < fs.len() ==> (#[trigger] fs[i]).1.id() == fs[i].0,
    ensures
        tc_program(fs, nodes) is Done <==> (block_resolves(nodes, checking_env(fs), None) && forall|i: int|
            0 <= i < fs.len() ==> #[trigger] function_resolves(fs[i], checking_env(fs))),
{
    lemma_block_resolves(nodes, checking_env(fs), Seq::empty(), None);
    lemma_functions_resolve(fs, fs.len() as int);
    assert(fs.take(fs.len() as int) =~= fs);
}

/// An `if` statement is checked with its blocks in scopes of their own: the
/// variables in scope after it are those before it.
pub proof fn law_if_keeps_checked_scope(s: IfV, fns: FnEnv, locals: TypeEnv, current: Option<Seq<char>>)
    ensures
        tc_node(NodeV::If(s), fns, locals, current) matches crate::type_checking::rules::Checked::Done(c)
            ==> c.locals == locals && !c.returned,
{
}

/// Whether the type of `e` can be found.
pub fn finds_type(e: &Expression, functions: &Table<FunctionId, Function>) -> (b: bool)
    ensures
        b == type_found(e@, fn_env(functions@)),
{
    match e {
        Expression::FunctionCall(c) => {
            proof {
                lemma_call_view(*c);
            }
            functions.contains_key(&c.function_id)
        },
        _ => true,
    }
}

/// Whether checking the expression returns.
pub fn expression_resolves(e: &Expression, functions: &Table<FunctionId, Function>) -> (b: bool)
    ensures
        b == expr_resolves(e@, fn_env(functions@)),
    decreases e,
{
    match e {
        Expression::FunctionCall(c) => {
            proof {
                lemma_call_view(*c);
            }
            call_resolves_in(c, functions)
        },
        Expression::Operation(Operation::Unary { value, .. }) => {
            let a = expression_resolves(value, functions);
            let b = finds_type(value, functions);
            a && b
        },
        Expression::Operation(Operation::Binary { left, right, .. }) => {
            let a = expression_resolves(left, functions);
            let b = expression_resolves(right, functions);
            let c = finds_type(left, functions);
            let d = finds_type(right, functions);
            a && b && c && d
        },
        _ => true,
    }
}

/// Whether checking the call returns.
pub fn call_resolves_in(c: &FunctionCall, functions: &Table<FunctionId, Function>) -> (b: bool)
    ensures
        b == call_resolves(c@, fn_env(functions@)),
    decreases c,
{
    let ghost fns = fn_env(functions@);
    let ghost args = c@.args;
    let mut ok = true;
    let mut i: usize = 0;
    assert(args.take(0) =~= Seq::<ExprV>::empty());
    while i < c.parameters.len()
        invariant
            i <= c.parameters@.len(),
            args == exprs_view(c.parameters@),
            fns == fn_env(functions@),
            ok == args_resolve(args.take(i as int), fns),
        decreases c.parameters@.len() - i,
    {
        proof {
            assert(decreases_to!(*c => c.parameters));
            assert(decreases_to!(c.parameters => c.parameters@));
            assert(decreases_to!(c.parameters@ => c.parameters@[i as int]));
            assert(args.take(i + 1).drop_last() =~= args.take(i as int));
            assert(args.take(i + 1)[i as int] == c.parameters@[i as int]@);
        }
        let r = expression_resolves(&c.parameters[i], functions);
        ok = ok && r;
        i += 1;
    }
    assert(args.take(args.len() as int) =~= args);
    match functions.get(&c.function_id) {
        Some(function) => {
            let function_params = function.parameters();
            let n: usize = if c.parameters.len() < function_params.len() {
                c.parameters.len()
            } else {
                function_params.len()
            };
            assert(fns(c@.id) == Some(function@));
            let mut found = true;
            let mut j: usize = 0;
            while j < n
                invariant
                    j <= n,
                    n == min_len(args.len(), function@.params().len()),
                    args == exprs_view(c.parameters@),
                    n <= c.parameters@.len(),
                    fns == fn_env(functions@),
                    found == arg_types_found(args, j as nat, fns),
                decreases n - j,
            {
                assert(args[j as int] == c.parameters@[j as int]@);
                let t = finds_type(&c.parameters[j], functions);
                found = found && t;
                j += 1;
            }
            ok && found
        },
        None => ok,
    }
}

/// Whether checking the statement returns, in the function `current` or at
/// the top level.
pub fn node_resolves_in(n: &Node, functions: &Table<FunctionId, Function>, current: Option<&FunctionId>) -> (b:
    bool)
    ensures
        b == node_resolves(n@, fn_env(functions@), current_name(current)),
    decreases n,
{
    match n {
        Node::VariableDeclaration { value, .. } => {
            let a = finds_type(value, functions);
            let b = expression_resolves(value, functions);
            a && b
        },
        Node::FunctionReturn { return_value } => {
            let in_scope = match current {
                Some(id) => functions.contains_key(id),
                None => true,
            };
            match return_value {
                Some(e) => {
                    let a = finds_type(e, functions);
                    let b = expression_resolves(e, functions);
                    a && b && in_scope
                },
                None => in_scope,
            }
        },
        Node::FunctionCall(c) => {
            proof {
                lemma_call_view(*c);
            }
            call_resolves_in(c, functions)
        },
        Node::IfStatement(s) => {
            proof {
                lemma_if_view(*s);
            }
            if_resolves_in(s, functions, current)
        },
    }
}

/// Whether checking the block returns.
pub fn block_resolves_in(nodes: &[Node], functions: &Table<FunctionId, Function>, current: Option<&FunctionId>) -> (b:
    bool)
    ensures
        b == block_resolves(nodes_view(nodes@), fn_env(functions@), current_name(current)),
    decreases nodes@,
{
    let ghost nv = nodes_view(nodes@);
    let ghost fns = fn_env(functions@);
    let ghost cur = current_name(current);
    let mut ok = true;
    let mut i: usize = 0;
    assert(nv.take(0) =~= Seq::<NodeV>::empty());
    while i < nodes.len()
        invariant
            i <= nodes@.len(),
            nv == nodes_view(nodes@),
            fns == fn_env(functions@),
            cur == current_name(current),
            ok == block_resolves(nv.take(i as int), fns, cur),
        decreases nodes@.len() - i,
    {
        proof {
            assert(decreases_to!(nodes@ => nodes@[i as int]));
            assert(nv.take(i + 1).drop_last() =~= nv.take(i as int));
            assert(nv.take(i + 1)[i as int] == nodes@[i as int]@);
        }
        let r = node_resolves_in(&nodes[i], functions, current);
        ok = ok && r;
        i += 1;
    }
    assert(nv.take(nodes@.len() as int) =~= nv);
    ok
}

/// Whether checking the `if` statement returns.
pub fn if_resolves_in(s: &IfStatement, functions: &Table<FunctionId, Function>, current: Option<&FunctionId>) -> (b:
    bool)
    ensures
        b == if_resolves(s@, fn_env(functions@), current_name(current)),
    decreases s,
{
    let ghost fns = fn_env(functions@);
    let ghost cur = current_name(current);
    let ghost v = s@;
    let a = finds_type(&s.check_expression, functions);
    let b = expression_resolves(&s.check_expression, functions);
    proof {
        assert(decreases_to!(*s => s.if_block));
        assert(decreases_to!(s.if_block => s.if_block@));
    }
    let c = block_resolves_in(s.if_block.as_slice(), functions, current);
    let mut ok = true;
    let mut j: usize = 0;
    assert(v.else_ifs.take(0) =~= Seq::<ElseIfV>::empty());
    while j < s.else_if_blocks.len()
        invariant
            j <= s.else_if_blocks@.len(),
            v == s@,
            fns == fn_env(functions@),
            cur == current_name(current),
            ok == else_ifs_resolve(v.else_ifs.take(j as int), fns, cur),
        decreases s.else_if_blocks@.len() - j,
    {
        proof {
            assert(decreases_to!(*s => s.else_if_blocks));
            assert(decreases_to!(s.else_if_blocks => s.else_if_blocks@));
            assert(decreases_to!(s.else_if_blocks@ => s.else_if_blocks@[j as int]));
            assert(decreases_to!(s.else_if_blocks@[j as int] => s.else_if_blocks@[j as int].block));
            assert(decreases_to!(s.else_if_blocks@[j as int].block => s.else_if_blocks@[j as int].block@));
            assert(v.else_ifs.take(j + 1).drop_last() =~= v.else_ifs.take(j as int));
            assert(v.else_ifs.take(j + 1)[j as int] == s.else_if_blocks@[j as int]@);
        }
        let block = &s.else_if_blocks[j];
        let x = finds_type(&block.check, functions);
        let y = expression_resolves(&block.check, functions);
        let z = block_resolves_in(block.block.as_slice(), functions, current);
        assert(else_if_resolves(block@, fns, cur) == (x && y && z));
        assert(else_ifs_resolve(v.else_ifs.take(j + 1), fns, cur) == (else_ifs_resolve(
            v.else_ifs.take(j as int),
            fns,
            cur,
        ) && else_if_resolves(block@, fns, cur)));
        ok = ok && x && y && z;
        j += 1;
    }
    assert(v.else_ifs.take(s.else_if_blocks@.len() as int) =~= v.else_ifs);
    let d = match &s.else_block {
        Some(else_block) => {
            proof {
                assert(decreases_to!(*s => s.else_block));
                assert(decreases_to!(s.else_block => *else_block));
                assert(decreases_to!(*else_block => else_block@));
            }
            block_resolves_in(else_block.as_slice(), functions, current)
        },
        None => true,
    };
    a && b && c && ok && d
}

} // verus!
