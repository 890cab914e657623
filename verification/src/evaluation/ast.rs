//! Running blocks of statements, and whole programs.

use vstd::prelude::*;

use crate::ast::node::{nodes_view, Ast, Function, FunctionId, Node, Value};
use crate::evaluation::node::eval_node_core;
use crate::evaluation::semantics::{
    eval_block, eval_nodes, evaluation_budget, fn_env, fn_overlay, Eval, FnEnv, NodeResult,
};
use crate::table::{seq_lookup, Table};

verus! {

/// The core of [`evaluate_nodes`]: every outcome.
#[verifier::loop_isolation(false)]
pub(crate) fn eval_nodes_core(
    nodes: &[Node],
    local_variables: &Table<String, Value>,
    call_stack: &mut Vec<FunctionId>,
    functions: &Table<FunctionId, Function>,
    output: &mut Vec<Value>,
    fuel: u64,
) -> (r: Eval<NodeResult>)
    ensures
        (final(output)@, r) == eval_nodes(
            fuel as nat,
            nodes_view(nodes@),
            fn_env(functions@),
            local_variables@,
            old(output)@,
        ),
        r is Done ==> final(call_stack)@ == old(call_stack)@,
    decreases fuel, 0nat,
{
    if fuel == 0 {
        return Eval::Exhausted;
    }
    let ghost nv = nodes_view(nodes@);
    let ghost fns = fn_env(functions@);
    let ghost out0 = output@;
    let ghost stack0 = call_stack@;
    let mut locals = local_variables.copy();
    let mut i: usize = 0;
    while i < nodes.len()
        invariant
            i <= nodes@.len(),
            fuel > 0,
            nv == nodes_view(nodes@),
            fns == fn_env(functions@),
            call_stack@ == stack0,
            eval_block((fuel - 1) as nat, nv, 0, fns, local_variables@, out0) == eval_block(
                (fuel - 1) as nat,
                nv,
                i as nat,
                fns,
                locals@,
                output@,
            ),
        decreases nodes@.len() - i,
    {
        assert(nv[i as int] == nodes@[i as int]@);
        match eval_node_core(&nodes[i], &mut locals, call_stack, functions, output, fuel - 1) {
            Eval::Done(NodeResult::NoReturn) => {},
            Eval::Done(ret) => {
                return Eval::Done(ret);
            },
            Eval::Fault => {
                return Eval::Fault;
            },
            Eval::Exhausted => {
                return Eval::Exhausted;
            },
        }
        i += 1;
    }
    Eval::Done(NodeResult::NoReturn)
}

/// Runs a block: its statements in order, in a scope of its own that starts as
/// a copy of `local_variables`, until one of them returns; the result is that
/// return, or `NoReturn` when the block runs to its end.
pub fn evaluate_nodes(
    nodes: &[Node],
    local_variables: &Table<String, Value>,
    call_stack: &mut Vec<FunctionId>,
    functions: &Table<FunctionId, Function>,
    output: &mut Vec<Value>,
) -> (r: NodeResult)
    requires
        eval_nodes(
            evaluation_budget(),
            nodes_view(nodes@),
            fn_env(functions@),
            local_variables@,
            old(output)@,
        ).1 is Done,
    ensures
        (final(output)@, Eval::Done(r)) == eval_nodes(
            evaluation_budget(),
            nodes_view(nodes@),
            fn_env(functions@),
            local_variables@,
            old(output)@,
        ),
        final(call_stack)@ == old(call_stack)@,
{
    match eval_nodes_core(nodes, local_variables, call_stack, functions, output, u64::MAX) {
        Eval::Done(r) => r,
        _ => vstd::pervasive::unreached(),
    }
}

/// The functions a program runs with: its own, and those of `outer` whose
/// names it does not declare.
pub open spec fn program_functions(program: Seq<(Seq<char>, Function)>, outer: Seq<(Seq<char>, Function)>) -> FnEnv {
    fn_overlay(fn_env(program), fn_env(outer))
}

/// The table `outer` extended by the functions of `own`, which replace those
/// of the same name.
pub fn with_functions(own: &Table<FunctionId, Function>, outer: Table<FunctionId, Function>) -> (t: Table<
    FunctionId,
    Function,
>)
    ensures
        fn_env(t@) == fn_overlay(fn_env(own@), fn_env(outer@)),
{
    let ghost outer_view = outer@;
    let ghost own_view = own@;
    let mut t = outer;
    let mut i: usize = 0;
    while i < own.len()
        invariant
            i <= own_view.len(),
            own_view == own@,
            forall|k: Seq<char>| #[trigger]
                fn_env(t@)(k) == match seq_lookup(own_view.take(i as int), k) {
                    Some(f) => Some(f@),
                    None => fn_env(outer_view)(k),
                },
        decreases own_view.len() - i,
    {
        let (key, function) = own.entry_at(i);
        let k = key.duplicate();
        let f = function.duplicate();
        let ghost before = t@;
        t.insert(k, f);
        assert(own_view.take(i + 1).drop_last() =~= own_view.take(i as int));
        assert forall|k2: Seq<char>| #[trigger]
            fn_env(t@)(k2) == match seq_lookup(own_view.take(i + 1), k2) {
                Some(g) => Some(g@),
                None => fn_env(outer_view)(k2),
            } by {
            assert(own_view.take(i + 1).last() == own_view[i as int]);
            assert(fn_env(before)(k2) == match seq_lookup(own_view.take(i as int), k2) {
                Some(g) => Some(g@),
                None => fn_env(outer_view)(k2),
            });
            assert(t.lookup(k2) == if k2 == own_view[i as int].0 {
                Some(f)
            } else {
                seq_lookup(before, k2)
            });
        }
        i += 1;
    }
    assert(own_view.take(i as int) =~= own_view);
    assert(fn_env(t@) =~= fn_overlay(fn_env(own_view), fn_env(outer_view)));
    t
}

impl Ast {
    /// Runs the program: its statements in order, starting with the variables
    /// `local_variables`, with its own functions and those of `functions`
    /// whose names it does not declare.
    pub fn evaluate(
        &self,
        local_variables: Table<String, Value>,
        functions: Table<FunctionId, Function>,
        output: &mut Vec<Value>,
    ) -> (r: NodeResult)
        requires
            eval_nodes(
                evaluation_budget(),
                nodes_view(self.nodes@),
                program_functions(self.functions@, functions@),
                local_variables@,
                old(output)@,
            ).1 is Done,
        ensures
            (final(output)@, Eval::Done(r)) == eval_nodes(
                evaluation_budget(),
                nodes_view(self.nodes@),
                program_functions(self.functions@, functions@),
                local_variables@,
                old(output)@,
            ),
    {
        match self.try_evaluate(local_variables, functions, output) {
            Eval::Done(r) => r,
            _ => vstd::pervasive::unreached(),
        }
    }

    /// Runs the program as [`Ast::evaluate`] does, with every outcome: a
    /// fault where the evaluator meets a state it rejects, such as a sum that
    /// does not fit in 32 bits, and exhaustion where calls nest deeper than
    /// the budget allows.
    pub fn try_evaluate(
        &self,
        local_variables: Table<String, Value>,
        functions: Table<FunctionId, Function>,
        output: &mut Vec<Value>,
    ) -> (r: Eval<NodeResult>)
        ensures
            (final(output)@, r) == eval_nodes(
                evaluation_budget(),
                nodes_view(self.nodes@),
                program_functions(self.functions@, functions@),
                local_variables@,
                old(output)@,
            ),
    {
        let all = with_functions(&self.functions, functions);
        let mut call_stack: Vec<FunctionId> = Vec::new();
        eval_nodes_core(self.nodes.as_slice(), &local_variables, &mut call_stack, &all, output, u64::MAX)
    }
}

} // verus!
