//! Calling functions.

use vstd::prelude::*;

use crate::ast::node::{exprs_view, nodes_view, params_view, Expression, Function, FunctionId, Node, Value};
use crate::evaluation::ast::eval_nodes_core;
use crate::evaluation::expression::eval_expression;
use crate::evaluation::intrinsics::eval_intrinsic_core;
use crate::evaluation::semantics::{
    bind_parameters, eval_args, eval_function, eval_nodes, evaluation_budget, fn_env, Eval, NodeResult,
};
use crate::table::{Table, TableKey};

verus! {

/// What a call of a declared function returns, given what running its body
/// produced.
pub open spec fn custom_result(r: Eval<NodeResult>) -> Eval<Option<Value>> {
    match r {
        Eval::Done(NodeResult::FunctionReturn { value }) => Eval::Done(value),
        Eval::Done(NodeResult::NoReturn) => Eval::Done(None),
        Eval::Fault => Eval::Fault,
        Eval::Exhausted => Eval::Exhausted,
    }
}

/// The core of [`evaluate_custom_function`]: every outcome.
pub(crate) fn eval_custom_core(
    id: &FunctionId,
    body: &[Node],
    parameters: Table<String, Value>,
    call_stack: &mut Vec<FunctionId>,
    functions: &Table<FunctionId, Function>,
    output: &mut Vec<Value>,
    fuel: u64,
) -> (r: Eval<Option<Value>>)
    ensures
        final(output)@ == eval_nodes(
            fuel as nat,
            nodes_view(body@),
            fn_env(functions@),
            parameters@,
            old(output)@,
        ).0,
        r == custom_result(
            eval_nodes(fuel as nat, nodes_view(body@), fn_env(functions@), parameters@, old(output)@).1,
        ),
        r is Done ==> final(call_stack)@ == old(call_stack)@,
    decreases fuel, 1nat,
{
    call_stack.push(id.duplicate());
    let r = eval_nodes_core(body, &parameters, call_stack, functions, output, fuel);
    call_stack.pop();
    match r {
        Eval::Done(NodeResult::FunctionReturn { value }) => Eval::Done(value),
        Eval::Done(NodeResult::NoReturn) => Eval::Done(None),
        Eval::Fault => Eval::Fault,
        Eval::Exhausted => Eval::Exhausted,
    }
}

/// The core of [`Function::evaluate`]: every outcome.
#[verifier::loop_isolation(false)]
pub(crate) fn eval_function_core(
    function: &Function,
    parameter_expressions: &Vec<Expression>,
    local_variables: &Table<String, Value>,
    functions: &Table<FunctionId, Function>,
    call_stack: &mut Vec<FunctionId>,
    output: &mut Vec<Value>,
    fuel: u64,
) -> (r: Eval<Option<Value>>)
    ensures
        (final(output)@, r) == eval_function(
            fuel as nat,
            function@,
            exprs_view(parameter_expressions@),
            fn_env(functions@),
            local_variables@,
            old(output)@,
        ),
        r is Done ==> final(call_stack)@ == old(call_stack)@,
    decreases fuel, 0nat,
{
    if fuel == 0 {
        return Eval::Exhausted;
    }
    let parameters = function.parameters();
    if parameter_expressions.len() != parameters.len() {
        return Eval::Fault;
    }
    let ghost args = exprs_view(parameter_expressions@);
    let ghost fns = fn_env(functions@);
    let ghost out0 = output@;
    let ghost stack0 = call_stack@;
    let mut values: Vec<Value> = Vec::new();
    let mut i: usize = 0;
    while i < parameter_expressions.len()
        invariant
            i <= parameter_expressions@.len(),
            values@.len() == i,
            parameters@.len() == parameter_expressions@.len(),
            fuel > 0,
            args == exprs_view(parameter_expressions@),
            fns == fn_env(functions@),
            call_stack@ == stack0,
            eval_args((fuel - 1) as nat, args, 0, fns, local_variables@, Seq::empty(), out0)
                == eval_args((fuel - 1) as nat, args, i as nat, fns, local_variables@, values@, output@),
        decreases parameter_expressions@.len() - i,
    {
        assert(args[i as int] == parameter_expressions@[i as int]@);
        match eval_expression(
            &parameter_expressions[i],
            functions,
            local_variables,
            call_stack,
            output,
            fuel - 1,
        ) {
            Eval::Done(v) => values.push(v),
            Eval::Fault => return Eval::Fault,
            Eval::Exhausted => return Eval::Exhausted,
        }
        i += 1;
    }
    let mut pairs: Vec<(String, Value)> = Vec::new();
    let mut j: usize = 0;
    while j < parameters.len()
        invariant
            j <= parameters@.len(),
            values@.len() == parameters@.len(),
            pairs@.len() == j,
            forall|k: int|
                0 <= k < j ==> (#[trigger] pairs@[k]).0@ == parameters@[k]@.name() && pairs@[k].1
                    == values@[k],
        decreases parameters@.len() - j,
    {
        pairs.push((parameters[j].name().to_owned(), values[j]));
        j += 1;
    }
    let ghost ps = function@.params();
    assert(pairs@.map_values(|e: (String, Value)| (e.0.key_view(), e.1)) =~= Seq::new(
        ps.len(),
        |k: int| (ps[k].name(), values@[k]),
    )) by {
        assert(ps == params_view(parameters@));
    }
    let bound = Table::from_pairs(pairs);
    assert(bound@ == bind_parameters(ps, values@));
    match function {
        Function::CustomFunction { id, body, .. } => eval_custom_core(
            id,
            body.as_slice(),
            bound,
            call_stack,
            functions,
            output,
            fuel - 1,
        ),
        Function::Intrinsic { id, .. } => eval_intrinsic_core(id, &bound, output),
    }
}

/// Calls a declared function: pushes it on the call stack, runs its body with
/// `parameters` in scope, and pops it; the result is the value of the `return`
/// statement reached, if any.
pub fn evaluate_custom_function(
    id: &FunctionId,
    body: &[Node],
    parameters: Table<String, Value>,
    call_stack: &mut Vec<FunctionId>,
    functions: &Table<FunctionId, Function>,
    output: &mut Vec<Value>,
) -> (r: Option<Value>)
    requires
        eval_nodes(
            evaluation_budget(),
            nodes_view(body@),
            fn_env(functions@),
            parameters@,
            old(output)@,
        ).1 is Done,
    ensures
        final(output)@ == eval_nodes(
            evaluation_budget(),
            nodes_view(body@),
            fn_env(functions@),
            parameters@,
            old(output)@,
        ).0,
        Eval::Done(r) == custom_result(
            eval_nodes(
                evaluation_budget(),
                nodes_view(body@),
                fn_env(functions@),
                parameters@,
                old(output)@,
            ).1,
        ),
        final(call_stack)@ == old(call_stack)@,
{
    match eval_custom_core(id, body, parameters, call_stack, functions, output, u64::MAX) {
        Eval::Done(r) => r,
        _ => vstd::pervasive::unreached(),
    }
}

impl Function {
    /// Calls the function with the values of `parameter_expressions`, evaluated
    /// from left to right in the caller's scope; the function then runs with
    /// only its parameters in scope.
    pub fn evaluate(
        &self,
        parameter_expressions: Vec<Expression>,
        local_variables: &Table<String, Value>,
        functions: &Table<FunctionId, Function>,
        call_stack: &mut Vec<FunctionId>,
        output: &mut Vec<Value>,
    ) -> (r: Option<Value>)
        requires
            eval_function(
                evaluation_budget(),
                self@,
                exprs_view(parameter_expressions@),
                fn_env(functions@),
                local_variables@,
                old(output)@,
            ).1 is Done,
        ensures
            (final(output)@, Eval::Done(r)) == eval_function(
                evaluation_budget(),
                self@,
                exprs_view(parameter_expressions@),
                fn_env(functions@),
                local_variables@,
                old(output)@,
            ),
            final(call_stack)@ == old(call_stack)@,
    {
        match eval_function_core(
            self,
            &parameter_expressions,
            local_variables,
            functions,
            call_stack,
            output,
            u64::MAX,
        ) {
            Eval::Done(r) => r,
            _ => vstd::pervasive::unreached(),
        }
    }
}

} // verus!
