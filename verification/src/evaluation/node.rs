//! Running one statement.

use vstd::prelude::*;

use crate::ast::node::{lemma_call_view, lemma_if_view, Function, FunctionId, Node, Value};
use crate::evaluation::expression::eval_expression;
use crate::evaluation::function::eval_function_core;
use crate::evaluation::if_statement::eval_if_core;
use crate::evaluation::semantics::{eval_node, evaluation_budget, fn_env, Eval, NodeResult};
use crate::table::Table;

verus! {

/// The core of [`Node::evaluate`]: every outcome.
pub(crate) fn eval_node_core(
    node: &Node,
    local_variables: &mut Table<String, Value>,
    call_stack: &mut Vec<FunctionId>,
    functions: &Table<FunctionId, Function>,
    output: &mut Vec<Value>,
    fuel: u64,
) -> (r: Eval<NodeResult>)
    ensures
        (final(output)@, final(local_variables)@, r) == eval_node(
            fuel as nat,
            node@,
            fn_env(functions@),
            old(local_variables)@,
            old(output)@,
        ),
        r is Done ==> final(call_stack)@ == old(call_stack)@,
    decreases fuel, 0nat,
{
    if fuel == 0 {
        return Eval::Exhausted;
    }
    match node {
        Node::VariableDeclaration { var_name, value, .. } => {
            match eval_expression(value, functions, local_variables, call_stack, output, fuel - 1) {
                Eval::Done(v) => {
                    local_variables.insert(var_name.clone(), v);
                    Eval::Done(NodeResult::NoReturn)
                },
                Eval::Fault => Eval::Fault,
                Eval::Exhausted => Eval::Exhausted,
            }
        },
        Node::FunctionReturn { return_value } => match return_value {
            None => Eval::Done(NodeResult::FunctionReturn { value: None }),
            Some(expression) => match eval_expression(
                expression,
                functions,
                local_variables,
                call_stack,
                output,
                fuel - 1,
            ) {
                Eval::Done(v) => Eval::Done(NodeResult::FunctionReturn { value: Some(v) }),
                Eval::Fault => Eval::Fault,
                Eval::Exhausted => Eval::Exhausted,
            },
        },
        Node::FunctionCall(function_call) => {
            proof {
                lemma_call_view(*function_call);
            }
            let function = match functions.get(&function_call.function_id) {
                Some(f) => f,
                None => {
                    return Eval::Fault;
                },
            };
            match eval_function_core(
                function,
                &function_call.parameters,
                local_variables,
                functions,
                call_stack,
                output,
                fuel - 1,
            ) {
                Eval::Done(_) => Eval::Done(NodeResult::NoReturn),
                Eval::Fault => Eval::Fault,
                Eval::Exhausted => Eval::Exhausted,
            }
        },
        Node::IfStatement(if_statement) => {
            proof {
                lemma_if_view(*if_statement);
            }
            eval_if_core(if_statement, functions, local_variables, call_stack, output, fuel - 1)
        },
    }
}

impl Node {
    /// Runs the statement: a declaration binds its variable in
    /// `local_variables` to the value of its expression, a `return` returns the
    /// value of its expression if it has one, a call calls its function and
    /// drops what it returns, an `if` statement runs the block it selects.
    pub fn evaluate(
        &self,
        local_variables: &mut Table<String, Value>,
        call_stack: &mut Vec<FunctionId>,
        functions: &Table<FunctionId, Function>,
        output: &mut Vec<Value>,
    ) -> (r: NodeResult)
        requires
            eval_node(
                evaluation_budget(),
                self@,
                fn_env(functions@),
                old(local_variables)@,
                old(output)@,
            ).2 is Done,
        ensures
            (final(output)@, final(local_variables)@, Eval::Done(r)) == eval_node(
                evaluation_budget(),
                self@,
                fn_env(functions@),
                old(local_variables)@,
                old(output)@,
            ),
            final(call_stack)@ == old(call_stack)@,
    {
        match eval_node_core(self, local_variables, call_stack, functions, output, u64::MAX) {
            Eval::Done(r) => r,
            _ => vstd::pervasive::unreached(),
        }
    }
}

} // verus!
