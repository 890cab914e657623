//! Evaluation of expressions.

use vstd::prelude::*;

use crate::ast::node::{lemma_call_view, Expression, Function, FunctionCall, FunctionId, FunctionReturnType, Value};
use crate::evaluation::function::eval_function_core;
use crate::evaluation::operation::eval_operation;
use crate::evaluation::semantics::{eval_call_value, eval_expr, evaluation_budget, fn_env, Eval};
use crate::table::Table;

verus! {

/// The core of [`Expression::evaluate`]: every outcome.
pub(crate) fn eval_expression(
    e: &Expression,
    functions: &Table<FunctionId, Function>,
    local_variables: &Table<String, Value>,
    call_stack: &mut Vec<FunctionId>,
    output: &mut Vec<Value>,
    fuel: u64,
) -> (r: Eval<Value>)
    ensures
        (final(output)@, r) == eval_expr(
            fuel as nat,
            e@,
            fn_env(functions@),
            local_variables@,
            old(output)@,
        ),
        r is Done ==> final(call_stack)@ == old(call_stack)@,
    decreases fuel, 0nat,
{
    if fuel == 0 {
        return Eval::Exhausted;
    }
    match e {
        Expression::ValueLiteral(value) => Eval::Done(*value),
        Expression::FunctionCall(function_call) => {
            proof {
                lemma_call_view(*function_call);
            }
            eval_call_value_core(
                function_call,
                functions,
                local_variables,
                call_stack,
                output,
                fuel - 1,
            )
        },
        Expression::Operation(operation) => eval_operation(
            operation,
            functions,
            local_variables,
            call_stack,
            output,
            fuel - 1,
        ),
        Expression::VariableAccess(variable_name) => match local_variables.get(variable_name) {
            Some(v) => Eval::Done(*v),
            None => Eval::Fault,
        },
    }
}

/// The core of [`evaluate_function_call`]: every outcome.
pub(crate) fn eval_call_value_core(
    function_call: &FunctionCall,
    functions: &Table<FunctionId, Function>,
    local_variables: &Table<String, Value>,
    call_stack: &mut Vec<FunctionId>,
    output: &mut Vec<Value>,
    fuel: u64,
) -> (r: Eval<Value>)
    ensures
        (final(output)@, r) == eval_call_value(
            fuel as nat,
            function_call@,
            fn_env(functions@),
            local_variables@,
            old(output)@,
        ),
        r is Done ==> final(call_stack)@ == old(call_stack)@,
    decreases fuel, 0nat,
{
    if fuel == 0 {
        return Eval::Exhausted;
    }
    let function = match functions.get(&function_call.function_id) {
        Some(f) => f,
        None => return Eval::Fault,
    };
    if matches!(function.return_type(), FunctionReturnType::Void) {
        return Eval::Fault;
    }
    match eval_function_core(
        function,
        &function_call.parameters,
        local_variables,
        functions,
        call_stack,
        output,
        fuel - 1,
    ) {
        Eval::Done(Some(v)) => Eval::Done(v),
        Eval::Done(None) => Eval::Fault,
        Eval::Fault => Eval::Fault,
        Eval::Exhausted => Eval::Exhausted,
    }
}

impl Expression {
    /// The value of the expression: a literal is itself, a variable has the
    /// value it is bound to, a call has the value its function returns, an
    /// operation the value it computes.
    pub fn evaluate(
        &self,
        functions: &Table<FunctionId, Function>,
        local_variables: &Table<String, Value>,
        call_stack: &mut Vec<FunctionId>,
        output: &mut Vec<Value>,
    ) -> (v: Value)
        requires
            eval_expr(
                evaluation_budget(),
                self@,
                fn_env(functions@),
                local_variables@,
                old(output)@,
            ).1 is Done,
        ensures
            (final(output)@, Eval::Done(v)) == eval_expr(
                evaluation_budget(),
                self@,
                fn_env(functions@),
                local_variables@,
                old(output)@,
            ),
            final(call_stack)@ == old(call_stack)@,
    {
        match eval_expression(self, functions, local_variables, call_stack, output, u64::MAX) {
            Eval::Done(v) => v,
            _ => vstd::pervasive::unreached(),
        }
    }
}

/// The value a call returns: the called function must exist, must have a
/// return type, and must return a value.
pub fn evaluate_function_call(
    function_call: &FunctionCall,
    functions: &Table<FunctionId, Function>,
    local_variables: &Table<String, Value>,
    call_stack: &mut Vec<FunctionId>,
    output: &mut Vec<Value>,
) -> (v: Value)
    requires
        eval_call_value(
            evaluation_budget(),
            function_call@,
            fn_env(functions@),
            local_variables@,
            old(output)@,
        ).1 is Done,
    ensures
        (final(output)@, Eval::Done(v)) == eval_call_value(
            evaluation_budget(),
            function_call@,
            fn_env(functions@),
            local_variables@,
            old(output)@,
        ),
        final(call_stack)@ == old(call_stack)@,
{
    match eval_call_value_core(function_call, functions, local_variables, call_stack, output, u64::MAX) {
        Eval::Done(v) => v,
        _ => vstd::pervasive::unreached(),
    }
}

} // verus!
