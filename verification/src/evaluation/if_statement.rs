//! Running `if` statements.

use vstd::prelude::*;

use crate::ast::node::{BoolValue, Function, FunctionId, IfStatement, Value};
use crate::evaluation::ast::eval_nodes_core;
use crate::evaluation::expression::eval_expression;
use crate::evaluation::semantics::{
    eval_else_ifs, eval_if, evaluation_budget, fn_env, Eval, NodeResult,
};
use crate::table::Table;

verus! {

/// The core of [`IfStatement::evaluate`]: every outcome.
#[verifier::loop_isolation(false)]
pub(crate) fn eval_if_core(
    s: &IfStatement,
    functions: &Table<FunctionId, Function>,
    local_variables: &Table<String, Value>,
    call_stack: &mut Vec<FunctionId>,
    output: &mut Vec<Value>,
    fuel: u64,
) -> (r: Eval<NodeResult>)
    ensures
        (final(output)@, r) == eval_if(
            fuel as nat,
            s@,
            fn_env(functions@),
            local_variables@,
            old(output)@,
        ),
        r is Done ==> final(call_stack)@ == old(call_stack)@,
    decreases fuel, 0nat,
{
    if fuel == 0 {
        return Eval::Exhausted;
    }
    match eval_expression(
        &s.check_expression,
        functions,
        local_variables,
        call_stack,
        output,
        fuel - 1,
    ) {
        Eval::Done(Value::Boolean(BoolValue(true))) => {
            return eval_nodes_core(
                s.if_block.as_slice(),
                local_variables,
                call_stack,
                functions,
                output,
                fuel - 1,
            );
        },
        Eval::Done(Value::Boolean(BoolValue(false))) => {},
        Eval::Done(Value::UInt(_)) => {
            return Eval::Fault;
        },
        Eval::Fault => {
            return Eval::Fault;
        },
        Eval::Exhausted => {
            return Eval::Exhausted;
        },
    }
    let ghost sv = s@;
    let ghost fns = fn_env(functions@);
    let ghost out1 = output@;
    let ghost stack0 = call_stack@;
    let mut j: usize = 0;
    while j < s.else_if_blocks.len()
        invariant
            j <= s.else_if_blocks@.len(),
            fuel > 0,
            sv == s@,
            fns == fn_env(functions@),
            call_stack@ == stack0,
            eval_else_ifs((fuel - 1) as nat, sv, 0, fns, local_variables@, out1) == eval_else_ifs(
                (fuel - 1) as nat,
                sv,
                j as nat,
                fns,
                local_variables@,
                output@,
            ),
        decreases s.else_if_blocks@.len() - j,
    {
        let block = &s.else_if_blocks[j];
        assert(sv.else_ifs[j as int] == block@);
        match eval_expression(&block.check, functions, local_variables, call_stack, output, fuel - 1) {
            Eval::Done(Value::Boolean(BoolValue(true))) => {
                return eval_nodes_core(
                    block.block.as_slice(),
                    local_variables,
                    call_stack,
                    functions,
                    output,
                    fuel - 1,
                );
            },
            Eval::Done(Value::Boolean(BoolValue(false))) => {},
            Eval::Done(Value::UInt(_)) => {
                return Eval::Fault;
            },
            Eval::Fault => {
                return Eval::Fault;
            },
            Eval::Exhausted => {
                return Eval::Exhausted;
            },
        }
        j += 1;
    }
    match &s.else_block {
        Some(b) => eval_nodes_core(b.as_slice(), local_variables, call_stack, functions, output, fuel - 1),
        None => Eval::Done(NodeResult::NoReturn),
    }
}

impl IfStatement {
    /// Runs the statement: the block of the first check, of the statement or of
    /// its `else if` blocks in order, that is true, or the `else` block if none
    /// is; every check evaluated must be a boolean.
    pub fn evaluate(
        &self,
        functions: &Table<FunctionId, Function>,
        local_variables: &Table<String, Value>,
        call_stack: &mut Vec<FunctionId>,
        output: &mut Vec<Value>,
    ) -> (r: NodeResult)
        requires
            eval_if(
                evaluation_budget(),
                self@,
                fn_env(functions@),
                local_variables@,
                old(output)@,
            ).1 is Done,
        ensures
            (final(output)@, Eval::Done(r)) == eval_if(
                evaluation_budget(),
                self@,
                fn_env(functions@),
                local_variables@,
                old(output)@,
            ),
            final(call_stack)@ == old(call_stack)@,
    {
        match eval_if_core(self, functions, local_variables, call_stack, output, u64::MAX) {
            Eval::Done(r) => r,
            _ => vstd::pervasive::unreached(),
        }
    }
}

} // verus!
