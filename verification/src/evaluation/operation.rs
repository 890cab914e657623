//! Evaluation of operations.

use vstd::prelude::*;

use crate::ast::node::{
    BinaryOperation, BoolValue, Expression, FunctionId, Operation, UIntValue, UnaryOperation, Value,
};
use crate::evaluation::expression::eval_expression;
use crate::evaluation::semantics::{
    eval_op, evaluation_budget, fn_env, spec_binary, spec_greater_than, spec_not, spec_plus, Eval,
};
use crate::table::Table;

verus! {

/// The core of [`Operation::evaluate`]: every outcome.
pub(crate) fn eval_operation(
    op: &Operation,
    functions: &Table<FunctionId, crate::ast::node::Function>,
    local_variables: &Table<String, Value>,
    call_stack: &mut Vec<FunctionId>,
    output: &mut Vec<Value>,
    fuel: u64,
) -> (r: Eval<Value>)
    ensures
        (final(output)@, r) == eval_op(
            fuel as nat,
            op@,
            fn_env(functions@),
            local_variables@,
            old(output)@,
        ),
        r is Done ==> final(call_stack)@ == old(call_stack)@,
    decreases fuel, 0nat,
{
    if fuel == 0 {
        return Eval::Exhausted;
    }
    match op {
        Operation::Unary { operation: UnaryOperation::Not, value } => {
            match eval_expression(value, functions, local_variables, call_stack, output, fuel - 1) {
                Eval::Done(v) => try_not(v),
                Eval::Fault => Eval::Fault,
                Eval::Exhausted => Eval::Exhausted,
            }
        },
        Operation::Binary { operation, left, right } => {
            let a = match eval_expression(
                left,
                functions,
                local_variables,
                call_stack,
                output,
                fuel - 1,
            ) {
                Eval::Done(a) => a,
                Eval::Fault => return Eval::Fault,
                Eval::Exhausted => return Eval::Exhausted,
            };
            let b = match eval_expression(
                right,
                functions,
                local_variables,
                call_stack,
                output,
                fuel - 1,
            ) {
                Eval::Done(b) => b,
                Eval::Fault => return Eval::Fault,
                Eval::Exhausted => return Eval::Exhausted,
            };
            try_binary(*operation, a, b)
        },
    }
}

/// `!` on a value, with every outcome.
fn try_not(v: Value) -> (r: Eval<Value>)
    ensures
        r == spec_not(v),
{
    match v {
        Value::Boolean(_) => Eval::Done(not(v)),
        Value::UInt(_) => Eval::Fault,
    }
}

/// A binary operation on two values, with every outcome.
fn try_binary(op: BinaryOperation, a: Value, b: Value) -> (r: Eval<Value>)
    ensures
        r == spec_binary(op, a, b),
{
    match (a, b) {
        (Value::UInt(UIntValue(x)), Value::UInt(UIntValue(y))) => match op {
            BinaryOperation::Plus => if x <= u32::MAX - y {
                Eval::Done(plus(a, b))
            } else {
                Eval::Fault
            },
            BinaryOperation::GreaterThan => Eval::Done(greater_than(a, b)),
        },
        _ => Eval::Fault,
    }
}

impl Operation {
    /// The value of the operation: its operands are evaluated from left to
    /// right, then the operation is applied to their values.
    pub fn evaluate(
        &self,
        functions: &Table<FunctionId, crate::ast::node::Function>,
        local_variables: &Table<String, Value>,
        call_stack: &mut Vec<FunctionId>,
        output: &mut Vec<Value>,
    ) -> (v: Value)
        requires
            eval_op(
                evaluation_budget(),
                self@,
                fn_env(functions@),
                local_variables@,
                old(output)@,
            ).1 is Done,
        ensures
            (final(output)@, Eval::Done(v)) == eval_op(
                evaluation_budget(),
                self@,
                fn_env(functions@),
                local_variables@,
                old(output)@,
            ),
            final(call_stack)@ == old(call_stack)@,
    {
        match eval_operation(self, functions, local_variables, call_stack, output, u64::MAX) {
            Eval::Done(v) => v,
            _ => vstd::pervasive::unreached(),
        }
    }
}

/// Applies a unary operation to the value of an expression.
pub fn unary_operation(
    operation: UnaryOperation,
    value: &Expression,
    functions: &Table<FunctionId, crate::ast::node::Function>,
    local_variables: &Table<String, Value>,
    call_stack: &mut Vec<FunctionId>,
    output: &mut Vec<Value>,
) -> (v: Value)
    requires
        eval_op(
            evaluation_budget(),
            crate::ast::node::OpV::Unary { op: operation, value: Box::new(value@) },
            fn_env(functions@),
            local_variables@,
            old(output)@,
        ).1 is Done,
    ensures
        (final(output)@, Eval::Done(v)) == eval_op(
            evaluation_budget(),
            crate::ast::node::OpV::Unary { op: operation, value: Box::new(value@) },
            fn_env(functions@),
            local_variables@,
            old(output)@,
        ),
        final(call_stack)@ == old(call_stack)@,
{
    let v = match eval_expression(value, functions, local_variables, call_stack, output, u64::MAX - 1) {
        Eval::Done(v) => v,
        _ => vstd::pervasive::unreached(),
    };
    match operation {
        UnaryOperation::Not => not(v),
    }
}

/// `!` on a boolean value.
pub fn not(value: Value) -> (r: Value)
    requires
        value is Boolean,
    ensures
        spec_not(value) == Eval::Done(r),
{
    let BoolValue(bool) = value.expect_bool("not only operates on booleans");
    Value::Boolean(BoolValue(!bool))
}

/// Applies a binary operation to the values of two expressions, evaluated from
/// left to right.
pub fn binary_operation(
    operation: BinaryOperation,
    left: &Expression,
    right: &Expression,
    functions: &Table<FunctionId, crate::ast::node::Function>,
    local_variables: &Table<String, Value>,
    call_stack: &mut Vec<FunctionId>,
    output: &mut Vec<Value>,
) -> (v: Value)
    requires
        eval_op(
            evaluation_budget(),
            crate::ast::node::OpV::Binary {
                op: operation,
                left: Box::new(left@),
                right: Box::new(right@),
            },
            fn_env(functions@),
            local_variables@,
            old(output)@,
        ).1 is Done,
    ensures
        (final(output)@, Eval::Done(v)) == eval_op(
            evaluation_budget(),
            crate::ast::node::OpV::Binary {
                op: operation,
                left: Box::new(left@),
                right: Box::new(right@),
            },
            fn_env(functions@),
            local_variables@,
            old(output)@,
        ),
        final(call_stack)@ == old(call_stack)@,
{
    let left_value = match eval_expression(
        left,
        functions,
        local_variables,
        call_stack,
        output,
        u64::MAX - 1,
    ) {
        Eval::Done(v) => v,
        _ => vstd::pervasive::unreached(),
    };
    let right_value = match eval_expression(
        right,
        functions,
        local_variables,
        call_stack,
        output,
        u64::MAX - 1,
    ) {
        Eval::Done(v) => v,
        _ => vstd::pervasive::unreached(),
    };
    match operation {
        BinaryOperation::Plus => plus(left_value, right_value),
        BinaryOperation::GreaterThan => greater_than(left_value, right_value),
    }
}

/// `>` on two unsigned integer values.
pub fn greater_than(left: Value, right: Value) -> (r: Value)
    requires
        left is UInt,
        right is UInt,
    ensures
        spec_greater_than(left, right) == Eval::Done(r),
{
    Value::Boolean(
        BoolValue(
            left.expect_uint("greater_than only operates on uint").0 > right.expect_uint(
                "greater_than only operates on uint",
            ).0,
        ),
    )
}

/// `+` on two unsigned integer values whose sum fits in 32 bits.
pub fn plus(left: Value, right: Value) -> (r: Value)
    requires
        left is UInt,
        right is UInt,
        left->UInt_0.0 + right->UInt_0.0 <= u32::MAX,
    ensures
        spec_plus(left, right) == Eval::Done(r),
{
    Value::UInt(
        UIntValue(
            left.expect_uint("plus only operates on uint").0 + right.expect_uint(
                "plus only operates on uint",
            ).0,
        ),
    )
}

} // verus!
