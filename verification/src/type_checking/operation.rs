//! The types of operations, and checking them.

use vstd::prelude::*;

use crate::ast::node::{
    BinaryOperation, ExprV, Expression, Function, FunctionId, OpV, Operation, Type, UnaryOperation,
};
use crate::evaluation::semantics::fn_env;
use crate::table::Table;
use crate::type_checking::rules::{listed, operation_type, tc_expr, type_mismatch};
use crate::type_checking::{
    as_result, lemma_messages_append, lemma_messages_push, messages, reported, reports, verify_type,
    TypeCheckingError,
};

verus! {

impl Operation {
    /// The type of the operation's result: boolean for `!`, unsigned integer
    /// for `+` and `>`.
    pub fn get_type(&self) -> (t: Type)
        ensures
            t == operation_type(self@),
    {
        match self {
            Operation::Unary { operation: UnaryOperation::Not, .. } => Type::Boolean,
            Operation::Binary { operation: BinaryOperation::GreaterThan, .. } => Type::UInt,
            Operation::Binary { operation: BinaryOperation::Plus, .. } => Type::UInt,
        }
    }

    /// Checks the operation: its operands are checked, then their types.
    pub fn type_check(
        &self,
        functions: &Table<FunctionId, Function>,
        local_variables: &Table<String, Type>,
    ) -> (r: Result<(), Vec<TypeCheckingError>>)
        requires
            tc_expr(ExprV::Op(self@), fn_env(functions@), local_variables@) is Done,
        ensures
            reports(r, tc_expr(ExprV::Op(self@), fn_env(functions@), local_variables@)->Done_0),
        decreases self,
    {
        match self {
            Operation::Unary { operation: UnaryOperation::Not, value } => {
                let mut errors: Vec<TypeCheckingError> = Vec::new();
                let value_type = (**value).get_type(functions, local_variables);
                let mut value_errors = reported((**value).type_check(functions, local_variables));
                proof {
                    lemma_messages_append(errors@, value_errors@);
                }
                errors.append(&mut value_errors);
                let ghost checked = messages(errors@);
                if let Err(type_error) = verify_type(value_type, Type::Boolean) {
                    proof {
                        lemma_messages_push(errors@, type_error);
                    }
                    errors.push(type_error);
                }
                assert(messages(errors@) =~= checked + listed(type_mismatch(value_type, Type::Boolean)));
                as_result(errors)
            },
            Operation::Binary { left, right, .. } => {
                let mut errors: Vec<TypeCheckingError> = Vec::new();
                let left_type = (**left).get_type(functions, local_variables);
                let right_type = (**right).get_type(functions, local_variables);
                let mut left_errors = reported((**left).type_check(functions, local_variables));
                proof {
                    lemma_messages_append(errors@, left_errors@);
                }
                errors.append(&mut left_errors);
                let mut right_errors = reported((**right).type_check(functions, local_variables));
                proof {
                    lemma_messages_append(errors@, right_errors@);
                }
                errors.append(&mut right_errors);
                let ghost checked = messages(errors@);
                if let Err(left_type_error) = verify_type(left_type, Type::UInt) {
                    proof {
                        lemma_messages_push(errors@, left_type_error);
                    }
                    errors.push(left_type_error);
                }
                if let Err(right_type_error) = verify_type(right_type, Type::UInt) {
                    proof {
                        lemma_messages_push(errors@, right_type_error);
                    }
                    errors.push(right_type_error);
                }
                assert(messages(errors@) =~= checked + (listed(type_mismatch(left_type, Type::UInt))
                    + listed(type_mismatch(right_type, Type::UInt))));
                as_result(errors)
            },
        }
    }
}

impl BinaryOperation {
    /// Checks a binary operation on `left` and `right`: both operands are
    /// checked, then both must be unsigned integers.
    pub fn type_check(
        &self,
        left: &Expression,
        right: &Expression,
        functions: &Table<FunctionId, Function>,
        local_variables: &Table<String, Type>,
    ) -> (r: Result<(), Vec<TypeCheckingError>>)
        requires
            tc_expr(
                ExprV::Op(OpV::Binary { op: *self, left: Box::new(left@), right: Box::new(right@) }),
                fn_env(functions@),
                local_variables@,
            ) is Done,
        ensures
            reports(
                r,
                tc_expr(
                    ExprV::Op(OpV::Binary { op: *self, left: Box::new(left@), right: Box::new(right@) }),
                    fn_env(functions@),
                    local_variables@,
                )->Done_0,
            ),
    {
        let operation = Operation::Binary {
            operation: *self,
            left: Box::new(left.duplicate()),
            right: Box::new(right.duplicate()),
        };
        operation.type_check(functions, local_variables)
    }
}

impl UnaryOperation {
    /// Checks a unary operation on `value`: the operand is checked, then it
    /// must be a boolean.
    pub fn type_check(
        &self,
        value: &Expression,
        functions: &Table<FunctionId, Function>,
        local_variables: &Table<String, Type>,
    ) -> (r: Result<(), Vec<TypeCheckingError>>)
        requires
            tc_expr(
                ExprV::Op(OpV::Unary { op: *self, value: Box::new(value@) }),
                fn_env(functions@),
                local_variables@,
            ) is Done,
        ensures
            reports(
                r,
                tc_expr(
                    ExprV::Op(OpV::Unary { op: *self, value: Box::new(value@) }),
                    fn_env(functions@),
                    local_variables@,
                )->Done_0,
            ),
    {
        let operation = Operation::Unary { operation: *self, value: Box::new(value.duplicate()) };
        operation.type_check(functions, local_variables)
    }
}

} // verus!
