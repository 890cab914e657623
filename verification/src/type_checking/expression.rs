//! The types of expressions, and checking them.

use vstd::prelude::*;

use crate::ast::node::{lemma_call_view, Expression, Function, FunctionId, FunctionReturnType, Type};
use crate::evaluation::semantics::fn_env;
use crate::table::Table;
use crate::type_checking::rules::{expr_type, tc_expr, variable_check, Checked};
use crate::type_checking::{reports, TypeCheckingError};

verus! {

impl Expression {
    /// The type of the expression: that of its value, of what its function
    /// returns (none for a void function), of its operation, or of its
    /// variable (none for a variable not in scope). The called function must
    /// exist.
    pub fn get_type(
        &self,
        functions: &Table<FunctionId, Function>,
        local_variables: &Table<String, Type>,
    ) -> (t: Option<Type>)
        requires
            expr_type(self@, fn_env(functions@), local_variables@) is Done,
        ensures
            expr_type(self@, fn_env(functions@), local_variables@) == Checked::Done(t),
    {
        match self {
            Expression::ValueLiteral(value) => Some(value.get_type()),
            Expression::FunctionCall(function_call) => {
                proof {
                    lemma_call_view(*function_call);
                }
                match functions.get(&function_call.function_id) {
                    Some(function) => match function.return_type() {
                        FunctionReturnType::Void => None,
                        FunctionReturnType::Type(return_type) => Some(*return_type),
                    },
                    None => vstd::pervasive::unreached(),
                }
            },
            Expression::Operation(operation) => Some(operation.get_type()),
            Expression::VariableAccess(var_name) => match local_variables.get(var_name) {
                Some(t) => Some(*t),
                None => None,
            },
        }
    }

    /// Checks the expression: a call, an operation and their operands are
    /// checked, a variable must be in scope.
    pub fn type_check(
        &self,
        functions: &Table<FunctionId, Function>,
        local_variables: &Table<String, Type>,
    ) -> (r: Result<(), Vec<TypeCheckingError>>)
        requires
            tc_expr(self@, fn_env(functions@), local_variables@) is Done,
        ensures
            reports(r, tc_expr(self@, fn_env(functions@), local_variables@)->Done_0),
        decreases self,
    {
        match self {
            Expression::ValueLiteral(_) => Ok(()),
            Expression::FunctionCall(function_call) => {
                proof {
                    lemma_call_view(*function_call);
                }
                function_call.type_check(functions, local_variables)
            },
            Expression::Operation(operation) => operation.type_check(functions, local_variables),
            Expression::VariableAccess(var_name) => match type_check_variable_access(
                var_name.as_str(),
                local_variables,
            ) {
                Ok(()) => Ok(()),
                Err(err) => {
                    let mut errors = Vec::new();
                    errors.push(err);
                    assert(crate::type_checking::messages(errors@) =~= seq![err@]);
                    Err(errors)
                },
            },
        }
    }
}

/// Checks that the variable `var_name` is in scope.
pub fn type_check_variable_access(var_name: &str, local_variables: &Table<String, Type>) -> (r: Result<
    (),
    TypeCheckingError,
>)
    ensures
        match r {
            Ok(()) => variable_check(var_name@, local_variables@).len() == 0,
            Err(e) => variable_check(var_name@, local_variables@) == seq![e@],
        },
{
    let name = var_name.to_owned();
    match local_variables.get(&name) {
        Some(_) => Ok(()),
        None => {
            let mut message = "Could not find variable with name ".to_owned();
            message.append(var_name);
            Err(TypeCheckingError { message })
        },
    }
}

} // verus!
