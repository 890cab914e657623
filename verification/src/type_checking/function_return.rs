//! Checking `return` statements.

use vstd::prelude::*;

use crate::ast::node::{ExprV, Expression, Function, FunctionId, FunctionReturnType, Type};
use crate::evaluation::semantics::fn_env;
use crate::table::Table;
use crate::type_checking::rules::{return_check, tc_return, Checked, Messages};
use crate::type_checking::{
    as_result, lemma_messages_append, lemma_messages_push, messages, reported, reports,
    TypeCheckingError,
};

verus! {

/// The model of an optional expression.
pub open spec fn optional_expr(e: Option<&Expression>) -> Option<ExprV> {
    match e {
        Some(x) => Some(x@),
        None => None,
    }
}

/// The name of the current function, if any.
pub open spec fn current_name(current: Option<&FunctionId>) -> Option<Seq<char>> {
    match current {
        Some(id) => Some(id@),
        None => None,
    }
}

/// The messages about a returned value of type `returned` in the function
/// `current`, or at the top level.
fn return_messages(
    returned: Option<Type>,
    functions: &Table<FunctionId, Function>,
    current_function: Option<&FunctionId>,
) -> (errors: Vec<TypeCheckingError>)
    requires
        return_check(returned, fn_env(functions@), current_name(current_function)) is Done,
    ensures
        Checked::Done(messages(errors@)) == return_check(
            returned,
            fn_env(functions@),
            current_name(current_function),
        ),
{
    let mut errors: Vec<TypeCheckingError> = Vec::new();
    match current_function {
        Some(current_function_id) => {
            let function = match functions.get(current_function_id) {
                Some(f) => f,
                None => vstd::pervasive::unreached(),
            };
            match (function.return_type(), returned) {
                (FunctionReturnType::Void, Some(return_value_type)) => {
                    let mut message = function.name().clone();
                    message.append(" is a void function, but you returned a ");
                    message.append(return_value_type.name());
                    message.append(" value");
                    errors.push(TypeCheckingError { message });
                },
                (FunctionReturnType::Type(expected_return_type), None) => {
                    let mut message = function.name().clone();
                    message.append(" expects a return type of ");
                    message.append(expected_return_type.name());
                    message.append(", but you returned void");
                    errors.push(TypeCheckingError { message });
                },
                (FunctionReturnType::Type(expected_return_type), Some(return_value_type)) => {
                    if *expected_return_type != return_value_type {
                        let mut message = function.name().clone();
                        message.append(" expects a return type of ");
                        message.append(expected_return_type.name());
                        message.append(", but you returned a ");
                        message.append(return_value_type.name());
                        message.append(" value");
                        errors.push(TypeCheckingError { message });
                    }
                },
                (FunctionReturnType::Void, None) => {},
            }
        },
        None => {
            if let Some(Type::Boolean) = returned {
                errors.push(
                    TypeCheckingError {
                        message: "Cannot return a Boolean from a top level statement".to_owned(),
                    },
                );
            }
        },
    }
    assert(messages(errors@) =~= return_check(
        returned,
        fn_env(functions@),
        current_name(current_function),
    )->Done_0);
    errors
}

/// Checks a `return` statement with the value `return_value`: the value's
/// expression is checked, then its type against what the current function
/// returns; at the top level only an unsigned integer, or nothing, may be
/// returned. The scope is left as it is.
pub fn type_check_return_value(
    return_value: Option<&Expression>,
    functions: &Table<FunctionId, Function>,
    local_variables: &mut Table<String, Type>,
    current_function: Option<&FunctionId>,
) -> (r: Result<(), Vec<TypeCheckingError>>)
    requires
        tc_return(
            optional_expr(return_value),
            fn_env(functions@),
            old(local_variables)@,
            current_name(current_function),
        ) is Done,
    ensures
        final(local_variables)@ == old(local_variables)@,
        reports(
            r,
            tc_return(
                optional_expr(return_value),
                fn_env(functions@),
                old(local_variables)@,
                current_name(current_function),
            )->Done_0,
        ),
{
    let mut errors: Vec<TypeCheckingError> = Vec::new();
    let return_value_type = match return_value {
        Some(expression) => expression.get_type(functions, local_variables),
        None => None,
    };
    if let Some(expression) = return_value {
        let mut expression_errors = reported(expression.type_check(functions, local_variables));
        proof {
            lemma_messages_append(errors@, expression_errors@);
        }
        errors.append(&mut expression_errors);
    }
    let ghost before = messages(errors@);
    let mut more = return_messages(return_value_type, functions, current_function);
    proof {
        lemma_messages_append(errors@, more@);
    }
    errors.append(&mut more);
    as_result(errors)
}

} // verus!
