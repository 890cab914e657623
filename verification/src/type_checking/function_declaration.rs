//! Checking functions.

use vstd::prelude::*;

use crate::ast::node::{nodes_view, params_view, Function, FunctionId, FunctionParameter, FunctionReturnType, ParamV, Type};
use crate::evaluation::semantics::fn_env;
use crate::table::{seq_insert_all, Table, TableKey};
use crate::type_checking::node::type_check_nodes;
use crate::type_checking::resolution::{block_resolves_in, lemma_block_resolves};
use crate::type_checking::rules::{found_return, tc_block, tc_function, typed_parameters};
use crate::type_checking::{messages, reports, TypeCheckingError};

verus! {

impl Function {
    /// Checks the function: an intrinsic function is well typed; a declared
    /// function's body is checked with its typed parameters in scope, and a
    /// function with a return type must return a value from its first top
    /// level `return` statement.
    pub fn type_check(&self, functions: &Table<FunctionId, Function>) -> (r: Result<
        (),
        Vec<TypeCheckingError>,
    >)
        requires
            tc_function(self@, fn_env(functions@)) is Done,
        ensures
            reports(r, tc_function(self@, fn_env(functions@))->Done_0),
    {
        match self.try_type_check(functions) {
            Some(r) => r,
            None => vstd::pervasive::unreached(),
        }
    }

    /// Checks the function as [`Function::type_check`] does, where checking
    /// returns: none where it needs the type of a call of a missing function,
    /// where a `return` statement is in a function missing from `functions`,
    /// or where the function returns a value from its first top level `return`
    /// statement although it is declared to return nothing.
    pub fn try_type_check(&self, functions: &Table<FunctionId, Function>) -> (r: Option<
        Result<(), Vec<TypeCheckingError>>,
    >)
        ensures
            match r {
                None => tc_function(self@, fn_env(functions@)) is Undefined,
                Some(res) => tc_function(self@, fn_env(functions@)) is Done && reports(
                    res,
                    tc_function(self@, fn_env(functions@))->Done_0,
                ),
            },
    {
        match self {
            Function::Intrinsic { .. } => Some(Ok(())),
            Function::CustomFunction { id, parameters, body, return_type, .. } => {
                let ghost params = params_view(parameters@);
                let mut pairs: Vec<(String, Type)> = Vec::new();
                let mut i: usize = 0;
                assert(params.take(0) =~= Seq::<ParamV>::empty());
                assert(pairs@.map_values(|e: (String, Type)| (e.0.key_view(), e.1)) =~= Seq::empty());
                while i < parameters.len()
                    invariant
                        i <= parameters@.len(),
                        params == params_view(parameters@),
                        pairs@.map_values(|e: (String, Type)| (e.0.key_view(), e.1))
                            == typed_parameters(params.take(i as int)),
                    decreases parameters@.len() - i,
                {
                    assert(params.take(i + 1).drop_last() =~= params.take(i as int));
                    assert(params.take(i + 1)[i as int] == parameters@[i as int]@);
                    let ghost before = pairs@;
                    match &parameters[i] {
                        FunctionParameter::FunctionParameter { param_type, param_name } => {
                            pairs.push((param_name.clone(), *param_type));
                            assert(pairs@.map_values(|e: (String, Type)| (e.0.key_view(), e.1))
                                =~= before.map_values(|e: (String, Type)| (e.0.key_view(), e.1)).push(
                                (param_name@, *param_type),
                            ));
                        },
                        FunctionParameter::IntrinsicAny { .. } => {},
                    }
                    i += 1;
                }
                assert(params.take(parameters@.len() as int) =~= params);
                let local_variables = Table::from_pairs(pairs);
                proof {
                    lemma_block_resolves(nodes_view(body@), fn_env(functions@), local_variables@, Some(id@));
                }
                if !block_resolves_in(body.as_slice(), functions, Some(id)) {
                    return None;
                }
                match type_check_nodes(body.as_slice(), functions, &local_variables, Some(id)) {
                    Err(errors) => Some(Err(errors)),
                    Ok(found_return_type) => match (found_return_type, return_type) {
                        (None, FunctionReturnType::Type(_)) => {
                            let mut errors = Vec::new();
                            let e = TypeCheckingError {
                                message: "expected return value, but void was returned".to_owned(),
                            };
                            errors.push(e);
                            assert(messages(errors@) =~= seq![e@]);
                            Some(Err(errors))
                        },
                        (Some(_), FunctionReturnType::Void) => None,
                        _ => Some(Ok(())),
                    },
                }
            },
        }
    }
}

} // verus!
