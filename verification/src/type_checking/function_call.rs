//! Checking calls.

use vstd::prelude::*;

use crate::ast::node::{exprs_view, params_view, ExprV, Function, FunctionCall, FunctionId, FunctionParameter, ParamV, Type};
use crate::evaluation::semantics::{fn_env, FnEnv};
use crate::table::Table;
use crate::text::decimal;
use crate::type_checking::rules::{
    argument_types_check, arity_check, both, expr_type, listed, min_len, parameter_mismatch,
    tc_args, tc_call, tc_expr, type_mismatch, Checked, TypeEnv,
};
use crate::type_checking::{
    as_result, lemma_messages_append, lemma_messages_push, messages, reported, reports, verify_type,
    TypeCheckingError,
};

verus! {

/// Where the arguments check completes, it completes on every prefix of the
/// arguments.
pub proof fn lemma_args_prefix(args: Seq<ExprV>, k: int, fns: FnEnv, locals: TypeEnv)
    requires
        tc_args(args, fns, locals) is Done,
        0 <= k <= args.len(),
    ensures
        tc_args(args.take(k), fns, locals) is Done,
    decreases args.len(),
{
    if k == args.len() {
        assert(args.take(k) =~= args);
    } else {
        lemma_args_prefix(args.drop_last(), k, fns, locals);
        assert(args.drop_last().take(k) =~= args.take(k));
    }
}

/// Where the argument types check completes for `n` arguments, it completes
/// for fewer.
pub proof fn lemma_argument_types_prefix(
    params: Seq<ParamV>,
    args: Seq<ExprV>,
    n: nat,
    k: nat,
    fns: FnEnv,
    locals: TypeEnv,
)
    requires
        argument_types_check(params, args, n, fns, locals) is Done,
        k <= n,
    ensures
        argument_types_check(params, args, k, fns, locals) is Done,
    decreases n,
{
    if k < n {
        lemma_argument_types_prefix(params, args, (n - 1) as nat, k, fns, locals);
    }
}

impl FunctionCall {
    /// Checks the call: each argument expression is checked; then the function
    /// must exist, take as many parameters as there are arguments, and each
    /// argument must suit its parameter.
    pub fn type_check(
        &self,
        functions: &Table<FunctionId, Function>,
        local_variables: &Table<String, Type>,
    ) -> (r: Result<(), Vec<TypeCheckingError>>)
        requires
            tc_call(self@, fn_env(functions@), local_variables@) is Done,
        ensures
            reports(r, tc_call(self@, fn_env(functions@), local_variables@)->Done_0),
        decreases self,
    {
        let ghost fns = fn_env(functions@);
        let ghost locals = local_variables@;
        let ghost args = self@.args;
        let mut errors: Vec<TypeCheckingError> = Vec::new();
        let function = functions.get(&self.function_id);
        let mut i: usize = 0;
        assert(messages(errors@) =~= Seq::empty());
        assert(args.take(0) =~= Seq::empty());
        while i < self.parameters.len()
            invariant
                i <= self.parameters@.len(),
                args == exprs_view(self.parameters@),
                fns == fn_env(functions@),
                locals == local_variables@,
                tc_args(args, fns, locals) is Done,
                tc_args(args.take(i as int), fns, locals) == Checked::Done(messages(errors@)),
            decreases self.parameters@.len() - i,
        {
            proof {
                assert(decreases_to!(*self => self.parameters));
                assert(decreases_to!(self.parameters => self.parameters@));
                assert(decreases_to!(self.parameters@ => self.parameters@[i as int]));
                lemma_args_prefix(args, i + 1, fns, locals);
                assert(args.take(i + 1).drop_last() =~= args.take(i as int));
                assert(args.take(i + 1)[i as int] == self.parameters@[i as int]@);
            }
            let mut param_errors = reported(self.parameters[i].type_check(functions, local_variables));
            proof {
                lemma_messages_append(errors@, param_errors@);
            }
            errors.append(&mut param_errors);
            i += 1;
        }
        assert(args.take(args.len() as int) =~= args);
        match function {
            Some(function) => {
                let function_params = function.parameters();
                let ghost f = function@;
                let ghost before = messages(errors@);
                if self.parameters.len() != function_params.len() {
                    let mut message = function.name().clone();
                    message.append(" expects ");
                    message.append(&decimal(function_params.len() as u64));
                    message.append(" parameter(s), but you provided ");
                    message.append(&decimal(self.parameters.len() as u64));
                    let e = TypeCheckingError { message };
                    proof {
                        lemma_messages_push(errors@, e);
                    }
                    errors.push(e);
                }
                assert(messages(errors@) == before + arity_check(f, args.len()));
                let ghost middle = messages(errors@);
                let n: usize = if self.parameters.len() < function_params.len() {
                    self.parameters.len()
                } else {
                    function_params.len()
                };
                let mut j: usize = 0;
                while j < n
                    invariant
                        j <= n,
                        n == min_len(args.len(), f.params().len()),
                        args == exprs_view(self.parameters@),
                        args.len() == self.parameters@.len(),
                        f.params() == params_view(function_params@),
                        f.params().len() == function_params@.len(),
                        fns == fn_env(functions@),
                        locals == local_variables@,
                        argument_types_check(f.params(), args, n as nat, fns, locals) is Done,
                        messages(errors@) == middle + argument_types_check(
                            f.params(),
                            args,
                            j as nat,
                            fns,
                            locals,
                        )->Done_0,
                    decreases n - j,
                {
                    proof {
                        lemma_argument_types_prefix(f.params(), args, n as nat, (j + 1) as nat, fns, locals);
                        assert(args[j as int] == self.parameters@[j as int]@);
                        assert(f.params()[j as int] == function_params@[j as int]@);
                    }
                    let param_type = self.parameters[j].get_type(functions, local_variables);
                    match function_params[j].verify_type(param_type) {
                        Ok(()) => {},
                        Err(e) => {
                            proof {
                                lemma_messages_push(errors@, e);
                            }
                            errors.push(e);
                        },
                    }
                    proof {
                        let item = listed(parameter_mismatch(f.params()[j as int], param_type));
                        assert(argument_types_check(f.params(), args, (j + 1) as nat, fns, locals)->Done_0
                            == argument_types_check(f.params(), args, j as nat, fns, locals)->Done_0 + item);
                        assert(messages(errors@) =~= middle + argument_types_check(
                            f.params(),
                            args,
                            (j + 1) as nat,
                            fns,
                            locals,
                        )->Done_0);
                    }
                    j += 1;
                }
                assert(fns(self@.id) == Some(f));
                assert(messages(errors@) =~= (before + arity_check(f, args.len()))
                    + argument_types_check(f.params(), args, n as nat, fns, locals)->Done_0);
                assert(tc_args(args, fns, locals) == Checked::Done(before));
                assert(tc_call(self@, fns, locals) == Checked::Done(messages(errors@)));
                as_result(errors)
            },
            None => {
                let ghost b = messages(errors@);
                let mut message = "Could not find function with name ".to_owned();
                message.append(self.function_id.0.as_str());
                let e = TypeCheckingError { message };
                proof {
                    lemma_messages_push(errors@, e);
                }
                errors.push(e);
                assert(fns(self@.id) is None);
                assert(messages(errors@) =~= b + seq!["Could not find function with name "@ + self@.id]);
                assert(tc_call(self@, fns, locals) == Checked::Done(messages(errors@)));
                as_result(errors)
            },
        }
    }
}

impl FunctionParameter {
    /// Checks an argument whose type, if any, is `found_type` for this
    /// parameter: an intrinsic parameter takes a value of any type but needs a
    /// value; a typed parameter needs a value of its type.
    pub fn verify_type(&self, found_type: Option<Type>) -> (r: Result<(), TypeCheckingError>)
        ensures
            match r {
                Ok(()) => parameter_mismatch(self@, found_type) is None,
                Err(e) => parameter_mismatch(self@, found_type) == Some(e@),
            },
    {
        match self {
            FunctionParameter::IntrinsicAny { .. } => if found_type.is_none() {
                let mut message = "Expected parameter ".to_owned();
                message.append(self.name());
                message.append(" to be present");
                Err(TypeCheckingError { message })
            } else {
                Ok(())
            },
            FunctionParameter::FunctionParameter { param_type, .. } => verify_type(
                found_type,
                *param_type,
            ),
        }
    }
}

} // verus!
