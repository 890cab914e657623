//! The functions built into the language.

use vstd::prelude::*;

use crate::ast::node::{Function, FunctionId, FunctionParameter, FunctionReturnType, Value};
use crate::evaluation::semantics::{eval_intrinsic, Eval};
use crate::table::Table;

verus! {

/// The model of `print`.
pub open spec fn print_model() -> crate::ast::node::FuncV {
    crate::ast::node::FuncV::Intrinsic {
        id: "print"@,
        name: "print"@,
        params: seq![crate::ast::node::ParamV::Any { name: "value"@ }],
        ret: FunctionReturnType::Void,
    }
}

/// The functions built into the language, by name.
pub open spec fn intrinsic_env() -> crate::evaluation::semantics::FnEnv {
    |k: Seq<char>|
        if k == "print"@ {
            Some(print_model())
        } else {
            None
        }
}

/// The functions built into the language, by name: `print` alone.
pub fn get_intrinsic_functions() -> (t: Table<FunctionId, Function>)
    ensures
        t@.len() == 1,
        t@[0].0 == "print"@,
        t@[0].1@ == print_model(),
        crate::evaluation::semantics::fn_env(t@) == intrinsic_env(),
{
    let mut parameters = Vec::new();
    parameters.push(FunctionParameter::IntrinsicAny { param_name: "value".to_owned() });
    let print = Function::Intrinsic {
        id: FunctionId("print".to_owned()),
        name: "print".to_owned(),
        parameters,
        return_type: FunctionReturnType::Void,
    };
    let mut t = Table::new();
    let id = print.id().duplicate();
    t.insert(id, print);
    proof {
        let s = Seq::<(Seq<char>, Function)>::empty();
        assert(!(exists|i: int| 0 <= i < s.len() && s[i].0 == "print"@));
        assert(crate::ast::node::params_view(parameters@) =~= seq![crate::ast::node::ParamV::Any { name: "value"@ }]);
        assert(t@.drop_last() =~= Seq::<(Seq<char>, Function)>::empty());
        assert forall|k: Seq<char>|
            #[trigger] crate::evaluation::semantics::fn_env(t@)(k) == intrinsic_env()(k) by {
            assert(crate::table::seq_lookup(t@.drop_last(), k) is None);
        }
        assert(crate::evaluation::semantics::fn_env(t@) =~= intrinsic_env());
    }
    t
}

/// The core of [`evaluate_intrinsic_function`]: every outcome.
pub(crate) fn eval_intrinsic_core(
    id: &FunctionId,
    parameters: &Table<String, Value>,
    output: &mut Vec<Value>,
) -> (r: Eval<Option<Value>>)
    ensures
        (final(output)@, r) == eval_intrinsic(id@, parameters@, old(output)@),
{
    let print_name = "print".to_owned();
    if id.0 == print_name {
        let value_name = "value".to_owned();
        match parameters.get(&value_name) {
            Some(v) => {
                output.push(*v);
                Eval::Done(None)
            },
            None => Eval::Fault,
        }
    } else {
        Eval::Fault
    }
}

/// Calls the intrinsic function `id` with its parameters bound in
/// `parameters`: `print` prints its parameter `value` (to `output`) and returns
/// nothing.
pub fn evaluate_intrinsic_function(
    id: &FunctionId,
    parameters: &Table<String, Value>,
    output: &mut Vec<Value>,
) -> (r: Option<Value>)
    requires
        eval_intrinsic(id@, parameters@, old(output)@).1 is Done,
    ensures
        (final(output)@, Eval::Done(r)) == eval_intrinsic(id@, parameters@, old(output)@),
{
    match eval_intrinsic_core(id, parameters, output) {
        Eval::Done(r) => r,
        _ => vstd::pervasive::unreached(),
    }
}

} // verus!
