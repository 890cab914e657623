//! Checking programs.

use vstd::prelude::*;

use crate::ast::node::{functions_view, nodes_view, Ast, FuncV, Function, FunctionId, Type};
use crate::evaluation::ast::with_functions;
use crate::evaluation::intrinsics::{get_intrinsic_functions, intrinsic_env};
use crate::evaluation::semantics::{fn_env, fn_overlay, lemma_fn_env_models, model_env, FnEnv};
use crate::table::Table;
use crate::type_checking::node::{block_errors, type_check_nodes};
use crate::type_checking::resolution::{block_resolves_in, lemma_block_resolves};
use crate::type_checking::rules::{checking_env, tc_block, tc_functions, tc_program, Checked};
use crate::type_checking::{lemma_messages_append, messages, reported, reports, as_result, TypeCheckingError};

verus! {

/// Where checking functions completes, it completes on every prefix of them.
pub proof fn lemma_functions_prefix(fs: Seq<(Seq<char>, FuncV)>, k: int, fns: FnEnv)
    requires
        tc_functions(fs, fns) is Done,
        0 <= k <= fs.len(),
    ensures
        tc_functions(fs.take(k), fns) is Done,
    decreases fs.len(),
{
    if k == fs.len() {
        assert(fs.take(k) =~= fs);
    } else {
        lemma_functions_prefix(fs.drop_last(), k, fns);
        assert(fs.drop_last().take(k) =~= fs.take(k));
    }
}

impl Ast {
    /// Checks the program with the intrinsic functions and its own: its top
    /// level statements first, then each of its functions; every error found
    /// is reported.
    pub fn type_check(&self) -> (r: Result<(), Vec<TypeCheckingError>>)
        requires
            tc_program(functions_view(self.functions@), nodes_view(self.nodes@)) is Done,
        ensures
            reports(r, tc_program(functions_view(self.functions@), nodes_view(self.nodes@))->Done_0),
    {
        match self.try_type_check() {
            Some(r) => r,
            None => vstd::pervasive::unreached(),
        }
    }

    /// Checks the program as [`Ast::type_check`] does, where checking
    /// returns; none where it does not.
    pub fn try_type_check(&self) -> (r: Option<Result<(), Vec<TypeCheckingError>>>)
        ensures
            match r {
                None => tc_program(functions_view(self.functions@), nodes_view(self.nodes@)) is Undefined,
                Some(res) => tc_program(functions_view(self.functions@), nodes_view(self.nodes@)) is Done
                    && reports(res, tc_program(functions_view(self.functions@), nodes_view(self.nodes@))->Done_0),
            },
    {
        let ghost own = functions_view(self.functions@);
        let ghost fns = checking_env(own);
        proof {
            lemma_fn_env_models(self.functions@);
        }
        let intrinsic_functions = get_intrinsic_functions();
        let functions = with_functions(&intrinsic_functions, with_functions(&self.functions, Table::new()));
        assert(fn_env(Seq::<(Seq<char>, Function)>::empty()) =~= (|k: Seq<char>| None::<crate::ast::node::FuncV>));
        assert(fn_env(functions@) =~= fns);
        let empty_scope: Table<String, Type> = Table::new();
        proof {
            lemma_block_resolves(nodes_view(self.nodes@), fns, Seq::empty(), None);
        }
        if !block_resolves_in(self.nodes.as_slice(), &functions, None) {
            return None;
        }
        let mut errors = block_errors(type_check_nodes(self.nodes.as_slice(), &functions, &empty_scope, None));
        let ghost body = messages(errors@);
        assert(body =~= tc_block(nodes_view(self.nodes@), fns, Seq::empty(), None)->Done_0.messages);
        let mut i: usize = 0;
        assert(own.take(0) =~= Seq::<(Seq<char>, FuncV)>::empty());
        assert(messages(errors@) =~= body + Seq::empty());
        while i < self.functions.len()
            invariant
                i <= own.len(),
                own == functions_view(self.functions@),
                fns == checking_env(own),
                fn_env(functions@) == fns,
                fn_env(intrinsic_functions@) == intrinsic_env(),
                tc_functions(own.take(i as int), fns) is Done,
                messages(errors@) == body + tc_functions(own.take(i as int), fns)->Done_0,
            decreases own.len() - i,
        {
            proof {
                assert(own.take(i + 1).drop_last() =~= own.take(i as int));
                assert(own.take(i + 1)[i as int] == own[i as int]);
                assert(own[i as int] == (self.functions@[i as int].0, self.functions@[i as int].1@));
            }
            let (name, function) = self.functions.entry_at(i);
            if !intrinsic_functions.contains_key(name) {
                match function.try_type_check(&functions) {
                    Some(result) => {
                        let mut function_errors = reported(result);
                        proof {
                            lemma_messages_append(errors@, function_errors@);
                        }
                        errors.append(&mut function_errors);
                    },
                    None => {
                        proof {
                            if tc_functions(own, fns) is Done {
                                lemma_functions_prefix(own, i + 1, fns);
                            }
                        }
                        return None;
                    },
                }
            }
            assert(messages(errors@) =~= body + tc_functions(own.take(i + 1), fns)->Done_0);
            i += 1;
        }
        assert(own.take(own.len() as int) =~= own);
        Some(as_result(errors))
    }
}

} // verus!
