//! Checking `if` statements.

use vstd::prelude::*;

use crate::ast::node::{ElseIfBlock, ElseIfV, Function, FunctionId, IfStatement, Type};
use crate::evaluation::semantics::{fn_env, FnEnv};
use crate::table::Table;
use crate::type_checking::function_return::current_name;
use crate::type_checking::node::{block_errors, type_check_nodes};
use crate::type_checking::rules::{
    listed, tc_block, tc_else_if, tc_else_ifs, tc_if, type_mismatch, Checked, TypeEnv,
};
use crate::type_checking::{
    as_result, lemma_messages_append, lemma_messages_push, messages, reported, reports, verify_type,
    TypeCheckingError,
};

verus! {

/// Where checking `else if` blocks completes, it completes on every prefix of
/// them.
pub proof fn lemma_else_ifs_prefix(bs: Seq<ElseIfV>, k: int, fns: FnEnv, locals: TypeEnv, current: Option<Seq<char>>)
    requires
        tc_else_ifs(bs, fns, locals, current) is Done,
        0 <= k <= bs.len(),
    ensures
        tc_else_ifs(bs.take(k), fns, locals, current) is Done,
    decreases bs.len(),
{
    if k == bs.len() {
        assert(bs.take(k) =~= bs);
    } else {
        lemma_else_ifs_prefix(bs.drop_last(), k, fns, locals, current);
        assert(bs.drop_last().take(k) =~= bs.take(k));
    }
}

impl IfStatement {
    /// Checks the statement: its check must be a boolean and is checked, then
    /// the `if` block, the `else if` blocks and the `else` block are checked,
    /// each in a scope of its own.
    #[verifier::loop_isolation(false)]
    #[verifier::rlimit(30)]
    pub fn type_check(
        &self,
        functions: &Table<FunctionId, Function>,
        local_variables: &Table<String, Type>,
        current_function: Option<&FunctionId>,
    ) -> (r: Result<(), Vec<TypeCheckingError>>)
        requires
            tc_if(self@, fn_env(functions@), local_variables@, current_name(current_function)) is Done,
        ensures
            reports(
                r,
                tc_if(self@, fn_env(functions@), local_variables@, current_name(current_function))->Done_0,
            ),
        decreases self,
    {
        let ghost fns = fn_env(functions@);
        let ghost cur = current_name(current_function);
        let ghost s = self@;
        let mut errors: Vec<TypeCheckingError> = Vec::new();
        let check_type = self.check_expression.get_type(functions, local_variables);
        if let Err(err) = verify_type(check_type, Type::Boolean) {
            proof {
                lemma_messages_push(errors@, err);
            }
            errors.push(err);
        }
        assert(messages(errors@) =~= listed(type_mismatch(check_type, Type::Boolean)));
        let mut check_errors = reported(self.check_expression.type_check(functions, local_variables));
        proof {
            lemma_messages_append(errors@, check_errors@);
        }
        errors.append(&mut check_errors);
        let ghost start = messages(errors@);
        assert(start =~= listed(type_mismatch(check_type, Type::Boolean)) + crate::type_checking::rules::tc_expr(
            s.check,
            fns,
            local_variables@,
        )->Done_0);
        proof {
            assert(decreases_to!(*self => self.if_block));
            assert(decreases_to!(self.if_block => self.if_block@));
        }
        let mut if_errors = block_errors(
            type_check_nodes(self.if_block.as_slice(), functions, local_variables, current_function),
        );
        proof {
            lemma_messages_append(errors@, if_errors@);
        }
        errors.append(&mut if_errors);
        let ghost first = messages(errors@);
        assert(first =~= start + tc_block(s.if_block, fns, local_variables@, cur)->Done_0.messages);
        let mut j: usize = 0;
        assert(s.else_ifs.take(0) =~= Seq::<ElseIfV>::empty());
        assert(messages(errors@) =~= first + Seq::empty());
        while j < self.else_if_blocks.len()
            invariant
                j <= self.else_if_blocks@.len(),
                s == self@,
                tc_else_ifs(s.else_ifs, fns, local_variables@, cur) is Done,
                tc_else_ifs(s.else_ifs.take(j as int), fns, local_variables@, cur) is Done,
                messages(errors@) == first + tc_else_ifs(
                    s.else_ifs.take(j as int),
                    fns,
                    local_variables@,
                    cur,
                )->Done_0,
            decreases self.else_if_blocks@.len() - j,
        {
            proof {
                assert(decreases_to!(*self => self.else_if_blocks));
                assert(decreases_to!(self.else_if_blocks => self.else_if_blocks@));
                assert(decreases_to!(self.else_if_blocks@ => self.else_if_blocks@[j as int]));
                lemma_else_ifs_prefix(s.else_ifs, j + 1, fns, local_variables@, cur);
                assert(s.else_ifs.take(j + 1).drop_last() =~= s.else_ifs.take(j as int));
                assert(s.else_ifs.take(j + 1)[j as int] == self.else_if_blocks@[j as int]@);
            }
            let mut block_errors = reported(
                self.else_if_blocks[j].type_check(functions, local_variables, current_function),
            );
            proof {
                lemma_messages_append(errors@, block_errors@);
            }
            errors.append(&mut block_errors);
            j += 1;
        }
        assert(s.else_ifs.take(self.else_if_blocks@.len() as int) =~= s.else_ifs);
        let ghost second = messages(errors@);
        match &self.else_block {
            Some(else_block) => {
                proof {
                    assert(decreases_to!(*self => self.else_block));
                    assert(decreases_to!(self.else_block => *else_block));
                    assert(decreases_to!(*else_block => else_block@));
                }
                let mut else_errors = block_errors(
                    type_check_nodes(else_block.as_slice(), functions, local_variables, current_function),
                );
                proof {
                    lemma_messages_append(errors@, else_errors@);
                }
                errors.append(&mut else_errors);
            },
            None => {
                assert(messages(errors@) =~= second + Seq::empty());
            },
        }
        assert(messages(errors@) =~= first + (tc_else_ifs(s.else_ifs, fns, local_variables@, cur)->Done_0 + match s.else_block {
            Some(b) => tc_block(b, fns, local_variables@, cur)->Done_0.messages,
            None => Seq::empty(),
        }));
        as_result(errors)
    }
}

impl ElseIfBlock {
    /// Checks the block: its check must be a boolean and is checked, then its
    /// statements are checked in a scope of their own.
    pub fn type_check(
        &self,
        functions: &Table<FunctionId, Function>,
        local_variables: &Table<String, Type>,
        current_function: Option<&FunctionId>,
    ) -> (r: Result<(), Vec<TypeCheckingError>>)
        requires
            tc_else_if(self@, fn_env(functions@), local_variables@, current_name(current_function))
                is Done,
        ensures
            reports(
                r,
                tc_else_if(
                    self@,
                    fn_env(functions@),
                    local_variables@,
                    current_name(current_function),
                )->Done_0,
            ),
        decreases self,
    {
        let mut errors: Vec<TypeCheckingError> = Vec::new();
        let check_type = self.check.get_type(functions, local_variables);
        if let Err(err) = verify_type(check_type, Type::Boolean) {
            proof {
                lemma_messages_push(errors@, err);
            }
            errors.push(err);
        }
        assert(messages(errors@) =~= listed(type_mismatch(check_type, Type::Boolean)));
        let mut check_errors = reported(self.check.type_check(functions, local_variables));
        proof {
            lemma_messages_append(errors@, check_errors@);
        }
        errors.append(&mut check_errors);
        proof {
            assert(decreases_to!(*self => self.block));
            assert(decreases_to!(self.block => self.block@));
        }
        let mut block_errors = block_errors(
            type_check_nodes(self.block.as_slice(), functions, local_variables, current_function),
        );
        proof {
            lemma_messages_append(errors@, block_errors@);
        }
        errors.append(&mut block_errors);
        as_result(errors)
    }
}

} // verus!
