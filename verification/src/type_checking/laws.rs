//! Properties of type checking, stated over the typing rules.

use vstd::prelude::*;

use crate::ast::node::{spec_type_name, ElseIfV, FuncV, IfV, Type};
use crate::evaluation::intrinsics::intrinsic_env;
use crate::evaluation::semantics::FnEnv;
use crate::type_checking::rules::{
    checking_env, expr_type, tc_else_if, tc_else_ifs, tc_function, tc_functions, tc_if, tc_program, Checked,
    Messages, TypeEnv,
};

verus! {

/// The messages `part` are reported, in order and together, among `all`.
pub open spec fn reported_within(part: Messages, all: Messages) -> bool {
    exists|a: int| 0 <= a && a + part.len() <= all.len() && #[trigger] all.subrange(a, a + part.len()) == part
}

/// Messages reported within a part of a concatenation are reported within
/// the whole.
pub proof fn lemma_reported_within_concat(part: Messages, x: Messages, y: Messages)
    ensures
        reported_within(part, x) ==> reported_within(part, x + y),
        reported_within(part, y) ==> reported_within(part, x + y),
{
    if reported_within(part, x) {
        let a = choose|a: int| 0 <= a && a + part.len() <= x.len() && #[trigger] x.subrange(a, a + part.len()) == part;
        assert((x + y).subrange(a, a + part.len()) =~= x.subrange(a, a + part.len()));
    }
    if reported_within(part, y) {
        let a = choose|a: int| 0 <= a && a + part.len() <= y.len() && #[trigger] y.subrange(a, a + part.len()) == part;
        assert((x + y).subrange(x.len() + a, x.len() + a + part.len()) =~= y.subrange(a, a + part.len()));
    }
}

/// Every message list is reported within itself.
proof fn lemma_reported_within_self(m: Messages)
    ensures
        reported_within(m, m),
{
    assert(m.subrange(0, 0 + m.len() as int) =~= m);
}

/// Checking `else if` blocks reports the messages of each of them.
proof fn lemma_else_ifs_report_each(bs: Seq<ElseIfV>, i: int, fns: FnEnv, locals: TypeEnv, current: Option<Seq<char>>)
    requires
        tc_else_ifs(bs, fns, locals, current) is Done,
        0 <= i < bs.len(),
    ensures
        tc_else_if(bs[i], fns, locals, current) is Done,
        reported_within(
            tc_else_if(bs[i], fns, locals, current)->Done_0,
            tc_else_ifs(bs, fns, locals, current)->Done_0,
        ),
    decreases bs.len(),
{
    let x = tc_else_ifs(bs.drop_last(), fns, locals, current)->Done_0;
    let y = tc_else_if(bs[bs.len() - 1], fns, locals, current)->Done_0;
    let part = tc_else_if(bs[i], fns, locals, current)->Done_0;
    if i < bs.len() - 1 {
        lemma_else_ifs_report_each(bs.drop_last(), i, fns, locals, current);
        assert(bs.drop_last()[i] == bs[i]);
    } else {
        lemma_reported_within_self(y);
    }
    lemma_reported_within_concat(part, x, y);
}

/// Checking an `if` statement reports the messages of checking each of its
/// `else if` blocks, whichever its position; in particular an `else if`
/// block whose check has a type other than boolean is always reported with
/// `Expected type to be Boolean, but found` that type.
pub proof fn law_if_reports_every_else_if(s: IfV, i: int, fns: FnEnv, locals: TypeEnv, current: Option<Seq<char>>)
    requires
        tc_if(s, fns, locals, current) is Done,
        0 <= i < s.else_ifs.len(),
    ensures
        tc_else_if(s.else_ifs[i], fns, locals, current) is Done,
        reported_within(
            tc_else_if(s.else_ifs[i], fns, locals, current)->Done_0,
            tc_if(s, fns, locals, current)->Done_0,
        ),
        forall|t: Type|
            #![trigger spec_type_name(t)]
            expr_type(s.else_ifs[i].check, fns, locals) == Checked::Done(Some(t)) && t != Type::Boolean
                ==> tc_if(s, fns, locals, current)->Done_0.contains(
                "Expected type to be Boolean, but found "@ + spec_type_name(t),
            ),
{
    let bs = s.else_ifs;
    lemma_else_ifs_report_each(bs, i, fns, locals, current);
    let part = tc_else_if(bs[i], fns, locals, current)->Done_0;
    let m = tc_if(s, fns, locals, current)->Done_0;
    let e = tc_else_ifs(bs, fns, locals, current)->Done_0;
    let c = match s.else_block {
        Some(b) => crate::type_checking::rules::tc_block(b, fns, locals, current)->Done_0.messages,
        None => Seq::empty(),
    };
    let front = m.subrange(0, m.len() - (e + c).len());
    assert(m =~= front + (e + c));
    lemma_reported_within_concat(part, e, c);
    lemma_reported_within_concat(part, front, e + c);
    if let Checked::Done(Some(t)) = expr_type(bs[i].check, fns, locals) {
        if t != Type::Boolean {
            let msg = "Expected type to be Boolean, but found "@ + spec_type_name(t);
            let b = bs[i];
            let first = crate::type_checking::rules::operand_check(expr_type(b.check, fns, locals), Type::Boolean)->Done_0;
            reveal_strlit("Expected type to be Boolean, but found ");
            reveal_strlit("Expected type to be ");
            reveal_strlit(", but found ");
            reveal_strlit("Boolean");
            assert(msg =~= "Expected type to be "@ + spec_type_name(Type::Boolean) + ", but found "@ + spec_type_name(t));
            assert(first == seq![msg]);
            let rest = crate::type_checking::rules::tc_expr(b.check, fns, locals)->Done_0;
            let blk = crate::type_checking::rules::tc_block(b.block, fns, locals, current)->Done_0.messages;
            assert(part == (first + rest) + blk);
            assert(part[0] == msg);
            let a = choose|a: int| 0 <= a && a + part.len() <= m.len() && #[trigger] m.subrange(a, a + part.len()) == part;
            assert(m.subrange(a, a + part.len())[0] == m[a]);
            assert(m[a] == msg);
        }
    }
}

/// Checking functions reports the messages of each that is checked.
proof fn lemma_functions_report_each(functions: Seq<(Seq<char>, FuncV)>, i: int, fns: FnEnv)
    requires
        tc_functions(functions, fns) is Done,
        0 <= i < functions.len(),
        intrinsic_env()(functions[i].0) is None,
    ensures
        tc_function(functions[i].1, fns) is Done,
        reported_within(tc_function(functions[i].1, fns)->Done_0, tc_functions(functions, fns)->Done_0),
    decreases functions.len(),
{
    let n = functions.len();
    let x = tc_functions(functions.drop_last(), fns)->Done_0;
    let y = tc_functions(functions, fns)->Done_0.subrange(x.len() as int, tc_functions(functions, fns)->Done_0.len() as int);
    let part = tc_function(functions[i].1, fns)->Done_0;
    assert(tc_functions(functions, fns)->Done_0 =~= x + y);
    if i < n - 1 {
        lemma_functions_report_each(functions.drop_last(), i, fns);
        assert(functions.drop_last()[i] == functions[i]);
    } else {
        assert(y == part);
        lemma_reported_within_self(part);
    }
    lemma_reported_within_concat(part, x, y);
}

/// Checking a program reports the messages of checking each of its own
/// functions, whichever its position: a program one of whose functions is
/// reported ill typed is rejected.
pub proof fn law_program_reports_every_function(functions: Seq<(Seq<char>, FuncV)>, nodes: Seq<crate::ast::node::NodeV>, i: int)
    requires
        tc_program(functions, nodes) is Done,
        0 <= i < functions.len(),
        intrinsic_env()(functions[i].0) is None,
    ensures
        tc_function(functions[i].1, checking_env(functions)) is Done,
        reported_within(
            tc_function(functions[i].1, checking_env(functions))->Done_0,
            tc_program(functions, nodes)->Done_0,
        ),
        tc_function(functions[i].1, checking_env(functions))->Done_0.len() > 0
            ==> tc_program(functions, nodes)->Done_0.len() > 0,
{
    let fns = checking_env(functions);
    lemma_functions_report_each(functions, i, fns);
    let m = tc_program(functions, nodes)->Done_0;
    let f = tc_functions(functions, fns)->Done_0;
    let front = m.subrange(0, m.len() - f.len());
    assert(m =~= front + f);
    lemma_reported_within_concat(tc_function(functions[i].1, fns)->Done_0, front, f);
}

} // verus!
