//! Checking statements and blocks of statements.

use vstd::prelude::*;

use crate::ast::node::{
    lemma_call_view, lemma_if_view, nodes_view, Expression, Function, FunctionId, Node, NodeV, Type,
    VariableDeclarationType,
};
use crate::evaluation::semantics::{fn_env, FnEnv};
use crate::table::Table;
use crate::type_checking::function_return::{current_name, optional_expr, type_check_return_value};
use crate::type_checking::rules::{
    found_return, listed, returned_value_type, tc_block, tc_declaration, tc_node, type_mismatch,
    BlockCheck, Checked, TypeEnv,
};
use crate::type_checking::{
    as_result, lemma_messages_append, lemma_messages_push, messages, reported, reports, verify_type,
    TypeCheckingError,
};

verus! {

/// What checking a statement gives: the check's result, and whether the
/// statement returns from the function.
#[derive(Debug)]
pub enum NodeTypeCheckResult {
    ReturnedFromFunction(Result<(), Vec<TypeCheckingError>>),
    DidNotReturnedFromFunction(Result<(), Vec<TypeCheckingError>>),
}

/// Where checking a block completes, it completes on every prefix of it.
pub proof fn lemma_block_prefix(nodes: Seq<NodeV>, k: int, fns: FnEnv, locals: TypeEnv, current: Option<Seq<char>>)
    requires
        tc_block(nodes, fns, locals, current) is Done,
        0 <= k <= nodes.len(),
    ensures
        tc_block(nodes.take(k), fns, locals, current) is Done,
    decreases nodes.len(),
{
    if k == nodes.len() {
        assert(nodes.take(k) =~= nodes);
    } else {
        lemma_block_prefix(nodes.drop_last(), k, fns, locals, current);
        assert(nodes.drop_last().take(k) =~= nodes.take(k));
    }
}

/// The errors of a block's check, none if it succeeded.
pub fn block_errors(r: Result<Option<Type>, Vec<TypeCheckingError>>) -> (errors: Vec<TypeCheckingError>)
    ensures
        r is Ok ==> errors@.len() == 0,
        r matches Err(es) ==> errors@ == es@,
{
    match r {
        Ok(_) => Vec::new(),
        Err(errors) => errors,
    }
}

/// Checks a block: its statements in order, in a scope of its own that starts
/// as a copy of `local_variables`. The result is the type of the value of the
/// first top level `return` statement, if it has one with a value of some
/// type, or every error found.
pub fn type_check_nodes(
    nodes: &[Node],
    functions: &Table<FunctionId, Function>,
    local_variables: &Table<String, Type>,
    current_function: Option<&FunctionId>,
) -> (r: Result<Option<Type>, Vec<TypeCheckingError>>)
    requires
        tc_block(
            nodes_view(nodes@),
            fn_env(functions@),
            local_variables@,
            current_name(current_function),
        ) is Done,
    ensures
        ({
            let b = tc_block(
                nodes_view(nodes@),
                fn_env(functions@),
                local_variables@,
                current_name(current_function),
            )->Done_0;
            match r {
                Ok(t) => b.messages.len() == 0 && t == found_return(b.first_return),
                Err(errors) => b.messages.len() > 0 && messages(errors@) == b.messages,
            }
        }),
    decreases nodes@,
{
    let ghost nv = nodes_view(nodes@);
    let ghost fns = fn_env(functions@);
    let ghost cur = current_name(current_function);
    let mut scope = local_variables.copy();
    let mut errors: Vec<TypeCheckingError> = Vec::new();
    let mut first_return: Option<Option<Type>> = None;
    let mut i: usize = 0;
    assert(messages(errors@) =~= Seq::empty());
    assert(nv.take(0) =~= Seq::empty());
    while i < nodes.len()
        invariant
            i <= nodes@.len(),
            nv == nodes_view(nodes@),
            fns == fn_env(functions@),
            cur == current_name(current_function),
            tc_block(nv, fns, local_variables@, cur) is Done,
            tc_block(nv.take(i as int), fns, local_variables@, cur) == Checked::Done(
                BlockCheck { locals: scope@, first_return, messages: messages(errors@) },
            ),
        decreases nodes@.len() - i,
    {
        proof {
            assert(decreases_to!(nodes@ => nodes@[i as int]));
            lemma_block_prefix(nv, i + 1, fns, local_variables@, cur);
            assert(nv.take(i + 1).drop_last() =~= nv.take(i as int));
            assert(nv.take(i + 1)[i as int] == nodes@[i as int]@);
        }
        let node = &nodes[i];
        let returned_type = match node {
            Node::FunctionReturn { return_value: Some(expression) } => expression.get_type(
                functions,
                &scope,
            ),
            _ => None,
        };
        let result = match node.type_check(functions, &mut scope, current_function) {
            NodeTypeCheckResult::ReturnedFromFunction(result) => {
                if first_return.is_none() {
                    first_return = Some(returned_type);
                }
                result
            },
            NodeTypeCheckResult::DidNotReturnedFromFunction(result) => result,
        };
        let mut node_errors = reported(result);
        proof {
            lemma_messages_append(errors@, node_errors@);
        }
        errors.append(&mut node_errors);
        i += 1;
    }
    assert(nv.take(nodes@.len() as int) =~= nv);
    if errors.len() == 0 {
        Ok(
            match first_return {
                Some(t) => t,
                None => None,
            },
        )
    } else {
        Err(errors)
    }
}

impl Node {
    /// Checks the statement in the scope `local_variables`, which a variable
    /// declaration extends; tells whether the statement is a `return`
    /// statement.
    pub fn type_check(
        &self,
        functions: &Table<FunctionId, Function>,
        local_variables: &mut Table<String, Type>,
        current_function: Option<&FunctionId>,
    ) -> (r: NodeTypeCheckResult)
        requires
            tc_node(
                self@,
                fn_env(functions@),
                old(local_variables)@,
                current_name(current_function),
            ) is Done,
        ensures
            ({
                let c = tc_node(
                    self@,
                    fn_env(functions@),
                    old(local_variables)@,
                    current_name(current_function),
                )->Done_0;
                &&& final(local_variables)@ == c.locals
                &&& match r {
                    NodeTypeCheckResult::ReturnedFromFunction(result) => c.returned && reports(
                        result,
                        c.messages,
                    ),
                    NodeTypeCheckResult::DidNotReturnedFromFunction(result) => !c.returned
                        && reports(result, c.messages),
                }
            }),
        decreases self,
    {
        match self {
            Node::VariableDeclaration { var_type, var_name, value } => {
                NodeTypeCheckResult::DidNotReturnedFromFunction(
                    Self::type_check_variable_declaration(
                        var_name.as_str(),
                        var_type,
                        value,
                        functions,
                        local_variables,
                    ),
                )
            },
            Node::FunctionReturn { return_value } => {
                let value = match return_value {
                    Some(e) => Some(e),
                    None => None,
                };
                NodeTypeCheckResult::ReturnedFromFunction(
                    type_check_return_value(value, functions, local_variables, current_function),
                )
            },
            Node::FunctionCall(function_call) => {
                proof {
                    lemma_call_view(*function_call);
                }
                NodeTypeCheckResult::DidNotReturnedFromFunction(
                    function_call.type_check(functions, local_variables),
                )
            },
            Node::IfStatement(if_statement) => {
                proof {
                    lemma_if_view(*if_statement);
                }
                NodeTypeCheckResult::DidNotReturnedFromFunction(
                    if_statement.type_check(functions, local_variables, current_function),
                )
            },
        }
    }

    /// Checks the declaration of `var_name` with the value `value`: the value
    /// is checked; a variable already in scope is an error and keeps its type;
    /// an inferred variable takes the value's type, which must exist; a typed
    /// variable takes its declared type, which the value must have.
    fn type_check_variable_declaration(
        var_name: &str,
        var_type: &VariableDeclarationType,
        value: &Expression,
        functions: &Table<FunctionId, Function>,
        local_variables: &mut Table<String, Type>,
    ) -> (r: Result<(), Vec<TypeCheckingError>>)
        requires
            tc_declaration(*var_type, var_name@, value@, fn_env(functions@), old(local_variables)@) is Done,
        ensures
            final(local_variables)@ == tc_declaration(
                *var_type,
                var_name@,
                value@,
                fn_env(functions@),
                old(local_variables)@,
            )->Done_0.0,
            reports(
                r,
                tc_declaration(
                    *var_type,
                    var_name@,
                    value@,
                    fn_env(functions@),
                    old(local_variables)@,
                )->Done_0.1,
            ),
    {
        let ghost locals0 = local_variables@;
        let mut errors: Vec<TypeCheckingError> = Vec::new();
        let value_type = value.get_type(functions, local_variables);
        let mut value_errors = reported(value.type_check(functions, local_variables));
        proof {
            lemma_messages_append(errors@, value_errors@);
        }
        errors.append(&mut value_errors);
        assert(messages(errors@) =~= crate::type_checking::rules::tc_expr(value@, fn_env(functions@), locals0)->Done_0);
        let name = var_name.to_owned();
        let variable_already_exists = local_variables.contains_key(&name);
        let ghost value_messages = messages(errors@);
        let ghost msgs = if variable_already_exists {
            value_messages.push("Variable "@ + var_name@ + " is already defined"@)
        } else {
            value_messages
        };
        if variable_already_exists {
            let mut message = "Variable ".to_owned();
            message.append(var_name);
            message.append(" is already defined");
            let e = TypeCheckingError { message };
            proof {
                lemma_messages_push(errors@, e);
            }
            errors.push(e);
        }
        assert(messages(errors@) == msgs);
        match var_type {
            VariableDeclarationType::Infer => {
                if let Some(value_type) = value_type {
                    if !variable_already_exists {
                        local_variables.insert(name, value_type);
                    }
                } else {
                    let mut message = "cannot assign void to variable ".to_owned();
                    message.append(var_name);
                    let e = TypeCheckingError { message };
                    proof {
                        lemma_messages_push(errors@, e);
                    }
                    errors.push(e);
                    assert(messages(errors@) == msgs.push("cannot assign void to variable "@ + var_name@));
                }
            },
            VariableDeclarationType::Type(expected_type) => {
                if !variable_already_exists {
                    local_variables.insert(name, *expected_type);
                }
                let ghost before = messages(errors@);
                if let Err(var_error) = verify_type(value_type, *expected_type) {
                    proof {
                        lemma_messages_push(errors@, var_error);
                    }
                    errors.push(var_error);
                }
                assert(messages(errors@) =~= before + listed(type_mismatch(value_type, *expected_type)));
            },
        }
        as_result(errors)
    }
}

} // verus!
