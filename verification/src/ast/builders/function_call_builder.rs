//! Building calls.

use vstd::prelude::*;

use crate::ast::builders::expression_builder::ExpressionBuilder;
use crate::ast::node::{Expression, FunctionCall, FunctionId};

verus! {

/// Builds one call: the called name and the argument expressions, once set.
pub struct FunctionCallBuilder {
    pub function_id: Option<FunctionId>,
    pub parameters: Option<Vec<Expression>>,
}

impl Default for FunctionCallBuilder {
    fn default() -> (b: Self)
        ensures
            b.function_id is None,
            b.parameters is None,
    {
        FunctionCallBuilder { function_id: None, parameters: None }
    }
}

impl FunctionCallBuilder {
    /// Sets the called name.
    pub fn function_id(self, function_id: &str) -> (b: Self)
        ensures
            b.function_id matches Some(id) && id@ == function_id@,
            b.parameters == self.parameters,
    {
        FunctionCallBuilder { function_id: Some(FunctionId(function_id.to_owned())), parameters: self.parameters }
    }

    /// Adds an argument, built by `expression_fn`.
    pub fn parameter<F: FnOnce(ExpressionBuilder) -> Expression>(self, expression_fn: F) -> (b: Self)
        requires
            call_requires(expression_fn, (ExpressionBuilder {},)),
        ensures
            b.function_id == self.function_id,
            b.parameters matches Some(ps) && ps@.len() > 0 && call_ensures(
                expression_fn,
                (ExpressionBuilder {},),
                ps@.last(),
            ) && ps@.drop_last() == match self.parameters {
                Some(old) => old@,
                None => Seq::empty(),
            },
    {
        let expression = expression_fn(ExpressionBuilder {});
        let mut parameters = match self.parameters {
            Some(ps) => ps,
            None => Vec::new(),
        };
        let ghost before = parameters@;
        parameters.push(expression);
        assert(parameters@.drop_last() =~= before);
        FunctionCallBuilder { function_id: self.function_id, parameters: Some(parameters) }
    }

    /// Sets the arguments to none.
    pub fn no_parameters(self) -> (b: Self)
        ensures
            b.function_id == self.function_id,
            b.parameters matches Some(ps) && ps@.len() == 0,
    {
        FunctionCallBuilder { function_id: self.function_id, parameters: Some(Vec::new()) }
    }

    /// The call; its name and its arguments must have been set.
    pub fn build(self) -> (c: FunctionCall)
        requires
            self.function_id is Some,
            self.parameters is Some,
        ensures
            c.function_id == self.function_id->0,
            c.parameters == self.parameters->0,
    {
        match (self.function_id, self.parameters) {
            (Some(function_id), Some(parameters)) => FunctionCall { function_id, parameters },
            _ => vstd::pervasive::unreached(),
        }
    }
}

} // verus!
