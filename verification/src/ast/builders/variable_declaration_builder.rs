//! Building variable declarations.

use vstd::prelude::*;

use crate::ast::builders::expression_builder::ExpressionBuilder;
use crate::ast::node::{Expression, Node, Type, VariableDeclarationType};

verus! {

/// Builds one variable declaration: its name and its type, once set.
pub struct VariableDeclarationBuilder {
    pub var_name: Option<String>,
    pub var_type: Option<VariableDeclarationType>,
}

impl Default for VariableDeclarationBuilder {
    fn default() -> (b: Self)
        ensures
            b.var_name is None,
            b.var_type is None,
    {
        VariableDeclarationBuilder { var_name: None, var_type: None }
    }
}

impl VariableDeclarationBuilder {
    /// Declares the variable's type.
    pub fn declare_type(self, var_type: Type) -> (b: VariableDeclarationBuilder)
        ensures
            b.var_type == Some(VariableDeclarationType::Type(var_type)),
            b.var_name == self.var_name,
    {
        VariableDeclarationBuilder {
            var_name: self.var_name,
            var_type: Some(VariableDeclarationType::Type(var_type)),
        }
    }

    /// Lets the variable's type be inferred.
    pub fn infer_type(self) -> (b: VariableDeclarationBuilder)
        ensures
            b.var_type == Some(VariableDeclarationType::Infer),
            b.var_name == self.var_name,
    {
        VariableDeclarationBuilder { var_name: self.var_name, var_type: Some(VariableDeclarationType::Infer) }
    }

    /// Names the variable.
    pub fn name(self, name: &str) -> (b: VariableDeclarationBuilder)
        ensures
            b.var_name matches Some(n) && n@ == name@,
            b.var_type == self.var_type,
    {
        VariableDeclarationBuilder { var_name: Some(name.to_owned()), var_type: self.var_type }
    }

    /// The declaration, with the value built by `value_fn`; the name and the
    /// type must have been set.
    pub fn with_assignment<F: Fn(ExpressionBuilder) -> Expression>(self, value_fn: F) -> (n: Node)
        requires
            self.var_name is Some,
            self.var_type is Some,
            call_requires(value_fn, (ExpressionBuilder {},)),
        ensures
            n matches Node::VariableDeclaration { var_type, var_name, value } && var_type
                == self.var_type->0 && var_name == self.var_name->0 && call_ensures(
                value_fn,
                (ExpressionBuilder {},),
                value,
            ),
    {
        match (self.var_name, self.var_type) {
            (Some(var_name), Some(var_type)) => Node::VariableDeclaration {
                var_type,
                var_name,
                value: value_fn(ExpressionBuilder {}),
            },
            _ => vstd::pervasive::unreached(),
        }
    }
}

} // verus!
