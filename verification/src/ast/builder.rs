//! A builder of flat statement lists, each statement tagged with where it was
//! found.

use vstd::prelude::*;

use crate::ast::node::{BoolValue, Expression, Type, Value, VariableDeclarationType};

verus! {

/// Where a statement was found.
#[derive(Clone, Copy, Debug, PartialEq, Eq, Structural)]
pub struct NodeInfo {
    pub line: u32,
    pub character: u32,
}

/// A unary operation on a literal.
#[derive(Clone, Copy, Debug, PartialEq, Eq, Structural)]
pub enum UnaryOperation {
    Not { value: BoolValue },
}

/// An operation on literals.
#[derive(Clone, Copy, Debug, PartialEq, Eq, Structural)]
pub enum Operation {
    Unary(UnaryOperation),
}

/// A statement of a flat statement list.
#[derive(Debug, PartialEq)]
pub enum Node {
    Literal { info: NodeInfo, value: Value },
    Operation { info: NodeInfo, operation: Operation },
    VariableDeclaration {
        name_info: NodeInfo,
        var_name: String,
        type_info: NodeInfo,
        var_type: VariableDeclarationType,
    },
    VariableAssignment { info: NodeInfo, value: Expression },
}

/// A statement list under construction.
#[derive(Debug, PartialEq)]
pub struct Builder {
    pub nodes: Vec<Node>,
}

/// Builds the next statement of a list.
pub struct StatementBuilder {
    pub builder: Builder,
}

/// Builds a variable declaration: its name and its type, once set.
pub struct VariableDeclarationBuilder {
    pub builder: StatementBuilder,
    pub var_name: Option<(String, NodeInfo)>,
    pub var_type: Option<(VariableDeclarationType, NodeInfo)>,
}

impl StatementBuilder {
    /// Starts a variable declaration.
    pub fn var_declaration(self) -> (b: VariableDeclarationBuilder)
        ensures
            b.builder == self,
            b.var_name is None,
            b.var_type is None,
    {
        VariableDeclarationBuilder { builder: self, var_name: None, var_type: None }
    }
}

impl VariableDeclarationBuilder {
    /// Declares the variable's type, found at `info`.
    pub fn declare_type(self, var_type: Type, info: NodeInfo) -> (b: VariableDeclarationBuilder)
        ensures
            b.builder == self.builder,
            b.var_name == self.var_name,
            b.var_type == Some((VariableDeclarationType::Type(var_type), info)),
    {
        VariableDeclarationBuilder {
            builder: self.builder,
            var_name: self.var_name,
            var_type: Some((VariableDeclarationType::Type(var_type), info)),
        }
    }

    /// Names the variable; the name was found at `info`.
    pub fn name(self, name: &str, info: NodeInfo) -> (b: VariableDeclarationBuilder)
        ensures
            b.builder == self.builder,
            b.var_type == self.var_type,
            b.var_name matches Some((n, i)) && n@ == name@ && i == info,
    {
        VariableDeclarationBuilder {
            builder: self.builder,
            var_name: Some((name.to_owned(), info)),
            var_type: self.var_type,
        }
    }

    /// Ends the declaration with an assignment of `value`, found at `info`:
    /// the declaration and the assignment are added to the list. The name and
    /// the type must have been set.
    pub fn with_assignment(self, value: Expression, info: NodeInfo) -> (b: Builder)
        requires
            self.var_name is Some,
            self.var_type is Some,
        ensures
            b.nodes@ == self.builder.builder.nodes@.push(
                Node::VariableDeclaration {
                    name_info: (self.var_name->0).1,
                    var_name: (self.var_name->0).0,
                    type_info: (self.var_type->0).1,
                    var_type: (self.var_type->0).0,
                },
            ).push(Node::VariableAssignment { info, value }),
    {
        match (self.var_name, self.var_type) {
            (Some((var_name, var_name_info)), Some((var_type, var_type_info))) => {
                let mut nodes = self.builder.builder.nodes;
                nodes.push(
                    Node::VariableDeclaration {
                        name_info: var_name_info,
                        var_name,
                        type_info: var_type_info,
                        var_type,
                    },
                );
                nodes.push(Node::VariableAssignment { info, value });
                Builder { nodes }
            },
            _ => vstd::pervasive::unreached(),
        }
    }

    /// Ends the declaration without an assignment: the declaration is added
    /// to the list. The name and the type must have been set.
    pub fn without_assignment(self) -> (b: Builder)
        requires
            self.var_name is Some,
            self.var_type is Some,
        ensures
            b.nodes@ == self.builder.builder.nodes@.push(
                Node::VariableDeclaration {
                    name_info: (self.var_name->0).1,
                    var_name: (self.var_name->0).0,
                    type_info: (self.var_type->0).1,
                    var_type: (self.var_type->0).0,
                },
            ),
    {
        match (self.var_name, self.var_type) {
            (Some((var_name, var_name_info)), Some((var_type, var_type_info))) => {
                let mut nodes = self.builder.builder.nodes;
                nodes.push(
                    Node::VariableDeclaration {
                        name_info: var_name_info,
                        var_name,
                        type_info: var_type_info,
                        var_type,
                    },
                );
                Builder { nodes }
            },
            _ => vstd::pervasive::unreached(),
        }
    }
}

impl Builder {
    /// An empty list.
    pub fn new() -> (b: Self)
        ensures
            b.nodes@.len() == 0,
    {
        Builder { nodes: Vec::new() }
    }

    /// Starts the next statement.
    pub fn statement(self) -> (b: StatementBuilder)
        ensures
            b.builder == self,
    {
        StatementBuilder { builder: self }
    }

    /// Adds the literal `value`, found at `info`.
    pub fn literal(self, info: NodeInfo, value: Value) -> (b: Self)
        ensures
            b.nodes@ == self.nodes@.push(Node::Literal { info, value }),
    {
        let mut nodes = self.nodes;
        nodes.push(Node::Literal { info, value });
        Builder { nodes }
    }

    /// Starts an operation found at `info`.
    pub fn operation(self, info: NodeInfo) -> (b: OperationBuilder)
        ensures
            b.builder == self,
            b.node_info == info,
    {
        OperationBuilder { builder: self, node_info: info }
    }
}

/// Builds a `!` operation.
pub struct NotOperationBuilder {
    pub operation_builder: OperationBuilder,
}

impl NotOperationBuilder {
    /// Adds `!` on the boolean `value`.
    pub fn value(self, value: bool) -> (b: Builder)
        ensures
            b.nodes@ == self.operation_builder.builder.nodes@.push(
                Node::Operation {
                    info: self.operation_builder.node_info,
                    operation: Operation::Unary(UnaryOperation::Not { value: BoolValue(value) }),
                },
            ),
    {
        let mut nodes = self.operation_builder.builder.nodes;
        nodes.push(
            Node::Operation {
                info: self.operation_builder.node_info,
                operation: Operation::Unary(UnaryOperation::Not { value: BoolValue(value) }),
            },
        );
        Builder { nodes }
    }
}

/// Builds an operation found at `node_info`.
pub struct OperationBuilder {
    pub builder: Builder,
    pub node_info: NodeInfo,
}

impl OperationBuilder {
    /// Starts a `!` operation.
    pub fn not(self) -> (b: NotOperationBuilder)
        ensures
            b.operation_builder == self,
    {
        NotOperationBuilder { operation_builder: self }
    }
}

} // verus!
