//! Building programs.

use vstd::prelude::*;

use crate::ast::builders::function_declaration_builder::FunctionDeclarationBuilder;
use crate::ast::builders::statement_builder::StatementBuilder;
use crate::ast::node::{Ast, Function, FunctionDeclaration, FunctionId, Node};
use crate::table::{seq_insert_all, Table, TableKey};

verus! {

/// A program under construction: its function declarations and its top level
/// statements, in order.
#[derive(Debug, PartialEq)]
pub struct AstBuilder {
    pub functions: Vec<FunctionDeclaration>,
    pub nodes: Vec<Node>,
}

/// The function a declaration declares.
pub open spec fn declared_function(d: FunctionDeclaration) -> Function {
    Function::CustomFunction {
        id: d.id,
        name: d.name,
        parameters: d.parameters,
        return_type: d.return_type,
        body: d.body,
    }
}

impl Default for AstBuilder {
    fn default() -> (b: Self)
        ensures
            b.is_empty(),
    {
        AstBuilder { functions: Vec::new(), nodes: Vec::new() }
    }
}

impl AstBuilder {
    /// Nothing has been added yet.
    pub open spec fn is_empty(&self) -> bool {
        self.functions@.len() == 0 && self.nodes@.len() == 0
    }

    /// Adds the statement built by `statement_fn`.
    pub fn statement<F: FnOnce(StatementBuilder) -> Node>(self, statement_fn: F) -> (b: Self)
        requires
            call_requires(statement_fn, (StatementBuilder {},)),
        ensures
            b.functions == self.functions,
            b.nodes@.len() == self.nodes@.len() + 1,
            b.nodes@.drop_last() == self.nodes@,
            call_ensures(statement_fn, (StatementBuilder {},), b.nodes@.last()),
    {
        let node = statement_fn(StatementBuilder {});
        let mut nodes = self.nodes;
        let ghost before = nodes@;
        nodes.push(node);
        assert(nodes@.drop_last() =~= before);
        AstBuilder { functions: self.functions, nodes }
    }

    /// Adds the function declaration built by `function_declaration_fn` from
    /// a new declaration builder.
    pub fn function_declaration<F: FnOnce(FunctionDeclarationBuilder) -> FunctionDeclaration>(
        self,
        function_declaration_fn: F,
    ) -> (b: AstBuilder)
        requires
            call_requires(
                function_declaration_fn,
                (FunctionDeclarationBuilder { id: None, name: None, parameters: None, return_type: None },),
            ),
        ensures
            b.nodes == self.nodes,
            b.functions@.len() == self.functions@.len() + 1,
            b.functions@.drop_last() == self.functions@,
            call_ensures(
                function_declaration_fn,
                (FunctionDeclarationBuilder { id: None, name: None, parameters: None, return_type: None },),
                b.functions@.last(),
            ),
    {
        let function_declaration = function_declaration_fn(
            FunctionDeclarationBuilder { id: None, name: None, parameters: None, return_type: None },
        );
        let mut functions = self.functions;
        let ghost before = functions@;
        functions.push(function_declaration);
        assert(functions@.drop_last() =~= before);
        AstBuilder { functions, nodes: self.nodes }
    }

    /// The program: a function for each declaration, by name, a later
    /// declaration replacing an earlier one of the same name; and the
    /// statements.
    pub fn build(self) -> (a: Ast)
        ensures
            a.nodes == self.nodes,
            a.functions@ == seq_insert_all(
                Seq::empty(),
                self.functions@.map_values(
                    |d: FunctionDeclaration| (d.id.key_view(), declared_function(d)),
                ),
            ),
    {
        let ghost ds = self.functions@;
        let mut declarations = self.functions;
        let mut reversed: Vec<FunctionDeclaration> = Vec::new();
        while declarations.len() > 0
            invariant
                declarations@.len() + reversed@.len() == ds.len(),
                forall|i: int| 0 <= i < declarations@.len() ==> declarations@[i] == ds[i],
                forall|i: int| 0 <= i < reversed@.len() ==> reversed@[i] == ds[ds.len() - 1 - i],
            decreases declarations@.len(),
        {
            let d = declarations.pop().unwrap();
            reversed.push(d);
        }
        let mut pairs: Vec<(FunctionId, Function)> = Vec::new();
        while reversed.len() > 0
            invariant
                pairs@.len() + reversed@.len() == ds.len(),
                forall|i: int| 0 <= i < reversed@.len() ==> reversed@[i] == ds[ds.len() - 1 - i],
                pairs@.map_values(|e: (FunctionId, Function)| (e.0.key_view(), e.1)) =~= ds.take(
                    pairs@.len() as int,
                ).map_values(|d: FunctionDeclaration| (d.id.key_view(), declared_function(d))),
            decreases reversed@.len(),
        {
            let d = reversed.pop().unwrap();
            let ghost n = pairs@.len();
            let ghost before = pairs@;
            let ghost dg = d;
            let FunctionDeclaration { id, name, parameters, return_type, body } = d;
            let key = id.duplicate();
            pairs.push((key, Function::CustomFunction { id, name, parameters, return_type, body }));
            assert(ds.take(n + 1 as int) =~= ds.take(n as int).push(dg));
            assert(pairs@.map_values(|e: (FunctionId, Function)| (e.0.key_view(), e.1)) =~= before.map_values(
                |e: (FunctionId, Function)| (e.0.key_view(), e.1),
            ).push((dg.id.key_view(), declared_function(dg))));
        }
        assert(ds.take(ds.len() as int) =~= ds);
        Ast { functions: Table::from_pairs(pairs), nodes: self.nodes }
    }
}

} // verus!
