//! Building function declarations.

use vstd::prelude::*;

use crate::ast::builders::ast_builder::AstBuilder;
use crate::ast::node::{
    Ast, FunctionDeclaration, FunctionId, FunctionParameter, FunctionReturnType, ParamV, Type,
};

verus! {

/// Builds one function declaration: its name, parameters and return type,
/// once set.
pub struct FunctionDeclarationBuilder {
    pub id: Option<FunctionId>,
    pub name: Option<String>,
    pub parameters: Option<Vec<FunctionParameter>>,
    pub return_type: Option<FunctionReturnType>,
}

impl Default for FunctionDeclarationBuilder {
    fn default() -> (b: Self)
        ensures
            b.is_new(),
    {
        FunctionDeclarationBuilder { id: None, name: None, parameters: None, return_type: None }
    }
}

impl FunctionDeclarationBuilder {
    /// Nothing is set yet.
    pub open spec fn is_new(&self) -> bool {
        &&& self.id is None
        &&& self.name is None
        &&& self.parameters is None
        &&& self.return_type is None
    }

    /// Names the function; it is looked up by its name.
    pub fn name(self, name: &str) -> (b: Self)
        ensures
            b.id matches Some(id) && id@ == name@,
            b.name matches Some(n) && n@ == name@,
            b.parameters == self.parameters,
            b.return_type == self.return_type,
    {
        FunctionDeclarationBuilder {
            id: Some(FunctionId(name.to_owned())),
            name: Some(name.to_owned()),
            parameters: self.parameters,
            return_type: self.return_type,
        }
    }

    /// Sets the parameters to the single typed parameter `parameter_name`;
    /// no parameters may have been set.
    pub fn first_parameter(self, parameter_type: Type, parameter_name: &str) -> (b: Self)
        requires
            self.parameters is None,
        ensures
            b.parameters matches Some(ps) && ps@.len() == 1 && ps@[0]@ == (ParamV::Typed {
                ty: parameter_type,
                name: parameter_name@,
            }),
            b.id == self.id,
            b.name == self.name,
            b.return_type == self.return_type,
    {
        let mut parameters = Vec::new();
        parameters.push(
            FunctionParameter::FunctionParameter {
                param_type: parameter_type,
                param_name: parameter_name.to_owned(),
            },
        );
        FunctionDeclarationBuilder {
            id: self.id,
            name: self.name,
            parameters: Some(parameters),
            return_type: self.return_type,
        }
    }

    /// Adds the typed parameter `parameter_name`; the first parameter must
    /// have been set.
    pub fn parameter(self, parameter_type: Type, parameter_name: &str) -> (b: Self)
        requires
            self.parameters is Some,
        ensures
            b.parameters matches Some(ps) && ps@.len() == self.parameters->0@.len() + 1
                && ps@.drop_last() == self.parameters->0@ && ps@.last()@ == (ParamV::Typed {
                ty: parameter_type,
                name: parameter_name@,
            }),
            b.id == self.id,
            b.name == self.name,
            b.return_type == self.return_type,
    {
        let mut parameters = match self.parameters {
            Some(ps) => ps,
            None => vstd::pervasive::unreached(),
        };
        let ghost before = parameters@;
        parameters.push(
            FunctionParameter::FunctionParameter {
                param_type: parameter_type,
                param_name: parameter_name.to_owned(),
            },
        );
        assert(parameters@.drop_last() =~= before);
        FunctionDeclarationBuilder {
            id: self.id,
            name: self.name,
            parameters: Some(parameters),
            return_type: self.return_type,
        }
    }

    /// Sets the parameters.
    pub fn parameters(self, parameters: Vec<FunctionParameter>) -> (b: Self)
        ensures
            b.parameters == Some(parameters),
            b.id == self.id,
            b.name == self.name,
            b.return_type == self.return_type,
    {
        FunctionDeclarationBuilder {
            id: self.id,
            name: self.name,
            parameters: Some(parameters),
            return_type: self.return_type,
        }
    }

    /// Sets the parameters to none.
    pub fn no_parameters(self) -> (b: Self)
        ensures
            b.parameters matches Some(ps) && ps@.len() == 0,
            b.id == self.id,
            b.name == self.name,
            b.return_type == self.return_type,
    {
        FunctionDeclarationBuilder {
            id: self.id,
            name: self.name,
            parameters: Some(Vec::new()),
            return_type: self.return_type,
        }
    }

    /// Sets the return type.
    pub fn return_type(self, return_type: Type) -> (b: Self)
        ensures
            b.return_type == Some(FunctionReturnType::Type(return_type)),
            b.id == self.id,
            b.name == self.name,
            b.parameters == self.parameters,
    {
        FunctionDeclarationBuilder {
            id: self.id,
            name: self.name,
            parameters: self.parameters,
            return_type: Some(FunctionReturnType::Type(return_type)),
        }
    }

    /// Makes the function return nothing.
    pub fn void(self) -> (b: Self)
        ensures
            b.return_type == Some(FunctionReturnType::Void),
            b.id == self.id,
            b.name == self.name,
            b.parameters == self.parameters,
    {
        FunctionDeclarationBuilder {
            id: self.id,
            name: self.name,
            parameters: self.parameters,
            return_type: Some(FunctionReturnType::Void),
        }
    }

    /// The declaration, its body the statements of the program built by
    /// `builder` from an empty program builder; the name, the parameters and
    /// the return type must have been set.
    pub fn body<F: FnOnce(AstBuilder) -> Ast>(self, builder: F) -> (d: FunctionDeclaration)
        requires
            self.id is Some,
            self.name is Some,
            self.parameters is Some,
            self.return_type is Some,
            forall|e: AstBuilder| e.is_empty() ==> call_requires(builder, (e,)),
        ensures
            d.id == self.id->0,
            d.name == self.name->0,
            d.parameters == self.parameters->0,
            d.return_type == self.return_type->0,
            exists|e: AstBuilder, a: Ast| e.is_empty() && call_ensures(builder, (e,), a) && d.body == a.nodes,
    {
        let e = AstBuilder::default();
        let ghost g = e;
        let body = builder(e);
        let ghost a = body;
        match (self.id, self.name, self.parameters, self.return_type) {
            (Some(id), Some(name), Some(parameters), Some(return_type)) => {
                let d = FunctionDeclaration { id, name, parameters, return_type, body: body.nodes };
                assert(g.is_empty() && call_ensures(builder, (g,), a) && d.body == a.nodes);
                d
            },
            _ => vstd::pervasive::unreached(),
        }
    }
}

} // verus!
