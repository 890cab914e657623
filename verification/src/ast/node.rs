//! The nodes of the abstract syntax tree, and their mathematical models.
//!
//! Every type that holds a `String` or a `Vec` has a model (its view, `@`) in
//! which strings are character sequences and vectors are sequences; the
//! contracts of the lexer, parser, type checker and evaluator speak of models.

use vstd::prelude::*;

use crate::table::{Table, TableKey};

verus! {

// ---------------------------------------------------------------------------
// Plain values
// ---------------------------------------------------------------------------

/// The types of the language.
#[derive(Clone, Copy, Debug, PartialEq, Eq, Structural)]
pub enum Type {
    UInt,
    Boolean,
}

/// The name of a type, as it appears in messages.
pub open spec fn spec_type_name(t: Type) -> Seq<char> {
    match t {
        Type::UInt => "UInt"@,
        Type::Boolean => "Boolean"@,
    }
}

impl Type {
    /// The name of the type: `UInt` or `Boolean`.
    pub fn name(&self) -> (s: &'static str)
        ensures
            s@ == spec_type_name(*self),
    {
        match self {
            Type::UInt => "UInt",
            Type::Boolean => "Boolean",
        }
    }
}

/// An unsigned integer value.
#[derive(Clone, Copy, Debug, PartialEq, Eq, Structural)]
pub struct UIntValue(pub u32);

/// A boolean value.
#[derive(Clone, Copy, Debug, PartialEq, Eq, Structural)]
pub struct BoolValue(pub bool);

/// A value of the language.
#[derive(Clone, Copy, Debug, PartialEq, Eq, Structural)]
pub enum Value {
    UInt(UIntValue),
    Boolean(BoolValue),
}

impl Value {
    /// The unsigned integer held by the value; the value must be one.
    pub fn expect_uint(self, expect_message: &str) -> (u: UIntValue)
        requires
            self is UInt,
        ensures
            self == Value::UInt(u),
    {
        if let Value::UInt(uint_value) = self {
            Some(uint_value)
        } else {
            None
        }.expect(expect_message)
    }

    /// The boolean held by the value; the value must be one.
    pub fn expect_bool(self, expect_message: &str) -> (b: BoolValue)
        requires
            self is Boolean,
        ensures
            self == Value::Boolean(b),
    {
        if let Value::Boolean(bool_value) = self {
            Some(bool_value)
        } else {
            None
        }.expect(expect_message)
    }
}

/// How a variable declaration gives the variable's type.
#[derive(Clone, Copy, Debug, PartialEq, Eq, Structural)]
pub enum VariableDeclarationType {
    Infer,
    Type(Type),
}

/// The type a function returns.
#[derive(Clone, Copy, Debug, PartialEq, Eq, Structural)]
pub enum FunctionReturnType {
    Type(Type),
    Void,
}

/// The unary operations.
#[derive(Clone, Copy, Debug, PartialEq, Eq, Structural)]
pub enum UnaryOperation {
    Not,
}

/// The binary operations.
#[derive(Clone, Copy, Debug, PartialEq, Eq, Structural)]
pub enum BinaryOperation {
    Plus,
    GreaterThan,
}

/// The name of a function; functions are looked up by it.
#[derive(Clone, Debug, PartialEq, Eq, Hash)]
pub struct FunctionId(pub String);

impl View for FunctionId {
    type V = Seq<char>;

    open spec fn view(&self) -> Seq<char> {
        self.0@
    }
}

impl TableKey for FunctionId {
    open spec fn key_view(&self) -> Seq<char> {
        self.0@
    }

    fn same_key(&self, other: &Self) -> (b: bool) {
        self.0 == other.0
    }

    fn copy_key(&self) -> (r: Self) {
        FunctionId(self.0.clone())
    }
}

impl FunctionId {
    /// A copy of the name.
    pub fn duplicate(&self) -> (r: Self)
        ensures
            r@ == self@,
    {
        FunctionId(self.0.clone())
    }
}

// ---------------------------------------------------------------------------
// Models
// ---------------------------------------------------------------------------

/// The model of a function call: the called name and the argument expressions.
pub struct CallV {
    pub id: Seq<char>,
    pub args: Seq<ExprV>,
}

/// The model of an operation.
pub enum OpV {
    Unary { op: UnaryOperation, value: Box<ExprV> },
    Binary { op: BinaryOperation, left: Box<ExprV>, right: Box<ExprV> },
}

/// The model of an expression.
pub enum ExprV {
    Literal(Value),
    Call(CallV),
    Op(OpV),
    Var(Seq<char>),
}

/// The model of an `else if` block.
pub struct ElseIfV {
    pub check: ExprV,
    pub block: Seq<NodeV>,
}

/// The model of an `if` statement.
pub struct IfV {
    pub check: ExprV,
    pub if_block: Seq<NodeV>,
    pub else_ifs: Seq<ElseIfV>,
    pub else_block: Option<Seq<NodeV>>,
}

/// The model of a statement.
pub enum NodeV {
    VarDecl { var_type: VariableDeclarationType, name: Seq<char>, value: ExprV },
    Return { value: Option<ExprV> },
    Call(CallV),
    If(IfV),
}

/// The model of a function parameter.
pub enum ParamV {
    Typed { ty: Type, name: Seq<char> },
    Any { name: Seq<char> },
}

impl ParamV {
    pub open spec fn name(self) -> Seq<char> {
        match self {
            ParamV::Typed { name, .. } => name,
            ParamV::Any { name } => name,
        }
    }
}

/// The model of a function known to a program.
pub enum FuncV {
    Custom {
        id: Seq<char>,
        name: Seq<char>,
        params: Seq<ParamV>,
        ret: FunctionReturnType,
        body: Seq<NodeV>,
    },
    Intrinsic { id: Seq<char>, name: Seq<char>, params: Seq<ParamV>, ret: FunctionReturnType },
}

impl FuncV {
    pub open spec fn id(self) -> Seq<char> {
        match self {
            FuncV::Custom { id, .. } => id,
            FuncV::Intrinsic { id, .. } => id,
        }
    }

    pub open spec fn name(self) -> Seq<char> {
        match self {
            FuncV::Custom { name, .. } => name,
            FuncV::Intrinsic { name, .. } => name,
        }
    }

    pub open spec fn params(self) -> Seq<ParamV> {
        match self {
            FuncV::Custom { params, .. } => params,
            FuncV::Intrinsic { params, .. } => params,
        }
    }

    pub open spec fn ret(self) -> FunctionReturnType {
        match self {
            FuncV::Custom { ret, .. } => ret,
            FuncV::Intrinsic { ret, .. } => ret,
        }
    }
}

/// The model of a function declaration.
pub struct FuncDeclV {
    pub id: Seq<char>,
    pub name: Seq<char>,
    pub params: Seq<ParamV>,
    pub ret: FunctionReturnType,
    pub body: Seq<NodeV>,
}

// ---------------------------------------------------------------------------
// Syntax tree
// ---------------------------------------------------------------------------

/// A statement.
#[derive(Debug, PartialEq)]
pub enum Node {
    VariableDeclaration {
        var_type: VariableDeclarationType,
        var_name: String,
        value: Expression,
    },
    FunctionReturn { return_value: Option<Expression> },
    FunctionCall(FunctionCall),
    IfStatement(IfStatement),
}

/// An `if` statement with its `else if` blocks and its `else` block.
#[derive(Debug, PartialEq)]
pub struct IfStatement {
    pub check_expression: Expression,
    pub if_block: Vec<Node>,
    pub else_if_blocks: Vec<ElseIfBlock>,
    pub else_block: Option<Vec<Node>>,
}

/// An `else if` block.
#[derive(Debug, PartialEq)]
pub struct ElseIfBlock {
    pub check: Expression,
    pub block: Vec<Node>,
}

/// A function declaration, as the parser produces it.
#[derive(Debug, PartialEq)]
pub struct FunctionDeclaration {
    pub id: FunctionId,
    pub name: String,
    pub parameters: Vec<FunctionParameter>,
    pub return_type: FunctionReturnType,
    pub body: Vec<Node>,
}

/// A function parameter: a named, typed parameter, or a parameter of an
/// intrinsic function that takes a value of any type.
#[derive(Debug, PartialEq)]
pub enum FunctionParameter {
    FunctionParameter { param_type: Type, param_name: String },
    IntrinsicAny { param_name: String },
}

/// An expression.
#[derive(Debug, PartialEq)]
pub enum Expression {
    ValueLiteral(Value),
    FunctionCall(FunctionCall),
    Operation(Operation),
    VariableAccess(String),
}

/// A call of a function with argument expressions.
#[derive(Debug, PartialEq)]
pub struct FunctionCall {
    pub function_id: FunctionId,
    pub parameters: Vec<Expression>,
}

/// An operation on one or two expressions.
#[derive(Debug, PartialEq)]
pub enum Operation {
    Unary { operation: UnaryOperation, value: Box<Expression> },
    Binary { operation: BinaryOperation, left: Box<Expression>, right: Box<Expression> },
}

/// A program: its functions, by name, and its top level statements.
#[derive(Debug, PartialEq)]
pub struct Ast {
    pub functions: Table<FunctionId, Function>,
    pub nodes: Vec<Node>,
}

/// A function known to a program: one declared in it, or one built into the
/// language.
#[derive(Debug, PartialEq)]
pub enum Function {
    CustomFunction {
        id: FunctionId,
        name: String,
        parameters: Vec<FunctionParameter>,
        return_type: FunctionReturnType,
        body: Vec<Node>,
    },
    Intrinsic {
        id: FunctionId,
        name: String,
        parameters: Vec<FunctionParameter>,
        return_type: FunctionReturnType,
    },
}

// ---------------------------------------------------------------------------
// Views
// ---------------------------------------------------------------------------

impl Expression {
    pub open spec fn model(&self) -> ExprV
        decreases self,
    {
        match self {
            Expression::ValueLiteral(v) => ExprV::Literal(*v),
            Expression::FunctionCall(c) => ExprV::Call(
                CallV {
                    id: c.function_id.0@,
                    args: Seq::new(
                        c.parameters@.len(),
                        |i: int|
                            if 0 <= i < c.parameters@.len() {
                                c.parameters@[i].model()
                            } else {
                                ExprV::Literal(Value::UInt(UIntValue(0)))
                            },
                    ),
                },
            ),
            Expression::Operation(Operation::Unary { operation, value }) => ExprV::Op(
                OpV::Unary { op: *operation, value: Box::new(value.model()) },
            ),
            Expression::Operation(Operation::Binary { operation, left, right }) => ExprV::Op(
                OpV::Binary {
                    op: *operation,
                    left: Box::new(left.model()),
                    right: Box::new(right.model()),
                },
            ),
            Expression::VariableAccess(name) => ExprV::Var(name@),
        }
    }
}

impl View for Expression {
    type V = ExprV;

    open spec fn view(&self) -> ExprV {
        self.model()
    }
}

/// The models of a sequence of expressions.
pub open spec fn exprs_view(s: Seq<Expression>) -> Seq<ExprV> {
    s.map_values(|e: Expression| e@)
}

impl View for FunctionCall {
    type V = CallV;

    open spec fn view(&self) -> CallV {
        CallV { id: self.function_id@, args: exprs_view(self.parameters@) }
    }
}

impl View for Operation {
    type V = OpV;

    open spec fn view(&self) -> OpV {
        match self {
            Operation::Unary { operation, value } => OpV::Unary {
                op: *operation,
                value: Box::new(value.model()),
            },
            Operation::Binary { operation, left, right } => OpV::Binary {
                op: *operation,
                left: Box::new(left.model()),
                right: Box::new(right.model()),
            },
        }
    }
}

impl Node {
    pub open spec fn model(&self) -> NodeV
        decreases self,
    {
        match self {
            Node::VariableDeclaration { var_type, var_name, value } => NodeV::VarDecl {
                var_type: *var_type,
                name: var_name@,
                value: value.model(),
            },
            Node::FunctionReturn { return_value } => NodeV::Return {
                value: match return_value {
                    Some(e) => Some(e.model()),
                    None => None,
                },
            },
            Node::FunctionCall(c) => NodeV::Call(
                CallV {
                    id: c.function_id.0@,
                    args: Seq::new(
                        c.parameters@.len(),
                        |i: int|
                            if 0 <= i < c.parameters@.len() {
                                c.parameters@[i].model()
                            } else {
                                ExprV::Literal(Value::UInt(UIntValue(0)))
                            },
                    ),
                },
            ),
            Node::IfStatement(s) => NodeV::If(
                IfV {
                    check: s.check_expression.model(),
                    if_block: Seq::new(
                        s.if_block@.len(),
                        |i: int|
                            if 0 <= i < s.if_block@.len() {
                                s.if_block@[i].model()
                            } else {
                                NodeV::Return { value: None }
                            },
                    ),
                    else_ifs: Seq::new(
                        s.else_if_blocks@.len(),
                        |i: int|
                            if 0 <= i < s.else_if_blocks@.len() {
                                ElseIfV {
                                    check: s.else_if_blocks@[i].check.model(),
                                    block: Seq::new(
                                        s.else_if_blocks@[i].block@.len(),
                                        |j: int|
                                            if 0 <= j < s.else_if_blocks@[i].block@.len() {
                                                s.else_if_blocks@[i].block@[j].model()
                                            } else {
                                                NodeV::Return { value: None }
                                            },
                                    ),
                                }
                            } else {
                                ElseIfV { check: ExprV::Var(Seq::empty()), block: Seq::empty() }
                            },
                    ),
                    else_block: match &s.else_block {
                        Some(b) => Some(
                            Seq::new(
                                b@.len(),
                                |i: int|
                                    if 0 <= i < b@.len() {
                                        b@[i].model()
                                    } else {
                                        NodeV::Return { value: None }
                                    },
                            ),
                        ),
                        None => None,
                    },
                },
            ),
        }
    }
}

impl View for Node {
    type V = NodeV;

    open spec fn view(&self) -> NodeV {
        self.model()
    }
}

/// The models of a sequence of statements.
pub open spec fn nodes_view(s: Seq<Node>) -> Seq<NodeV> {
    s.map_values(|n: Node| n@)
}

impl View for ElseIfBlock {
    type V = ElseIfV;

    open spec fn view(&self) -> ElseIfV {
        ElseIfV { check: self.check@, block: nodes_view(self.block@) }
    }
}

impl View for IfStatement {
    type V = IfV;

    open spec fn view(&self) -> IfV {
        IfV {
            check: self.check_expression@,
            if_block: nodes_view(self.if_block@),
            else_ifs: self.else_if_blocks@.map_values(|b: ElseIfBlock| b@),
            else_block: match &self.else_block {
                Some(b) => Some(nodes_view(b@)),
                None => None,
            },
        }
    }
}

impl View for FunctionParameter {
    type V = ParamV;

    open spec fn view(&self) -> ParamV {
        match self {
            FunctionParameter::FunctionParameter { param_type, param_name } => ParamV::Typed {
                ty: *param_type,
                name: param_name@,
            },
            FunctionParameter::IntrinsicAny { param_name } => ParamV::Any { name: param_name@ },
        }
    }
}

/// The models of a sequence of parameters.
pub open spec fn params_view(s: Seq<FunctionParameter>) -> Seq<ParamV> {
    s.map_values(|p: FunctionParameter| p@)
}

impl View for Function {
    type V = FuncV;

    open spec fn view(&self) -> FuncV {
        match self {
            Function::CustomFunction { id, name, parameters, return_type, body } => FuncV::Custom {
                id: id@,
                name: name@,
                params: params_view(parameters@),
                ret: *return_type,
                body: nodes_view(body@),
            },
            Function::Intrinsic { id, name, parameters, return_type } => FuncV::Intrinsic {
                id: id@,
                name: name@,
                params: params_view(parameters@),
                ret: *return_type,
            },
        }
    }
}

impl View for FunctionDeclaration {
    type V = FuncDeclV;

    open spec fn view(&self) -> FuncDeclV {
        FuncDeclV {
            id: self.id@,
            name: self.name@,
            params: params_view(self.parameters@),
            ret: self.return_type,
            body: nodes_view(self.body@),
        }
    }
}

/// The models of the functions of a table, by name.
pub open spec fn functions_view(t: Seq<(Seq<char>, Function)>) -> Seq<(Seq<char>, FuncV)> {
    t.map_values(|e: (Seq<char>, Function)| (e.0, e.1@))
}

// ---------------------------------------------------------------------------
// Accessors
// ---------------------------------------------------------------------------

impl FunctionParameter {
    /// The name of the parameter.
    pub fn name(&self) -> (s: &str)
        ensures
            s@ == self@.name(),
    {
        match self {
            FunctionParameter::IntrinsicAny { param_name }
            | FunctionParameter::FunctionParameter { param_name, .. } => param_name.as_str(),
        }
    }

    /// A copy of the parameter.
    pub fn duplicate(&self) -> (r: Self)
        ensures
            r@ == self@,
    {
        match self {
            FunctionParameter::FunctionParameter { param_type, param_name } => {
                FunctionParameter::FunctionParameter {
                    param_type: *param_type,
                    param_name: param_name.clone(),
                }
            },
            FunctionParameter::IntrinsicAny { param_name } => FunctionParameter::IntrinsicAny {
                param_name: param_name.clone(),
            },
        }
    }
}

impl Function {
    /// The name the function is looked up by.
    pub fn id(&self) -> (r: &FunctionId)
        ensures
            r@ == self@.id(),
    {
        match self {
            Function::CustomFunction { id, .. } | Function::Intrinsic { id, .. } => id,
        }
    }

    /// The name of the function.
    pub fn name(&self) -> (r: &String)
        ensures
            r@ == self@.name(),
    {
        match self {
            Function::CustomFunction { name, .. } | Function::Intrinsic { name, .. } => name,
        }
    }

    /// The parameters of the function.
    pub fn parameters(&self) -> (r: &[FunctionParameter])
        ensures
            params_view(r@) == self@.params(),
    {
        match self {
            Function::CustomFunction { parameters, .. } | Function::Intrinsic {
                parameters,
                ..
            } => parameters.as_slice(),
        }
    }

    /// The return type of the function.
    pub fn return_type(&self) -> (r: &FunctionReturnType)
        ensures
            *r == self@.ret(),
    {
        match self {
            Function::CustomFunction { return_type, .. } | Function::Intrinsic {
                return_type,
                ..
            } => return_type,
        }
    }
}

// ---------------------------------------------------------------------------
// Copies
// ---------------------------------------------------------------------------

/// A copy of a sequence of expressions.
pub fn copy_expressions(v: &Vec<Expression>) -> (r: Vec<Expression>)
    ensures
        exprs_view(r@) == exprs_view(v@),
    decreases v@, 1nat,
{
    let mut r: Vec<Expression> = Vec::new();
    let mut i: usize = 0;
    while i < v.len()
        invariant
            i <= v@.len(),
            r@.len() == i,
            forall|j: int| 0 <= j < i ==> (#[trigger] r@[j])@ == v@[j]@,
        decreases v@.len() - i,
    {
        proof {
            assert(decreases_to!(*v => v@));
            assert(decreases_to!(v@ => v@[i as int]));
        }
        r.push(v[i].duplicate());
        i += 1;
    }
    assert(exprs_view(r@) =~= exprs_view(v@));
    r
}

impl Expression {
    /// A copy of the expression.
    pub fn duplicate(&self) -> (r: Self)
        ensures
            r@ == self@,
        decreases self, 0nat,
    {
        match self {
            Expression::ValueLiteral(v) => Expression::ValueLiteral(*v),
            Expression::VariableAccess(name) => Expression::VariableAccess(name.clone()),
            Expression::Operation(Operation::Unary { operation, value }) => {
                Expression::Operation(
                    Operation::Unary {
                        operation: *operation,
                        value: Box::new((**value).duplicate()),
                    },
                )
            },
            Expression::Operation(Operation::Binary { operation, left, right }) => {
                Expression::Operation(
                    Operation::Binary {
                        operation: *operation,
                        left: Box::new((**left).duplicate()),
                        right: Box::new((**right).duplicate()),
                    },
                )
            },
            Expression::FunctionCall(c) => {
                proof {
                    assert(decreases_to!(*self => c.parameters));
                }
                let params = copy_expressions(&c.parameters);
                let r = Expression::FunctionCall(
                    FunctionCall { function_id: c.function_id.duplicate(), parameters: params },
                );
                assert(params@.len() == c.parameters@.len()) by {
                    assert(exprs_view(params@).len() == exprs_view(c.parameters@).len());
                }
                assert forall|k: int| 0 <= k < params@.len() implies (#[trigger] params@[k])@
                    == c.parameters@[k]@ by {
                    assert(exprs_view(params@)[k] == exprs_view(c.parameters@)[k]);
                }
                assert(r@->Call_0.args =~= self@->Call_0.args);
                r
            },
        }
    }
}


impl FunctionCall {
    /// A copy of the call.
    pub fn duplicate(&self) -> (r: Self)
        ensures
            r@ == self@,
    {
        FunctionCall {
            function_id: self.function_id.duplicate(),
            parameters: copy_expressions(&self.parameters),
        }
    }
}

/// A copy of a sequence of statements.
pub fn copy_nodes(v: &Vec<Node>) -> (r: Vec<Node>)
    ensures
        nodes_view(r@) == nodes_view(v@),
    decreases v@, 1nat,
{
    let mut r: Vec<Node> = Vec::new();
    let mut i: usize = 0;
    while i < v.len()
        invariant
            i <= v@.len(),
            r@.len() == i,
            forall|j: int| 0 <= j < i ==> (#[trigger] r@[j])@ == v@[j]@,
        decreases v@.len() - i,
    {
        proof {
            assert(decreases_to!(*v => v@));
            assert(decreases_to!(v@ => v@[i as int]));
        }
        r.push(v[i].duplicate());
        i += 1;
    }
    assert(nodes_view(r@) =~= nodes_view(v@));
    r
}

/// A copy of a sequence of parameters.
pub fn copy_parameters(v: &[FunctionParameter]) -> (r: Vec<FunctionParameter>)
    ensures
        params_view(r@) == params_view(v@),
{
    let mut r: Vec<FunctionParameter> = Vec::new();
    let mut i: usize = 0;
    while i < v.len()
        invariant
            i <= v@.len(),
            r@.len() == i,
            forall|j: int| 0 <= j < i ==> (#[trigger] r@[j])@ == v@[j]@,
        decreases v@.len() - i,
    {
        r.push(v[i].duplicate());
        i += 1;
    }
    assert(params_view(r@) =~= params_view(v@));
    r
}

impl Node {
    /// A copy of the statement.
    #[verifier::loop_isolation(false)]
    pub fn duplicate(&self) -> (r: Self)
        ensures
            r@ == self@,
        decreases self, 0nat,
    {
        match self {
            Node::VariableDeclaration { var_type, var_name, value } => Node::VariableDeclaration {
                var_type: *var_type,
                var_name: var_name.clone(),
                value: value.duplicate(),
            },
            Node::FunctionReturn { return_value } => Node::FunctionReturn {
                return_value: match return_value {
                    Some(e) => Some(e.duplicate()),
                    None => None,
                },
            },
            Node::FunctionCall(c) => {
                let d = c.duplicate();
                assert(d.parameters@.len() == c.parameters@.len()) by {
                    assert(d@.args.len() == c@.args.len());
                }
                assert forall|k: int| 0 <= k < c.parameters@.len() implies (#[trigger] d.parameters@[k])@
                    == c.parameters@[k]@ by {
                    assert(d@.args[k] == c@.args[k]);
                }
                let r = Node::FunctionCall(d);
                assert(r@->Call_0.args =~= self@->Call_0.args);
                r
            },
            Node::IfStatement(s) => {
                proof {
                    assert(decreases_to!(*self => s.if_block));
                }
                let check = s.check_expression.duplicate();
                let if_block = copy_nodes(&s.if_block);
                let mut else_ifs: Vec<ElseIfBlock> = Vec::new();
                let mut i: usize = 0;
                while i < s.else_if_blocks.len()
                    invariant
                        i <= s.else_if_blocks@.len(),
                        else_ifs@.len() == i,
                        forall|j: int|
                            0 <= j < i ==> (#[trigger] else_ifs@[j]).check@
                                == s.else_if_blocks@[j].check@ && nodes_view(else_ifs@[j].block@)
                                == nodes_view(s.else_if_blocks@[j].block@),
                    decreases s.else_if_blocks@.len() - i,
                {
                    proof {
                        assert(decreases_to!(*self => s.else_if_blocks));
                        assert(decreases_to!(s.else_if_blocks => s.else_if_blocks@));
                        assert(decreases_to!(s.else_if_blocks@ => s.else_if_blocks@[i as int]));
                        assert(decreases_to!(s.else_if_blocks@[i as int] => s.else_if_blocks@[i as int].block));
                    }
                    let b = &s.else_if_blocks[i];
                    else_ifs.push(ElseIfBlock { check: b.check.duplicate(), block: copy_nodes(&b.block) });
                    i += 1;
                }
                let else_block = match &s.else_block {
                    Some(b) => {
                        proof {
                            assert(decreases_to!(*self => *b));
                        }
                        Some(copy_nodes(b))
                    },
                    None => None,
                };
                let r = Node::IfStatement(
                    IfStatement {
                        check_expression: check,
                        if_block,
                        else_if_blocks: else_ifs,
                        else_block,
                    },
                );
                proof {
                    let rs = r->IfStatement_0;
                    assert(rs.if_block@.len() == s.if_block@.len()) by {
                        assert(nodes_view(rs.if_block@).len() == nodes_view(s.if_block@).len());
                    }
                    assert forall|k: int| 0 <= k < s.if_block@.len() implies rs.if_block@[k]@
                        == s.if_block@[k]@ by {
                        assert(nodes_view(rs.if_block@)[k] == nodes_view(s.if_block@)[k]);
                    }
                    assert(r@->If_0.if_block =~= self@->If_0.if_block);
                    assert forall|k: int| 0 <= k < s.else_if_blocks@.len() implies r@->If_0.else_ifs[k]
                        == self@->If_0.else_ifs[k] by {
                        let a = rs.else_if_blocks@[k];
                        let b = s.else_if_blocks@[k];
                        assert(a.block@.len() == b.block@.len()) by {
                            assert(nodes_view(a.block@).len() == nodes_view(b.block@).len());
                        }
                        assert forall|m: int| 0 <= m < b.block@.len() implies a.block@[m]@
                            == b.block@[m]@ by {
                            assert(nodes_view(a.block@)[m] == nodes_view(b.block@)[m]);
                        }
                        assert(r@->If_0.else_ifs[k].block =~= self@->If_0.else_ifs[k].block);
                    }
                    assert(r@->If_0.else_ifs =~= self@->If_0.else_ifs);
                    if let Some(b) = &s.else_block {
                        let a = rs.else_block->0;
                        assert(a@.len() == b@.len()) by {
                            assert(nodes_view(a@).len() == nodes_view(b@).len());
                        }
                        assert forall|m: int| 0 <= m < b@.len() implies a@[m]@ == b@[m]@ by {
                            assert(nodes_view(a@)[m] == nodes_view(b@)[m]);
                        }
                        assert(r@->If_0.else_block->0 =~= self@->If_0.else_block->0);
                    }
                }
                r
            },
        }
    }
}

/// A call has the same model as an expression and as a statement.
pub proof fn lemma_call_view(c: FunctionCall)
    ensures
        Expression::FunctionCall(c)@ == ExprV::Call(c@),
        Node::FunctionCall(c)@ == NodeV::Call(c@),
{
    assert(Expression::FunctionCall(c)@->Call_0.args =~= c@.args);
    assert(Node::FunctionCall(c)@->Call_0.args =~= c@.args);
}

/// An `if` statement has the same model alone and as a statement.
pub proof fn lemma_if_view(s: IfStatement)
    ensures
        Node::IfStatement(s)@ == NodeV::If(s@),
{
    let n = Node::IfStatement(s);
    assert(n@->If_0.if_block =~= s@.if_block);
    assert forall|k: int| 0 <= k < s.else_if_blocks@.len() implies n@->If_0.else_ifs[k]
        == s@.else_ifs[k] by {
        assert(n@->If_0.else_ifs[k].block =~= s@.else_ifs[k].block);
    }
    assert(n@->If_0.else_ifs =~= s@.else_ifs);
    if let Some(b) = s.else_block {
        assert(n@->If_0.else_block->0 =~= s@.else_block->0);
    }
}

impl Clone for Expression {
    fn clone(&self) -> (r: Self)
        ensures
            r@ == self@,
    {
        self.duplicate()
    }
}

impl Clone for FunctionCall {
    fn clone(&self) -> (r: Self)
        ensures
            r@ == self@,
    {
        self.duplicate()
    }
}

impl Clone for Node {
    fn clone(&self) -> (r: Self)
        ensures
            r@ == self@,
    {
        self.duplicate()
    }
}

impl Clone for FunctionParameter {
    fn clone(&self) -> (r: Self)
        ensures
            r@ == self@,
    {
        self.duplicate()
    }
}

impl Function {
    /// A copy of the function.
    pub fn duplicate(&self) -> (r: Self)
        ensures
            r@ == self@,
    {
        match self {
            Function::CustomFunction { id, name, parameters, return_type, body } => {
                Function::CustomFunction {
                    id: id.duplicate(),
                    name: name.clone(),
                    parameters: copy_parameters(parameters.as_slice()),
                    return_type: *return_type,
                    body: copy_nodes(body),
                }
            },
            Function::Intrinsic { id, name, parameters, return_type } => Function::Intrinsic {
                id: id.duplicate(),
                name: name.clone(),
                parameters: copy_parameters(parameters.as_slice()),
                return_type: *return_type,
            },
        }
    }
}

impl Clone for Function {
    fn clone(&self) -> (r: Self)
        ensures
            r@ == self@,
    {
        self.duplicate()
    }
}

impl FunctionDeclaration {
    /// A copy of the declaration.
    pub fn duplicate(&self) -> (r: Self)
        ensures
            r@ == self@,
    {
        FunctionDeclaration {
            id: self.id.duplicate(),
            name: self.name.clone(),
            parameters: copy_parameters(self.parameters.as_slice()),
            return_type: self.return_type,
            body: copy_nodes(&self.body),
        }
    }
}

impl Clone for FunctionDeclaration {
    fn clone(&self) -> (r: Self)
        ensures
            r@ == self@,
    {
        self.duplicate()
    }
}

// ---------------------------------------------------------------------------
// Conversions
// ---------------------------------------------------------------------------

impl From<u32> for UIntValue {
    fn from(value: u32) -> (r: Self) {
        UIntValue(value)
    }
}

impl vstd::std_specs::convert::FromSpecImpl<u32> for UIntValue {
    open spec fn obeys_from_spec() -> bool {
        true
    }

    open spec fn from_spec(value: u32) -> Self {
        UIntValue(value)
    }
}

impl From<bool> for BoolValue {
    fn from(value: bool) -> (r: Self) {
        BoolValue(value)
    }
}

impl vstd::std_specs::convert::FromSpecImpl<bool> for BoolValue {
    open spec fn obeys_from_spec() -> bool {
        true
    }

    open spec fn from_spec(value: bool) -> Self {
        BoolValue(value)
    }
}

impl From<u32> for Value {
    fn from(value: u32) -> (r: Self) {
        Value::UInt(UIntValue(value))
    }
}

impl vstd::std_specs::convert::FromSpecImpl<u32> for Value {
    open spec fn obeys_from_spec() -> bool {
        true
    }

    open spec fn from_spec(value: u32) -> Self {
        Value::UInt(UIntValue(value))
    }
}

impl From<bool> for Value {
    fn from(value: bool) -> (r: Self) {
        Value::Boolean(BoolValue(value))
    }
}

impl vstd::std_specs::convert::FromSpecImpl<bool> for Value {
    open spec fn obeys_from_spec() -> bool {
        true
    }

    open spec fn from_spec(value: bool) -> Self {
        Value::Boolean(BoolValue(value))
    }
}

impl From<u32> for Expression {
    fn from(value: u32) -> (r: Self) {
        Expression::ValueLiteral(Value::UInt(UIntValue(value)))
    }
}

impl vstd::std_specs::convert::FromSpecImpl<u32> for Expression {
    open spec fn obeys_from_spec() -> bool {
        true
    }

    open spec fn from_spec(value: u32) -> Self {
        Expression::ValueLiteral(Value::UInt(UIntValue(value)))
    }
}

impl From<bool> for Expression {
    fn from(value: bool) -> (r: Self) {
        Expression::ValueLiteral(Value::Boolean(BoolValue(value)))
    }
}

impl vstd::std_specs::convert::FromSpecImpl<bool> for Expression {
    open spec fn obeys_from_spec() -> bool {
        true
    }

    open spec fn from_spec(value: bool) -> Self {
        Expression::ValueLiteral(Value::Boolean(BoolValue(value)))
    }
}

impl From<(Type, String)> for FunctionParameter {
    fn from(pair: (Type, String)) -> (r: Self) {
        let (param_type, param_name) = pair;
        FunctionParameter::FunctionParameter { param_name, param_type }
    }
}

impl vstd::std_specs::convert::FromSpecImpl<(Type, String)> for FunctionParameter {
    open spec fn obeys_from_spec() -> bool {
        true
    }

    open spec fn from_spec(pair: (Type, String)) -> Self {
        FunctionParameter::FunctionParameter { param_type: pair.0, param_name: pair.1 }
    }
}

} // verus!
