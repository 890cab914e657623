use beach::ast::builder::{Builder, Node as ListNode, NodeInfo, Operation as ListOperation, UnaryOperation as ListUnaryOperation};
use beach::ast::builders::ast_builder::AstBuilder;
use beach::ast::builders::expression_builder::ExpressionBuilder;
use beach::ast::builders::function_call_builder::FunctionCallBuilder;
use beach::ast::builders::function_declaration_builder::FunctionDeclarationBuilder;
use beach::ast::builders::if_statement_builder::IfStatementBuilder;
use beach::ast::builders::operation_builder::OperationBuilder;
use beach::ast::builders::statement_builder::StatementBuilder;
use beach::ast::builders::variable_declaration_builder::VariableDeclarationBuilder;
use beach::ast::node::{
    Ast, BinaryOperation, BoolValue, ElseIfBlock, Expression, Function, FunctionCall,
    FunctionDeclaration, FunctionId, FunctionParameter, FunctionReturnType, IfStatement, Node,
    Operation, Type, UIntValue, UnaryOperation, Value, VariableDeclarationType,
};
use beach::table::Table;

#[test]
fn add_literal() {
    let result = Builder::new().literal(NodeInfo { line: 3, character: 64 }, Value::UInt(UIntValue(13)));

    let expected = Builder {
        nodes: vec![ListNode::Literal { info: NodeInfo { line: 3, character: 64 }, value: Value::UInt(UIntValue(13)) }],
    };

    assert_eq!(result, expected);
}

#[test]
fn add_operation() {
    let result = Builder::new().operation(NodeInfo { line: 3, character: 15 }).not().value(true);

    let expected = Builder {
        nodes: vec![ListNode::Operation {
            info: NodeInfo { line: 3, character: 15 },
            operation: ListOperation::Unary(ListUnaryOperation::Not { value: BoolValue(true) }),
        }],
    };

    assert_eq!(result, expected);
}

#[test]
fn builder_variable_declaration() {
    let result = Builder::new()
        .statement()
        .var_declaration()
        .declare_type(Type::Boolean, NodeInfo { line: 3, character: 4 })
        .name("my_var_name", NodeInfo { line: 3, character: 5 })
        .without_assignment();

    let expected = Builder {
        nodes: vec![ListNode::VariableDeclaration {
            type_info: NodeInfo { line: 3, character: 4 },
            var_type: VariableDeclarationType::Type(Type::Boolean),
            name_info: NodeInfo { line: 3, character: 5 },
            var_name: "my_var_name".to_owned(),
        }],
    };

    assert_eq!(result, expected);
}

#[test]
fn variable_declaration_with_assignment() {
    let result = Builder::new()
        .statement()
        .var_declaration()
        .declare_type(Type::Boolean, NodeInfo { line: 3, character: 4 })
        .name("my_var_name", NodeInfo { line: 3, character: 5 })
        .with_assignment(Expression::ValueLiteral(Value::Boolean(BoolValue(true))), NodeInfo { line: 3, character: 6 });

    let expected = Builder {
        nodes: vec![
            ListNode::VariableDeclaration {
                type_info: NodeInfo { line: 3, character: 4 },
                var_type: VariableDeclarationType::Type(Type::Boolean),
                name_info: NodeInfo { line: 3, character: 5 },
                var_name: "my_var_name".to_owned(),
            },
            ListNode::VariableAssignment {
                info: NodeInfo { line: 3, character: 6 },
                value: Expression::ValueLiteral(Value::Boolean(BoolValue(true))),
            },
        ],
    };

    assert_eq!(result, expected)
}

#[test]
fn statement() {
    let actual = AstBuilder::default().statement(|statement| statement.return_void()).build();

    let expected = Ast { functions: Table::new(), nodes: vec![Node::FunctionReturn { return_value: None }] };

    assert_eq!(actual, expected);
}

#[test]
fn function_declaration() {
    let actual = AstBuilder::default()
        .function_declaration(|function_declaration| {
            function_declaration.name("my_function").parameters(Vec::new()).void().body(|body| body.build())
        })
        .build();

    let expected = Ast {
        functions: Table::from_pairs(vec![(
            FunctionId("my_function".to_owned()),
            Function::CustomFunction {
                id: FunctionId("my_function".to_owned()),
                name: "my_function".to_owned(),
                parameters: Vec::new(),
                return_type: FunctionReturnType::Void,
                body: Vec::new(),
            },
        )]),
        nodes: Vec::new(),
    };

    assert_eq!(actual, expected);
}

#[test]
fn expression_builder_function_call() {
    let actual = ExpressionBuilder::default()
        .function_call(|function_call| function_call.function_id("my_function").no_parameters().build());

    let expected = Expression::FunctionCall(FunctionCall {
        function_id: FunctionId("my_function".to_owned()),
        parameters: Vec::new(),
    });

    assert_eq!(actual, expected);
}

#[test]
fn variable() {
    let actual = ExpressionBuilder::default().variable("var_name");

    let expected = Expression::VariableAccess("var_name".to_owned());

    assert_eq!(actual, expected);
}

#[test]
fn value_literal() {
    let actual = ExpressionBuilder::default().value_literal(true.into());

    let expected: Expression = true.into();

    assert_eq!(actual, expected);
}

#[test]
fn operation() {
    let actual = ExpressionBuilder::default().operation(|operation| operation.not(|not| not.value_literal(true.into())));

    let expected = Expression::Operation(Operation::Unary {
        operation: UnaryOperation::Not,
        value: Box::new(true.into()),
    });

    assert_eq!(actual, expected);
}

#[test]
fn function_call_no_parameters() {
    let result = FunctionCallBuilder::default().function_id("my_function").no_parameters().build();

    let expected = FunctionCall { function_id: FunctionId("my_function".to_owned()), parameters: Vec::new() };

    assert_eq!(result, expected)
}

#[test]
fn function_call_parameter() {
    let actual = FunctionCallBuilder::default()
        .function_id("my_function")
        .parameter(|param| param.value_literal(true.into()))
        .parameter(|param| param.value_literal(10.into()))
        .build();

    let expected = FunctionCall {
        function_id: FunctionId("my_function".to_owned()),
        parameters: vec![true.into(), 10.into()],
    };

    assert_eq!(actual, expected);
}

#[test]
fn function_declaration_parameters() {
    let result = FunctionDeclarationBuilder::default()
        .name("my_function")
        .first_parameter(Type::Boolean, "param1")
        .return_type(Type::UInt)
        .body(|builder: AstBuilder| {
            builder
                .statement(|statement| {
                    statement.var_declaration(|var_declaration_builder| {
                        var_declaration_builder
                            .declare_type(Type::Boolean)
                            .name("my_var_name")
                            .with_assignment(|expression_builder| expression_builder.value_literal(true.into()))
                    })
                })
                .build()
        });

    let expected = FunctionDeclaration {
        id: FunctionId("my_function".to_owned()),
        name: "my_function".to_owned(),
        parameters: vec![FunctionParameter::FunctionParameter {
            param_type: Type::Boolean,
            param_name: "param1".to_owned(),
        }],
        return_type: FunctionReturnType::Type(Type::UInt),
        body: vec![Node::VariableDeclaration {
            var_type: VariableDeclarationType::Type(Type::Boolean),
            var_name: "my_var_name".to_owned(),
            value: true.into(),
        }],
    };

    assert_eq!(result, expected);
}

#[test]
fn function_declaration_no_parameters() {
    let actual = FunctionDeclarationBuilder::default()
        .name("my_function")
        .no_parameters()
        .return_type(Type::UInt)
        .body(|body| {
            body.statement(|statement| statement.return_value(|return_value| return_value.value_literal(10.into())))
                .build()
        });

    let expected = FunctionDeclaration {
        id: FunctionId("my_function".to_owned()),
        name: "my_function".to_owned(),
        parameters: Vec::new(),
        return_type: FunctionReturnType::Type(Type::UInt),
        body: vec![Node::FunctionReturn { return_value: Some(10.into()) }],
    };

    assert_eq!(actual, expected);
}

#[test]
fn function_declaration_void() {
    let actual = FunctionDeclarationBuilder::default()
        .name("my_function")
        .no_parameters()
        .void()
        .body(|body| body.statement(|statement| statement.return_void()).build());

    let expected = FunctionDeclaration {
        id: FunctionId("my_function".to_owned()),
        name: "my_function".to_owned(),
        parameters: Vec::new(),
        return_type: FunctionReturnType::Void,
        body: vec![Node::FunctionReturn { return_value: None }],
    };

    assert_eq!(actual, expected);
}

fn call_my_function() -> Node {
    Node::FunctionCall(FunctionCall { function_id: FunctionId("my_function".to_owned()), parameters: Vec::new() })
}

#[test]
fn if_statement_builder_if_statement() {
    let actual = IfStatementBuilder::new()
        .check_expression(|check| check.value_literal(true.into()))
        .body(|body| {
            body.statement(|statement| {
                statement.function_call(|function_call| function_call.function_id("my_function").no_parameters().build())
            })
            .build()
        })
        .build();

    let expected = Node::IfStatement(IfStatement {
        check_expression: true.into(),
        if_block: vec![call_my_function()],
        else_block: None,
        else_if_blocks: Vec::new(),
    });

    assert_eq!(actual, expected);
}

#[test]
fn else_if_statement() {
    let actual = IfStatementBuilder::new()
        .check_expression(|check| check.value_literal(true.into()))
        .body(|body| {
            body.statement(|statement| {
                statement.function_call(|function_call| function_call.function_id("my_function").no_parameters().build())
            })
            .build()
        })
        .else_if(
            |check| check.value_literal(true.into()),
            |body| {
                body.statement(|statement| {
                    statement.function_call(|function_call| function_call.function_id("my_function").no_parameters().build())
                })
                .build()
            },
        )
        .build();

    let expected = Node::IfStatement(IfStatement {
        check_expression: true.into(),
        if_block: vec![call_my_function()],
        else_block: None,
        else_if_blocks: vec![ElseIfBlock { check: true.into(), block: vec![call_my_function()] }],
    });

    assert_eq!(actual, expected);
}

#[test]
fn else_statement() {
    let actual = IfStatementBuilder::new()
        .check_expression(|check| check.value_literal(true.into()))
        .body(|body| {
            body.statement(|statement| {
                statement.function_call(|function_call| function_call.function_id("my_function").no_parameters().build())
            })
            .build()
        })
        .else_block(|body| {
            body.statement(|statement| {
                statement.function_call(|function_call| function_call.function_id("my_function").no_parameters().build())
            })
            .build()
        })
        .build();

    let expected = Node::IfStatement(IfStatement {
        check_expression: true.into(),
        if_block: vec![call_my_function()],
        else_block: Some(vec![call_my_function()]),
        else_if_blocks: Vec::new(),
    });

    assert_eq!(actual, expected);
}

#[test]
fn not_operation() {
    let result = OperationBuilder::default().not(|not_expression_builder| not_expression_builder.value_literal(true.into()));

    let expected = Operation::Unary { operation: UnaryOperation::Not, value: Box::new(true.into()) };

    assert_eq!(result, expected);
}

#[test]
fn greater_than_operation() {
    let result = OperationBuilder::default()
        .greater_than(|left| left.value_literal(10.into()), |right| right.value_literal(12.into()));

    let expected = Operation::Binary {
        operation: BinaryOperation::GreaterThan,
        left: Box::new(10.into()),
        right: Box::new(12.into()),
    };

    assert_eq!(result, expected);
}

#[test]
fn plus_than_operation() {
    let result = OperationBuilder::default().plus(|left| left.value_literal(10.into()), |right| right.value_literal(12.into()));

    let expected = Operation::Binary { operation: BinaryOperation::Plus, left: Box::new(10.into()), right: Box::new(12.into()) };

    assert_eq!(result, expected);
}

#[test]
fn var_declaration() {
    let actual = StatementBuilder::default().var_declaration(|var_declaration| {
        var_declaration.infer_type().name("my_var").with_assignment(|assignment| assignment.value_literal(true.into()))
    });

    let expected = Node::VariableDeclaration {
        var_type: VariableDeclarationType::Infer,
        var_name: "my_var".to_owned(),
        value: true.into(),
    };

    assert_eq!(actual, expected);
}

#[test]
fn statement_builder_if_statement() {
    let actual = StatementBuilder::default().if_statement(|if_statement| {
        if_statement.check_expression(|check| check.value_literal(true.into())).body(|body| body.build()).build()
    });

    let expected = Node::IfStatement(IfStatement {
        check_expression: true.into(),
        if_block: Vec::new(),
        else_if_blocks: Vec::new(),
        else_block: None,
    });

    assert_eq!(actual, expected);
}

#[test]
fn statement_builder_function_call() {
    let actual = StatementBuilder::default()
        .function_call(|function_call| function_call.function_id("my_function").no_parameters().build());

    assert_eq!(actual, call_my_function());
}

#[test]
fn return_value() {
    let actual = StatementBuilder::default().return_value(|return_value| return_value.value_literal(true.into()));

    let expected = Node::FunctionReturn { return_value: Some(true.into()) };

    assert_eq!(actual, expected);
}

#[test]
fn return_void() {
    let actual = StatementBuilder::default().return_void();

    let expected = Node::FunctionReturn { return_value: None };

    assert_eq!(actual, expected);
}

#[test]
fn variable_declaration_builder_variable_declaration() {
    let result = VariableDeclarationBuilder::default()
        .declare_type(Type::Boolean)
        .name("my_var_name")
        .with_assignment(|expression_builder| expression_builder.value_literal(Value::Boolean(BoolValue(true))));

    let expected = Node::VariableDeclaration {
        var_type: VariableDeclarationType::Type(Type::Boolean),
        var_name: "my_var_name".to_owned(),
        value: Expression::ValueLiteral(Value::Boolean(BoolValue(true))),
    };

    assert_eq!(result, expected);
}

#[test]
fn variable_declaration_infer_type() {
    let result = VariableDeclarationBuilder::default()
        .infer_type()
        .name("my_var_name")
        .with_assignment(|expression_builder| expression_builder.value_literal(Value::Boolean(BoolValue(true))));

    let expected = Node::VariableDeclaration {
        var_type: VariableDeclarationType::Infer,
        var_name: "my_var_name".to_owned(),
        value: Expression::ValueLiteral(Value::Boolean(BoolValue(true))),
    };

    assert_eq!(result, expected);
}

#[test]
fn custom_function_getters() {
    let function = Function::CustomFunction {
        id: FunctionId("my_function".to_owned()),
        name: "my_function".to_owned(),
        parameters: vec![FunctionParameter::FunctionParameter { param_type: Type::Boolean, param_name: "my_param".to_owned() }],
        return_type: FunctionReturnType::Void,
        body: vec![Node::FunctionReturn { return_value: None }],
    };

    assert_eq!(function.id(), &FunctionId("my_function".to_owned()));
    assert_eq!(function.name(), "my_function");
    assert_eq!(
        function.parameters(),
        &[FunctionParameter::FunctionParameter { param_type: Type::Boolean, param_name: "my_param".to_owned() }]
    );
    assert_eq!(function.return_type(), &FunctionReturnType::Void);
}

#[test]
fn intrinsic_function_getters() {
    let function = Function::Intrinsic {
        id: FunctionId("my_function".to_owned()),
        name: "my_function".to_owned(),
        parameters: vec![FunctionParameter::FunctionParameter { param_type: Type::Boolean, param_name: "my_param".to_owned() }],
        return_type: FunctionReturnType::Void,
    };

    assert_eq!(function.id(), &FunctionId("my_function".to_owned()));
    assert_eq!(function.name(), "my_function");
    assert_eq!(
        function.parameters(),
        &[FunctionParameter::FunctionParameter { param_type: Type::Boolean, param_name: "my_param".to_owned() }]
    );
    assert_eq!(function.return_type(), &FunctionReturnType::Void);
}

// Further cases.

#[test]
fn later_declaration_replaces_earlier_one() {
    let ast = AstBuilder::default()
        .function_declaration(|d| d.name("f").no_parameters().void().body(|body| body.build()))
        .function_declaration(|d| d.name("f").no_parameters().return_type(Type::UInt).body(|body| body.build()))
        .build();

    assert_eq!(ast.functions.len(), 1);
    assert_eq!(ast.functions.get(&FunctionId("f".to_owned())).unwrap().return_type(), &FunctionReturnType::Type(Type::UInt));
}

#[test]
fn parameters_accumulate_in_order() {
    let builder = FunctionDeclarationBuilder::default()
        .name("f")
        .first_parameter(Type::UInt, "a")
        .parameter(Type::Boolean, "b")
        .void();
    let declaration = builder.body(|body| body.build());

    assert_eq!(
        declaration.parameters,
        vec![
            FunctionParameter::FunctionParameter { param_type: Type::UInt, param_name: "a".to_owned() },
            FunctionParameter::FunctionParameter { param_type: Type::Boolean, param_name: "b".to_owned() },
        ]
    );
}
