use beach::ast::builders::ast_builder::AstBuilder;
use beach::ast::node::{
    BinaryOperation, BoolValue, ElseIfBlock, Expression, Function, FunctionCall, FunctionId,
    FunctionParameter, FunctionReturnType, IfStatement, Node, Operation, Type, UIntValue,
    UnaryOperation, Value, VariableDeclarationType,
};
use beach::table::Table;
use beach::type_checking::expression::type_check_variable_access;
use beach::type_checking::node::{type_check_nodes, NodeTypeCheckResult};
use beach::type_checking::verify_type;

fn no_functions() -> Table<FunctionId, Function> {
    Table::new()
}

fn no_types() -> Table<String, Type> {
    Table::new()
}

fn one_function(parameters: Vec<FunctionParameter>, return_type: FunctionReturnType) -> Table<FunctionId, Function> {
    Table::from_pairs(vec![(
        FunctionId("my_function".to_owned()),
        Function::CustomFunction {
            id: FunctionId("my_function".to_owned()),
            name: "my_function".to_owned(),
            parameters,
            return_type,
            body: Vec::new(),
        },
    )])
}

fn typed(param_type: Type, name: &str) -> FunctionParameter {
    FunctionParameter::FunctionParameter { param_type, param_name: name.to_owned() }
}

fn call(parameters: Vec<Expression>) -> FunctionCall {
    FunctionCall { function_id: FunctionId("my_function".to_owned()), parameters }
}

#[test]
fn verify_type_success() {
    let result = verify_type(Some(Type::Boolean), Type::Boolean);
    assert!(matches!(result, Ok(_)));
}

#[test]
fn verify_type_failure_none() {
    let result = verify_type(None, Type::Boolean);
    assert!(matches!(result, Err(e) if e.message == "Expected type to be Boolean, but none was found"));
}

#[test]
fn verify_type_failure_incorrect_type() {
    let result = verify_type(Some(Type::UInt), Type::Boolean);
    assert!(matches!(result, Err(e) if e.message == "Expected type to be Boolean, but found UInt"));
}

#[test]
fn value_get_type_uint() {
    let result = Value::UInt(10.into()).get_type();
    assert_eq!(result, Type::UInt)
}

#[test]
fn value_get_type_boolean() {
    let result = Value::Boolean(true.into()).get_type();
    assert_eq!(result, Type::Boolean)
}

#[test]
fn expression_get_type_value_literal() {
    let expression: Expression = true.into();
    let result = expression.get_type(&no_functions(), &no_types());
    assert_eq!(result, Some(Type::Boolean));
}

#[test]
fn expression_get_type_operation() {
    let expression = Expression::Operation(Operation::Unary {
        operation: UnaryOperation::Not,
        value: Box::new(true.into()),
    });
    let result = expression.get_type(&no_functions(), &no_types());
    assert_eq!(result, Some(Type::Boolean));
}

#[test]
fn expression_get_type_function_call_return_value() {
    let expression = Expression::FunctionCall(call(Vec::new()));
    let functions = one_function(Vec::new(), FunctionReturnType::Type(Type::UInt));
    let result = expression.get_type(&functions, &no_types());
    assert_eq!(result, Some(Type::UInt))
}

#[test]
fn expression_get_type_function_call_void() {
    let expression = Expression::FunctionCall(call(Vec::new()));
    let functions = one_function(Vec::new(), FunctionReturnType::Void);
    let result = expression.get_type(&functions, &no_types());
    assert_eq!(result, None)
}

#[test]
fn expression_get_type_variable_access() {
    let expression = Expression::VariableAccess("my_var".to_owned());
    let local_variables = Table::from_pairs(vec![("my_var".to_owned(), Type::Boolean)]);
    let result = expression.get_type(&no_functions(), &local_variables);
    assert_eq!(result, Some(Type::Boolean));
}

#[test]
fn expression_get_type_variable_access_missing_variable() {
    let expression = Expression::VariableAccess("my_var".to_owned());
    let result = expression.get_type(&no_functions(), &no_types());
    assert_eq!(result, None);
}

#[test]
fn test_type_check_variable_access_success() {
    let variables = Table::from_pairs(vec![("my_var".to_owned(), Type::Boolean)]);
    let result = type_check_variable_access("my_var", &variables);
    assert!(matches!(result, Ok(_)));
}

#[test]
fn test_type_check_variable_access_failure() {
    let variables = Table::new();
    let result = type_check_variable_access("my_var", &variables);
    assert!(matches!(result, Err(e) if e.message == "Could not find variable with name my_var"));
}

#[test]
fn expression_type_check_value_literal() {
    let expression: Expression = true.into();
    let result = expression.type_check(&no_functions(), &no_types());
    assert!(matches!(result, Ok(())));
}

#[test]
fn expression_type_check_function_call_successful() {
    let expression = Expression::FunctionCall(call(Vec::new()));
    let functions = one_function(Vec::new(), FunctionReturnType::Type(Type::Boolean));
    let result = expression.type_check(&functions, &no_types());
    assert!(matches!(result, Ok(())));
}

#[test]
fn expression_type_check_function_call_failure() {
    let expression = Expression::FunctionCall(call(Vec::new()));
    let functions = one_function(vec![typed(Type::Boolean, "param")], FunctionReturnType::Type(Type::Boolean));
    let result = expression.type_check(&functions, &no_types());
    assert!(matches!(result, Err(_)));
}

#[test]
fn expression_type_check_operation_successful() {
    let expression = Expression::Operation(Operation::Unary {
        operation: UnaryOperation::Not,
        value: Box::new(true.into()),
    });
    let result = expression.type_check(&no_functions(), &no_types());
    assert!(matches!(result, Ok(())));
}

#[test]
fn expression_type_check_operation_failure() {
    let expression = Expression::Operation(Operation::Unary {
        operation: UnaryOperation::Not,
        value: Box::new(10.into()),
    });
    let result = expression.type_check(&no_functions(), &no_types());
    assert!(matches!(result, Err(_)));
}

#[test]
fn expression_type_check_variable_access_successful() {
    let expression = Expression::VariableAccess("my_var".to_owned());
    let local_variables = Table::from_pairs(vec![("my_var".to_owned(), Type::Boolean)]);
    let result = expression.type_check(&no_functions(), &local_variables);
    assert!(matches!(result, Ok(())));
}

#[test]
fn expression_type_check_variable_access_failure() {
    let expression = Expression::VariableAccess("my_var".to_owned());
    let result = expression.type_check(&no_functions(), &no_types());
    assert!(matches!(result, Err(_)));
}

fn uint(value: u32) -> Box<Expression> {
    Box::new(Expression::ValueLiteral(Value::UInt(UIntValue(value))))
}

fn boolean(value: bool) -> Box<Expression> {
    Box::new(Expression::ValueLiteral(Value::Boolean(BoolValue(value))))
}

#[test]
fn operation_get_type_not() {
    let operation = Operation::Unary { operation: UnaryOperation::Not, value: boolean(true) };
    assert_eq!(operation.get_type(), Type::Boolean)
}

#[test]
fn operation_get_type_plus() {
    let operation = Operation::Binary { operation: BinaryOperation::Plus, left: uint(10), right: uint(10) };
    assert_eq!(operation.get_type(), Type::UInt)
}

#[test]
fn operation_get_type_greater_than() {
    let operation = Operation::Binary { operation: BinaryOperation::GreaterThan, left: uint(10), right: uint(10) };
    assert_eq!(operation.get_type(), Type::UInt)
}

#[test]
fn operation_not_type_check_successful() {
    let operation = Operation::Unary { operation: UnaryOperation::Not, value: boolean(true) };
    let result = operation.type_check(&no_functions(), &no_types());
    assert!(matches!(result, Ok(_)));
}

#[test]
fn operation_not_type_check_failure() {
    let operation = Operation::Unary { operation: UnaryOperation::Not, value: uint(10) };
    let result = operation.type_check(&no_functions(), &no_types());
    assert!(matches!(result, Err(errors) if errors.len() == 1));
}

#[test]
fn operation_plus_type_check_success() {
    let operation = Operation::Binary { operation: BinaryOperation::GreaterThan, left: uint(10), right: uint(10) };
    let result = operation.type_check(&no_functions(), &no_types());
    assert!(matches!(result, Ok(_)));
}

#[test]
fn operation_plus_type_check_failure() {
    let operation = Operation::Binary {
        operation: BinaryOperation::GreaterThan,
        left: boolean(true),
        right: boolean(true),
    };
    let result = operation.type_check(&no_functions(), &no_types());
    assert!(matches!(result, Err(errors) if errors.len() == 2));
}

#[test]
fn operation_unary_type_check_expressions() {
    let operation = Operation::Unary {
        operation: UnaryOperation::Not,
        value: Box::new(Expression::FunctionCall(call(Vec::new()))),
    };
    let functions = one_function(vec![typed(Type::Boolean, "my_param")], FunctionReturnType::Type(Type::Boolean));
    let result = operation.type_check(&functions, &no_types());
    assert!(
        matches!(result, Err(e) if e.len() == 1 && e[0].message == "my_function expects 1 parameter(s), but you provided 0")
    )
}

#[test]
fn operation_binary_type_check_expressions() {
    let operation = Operation::Binary {
        operation: BinaryOperation::GreaterThan,
        left: Box::new(Expression::FunctionCall(call(Vec::new()))),
        right: Box::new(Expression::FunctionCall(call(Vec::new()))),
    };
    let functions = one_function(vec![typed(Type::Boolean, "my_param")], FunctionReturnType::Type(Type::UInt));
    let result = operation.type_check(&functions, &no_types());
    assert!(
        matches!(result, Err(e) if e.len() == 2 && e[0].message == "my_function expects 1 parameter(s), but you provided 0" && e[1].message == e[1].message)
    )
}

#[test]
fn function_call_function_parameter_verify_success() {
    let function_parameter = typed(Type::Boolean, "hi");
    let result = function_parameter.verify_type(Some(Type::Boolean));
    assert!(matches!(result, Ok(_)));
}

#[test]
fn function_call_function_parameter_verify_intrinsic_any_success() {
    let function_parameter = FunctionParameter::IntrinsicAny { param_name: "hi".to_owned() };
    let result = function_parameter.verify_type(Some(Type::UInt));
    assert!(matches!(result, Ok(())));
}

#[test]
fn function_call_function_parameter_verify_failure() {
    let function_parameter = typed(Type::Boolean, "hi");
    let result = function_parameter.verify_type(Some(Type::UInt));
    assert!(matches!(result, Err(_)));
}

#[test]
fn function_call_function_parameter_verify_intrinsic_any_failure() {
    let function_parameter = FunctionParameter::IntrinsicAny { param_name: "hi".to_owned() };
    let result = function_parameter.verify_type(None);
    assert!(matches!(result, Err(e) if e.message == "Expected parameter hi to be present"));
}

#[test]
fn function_call_function_call_type_check_success() {
    let functions = one_function(vec![typed(Type::Boolean, "hi")], FunctionReturnType::Void);
    let result = call(vec![true.into()]).type_check(&functions, &no_types());
    assert!(matches!(result, Ok(())));
    let function_call = Node::FunctionCall(call(vec![true.into()]));
    let result = function_call.type_check(&functions, &mut Table::new(), None);
    assert!(matches!(result, NodeTypeCheckResult::DidNotReturnedFromFunction(Ok(()))));
}

#[test]
fn function_call_function_call_type_check_failure() {
    let functions = one_function(
        vec![typed(Type::Boolean, "hi"), typed(Type::UInt, "hi_2")],
        FunctionReturnType::Void,
    );
    let result = call(vec![10.into(), true.into()]).type_check(&functions, &no_types());
    assert!(matches!(result, Err(e) if e.len() == 2));
    let function_call = Node::FunctionCall(call(vec![10.into(), true.into()]));
    let result = function_call.type_check(&functions, &mut Table::new(), None);
    assert!(matches!(result, NodeTypeCheckResult::DidNotReturnedFromFunction(Err(e)) if e.len() == 2));
}

#[test]
fn function_call_function_call_type_check_missing_function() {
    let result = call(vec![10.into()]).type_check(&no_functions(), &no_types());
    assert!(matches!(result, Err(_)));
    let function_call = Node::FunctionCall(call(vec![10.into()]));
    let result = function_call.type_check(&no_functions(), &mut Table::new(), None);
    assert!(
        matches!(result, NodeTypeCheckResult::DidNotReturnedFromFunction(Err(e)) if e.len() == 1 && e[0].message == "Could not find function with name my_function")
    )
}

#[test]
fn function_call_function_call_type_check_incorrect_parameters_number() {
    let functions = one_function(vec![typed(Type::Boolean, "hi")], FunctionReturnType::Void);
    let result = call(vec![10.into(), true.into()]).type_check(&functions, &no_types());
    assert!(matches!(result, Err(_)));
    let function_call = Node::FunctionCall(call(vec![10.into(), true.into()]));
    let result = function_call.type_check(&functions, &mut Table::new(), None);
    assert!(matches!(result, NodeTypeCheckResult::DidNotReturnedFromFunction(Err(_))));
}

#[test]
fn function_call_type_check_parameter_expressions() {
    let functions = one_function(vec![typed(Type::UInt, "hi")], FunctionReturnType::Void);
    let function_call = Node::FunctionCall(call(vec![Expression::Operation(Operation::Binary {
        operation: BinaryOperation::Plus,
        left: Box::new(true.into()),
        right: Box::new(10.into()),
    })]));
    let result = function_call.type_check(&functions, &mut Table::new(), None);
    assert!(matches!(result, NodeTypeCheckResult::DidNotReturnedFromFunction(Err(_))));
}

fn function_returning(return_type: FunctionReturnType) -> Table<FunctionId, Function> {
    one_function(Vec::new(), return_type)
}

#[test]
fn type_check_return_value_successful_empty_call_stack() {
    let node = Node::FunctionReturn { return_value: Some(10.into()) };
    let result = node.type_check(&no_functions(), &mut Table::new(), None);
    assert!(matches!(result, NodeTypeCheckResult::ReturnedFromFunction(Ok(()))))
}

#[test]
fn type_check_return_void_successful_empty_call_stack() {
    let node = Node::FunctionReturn { return_value: None };
    let result = node.type_check(&no_functions(), &mut Table::new(), None);
    assert!(matches!(result, NodeTypeCheckResult::ReturnedFromFunction(Ok(()))))
}

#[test]
fn type_check_return_value_successful_in_function() {
    let node = Node::FunctionReturn { return_value: Some(true.into()) };
    let functions = function_returning(FunctionReturnType::Type(Type::Boolean));
    let current_function = FunctionId("my_function".to_owned());
    let result = node.type_check(&functions, &mut Table::new(), Some(&current_function));
    assert!(matches!(result, NodeTypeCheckResult::ReturnedFromFunction(Ok(()))))
}

#[test]
fn type_check_return_void_successfull_in_function() {
    let node = Node::FunctionReturn { return_value: None };
    let functions = function_returning(FunctionReturnType::Void);
    let current_function = FunctionId("my_function".to_owned());
    let result = node.type_check(&functions, &mut Table::new(), Some(&current_function));
    assert!(matches!(result, NodeTypeCheckResult::ReturnedFromFunction(Ok(()))));
}

#[test]
fn type_check_return_expression_failure() {
    let node = Node::FunctionReturn {
        return_value: Some(Expression::Operation(Operation::Binary {
            operation: BinaryOperation::Plus,
            left: Box::new(10.into()),
            right: Box::new(true.into()),
        })),
    };
    let result = node.type_check(&no_functions(), &mut Table::new(), None);
    assert!(
        matches!(result, NodeTypeCheckResult::ReturnedFromFunction(Err(e)) if e.len() == 1 && e[0].message == "Expected type to be UInt, but found Boolean")
    );
}

#[test]
fn type_check_return_top_level_incorrect_type() {
    let node = Node::FunctionReturn { return_value: Some(true.into()) };
    let result = node.type_check(&no_functions(), &mut Table::new(), None);
    assert!(
        matches!(result, NodeTypeCheckResult::ReturnedFromFunction(Err(e)) if e.len() == 1 && e[0].message == "Cannot return a Boolean from a top level statement")
    );
}

#[test]
fn type_check_return_incorrect_value_from_function() {
    let node = Node::FunctionReturn { return_value: Some(true.into()) };
    let functions = function_returning(FunctionReturnType::Type(Type::UInt));
    let result = node.type_check(&functions, &mut Table::new(), Some(&FunctionId("my_function".to_owned())));
    assert!(
        matches!(result, NodeTypeCheckResult::ReturnedFromFunction(Err(e)) if e.len() == 1 && e[0].message == "my_function expects a return type of UInt, but you returned a Boolean value")
    )
}

#[test]
fn type_check_return_void_from_function_that_expects_value() {
    let node = Node::FunctionReturn { return_value: None };
    let functions = function_returning(FunctionReturnType::Type(Type::UInt));
    let result = node.type_check(&functions, &mut Table::new(), Some(&FunctionId("my_function".to_owned())));
    assert!(
        matches!(result, NodeTypeCheckResult::ReturnedFromFunction(Err(e)) if e.len() == 1 && e[0].message == "my_function expects a return type of UInt, but you returned void")
    );
}

#[test]
fn type_check_return_value_from_void_function() {
    let node = Node::FunctionReturn { return_value: Some(true.into()) };
    let functions = function_returning(FunctionReturnType::Void);
    let result = node.type_check(&functions, &mut Table::new(), Some(&FunctionId("my_function".to_owned())));
    assert!(
        matches!(result, NodeTypeCheckResult::ReturnedFromFunction(Err(e)) if e.len() == 1 && e[0].message == "my_function is a void function, but you returned a Boolean value")
    );
}

fn infer(name: &str, value: Expression) -> Node {
    Node::VariableDeclaration { var_type: VariableDeclarationType::Infer, var_name: name.to_owned(), value }
}

fn declare(var_type: Type, name: &str, value: Expression) -> Node {
    Node::VariableDeclaration { var_type: VariableDeclarationType::Type(var_type), var_name: name.to_owned(), value }
}

fn if_statement(check: Expression, if_block: Vec<Node>, else_if: ElseIfBlock, else_block: Vec<Node>) -> IfStatement {
    IfStatement { check_expression: check, if_block, else_if_blocks: vec![else_if], else_block: Some(else_block) }
}

fn greater_than_bool_uint() -> Expression {
    Expression::Operation(Operation::Binary {
        operation: BinaryOperation::GreaterThan,
        left: Box::new(true.into()),
        right: Box::new(10.into()),
    })
}

#[test]
fn type_check_if_statement_successful() {
    let s = if_statement(
        true.into(),
        vec![infer("my_var", true.into())],
        ElseIfBlock { check: true.into(), block: vec![infer("second_var", false.into())] },
        vec![infer("third_var", true.into())],
    );
    let result = s.type_check(&no_functions(), &no_types(), None);
    assert!(matches!(result, Ok(())));
}

#[test]
fn type_check_if_statement_incorrect_check_type() {
    let s = if_statement(
        22.into(),
        vec![infer("my_var", true.into())],
        ElseIfBlock { check: true.into(), block: vec![infer("second_var", false.into())] },
        vec![infer("third_var", true.into())],
    );
    let result = s.type_check(&no_functions(), &no_types(), None);
    assert!(matches!(result, Err(e) if e.len() == 1 && e[0].message == "Expected type to be Boolean, but found UInt"));
}

#[test]
fn type_check_if_statement_nodes_failure() {
    let s = if_statement(
        true.into(),
        vec![declare(Type::UInt, "my_var", true.into())],
        ElseIfBlock { check: true.into(), block: vec![infer("second_var", false.into())] },
        vec![infer("third_var", true.into())],
    );
    let result = s.type_check(&no_functions(), &no_types(), None);
    assert!(matches!(result, Err(_)));
}

#[test]
fn type_check_else_if_incorrect_check_type() {
    let s = if_statement(
        true.into(),
        vec![infer("my_var", true.into())],
        ElseIfBlock { check: 32.into(), block: vec![infer("second_var", false.into())] },
        vec![infer("third_var", true.into())],
    );
    let result = s.type_check(&no_functions(), &no_types(), None);
    assert!(matches!(result, Err(_)));
}

#[test]
fn type_check_else_if_node_failure() {
    let s = if_statement(
        true.into(),
        vec![infer("my_var", true.into())],
        ElseIfBlock { check: true.into(), block: vec![declare(Type::UInt, "second_var", false.into())] },
        vec![infer("third_var", true.into())],
    );
    let result = s.type_check(&no_functions(), &no_types(), None);
    assert!(matches!(result, Err(_)));
}

#[test]
fn type_check_else_node_failure() {
    let s = if_statement(
        true.into(),
        vec![infer("my_var", true.into())],
        ElseIfBlock { check: true.into(), block: vec![infer("second_var", false.into())] },
        vec![declare(Type::UInt, "third_var", true.into())],
    );
    let result = s.type_check(&no_functions(), &no_types(), None);
    assert!(matches!(result, Err(_)));
}

#[test]
fn type_check_if_statement_check_expression_errors() {
    let s = if_statement(
        greater_than_bool_uint(),
        vec![infer("my_var", true.into())],
        ElseIfBlock { check: true.into(), block: vec![infer("second_var", false.into())] },
        vec![infer("third_var", true.into())],
    );
    let result = s.type_check(&no_functions(), &no_types(), None);
    assert!(matches!(result, Err(_)));
}

#[test]
fn type_check_if_statement_else_if_check_expression_errors() {
    let s = if_statement(
        true.into(),
        vec![infer("my_var", true.into())],
        ElseIfBlock { check: greater_than_bool_uint(), block: vec![infer("second_var", false.into())] },
        vec![infer("third_var", true.into())],
    );
    let result = s.type_check(&no_functions(), &no_types(), None);
    assert!(matches!(result, Err(_)));
}

#[test]
fn type_check_variable_declaration_success() {
    let node = declare(Type::Boolean, "my_var", true.into());
    let mut local_variables = Table::new();
    let result = node.type_check(&no_functions(), &mut local_variables, None);
    assert!(matches!(result, NodeTypeCheckResult::DidNotReturnedFromFunction(Ok(_))));
    assert!(matches!(local_variables.get(&"my_var".to_owned()), Some(Type::Boolean)));
}

#[test]
fn type_check_variable_declaration_infer_success() {
    let node = infer("my_var", true.into());
    let mut local_variables = Table::new();
    let result = node.type_check(&no_functions(), &mut local_variables, None);
    assert!(matches!(result, NodeTypeCheckResult::DidNotReturnedFromFunction(Ok(_))));
    assert!(matches!(local_variables.get(&"my_var".to_owned()), Some(Type::Boolean)));
}

#[test]
fn type_check_variable_declaration_failure_existing_variable() {
    let node = declare(Type::Boolean, "my_name", true.into());
    let mut local_variables = Table::from_pairs(vec![("my_name".to_owned(), Type::UInt)]);
    let result = node.type_check(&no_functions(), &mut local_variables, None);
    assert!(
        matches!(result, NodeTypeCheckResult::DidNotReturnedFromFunction(Err(e)) if e.len() == 1 && e[0].message == "Variable my_name is already defined".to_owned())
    );
    // the variable keeps its type
    assert!(matches!(local_variables.get(&"my_name".to_owned()), Some(Type::UInt)));
}

#[test]
fn type_check_variable_declaration_failure_value_expression() {
    let node = infer(
        "my_name",
        Expression::Operation(Operation::Unary { operation: UnaryOperation::Not, value: Box::new(10.into()) }),
    );
    let result = node.type_check(&no_functions(), &mut Table::new(), None);
    assert!(matches!(result, NodeTypeCheckResult::DidNotReturnedFromFunction(Err(_))))
}

#[test]
fn type_check_variable_declaration_failure_infer_void_function() {
    let node = infer("my_value", Expression::FunctionCall(call(Vec::new())));
    let functions = function_returning(FunctionReturnType::Void);
    let result = node.type_check(&functions, &mut Table::new(), None);
    assert!(
        matches!(result, NodeTypeCheckResult::DidNotReturnedFromFunction(Err(e)) if e.len() == 1 && e[0].message == "cannot assign void to variable my_value".to_owned())
    )
}

#[test]
fn type_check_variable_declaration_failure_incorrect_type() {
    let node = declare(Type::UInt, "my_value", true.into());
    let result = node.type_check(&no_functions(), &mut Table::new(), None);
    assert!(
        matches!(result, NodeTypeCheckResult::DidNotReturnedFromFunction(Err(e)) if e.len() == 1 && e[0].message == "Expected type to be UInt, but found Boolean".to_owned())
    )
}

fn custom_function(parameters: Vec<FunctionParameter>, return_type: FunctionReturnType, body: Vec<Node>) -> Function {
    Function::CustomFunction {
        id: FunctionId("my_function".to_owned()),
        name: "my_function".to_owned(),
        parameters,
        return_type,
        body,
    }
}

fn table_of(function: &Function) -> Table<FunctionId, Function> {
    Table::from_pairs(vec![(function.id().clone(), function.clone())])
}

#[test]
fn type_check_function_success() {
    let function = custom_function(
        vec![
            typed(Type::Boolean, "my_var"),
            FunctionParameter::IntrinsicAny { param_name: "intrinsic_any".to_owned() },
        ],
        FunctionReturnType::Type(Type::Boolean),
        vec![Node::FunctionReturn { return_value: Some(Expression::VariableAccess("my_var".to_owned())) }],
    );
    let functions = table_of(&function);
    let result = function.type_check(&functions);
    assert!(matches!(result, Ok(())));
}

#[test]
fn type_check_intrinsic_function() {
    let function = Function::Intrinsic {
        id: FunctionId("my_function".to_owned()),
        name: "my_function".to_owned(),
        parameters: vec![],
        return_type: FunctionReturnType::Void,
    };
    let result = function.type_check(&no_functions());
    assert!(matches!(result, Ok(())));
}

#[test]
fn type_check_function_failure() {
    let function = custom_function(
        vec![typed(Type::Boolean, "my_var")],
        FunctionReturnType::Type(Type::Boolean),
        vec![Node::FunctionReturn { return_value: Some(10.into()) }],
    );
    let functions = table_of(&function);
    let result = function.type_check(&functions);
    assert!(matches!(result, Err(_)));
}

#[test]
fn type_check_missing_return_value() {
    let function = custom_function(Vec::new(), FunctionReturnType::Type(Type::Boolean), Vec::new());
    let functions = table_of(&function);
    let result = function.type_check(&functions);
    assert!(matches!(result, Err(e) if e.len() == 1 && e[0].message == "expected return value, but void was returned"))
}

#[test]
fn type_check_void_no_return() {
    let function = custom_function(Vec::new(), FunctionReturnType::Void, Vec::new());
    let functions = table_of(&function);
    let result = function.type_check(&functions);
    assert!(matches!(result, Ok(())));
}

#[test]
fn type_check_ast_successful() {
    let ast = AstBuilder::default()
        .function_declaration(|fn_decl| {
            fn_decl
                .parameters(vec![typed(Type::Boolean, "my_param")])
                .return_type(Type::Boolean)
                .name("my_function")
                .body(|body| {
                    body.statement(|statement| statement.return_value(|expression| expression.variable("my_param")))
                        .build()
                })
        })
        .statement(|statement| {
            statement.function_call(|fn_call| fn_call.function_id("print").parameter(|_| 10.into()).build())
        })
        .statement(|statement| {
            statement.function_call(|fn_call| fn_call.function_id("my_function").parameter(|_| true.into()).build())
        })
        .build();

    let result = ast.type_check();

    assert!(matches!(result, Ok(())));
}

#[test]
fn type_check_ast_errors() {
    let ast = AstBuilder::default()
        .function_declaration(|fn_decl| {
            fn_decl
                .parameters(vec![typed(Type::Boolean, "my_param")])
                .return_type(Type::Boolean)
                .name("my_function")
                .body(|body| body.statement(|statement| statement.return_void()).build())
        })
        .statement(|statement| {
            statement.function_call(|fn_call| fn_call.function_id("my_function").parameter(|_| 10.into()).build())
        })
        .build();

    let result = ast.type_check();

    assert!(matches!(result, Err(e) if e.len() == 2));
}

// Further cases.

#[test]
fn block_reports_first_return_type() {
    let nodes = vec![
        infer("a", 1.into()),
        Node::FunctionReturn { return_value: Some(Expression::VariableAccess("a".to_owned())) },
        Node::FunctionReturn { return_value: Some(true.into()) },
    ];
    let result = type_check_nodes(&nodes, &no_functions(), &no_types(), None);
    assert!(matches!(result, Err(e) if e.len() == 1 && e[0].message == "Cannot return a Boolean from a top level statement"));

    let nodes = vec![infer("a", 1.into()), Node::FunctionReturn { return_value: Some(Expression::VariableAccess("a".to_owned())) }];
    let result = type_check_nodes(&nodes, &no_functions(), &no_types(), None);
    assert!(matches!(result, Ok(Some(Type::UInt))));
}

#[test]
fn block_scope_starts_from_given_variables() {
    let nodes = vec![infer("a", Expression::VariableAccess("outer".to_owned()))];
    let locals = Table::from_pairs(vec![("outer".to_owned(), Type::Boolean)]);
    let result = type_check_nodes(&nodes, &no_functions(), &locals, None);
    assert!(matches!(result, Ok(None)));
    assert_eq!(locals.len(), 1);
}

#[test]
fn unknown_variable_is_reported() {
    let nodes = vec![Node::FunctionReturn { return_value: Some(Expression::VariableAccess("ghost".to_owned())) }];
    let result = type_check_nodes(&nodes, &no_functions(), &no_types(), None);
    assert!(matches!(result, Err(e) if e.len() == 1 && e[0].message == "Could not find variable with name ghost"));
}

fn call_missing(name: &str) -> Expression {
    Expression::FunctionCall(FunctionCall { function_id: FunctionId(name.to_owned()), parameters: Vec::new() })
}

#[test]
fn try_type_check_reports_errors_when_checking_returns() {
    let ast = beach::ast::node::Ast {
        functions: Table::new(),
        nodes: vec![Node::FunctionCall(FunctionCall {
            function_id: FunctionId("missing".to_owned()),
            parameters: Vec::new(),
        })],
    };
    let result = ast.try_type_check();
    assert!(
        matches!(result, Some(Err(e)) if e.len() == 1 && e[0].message == "Could not find function with name missing")
    );
}

#[test]
fn try_type_check_none_for_type_of_missing_call() {
    let ast = beach::ast::node::Ast {
        functions: Table::new(),
        nodes: vec![Node::VariableDeclaration {
            var_type: VariableDeclarationType::Infer,
            var_name: "x".to_owned(),
            value: call_missing("missing"),
        }],
    };
    assert!(ast.try_type_check().is_none());
}

#[test]
fn try_type_check_none_for_missing_call_in_function_body() {
    let function = custom_function(
        Vec::new(),
        FunctionReturnType::Void,
        vec![Node::IfStatement(IfStatement {
            check_expression: call_missing("missing"),
            if_block: Vec::new(),
            else_if_blocks: Vec::new(),
            else_block: None,
        })],
    );
    let ast = beach::ast::node::Ast { functions: table_of(&function), nodes: Vec::new() };
    assert!(ast.try_type_check().is_none());
    assert!(function.try_type_check(&table_of(&function)).is_none());
}

#[test]
fn try_type_check_well_typed_program() {
    let function = custom_function(
        vec![typed(Type::UInt, "x")],
        FunctionReturnType::Type(Type::UInt),
        vec![Node::FunctionReturn { return_value: Some(Expression::VariableAccess("x".to_owned())) }],
    );
    let ast = beach::ast::node::Ast {
        functions: table_of(&function),
        nodes: vec![Node::VariableDeclaration {
            var_type: VariableDeclarationType::Type(Type::UInt),
            var_name: "y".to_owned(),
            value: Expression::FunctionCall(FunctionCall {
                function_id: FunctionId("my_function".to_owned()),
                parameters: vec![10.into()],
            }),
        }],
    };
    assert!(matches!(ast.try_type_check(), Some(Ok(()))));
    assert!(matches!(ast.type_check(), Ok(())));
}

#[test]
fn try_type_check_function_returning_value_declared_void_elsewhere() {
    let returning = Function::CustomFunction {
        id: FunctionId("other".to_owned()),
        name: "other".to_owned(),
        parameters: Vec::new(),
        return_type: FunctionReturnType::Void,
        body: vec![Node::FunctionReturn { return_value: Some(10.into()) }],
    };
    let other = Function::CustomFunction {
        id: FunctionId("other".to_owned()),
        name: "other".to_owned(),
        parameters: Vec::new(),
        return_type: FunctionReturnType::Type(Type::UInt),
        body: vec![Node::FunctionReturn { return_value: Some(10.into()) }],
    };
    let functions = Table::from_pairs(vec![(FunctionId("other".to_owned()), other)]);
    assert!(returning.try_type_check(&functions).is_none());
}
