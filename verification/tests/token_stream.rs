use beach::ast::builders::ast_builder::AstBuilder;
use beach::ast::builders::function_call_builder::FunctionCallBuilder;
use beach::ast::node::{FunctionParameter, Type};
use beach::token_stream::token::Token;

// expression
/// boolean my_var = my_function();
#[test]
fn type_decl_variable_declaration_assign_function_call() {
    let tokens = vec![
        Token::TypeKeyword(Type::Boolean),
        Token::Identifier("my_var".to_owned()),
        Token::AssignmentOperator,
        Token::Identifier("my_function".to_owned()),
        Token::LeftParenthesis,
        Token::RightParenthesis,
        Token::SemiColon,
    ];

    let result = AstBuilder::from_token_stream(tokens);

    let expected = AstBuilder::default().statement(|statement| {
        statement.var_declaration(|var_decl| {
            var_decl
                .name("my_var")
                .declare_type(Type::Boolean)
                .with_assignment(|value| {
                    value.function_call(|function_call| {
                        function_call
                            .function_id("my_function")
                            .no_parameters()
                            .build()
                    })
                })
        })
    });

    assert!(matches!(result, Ok(ast_builder) if ast_builder == expected));
}

/// boolean my_var = my_function(true);
#[test]
fn type_declare_variable_declaration_assign_function_call_with_single_paremeter() {
    let tokens = vec![
        Token::TypeKeyword(Type::Boolean),
        Token::Identifier("my_var".to_owned()),
        Token::AssignmentOperator,
        Token::Identifier("my_function".to_owned()),
        Token::LeftParenthesis,
        Token::TrueKeyword,
        Token::RightParenthesis,
        Token::SemiColon,
    ];

    let result = AstBuilder::from_token_stream(tokens);

    let expected = AstBuilder::default().statement(|statement| {
        statement.var_declaration(|var_decl| {
            var_decl
                .name("my_var")
                .declare_type(Type::Boolean)
                .with_assignment(|value| {
                    value.function_call(|function_call| {
                        function_call
                            .function_id("my_function")
                            .parameter(|value| value.value_literal(true.into()))
                            .build()
                    })
                })
        })
    });

    assert!(matches!(result, Ok(ast_builder) if ast_builder == expected));
}

/// boolean my_var = my_function(true, second_function());
#[test]
fn variable_declaration_assign_function_call_with_multiple_parameters_function_call_no_parameters(
) {
    let tokens = vec![
        Token::TypeKeyword(Type::Boolean),
        Token::Identifier("my_var".to_owned()),
        Token::AssignmentOperator,
        Token::Identifier("my_function".to_owned()),
        Token::LeftParenthesis,
        Token::TrueKeyword,
        Token::Comma,
        Token::Identifier("second_function".to_owned()),
        Token::LeftParenthesis,
        Token::RightParenthesis,
        Token::RightParenthesis,
        Token::SemiColon,
    ];

    let result = AstBuilder::from_token_stream(tokens);

    let expected = AstBuilder::default().statement(|statement| {
        statement.var_declaration(|var_decl| {
            var_decl
                .name("my_var")
                .declare_type(Type::Boolean)
                .with_assignment(|value| {
                    value.function_call(|function_call| {
                        function_call
                            .function_id("my_function")
                            .parameter(|value| value.value_literal(true.into()))
                            .parameter(|param| {
                                param.function_call(|function_call| {
                                    function_call
                                        .function_id("second_function")
                                        .no_parameters()
                                        .build()
                                })
                            })
                            .build()
                    })
                })
        })
    });

    assert!(matches!(result, Ok(ast_builder) if ast_builder == expected));
}

/// boolean my_var = my_function(true, second_function(true));
#[test]
fn variable_declaration_assign_function_call_with_multiple_parameters_function_call_single_parameter(
) {
    let tokens = vec![
        Token::TypeKeyword(Type::Boolean),
        Token::Identifier("my_var".to_owned()),
        Token::AssignmentOperator,
        Token::Identifier("my_function".to_owned()),
        Token::LeftParenthesis,
        Token::TrueKeyword,
        Token::Comma,
        Token::Identifier("second_function".to_owned()),
        Token::LeftParenthesis,
        Token::TrueKeyword,
        Token::RightParenthesis,
        Token::RightParenthesis,
        Token::SemiColon,
    ];

    let result = AstBuilder::from_token_stream(tokens);

    let expected = AstBuilder::default().statement(|statement| {
        statement.var_declaration(|var_decl| {
            var_decl
                .name("my_var")
                .declare_type(Type::Boolean)
                .with_assignment(|value| {
                    value.function_call(|function_call| {
                        function_call
                            .function_id("my_function")
                            .parameter(|value| value.value_literal(true.into()))
                            .parameter(|param| {
                                param.function_call(|function_call| {
                                    function_call
                                        .function_id("second_function")
                                        .parameter(|param| param.value_literal(true.into()))
                                        .build()
                                })
                            })
                            .build()
                    })
                })
        })
    });

    assert!(matches!(result, Ok(ast_builder) if ast_builder == expected));
}

/// boolean my_var = my_function(true, false, true);
#[test]
fn variable_declaration_assign_function_call_with_three_parameters() {
    let tokens = vec![
        Token::TypeKeyword(Type::Boolean),
        Token::Identifier("my_var".to_owned()),
        Token::AssignmentOperator,
        Token::Identifier("my_function".to_owned()),
        Token::LeftParenthesis,
        Token::TrueKeyword,
        Token::Comma,
        Token::FalseKeyword,
        Token::Comma,
        Token::TrueKeyword,
        Token::RightParenthesis,
        Token::SemiColon,
    ];

    let result = AstBuilder::from_token_stream(tokens);

    let expected = AstBuilder::default().statement(|statement| {
        statement.var_declaration(|var_decl| {
            var_decl
                .name("my_var")
                .declare_type(Type::Boolean)
                .with_assignment(|value| {
                    value.function_call(|function_call| {
                        function_call
                            .function_id("my_function")
                            .parameter(|value| value.value_literal(true.into()))
                            .parameter(|value| value.value_literal(false.into()))
                            .parameter(|value| value.value_literal(true.into()))
                            .build()
                    })
                })
        })
    });

    assert!(matches!(result, Ok(ast_builder) if ast_builder == expected));
}

/// boolean my_var = my_function(true false true);
#[test]
fn function_call_requires_comma_between_params() {
    let tokens = vec![
        Token::TypeKeyword(Type::Boolean),
        Token::Identifier("my_var".to_owned()),
        Token::AssignmentOperator,
        Token::Identifier("my_function".to_owned()),
        Token::LeftParenthesis,
        Token::TrueKeyword,
        Token::FalseKeyword,
        Token::TrueKeyword,
        Token::RightParenthesis,
        Token::SemiColon,
    ];

    let result = AstBuilder::from_token_stream(tokens);

    assert!(matches!(result, Err(_)));
}

/// infer my_var = my_function(,);
#[test]
fn function_call_fails_when_no_expression() {
    let tokens = vec![
        Token::InferKeyword,
        Token::Identifier("my_var".to_owned()),
        Token::AssignmentOperator,
        Token::Identifier("my_function".to_owned()),
        Token::LeftParenthesis,
        Token::Comma,
        Token::RightParenthesis,
        Token::SemiColon,
    ];

    let result = AstBuilder::from_token_stream(tokens);

    assert!(matches!(result, Err(_)));
}

/// infer my_var = my_function(10+12);
#[test]
fn function_call_plus_operation() {
    let tokens = vec![
        Token::InferKeyword,
        Token::Identifier("my_var".to_owned()),
        Token::AssignmentOperator,
        Token::Identifier("my_function".to_owned()),
        Token::LeftParenthesis,
        Token::UIntValue(10),
        Token::PlusOperator,
        Token::UIntValue(12),
        Token::RightParenthesis,
        Token::SemiColon,
    ];

    let result = AstBuilder::from_token_stream(tokens);

    let expected = AstBuilder::default().statement(|statement| {
        statement.var_declaration(|var_decl| {
            var_decl
                .infer_type()
                .name("my_var")
                .with_assignment(|assignment| {
                    assignment.function_call(|function_call| {
                        function_call
                            .function_id("my_function")
                            .parameter(|parameter| {
                                parameter.operation(|operation| {
                                    operation.plus(|_| 10.into(), |_| 12.into())
                                })
                            })
                            .build()
                    })
                })
        })
    });

    assert!(matches!(result, Ok(ast_builder) if ast_builder == expected));
}

/// infer my_var = my_function(!true);
#[test]
fn function_call_not_operation() {
    let tokens = vec![
        Token::InferKeyword,
        Token::Identifier("my_var".to_owned()),
        Token::AssignmentOperator,
        Token::Identifier("my_function".to_owned()),
        Token::LeftParenthesis,
        Token::NotOperator,
        Token::TrueKeyword,
        Token::RightParenthesis,
        Token::SemiColon,
    ];

    let result = AstBuilder::from_token_stream(tokens);

    let expected = AstBuilder::default().statement(|statement| {
        statement.var_declaration(|var_decl| {
            var_decl
                .infer_type()
                .name("my_var")
                .with_assignment(|assignment| {
                    assignment.function_call(|function_call| {
                        function_call
                            .function_id("my_function")
                            .parameter(|param| {
                                param.operation(|operation| operation.not(|_| true.into()))
                            })
                            .build()
                    })
                })
        })
    });

    assert!(matches!(result, Ok(ast_builder) if ast_builder == expected))
}

/// infer my_var = my_function(10>12);
#[test]
fn function_call_greater_than_operation() {
    let tokens = vec![
        Token::InferKeyword,
        Token::Identifier("my_var".to_owned()),
        Token::AssignmentOperator,
        Token::Identifier("my_function".to_owned()),
        Token::LeftParenthesis,
        Token::UIntValue(10),
        Token::RightAngle,
        Token::UIntValue(12),
        Token::RightParenthesis,
        Token::SemiColon,
    ];

    let result = AstBuilder::from_token_stream(tokens);

    let expected = AstBuilder::default().statement(|statement| {
        statement.var_declaration(|var_decl| {
            var_decl
                .infer_type()
                .name("my_var")
                .with_assignment(|assignment| {
                    assignment.function_call(|function_call| {
                        function_call
                            .function_id("my_function")
                            .parameter(|parameter| {
                                parameter.operation(|operation| {
                                    operation.greater_than(|_| 10.into(), |_| 12.into())
                                })
                            })
                            .build()
                    })
                })
        })
    });

    assert!(matches!(result, Ok(ast_builder) if ast_builder == expected));
}

/// infer my_var = 10+11+12;
#[test]
fn multiple_plus_operations() {
    let tokens = vec![
        Token::InferKeyword,
        Token::Identifier("my_var".to_owned()),
        Token::AssignmentOperator,
        Token::UIntValue(10),
        Token::PlusOperator,
        Token::UIntValue(11),
        Token::PlusOperator,
        Token::UIntValue(12),
        Token::SemiColon,
    ];

    let result = AstBuilder::from_token_stream(tokens);

    // todo: evaluate left to right
    let expected = AstBuilder::default().statement(|statement| {
        statement.var_declaration(|var_declaration| {
            var_declaration
                .infer_type()
                .name("my_var")
                .with_assignment(|value| {
                    value.operation(|operation| {
                        operation.plus(
                            |_| 10.into(),
                            |right| {
                                right.operation(|operation| {
                                    operation.plus(|_| 11.into(), |_| 12.into())
                                })
                            },
                        )
                    })
                })
        })
    });

    assert!(matches!(result, Ok(ast_builder) if ast_builder == expected));
}

#[test]
fn greater_than_function_calls() {
    let tokens = vec![
        Token::InferKeyword,
        Token::Identifier("my_var".to_owned()),
        Token::AssignmentOperator,
        Token::Identifier("function_1".to_owned()),
        Token::LeftParenthesis,
        Token::RightParenthesis,
        Token::RightAngle,
        Token::Identifier("function_2".to_owned()),
        Token::LeftParenthesis,
        Token::RightParenthesis,
        Token::SemiColon,
    ];

    let result = AstBuilder::from_token_stream(tokens);

    let expected = AstBuilder::default().statement(|statement| {
        statement.var_declaration(|var_declaration| {
            var_declaration
                .name("my_var")
                .infer_type()
                .with_assignment(|value| {
                    value.operation(|operation| {
                        operation.greater_than(
                            |left| {
                                left.function_call(|function_call| {
                                    function_call.function_id("function_1").no_parameters().build()
                                })
                            },
                            |right| right.function_call(|function_call| function_call.function_id("function_2").no_parameters().build()),
                        )
                    })
                })
        })
    });

    assert!(matches!(result, Ok(ast_builder) if ast_builder == expected));
}

// function_declaration
/// function my_function()
/// {
///     print(1);
///     return;
/// }
#[test]
fn function_declaration_no_parameters_no_return_value() {
    let tokens = vec![
        Token::FunctionKeyword,
        Token::Identifier("my_function".to_owned()),
        Token::LeftParenthesis,
        Token::RightParenthesis,
        Token::LeftCurleyBrace,
        Token::Identifier("print".to_owned()),
        Token::LeftParenthesis,
        Token::UIntValue(1),
        Token::RightParenthesis,
        Token::SemiColon,
        Token::ReturnKeyword,
        Token::SemiColon,
        Token::RightCurleyBrace,
    ];

    let result = AstBuilder::from_token_stream(tokens);

    let expected = AstBuilder::default().function_declaration(|function_declaration| {
        function_declaration
            .name("my_function")
            .parameters(Vec::new())
            .void()
            .body(|body| {
                body.statement(|statement| {
                    statement.function_call(|function_call| {
                        function_call
                            .function_id("print")
                            .parameter(|_| 1.into())
                            .build()
                    })
                })
                .statement(|statement| statement.return_void())
                .build()
            })
    });

    assert!(matches!(result, Ok(ast_builder) if ast_builder == expected));
}

/// function my_function() {}
#[test]
fn function_declaration_empty_body() {
    let tokens = vec![
        Token::FunctionKeyword,
        Token::Identifier("my_function".to_owned()),
        Token::LeftParenthesis,
        Token::RightParenthesis,
        Token::LeftCurleyBrace,
        Token::RightCurleyBrace,
    ];

    let result = AstBuilder::from_token_stream(tokens);

    let expected = AstBuilder::default().function_declaration(|function_declaration| {
        function_declaration
            .name("my_function")
            .parameters(Vec::new())
            .void()
            .body(|body| body.build())
    });

    assert!(matches!(result, Ok(ast_builder) if ast_builder == expected));
}

/// function my_function(uint param_1, boolean param_2)
/// {
///     return;
/// }
#[test]
fn function_declaration_parameters_no_return_value() {
    let tokens = vec![
        Token::FunctionKeyword,
        Token::Identifier("my_function".to_owned()),
        Token::LeftParenthesis,
        Token::TypeKeyword(Type::UInt),
        Token::Identifier("param_1".to_owned()),
        Token::Comma,
        Token::TypeKeyword(Type::Boolean),
        Token::Identifier("param_2".to_owned()),
        Token::RightParenthesis,
        Token::LeftCurleyBrace,
        Token::ReturnKeyword,
        Token::SemiColon,
        Token::RightCurleyBrace,
    ];

    let result = AstBuilder::from_token_stream(tokens);

    let expected = AstBuilder::default().function_declaration(|function_declaration| {
        function_declaration
            .name("my_function")
            .parameters(vec![
                FunctionParameter::FunctionParameter {
                    param_type: Type::UInt,
                    param_name: "param_1".to_owned(),
                },
                FunctionParameter::FunctionParameter {
                    param_type: Type::Boolean,
                    param_name: "param_2".to_owned(),
                },
            ])
            .void()
            .body(|body| body.statement(|statement| statement.return_void()).build())
    });

    assert!(matches!(result, Ok(ast_builder) if ast_builder == expected));
}

/// function my_function(uint param_1, boolean param_2) -> boolean
/// {
///     return true;
/// }
#[test]
fn function_declaration_parameters_return_value() {
    let tokens = vec![
        Token::FunctionKeyword,
        Token::Identifier("my_function".to_owned()),
        Token::LeftParenthesis,
        Token::TypeKeyword(Type::UInt),
        Token::Identifier("param_1".to_owned()),
        Token::Comma,
        Token::TypeKeyword(Type::Boolean),
        Token::Identifier("param_2".to_owned()),
        Token::RightParenthesis,
        Token::FunctionSignitureSplitter,
        Token::TypeKeyword(Type::Boolean),
        Token::LeftCurleyBrace,
        Token::ReturnKeyword,
        Token::TrueKeyword,
        Token::SemiColon,
        Token::RightCurleyBrace,
    ];

    let result = AstBuilder::from_token_stream(tokens);

    let expected = AstBuilder::default().function_declaration(|function_declaration| {
        function_declaration
            .name("my_function")
            .parameters(vec![
                FunctionParameter::FunctionParameter {
                    param_type: Type::UInt,
                    param_name: "param_1".to_owned(),
                },
                FunctionParameter::FunctionParameter {
                    param_type: Type::Boolean,
                    param_name: "param_2".to_owned(),
                },
            ])
            .return_type(Type::Boolean)
            .body(|body| {
                body.statement(|statement| statement.return_value(|_| true.into()))
                    .build()
            })
    });

    assert!(matches!(result, Ok(ast_builder) if ast_builder == expected));
}

/// function
#[test]
fn function_declaration_no_tokens() {
    let tokens = vec![Token::FunctionKeyword];

    let result = AstBuilder::from_token_stream(tokens);

    assert!(
        matches!(result, Err(e) if e.len() == 1 && e[0].message == "expected function name")
    );
}

/// function (
#[test]
fn function_declaration_invalid_function_name() {
    let tokens = vec![Token::FunctionKeyword, Token::LeftParenthesis];

    let result = AstBuilder::from_token_stream(tokens);

    assert!(
        matches!(result, Err(e) if e.len() == 1 && e[0].message == "expected function name. found LeftParenthesis")
    )
}

/// function my_function
#[test]
fn function_declaration_missing_left_parenthesis() {
    let tokens = vec![
        Token::FunctionKeyword,
        Token::Identifier("my_function".to_owned()),
        Token::RightParenthesis,
    ];

    let result = AstBuilder::from_token_stream(tokens);

    assert!(
        matches!(result, Err(e) if e.len() == 1 && e[0].message == "Expected LeftParenthesis, found RightParenthesis")
    );
}

/// function my_function
#[test]
fn function_declaration_missing_left_parenthesis_no_tokens() {
    let tokens = vec![
        Token::FunctionKeyword,
        Token::Identifier("my_function".to_owned()),
    ];

    let result = AstBuilder::from_token_stream(tokens);

    assert!(
        matches!(result, Err(e) if e.len() == 1 && e[0].message == "Expected LeftParenthesis")
    );
}

/// function my_function(my_param
#[test]
fn function_declaration_missing_type() {
    let tokens = vec![
        Token::FunctionKeyword,
        Token::Identifier("my_function".to_owned()),
        Token::LeftParenthesis,
        Token::Identifier("my_param".to_owned()),
    ];

    let result = AstBuilder::from_token_stream(tokens);

    assert!(
        matches!(result, Err(e) if e.len() == 1 && e[0].message == "expected type, ',', or )")
    );
}

/// function my_function(boolean)
#[test]
fn function_declaration_missing_param_name() {
    let tokens = vec![
        Token::FunctionKeyword,
        Token::Identifier("my_function".to_owned()),
        Token::LeftParenthesis,
        Token::TypeKeyword(Type::Boolean),
        Token::RightParenthesis,
    ];

    let result = AstBuilder::from_token_stream(tokens);

    assert!(
        matches!(result, Err(e) if e.len() == 1 && e[0].message == "expected parameter name")
    );
}

/// function my_function(boolean
#[test]
fn function_declaration_missing_param_name_no_tokens() {
    let tokens = vec![
        Token::FunctionKeyword,
        Token::Identifier("my_function".to_owned()),
        Token::LeftParenthesis,
        Token::TypeKeyword(Type::Boolean),
    ];

    let result = AstBuilder::from_token_stream(tokens);

    assert!(
        matches!(result, Err(e) if e.len() == 1 && e[0].message == "expected parameter name")
    );
}

/// function my_function(boolean my_param boolean other_param)
#[test]
fn function_declaration_missing_comma() {
    let tokens = vec![
        Token::FunctionKeyword,
        Token::Identifier("my_function".to_owned()),
        Token::LeftParenthesis,
        Token::TypeKeyword(Type::Boolean),
        Token::Identifier("my_param".to_owned()),
        Token::TypeKeyword(Type::Boolean),
        Token::Identifier("other_param".to_owned()),
        Token::RightParenthesis,
    ];

    let result = AstBuilder::from_token_stream(tokens);

    assert!(matches!(result, Err(e) if e.len() >= 1 && e[0].message == "expected , or )"));
}

/// function my_function( {
#[test]
fn function_declaration_missing_right_parenthesis() {
    let tokens = vec![
        Token::FunctionKeyword,
        Token::Identifier("my_function".to_owned()),
        Token::LeftParenthesis,
        Token::LeftCurleyBrace,
    ];

    let result = AstBuilder::from_token_stream(tokens);

    assert!(
        matches!(result, Err(e) if e.len() == 1 && e[0].message == "expected type, ',', or )")
    );
}

/// function my_function(
#[test]
fn function_declaration_missing_right_parenthesis_no_tokens() {
    let tokens = vec![
        Token::FunctionKeyword,
        Token::Identifier("my_function".to_owned()),
        Token::LeftParenthesis,
    ];

    let result = AstBuilder::from_token_stream(tokens);

    assert!(matches!(result, Err(e) if e.len() == 1 && e[0].message == "expected type or )"));
}

/// function my_function() infer
#[test]
fn function_declaration_missing_left_curley_brace() {
    let tokens = vec![
        Token::FunctionKeyword,
        Token::Identifier("my_function".to_owned()),
        Token::LeftParenthesis,
        Token::RightParenthesis,
        Token::InferKeyword,
    ];

    let result = AstBuilder::from_token_stream(tokens);

    assert!(matches!(result, Err(e) if e.len() == 1 && e[0].message == "Expected -> or {"));
}

/// function my_function()
#[test]
fn function_declaration_missing_left_curley_brace_no_tokens() {
    let tokens = vec![
        Token::FunctionKeyword,
        Token::Identifier("my_function".to_owned()),
        Token::LeftParenthesis,
        Token::RightParenthesis,
    ];

    let result = AstBuilder::from_token_stream(tokens);

    assert!(matches!(result, Err(e) if e.len() == 1 && e[0].message == "Expected -> or {"));
}

/// function my_function () { return;
/// function
#[test]
fn function_declaration_missing_right_curley_brace() {
    let tokens = vec![
        Token::FunctionKeyword,
        Token::Identifier("my_function".to_owned()),
        Token::LeftParenthesis,
        Token::RightParenthesis,
        Token::LeftCurleyBrace,
        Token::ReturnKeyword,
        Token::SemiColon,
        Token::FunctionKeyword,
    ];

    let result = AstBuilder::from_token_stream(tokens);

    assert!(matches!(result, Err(e) if e.len() == 1 && e[0].message == "Expected }"));
}

/// function my_function() -> {
#[test]
fn function_declaration_missing_return_type() {
    let tokens = vec![
        Token::FunctionKeyword,
        Token::Identifier("my_function".to_owned()),
        Token::LeftParenthesis,
        Token::RightParenthesis,
        Token::FunctionSignitureSplitter,
        Token::LeftCurleyBrace,
    ];

    let result = AstBuilder::from_token_stream(tokens);

    assert!(matches!(result, Err(e) if e.len() == 1 && e[0].message == "Expected return type"));
}

/// function my_function() ->
#[test]
fn function_declaration_missing_return_type_no_tokens() {
    let tokens = vec![
        Token::FunctionKeyword,
        Token::Identifier("my_function".to_owned()),
        Token::LeftParenthesis,
        Token::RightParenthesis,
        Token::FunctionSignitureSplitter,
    ];

    let result = AstBuilder::from_token_stream(tokens);

    assert!(matches!(result, Err(e) if e.len() == 1 && e[0].message == "Expected return type"));
}

// if_statement
/// if (true) { infer a = false; }
#[test]
fn if_statement_if_statement() {
    let tokens = vec![
        Token::IfKeyword,
        Token::LeftParenthesis,
        Token::TrueKeyword,
        Token::RightParenthesis,
        Token::LeftCurleyBrace,
        Token::InferKeyword,
        Token::Identifier("a".to_owned()),
        Token::AssignmentOperator,
        Token::FalseKeyword,
        Token::SemiColon,
        Token::RightCurleyBrace,
    ];

    let result = AstBuilder::from_token_stream(tokens);

    let expected = AstBuilder::default().statement(|statement| {
        statement.if_statement(|if_statement| {
            if_statement
                .check_expression(|_| true.into())
                .body(|body| {
                    body.statement(|statement| {
                        statement.var_declaration(|var_declaration| {
                            var_declaration
                                .infer_type()
                                .name("a")
                                .with_assignment(|_| false.into())
                        })
                    })
                    .build()
                })
                .build()
        })
    });

    assert!(matches!(result, Ok(ast_builder) if ast_builder == expected));
}

/// if (true) { infer a = false; } else { infer b = true; }
#[test]
fn if_else_statement() {
    let tokens = vec![
        Token::IfKeyword,
        Token::LeftParenthesis,
        Token::TrueKeyword,
        Token::RightParenthesis,
        Token::LeftCurleyBrace,
        Token::InferKeyword,
        Token::Identifier("a".to_owned()),
        Token::AssignmentOperator,
        Token::FalseKeyword,
        Token::SemiColon,
        Token::RightCurleyBrace,
        Token::ElseKeyword,
        Token::LeftCurleyBrace,
        Token::InferKeyword,
        Token::Identifier("b".to_owned()),
        Token::AssignmentOperator,
        Token::TrueKeyword,
        Token::SemiColon,
        Token::RightCurleyBrace,
    ];

    let result = AstBuilder::from_token_stream(tokens);

    let expected = AstBuilder::default().statement(|statement| {
        statement.if_statement(|if_statement| {
            if_statement
                .check_expression(|_| true.into())
                .body(|body| {
                    body.statement(|statement| {
                        statement.var_declaration(|var_declaration| {
                            var_declaration
                                .infer_type()
                                .name("a")
                                .with_assignment(|_| false.into())
                        })
                    })
                    .build()
                })
                .else_block(|body| {
                    body.statement(|statement| {
                        statement.var_declaration(|var_declaration| {
                            var_declaration
                                .infer_type()
                                .name("b")
                                .with_assignment(|_| true.into())
                        })
                    })
                    .build()
                })
                .build()
        })
    });

    assert!(matches!(result, Ok(ast_builder) if ast_builder == expected));
}

/// if (true)
/// {
///     infer a = false;
/// }
/// else if (true)
/// {
///     infer b = true;
/// }
/// else if (true)
/// {
///     infer c = true;
/// }
/// else
/// {
///     infer d = true;
/// }
#[test]
fn if_else_if_statement() {
    let tokens = vec![
        Token::IfKeyword,
        Token::LeftParenthesis,
        Token::TrueKeyword,
        Token::RightParenthesis,
        Token::LeftCurleyBrace,
        Token::InferKeyword,
        Token::Identifier("a".to_owned()),
        Token::AssignmentOperator,
        Token::FalseKeyword,
        Token::SemiColon,
        Token::RightCurleyBrace,
        Token::ElseKeyword,
        Token::IfKeyword,
        Token::LeftParenthesis,
        Token::TrueKeyword,
        Token::RightParenthesis,
        Token::LeftCurleyBrace,
        Token::InferKeyword,
        Token::Identifier("b".to_owned()),
        Token::AssignmentOperator,
        Token::TrueKeyword,
        Token::SemiColon,
        Token::RightCurleyBrace,
        Token::ElseKeyword,
        Token::IfKeyword,
        Token::LeftParenthesis,
        Token::TrueKeyword,
        Token::RightParenthesis,
        Token::LeftCurleyBrace,
        Token::InferKeyword,
        Token::Identifier("c".to_owned()),
        Token::AssignmentOperator,
        Token::TrueKeyword,
        Token::SemiColon,
        Token::RightCurleyBrace,
        Token::ElseKeyword,
        Token::LeftCurleyBrace,
        Token::InferKeyword,
        Token::Identifier("d".to_owned()),
        Token::AssignmentOperator,
        Token::TrueKeyword,
        Token::SemiColon,
        Token::RightCurleyBrace,
    ];

    let result = AstBuilder::from_token_stream(tokens);

    let expected = AstBuilder::default().statement(|statement| {
        statement.if_statement(|if_statement| {
            if_statement
                .check_expression(|_| true.into())
                .body(|body| {
                    body.statement(|statement| {
                        statement.var_declaration(|var_declaration| {
                            var_declaration
                                .infer_type()
                                .name("a")
                                .with_assignment(|_| false.into())
                        })
                    })
                    .build()
                })
                .else_if(
                    |_| true.into(),
                    |body| {
                        body.statement(|statement| {
                            statement.var_declaration(|var_declaration| {
                                var_declaration
                                    .infer_type()
                                    .name("b")
                                    .with_assignment(|_| true.into())
                            })
                        })
                        .build()
                    },
                )
                .else_if(
                    |_| true.into(),
                    |body| {
                        body.statement(|statement| {
                            statement.var_declaration(|var_declaration| {
                                var_declaration
                                    .infer_type()
                                    .name("c")
                                    .with_assignment(|_| true.into())
                            })
                        })
                        .build()
                    },
                )
                .else_block(|body| {
                    body.statement(|statement| {
                        statement.var_declaration(|var_declaration| {
                            var_declaration
                                .infer_type()
                                .name("d")
                                .with_assignment(|_| true.into())
                        })
                    })
                    .build()
                })
                .build()
        })
    });

    assert!(matches!(result, Ok(ast_builder) if ast_builder == expected));
}

/// if (true)
/// {
///     my_function();
///     if (true)
///     {
///         my_function();
///     }
///     my_function();
/// }
#[test]
fn nested_if_statement() {
    let tokens = vec![
        Token::IfKeyword,
        Token::LeftParenthesis,
        Token::TrueKeyword,
        Token::RightParenthesis,
        Token::LeftCurleyBrace,
        Token::Identifier("my_function".to_owned()),
        Token::LeftParenthesis,
        Token::RightParenthesis,
        Token::SemiColon,
        Token::IfKeyword,
        Token::LeftParenthesis,
        Token::TrueKeyword,
        Token::RightParenthesis,
        Token::LeftCurleyBrace,
        Token::Identifier("my_function".to_owned()),
        Token::LeftParenthesis,
        Token::RightParenthesis,
        Token::SemiColon,
        Token::RightCurleyBrace,
        Token::Identifier("my_function".to_owned()),
        Token::LeftParenthesis,
        Token::RightParenthesis,
        Token::SemiColon,
        Token::RightCurleyBrace,
    ];

    let result = AstBuilder::from_token_stream(tokens);

    let function_call_builder = |function_call: FunctionCallBuilder| {
        function_call
            .function_id("my_function")
            .no_parameters()
            .build()
    };
    let expected = AstBuilder::default().statement(|statement| {
        statement.if_statement(|if_statement| {
            if_statement
                .check_expression(|_| true.into())
                .body(|body| {
                    body.statement(|statement| {
                        statement.function_call(function_call_builder.clone())
                    })
                    .statement(|statement| {
                        statement.if_statement(|if_statement| {
                            if_statement
                                .check_expression(|_| true.into())
                                .body(|body| {
                                    body.statement(|statement| {
                                        statement.function_call(function_call_builder.clone())
                                    })
                                    .build()
                                })
                                .build()
                        })
                    })
                    .statement(|statement| {
                        statement.function_call(function_call_builder.clone())
                    })
                    .build()
                })
                .build()
        })
    });

    assert!(matches!(result, Ok(ast_builder) if ast_builder == expected));
}

/// if (value_a > value_b) {}
#[test]
fn if_statement_with_greater_than_operator() {
    let tokens = vec![
        Token::IfKeyword,
        Token::LeftParenthesis,
        Token::Identifier("value_a".to_owned()),
        Token::RightAngle,
        Token::Identifier("value_b".to_owned()),
        Token::RightParenthesis,
        Token::LeftCurleyBrace,
        Token::RightCurleyBrace,
    ];

    let result = AstBuilder::from_token_stream(tokens);

    let expected = AstBuilder::default().statement(|statement| {
        statement.if_statement(|if_statement| {
            if_statement
                .check_expression(|expression| {
                    expression.operation(|operation| {
                        operation.greater_than(
                            |left| left.variable("value_a"),
                            |right| right.variable("value_b"),
                        )
                    })
                })
                .body(|body| body.build())
                .build()
        })
    });

    assert!(matches!(result, Ok(ast_builder) if ast_builder == expected));
}

// statement
/// return;
#[test]
fn return_statement() {
    let tokens = vec![Token::ReturnKeyword, Token::SemiColon];

    let result = AstBuilder::from_token_stream(tokens);

    let expected = AstBuilder::default().statement(|statement| statement.return_void());

    assert!(matches!(result, Ok(ast_builder) if ast_builder == expected));
}

/// return 1 + 2;
#[test]
fn return_statement_value() {
    let tokens = vec![
        Token::ReturnKeyword,
        Token::UIntValue(1),
        Token::PlusOperator,
        Token::UIntValue(2),
        Token::SemiColon,
    ];

    let result = AstBuilder::from_token_stream(tokens);

    let expected = AstBuilder::default().statement(|statement| {
        statement.return_value(|value| {
            value.operation(|operation| operation.plus(|_| 1.into(), |_| 2.into()))
        })
    });

    assert!(matches!(result, Ok(ast_builder) if ast_builder == expected));
}

/// print(my_function(true));
#[test]
fn function_call_statement() {
    let tokens = vec![
        Token::Identifier("print".to_owned()),
        Token::LeftParenthesis,
        Token::Identifier("my_function".to_owned()),
        Token::LeftParenthesis,
        Token::TrueKeyword,
        Token::RightParenthesis,
        Token::RightParenthesis,
        Token::SemiColon,
    ];

    let result = AstBuilder::from_token_stream(tokens);

    let expected = AstBuilder::default().statement(|statement| {
        statement.function_call(|function_call| {
            function_call
                .function_id("print")
                .parameter(|param| {
                    param.function_call(|function_call| {
                        function_call
                            .function_id("my_function")
                            .parameter(|_| true.into())
                            .build()
                    })
                })
                .build()
        })
    });

    assert!(matches!(result, Ok(ast_builder) if ast_builder == expected));
}

#[test]
fn statement_missing_semicolon() {
    let tokens = vec![Token::InferKeyword];

    let result = AstBuilder::from_token_stream(tokens);

    assert!(matches!(result, Err(e) if e.len() == 1 && e[0].message == "expected ;"))
}

#[test]
fn statement_function_call_expected_semicolon() {
    let tokens = vec![
        Token::Identifier("my_function".to_owned()),
        Token::LeftParenthesis,
        Token::RightParenthesis,
        Token::TrueKeyword,
        Token::SemiColon,
    ];

    let result = AstBuilder::from_token_stream(tokens);

    assert!(
        matches!(result, Err(e) if e.len() >= 1 && e[0].message == "Expected SemiColon, found TrueKeyword")
    )
}

#[test]
fn statement_return_expected_semicolon() {
    let tokens = vec![
        Token::ReturnKeyword,
        Token::TrueKeyword,
        Token::LeftParenthesis,
        Token::SemiColon,
    ];

    let result = AstBuilder::from_token_stream(tokens);

    assert!(
        matches!(result, Err(e) if e.len() >= 1 && e[0].message == "Expected SemiColon, found LeftParenthesis")
    );
}

#[test]
fn statement_return_missing_semicolon() {
    let tokens = vec![Token::ReturnKeyword];


    let result = AstBuilder::from_token_stream(tokens);

    assert!(
        matches!(result, Err(e) if e.len() >= 1 && e[0].message == "expected ;")
    );
}

// token
/// function my_function(boolean param_1, uint param_2) -> uint
/// {
///     print(param_1);
///     print(param_2);
///     return 1;
/// }
/// my_function(true, 10);
#[test]
fn function_declaration_and_statements() {
    let tokens = vec![
        Token::FunctionKeyword,
        Token::Identifier("my_function".to_owned()),
        Token::LeftParenthesis,
        Token::TypeKeyword(Type::Boolean),
        Token::Identifier("param_1".to_owned()),
        Token::Comma,
        Token::TypeKeyword(Type::UInt),
        Token::Identifier("param_2".to_owned()),
        Token::RightParenthesis,
        Token::FunctionSignitureSplitter,
        Token::TypeKeyword(Type::UInt),
        Token::LeftCurleyBrace,
        Token::Identifier("print".to_owned()),
        Token::LeftParenthesis,
        Token::Identifier("param_1".to_owned()),
        Token::RightParenthesis,
        Token::SemiColon,
        Token::Identifier("print".to_owned()),
        Token::LeftParenthesis,
        Token::Identifier("param_2".to_owned()),
        Token::RightParenthesis,
        Token::SemiColon,
        Token::ReturnKeyword,
        Token::UIntValue(1),
        Token::SemiColon,
        Token::RightCurleyBrace,
        Token::Identifier("my_function".to_owned()),
        Token::LeftParenthesis,
        Token::TrueKeyword,
        Token::Comma,
        Token::UIntValue(10),
        Token::RightParenthesis,
        Token::SemiColon,
    ];

    let result = AstBuilder::from_token_stream(tokens);

    let expected = AstBuilder::default()
        .function_declaration(|function_declaration| {
            function_declaration
                .name("my_function")
                .parameters(vec![
                    FunctionParameter::FunctionParameter {
                        param_type: Type::Boolean,
                        param_name: "param_1".to_owned(),
                    },
                    FunctionParameter::FunctionParameter {
                        param_type: Type::UInt,
                        param_name: "param_2".to_owned(),
                    },
                ])
                .return_type(Type::UInt)
                .body(|body| {
                    body.statement(|statement| {
                        statement.function_call(|function_call| {
                            function_call
                                .function_id("print")
                                .parameter(|param| param.variable("param_1"))
                                .build()
                        })
                    })
                    .statement(|statement| {
                        statement.function_call(|function_call| {
                            function_call
                                .function_id("print")
                                .parameter(|param| param.variable("param_2"))
                                .build()
                        })
                    })
                    .statement(|statement| statement.return_value(|_| 1.into()))
                    .build()
                })
        })
        .statement(|statement| {
            statement.function_call(|function_call| {
                function_call
                    .function_id("my_function")
                    .parameter(|_| true.into())
                    .parameter(|_| 10.into())
                    .build()
            })
        });

    assert!(matches!(result, Ok(ast_builder) if ast_builder == expected));
}

/// function fibonnacci(uint lower, uint higher, uint limit) -> uint
/// {
///     infer next = lower + higher;
///     if (next > limit)
///     {
///         return next;
///     }
///
///     print(next);
///
///     fibonnacci(higher, next, limit);
/// }
///
/// print(0);
/// print(1);
/// fibonnacci(0, 1, 10000);
#[test]
fn fibonacci() {
    let fibonacci_name = "fibonacci".to_owned();
    let lower_name = "lower".to_owned();
    let higher_name = "higher".to_owned();
    let limit_name = "limit".to_owned();
    let next_name = "next".to_owned();
    let tokens = vec![
        // function fibonacci(uint lower, uint higher, uint limit) -> uint {
        Token::FunctionKeyword,
        Token::Identifier(fibonacci_name.clone()),
        Token::LeftParenthesis,
        Token::TypeKeyword(Type::UInt),
        Token::Identifier(lower_name.clone()),
        Token::Comma,
        Token::TypeKeyword(Type::UInt),
        Token::Identifier(higher_name.clone()),
        Token::Comma,
        Token::TypeKeyword(Type::UInt),
        Token::Identifier(limit_name.clone()),
        Token::RightParenthesis,
        Token::FunctionSignitureSplitter,
        Token::TypeKeyword(Type::UInt),
        Token::LeftCurleyBrace,
        // infer next = lower + higher;
        Token::InferKeyword,
        Token::Identifier(next_name.clone()),
        Token::AssignmentOperator,
        Token::Identifier(lower_name.clone()),
        Token::PlusOperator,
        Token::Identifier(higher_name.clone()),
        Token::SemiColon,
        // if (next > limit) { return next; }
        Token::IfKeyword,
        Token::LeftParenthesis,
        Token::Identifier(next_name.clone()),
        Token::RightAngle,
        Token::Identifier(limit_name.clone()),
        Token::RightParenthesis,
        Token::LeftCurleyBrace,
        Token::ReturnKeyword,
        Token::Identifier(next_name.clone()),
        Token::SemiColon,
        Token::RightCurleyBrace,
        // print(next);
        Token::Identifier("print".to_owned()),
        Token::LeftParenthesis,
        Token::Identifier(next_name.to_owned()),
        Token::RightParenthesis,
        Token::SemiColon,
        // fibonacci(higher, next, limit);
        Token::Identifier(fibonacci_name.clone()),
        Token::LeftParenthesis,
        Token::Identifier(higher_name.clone()),
        Token::Comma,
        Token::Identifier(next_name.clone()),
        Token::Comma,
        Token::Identifier(limit_name.clone()),
        Token::RightParenthesis,
        Token::SemiColon,
        // }
        Token::RightCurleyBrace,
        // print(0);
        Token::Identifier("print".to_owned()),
        Token::LeftParenthesis,
        Token::UIntValue(0),
        Token::RightParenthesis,
        Token::SemiColon,
        // print(1);
        Token::Identifier("print".to_owned()),
        Token::LeftParenthesis,
        Token::UIntValue(1),
        Token::RightParenthesis,
        Token::SemiColon,
        // fibonacci(0, 1, 10000);
        Token::Identifier(fibonacci_name.clone()),
        Token::LeftParenthesis,
        Token::UIntValue(0),
        Token::Comma,
        Token::UIntValue(1),
        Token::Comma,
        Token::UIntValue(10000),
        Token::RightParenthesis,
        Token::SemiColon,
    ];

    let result = AstBuilder::from_token_stream(tokens);

    let expected = AstBuilder::default()
        .function_declaration(|function_declaration| {
            function_declaration
                .name("fibonacci")
                .parameters(vec![
                    FunctionParameter::FunctionParameter {
                        param_type: Type::UInt,
                        param_name: "lower".to_owned(),
                    },
                    FunctionParameter::FunctionParameter {
                        param_type: Type::UInt,
                        param_name: "higher".to_owned(),
                    },
                    FunctionParameter::FunctionParameter {
                        param_type: Type::UInt,
                        param_name: "limit".to_owned(),
                    },
                ])
                .return_type(Type::UInt)
                .body(|body| {
                    body.statement(|statement| {
                        statement.var_declaration(|var_declaration| {
                            var_declaration
                                .infer_type()
                                .name("next")
                                .with_assignment(|value| {
                                    value.operation(|operation| {
                                        operation.plus(
                                            |left| left.variable("lower"),
                                            |right| right.variable("higher"),
                                        )
                                    })
                                })
                        })
                    })
                    .statement(|statement| {
                        statement.if_statement(|if_statement| {
                            if_statement
                                .check_expression(|check| {
                                    check.operation(|operation| {
                                        operation.greater_than(
                                            |left| left.variable("next"),
                                            |right| right.variable("limit"),
                                        )
                                    })
                                })
                                .body(|if_body| {
                                    if_body
                                        .statement(|statement| statement.return_value(|value| value.variable("next")))
                                        .build()
                                })
                                .build()
                        })
                    })
                    .statement(|statement| {
                        statement.function_call(|function_call| {
                            function_call
                                .function_id("print")
                                .parameter(|param| param.variable("next"))
                                .build()
                        })
                    })
                    .statement(|statement| {
                        statement.function_call(|function_call| {
                            function_call
                                .function_id("fibonacci")
                                .parameter(|param| param.variable("higher"))
                                .parameter(|param| param.variable("next"))
                                .parameter(|param| param.variable("limit"))
                                .build()
                        })
                    })
                    .build()
                })
        })
        .statement(|statement| {
            statement.function_call(|function_call| {
                function_call
                    .function_id("print")
                    .parameter(|param| param.value_literal(0.into()))
                    .build()
            })
        })
        .statement(|statement| {
            statement.function_call(|function_call| {
                function_call
                    .function_id("print")
                    .parameter(|param| param.value_literal(1.into()))
                    .build()
            })
        })
        .statement(|statement| {
            statement.function_call(|function_call| {
                function_call
                    .function_id("fibonacci")
                    .parameter(|param| param.value_literal(0.into()))
                    .parameter(|param| param.value_literal(1.into()))
                    .parameter(|param| param.value_literal(10000.into()))
                    .build()
            })
        });

    assert!(matches!(result, Ok(ast_builder) if ast_builder == expected));
}

// variable_declaration
/// infer my_var = true;
#[test]
fn infer_boolean_variable_declaration_from_token_stream() {
    let tokens = vec![
        Token::InferKeyword,
        Token::Identifier("my_var".to_owned()),
        Token::AssignmentOperator,
        Token::TrueKeyword,
        Token::SemiColon,
    ];

    let result = AstBuilder::from_token_stream(tokens);

    let expected = AstBuilder::default().statement(|statement| {
        statement.var_declaration(|var_decl| {
            var_decl
                .infer_type()
                .name("my_var")
                .with_assignment(|_| true.into())
        })
    });

    assert!(matches!(result, Ok(ast_builder) if ast_builder == expected));
}

/// boolean my_var = my_other_var;
#[test]
fn type_decl_variable_declaration_assign_variable_name() {
    let tokens = vec![
        Token::TypeKeyword(Type::Boolean),
        Token::Identifier("my_var".to_owned()),
        Token::AssignmentOperator,
        Token::Identifier("my_other_var".to_owned()),
        Token::SemiColon,
    ];

    let result = AstBuilder::from_token_stream(tokens);

    let expected = AstBuilder::default().statement(|statement| {
        statement.var_declaration(|var_decl| {
            var_decl
                .name("my_var")
                .declare_type(Type::Boolean)
                .with_assignment(|value| value.variable("my_other_var"))
        })
    });

    assert!(matches!(result, Ok(ast_builder) if ast_builder == expected));
}

#[test]
fn var_declaration_greater_than_operatior_with_variable_name() {
    let tokens = vec![
        Token::InferKeyword,
        Token::Identifier("my_var".to_owned()),
        Token::AssignmentOperator,
        Token::Identifier("other_var".to_owned()), // breaks with identifier
        Token::RightAngle,
        Token::UIntValue(11),
        Token::SemiColon,
    ];

    let result = AstBuilder::from_token_stream(tokens);

    let expected = AstBuilder::default().statement(|statement| {
        statement.var_declaration(|var_decl| {
            var_decl
                .infer_type()
                .name("my_var")
                .with_assignment(|assignment| {
                    assignment.operation(|operation| {
                        operation.greater_than(
                            |expression| expression.variable("other_var"),
                            |_| 11.into(),
                        )
                    })
                })
        })
    });

    assert!(matches!(result, Ok(ast_builder) if ast_builder == expected));
}

#[test]
fn var_declaration_greater_than_with_function_call() {
    let tokens = vec![
        Token::InferKeyword,
        Token::Identifier("my_var".to_owned()),
        Token::AssignmentOperator,
        Token::Identifier("my_function".to_owned()),
        Token::LeftParenthesis,
        Token::RightParenthesis,
        Token::RightAngle,
        Token::UIntValue(10),
        Token::SemiColon,
    ];

    let result = AstBuilder::from_token_stream(tokens);

    let expected = AstBuilder::default().statement(|statement| {
        statement.var_declaration(|var_declaration| {
            var_declaration
                .infer_type()
                .name("my_var")
                .with_assignment(|value| {
                    value.operation(|operation| {
                        operation.greater_than(
                            |left| {
                                left.function_call(|function_call| {
                                    function_call
                                        .function_id("my_function")
                                        .no_parameters()
                                        .build()
                                })
                            },
                            |_| 10.into(),
                        )
                    })
                })
        })
    });

    assert!(matches!(result, Ok(ast_builder) if ast_builder == expected));
}
