use beach::ast::node::Type;
use beach::parsing::{parse_program, ParseError};
use beach::token_stream::token::{Token, TokenSource};

const FILENAME: &str = "my_file";

fn get_range(prev_character: &mut Option<u32>, word: &str, space: bool) -> TokenSource {
    let start_char = if let Some(prev_character) = prev_character {
        *prev_character + if space { 2 } else { 1 }
    } else {
        1
    };

    let end_char = start_char + (word.len() as u32) - 1;
    *prev_character = Some(end_char);

    TokenSource::new(FILENAME, 1, start_char..(end_char))
}

fn get_range_with_line(
    prev_character: &mut Option<u32>,
    prev_line: &mut Option<u32>,
    word: &str,
    increase_lines: u32,
    space: bool,
) -> TokenSource {
    let start_line = if let Some(prev_line) = prev_line {
        *prev_line
    } else {
        1
    };

    let start_char = if let Some(prev_character) = prev_character {
        if increase_lines > 0 {
            1
        } else {
            *prev_character + if space { 2 } else { 1 }
        }
    } else {
        1
    };

    let end_line = start_line + increase_lines;
    *prev_line = Some(end_line);

    let end_char = start_char + (word.len() as u32) - 1;
    *prev_character = Some(end_char);

    TokenSource::new(FILENAME, end_line, start_char..end_char)
}

#[test]
fn parse_keywords() {
    let code = "uint boolean true false function infer if else return";
    let result = parse_program(code);

    let mut prev_character = None;

    assert_eq!(
        result,
        Ok(vec![
            (
                Token::TypeKeyword(Type::UInt),
                get_range(&mut prev_character, "uint", true)
            ),
            (
                Token::TypeKeyword(Type::Boolean),
                get_range(&mut prev_character, "boolean", true)
            ),
            (
                Token::TrueKeyword,
                get_range(&mut prev_character, "true", true)
            ),
            (
                Token::FalseKeyword,
                get_range(&mut prev_character, "false", true)
            ),
            (
                Token::FunctionKeyword,
                get_range(&mut prev_character, "function", true)
            ),
            (
                Token::InferKeyword,
                get_range(&mut prev_character, "infer", true)
            ),
            (Token::IfKeyword, get_range(&mut prev_character, "if", true)),
            (
                Token::ElseKeyword,
                get_range(&mut prev_character, "else", true)
            ),
            (
                Token::ReturnKeyword,
                get_range(&mut prev_character, "return", true)
            )
        ])
    );
}

#[test]
fn parse_special_tokens() {
    let code = "(){}+>!=;,";
    let result = parse_program(code);

    let mut prev_character = None;

    assert_eq!(
        result,
        Ok(vec![
            (
                Token::LeftParenthesis,
                get_range(&mut prev_character, "(", false)
            ),
            (
                Token::RightParenthesis,
                get_range(&mut prev_character, ")", false)
            ),
            (
                Token::LeftCurleyBrace,
                get_range(&mut prev_character, "{", false)
            ),
            (
                Token::RightCurleyBrace,
                get_range(&mut prev_character, "}", false)
            ),
            (
                Token::PlusOperator,
                get_range(&mut prev_character, "+", false)
            ),
            (
                Token::RightAngle,
                get_range(&mut prev_character, ">", false)
            ),
            (
                Token::NotOperator,
                get_range(&mut prev_character, "!", false)
            ),
            (
                Token::AssignmentOperator,
                get_range(&mut prev_character, "=", false)
            ),
            (Token::SemiColon, get_range(&mut prev_character, ";", false)),
            (Token::Comma, get_range(&mut prev_character, ",", false)),
        ])
    );
}

#[test]
fn parse_identifier() {
    let code = "uint myIdentifier0";
    let result = parse_program(code);

    let mut prev_character = None;

    assert_eq!(
        result,
        Ok(vec![
            (
                Token::TypeKeyword(Type::UInt),
                get_range(&mut prev_character, "uint", false)
            ),
            (
                Token::Identifier("myIdentifier0".to_owned()),
                get_range(&mut prev_character, "myIdentifier0", true)
            )
        ])
    );
}

#[test]
fn parse_function_splitter() {
    let code = "hello ->";
    let result = parse_program(code);

    let mut prev_character = None;

    assert_eq!(
        result,
        Ok(vec![
            (
                Token::Identifier("hello".to_owned()),
                get_range(&mut prev_character, "hello", false)
            ),
            (
                Token::FunctionSignitureSplitter,
                get_range(&mut prev_character, "->", true)
            )
        ])
    );
}

#[test]
fn parse_function_declaration() {
    let code = "function my_function(uint param_1, boolean param_2) -> uint
{
infer my_var = other_function(15, true, false);
return my_var;
}";

    let mut prev_character = None;
    let mut prev_line = None;

    let result = parse_program(code);

    assert_eq!(
        result,
        Ok(vec![
            (
                Token::FunctionKeyword,
                get_range_with_line(&mut prev_character, &mut prev_line, "function", 0, false)
            ),
            (
                Token::Identifier("my_function".to_owned()),
                get_range_with_line(
                    &mut prev_character,
                    &mut prev_line,
                    "my_function",
                    0,
                    true
                )
            ),
            (
                Token::LeftParenthesis,
                get_range_with_line(&mut prev_character, &mut prev_line, "(", 0, false)
            ),
            (
                Token::TypeKeyword(Type::UInt),
                get_range_with_line(&mut prev_character, &mut prev_line, "uint", 0, false)
            ),
            (
                Token::Identifier("param_1".to_owned()),
                get_range_with_line(&mut prev_character, &mut prev_line, "param_1", 0, true)
            ),
            (
                Token::Comma,
                get_range_with_line(&mut prev_character, &mut prev_line, ",", 0, false)
            ),
            (
                Token::TypeKeyword(Type::Boolean),
                get_range_with_line(&mut prev_character, &mut prev_line, "boolean", 0, true)
            ),
            (
                Token::Identifier("param_2".to_owned()),
                get_range_with_line(&mut prev_character, &mut prev_line, "param_2", 0, true)
            ),
            (
                Token::RightParenthesis,
                get_range_with_line(&mut prev_character, &mut prev_line, ")", 0, false)
            ),
            (
                Token::FunctionSignitureSplitter,
                get_range_with_line(&mut prev_character, &mut prev_line, "->", 0, true)
            ),
            (
                Token::TypeKeyword(Type::UInt),
                get_range_with_line(&mut prev_character, &mut prev_line, "uint", 0, true)
            ),
            (
                Token::LeftCurleyBrace,
                get_range_with_line(&mut prev_character, &mut prev_line, "{", 1, false)
            ),
            (
                Token::InferKeyword,
                get_range_with_line(&mut prev_character, &mut prev_line, "infer", 1, false)
            ),
            (
                Token::Identifier("my_var".to_owned()),
                get_range_with_line(&mut prev_character, &mut prev_line, "my_var", 0, true)
            ),
            (
                Token::AssignmentOperator,
                get_range_with_line(&mut prev_character, &mut prev_line, "=", 0, true)
            ),
            (
                Token::Identifier("other_function".to_owned()),
                get_range_with_line(
                    &mut prev_character,
                    &mut prev_line,
                    "other_function",
                    0,
                    true
                )
            ),
            (
                Token::LeftParenthesis,
                get_range_with_line(&mut prev_character, &mut prev_line, "(", 0, false)
            ),
            (
                Token::UIntValue(15),
                get_range_with_line(&mut prev_character, &mut prev_line, "15", 0, false)
            ),
            (
                Token::Comma,
                get_range_with_line(&mut prev_character, &mut prev_line, ",", 0, false)
            ),
            (
                Token::TrueKeyword,
                get_range_with_line(&mut prev_character, &mut prev_line, "true", 0, true)
            ),
            (
                Token::Comma,
                get_range_with_line(&mut prev_character, &mut prev_line, ",", 0, false)
            ),
            (
                Token::FalseKeyword,
                get_range_with_line(&mut prev_character, &mut prev_line, "false", 0, true)
            ),
            (
                Token::RightParenthesis,
                get_range_with_line(&mut prev_character, &mut prev_line, ")", 0, false)
            ),
            (
                Token::SemiColon,
                get_range_with_line(&mut prev_character, &mut prev_line, ";", 0, false)
            ),
            (
                Token::ReturnKeyword,
                get_range_with_line(&mut prev_character, &mut prev_line, "return", 1, false)
            ),
            (
                Token::Identifier("my_var".to_owned()),
                get_range_with_line(&mut prev_character, &mut prev_line, "my_var", 0, true)
            ),
            (
                Token::SemiColon,
                get_range_with_line(&mut prev_character, &mut prev_line, ";", 0, false)
            ),
            (
                Token::RightCurleyBrace,
                get_range_with_line(&mut prev_character, &mut prev_line, "}", 1, false)
            )
        ])
    );
}

#[test]
fn parse_invalid_symbol() {
    let code = "   #";

    let result = parse_program(code);
    assert!(
        matches!(result, Err(err) if err == vec![ParseError{file: FILENAME.to_owned(), error: "Unexpected character `#`".to_owned(), line: 1, character_range: 4..4}])
    );
}

#[test]
fn parse_arrow_between_identifiers() {
    let result = parse_program("x->y");

    assert_eq!(
        result,
        Ok(vec![
            (Token::Identifier("x".to_owned()), TokenSource::new(FILENAME, 1, 1..1)),
            (Token::FunctionSignitureSplitter, TokenSource::new(FILENAME, 1, 2..3)),
            (Token::Identifier("y".to_owned()), TokenSource::new(FILENAME, 1, 4..4)),
        ])
    );
}

#[test]
fn parse_right_angle_between_identifiers() {
    let result = parse_program("a>b");

    assert_eq!(
        result,
        Ok(vec![
            (Token::Identifier("a".to_owned()), TokenSource::new(FILENAME, 1, 1..1)),
            (Token::RightAngle, TokenSource::new(FILENAME, 1, 2..2)),
            (Token::Identifier("b".to_owned()), TokenSource::new(FILENAME, 1, 3..3)),
        ])
    );
}

#[test]
fn parse_columns_count_bytes() {
    let result = parse_program("é x");

    assert_eq!(
        result,
        Ok(vec![
            (Token::Identifier("é".to_owned()), TokenSource::new(FILENAME, 1, 1..2)),
            (Token::Identifier("x".to_owned()), TokenSource::new(FILENAME, 1, 4..4)),
        ])
    );
}

#[test]
fn parse_number_too_large_is_identifier() {
    let result = parse_program("4294967295 4294967296");

    assert_eq!(
        result,
        Ok(vec![
            (Token::UIntValue(4294967295), TokenSource::new(FILENAME, 1, 1..10)),
            (Token::Identifier("4294967296".to_owned()), TokenSource::new(FILENAME, 1, 12..21)),
        ])
    );
}

#[test]
fn parse_lone_minus_is_unexpected() {
    let result = parse_program("a -");

    assert_eq!(
        result,
        Err(vec![ParseError {
            file: FILENAME.to_owned(),
            error: "Unexpected character `-`".to_owned(),
            line: 1,
            character_range: 3..3,
        }])
    );
}

#[test]
fn parse_empty_program() {
    assert_eq!(parse_program(""), Ok(Vec::new()));
    assert_eq!(parse_program("  \n\t\n"), Ok(Vec::new()));
}

#[test]
fn token_from_str_words() {
    assert_eq!(Token::from_str(" uint ", FILENAME, 1, 1..4), Ok(Some(Token::TypeKeyword(Type::UInt))));
    assert_eq!(Token::from_str("", FILENAME, 1, 1..1), Ok(None));
    assert_eq!(Token::from_str("007", FILENAME, 1, 1..3), Ok(Some(Token::UIntValue(7))));
    assert_eq!(Token::from_str("+7", FILENAME, 1, 1..2), Ok(Some(Token::UIntValue(7))));
    assert_eq!(
        Token::from_str("_", FILENAME, 1, 1..1),
        Ok(Some(Token::Identifier("_".to_owned())))
    );
    assert_eq!(
        Token::from_str("#", "other", 3, 5..5),
        Err(ParseError {
            error: "Unexpected character `#`".to_owned(),
            file: "other".to_owned(),
            line: 3,
            character_range: 5..5,
        })
    );
}
