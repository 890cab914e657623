//! Tokens, and where in the source they were found.

use std::ops::Range;

use vstd::prelude::*;

use crate::ast::node::{spec_type_name, Type};
use crate::text::{debug_quoted, decimal, spec_debug_quoted, spec_decimal};
use crate::ast::builders::ast_builder::AstBuilder;
use crate::ast::node::{nodes_view, FuncDeclV, FunctionDeclaration, Node};
use crate::token_stream::function_declaration::build_function_declaration;
use crate::token_stream::grammar::{block, expect, program, program_rest, Messages, Parse, ProgramV};
use crate::token_stream::statement::try_create_statement;

verus! {

/// A token of the language.
#[derive(Debug)]
pub enum Token {
    FunctionKeyword,
    Identifier(String),
    LeftParenthesis,
    RightParenthesis,
    FunctionSignitureSplitter,
    UIntValue(u32),
    TypeKeyword(Type),
    TrueKeyword,
    FalseKeyword,
    Comma,
    NotOperator,
    LeftCurleyBrace,
    RightCurleyBrace,
    InferKeyword,
    AssignmentOperator,
    PlusOperator,
    SemiColon,
    IfKeyword,
    ElseKeyword,
    RightAngle,
    ReturnKeyword,
}

/// The model of a token: an identifier is a character sequence.
pub enum TokenV {
    FunctionKeyword,
    Identifier(Seq<char>),
    LeftParenthesis,
    RightParenthesis,
    FunctionSignitureSplitter,
    UIntValue(u32),
    TypeKeyword(Type),
    TrueKeyword,
    FalseKeyword,
    Comma,
    NotOperator,
    LeftCurleyBrace,
    RightCurleyBrace,
    InferKeyword,
    AssignmentOperator,
    PlusOperator,
    SemiColon,
    IfKeyword,
    ElseKeyword,
    RightAngle,
    ReturnKeyword,
}

impl View for Token {
    type V = TokenV;

    open spec fn view(&self) -> TokenV {
        match self {
            Token::FunctionKeyword => TokenV::FunctionKeyword,
            Token::Identifier(s) => TokenV::Identifier(s@),
            Token::LeftParenthesis => TokenV::LeftParenthesis,
            Token::RightParenthesis => TokenV::RightParenthesis,
            Token::FunctionSignitureSplitter => TokenV::FunctionSignitureSplitter,
            Token::UIntValue(v) => TokenV::UIntValue(*v),
            Token::TypeKeyword(t) => TokenV::TypeKeyword(*t),
            Token::TrueKeyword => TokenV::TrueKeyword,
            Token::FalseKeyword => TokenV::FalseKeyword,
            Token::Comma => TokenV::Comma,
            Token::NotOperator => TokenV::NotOperator,
            Token::LeftCurleyBrace => TokenV::LeftCurleyBrace,
            Token::RightCurleyBrace => TokenV::RightCurleyBrace,
            Token::InferKeyword => TokenV::InferKeyword,
            Token::AssignmentOperator => TokenV::AssignmentOperator,
            Token::PlusOperator => TokenV::PlusOperator,
            Token::SemiColon => TokenV::SemiColon,
            Token::IfKeyword => TokenV::IfKeyword,
            Token::ElseKeyword => TokenV::ElseKeyword,
            Token::RightAngle => TokenV::RightAngle,
            Token::ReturnKeyword => TokenV::ReturnKeyword,
        }
    }
}

/// The models of a sequence of tokens.
pub open spec fn tokens_view(s: Seq<Token>) -> Seq<TokenV> {
    s.map_values(|t: Token| t@)
}

/// How a token is written in messages: its `Debug` form.
pub open spec fn token_text(t: TokenV) -> Seq<char> {
    match t {
        TokenV::FunctionKeyword => "FunctionKeyword"@,
        TokenV::Identifier(s) => "Identifier("@ + spec_debug_quoted(s) + ")"@,
        TokenV::LeftParenthesis => "LeftParenthesis"@,
        TokenV::RightParenthesis => "RightParenthesis"@,
        TokenV::FunctionSignitureSplitter => "FunctionSignitureSplitter"@,
        TokenV::UIntValue(v) => "UIntValue("@ + spec_decimal(v as nat) + ")"@,
        TokenV::TypeKeyword(t) => "TypeKeyword("@ + spec_type_name(t) + ")"@,
        TokenV::TrueKeyword => "TrueKeyword"@,
        TokenV::FalseKeyword => "FalseKeyword"@,
        TokenV::Comma => "Comma"@,
        TokenV::NotOperator => "NotOperator"@,
        TokenV::LeftCurleyBrace => "LeftCurleyBrace"@,
        TokenV::RightCurleyBrace => "RightCurleyBrace"@,
        TokenV::InferKeyword => "InferKeyword"@,
        TokenV::AssignmentOperator => "AssignmentOperator"@,
        TokenV::PlusOperator => "PlusOperator"@,
        TokenV::SemiColon => "SemiColon"@,
        TokenV::IfKeyword => "IfKeyword"@,
        TokenV::ElseKeyword => "ElseKeyword"@,
        TokenV::RightAngle => "RightAngle"@,
        TokenV::ReturnKeyword => "ReturnKeyword"@,
    }
}

impl Token {
    /// How the token is written in messages.
    pub fn text(&self) -> (s: String)
        ensures
            s@ == token_text(self@),
    {
        match self {
            Token::FunctionKeyword => "FunctionKeyword".to_owned(),
            Token::Identifier(s) => {
                let mut r = "Identifier(".to_owned();
                r.append(debug_quoted(s).as_str());
                r.append(")");
                r
            },
            Token::LeftParenthesis => "LeftParenthesis".to_owned(),
            Token::RightParenthesis => "RightParenthesis".to_owned(),
            Token::FunctionSignitureSplitter => "FunctionSignitureSplitter".to_owned(),
            Token::UIntValue(v) => {
                let mut r = "UIntValue(".to_owned();
                r.append(decimal(*v as u64).as_str());
                r.append(")");
                r
            },
            Token::TypeKeyword(t) => {
                let mut r = "TypeKeyword(".to_owned();
                r.append(t.name());
                r.append(")");
                r
            },
            Token::TrueKeyword => "TrueKeyword".to_owned(),
            Token::FalseKeyword => "FalseKeyword".to_owned(),
            Token::Comma => "Comma".to_owned(),
            Token::NotOperator => "NotOperator".to_owned(),
            Token::LeftCurleyBrace => "LeftCurleyBrace".to_owned(),
            Token::RightCurleyBrace => "RightCurleyBrace".to_owned(),
            Token::InferKeyword => "InferKeyword".to_owned(),
            Token::AssignmentOperator => "AssignmentOperator".to_owned(),
            Token::PlusOperator => "PlusOperator".to_owned(),
            Token::SemiColon => "SemiColon".to_owned(),
            Token::IfKeyword => "IfKeyword".to_owned(),
            Token::ElseKeyword => "ElseKeyword".to_owned(),
            Token::RightAngle => "RightAngle".to_owned(),
            Token::ReturnKeyword => "ReturnKeyword".to_owned(),
        }
    }

    /// A copy of the token.
    pub fn duplicate(&self) -> (r: Self)
        ensures
            r@ == self@,
    {
        match self {
            Token::FunctionKeyword => Token::FunctionKeyword,
            Token::Identifier(s) => Token::Identifier(s.clone()),
            Token::LeftParenthesis => Token::LeftParenthesis,
            Token::RightParenthesis => Token::RightParenthesis,
            Token::FunctionSignitureSplitter => Token::FunctionSignitureSplitter,
            Token::UIntValue(v) => Token::UIntValue(*v),
            Token::TypeKeyword(t) => Token::TypeKeyword(*t),
            Token::TrueKeyword => Token::TrueKeyword,
            Token::FalseKeyword => Token::FalseKeyword,
            Token::Comma => Token::Comma,
            Token::NotOperator => Token::NotOperator,
            Token::LeftCurleyBrace => Token::LeftCurleyBrace,
            Token::RightCurleyBrace => Token::RightCurleyBrace,
            Token::InferKeyword => Token::InferKeyword,
            Token::AssignmentOperator => Token::AssignmentOperator,
            Token::PlusOperator => Token::PlusOperator,
            Token::SemiColon => Token::SemiColon,
            Token::IfKeyword => Token::IfKeyword,
            Token::ElseKeyword => Token::ElseKeyword,
            Token::RightAngle => Token::RightAngle,
            Token::ReturnKeyword => Token::ReturnKeyword,
        }
    }

    /// Whether two tokens are the same.
    pub fn same_as(&self, other: &Token) -> (b: bool)
        ensures
            b == (self@ == other@),
    {
        match (self, other) {
            (Token::Identifier(a), Token::Identifier(b)) => *a == *b,
            (Token::UIntValue(a), Token::UIntValue(b)) => *a == *b,
            (Token::TypeKeyword(a), Token::TypeKeyword(b)) => *a == *b,
            (Token::FunctionKeyword, Token::FunctionKeyword) => true,
            (Token::LeftParenthesis, Token::LeftParenthesis) => true,
            (Token::RightParenthesis, Token::RightParenthesis) => true,
            (Token::FunctionSignitureSplitter, Token::FunctionSignitureSplitter) => true,
            (Token::TrueKeyword, Token::TrueKeyword) => true,
            (Token::FalseKeyword, Token::FalseKeyword) => true,
            (Token::Comma, Token::Comma) => true,
            (Token::NotOperator, Token::NotOperator) => true,
            (Token::LeftCurleyBrace, Token::LeftCurleyBrace) => true,
            (Token::RightCurleyBrace, Token::RightCurleyBrace) => true,
            (Token::InferKeyword, Token::InferKeyword) => true,
            (Token::AssignmentOperator, Token::AssignmentOperator) => true,
            (Token::PlusOperator, Token::PlusOperator) => true,
            (Token::SemiColon, Token::SemiColon) => true,
            (Token::IfKeyword, Token::IfKeyword) => true,
            (Token::ElseKeyword, Token::ElseKeyword) => true,
            (Token::RightAngle, Token::RightAngle) => true,
            (Token::ReturnKeyword, Token::ReturnKeyword) => true,
            _ => false,
        }
    }
}

impl Clone for Token {
    fn clone(&self) -> (r: Self)
        ensures
            r@ == self@,
    {
        self.duplicate()
    }
}

impl PartialEq for Token {
    fn eq(&self, other: &Self) -> (r: bool) {
        self.same_as(other)
    }
}

impl vstd::std_specs::cmp::PartialEqSpecImpl for Token {
    open spec fn obeys_eq_spec() -> bool {
        true
    }

    open spec fn eq_spec(&self, other: &Self) -> bool {
        self@ == other@
    }
}

/// Where a token was found: the file, the line, and the range of byte columns
/// from its first to its last byte, counted from 1.
#[derive(Debug, PartialEq)]
pub struct TokenSource {
    pub file: String,
    pub line: u32,
    pub character_range: Range<u32>,
}

impl TokenSource {
    /// A source in `file` at `line`, over `character_range`.
    pub fn new(file: &str, line: u32, character_range: Range<u32>) -> (s: Self)
        ensures
            s.file@ == file@,
            s.line == line,
            s.character_range == character_range,
    {
        TokenSource { file: file.to_owned(), line, character_range }
    }
}

/// A parse error and its message.
#[derive(Debug)]
pub struct TokenStreamError {
    pub message: String,
}

impl View for TokenStreamError {
    type V = Seq<char>;

    open spec fn view(&self) -> Seq<char> {
        self.message@
    }
}

/// The messages of a list of errors.
pub open spec fn messages(errors: Seq<TokenStreamError>) -> Messages {
    errors.map_values(|e: TokenStreamError| e@)
}

/// What a parsing function gives: what it built and the position after it, or
/// the errors and the position where it stopped.
pub type Parsed<T> = Result<(T, usize), (Vec<TokenStreamError>, usize)>;

/// The model of what a parsing function gave, each built value taken by `f`.
pub open spec fn outcome<T, U>(r: Parsed<T>, f: spec_fn(T) -> U) -> Parse<U> {
    match r {
        Ok((v, p)) => Parse::Built(f(v), p as nat),
        Err((errors, p)) => Parse::Failed(messages(errors@), p as nat),
    }
}

/// The position a parsing function's result ends at.
pub open spec fn parsed_end<T>(r: Parsed<T>) -> nat {
    match r {
        Ok((_, p)) => p as nat,
        Err((_, p)) => p as nat,
    }
}

/// A failure with one message at `pos`.
pub fn failure<T>(message: String, pos: usize) -> (r: Result<T, (Vec<TokenStreamError>, usize)>)
    ensures
        r matches Err((errors, p)) && messages(errors@) == seq![message@] && p == pos,
{
    let mut errors = Vec::new();
    let ghost m = message@;
    errors.push(TokenStreamError { message });
    assert(messages(errors@) =~= seq![m]);
    Err((errors, pos))
}

/// Takes the token `expected` at `pos`.
pub fn ensure_token(tokens: &Vec<Token>, pos: usize, expected: Token) -> (r: Result<
    usize,
    (Vec<TokenStreamError>, usize),
>)
    requires
        pos <= tokens@.len(),
    ensures
        match r {
            Ok(p) => expect(tokens_view(tokens@), pos as nat, expected@) == Parse::Built((), p as nat),
            Err((errors, p)) => expect(tokens_view(tokens@), pos as nat, expected@) == Parse::<
                (),
            >::Failed(messages(errors@), p as nat),
        },
        match r {
            Ok(p) => p == pos + 1,
            Err((_, p)) => pos <= p <= pos + 1 && p <= tokens@.len(),
        },
{
    if pos >= tokens.len() {
        let mut message = "Expected ".to_owned();
        message.append(expected.text().as_str());
        return failure(message, pos);
    }
    let token = &tokens[pos];
    if token.same_as(&expected) {
        Ok(pos + 1)
    } else {
        let mut message = "Expected ".to_owned();
        message.append(expected.text().as_str());
        message.append(", found ");
        message.append(token.text().as_str());
        failure(message, pos + 1)
    }
}

/// Takes the statements of a block from `pos`, after `{`, up to and with the
/// closing `}`.
pub fn get_block_statements(tokens: &Vec<Token>, pos: usize) -> (r: Parsed<Vec<Node>>)
    requires
        pos <= tokens@.len(),
    ensures
        outcome(r, |v: Vec<Node>| nodes_view(v@)) == block(tokens_view(tokens@), pos as nat, Seq::empty()),
        pos <= parsed_end(r) <= tokens@.len(),
        r is Ok ==> parsed_end(r) > pos,
    decreases tokens@.len() - pos, 2nat,
{
    let ghost toks = tokens_view(tokens@);
    let mut statements: Vec<Node> = Vec::new();
    let mut p = pos;
    assert(nodes_view(statements@) =~= Seq::empty());
    loop
        invariant
            pos <= p <= tokens@.len(),
            toks == tokens_view(tokens@),
            block(toks, pos as nat, Seq::empty()) == block(toks, p as nat, nodes_view(statements@)),
        decreases tokens@.len() - p,
    {
        if p >= tokens.len() {
            return failure("expected }".to_owned(), p);
        }
        assert(toks[p as int] == tokens@[p as int]@);
        if let Token::RightCurleyBrace = &tokens[p] {
            return Ok((statements, p + 1));
        }
        match try_create_statement(tokens, p) {
            Ok((Some(statement), q)) => {
                let ghost before = nodes_view(statements@);
                let ghost sv = statement@;
                statements.push(statement);
                assert(nodes_view(statements@) =~= before.push(sv));
                p = q;
            },
            Ok((None, _)) => {
                return failure("Expected }".to_owned(), p + 1);
            },
            Err(e) => {
                return Err(e);
            },
        }
    }
}

/// The models of a sequence of function declarations.
pub open spec fn declarations_view(s: Seq<FunctionDeclaration>) -> Seq<FuncDeclV> {
    s.map_values(|d: FunctionDeclaration| d@)
}

/// What a builder holds, as a program model.
pub open spec fn builder_view(b: AstBuilder) -> ProgramV {
    ProgramV { functions: declarations_view(b.functions@), nodes: nodes_view(b.nodes@) }
}

impl AstBuilder {
    /// Builds a program from a token sequence: function declarations and
    /// top level statements, in order. Every error is collected, and parsing
    /// goes on after it; a token that starts neither is an error of its own.
    pub fn from_token_stream(tokens: Vec<Token>) -> (r: Result<Self, Vec<TokenStreamError>>)
        ensures
            match r {
                Ok(b) => program(tokens_view(tokens@)) == Ok::<ProgramV, Messages>(builder_view(b)),
                Err(errors) => program(tokens_view(tokens@)) == Err::<ProgramV, Messages>(
                    messages(errors@),
                ),
            },
    {
        let ghost toks = tokens_view(tokens@);
        let mut errors: Vec<TokenStreamError> = Vec::new();
        let mut builder = AstBuilder { functions: Vec::new(), nodes: Vec::new() };
        let mut p: usize = 0;
        assert(builder_view(builder) =~= ProgramV { functions: Seq::empty(), nodes: Seq::empty() }) by {
            assert(declarations_view(builder.functions@) =~= Seq::empty());
            assert(nodes_view(builder.nodes@) =~= Seq::empty());
        }
        assert(messages(errors@) =~= Seq::empty());
        while p < tokens.len()
            invariant
                p <= tokens@.len(),
                toks == tokens_view(tokens@),
                program(toks) == program_rest(toks, p as nat, builder_view(builder), messages(errors@)),
            decreases tokens@.len() - p,
        {
            assert(toks[p as int] == tokens@[p as int]@);
            let ghost before = builder_view(builder);
            let ghost errors_before = messages(errors@);
            if let Token::FunctionKeyword = &tokens[p] {
                match build_function_declaration(&tokens, p + 1) {
                    Ok((function_declaration, q)) => {
                        let ghost dv = function_declaration@;
                        builder.functions.push(function_declaration);
                        assert(declarations_view(builder.functions@) =~= before.functions.push(dv));
                        p = q;
                    },
                    Err((mut more, q)) => {
                        let ghost m = messages(more@);
                        errors.append(&mut more);
                        assert(messages(errors@) =~= errors_before + m);
                        p = q;
                    },
                }
            } else {
                match try_create_statement(&tokens, p) {
                    Ok((Some(statement), q)) => {
                        let ghost sv = statement@;
                        builder.nodes.push(statement);
                        assert(nodes_view(builder.nodes@) =~= before.nodes.push(sv));
                        p = q;
                    },
                    Ok((None, _)) => {
                        let mut message = tokens[p].text();
                        message.append(" is not a valid statement beginning");
                        let e = TokenStreamError { message };
                        let ghost ev = e@;
                        errors.push(e);
                        assert(messages(errors@) =~= errors_before.push(ev));
                        p = p + 1;
                    },
                    Err((mut more, q)) => {
                        let ghost m = messages(more@);
                        errors.append(&mut more);
                        assert(messages(errors@) =~= errors_before + m);
                        p = q;
                    },
                }
            }
        }
        if errors.len() == 0 {
            Ok(builder)
        } else {
            Err(errors)
        }
    }
}

} // verus!
