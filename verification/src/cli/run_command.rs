//! The `run` command: running a program's text, from the lexer to the
//! evaluator.

use std::ops::Range;

use vstd::prelude::*;

use crate::ast::builders::ast_builder::{declared_function, AstBuilder};
use crate::ast::node::{
    functions_view, nodes_view, FuncDeclV, FuncV, Function, FunctionDeclaration, FunctionId, NodeV,
    Value,
};
use crate::cli::{command_description, command_name, BeachCommand, CommandKind};
use crate::evaluation::ast::program_functions;
use crate::evaluation::intrinsics::{get_intrinsic_functions, intrinsic_env};
use crate::evaluation::semantics::{
    eval_nodes, evaluation_budget, fn_env, fn_overlay, lemma_fn_env_models, model_env, Eval,
};
use crate::parsing::lexing::{lex, ParseErrorV, SourceV};
use crate::parsing::{lexemes, parse_program, ParseError};
use crate::table::{lemma_insert_all_map, map_entries, seq_insert_all, Table, TableKey};
use crate::text::{debug_quoted, decimal, spec_debug_quoted, spec_decimal, spec_utf8_len};
use crate::token_stream::grammar::{program, ProgramV};
use crate::token_stream::token::{
    builder_view, declarations_view, messages, tokens_view, Token, TokenSource, TokenV,
};
use crate::type_checking::rules::{tc_program, Checked};

verus! {

/// The command that runs a program.
pub struct RunCommand;

impl BeachCommand for RunCommand {
    fn name(&self) -> (s: &'static str)
        ensures
            s@ == command_name(CommandKind::Run),
    {
        "run"
    }

    fn usage(&self) -> (s: &'static str)
        ensures
            s@ == "beach run [program].bch"@,
    {
        "beach run [program].bch"
    }

    fn description(&self) -> (s: &'static str)
        ensures
            s@ == command_description(CommandKind::Run),
    {
        "run a beach program"
    }
}

/// `s` ends with `suffix`.
pub open spec fn has_suffix(s: Seq<char>, suffix: Seq<char>) -> bool {
    s.len() >= suffix.len() && s.subrange(s.len() - suffix.len(), s.len() as int) == suffix
}

/// What the `run` command makes of its arguments: the program file, or the
/// message it fails with.
pub open spec fn run_arguments(args: Seq<Seq<char>>) -> Result<Seq<char>, Seq<char>> {
    if args.len() == 0 {
        Err("usage: "@ + "beach run [program].bch"@)
    } else if !has_suffix(args[0], ".bch"@) {
        Err("a beach program file must have .bch extension"@)
    } else if args.len() > 1 {
        Err(
            "the run command does not take any more sub commands or options\nusage: "@
                + "beach run [program].bch"@,
        )
    } else {
        Ok(args[0])
    }
}

/// Whether `s` ends with `suffix`, as `str::ends_with` decides it.
fn ends_with(s: &str, suffix: &str) -> (b: bool)
    ensures
        b == has_suffix(s@, suffix@),
{
    let x = crate::text::chars_of(s);
    let y = crate::text::chars_of(suffix);
    if x.len() < y.len() {
        return false;
    }
    let offset = x.len() - y.len();
    let mut i: usize = 0;
    while i < y.len()
        invariant
            x@ == s@,
            y@ == suffix@,
            offset + y.len() == x.len(),
            y@.len() == y.len(),
            i <= y@.len(),
            forall|j: int| 0 <= j < i ==> x@[offset + j] == y@[j],
        decreases y@.len() - i,
    {
        if x[offset + i] != y[i] {
            assert(s@.subrange(s@.len() - suffix@.len(), s@.len() as int)[i as int] != suffix@[i as int]);
            return false;
        }
        i += 1;
    }
    assert(s@.subrange(s@.len() - suffix@.len(), s@.len() as int) =~= suffix@);
    true
}

impl RunCommand {
    /// The program file the arguments name, or the message the command fails
    /// with: it takes exactly one argument, a file with the `.bch` extension.
    pub fn check_arguments(&self, args: &Vec<String>) -> (r: Result<String, String>)
        ensures
            match r {
                Ok(file) => run_arguments(args@.map_values(|a: String| a@)) == Ok::<Seq<char>, Seq<char>>(file@),
                Err(m) => run_arguments(args@.map_values(|a: String| a@)) == Err::<Seq<char>, Seq<char>>(m@),
            },
    {
        if args.len() == 0 {
            let mut message = "usage: ".to_owned();
            message.append(self.usage());
            return Err(message);
        }
        let program_file = &args[0];
        if !ends_with(program_file.as_str(), ".bch") {
            return Err("a beach program file must have .bch extension".to_owned());
        }
        if args.len() > 1 {
            let mut message =
                "the run command does not take any more sub commands or options\nusage: ".to_owned();
            message.append(self.usage());
            return Err(message);
        }
        Ok(program_file.clone())
    }
}

/// A place in a program's text.
#[derive(PartialEq, Eq, Debug, Structural)]
pub struct Position {
    pub line: u32,
    pub character: u32,
}

/// An error of running a program, and where in the source it was found.
#[derive(PartialEq, Debug)]
pub struct BeachError {
    pub error: String,
    pub file: String,
    pub range: Range<Position>,
}

/// The model of an error of running a program.
pub struct BeachErrorV {
    pub error: Seq<char>,
    pub file: Seq<char>,
    pub start_line: nat,
    pub start_character: nat,
    pub end_line: nat,
    pub end_character: nat,
}

impl View for BeachError {
    type V = BeachErrorV;

    open spec fn view(&self) -> BeachErrorV {
        BeachErrorV {
            error: self.error@,
            file: self.file@,
            start_line: self.range.start.line as nat,
            start_character: self.range.start.character as nat,
            end_line: self.range.end.line as nat,
            end_character: self.range.end.character as nat,
        }
    }
}

/// The models of a sequence of errors.
pub open spec fn beach_errors_view(s: Seq<BeachError>) -> Seq<BeachErrorV> {
    s.map_values(|e: BeachError| e@)
}

/// The error for a lexical error: its message marked as a parsing error, at
/// the same place.
pub open spec fn lexical_error(e: ParseErrorV) -> BeachErrorV {
    BeachErrorV {
        error: "Parsing error: "@ + e.error,
        file: e.file,
        start_line: e.line,
        start_character: e.start,
        end_line: e.line,
        end_character: e.end,
    }
}

/// The error for a later stage's message: no file, at line 1, character 1.
pub open spec fn unplaced_error(m: Seq<char>) -> BeachErrorV {
    BeachErrorV {
        error: m,
        file: Seq::empty(),
        start_line: 1,
        start_character: 1,
        end_line: 1,
        end_character: 1,
    }
}

/// The model of the function a declaration declares.
pub open spec fn declared_model(d: FuncDeclV) -> FuncV {
    FuncV::Custom { id: d.id, name: d.name, params: d.params, ret: d.ret, body: d.body }
}

/// The functions of a parsed program, by name: a later declaration replaces
/// an earlier one of the same name.
pub open spec fn program_table(p: ProgramV) -> Seq<(Seq<char>, FuncV)> {
    seq_insert_all(Seq::empty(), p.functions.map_values(|d: FuncDeclV| (d.id, declared_model(d))))
}

/// What running a program's text comes to.
pub enum RunV {
    /// It ran, printing these values.
    Ran(Seq<Value>),
    /// It was rejected with these errors.
    Rejected(Seq<BeachErrorV>),
    /// The type checker does not return.
    Undefined,
    /// Evaluating it met a state the evaluator rejects, or nested deeper
    /// than its budget allows, after printing these values.
    Stopped(Seq<Value>),
}

/// Running a program's text: it is cut into tokens (a lexical error rejects
/// it), parsed (every parse error rejects it), type checked with the
/// intrinsic functions (every typing error rejects it), and evaluated from
/// an empty scope with its functions and the intrinsic ones.
pub open spec fn run_model(code: Seq<char>) -> RunV {
    match lex(code) {
        Err(e) => RunV::Rejected(seq![lexical_error(e)]),
        Ok(ls) => match program(ls.map_values(|l: (TokenV, SourceV)| l.0)) {
            Err(ms) => RunV::Rejected(ms.map_values(|m: Seq<char>| unplaced_error(m))),
            Ok(p) => {
                let fs = program_table(p);
                match tc_program(fs, p.nodes) {
                    Checked::Undefined => RunV::Undefined,
                    Checked::Done(ms) => if ms.len() > 0 {
                        RunV::Rejected(ms.map_values(|m: Seq<char>| unplaced_error(m)))
                    } else {
                        match eval_nodes(
                            evaluation_budget(),
                            p.nodes,
                            fn_overlay(model_env(fs), intrinsic_env()),
                            Seq::empty(),
                            Seq::empty(),
                        ) {
                            (out, Eval::Done(_)) => RunV::Ran(out),
                            (out, _) => RunV::Stopped(out),
                        }
                    },
                }
            },
        },
    }
}

/// The error at line 1, character 1, with no file, for a message.
fn unplaced(message: String) -> (e: BeachError)
    ensures
        e@ == unplaced_error(message@),
{
    BeachError {
        error: message,
        file: String::new(),
        range: Position { line: 1, character: 1 }..Position { line: 1, character: 1 },
    }
}

/// The tokens of a sequence of tokens with their sources.
fn tokens_of(lexed: &Vec<(Token, TokenSource)>) -> (tokens: Vec<Token>)
    ensures
        tokens_view(tokens@) == lexemes(lexed@).map_values(|l: (TokenV, SourceV)| l.0),
{
    let mut tokens: Vec<Token> = Vec::new();
    let mut i: usize = 0;
    while i < lexed.len()
        invariant
            i <= lexed@.len(),
            tokens_view(tokens@) =~= lexemes(lexed@).map_values(|l: (TokenV, SourceV)| l.0).take(i as int),
        decreases lexed@.len() - i,
    {
        let ghost before = tokens_view(tokens@);
        tokens.push(lexed[i].0.duplicate());
        assert(tokens_view(tokens@) =~= before.push(lexed@[i as int].0@));
        i += 1;
    }
    tokens
}

/// The errors for a sequence of messages.
fn unplaced_all(ms: Vec<String>) -> (errors: Vec<BeachError>)
    ensures
        beach_errors_view(errors@) == ms@.map_values(|m: String| unplaced_error(m@)),
{
    let ghost all = ms@;
    let mut ms = ms;
    let mut reversed: Vec<String> = Vec::new();
    while ms.len() > 0
        invariant
            ms@.len() + reversed@.len() == all.len(),
            forall|i: int| 0 <= i < ms@.len() ==> ms@[i] == all[i],
            forall|i: int| 0 <= i < reversed@.len() ==> reversed@[i] == all[all.len() - 1 - i],
        decreases ms@.len(),
    {
        let m = ms.pop().unwrap();
        reversed.push(m);
    }
    let mut errors: Vec<BeachError> = Vec::new();
    while reversed.len() > 0
        invariant
            errors@.len() + reversed@.len() == all.len(),
            forall|i: int| 0 <= i < reversed@.len() ==> reversed@[i] == all[all.len() - 1 - i],
            beach_errors_view(errors@) =~= all.take(errors@.len() as int).map_values(
                |m: String| unplaced_error(m@),
            ),
        decreases reversed@.len(),
    {
        let m = reversed.pop().unwrap();
        let ghost n = errors@.len();
        let ghost before = beach_errors_view(errors@);
        let ghost mv = m@;
        errors.push(unplaced(m));
        assert(all.take(n + 1 as int) =~= all.take(n as int).push(all[n as int]));
        assert(beach_errors_view(errors@) =~= before.push(unplaced_error(mv)));
    }
    assert(all.take(all.len() as int) =~= all);
    errors
}

/// The messages of parse errors.
fn parse_messages(errors: Vec<crate::token_stream::token::TokenStreamError>) -> (ms: Vec<String>)
    ensures
        ms@.map_values(|m: String| m@) == messages(errors@),
{
    let ghost all = errors@;
    let mut errors = errors;
    let mut reversed: Vec<String> = Vec::new();
    while errors.len() > 0
        invariant
            errors@.len() + reversed@.len() == all.len(),
            forall|i: int| 0 <= i < errors@.len() ==> errors@[i] == all[i],
            forall|i: int| 0 <= i < reversed@.len() ==> reversed@[i]@ == all[all.len() - 1 - i]@,
        decreases errors@.len(),
    {
        let e = errors.pop().unwrap();
        reversed.push(e.message);
    }
    let mut ms: Vec<String> = Vec::new();
    while reversed.len() > 0
        invariant
            ms@.len() + reversed@.len() == all.len(),
            forall|i: int| 0 <= i < reversed@.len() ==> reversed@[i]@ == all[all.len() - 1 - i]@,
            forall|i: int| 0 <= i < ms@.len() ==> (#[trigger] ms@[i])@ == all[i]@,
        decreases reversed@.len(),
    {
        let m = reversed.pop().unwrap();
        ms.push(m);
    }
    assert(ms@.map_values(|m: String| m@) =~= messages(all));
    ms
}

/// The messages of typing errors.
fn type_messages(errors: Vec<crate::type_checking::TypeCheckingError>) -> (ms: Vec<String>)
    ensures
        ms@.map_values(|m: String| m@) == crate::type_checking::messages(errors@),
{
    let ghost all = errors@;
    let mut errors = errors;
    let mut reversed: Vec<String> = Vec::new();
    while errors.len() > 0
        invariant
            errors@.len() + reversed@.len() == all.len(),
            forall|i: int| 0 <= i < errors@.len() ==> errors@[i] == all[i],
            forall|i: int| 0 <= i < reversed@.len() ==> reversed@[i]@ == all[all.len() - 1 - i]@,
        decreases errors@.len(),
    {
        let e = errors.pop().unwrap();
        reversed.push(e.message);
    }
    let mut ms: Vec<String> = Vec::new();
    while reversed.len() > 0
        invariant
            ms@.len() + reversed@.len() == all.len(),
            forall|i: int| 0 <= i < reversed@.len() ==> reversed@[i]@ == all[all.len() - 1 - i]@,
            forall|i: int| 0 <= i < ms@.len() ==> (#[trigger] ms@[i])@ == all[i]@,
        decreases reversed@.len(),
    {
        let m = reversed.pop().unwrap();
        ms.push(m);
    }
    assert(ms@.map_values(|m: String| m@) =~= crate::type_checking::messages(all));
    ms
}

/// The functions of a built program are those of the parsed program's table.
proof fn lemma_built_functions(b: AstBuilder, t: Seq<(Seq<char>, Function)>)
    requires
        t == seq_insert_all(
            Seq::empty(),
            b.functions@.map_values(|d: FunctionDeclaration| (d.id.key_view(), declared_function(d))),
        ),
    ensures
        functions_view(t) == program_table(builder_view(b)),
{
    let f = |x: Function| x@;
    let ps = b.functions@.map_values(|d: FunctionDeclaration| (d.id.key_view(), declared_function(d)));
    lemma_insert_all_map(Seq::<(Seq<char>, Function)>::empty(), ps, f);
    assert(functions_view(t) =~= map_entries(t, f));
    assert(map_entries(Seq::<(Seq<char>, Function)>::empty(), f) =~= Seq::empty());
    assert(map_entries(ps, f) =~= builder_view(b).functions.map_values(
        |d: FuncDeclV| (d.id, declared_model(d)),
    ));
}

/// Runs a program's text: cuts it into tokens, parses it, type checks it with
/// the intrinsic functions and evaluates it from an empty scope. The result
/// is the values the program printed, or the errors that rejected it: the
/// lexical error, every parse error, or every typing error.
pub fn run(code: &str) -> (r: Result<Vec<Value>, Vec<BeachError>>)
    requires
        spec_utf8_len(code@) < u32::MAX,
        run_model(code@) is Ran || run_model(code@) is Rejected,
    ensures
        match r {
            Ok(out) => run_model(code@) == RunV::Ran(out@),
            Err(errors) => run_model(code@) == RunV::Rejected(beach_errors_view(errors@)),
        },
{
    match try_run(code) {
        RunOutcome::Ran(out) => Ok(out),
        RunOutcome::Rejected(errors) => Err(errors),
        _ => vstd::pervasive::unreached(),
    }
}

/// How running a program's text ended.
#[derive(Debug, PartialEq)]
pub enum RunOutcome {
    /// It ran, printing these values.
    Ran(Vec<Value>),
    /// It was rejected with these errors.
    Rejected(Vec<BeachError>),
    /// The type checker needed the type of a call of a missing function.
    CheckStopped,
    /// Evaluating it met a state the evaluator rejects, or nested deeper than
    /// its budget allows, after printing these values.
    EvaluationStopped(Vec<Value>),
}

/// Runs a program's text as [`run`] does, with every outcome: also where the
/// type checker needs the type of a call of a missing function, and where
/// evaluating meets a state the evaluator rejects, such as a sum that does
/// not fit in 32 bits, or nests deeper than its budget.
pub fn try_run(code: &str) -> (r: RunOutcome)
    requires
        spec_utf8_len(code@) < u32::MAX,
    ensures
        match r {
            RunOutcome::Ran(out) => run_model(code@) == RunV::Ran(out@),
            RunOutcome::Rejected(errors) => run_model(code@) == RunV::Rejected(beach_errors_view(errors@)),
            RunOutcome::CheckStopped => run_model(code@) is Undefined,
            RunOutcome::EvaluationStopped(out) => run_model(code@) == RunV::Stopped(out@),
        },
{
    let lexed = match parse_program(code) {
        Ok(lexed) => lexed,
        Err(errors) => {
            let e = &errors[0];
            let mut message = "Parsing error: ".to_owned();
            message.append(e.error.as_str());
            let error = BeachError {
                error: message,
                file: e.file.clone(),
                range: Position { line: e.line, character: e.character_range.start }..Position {
                    line: e.line,
                    character: e.character_range.end,
                },
            };
            let mut result = Vec::new();
            result.push(error);
            assert(beach_errors_view(result@) =~= seq![lexical_error(errors@[0]@)]);
            return RunOutcome::Rejected(result);
        },
    };
    let tokens = tokens_of(&lexed);
    let builder = match AstBuilder::from_token_stream(tokens) {
        Ok(builder) => builder,
        Err(errors) => {
            let ms = parse_messages(errors);
            let ghost mv = ms@;
            let result = unplaced_all(ms);
            assert(beach_errors_view(result@) =~= mv.map_values(|m: String| m@).map_values(
                |m: Seq<char>| unplaced_error(m),
            ));
            return RunOutcome::Rejected(result);
        },
    };
    let ghost p = builder_view(builder);
    let ghost declarations = builder.functions@;
    let ast = builder.build();
    proof {
        lemma_built_functions(
            AstBuilder { functions: builder.functions, nodes: builder.nodes },
            ast.functions@,
        );
        assert(functions_view(ast.functions@) == program_table(p));
        assert(nodes_view(ast.nodes@) == p.nodes);
    }
    match ast.try_type_check() {
        None => {
            return RunOutcome::CheckStopped;
        },
        Some(Ok(())) => {},
        Some(Err(errors)) => {
            let ms = type_messages(errors);
            let ghost mv = ms@;
            let result = unplaced_all(ms);
            assert(beach_errors_view(result@) =~= mv.map_values(|m: String| m@).map_values(
                |m: Seq<char>| unplaced_error(m),
            ));
            return RunOutcome::Rejected(result);
        },
    }
    let intrinsic_functions = get_intrinsic_functions();
    let mut output: Vec<Value> = Vec::new();
    proof {
        lemma_fn_env_models(ast.functions@);
        assert(program_functions(ast.functions@, intrinsic_functions@) == fn_overlay(
            model_env(program_table(p)),
            intrinsic_env(),
        ));
        assert(output@ =~= Seq::<Value>::empty());
    }
    match ast.try_evaluate(Table::new(), intrinsic_functions, &mut output) {
        Eval::Done(_) => RunOutcome::Ran(output),
        _ => RunOutcome::EvaluationStopped(output),
    }
}

/// How an error is written in a failure report: its `Debug` form.
pub open spec fn beach_error_text(e: BeachErrorV) -> Seq<char> {
    "BeachError { error: "@ + spec_debug_quoted(e.error) + ", file: "@ + spec_debug_quoted(e.file)
        + ", range: Position { line: "@ + spec_decimal(e.start_line) + ", character: "@
        + spec_decimal(e.start_character) + " }..Position { line: "@ + spec_decimal(e.end_line)
        + ", character: "@ + spec_decimal(e.end_character) + " } }"@
}

/// The texts of errors, each on a line of its own.
pub open spec fn joined_errors(es: Seq<BeachErrorV>) -> Seq<char>
    decreases es.len(),
{
    if es.len() == 0 {
        Seq::empty()
    } else if es.len() == 1 {
        beach_error_text(es[0])
    } else {
        joined_errors(es.drop_last()) + "\n"@ + beach_error_text(es.last())
    }
}

/// The message of a failed run.
pub open spec fn failure_report(es: Seq<BeachErrorV>) -> Seq<char> {
    "Failed to run beach program: "@ + joined_errors(es)
}

impl BeachError {
    /// The error's `Debug` form.
    pub fn text(&self) -> (s: String)
        ensures
            s@ == beach_error_text(self@),
    {
        let mut s = "BeachError { error: ".to_owned();
        s.append(debug_quoted(&self.error).as_str());
        s.append(", file: ");
        s.append(debug_quoted(&self.file).as_str());
        s.append(", range: Position { line: ");
        s.append(decimal(self.range.start.line as u64).as_str());
        s.append(", character: ");
        s.append(decimal(self.range.start.character as u64).as_str());
        s.append(" }..Position { line: ");
        s.append(decimal(self.range.end.line as u64).as_str());
        s.append(", character: ");
        s.append(decimal(self.range.end.character as u64).as_str());
        s.append(" } }");
        s
    }
}

impl RunCommand {
    /// The message the command fails with when running the program was
    /// rejected with `errors`.
    pub fn failure_report(&self, errors: &Vec<BeachError>) -> (s: String)
        ensures
            s@ == failure_report(beach_errors_view(errors@)),
    {
        let mut s = "Failed to run beach program: ".to_owned();
        let mut i: usize = 0;
        while i < errors.len()
            invariant
                i <= errors@.len(),
                s@ == "Failed to run beach program: "@ + joined_errors(
                    beach_errors_view(errors@).take(i as int),
                ),
            decreases errors@.len() - i,
        {
            let ghost before = beach_errors_view(errors@).take(i as int);
            assert(beach_errors_view(errors@).take(i + 1).drop_last() =~= before);
            if i > 0 {
                s.append("\n");
            }
            s.append(errors[i].text().as_str());
            proof {
                if i == 0 {
                    assert(before =~= Seq::empty());
                }
            }
            assert(s@ =~= "Failed to run beach program: "@ + joined_errors(
                beach_errors_view(errors@).take(i + 1),
            ));
            i += 1;
        }
        assert(beach_errors_view(errors@).take(errors@.len() as int) =~= beach_errors_view(errors@));
        s
    }
}

} // verus!
