//! The lexical rules: how source text is cut into tokens, stated over
//! character sequences.

use vstd::prelude::*;

use crate::ast::node::Type;
use crate::text::{
    spec_digit_value, spec_is_ascii_punctuation, spec_is_whitespace, spec_utf8_len, spec_utf8_width,
};
use crate::token_stream::token::TokenV;

verus! {

/// The model of a token's source.
pub struct SourceV {
    pub file: Seq<char>,
    pub line: nat,
    pub start: nat,
    pub end: nat,
}

/// The model of a lexical error.
pub struct ParseErrorV {
    pub error: Seq<char>,
    pub file: Seq<char>,
    pub line: nat,
    pub start: nat,
    pub end: nat,
}

/// The characters read since the last token was cut: the column and line
/// of the first of them, and the characters.
pub struct BufferV {
    pub start: Option<nat>,
    pub line: nat,
    pub value: Seq<char>,
}

/// The tokens cut so far, and the characters read since.
pub struct LexState {
    pub tokens: Seq<(TokenV, SourceV)>,
    pub buffer: BufferV,
}

/// What a word is.
pub enum Lexed {
    Token(TokenV),
    Nothing,
    Unexpected,
}

/// The file name sources are attributed to.
pub open spec fn source_file() -> Seq<char> {
    "my_file"@
}

/// `s` without its leading white space.
pub open spec fn trim_start(s: Seq<char>) -> Seq<char>
    decreases s.len(),
{
    if s.len() > 0 && spec_is_whitespace(s[0]) {
        trim_start(s.skip(1))
    } else {
        s
    }
}

/// `s` without its trailing white space.
pub open spec fn trim_end(s: Seq<char>) -> Seq<char>
    decreases s.len(),
{
    if s.len() > 0 && spec_is_whitespace(s.last()) {
        trim_end(s.drop_last())
    } else {
        s
    }
}

/// `s` without leading and trailing white space.
pub open spec fn trim(s: Seq<char>) -> Seq<char> {
    trim_end(trim_start(s))
}

/// The value of a sequence of decimal digits.
pub open spec fn digits_value(d: Seq<char>) -> nat
    decreases d.len(),
{
    if d.len() == 0 {
        0
    } else {
        digits_value(d.drop_last()) * 10 + match spec_digit_value(d.last()) {
            Some(v) => v,
            None => 0,
        }
    }
}

/// Every character of `d` is a decimal digit.
pub open spec fn all_digits(d: Seq<char>) -> bool {
    forall|i: int| 0 <= i < d.len() ==> (#[trigger] spec_digit_value(d[i])) is Some
}

/// The digits of a numeral: after an optional leading `+`.
pub open spec fn numeral_digits(s: Seq<char>) -> Seq<char> {
    if s.len() > 0 && s[0] == '+' {
        s.skip(1)
    } else {
        s
    }
}

/// The unsigned 32-bit number that `s` writes, as `str::parse::<u32>` reads
/// it: an optional `+`, then one or more decimal digits, of a value that fits.
pub open spec fn parse_u32(s: Seq<char>) -> Option<u32> {
    let d = numeral_digits(s);
    if d.len() > 0 && all_digits(d) && digits_value(d) <= u32::MAX {
        Some(digits_value(d) as u32)
    } else {
        None
    }
}

/// The token a keyword or symbol stands for.
pub open spec fn keyword(t: Seq<char>) -> Option<TokenV> {
    if t == "uint"@ {
        Some(TokenV::TypeKeyword(Type::UInt))
    } else if t == "boolean"@ {
        Some(TokenV::TypeKeyword(Type::Boolean))
    } else if t == "true"@ {
        Some(TokenV::TrueKeyword)
    } else if t == "false"@ {
        Some(TokenV::FalseKeyword)
    } else if t == "function"@ {
        Some(TokenV::FunctionKeyword)
    } else if t == "infer"@ {
        Some(TokenV::InferKeyword)
    } else if t == "if"@ {
        Some(TokenV::IfKeyword)
    } else if t == "else"@ {
        Some(TokenV::ElseKeyword)
    } else if t == "return"@ {
        Some(TokenV::ReturnKeyword)
    } else if t == "="@ {
        Some(TokenV::AssignmentOperator)
    } else if t == "("@ {
        Some(TokenV::LeftParenthesis)
    } else if t == ")"@ {
        Some(TokenV::RightParenthesis)
    } else if t == "{"@ {
        Some(TokenV::LeftCurleyBrace)
    } else if t == "}"@ {
        Some(TokenV::RightCurleyBrace)
    } else if t == ">"@ {
        Some(TokenV::RightAngle)
    } else if t == "!"@ {
        Some(TokenV::NotOperator)
    } else if t == "+"@ {
        Some(TokenV::PlusOperator)
    } else if t == ";"@ {
        Some(TokenV::SemiColon)
    } else if t == ","@ {
        Some(TokenV::Comma)
    } else if t == "->"@ {
        Some(TokenV::FunctionSignitureSplitter)
    } else {
        None
    }
}

/// A single punctuation character other than `_`, which no token is.
pub open spec fn lone_punctuation(s: Seq<char>) -> bool {
    spec_utf8_len(s) == 1 && spec_is_ascii_punctuation(s[0]) && s[0] != '_'
}

/// What the word `s` is: nothing if it is blank, a keyword or symbol, an
/// error if it is another single punctuation character, else a number if it
/// reads as one, else an identifier.
pub open spec fn lex_word(s: Seq<char>) -> Lexed {
    let t = trim(s);
    if t.len() == 0 {
        Lexed::Nothing
    } else if keyword(t) is Some {
        Lexed::Token(keyword(t)->0)
    } else if lone_punctuation(s) {
        Lexed::Unexpected
    } else {
        match parse_u32(s) {
            Some(v) => Lexed::Token(TokenV::UIntValue(v)),
            None => Lexed::Token(TokenV::Identifier(t)),
        }
    }
}

/// The message for an unexpected word.
pub open spec fn unexpected_message(s: Seq<char>) -> Seq<char> {
    "Unexpected character `"@ + s + "`"@
}

/// The column of the first character read since the last cut, 0 if none was.
pub open spec fn buffer_start(b: BufferV) -> nat {
    match b.start {
        Some(s) => s,
        None => 0,
    }
}

/// Cutting the characters read so far into a token, if they make one.
pub open spec fn flush(st: LexState) -> Result<LexState, ParseErrorV> {
    let b = st.buffer;
    let len = spec_utf8_len(b.value);
    let start = buffer_start(b);
    let emptied = BufferV { start: None, line: b.line, value: Seq::empty() };
    if len > 0 {
        match lex_word(b.value) {
            Lexed::Token(t) => Ok(
                LexState {
                    tokens: st.tokens.push(
                        (t, SourceV { file: source_file(), line: b.line, start, end: (start + len - 1) as nat }),
                    ),
                    buffer: emptied,
                },
            ),
            Lexed::Nothing => Ok(LexState { tokens: st.tokens, buffer: emptied }),
            Lexed::Unexpected => Err(
                ParseErrorV {
                    error: unexpected_message(b.value),
                    file: source_file(),
                    line: b.line,
                    start,
                    end: (start + len - 1) as nat,
                },
            ),
        }
    } else {
        Ok(LexState { tokens: st.tokens, buffer: emptied })
    }
}

/// Reading the character `c` at `column` of `line`.
pub open spec fn extend(st: LexState, c: char, column: nat, line: nat) -> LexState {
    let b = st.buffer;
    LexState {
        tokens: st.tokens,
        buffer: match b.start {
            Some(s) => BufferV { start: Some(s), line: b.line, value: b.value.push(c) },
            None => BufferV { start: Some(column), line, value: b.value.push(c) },
        },
    }
}

/// Cutting what was read, then reading `c`.
pub open spec fn flush_then_extend(st: LexState, c: char, column: nat, line: nat) -> Result<
    LexState,
    ParseErrorV,
> {
    match flush(st) {
        Ok(s) => Ok(extend(s, c, column, line)),
        Err(e) => Err(e),
    }
}

/// Processing the character `c` at `column` of `line`: `=` is a token of its
/// own; `>` ends a `->` or starts a word; white space ends a word; other
/// punctuation starts a word; any other character extends the word, unless
/// the word is a single punctuation character, which it ends.
pub open spec fn step(st: LexState, c: char, column: nat, line: nat) -> Result<LexState, ParseErrorV> {
    if c == '=' {
        match flush_then_extend(st, '=', column, line) {
            Ok(s) => flush(s),
            Err(e) => Err(e),
        }
    } else if c == '>' {
        if st.buffer.value == seq!['-'] {
            flush(extend(st, '>', column, line))
        } else {
            flush_then_extend(st, '>', column, line)
        }
    } else if spec_is_whitespace(c) {
        flush(st)
    } else if spec_is_ascii_punctuation(c) && c != '_' {
        flush_then_extend(st, c, column, line)
    } else if lone_punctuation(st.buffer.value) {
        flush_then_extend(st, c, column, line)
    } else {
        Ok(extend(st, c, column, line))
    }
}

/// Lexing `chars[i..]`, where `line` lines have ended before position `i`
/// and `col` bytes of the current line precede it. A line ends at `\n`; a
/// `\r` right before a `\n` is not part of the line.
pub open spec fn lex_from(chars: Seq<char>, i: nat, line: nat, col: nat, st: LexState) -> Result<
    Seq<(TokenV, SourceV)>,
    ParseErrorV,
>
    decreases chars.len() - i,
{
    if i >= chars.len() {
        match flush(st) {
            Ok(s) => Ok(s.tokens),
            Err(e) => Err(e),
        }
    } else if chars[i as int] == '\n' {
        lex_from(chars, i + 1, line + 1, 0, st)
    } else if chars[i as int] == '\r' && i + 1 < chars.len() && chars[(i + 1) as int] == '\n' {
        lex_from(chars, i + 1, line, col, st)
    } else {
        match step(st, chars[i as int], col + 1, line + 1) {
            Ok(s) => lex_from(chars, i + 1, line, col + spec_utf8_width(chars[i as int]), s),
            Err(e) => Err(e),
        }
    }
}

/// The state before anything is read.
pub open spec fn initial_state() -> LexState {
    LexState {
        tokens: Seq::empty(),
        buffer: BufferV { start: None, line: 0, value: Seq::empty() },
    }
}

/// The tokens of a program's text, or the first lexical error in it.
pub open spec fn lex(code: Seq<char>) -> Result<Seq<(TokenV, SourceV)>, ParseErrorV> {
    lex_from(code, 0, 0, 0, initial_state())
}

/// A token's source is well formed: in the source file, on a line counted
/// from 1, from a column counted from 1 to a column not before it.
pub open spec fn well_placed(src: SourceV) -> bool {
    src.file == source_file() && src.line >= 1 && 1 <= src.start <= src.end
}

/// What lexing keeps: every token cut is well placed, and characters read
/// since the last cut were read on a line and at a column counted from 1.
pub open spec fn lex_state_ok(st: LexState) -> bool {
    &&& forall|i: int| 0 <= i < st.tokens.len() ==> well_placed(#[trigger] st.tokens[i].1)
    &&& st.buffer.start matches Some(s) ==> s >= 1 && st.buffer.line >= 1
    &&& st.buffer.value.len() > 0 ==> st.buffer.start is Some
}

proof fn lemma_extend_ok(st: LexState, c: char, column: nat, line: nat)
    requires
        lex_state_ok(st),
        column >= 1,
        line >= 1,
    ensures
        lex_state_ok(extend(st, c, column, line)),
{
}

proof fn lemma_flush_ok(st: LexState)
    requires
        lex_state_ok(st),
    ensures
        flush(st) matches Ok(s) ==> lex_state_ok(s),
{
    let len = spec_utf8_len(st.buffer.value);
    if len > 0 && flush(st) is Ok {
        assert(st.buffer.value.len() > 0) by {
            if st.buffer.value.len() == 0 {
                assert(st.buffer.value =~= Seq::<char>::empty());
            }
        }
        let s = flush(st)->Ok_0;
        assert forall|i: int| 0 <= i < s.tokens.len() implies well_placed(#[trigger] s.tokens[i].1) by {
            if i < st.tokens.len() {
                assert(s.tokens[i] == st.tokens[i]);
            }
        }
    }
}

proof fn lemma_step_ok(st: LexState, c: char, column: nat, line: nat)
    requires
        lex_state_ok(st),
        column >= 1,
        line >= 1,
    ensures
        step(st, c, column, line) matches Ok(s) ==> lex_state_ok(s),
{
    lemma_flush_ok(st);
    lemma_extend_ok(st, c, column, line);
    lemma_flush_ok(extend(st, c, column, line));
    if flush(st) is Ok {
        let s = flush(st)->Ok_0;
        lemma_extend_ok(s, c, column, line);
        lemma_flush_ok(extend(s, c, column, line));
    }
}

proof fn lemma_lex_from_ok(chars: Seq<char>, i: nat, line: nat, col: nat, st: LexState)
    requires
        lex_state_ok(st),
    ensures
        lex_from(chars, i, line, col, st) matches Ok(ts) ==> forall|j: int| 0 <= j < ts.len() ==> well_placed(#[trigger] ts[j].1),
    decreases chars.len() - i,
{
    if i >= chars.len() {
        lemma_flush_ok(st);
    } else if chars[i as int] == '\n' {
        lemma_lex_from_ok(chars, i + 1, line + 1, 0, st);
    } else if chars[i as int] == '\r' && i + 1 < chars.len() && chars[(i + 1) as int] == '\n' {
        lemma_lex_from_ok(chars, i + 1, line, col, st);
    } else {
        lemma_step_ok(st, chars[i as int], col + 1, line + 1);
        if step(st, chars[i as int], col + 1, line + 1) is Ok {
            let s = step(st, chars[i as int], col + 1, line + 1)->Ok_0;
            lemma_lex_from_ok(chars, i + 1, line, col + spec_utf8_width(chars[i as int]), s);
        }
    }
}

/// Every token lexed from a program's text is well placed: it is attributed
/// to the source file, lies on a line counted from 1, and its columns run from
/// its first byte, counted from 1, to its last.
pub proof fn law_tokens_well_placed(code: Seq<char>)
    ensures
        lex(code) matches Ok(ts) ==> forall|j: int| 0 <= j < ts.len() ==> well_placed(#[trigger] ts[j].1),
{
    lemma_lex_from_ok(code, 0, 0, 0, initial_state());
}

/// Position `(l1, c1)` comes before `(l2, c2)`: on an earlier line, or
/// earlier on the same line.
pub open spec fn precedes(l1: nat, c1: nat, l2: nat, c2: nat) -> bool {
    l1 < l2 || (l1 == l2 && c1 < c2)
}

/// A token's source begins before another's.
pub open spec fn begins_before(a: SourceV, b: SourceV) -> bool {
    precedes(a.line, a.start, b.line, b.start)
}

/// What lexing keeps about order, while the next character to read is at
/// `(line, column)`: the tokens cut so far begin in order, all before the
/// first character read since the last cut, which is itself before
/// `(line, column)`.
pub open spec fn lex_order_ok(st: LexState, line: nat, column: nat) -> bool {
    &&& forall|i: int, j: int|
        0 <= i < j < st.tokens.len() ==> begins_before(#[trigger] st.tokens[i].1, #[trigger] st.tokens[j].1)
    &&& forall|i: int| 0 <= i < st.tokens.len() ==> precedes(#[trigger] st.tokens[i].1.line, st.tokens[i].1.start, line, column)
    &&& st.buffer.start matches Some(s) ==> {
        &&& precedes(st.buffer.line, s, line, column)
        &&& forall|i: int| 0 <= i < st.tokens.len() ==> precedes(#[trigger] st.tokens[i].1.line, st.tokens[i].1.start, st.buffer.line, s)
    }
    &&& st.buffer.value.len() > 0 ==> st.buffer.start is Some
}

proof fn lemma_order_later(st: LexState, line: nat, column: nat, line2: nat, column2: nat)
    requires
        lex_order_ok(st, line, column),
        !precedes(line2, column2, line, column),
    ensures
        lex_order_ok(st, line2, column2),
{
}

proof fn lemma_flush_order(st: LexState, line: nat, column: nat)
    requires
        lex_order_ok(st, line, column),
    ensures
        flush(st) matches Ok(s) ==> lex_order_ok(s, line, column),
{
    let len = spec_utf8_len(st.buffer.value);
    if len > 0 && flush(st) is Ok {
        assert(st.buffer.value.len() > 0) by {
            if st.buffer.value.len() == 0 {
                assert(st.buffer.value =~= Seq::<char>::empty());
            }
        }
        let s = flush(st)->Ok_0;
        let n = st.tokens.len();
        assert forall|i: int, j: int| 0 <= i < j < s.tokens.len() implies begins_before(
            #[trigger] s.tokens[i].1,
            #[trigger] s.tokens[j].1,
        ) by {
            assert(s.tokens[i] == st.tokens[i]);
            if j < n {
                assert(s.tokens[j] == st.tokens[j]);
            }
        }
        assert forall|i: int| 0 <= i < s.tokens.len() implies precedes(
            #[trigger] s.tokens[i].1.line,
            s.tokens[i].1.start,
            line,
            column,
        ) by {
            if i < n {
                assert(s.tokens[i] == st.tokens[i]);
            }
        }
    }
}

proof fn lemma_extend_order(st: LexState, c: char, line: nat, column: nat, line2: nat, column2: nat)
    requires
        lex_order_ok(st, line, column),
        precedes(line, column, line2, column2),
    ensures
        lex_order_ok(extend(st, c, column, line), line2, column2),
{
}

proof fn lemma_step_order(st: LexState, c: char, line: nat, column: nat, line2: nat, column2: nat)
    requires
        lex_order_ok(st, line, column),
        precedes(line, column, line2, column2),
    ensures
        step(st, c, column, line) matches Ok(s) ==> lex_order_ok(s, line2, column2),
{
    lemma_flush_order(st, line, column);
    lemma_extend_order(st, c, line, column, line2, column2);
    lemma_flush_order(extend(st, c, column, line), line2, column2);
    if flush(st) is Ok {
        let s = flush(st)->Ok_0;
        lemma_order_later(s, line, column, line2, column2);
        lemma_extend_order(s, c, line, column, line2, column2);
        lemma_flush_order(extend(s, c, column, line), line2, column2);
    }
}

proof fn lemma_lex_from_order(chars: Seq<char>, i: nat, line: nat, col: nat, st: LexState)
    requires
        lex_order_ok(st, line + 1, col + 1),
    ensures
        lex_from(chars, i, line, col, st) matches Ok(ts) ==> forall|a: int, b: int|
            0 <= a < b < ts.len() ==> begins_before(#[trigger] ts[a].1, #[trigger] ts[b].1),
    decreases chars.len() - i,
{
    if i >= chars.len() {
        lemma_flush_order(st, line + 1, col + 1);
    } else if chars[i as int] == '\n' {
        lemma_order_later(st, line + 1, col + 1, line + 2, 1);
        lemma_lex_from_order(chars, i + 1, line + 1, 0, st);
    } else if chars[i as int] == '\r' && i + 1 < chars.len() && chars[(i + 1) as int] == '\n' {
        lemma_lex_from_order(chars, i + 1, line, col, st);
    } else {
        let next = col + spec_utf8_width(chars[i as int]);
        lemma_step_order(st, chars[i as int], line + 1, col + 1, line + 1, next + 1);
        if step(st, chars[i as int], col + 1, line + 1) is Ok {
            let s = step(st, chars[i as int], col + 1, line + 1)->Ok_0;
            lemma_lex_from_order(chars, i + 1, line, next, s);
        }
    }
}

/// The tokens lexed from a program's text come in the order of the text:
/// each begins on an earlier line than the next, or earlier on the same line.
pub proof fn law_tokens_in_text_order(code: Seq<char>)
    ensures
        lex(code) matches Ok(ts) ==> forall|a: int, b: int|
            0 <= a < b < ts.len() ==> begins_before(#[trigger] ts[a].1, #[trigger] ts[b].1),
{
    lemma_lex_from_order(code, 0, 0, 0, initial_state());
}

} // verus!
