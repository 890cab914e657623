//! The lexer: it cuts a program's text into tokens, each with its source.

pub mod lexing;

use std::ops::Range;

use vstd::prelude::*;

use crate::ast::node::Type;
use crate::parsing::lexing::{
    all_digits, buffer_start, digits_value, extend, flush, keyword, lex, lex_from, lex_word,
    initial_state, lone_punctuation, numeral_digits, parse_u32, source_file, step, trim,
    trim_end, trim_start, unexpected_message, BufferV, LexState, Lexed, ParseErrorV, SourceV,
};
use crate::text::{
    chars_of, is_ascii_punctuation, is_whitespace, spec_digit_value, spec_is_ascii_punctuation,
    spec_is_whitespace, spec_utf8_len, spec_utf8_width, string_from_chars, utf8_width,
};
use crate::token_stream::token::{Token, TokenSource, TokenV};

verus! {

/// A lexical error: the message, and where in the source it was found.
#[derive(PartialEq, Debug)]
pub struct ParseError {
    pub error: String,
    pub file: String,
    pub line: u32,
    pub character_range: Range<u32>,
}

impl View for ParseError {
    type V = ParseErrorV;

    open spec fn view(&self) -> ParseErrorV {
        ParseErrorV {
            error: self.error@,
            file: self.file@,
            line: self.line as nat,
            start: self.character_range.start as nat,
            end: self.character_range.end as nat,
        }
    }
}

impl View for TokenSource {
    type V = SourceV;

    open spec fn view(&self) -> SourceV {
        SourceV {
            file: self.file@,
            line: self.line as nat,
            start: self.character_range.start as nat,
            end: self.character_range.end as nat,
        }
    }
}

/// The models of a sequence of tokens with their sources.
pub open spec fn lexemes(s: Seq<(Token, TokenSource)>) -> Seq<(TokenV, SourceV)> {
    s.map_values(|p: (Token, TokenSource)| (p.0@, p.1@))
}

/// The UTF-8 length of a prefix grows by the width of the next character.
pub proof fn lemma_utf8_take(s: Seq<char>, i: int)
    requires
        0 <= i < s.len(),
    ensures
        spec_utf8_len(s.take(i + 1)) == spec_utf8_len(s.take(i)) + spec_utf8_width(s[i]),
{
    assert(s.take(i + 1).drop_last() =~= s.take(i));
}

/// A prefix is no longer in UTF-8 than the whole.
pub proof fn lemma_utf8_prefix(s: Seq<char>, i: int)
    requires
        0 <= i <= s.len(),
    ensures
        spec_utf8_len(s.take(i)) <= spec_utf8_len(s),
    decreases s.len(),
{
    if i == s.len() {
        assert(s.take(i) =~= s);
    } else {
        lemma_utf8_prefix(s.drop_last(), i);
        assert(s.drop_last().take(i) =~= s.take(i));
    }
}

/// The characters read since the last token was cut.
struct Buffer {
    character_start: Option<u32>,
    line: u32,
    value: Vec<char>,
    bytes: u32,
}

impl View for Buffer {
    type V = BufferV;

    closed spec fn view(&self) -> BufferV {
        BufferV {
            start: match self.character_start {
                Some(s) => Some(s as nat),
                None => None,
            },
            line: self.line as nat,
            value: self.value@,
        }
    }
}

impl Buffer {
    /// The buffer's byte count is that of its characters.
    spec fn counted(&self) -> bool {
        self.bytes == spec_utf8_len(self.value@)
    }

    /// Reads the character `c` at `column` of `line`.
    fn update(&mut self, c: char, column: u32, line: u32)
        requires
            old(self).counted(),
            old(self).bytes + spec_utf8_width(c) <= u32::MAX,
        ensures
            final(self).counted(),
            final(self).bytes == old(self).bytes + spec_utf8_width(c),
            final(self).character_start == (match old(self).character_start {
                Some(s) => Some(s),
                None => Some(column),
            }),
            ({
                let st = LexState { tokens: Seq::empty(), buffer: old(self)@ };
                final(self)@ == extend(st, c, column as nat, line as nat).buffer
            }),
    {
        let (new_column, new_line) = match self.character_start {
            Some(character_start) => (character_start, self.line),
            None => (column, line),
        };
        self.character_start = Some(new_column);
        self.line = new_line;
        proof {
            assert(self.value@.push(c).drop_last() =~= self.value@);
        }
        self.value.push(c);
        self.bytes = self.bytes + utf8_width(c);
    }
}

/// The state's model.
spec fn state(tokens: Seq<(Token, TokenSource)>, buffer: BufferV) -> LexState {
    LexState { tokens: lexemes(tokens), buffer }
}

/// Cuts the characters read so far into a token, if they make one, and
/// empties the buffer.
fn push_current_buffer(tokens: &mut Vec<(Token, TokenSource)>, buffer: &mut Buffer) -> (r: Result<
    (),
    Vec<ParseError>,
>)
    requires
        old(buffer).counted(),
        old(buffer).bytes > 0 ==> old(buffer).character_start is Some,
        old(buffer).character_start matches Some(s) ==> s + old(buffer).bytes <= u32::MAX,
    ensures
        final(buffer).counted(),
        final(buffer).bytes == 0,
        final(buffer).character_start is None,
        match r {
            Ok(()) => flush(state(old(tokens)@, old(buffer)@)) == Ok::<LexState, ParseErrorV>(
                state(final(tokens)@, final(buffer)@),
            ),
            Err(errors) => errors@.len() == 1 && flush(state(old(tokens)@, old(buffer)@)) == Err::<
                LexState,
                ParseErrorV,
            >(errors@[0]@),
        },
{
    let len = buffer.bytes;
    let character_start = match buffer.character_start {
        Some(s) => s,
        None => 0,
    };
    let line = buffer.line;
    let ghost before = state(tokens@, buffer@);
    let mut result: Result<(), Vec<ParseError>> = Ok(());
    if len > 0 {
        let word = string_from_chars(&buffer.value);
        match Token::from_str(
            word.as_str(),
            "my_file",
            line,
            character_start..(character_start + len - 1),
        ) {
            Ok(Some(token)) => {
                let source = TokenSource::new("my_file", line, character_start..(character_start + len - 1));
                proof {
                    reveal_strlit("my_file");
                }
                let ghost pair = (token, source);
                tokens.push((token, source));
                assert(lexemes(tokens@) =~= before.tokens.push((pair.0@, pair.1@)));
            },
            Ok(None) => {},
            Err(error) => {
                let mut errors = Vec::new();
                errors.push(error);
                result = Err(errors);
            },
        }
    }
    buffer.character_start = None;
    buffer.value = Vec::new();
    buffer.bytes = 0;
    proof {
        reveal_strlit("my_file");
        assert(buffer.value@ =~= Seq::<char>::empty());
    }
    result
}

/// Cuts the program's text into tokens, each with its source: the file
/// `my_file`, the line, and the range of byte columns it spans. The first
/// lexical error ends lexing.
#[verifier::loop_isolation(false)]
pub fn parse_program(code: &str) -> (r: Result<Vec<(Token, TokenSource)>, Vec<ParseError>>)
    requires
        spec_utf8_len(code@) < u32::MAX,
    ensures
        match r {
            Ok(tokens) => lex(code@) == Ok::<Seq<(TokenV, SourceV)>, ParseErrorV>(lexemes(tokens@)),
            Err(errors) => errors@.len() == 1 && lex(code@) == Err::<
                Seq<(TokenV, SourceV)>,
                ParseErrorV,
            >(errors@[0]@),
        },
{
    let chars = chars_of(code);
    let ghost cs = chars@;
    let mut tokens: Vec<(Token, TokenSource)> = Vec::new();
    let mut buffer = Buffer { character_start: None, line: 0, value: Vec::new(), bytes: 0 };
    let mut line: u32 = 0;
    let mut col: u32 = 0;
    let mut i: usize = 0;
    assert(lexemes(tokens@) =~= Seq::empty());
    assert(buffer@ == BufferV { start: None, line: 0, value: Seq::empty() }) by {
        assert(buffer.value@ =~= Seq::<char>::empty());
    }
    assert(state(tokens@, buffer@) == initial_state());
    assert(cs.take(0) =~= Seq::<char>::empty());
    while i < chars.len()
        invariant
            i <= cs.len(),
            cs == chars@,
            cs == code@,
            spec_utf8_len(cs) < u32::MAX,
            buffer.counted(),
            buffer.bytes > 0 ==> buffer.character_start is Some,
            buffer.character_start matches Some(s) ==> s + buffer.bytes <= spec_utf8_len(cs.take(i as int)) + 1,
            line <= spec_utf8_len(cs.take(i as int)),
            col <= spec_utf8_len(cs.take(i as int)),
            lex(code@) == lex_from(cs, i as nat, line as nat, col as nat, state(tokens@, buffer@)),
        decreases cs.len() - i,
    {
        let c = chars[i];
        proof {
            lemma_utf8_take(cs, i as int);
            lemma_utf8_prefix(cs, i + 1);
        }
        if c == '\n' {
            line = line + 1;
            col = 0;
        } else if c == '\r' && i + 1 < chars.len() && chars[i + 1] == '\n' {
        } else {
            let column = col + 1;
            let line_number = line + 1;
            let ghost st = state(tokens@, buffer@);
            if c == '=' {
                if let Err(errors) = push_current_buffer(&mut tokens, &mut buffer) {
                    return Err(errors);
                }
                buffer.update('=', column, line_number);
                if let Err(errors) = push_current_buffer(&mut tokens, &mut buffer) {
                    return Err(errors);
                }
            } else if c == '>' {
                if buffer.value.len() == 1 && buffer.value[0] == '-' {
                    assert(buffer.value@ =~= seq!['-']);
                    buffer.update('>', column, line_number);
                    if let Err(errors) = push_current_buffer(&mut tokens, &mut buffer) {
                        return Err(errors);
                    }
                } else {
                    assert(buffer.value@ != seq!['-']) by {
                        if buffer.value@ == seq!['-'] {
                            assert(buffer.value@.len() == 1);
                        }
                    }
                    if let Err(errors) = push_current_buffer(&mut tokens, &mut buffer) {
                        return Err(errors);
                    }
                    buffer.update('>', column, line_number);
                }
            } else if is_whitespace(c) {
                if let Err(errors) = push_current_buffer(&mut tokens, &mut buffer) {
                    return Err(errors);
                }
            } else if is_ascii_punctuation(c) && c != '_' {
                if let Err(errors) = push_current_buffer(&mut tokens, &mut buffer) {
                    return Err(errors);
                }
                buffer.update(c, column, line_number);
            } else {
                if buffer.bytes == 1 && is_ascii_punctuation(buffer.value[0]) && buffer.value[0] != '_' {
                    if let Err(errors) = push_current_buffer(&mut tokens, &mut buffer) {
                        return Err(errors);
                    }
                }
                buffer.update(c, column, line_number);
            }
            assert(step(st, c, column as nat, line_number as nat) == Ok::<LexState, ParseErrorV>(
                state(tokens@, buffer@),
            ));
            col = col + utf8_width(c);
        }
        i += 1;
    }
    proof {
        lemma_utf8_prefix(cs, cs.len() as int);
    }
    if let Err(errors) = push_current_buffer(&mut tokens, &mut buffer) {
        return Err(errors);
    }
    Ok(tokens)
}

/// Whether every character of `v` from position `from` on is a decimal digit.
fn digits_from(v: &Vec<char>, from: usize) -> (b: bool)
    requires
        from <= v@.len(),
    ensures
        b == all_digits(v@.skip(from as int)),
{
    let mut i = from;
    while i < v.len()
        invariant
            from <= i <= v@.len(),
            forall|j: int| from <= j < i ==> (#[trigger] spec_digit_value(v@[j])) is Some,
        decreases v@.len() - i,
    {
        let c = v[i];
        if !(0x30 <= c as u32 && c as u32 <= 0x39) {
            assert(spec_digit_value(v@.skip(from as int)[i - from]) is None);
            return false;
        }
        i += 1;
    }
    assert forall|j: int| 0 <= j < v@.skip(from as int).len() implies (#[trigger] spec_digit_value(
        v@.skip(from as int)[j],
    )) is Some by {
        assert(v@.skip(from as int)[j] == v@[from + j]);
    }
    true
}

/// The value of a digit sequence grows with each digit.
proof fn lemma_digits_prefix(d: Seq<char>, k: int)
    requires
        0 <= k <= d.len(),
    ensures
        digits_value(d.take(k)) <= digits_value(d),
    decreases d.len(),
{
    if k < d.len() {
        lemma_digits_prefix(d.drop_last(), k);
        assert(d.drop_last().take(k) =~= d.take(k));
    } else {
        assert(d.take(k) =~= d);
    }
}

/// The number `s` writes, as `str::parse::<u32>` reads it.
fn parse_number(v: &Vec<char>) -> (r: Option<u32>)
    ensures
        r == parse_u32(v@),
{
    let from: usize = if v.len() > 0 && v[0] == '+' {
        1
    } else {
        0
    };
    let ghost d = numeral_digits(v@);
    assert(d =~= v@.skip(from as int));
    if from >= v.len() || !digits_from(v, from) {
        return None;
    }
    let mut value: u64 = 0;
    let mut i = from;
    assert(d.take(0) =~= Seq::<char>::empty());
    while i < v.len()
        invariant
            from <= i <= v@.len(),
            d =~= v@.skip(from as int),
            d == numeral_digits(v@),
            all_digits(d),
            value == digits_value(d.take(i - from)),
            value <= u32::MAX,
        decreases v@.len() - i,
    {
        proof {
            assert(d.take(i - from + 1).drop_last() =~= d.take(i - from));
            assert(d.take(i - from + 1).last() == d[i - from]);
            assert(d[i - from] == v@[i as int]);
            assert(spec_digit_value(d[i - from]) is Some);
        }
        let code = v[i] as u32;
        assert(0x30 <= code <= 0x39);
        let digit = (code - 0x30) as u64;
        assert(spec_digit_value(d[i - from]) == Some(digit as nat));
        value = value * 10 + digit;
        assert(value == digits_value(d.take(i - from + 1)));
        if value > u32::MAX as u64 {
            proof {
                lemma_digits_prefix(d, i - from + 1);
            }
            return None;
        }
        i += 1;
    }
    assert(d.take(d.len() as int) =~= d);
    Some(value as u32)
}

/// The position of the first character of `v` that is not white space.
fn trimmed_start(v: &Vec<char>) -> (i: usize)
    ensures
        i <= v@.len(),
        trim_start(v@) == v@.skip(i as int),
{
    let mut i: usize = 0;
    assert(v@.skip(0) =~= v@);
    while i < v.len() && is_whitespace(v[i])
        invariant
            i <= v@.len(),
            trim_start(v@) == trim_start(v@.skip(i as int)),
        decreases v@.len() - i,
    {
        assert(v@.skip(i as int).skip(1) =~= v@.skip(i + 1));
        i += 1;
    }
    i
}

/// The characters of `v` from `from` on, without trailing white space.
fn trimmed(v: &Vec<char>, from: usize) -> (t: Vec<char>)
    requires
        from <= v@.len(),
    ensures
        t@ == trim_end(v@.skip(from as int)),
{
    let mut end = v.len();
    assert(v@.skip(from as int).take((end - from) as int) =~= v@.skip(from as int));
    while end > from && is_whitespace(v[end - 1])
        invariant
            from <= end <= v@.len(),
            trim_end(v@.skip(from as int)) == trim_end(v@.skip(from as int).take((end - from) as int)),
        decreases end,
    {
        assert(v@.skip(from as int).take((end - from) as int).drop_last() =~= v@.skip(from as int).take(
            (end - from - 1) as int,
        ));
        end -= 1;
    }
    let mut t: Vec<char> = Vec::new();
    let mut k = from;
    while k < end
        invariant
            from <= k <= end <= v@.len(),
            t@ =~= v@.subrange(from as int, k as int),
        decreases end - k,
    {
        t.push(v[k]);
        k += 1;
    }
    assert(t@ =~= v@.skip(from as int).take((end - from) as int));
    t
}

impl Token {
    /// The token the word `s`, found in `file` at `line` over
    /// `character_range`, stands for: none if it is blank, a keyword or
    /// symbol, an error if it is another single punctuation character, else a
    /// number if it reads as one, else an identifier.
    pub fn from_str(s: &str, file: &str, line: u32, character_range: Range<u32>) -> (r: Result<
        Option<Self>,
        ParseError,
    >)
        ensures
            match r {
                Ok(Some(t)) => lex_word(s@) == Lexed::Token(t@),
                Ok(None) => lex_word(s@) == Lexed::Nothing,
                Err(e) => lex_word(s@) == Lexed::Unexpected && e@ == ParseErrorV {
                    error: unexpected_message(s@),
                    file: file@,
                    line: line as nat,
                    start: character_range.start as nat,
                    end: character_range.end as nat,
                },
            },
    {
        let v = chars_of(s);
        let start = trimmed_start(&v);
        let t = trimmed(&v, start);
        assert(t@ == trim(s@));
        if t.len() == 0 {
            return Ok(None);
        }
        let word = string_from_chars(&t);
        match keyword_token(&word) {
            Some(token) => {
                return Ok(Some(token));
            },
            None => {},
        }
        if v.len() == 1 && utf8_width(v[0]) == 1 && is_ascii_punctuation(v[0]) && v[0] != '_' {
            assert(lone_punctuation(s@)) by {
                lemma_utf8_take(v@, 0);
                assert(v@.take(0) =~= Seq::<char>::empty());
                assert(v@.take(1) =~= v@);
                assert(spec_utf8_len(Seq::<char>::empty()) == 0);
            }
            let mut error = "Unexpected character `".to_owned();
            error.append(s);
            error.append("`");
            return Err(ParseError { error, file: file.to_owned(), line, character_range });
        }
        assert(!lone_punctuation(s@)) by {
            if lone_punctuation(s@) {
                if v@.len() >= 2 {
                    crate::parsing::lemma_utf8_prefix(v@, 2);
                    lemma_utf8_take(v@, 0);
                    lemma_utf8_take(v@, 1);
                    assert(v@.take(0) =~= Seq::<char>::empty());
                }
                if v@.len() == 1 {
                    lemma_utf8_take(v@, 0);
                    assert(v@.take(0) =~= Seq::<char>::empty());
                    assert(v@.take(1) =~= v@);
                }
            }
        }
        match parse_number(&v) {
            Some(value) => Ok(Some(Token::UIntValue(value))),
            None => Ok(Some(Token::Identifier(word))),
        }
    }
}

/// The token a keyword or symbol stands for.
fn keyword_token(word: &String) -> (r: Option<Token>)
    ensures
        match r {
            Some(t) => keyword(word@) == Some(t@),
            None => keyword(word@) is None,
        },
{
    if *word == "uint".to_owned() {
        Some(Token::TypeKeyword(Type::UInt))
    } else if *word == "boolean".to_owned() {
        Some(Token::TypeKeyword(Type::Boolean))
    } else if *word == "true".to_owned() {
        Some(Token::TrueKeyword)
    } else if *word == "false".to_owned() {
        Some(Token::FalseKeyword)
    } else if *word == "function".to_owned() {
        Some(Token::FunctionKeyword)
    } else if *word == "infer".to_owned() {
        Some(Token::InferKeyword)
    } else if *word == "if".to_owned() {
        Some(Token::IfKeyword)
    } else if *word == "else".to_owned() {
        Some(Token::ElseKeyword)
    } else if *word == "return".to_owned() {
        Some(Token::ReturnKeyword)
    } else if *word == "=".to_owned() {
        Some(Token::AssignmentOperator)
    } else if *word == "(".to_owned() {
        Some(Token::LeftParenthesis)
    } else if *word == ")".to_owned() {
        Some(Token::RightParenthesis)
    } else if *word == "{".to_owned() {
        Some(Token::LeftCurleyBrace)
    } else if *word == "}".to_owned() {
        Some(Token::RightCurleyBrace)
    } else if *word == ">".to_owned() {
        Some(Token::RightAngle)
    } else if *word == "!".to_owned() {
        Some(Token::NotOperator)
    } else if *word == "+".to_owned() {
        Some(Token::PlusOperator)
    } else if *word == ";".to_owned() {
        Some(Token::SemiColon)
    } else if *word == ",".to_owned() {
        Some(Token::Comma)
    } else if *word == "->".to_owned() {
        Some(Token::FunctionSignitureSplitter)
    } else {
        None
    }
}

} // verus!
