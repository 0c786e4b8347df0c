//! What it is to read a token: the blanks and comments that separate tokens, the shape of
//! each lexeme, and the token or failure that a lexeme stands for.

use vstd::prelude::*;
use crate::lexer::token::{
    ErrorKind, KeywordKind, NumberKind, OperatorKind, PunctuationKind, RelopKind, TokenView,
    keyword_text,
};

verus! {

/// The blanks that separate tokens: space, tab, line feed, form feed, carriage return.
pub open spec fn is_space(c: char) -> bool {
    c == ' ' || c == '\t' || c == '\n' || c == '\x0C' || c == '\r'
}

/// The letters of the ASCII alphabet.
pub open spec fn is_letter(c: char) -> bool {
    ('a' <= c && c <= 'z') || ('A' <= c && c <= 'Z')
}

/// The decimal digits.
pub open spec fn is_digit(c: char) -> bool {
    '0' <= c && c <= '9'
}

/// The characters that an identifier or a keyword is made of.
pub open spec fn is_word_char(c: char) -> bool {
    is_letter(c) || is_digit(c) || c == '_'
}

/// The line, counted from 1, of the character at index `at` of `source`.
pub open spec fn line_at(source: Seq<char>, at: int) -> nat
    decreases at,
{
    if at <= 0 {
        1
    } else if source[at - 1] == '\n' {
        line_at(source, at - 1) + 1
    } else {
        line_at(source, at - 1)
    }
}

/// The column, counted from 1, of the character at index `at` of `source`.
pub open spec fn column_at(source: Seq<char>, at: int) -> nat
    decreases at,
{
    if at <= 0 {
        1
    } else if source[at - 1] == '\n' {
        1
    } else {
        column_at(source, at - 1) + 1
    }
}

/// Whether the two characters that close a comment stand at `at`.
pub open spec fn closes_comment(source: Seq<char>, at: int) -> bool {
    0 <= at && at + 1 < source.len() && source[at] == '%' && source[at + 1] == '}'
}

/// Whether the two characters that open a comment stand at `at`.
pub open spec fn opens_comment(source: Seq<char>, at: int) -> bool {
    0 <= at && at + 1 < source.len() && source[at] == '{' && source[at + 1] == '%'
}

/// Where a comment ends whose body begins at `from`: just behind its closing pair, or at the
/// end of `source` when nothing closes it.
pub open spec fn comment_end(source: Seq<char>, from: int) -> int
    decreases source.len() - from,
{
    if from < 0 || from >= source.len() {
        source.len() as int
    } else if closes_comment(source, from) {
        from + 2
    } else {
        comment_end(source, from + 1)
    }
}

/// The index of the first character at or behind `from` that is neither a blank nor part of
/// a comment.
pub open spec fn skip_blank(source: Seq<char>, from: int) -> int
    decreases source.len() - from,
    via skip_blank_decreases
{
    if from < 0 || from >= source.len() {
        from
    } else if is_space(source[from]) {
        skip_blank(source, from + 1)
    } else if opens_comment(source, from) {
        skip_blank(source, comment_end(source, from + 2))
    } else {
        from
    }
}

#[via_fn]
proof fn skip_blank_decreases(source: Seq<char>, from: int) {
    if 0 <= from < source.len() && !is_space(source[from]) && opens_comment(source, from) {
        lemma_comment_end_bounds(source, from + 2);
    }
}

/// A comment ends behind where its body begins, and inside the source.
pub proof fn lemma_comment_end_bounds(source: Seq<char>, from: int)
    requires
        0 <= from <= source.len(),
    ensures
        from <= comment_end(source, from) <= source.len(),
    decreases source.len() - from,
{
    if from < source.len() && !closes_comment(source, from) {
        lemma_comment_end_bounds(source, from + 1);
    }
}

/// Behind the blanks and comments stands the end of the source, or a character that is
/// no blank and opens no comment.
pub proof fn lemma_skip_blank_bounds(source: Seq<char>, from: int)
    requires
        0 <= from <= source.len(),
    ensures
        from <= skip_blank(source, from) <= source.len(),
        skip_blank(source, from) < source.len() ==> {
            &&& !is_space(source[skip_blank(source, from)])
            &&& !opens_comment(source, skip_blank(source, from))
        },
    decreases source.len() - from,
{
    if from < source.len() {
        if is_space(source[from]) {
            lemma_skip_blank_bounds(source, from + 1);
        } else if opens_comment(source, from) {
            lemma_comment_end_bounds(source, from + 2);
            lemma_skip_blank_bounds(source, comment_end(source, from + 2));
        }
    }
}

/// The end of the longest run of digits that begins at `from`.
pub open spec fn digits_end(source: Seq<char>, from: int) -> int
    decreases source.len() - from,
{
    if 0 <= from < source.len() && is_digit(source[from]) {
        digits_end(source, from + 1)
    } else {
        from
    }
}

/// The end of the longest run of letters, digits and underscores that begins at `from`.
pub open spec fn word_end(source: Seq<char>, from: int) -> int
    decreases source.len() - from,
{
    if 0 <= from < source.len() && is_word_char(source[from]) {
        word_end(source, from + 1)
    } else {
        from
    }
}

/// The keyword that `text` spells, if it spells one.
pub open spec fn keyword_of(text: Seq<char>) -> Option<KeywordKind> {
    if text == keyword_text(KeywordKind::If) {
        Some(KeywordKind::If)
    } else if text == keyword_text(KeywordKind::Int) {
        Some(KeywordKind::Int)
    } else if text == keyword_text(KeywordKind::Float) {
        Some(KeywordKind::Float)
    } else if text == keyword_text(KeywordKind::Char) {
        Some(KeywordKind::Char)
    } else if text == keyword_text(KeywordKind::Then) {
        Some(KeywordKind::Then)
    } else if text == keyword_text(KeywordKind::Type) {
        Some(KeywordKind::Type)
    } else if text == keyword_text(KeywordKind::Else) {
        Some(KeywordKind::Else)
    } else if text == keyword_text(KeywordKind::Elsif) {
        Some(KeywordKind::Elsif)
    } else if text == keyword_text(KeywordKind::While) {
        Some(KeywordKind::While)
    } else if text == keyword_text(KeywordKind::For) {
        Some(KeywordKind::For)
    } else if text == keyword_text(KeywordKind::Do) {
        Some(KeywordKind::Do)
    } else if text == keyword_text(KeywordKind::Main) {
        Some(KeywordKind::Main)
    } else if text == keyword_text(KeywordKind::Void) {
        Some(KeywordKind::Void)
    } else {
        None
    }
}

/// What the characters of one lexeme spell.
#[derive(Debug, Clone, Copy, PartialEq, Eq)]
pub enum Form {
    Id,
    Char(char),
    Number(NumberKind),
    Relop(RelopKind),
    Operator(OperatorKind),
    Punctuation(PunctuationKind),
    Keyword(KeywordKind),
    Eof,
    Error(ErrorKind),
}

/// One lexeme: the index just behind its last character, and what it spells. For a failure,
/// the lexeme is what was read before the character that broke it.
pub struct Reading {
    pub end: int,
    pub form: Form,
}

/// Whether the character at `at` is `c`.
pub open spec fn has_char(source: Seq<char>, at: int, c: char) -> bool {
    0 <= at < source.len() && source[at] == c
}

/// Reads the exponent that may follow a mantissa ending at `at`; `fraction` tells whether
/// the mantissa has a fractional part.
pub open spec fn read_exponent(source: Seq<char>, at: int, fraction: bool) -> Reading {
    if has_char(source, at, 'E') {
        let signed = has_char(source, at + 1, '+') || has_char(source, at + 1, '-');
        let digits = if signed {
            at + 2
        } else {
            at + 1
        };
        if digits_end(source, digits) > digits {
            Reading { end: digits_end(source, digits), form: Form::Number(NumberKind::Float) }
        } else if signed {
            Reading { end: digits, form: Form::Error(ErrorKind::EndedAfterExpoentSign) }
        } else {
            Reading { end: digits, form: Form::Error(ErrorKind::EndedWithEExpoent) }
        }
    } else if fraction {
        Reading { end: at, form: Form::Number(NumberKind::Float) }
    } else {
        Reading { end: at, form: Form::Number(NumberKind::Integer) }
    }
}

/// Reads the number that begins with the digit at `start`: digits, then optionally a dot
/// and at least one digit, then optionally an exponent.
pub open spec fn read_number(source: Seq<char>, start: int) -> Reading {
    let whole = digits_end(source, start);
    if has_char(source, whole, '.') {
        if digits_end(source, whole + 1) > whole + 1 {
            read_exponent(source, digits_end(source, whole + 1), true)
        } else {
            Reading { end: whole + 1, form: Form::Error(ErrorKind::FractionEndedWithADot) }
        }
    } else {
        read_exponent(source, whole, false)
    }
}

/// Reads the character literal that begins with the quote at `start`: a quote, one
/// character other than a quote, and a quote.
pub open spec fn read_char_literal(source: Seq<char>, start: int) -> Reading {
    if start + 1 >= source.len() {
        Reading { end: start + 1, form: Form::Error(ErrorKind::UnclosedChar) }
    } else if source[start + 1] != '\'' && has_char(source, start + 2, '\'') {
        Reading { end: start + 3, form: Form::Char(source[start + 1]) }
    } else {
        Reading { end: start + 2, form: Form::Error(ErrorKind::UnclosedChar) }
    }
}

/// Reads the identifier or keyword that begins at `start`: the longest run of word
/// characters, a keyword where it spells one.
pub open spec fn read_word(source: Seq<char>, start: int) -> Reading {
    let end = word_end(source, start);
    match keyword_of(source.subrange(start, end)) {
        Some(kind) => Reading { end, form: Form::Keyword(kind) },
        None => Reading { end, form: Form::Id },
    }
}

/// Reads an operator of one character, or of two where `second` follows it.
pub open spec fn read_pair(
    source: Seq<char>,
    start: int,
    second: char,
    double: Form,
    single: Form,
) -> Reading {
    if has_char(source, start + 1, second) {
        Reading { end: start + 2, form: double }
    } else {
        Reading { end: start + 1, form: single }
    }
}

/// Reads the lexeme that begins at `start`, where no blank and no comment stands.
pub open spec fn read_lexeme(source: Seq<char>, start: int) -> Reading {
    if start < 0 || start >= source.len() {
        Reading { end: start, form: Form::Eof }
    } else {
        let c = source[start];
        let one = start + 1;
        if c == ')' {
            Reading { end: one, form: Form::Operator(OperatorKind::Pardir) }
        } else if c == '(' {
            Reading { end: one, form: Form::Operator(OperatorKind::Paresq) }
        } else if c == '/' {
            Reading { end: one, form: Form::Operator(OperatorKind::Div) }
        } else if c == '-' {
            Reading { end: one, form: Form::Operator(OperatorKind::Sub) }
        } else if c == '+' {
            Reading { end: one, form: Form::Operator(OperatorKind::Sum) }
        } else if c == ',' {
            Reading { end: one, form: Form::Punctuation(PunctuationKind::Comma) }
        } else if c == ';' {
            Reading { end: one, form: Form::Punctuation(PunctuationKind::EndExp) }
        } else if c == '[' {
            Reading { end: one, form: Form::Punctuation(PunctuationKind::BeginBlock) }
        } else if c == ']' {
            Reading { end: one, form: Form::Punctuation(PunctuationKind::EndBlock) }
        } else if c == '*' {
            read_pair(
                source,
                start,
                '*',
                Form::Operator(OperatorKind::Exp),
                Form::Operator(OperatorKind::Mult),
            )
        } else if c == '<' {
            read_pair(source, start, '=', Form::Relop(RelopKind::LE), Form::Relop(RelopKind::LT))
        } else if c == '>' {
            read_pair(source, start, '=', Form::Relop(RelopKind::GE), Form::Relop(RelopKind::GT))
        } else if c == '!' {
            read_pair(
                source,
                start,
                '=',
                Form::Relop(RelopKind::NE),
                Form::Error(ErrorKind::InvalidTokenAfterExclamation),
            )
        } else if c == '=' {
            read_pair(
                source,
                start,
                '=',
                Form::Relop(RelopKind::EQ),
                Form::Error(ErrorKind::MissingEqual),
            )
        } else if c == ':' {
            read_pair(
                source,
                start,
                '=',
                Form::Punctuation(PunctuationKind::Assigment),
                Form::Error(ErrorKind::MissingEqual),
            )
        } else if c == '\'' {
            read_char_literal(source, start)
        } else if is_digit(c) {
            read_number(source, start)
        } else if is_letter(c) || c == '_' {
            read_word(source, start)
        } else {
            Reading { end: one, form: Form::Error(ErrorKind::UnknownToken) }
        }
    }
}

/// The mathematical value of a lexical failure: the text read so far, the kind of the
/// failure, and the line and column of the first character of that text.
pub struct LexErrorView {
    pub value: Seq<char>,
    pub kind: ErrorKind,
    pub line: nat,
    pub column: nat,
}

/// The token or the failure that a lexeme with the given form, text and place stands for.
pub open spec fn token_of(form: Form, text: Seq<char>, line: nat, column: nat) -> Result<
    TokenView,
    LexErrorView,
> {
    match form {
        Form::Id => Ok(TokenView::Id { value: text, line, column }),
        Form::Char(value) => Ok(TokenView::Char { value, line, column }),
        Form::Number(kind) => Ok(TokenView::Number { value: text, kind, line, column }),
        Form::Relop(kind) => Ok(TokenView::Relop { kind, line, column }),
        Form::Operator(kind) => Ok(TokenView::Operator { kind, line, column }),
        Form::Punctuation(kind) => Ok(TokenView::Punctuation { kind, line, column }),
        Form::Keyword(kind) => Ok(TokenView::Keyword { kind, line, column }),
        Form::Eof => Ok(TokenView::Eof),
        Form::Error(kind) => Err(LexErrorView { value: text, kind, line, column }),
    }
}

/// The outcome of reading one token: where the reader stands afterwards, and the token or
/// the failure.
pub struct Scan {
    pub end: int,
    pub found: Result<TokenView, LexErrorView>,
}

/// Reads one token of `source` from index `from` on: skips blanks and comments, then reads
/// the lexeme that follows them.
pub open spec fn scan_token(source: Seq<char>, from: int) -> Scan {
    let start = skip_blank(source, from);
    let reading = read_lexeme(source, start);
    Scan {
        end: reading.end,
        found: token_of(
            reading.form,
            source.subrange(start, reading.end),
            line_at(source, start),
            column_at(source, start),
        ),
    }
}

/// A run of digits holds digits only, and no digit follows it.
pub proof fn lemma_digits_end_bounds(source: Seq<char>, from: int)
    requires
        0 <= from <= source.len(),
    ensures
        from <= digits_end(source, from) <= source.len(),
        forall|i: int| from <= i < digits_end(source, from) ==> is_digit(#[trigger] source[i]),
        digits_end(source, from) < source.len() ==> !is_digit(source[digits_end(source, from)]),
    decreases source.len() - from,
{
    if from < source.len() && is_digit(source[from]) {
        lemma_digits_end_bounds(source, from + 1);
    }
}

/// A run of word characters holds word characters only, and none follows it.
pub proof fn lemma_word_end_bounds(source: Seq<char>, from: int)
    requires
        0 <= from <= source.len(),
    ensures
        from <= word_end(source, from) <= source.len(),
        forall|i: int| from <= i < word_end(source, from) ==> is_word_char(#[trigger] source[i]),
        word_end(source, from) < source.len() ==> !is_word_char(source[word_end(source, from)]),
    decreases source.len() - from,
{
    if from < source.len() && is_word_char(source[from]) {
        lemma_word_end_bounds(source, from + 1);
    }
}

} // verus!
