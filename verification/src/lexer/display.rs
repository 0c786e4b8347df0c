//! The texts that show tokens and lexical failures to a reader.

use vstd::prelude::*;
use vstd::string::StringExecFns;
use crate::lexer::scan::LexErrorView;
use crate::lexer::text::{push_char, text_of_char};
use crate::lexer::token::{
    ErrorKind, KeywordKind, NumberKind, OperatorKind, PunctuationKind, RelopKind, Token,
    TokenView,
};
use crate::lexer::LexError;

verus! {

/// The name of a kind of number.
pub open spec fn number_kind_name(kind: NumberKind) -> Seq<char> {
    match kind {
        NumberKind::Integer => "Integer"@,
        NumberKind::Float => "Float"@,
    }
}

/// The name of a relational operator.
pub open spec fn relop_name(kind: RelopKind) -> Seq<char> {
    match kind {
        RelopKind::GT => "GT"@,
        RelopKind::LT => "LT"@,
        RelopKind::LE => "LE"@,
        RelopKind::EQ => "EQ"@,
        RelopKind::NE => "NE"@,
        RelopKind::GE => "GE"@,
    }
}

/// The name of an arithmetic operator or parenthesis.
pub open spec fn operator_name(kind: OperatorKind) -> Seq<char> {
    match kind {
        OperatorKind::Sum => "Sum"@,
        OperatorKind::Sub => "Sub"@,
        OperatorKind::Mult => "Mult"@,
        OperatorKind::Div => "Div"@,
        OperatorKind::Exp => "Exp"@,
        OperatorKind::Paresq => "Paresq"@,
        OperatorKind::Pardir => "Pardir"@,
    }
}

/// The name of a punctuation mark.
pub open spec fn punctuation_name(kind: PunctuationKind) -> Seq<char> {
    match kind {
        PunctuationKind::Assigment => "Assigment"@,
        PunctuationKind::Comma => "Comma"@,
        PunctuationKind::EndExp => "EndExp"@,
        PunctuationKind::BeginBlock => "BeginBlock"@,
        PunctuationKind::EndBlock => "EndBlock"@,
    }
}

/// The name of a keyword.
pub open spec fn keyword_name(kind: KeywordKind) -> Seq<char> {
    match kind {
        KeywordKind::If => "If"@,
        KeywordKind::Int => "Int"@,
        KeywordKind::Float => "Float"@,
        KeywordKind::Char => "Char"@,
        KeywordKind::Then => "Then"@,
        KeywordKind::Type => "Type"@,
        KeywordKind::Else => "Else"@,
        KeywordKind::Elsif => "Elsif"@,
        KeywordKind::While => "While"@,
        KeywordKind::For => "For"@,
        KeywordKind::Do => "Do"@,
        KeywordKind::Main => "Main"@,
        KeywordKind::Void => "Void"@,
    }
}

/// The name of a kind of lexical failure.
pub open spec fn error_name(kind: ErrorKind) -> Seq<char> {
    match kind {
        ErrorKind::UnclosedChar => "UnclosedChar"@,
        ErrorKind::InvalidTokenAfterExclamation => "InvalidTokenAfterExclamation"@,
        ErrorKind::FractionEndedWithADot => "FractionEndedWithADot"@,
        ErrorKind::EndedWithEExpoent => "EndedWithEExpoent"@,
        ErrorKind::EndedAfterExpoentSign => "EndedAfterExpoentSign"@,
        ErrorKind::MissingEqual => "MissingEqual"@,
        ErrorKind::UnknownToken => "UnknownToken"@,
    }
}

impl NumberKind {
    /// The name of this kind.
    pub fn name(&self) -> (r: &'static str)
        ensures
            r@ == number_kind_name(*self),
    {
        match self {
            NumberKind::Integer => "Integer",
            NumberKind::Float => "Float",
        }
    }
}

impl RelopKind {
    /// The name of this operator.
    pub fn name(&self) -> (r: &'static str)
        ensures
            r@ == relop_name(*self),
    {
        match self {
            RelopKind::GT => "GT",
            RelopKind::LT => "LT",
            RelopKind::LE => "LE",
            RelopKind::EQ => "EQ",
            RelopKind::NE => "NE",
            RelopKind::GE => "GE",
        }
    }
}

impl OperatorKind {
    /// The name of this operator.
    pub fn name(&self) -> (r: &'static str)
        ensures
            r@ == operator_name(*self),
    {
        match self {
            OperatorKind::Sum => "Sum",
            OperatorKind::Sub => "Sub",
            OperatorKind::Mult => "Mult",
            OperatorKind::Div => "Div",
            OperatorKind::Exp => "Exp",
            OperatorKind::Paresq => "Paresq",
            OperatorKind::Pardir => "Pardir",
        }
    }
}

impl PunctuationKind {
    /// The name of this mark.
    pub fn name(&self) -> (r: &'static str)
        ensures
            r@ == punctuation_name(*self),
    {
        match self {
            PunctuationKind::Assigment => "Assigment",
            PunctuationKind::Comma => "Comma",
            PunctuationKind::EndExp => "EndExp",
            PunctuationKind::BeginBlock => "BeginBlock",
            PunctuationKind::EndBlock => "EndBlock",
        }
    }
}

impl KeywordKind {
    /// The name of this keyword.
    pub fn name(&self) -> (r: &'static str)
        ensures
            r@ == keyword_name(*self),
    {
        match self {
            KeywordKind::If => "If",
            KeywordKind::Int => "Int",
            KeywordKind::Float => "Float",
            KeywordKind::Char => "Char",
            KeywordKind::Then => "Then",
            KeywordKind::Type => "Type",
            KeywordKind::Else => "Else",
            KeywordKind::Elsif => "Elsif",
            KeywordKind::While => "While",
            KeywordKind::For => "For",
            KeywordKind::Do => "Do",
            KeywordKind::Main => "Main",
            KeywordKind::Void => "Void",
        }
    }
}

impl ErrorKind {
    /// The name of this kind of failure.
    pub fn name(&self) -> (r: &'static str)
        ensures
            r@ == error_name(*self),
    {
        match self {
            ErrorKind::UnclosedChar => "UnclosedChar",
            ErrorKind::InvalidTokenAfterExclamation => "InvalidTokenAfterExclamation",
            ErrorKind::FractionEndedWithADot => "FractionEndedWithADot",
            ErrorKind::EndedWithEExpoent => "EndedWithEExpoent",
            ErrorKind::EndedAfterExpoentSign => "EndedAfterExpoentSign",
            ErrorKind::MissingEqual => "MissingEqual",
            ErrorKind::UnknownToken => "UnknownToken",
        }
    }
}

/// The character that writes the digit `d`.
pub open spec fn digit_char(d: nat) -> char {
    if d == 0 {
        '0'
    } else if d == 1 {
        '1'
    } else if d == 2 {
        '2'
    } else if d == 3 {
        '3'
    } else if d == 4 {
        '4'
    } else if d == 5 {
        '5'
    } else if d == 6 {
        '6'
    } else if d == 7 {
        '7'
    } else if d == 8 {
        '8'
    } else {
        '9'
    }
}

/// The number `n` written in base ten, without zeros before it.
pub open spec fn decimal(n: nat) -> Seq<char>
    decreases n,
{
    if n < 10 {
        seq![digit_char(n)]
    } else {
        decimal(n / 10).push(digit_char(n % 10))
    }
}

/// The text of a token with a kind: its class, its text, the name of its kind, and its
/// place.
pub open spec fn rendered_kind(
    class: Seq<char>,
    value: Seq<char>,
    kind: Seq<char>,
    line: nat,
    column: nat,
) -> Seq<char> {
    "<"@ + class + ", value='"@ + value + "', kind="@ + kind + ", line="@ + decimal(line)
        + ", column="@ + decimal(column) + ">"@
}

/// The text of a token without a kind: its class, its text, and its place.
pub open spec fn rendered_plain(class: Seq<char>, value: Seq<char>, line: nat, column: nat) -> Seq<
    char,
> {
    "<"@ + class + ", value='"@ + value + "', line="@ + decimal(line) + ", column="@ + decimal(
        column,
    ) + ">"@
}

impl TokenView {
    /// The text that shows this token to a reader.
    pub open spec fn rendered(self) -> Seq<char> {
        match self {
            TokenView::Id { value, line, column } => rendered_plain("Id"@, value, line, column),
            TokenView::Char { value, line, column } => rendered_plain(
                "Char"@,
                seq![value],
                line,
                column,
            ),
            TokenView::Number { value, kind, line, column } => rendered_kind(
                "Number"@,
                value,
                number_kind_name(kind),
                line,
                column,
            ),
            TokenView::Relop { kind, line, column } => rendered_kind(
                "Relop"@,
                self.lexeme(),
                relop_name(kind),
                line,
                column,
            ),
            TokenView::Operator { kind, line, column } => rendered_kind(
                "Operator"@,
                self.lexeme(),
                operator_name(kind),
                line,
                column,
            ),
            TokenView::Punctuation { kind, line, column } => rendered_kind(
                "Punctuation"@,
                self.lexeme(),
                punctuation_name(kind),
                line,
                column,
            ),
            TokenView::Keyword { kind, line, column } => rendered_kind(
                "Keyword"@,
                self.lexeme(),
                keyword_name(kind),
                line,
                column,
            ),
            TokenView::Eof => "End of file"@,
        }
    }
}

impl LexErrorView {
    /// The text that shows this failure to a reader.
    pub open spec fn rendered(self) -> Seq<char> {
        rendered_kind("Error"@, self.value, error_name(self.kind), self.line, self.column)
    }
}

/// The character that writes the digit `d`.
fn digit_of(d: usize) -> (c: char)
    requires
        d < 10,
    ensures
        c == digit_char(d as nat),
{
    if d == 0 {
        '0'
    } else if d == 1 {
        '1'
    } else if d == 2 {
        '2'
    } else if d == 3 {
        '3'
    } else if d == 4 {
        '4'
    } else if d == 5 {
        '5'
    } else if d == 6 {
        '6'
    } else if d == 7 {
        '7'
    } else if d == 8 {
        '8'
    } else {
        '9'
    }
}

/// The number `n` written in base ten.
pub fn decimal_text(n: usize) -> (text: String)
    ensures
        text@ == decimal(n as nat),
    decreases n,
{
    if n < 10 {
        text_of_char(digit_of(n))
    } else {
        let mut text = decimal_text(n / 10);
        push_char(&mut text, digit_of(n % 10));
        text
    }
}

/// The text of a token with a kind.
fn render_kind(class: &str, value: &str, kind: &str, line: usize, column: usize) -> (text: String)
    ensures
        text@ == rendered_kind(class@, value@, kind@, line as nat, column as nat),
{
    let mut text = "<".to_owned();
    text.append(class);
    text.append(", value='");
    text.append(value);
    text.append("', kind=");
    text.append(kind);
    text.append(", line=");
    text.append(decimal_text(line).as_str());
    text.append(", column=");
    text.append(decimal_text(column).as_str());
    text.append(">");
    text
}

/// The text of a token without a kind.
fn render_plain(class: &str, value: &str, line: usize, column: usize) -> (text: String)
    ensures
        text@ == rendered_plain(class@, value@, line as nat, column as nat),
{
    let mut text = "<".to_owned();
    text.append(class);
    text.append(", value='");
    text.append(value);
    text.append("', line=");
    text.append(decimal_text(line).as_str());
    text.append(", column=");
    text.append(decimal_text(column).as_str());
    text.append(">");
    text
}

impl Token {
    /// The text that shows this token to a reader.
    pub fn to_text(&self) -> (text: String)
        ensures
            text@ == self@.rendered(),
    {
        match self {
            Token::Id { value, line, column } => render_plain(
                "Id",
                value.as_str(),
                *line,
                *column,
            ),
            Token::Char { value, line, column } => render_plain(
                "Char",
                text_of_char(*value).as_str(),
                *line,
                *column,
            ),
            Token::Number { value, kind, line, column } => render_kind(
                "Number",
                value.as_str(),
                kind.name(),
                *line,
                *column,
            ),
            Token::Relop { kind, line, column } => render_kind(
                "Relop",
                kind.text(),
                kind.name(),
                *line,
                *column,
            ),
            Token::Operator { kind, line, column } => render_kind(
                "Operator",
                kind.text(),
                kind.name(),
                *line,
                *column,
            ),
            Token::Punctuation { kind, line, column } => render_kind(
                "Punctuation",
                kind.text(),
                kind.name(),
                *line,
                *column,
            ),
            Token::Keyword { kind, line, column } => render_kind(
                "Keyword",
                kind.text(),
                kind.name(),
                *line,
                *column,
            ),
            Token::Eof => "End of file".to_owned(),
        }
    }
}

impl LexError {
    /// The text that shows this failure to a reader.
    pub fn to_text(&self) -> (text: String)
        ensures
            text@ == self@.rendered(),
    {
        render_kind("Error", self.value.as_str(), self.kind.name(), self.line, self.column)
    }
}

} // verus!
