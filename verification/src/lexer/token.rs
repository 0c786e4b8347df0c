//! The tokens of the language, their kinds and categories.

use vstd::prelude::*;
use vstd::std_specs::convert::FromSpecImpl;
use crate::lexer::text::push_char;

verus! {

/// Whether a number literal has a fractional or exponent part.
#[derive(Debug, Clone, Copy, PartialEq, Eq, Hash, Structural)]
pub enum NumberKind {
    Integer,
    Float,
}

/// The relational operators.
#[derive(Debug, Clone, Copy, PartialEq, Eq, Hash, Structural)]
pub enum RelopKind {
    GT,
    LT,
    LE,
    EQ,
    NE,
    GE,
}

/// The arithmetic operators and the two parentheses.
#[derive(Debug, Clone, Copy, PartialEq, Eq, Hash, Structural)]
pub enum OperatorKind {
    Sum,
    Sub,
    Mult,
    Div,
    Exp,
    Paresq,
    Pardir,
}

/// The punctuation marks.
#[derive(Debug, Clone, Copy, PartialEq, Eq, Hash, Structural)]
pub enum PunctuationKind {
    Assigment,
    Comma,
    EndExp,
    BeginBlock,
    EndBlock,
}

/// The reserved words.
#[derive(Debug, Clone, Copy, PartialEq, Eq, Hash, Structural)]
pub enum KeywordKind {
    If,
    Int,
    Float,
    Char,
    Then,
    Type,
    Else,
    Elsif,
    While,
    For,
    Do,
    Main,
    Void,
}

/// The ways in which a lexeme can be malformed.
#[derive(Debug, Clone, Copy, PartialEq, Eq, Hash, Structural)]
pub enum ErrorKind {
    UnclosedChar,
    InvalidTokenAfterExclamation,
    FractionEndedWithADot,
    EndedWithEExpoent,
    EndedAfterExpoentSign,
    MissingEqual,
    UnknownToken,
}

/// The types that a declaration or a program can name.
#[derive(Debug, Clone, Copy, PartialEq, Eq, Hash, Structural)]
pub enum Type {
    Int,
    Float,
    Char,
    Void,
}

/// A token, with the line and column (both counted from 1) of its first character.
#[allow(inconsistent_fields)]
#[derive(Debug, Clone, PartialEq, Eq, Hash)]
pub enum Token {
    Id { value: String, line: usize, column: usize },
    Char { value: char, line: usize, column: usize },
    Number { value: String, kind: NumberKind, line: usize, column: usize },
    Relop { kind: RelopKind, line: usize, column: usize },
    Operator { kind: OperatorKind, line: usize, column: usize },
    Punctuation { kind: PunctuationKind, line: usize, column: usize },
    Keyword { kind: KeywordKind, line: usize, column: usize },
    Eof,
}

/// The mathematical value of a [`Token`]: text as a sequence of characters, positions as naturals.
#[allow(inconsistent_fields)]
pub enum TokenView {
    Id { value: Seq<char>, line: nat, column: nat },
    Char { value: char, line: nat, column: nat },
    Number { value: Seq<char>, kind: NumberKind, line: nat, column: nat },
    Relop { kind: RelopKind, line: nat, column: nat },
    Operator { kind: OperatorKind, line: nat, column: nat },
    Punctuation { kind: PunctuationKind, line: nat, column: nat },
    Keyword { kind: KeywordKind, line: nat, column: nat },
    Eof,
}

impl View for Token {
    type V = TokenView;

    open spec fn view(&self) -> TokenView {
        match *self {
            Token::Id { value, line, column } => TokenView::Id {
                value: value@,
                line: line as nat,
                column: column as nat,
            },
            Token::Char { value, line, column } => TokenView::Char {
                value,
                line: line as nat,
                column: column as nat,
            },
            Token::Number { value, kind, line, column } => TokenView::Number {
                value: value@,
                kind,
                line: line as nat,
                column: column as nat,
            },
            Token::Relop { kind, line, column } => TokenView::Relop {
                kind,
                line: line as nat,
                column: column as nat,
            },
            Token::Operator { kind, line, column } => TokenView::Operator {
                kind,
                line: line as nat,
                column: column as nat,
            },
            Token::Punctuation { kind, line, column } => TokenView::Punctuation {
                kind,
                line: line as nat,
                column: column as nat,
            },
            Token::Keyword { kind, line, column } => TokenView::Keyword {
                kind,
                line: line as nat,
                column: column as nat,
            },
            Token::Eof => TokenView::Eof,
        }
    }
}

/// The categories by which the parse table tells tokens apart, and those of the lexical
/// failures.
#[derive(Debug, Clone, Copy, PartialEq, Eq, Hash, Structural)]
pub enum TokenType {
    Id,
    CharValue,
    Number,
    GTOperator,
    LTOperator,
    LEOperator,
    NEOperator,
    EQOperator,
    GEOperator,
    PlusOperator,
    MinusOperator,
    MultOperator,
    DivOperator,
    ExpOperator,
    LParenOperator,
    RParenOperator,
    AssignPunctuation,
    CommaPunctuation,
    SemiColonPunctuation,
    BeginBlockPunctuation,
    EndBlockPunctuation,
    IfKeyword,
    IntKeyword,
    FloatKeyword,
    CharKeyword,
    ThenKeyword,
    TypeKeyword,
    ElseKeyword,
    ElsifKeyword,
    WhileKeyword,
    ForKeyword,
    DoKeyword,
    MainKeyword,
    VoidKeyword,
    Eof,
    UnclosedCharErr,
    InvalidTokenAfterExclamationErr,
    FractionEndedWithADotErr,
    EndedWithEExpoentErr,
    EndedAfterExpoentSignErr,
    MissingEqualErr,
    UknownTokenErr,
}

/// The text of a relational operator.
pub open spec fn relop_text(kind: RelopKind) -> Seq<char> {
    match kind {
        RelopKind::GT => ">"@,
        RelopKind::LT => "<"@,
        RelopKind::LE => "<="@,
        RelopKind::EQ => "=="@,
        RelopKind::NE => "!="@,
        RelopKind::GE => ">="@,
    }
}

/// The text of an arithmetic operator or parenthesis.
pub open spec fn operator_text(kind: OperatorKind) -> Seq<char> {
    match kind {
        OperatorKind::Sum => "+"@,
        OperatorKind::Sub => "-"@,
        OperatorKind::Mult => "*"@,
        OperatorKind::Div => "/"@,
        OperatorKind::Exp => "**"@,
        OperatorKind::Paresq => "("@,
        OperatorKind::Pardir => ")"@,
    }
}

/// The text of a punctuation mark.
pub open spec fn punctuation_text(kind: PunctuationKind) -> Seq<char> {
    match kind {
        PunctuationKind::Assigment => ":="@,
        PunctuationKind::Comma => ","@,
        PunctuationKind::EndExp => ";"@,
        PunctuationKind::BeginBlock => "["@,
        PunctuationKind::EndBlock => "]"@,
    }
}

/// The reserved word that stands for a keyword.
pub open spec fn keyword_text(kind: KeywordKind) -> Seq<char> {
    match kind {
        KeywordKind::If => "if"@,
        KeywordKind::Int => "int"@,
        KeywordKind::Float => "float"@,
        KeywordKind::Char => "char"@,
        KeywordKind::Then => "then"@,
        KeywordKind::Type => "tipo"@,
        KeywordKind::Else => "else"@,
        KeywordKind::Elsif => "elsif"@,
        KeywordKind::While => "while"@,
        KeywordKind::For => "for"@,
        KeywordKind::Do => "do"@,
        KeywordKind::Main => "main"@,
        KeywordKind::Void => "void"@,
    }
}

/// The category of a relational operator.
pub open spec fn relop_category(kind: RelopKind) -> TokenType {
    match kind {
        RelopKind::GT => TokenType::GTOperator,
        RelopKind::LT => TokenType::LTOperator,
        RelopKind::LE => TokenType::LEOperator,
        RelopKind::EQ => TokenType::EQOperator,
        RelopKind::NE => TokenType::NEOperator,
        RelopKind::GE => TokenType::GEOperator,
    }
}

/// The category of an arithmetic operator or parenthesis.
pub open spec fn operator_category(kind: OperatorKind) -> TokenType {
    match kind {
        OperatorKind::Sum => TokenType::PlusOperator,
        OperatorKind::Sub => TokenType::MinusOperator,
        OperatorKind::Mult => TokenType::MultOperator,
        OperatorKind::Div => TokenType::DivOperator,
        OperatorKind::Exp => TokenType::ExpOperator,
        OperatorKind::Paresq => TokenType::LParenOperator,
        OperatorKind::Pardir => TokenType::RParenOperator,
    }
}

/// The category of a punctuation mark.
pub open spec fn punctuation_category(kind: PunctuationKind) -> TokenType {
    match kind {
        PunctuationKind::Assigment => TokenType::AssignPunctuation,
        PunctuationKind::Comma => TokenType::CommaPunctuation,
        PunctuationKind::EndExp => TokenType::SemiColonPunctuation,
        PunctuationKind::BeginBlock => TokenType::BeginBlockPunctuation,
        PunctuationKind::EndBlock => TokenType::EndBlockPunctuation,
    }
}

/// The category of a keyword.
pub open spec fn keyword_category(kind: KeywordKind) -> TokenType {
    match kind {
        KeywordKind::If => TokenType::IfKeyword,
        KeywordKind::Int => TokenType::IntKeyword,
        KeywordKind::Float => TokenType::FloatKeyword,
        KeywordKind::Char => TokenType::CharKeyword,
        KeywordKind::Then => TokenType::ThenKeyword,
        KeywordKind::Type => TokenType::TypeKeyword,
        KeywordKind::Else => TokenType::ElseKeyword,
        KeywordKind::Elsif => TokenType::ElsifKeyword,
        KeywordKind::While => TokenType::WhileKeyword,
        KeywordKind::For => TokenType::ForKeyword,
        KeywordKind::Do => TokenType::DoKeyword,
        KeywordKind::Main => TokenType::MainKeyword,
        KeywordKind::Void => TokenType::VoidKeyword,
    }
}

/// The category of a lexical failure.
pub open spec fn error_category(kind: ErrorKind) -> TokenType {
    match kind {
        ErrorKind::UnclosedChar => TokenType::UnclosedCharErr,
        ErrorKind::InvalidTokenAfterExclamation => TokenType::InvalidTokenAfterExclamationErr,
        ErrorKind::FractionEndedWithADot => TokenType::FractionEndedWithADotErr,
        ErrorKind::EndedWithEExpoent => TokenType::EndedWithEExpoentErr,
        ErrorKind::EndedAfterExpoentSign => TokenType::EndedAfterExpoentSignErr,
        ErrorKind::MissingEqual => TokenType::MissingEqualErr,
        ErrorKind::UnknownToken => TokenType::UknownTokenErr,
    }
}

impl TokenView {
    /// The category under which the parse table files this token.
    pub open spec fn category(self) -> TokenType {
        match self {
            TokenView::Id { .. } => TokenType::Id,
            TokenView::Char { .. } => TokenType::CharValue,
            TokenView::Number { .. } => TokenType::Number,
            TokenView::Relop { kind, .. } => relop_category(kind),
            TokenView::Operator { kind, .. } => operator_category(kind),
            TokenView::Punctuation { kind, .. } => punctuation_category(kind),
            TokenView::Keyword { kind, .. } => keyword_category(kind),
            TokenView::Eof => TokenType::Eof,
        }
    }

    /// The literal form of this token: the source text that it was read from. The end of
    /// input has the empty text.
    pub open spec fn lexeme(self) -> Seq<char> {
        match self {
            TokenView::Id { value, .. } => value,
            TokenView::Char { value, .. } => seq!['\'', value, '\''],
            TokenView::Number { value, .. } => value,
            TokenView::Relop { kind, .. } => relop_text(kind),
            TokenView::Operator { kind, .. } => operator_text(kind),
            TokenView::Punctuation { kind, .. } => punctuation_text(kind),
            TokenView::Keyword { kind, .. } => keyword_text(kind),
            TokenView::Eof => Seq::empty(),
        }
    }

    /// The key under which this token enters the symbol table, for the tokens that do.
    pub open spec fn symbol_key(self) -> Option<Seq<char>> {
        match self {
            TokenView::Id { value, .. } => Some(value),
            TokenView::Char { value, .. } => Some(seq![value]),
            TokenView::Number { value, .. } => Some(value),
            _ => None,
        }
    }
}

impl RelopKind {
    /// The text that this operator is written with.
    pub fn text(&self) -> (r: &'static str)
        ensures
            r@ == relop_text(*self),
    {
        match self {
            RelopKind::GT => ">",
            RelopKind::LT => "<",
            RelopKind::LE => "<=",
            RelopKind::EQ => "==",
            RelopKind::NE => "!=",
            RelopKind::GE => ">=",
        }
    }

    /// The category of this operator.
    pub fn token_type(&self) -> (r: TokenType)
        ensures
            r == relop_category(*self),
    {
        match self {
            RelopKind::GT => TokenType::GTOperator,
            RelopKind::LT => TokenType::LTOperator,
            RelopKind::LE => TokenType::LEOperator,
            RelopKind::EQ => TokenType::EQOperator,
            RelopKind::NE => TokenType::NEOperator,
            RelopKind::GE => TokenType::GEOperator,
        }
    }
}

impl OperatorKind {
    /// The text that this operator is written with.
    pub fn text(&self) -> (r: &'static str)
        ensures
            r@ == operator_text(*self),
    {
        match self {
            OperatorKind::Sum => "+",
            OperatorKind::Sub => "-",
            OperatorKind::Mult => "*",
            OperatorKind::Div => "/",
            OperatorKind::Exp => "**",
            OperatorKind::Paresq => "(",
            OperatorKind::Pardir => ")",
        }
    }

    /// The category of this operator.
    pub fn token_type(&self) -> (r: TokenType)
        ensures
            r == operator_category(*self),
    {
        match self {
            OperatorKind::Sum => TokenType::PlusOperator,
            OperatorKind::Sub => TokenType::MinusOperator,
            OperatorKind::Mult => TokenType::MultOperator,
            OperatorKind::Div => TokenType::DivOperator,
            OperatorKind::Exp => TokenType::ExpOperator,
            OperatorKind::Paresq => TokenType::LParenOperator,
            OperatorKind::Pardir => TokenType::RParenOperator,
        }
    }
}

impl PunctuationKind {
    /// The text that this mark is written with.
    pub fn text(&self) -> (r: &'static str)
        ensures
            r@ == punctuation_text(*self),
    {
        match self {
            PunctuationKind::Assigment => ":=",
            PunctuationKind::Comma => ",",
            PunctuationKind::EndExp => ";",
            PunctuationKind::BeginBlock => "[",
            PunctuationKind::EndBlock => "]",
        }
    }

    /// The category of this mark.
    pub fn token_type(&self) -> (r: TokenType)
        ensures
            r == punctuation_category(*self),
    {
        match self {
            PunctuationKind::Assigment => TokenType::AssignPunctuation,
            PunctuationKind::Comma => TokenType::CommaPunctuation,
            PunctuationKind::EndExp => TokenType::SemiColonPunctuation,
            PunctuationKind::BeginBlock => TokenType::BeginBlockPunctuation,
            PunctuationKind::EndBlock => TokenType::EndBlockPunctuation,
        }
    }
}

impl KeywordKind {
    /// The text that this keyword is written with.
    pub fn text(&self) -> (r: &'static str)
        ensures
            r@ == keyword_text(*self),
    {
        match self {
            KeywordKind::If => "if",
            KeywordKind::Int => "int",
            KeywordKind::Float => "float",
            KeywordKind::Char => "char",
            KeywordKind::Then => "then",
            KeywordKind::Type => "tipo",
            KeywordKind::Else => "else",
            KeywordKind::Elsif => "elsif",
            KeywordKind::While => "while",
            KeywordKind::For => "for",
            KeywordKind::Do => "do",
            KeywordKind::Main => "main",
            KeywordKind::Void => "void",
        }
    }

    /// The category of this keyword.
    pub fn token_type(&self) -> (r: TokenType)
        ensures
            r == keyword_category(*self),
    {
        match self {
            KeywordKind::If => TokenType::IfKeyword,
            KeywordKind::Int => TokenType::IntKeyword,
            KeywordKind::Float => TokenType::FloatKeyword,
            KeywordKind::Char => TokenType::CharKeyword,
            KeywordKind::Then => TokenType::ThenKeyword,
            KeywordKind::Type => TokenType::TypeKeyword,
            KeywordKind::Else => TokenType::ElseKeyword,
            KeywordKind::Elsif => TokenType::ElsifKeyword,
            KeywordKind::While => TokenType::WhileKeyword,
            KeywordKind::For => TokenType::ForKeyword,
            KeywordKind::Do => TokenType::DoKeyword,
            KeywordKind::Main => TokenType::MainKeyword,
            KeywordKind::Void => TokenType::VoidKeyword,
        }
    }
}

impl ErrorKind {
    /// The category of this failure.
    pub fn token_type(&self) -> (r: TokenType)
        ensures
            r == error_category(*self),
    {
        match self {
            ErrorKind::UnclosedChar => TokenType::UnclosedCharErr,
            ErrorKind::InvalidTokenAfterExclamation => TokenType::InvalidTokenAfterExclamationErr,
            ErrorKind::FractionEndedWithADot => TokenType::FractionEndedWithADotErr,
            ErrorKind::EndedWithEExpoent => TokenType::EndedWithEExpoentErr,
            ErrorKind::EndedAfterExpoentSign => TokenType::EndedAfterExpoentSignErr,
            ErrorKind::MissingEqual => TokenType::MissingEqualErr,
            ErrorKind::UnknownToken => TokenType::UknownTokenErr,
        }
    }
}

impl Token {
    /// The category under which the parse table files this token.
    pub fn token_type(&self) -> (r: TokenType)
        ensures
            r == self@.category(),
    {
        match self {
            Token::Id { .. } => TokenType::Id,
            Token::Char { .. } => TokenType::CharValue,
            Token::Number { .. } => TokenType::Number,
            Token::Relop { kind, .. } => kind.token_type(),
            Token::Operator { kind, .. } => kind.token_type(),
            Token::Punctuation { kind, .. } => kind.token_type(),
            Token::Keyword { kind, .. } => kind.token_type(),
            Token::Eof => TokenType::Eof,
        }
    }

    /// A copy of this token.
    pub fn duplicate(&self) -> (copy: Token)
        ensures
            copy == *self,
    {
        match self {
            Token::Id { value, line, column } => Token::Id {
                value: value.clone(),
                line: *line,
                column: *column,
            },
            Token::Char { value, line, column } => Token::Char {
                value: *value,
                line: *line,
                column: *column,
            },
            Token::Number { value, kind, line, column } => Token::Number {
                value: value.clone(),
                kind: *kind,
                line: *line,
                column: *column,
            },
            Token::Relop { kind, line, column } => Token::Relop {
                kind: *kind,
                line: *line,
                column: *column,
            },
            Token::Operator { kind, line, column } => Token::Operator {
                kind: *kind,
                line: *line,
                column: *column,
            },
            Token::Punctuation { kind, line, column } => Token::Punctuation {
                kind: *kind,
                line: *line,
                column: *column,
            },
            Token::Keyword { kind, line, column } => Token::Keyword {
                kind: *kind,
                line: *line,
                column: *column,
            },
            Token::Eof => Token::Eof,
        }
    }

    /// The literal form of this token: the text that it was read from.
    pub fn lexeme(&self) -> (text: String)
        ensures
            text@ == self@.lexeme(),
    {
        match self {
            Token::Id { value, .. } => value.clone(),
            Token::Char { value, .. } => {
                let mut text = String::new();
                push_char(&mut text, '\'');
                push_char(&mut text, *value);
                push_char(&mut text, '\'');
                assert(text@ =~= seq!['\'', *value, '\'']);
                text
            },
            Token::Number { value, .. } => value.clone(),
            Token::Relop { kind, .. } => kind.text().to_owned(),
            Token::Operator { kind, .. } => kind.text().to_owned(),
            Token::Punctuation { kind, .. } => kind.text().to_owned(),
            Token::Keyword { kind, .. } => kind.text().to_owned(),
            Token::Eof => String::new(),
        }
    }
}

impl From<Token> for TokenType {
    /// The category of `token`.
    fn from(token: Token) -> (r: TokenType) {
        token.token_type()
    }
}

impl FromSpecImpl<Token> for TokenType {
    open spec fn obeys_from_spec() -> bool {
        true
    }

    open spec fn from_spec(token: Token) -> TokenType {
        token@.category()
    }
}

} // verus!
