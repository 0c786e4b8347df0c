//! The front end of a compiler for a small procedural language: a lexer that reads
//! tokens from the characters of a source, and a table-driven LL(1) parser that builds
//! the syntax tree with the semantic actions of its grammar.
//!
//! The contracts of the lexer speak of [`lexer::scan::scan_token`], those of the parser
//! of [`syntactic::machine::parse_from`]. What follows from them for every table is
//! proved in [`lexer::laws`], [`syntactic::laws`] and [`syntactic::derivation`]; what
//! holds with the grammar of the language, in [`syntactic::progress`] and
//! [`syntactic::shapes`].

pub mod lexer;
pub mod syntactic;

pub use lexer::symbols::SymbolTable;
pub use lexer::token::{
    ErrorKind, KeywordKind, NumberKind, OperatorKind, PunctuationKind, RelopKind, Token,
    TokenType, Type,
};
pub use lexer::{LexError, Lexer};
pub use syntactic::machine::InternalError;
pub use syntactic::parse_table::ParseTable;
pub use syntactic::symbol::{ActionKind, Symbol};
pub use syntactic::tree::AstNode;
pub use syntactic::{ParseError, Parser};
