//! The symbols of the grammar and the kinds of semantic actions.

use vstd::prelude::*;
use crate::lexer::token::{OperatorKind, TokenType};

verus! {

/// The semantic actions: each builds one node of the tree from nodes built before it.
#[derive(Debug, Clone, Copy, PartialEq, Eq, Structural)]
pub enum ActionKind {
    Math(OperatorKind),
    Assign,
    CreateBlock,
    CreateIf,
    CreateIfElse,
    CreateWhile,
    CreateDoWhile,
    CreateFor,
    MakeList,
    AppendList,
    CreateDecl,
    CreateCond,
    CreateProgram,
    CreateUnaryOp,
}

/// A symbol of the grammar.
#[derive(Debug, Clone, PartialEq, Eq)]
pub enum Symbol {
    Terminal(TokenType),
    NonTerminal(String),
    Epsilon,
    End,
    Action(ActionKind),
}

/// The mathematical value of a [`Symbol`].
pub enum SymbolView {
    Terminal(TokenType),
    NonTerminal(Seq<char>),
    Epsilon,
    End,
    Action(ActionKind),
}

impl View for Symbol {
    type V = SymbolView;

    open spec fn view(&self) -> SymbolView {
        match *self {
            Symbol::Terminal(terminal) => SymbolView::Terminal(terminal),
            Symbol::NonTerminal(name) => SymbolView::NonTerminal(name@),
            Symbol::Epsilon => SymbolView::Epsilon,
            Symbol::End => SymbolView::End,
            Symbol::Action(kind) => SymbolView::Action(kind),
        }
    }
}

/// The mathematical values of a sequence of symbols.
pub open spec fn symbol_views(symbols: Seq<Symbol>) -> Seq<SymbolView> {
    symbols.map_values(|symbol: Symbol| symbol@)
}

impl Symbol {
    /// Whether this symbol is a terminal.
    pub fn is_terminal(&self) -> (b: bool)
        ensures
            b == (self@ is Terminal),
    {
        match self {
            Symbol::Terminal(_) => true,
            _ => false,
        }
    }

    /// Whether this symbol is a non-terminal.
    pub fn is_non_terminal(&self) -> (b: bool)
        ensures
            b == (self@ is NonTerminal),
    {
        match self {
            Symbol::NonTerminal(_) => true,
            _ => false,
        }
    }

    /// Whether this symbol is the empty word.
    pub fn is_epsilon(&self) -> (b: bool)
        ensures
            b == (self@ is Epsilon),
    {
        match self {
            Symbol::Epsilon => true,
            _ => false,
        }
    }

    /// Whether this symbol is the end marker.
    pub fn is_end(&self) -> (b: bool)
        ensures
            b == (self@ is End),
    {
        match self {
            Symbol::End => true,
            _ => false,
        }
    }

    /// The category that a terminal stands for.
    pub fn as_terminal(&self) -> (terminal: Option<TokenType>)
        ensures
            terminal == match self@ {
                SymbolView::Terminal(t) => Some(t),
                _ => None,
            },
    {
        match self {
            Symbol::Terminal(t) => Some(*t),
            _ => None,
        }
    }

    /// The name of a non-terminal.
    pub fn as_non_terminal(&self) -> (name: Option<&String>)
        ensures
            match self@ {
                SymbolView::NonTerminal(n) => name is Some && name->0@ == n,
                _ => name is None,
            },
    {
        match self {
            Symbol::NonTerminal(name) => Some(name),
            _ => None,
        }
    }

    /// A copy of this symbol.
    pub fn duplicate(&self) -> (copy: Symbol)
        ensures
            copy@ == self@,
    {
        match self {
            Symbol::Terminal(t) => Symbol::Terminal(*t),
            Symbol::NonTerminal(name) => Symbol::NonTerminal(name.clone()),
            Symbol::Epsilon => Symbol::Epsilon,
            Symbol::End => Symbol::End,
            Symbol::Action(kind) => Symbol::Action(*kind),
        }
    }
}

} // verus!
