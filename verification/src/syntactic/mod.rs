//! The parser: the LL(1) driver with its stack of grammar symbols and its stack of nodes.

use vstd::prelude::*;
use crate::lexer::symbols::SymbolTable;
use crate::lexer::token::{KeywordKind, Token, TokenType, TokenView, Type};
use crate::lexer::{LexError, Lexer};
use crate::syntactic::actions::run_action;
use crate::syntactic::grammar::copy_of;
use crate::syntactic::laws::lemma_parse_ends_with_one_root;
use crate::syntactic::machine::{
    InternalError, Machine, ParseErrorView, STEP_LIMIT, initial_stack, leaf_of,
    lemma_pushed_first_on_top, lemma_pushed_nothing, parse_from, pushed, run, step,
};
use crate::syntactic::parse_table::ParseTable;
use crate::syntactic::symbol::{Symbol, SymbolView, symbol_views};
use crate::syntactic::tree::{AstNode, AstView, tree_views};

pub mod actions;
pub mod derivation;
pub mod grammar;
pub mod laws;
pub mod machine;
pub mod parse_table;
pub mod progress;
pub mod shapes;
pub mod symbol;
pub mod tree;

verus! {

/// Why a parse failed.
#[derive(Debug, Clone, PartialEq, Eq)]
pub enum ParseError {
    /// The lexer failed on the next token.
    Lexical(LexError),
    /// The grammar asks for a token of the category `expected`, and `found` is of another.
    UnexpectedToken { expected: TokenType, found: Token },
    /// The table has no production for `non_terminal` when `found` comes next.
    NoTableEntry { non_terminal: String, found: Token },
    /// The grammar asks for the end of the source, and `found` comes next.
    ExpectedEndOfInput { found: Token },
    /// The grammar and its actions do not fit together; `found` is the token that came
    /// next when that showed.
    Internal { fault: InternalError, found: Token },
}

impl View for ParseError {
    type V = ParseErrorView;

    open spec fn view(&self) -> ParseErrorView {
        match *self {
            ParseError::Lexical(error) => ParseErrorView::Lexical(error@),
            ParseError::UnexpectedToken { expected, found } => ParseErrorView::UnexpectedToken {
                expected,
                found: found@,
            },
            ParseError::NoTableEntry { non_terminal, found } => ParseErrorView::NoTableEntry {
                non_terminal: non_terminal@,
                found: found@,
            },
            ParseError::ExpectedEndOfInput { found } => ParseErrorView::ExpectedEndOfInput {
                found: found@,
            },
            ParseError::Internal { fault, found } => ParseErrorView::Internal {
                fault,
                found: found@,
            },
        }
    }
}

/// The mathematical value of what a parse gave.
pub open spec fn parsed_view(parsed: Result<AstNode, ParseError>) -> Result<
    AstView,
    ParseErrorView,
> {
    match parsed {
        Ok(tree) => Ok(tree@),
        Err(error) => Err(error@),
    }
}

/// The parser: a stack of grammar symbols, driven by a parse table over the tokens of a
/// lexer.
pub struct Parser<'a> {
    pub stack: Vec<Symbol>,
    pub parse_table: ParseTable,
    pub lexer: Lexer<'a>,
    /// The number of steps after which a parse gives up.
    pub step_limit: u64,
}

/// The leaf that the matched token `token` leaves on the stack of nodes, if it leaves one.
fn leaf(token: &Token) -> (node: Option<AstNode>)
    ensures
        match node {
            Some(node) => leaf_of(token@) == Some(node@),
            None => leaf_of(token@) is None,
        },
{
    match token {
        Token::Id { value, .. } => Some(AstNode::Identifier { name: value.clone() }),
        Token::Number { value, .. } => Some(AstNode::Number { value: value.clone() }),
        Token::Char { value, .. } => Some(AstNode::Literal { value: *value }),
        Token::Keyword { kind: KeywordKind::Char, .. } => Some(AstNode::TypeWrapper(Type::Char)),
        Token::Keyword { kind: KeywordKind::Float, .. } => Some(
            AstNode::TypeWrapper(Type::Float),
        ),
        Token::Keyword { kind: KeywordKind::Int, .. } => Some(AstNode::TypeWrapper(Type::Int)),
        Token::Keyword { kind: KeywordKind::Void, .. } => Some(AstNode::TypeWrapper(Type::Void)),
        Token::Relop { kind, .. } => Some(AstNode::CondWrapper(*kind)),
        _ => None,
    }
}

impl<'a> Parser<'a> {
    /// The state of the parser, with the token `lookahead` next and `nodes` built.
    pub open spec fn machine(&self, lookahead: TokenView, nodes: Seq<AstView>) -> Machine {
        Machine {
            stack: symbol_views(self.stack@),
            nodes,
            lookahead,
            position: self.lexer.position(),
            symbols: self.lexer.symbols(),
        }
    }

    /// Whether this parser is `before` but for its stack and for where its lexer stands.
    pub open spec fn continues(&self, before: &Self) -> bool {
        &&& self.lexer.wf()
        &&& self.lexer.source() == before.lexer.source()
        &&& self.parse_table == before.parse_table
        &&& self.step_limit == before.step_limit
    }

    /// Whether this parser, with the token `lookahead` next, and `nodes` built where
    /// `done` is no failure, is in the state that one step from `before` leads to.
    pub open spec fn follows(
        &self,
        before: Machine,
        lookahead: TokenView,
        nodes: Seq<AstView>,
        done: Result<(), ParseError>,
    ) -> bool {
        let next = step(self.parse_table@, self.lexer.source(), before);
        &&& symbol_views(self.stack@) == next.machine.stack
        &&& self.lexer.position() == next.machine.position
        &&& self.lexer.symbols() == next.machine.symbols
        &&& match done {
            Ok(_) => next.error is None && nodes == next.machine.nodes && lookahead
                == next.machine.lookahead,
            Err(error) => next.error == Some(error@),
        }
    }

    /// A parser at the start of `content`.
    pub fn new(
        content: String,
        parse_table: ParseTable,
        symbol_table: &'a mut SymbolTable,
    ) -> (parser: Self)
        ensures
            parser.lexer.wf(),
            parser.lexer.source() == content@,
            parser.lexer.position() == 0,
            parser.parse_table == parse_table,
            parser.step_limit == STEP_LIMIT,
            parser.stack@.len() == 0,
            parser.lexer.symbols() == old(symbol_table)@,
            *final(parser.lexer.symbol_table) == *final(symbol_table),
    {
        Parser {
            lexer: Lexer::new(content, symbol_table),
            stack: Vec::new(),
            parse_table,
            step_limit: STEP_LIMIT,
        }
    }

    /// Takes the symbol on top of the stack off.
    fn pop_symbol(&mut self)
        requires
            old(self).stack.len() > 0,
        ensures
            final(self).lexer == old(self).lexer,
            final(self).parse_table == old(self).parse_table,
            final(self).step_limit == old(self).step_limit,
            symbol_views(final(self).stack@) == symbol_views(old(self).stack@).drop_last(),
    {
        self.stack.pop();
        assert(symbol_views(self.stack@) =~= symbol_views(old(self).stack@).drop_last());
    }

    /// Puts `symbol` on top of the stack.
    fn push_symbol(&mut self, symbol: Symbol)
        ensures
            final(self).lexer == old(self).lexer,
            final(self).parse_table == old(self).parse_table,
            final(self).step_limit == old(self).step_limit,
            symbol_views(final(self).stack@) == symbol_views(old(self).stack@).push(symbol@),
    {
        self.stack.push(symbol);
        assert(symbol_views(self.stack@) =~= symbol_views(old(self).stack@).push(symbol@));
    }

    /// The step for the end marker or a terminal on top of the stack.
    fn handle_terminal(
        &mut self,
        symbol: &Symbol,
        current_token: &mut Token,
        ast_stack: &mut Vec<AstNode>,
    ) -> (done: Result<(), ParseError>)
        requires
            old(self).lexer.wf(),
            old(self).stack.len() > 0,
            symbol_views(old(self).stack@).last() == symbol@,
            symbol@ is End || symbol@ is Terminal,
        ensures
            final(self).continues(old(self)),
            *final(final(self).lexer.symbol_table) == *final(old(self).lexer.symbol_table),
            final(self).follows(
                old(self).machine(old(current_token)@, tree_views(old(ast_stack)@)),
                final(current_token)@,
                tree_views(final(ast_stack)@),
                done,
            ),
    {
        match symbol {
            Symbol::Terminal(expected) => {
                if *expected == current_token.token_type() {
                    match leaf(current_token) {
                        Some(node) => {
                            ast_stack.push(node);
                            assert(tree_views(ast_stack@) =~= tree_views(old(ast_stack)@).push(
                                node@,
                            ));
                        },
                        None => {},
                    }
                    self.pop_symbol();
                    match self.lexer.get_next_token() {
                        Ok(token) => {
                            *current_token = token;
                            Ok(())
                        },
                        Err(error) => Err(ParseError::Lexical(error)),
                    }
                } else {
                    Err(
                        ParseError::UnexpectedToken {
                            expected: *expected,
                            found: current_token.duplicate(),
                        },
                    )
                }
            },
            _ => {
                match current_token {
                    Token::Eof => {
                        self.pop_symbol();
                        Ok(())
                    },
                    _ => Err(ParseError::ExpectedEndOfInput { found: current_token.duplicate() }),
                }
            },
        }
    }

    /// The step for the non-terminal `non_terminal` on top of the stack.
    fn handle_non_terminal(&mut self, non_terminal: &str, current_token: &Token) -> (done: Result<
        (),
        ParseError,
    >)
        requires
            old(self).lexer.wf(),
            old(self).stack.len() > 0,
            symbol_views(old(self).stack@).last() == SymbolView::NonTerminal(non_terminal@),
        ensures
            final(self).continues(old(self)),
            final(self).lexer == old(self).lexer,
            forall|nodes: Seq<AstView>|
                final(self).follows(
                    #[trigger] old(self).machine(current_token@, nodes),
                    current_token@,
                    nodes,
                    done,
                ),
    {
        let category = current_token.token_type();
        let production = match self.parse_table.get_entry(non_terminal, &category) {
            Some(symbols) => copy_of(symbols),
            None => {
                return Err(
                    ParseError::NoTableEntry {
                        non_terminal: non_terminal.to_owned(),
                        found: current_token.duplicate(),
                    },
                );
            },
        };
        self.pop_symbol();
        let ghost rest = symbol_views(self.stack@);
        let ghost body = symbol_views(production@);
        let mut i: usize = production.len();
        proof {
            lemma_pushed_nothing(body.subrange(i as int, body.len() as int));
        }
        while i > 0
            invariant
                i <= production.len(),
                body == symbol_views(production@),
                self.lexer == old(self).lexer,
                self.parse_table == old(self).parse_table,
                self.step_limit == old(self).step_limit,
                symbol_views(self.stack@) == rest + pushed(
                    body.subrange(i as int, body.len() as int),
                ),
            decreases i,
        {
            i = i - 1;
            proof {
                lemma_pushed_first_on_top(body.subrange(i as int, body.len() as int));
                assert(body.subrange(i as int, body.len() as int).drop_first() =~= body.subrange(
                    i + 1,
                    body.len() as int,
                ));
                assert(body[i as int] == production@[i as int]@);
            }
            if !production[i].is_epsilon() {
                self.push_symbol(production[i].duplicate());
                assert((rest + pushed(body.subrange(i + 1, body.len() as int))).push(
                    body[i as int],
                ) =~= rest + pushed(body.subrange(i as int, body.len() as int)));
            }
        }
        assert(body.subrange(0, body.len() as int) =~= body);
        Ok(())
    }

    /// One step of the parser.
    fn advance(&mut self, current_token: &mut Token, ast_stack: &mut Vec<AstNode>) -> (done: Result<
        (),
        ParseError,
    >)
        requires
            old(self).lexer.wf(),
            old(self).stack.len() > 0,
        ensures
            final(self).continues(old(self)),
            *final(final(self).lexer.symbol_table) == *final(old(self).lexer.symbol_table),
            final(self).follows(
                old(self).machine(old(current_token)@, tree_views(old(ast_stack)@)),
                final(current_token)@,
                tree_views(final(ast_stack)@),
                done,
            ),
    {
        let top = self.stack[self.stack.len() - 1].duplicate();
        match top {
            Symbol::Terminal(_) | Symbol::End => self.handle_terminal(
                &top,
                current_token,
                ast_stack,
            ),
            Symbol::NonTerminal(name) => self.handle_non_terminal(name.as_str(), current_token),
            Symbol::Epsilon => {
                self.pop_symbol();
                Ok(())
            },
            Symbol::Action(kind) => {
                self.pop_symbol();
                match run_action(kind, ast_stack) {
                    Ok(_) => Ok(()),
                    Err(fault) => Err(
                        ParseError::Internal { fault, found: current_token.duplicate() },
                    ),
                }
            },
        }
    }

    /// Parses the source from where the lexer stands, beginning with the start symbol of
    /// the table: the stack holds the end marker and the start symbol, the first token is
    /// read, and steps are taken until the stack is empty. The parse then gives the one
    /// node that is left. The first failure ends the parse, and so does the step that
    /// would go beyond the limit of steps.
    pub fn parse(&mut self) -> (parsed: Result<AstNode, ParseError>)
        requires
            old(self).lexer.wf(),
        ensures
            final(self).continues(old(self)),
            *final(final(self).lexer.symbol_table) == *final(old(self).lexer.symbol_table),
            ({
                let outcome = parse_from(
                    old(self).parse_table@,
                    old(self).parse_table.start(),
                    old(self).lexer.source(),
                    old(self).lexer.position(),
                    old(self).lexer.symbols(),
                    old(self).step_limit as nat,
                );
                &&& parsed_view(parsed) == outcome.result
                &&& symbol_views(final(self).stack@) == outcome.machine.stack
                &&& final(self).lexer.position() == outcome.machine.position
                &&& final(self).lexer.symbols() == outcome.machine.symbols
            }),
            parsed is Ok ==> final(self).stack@.len() == 0 && parsed->Ok_0@.is_finished(),
    {
        let ghost table = self.parse_table@;
        let ghost source = self.lexer.source();
        let ghost outcome = parse_from(
            table,
            self.parse_table.start(),
            source,
            self.lexer.position(),
            self.lexer.symbols(),
            self.step_limit as nat,
        );
        proof {
            lemma_parse_ends_with_one_root(
                table,
                self.parse_table.start(),
                source,
                self.lexer.position(),
                self.lexer.symbols(),
                self.step_limit as nat,
            );
        }
        self.stack.clear();
        assert(symbol_views(self.stack@) =~= Seq::<SymbolView>::empty());
        self.push_symbol(Symbol::End);
        let start = self.parse_table.start_symbol().clone();
        self.push_symbol(Symbol::NonTerminal(start));
        assert(symbol_views(self.stack@) =~= initial_stack(self.parse_table.start()));
        let mut ast_stack: Vec<AstNode> = Vec::new();
        assert(tree_views(ast_stack@) =~= Seq::<AstView>::empty());
        let mut current_token = match self.lexer.get_next_token() {
            Ok(token) => token,
            Err(error) => {
                return Err(ParseError::Lexical(error));
            },
        };
        let mut steps: u64 = 0;
        while self.stack.len() > 0
            invariant
                self.continues(old(self)),
                *final(self.lexer.symbol_table) == *final(old(self).lexer.symbol_table),
                table == self.parse_table@,
                source == self.lexer.source(),
                steps <= self.step_limit,
                outcome == parse_from(
                    old(self).parse_table@,
                    old(self).parse_table.start(),
                    old(self).lexer.source(),
                    old(self).lexer.position(),
                    old(self).lexer.symbols(),
                    old(self).step_limit as nat,
                ),
                run(
                    table,
                    source,
                    self.machine(current_token@, tree_views(ast_stack@)),
                    (self.step_limit - steps) as nat,
                ) == outcome,
            decreases self.step_limit - steps,
        {
            if steps == self.step_limit {
                return Err(
                    ParseError::Internal {
                        fault: InternalError::StepLimit,
                        found: current_token,
                    },
                );
            }
            steps = steps + 1;
            match self.advance(&mut current_token, &mut ast_stack) {
                Ok(_) => {},
                Err(error) => {
                    return Err(error);
                },
            }
        }
        assert(symbol_views(self.stack@).len() == 0);
        if ast_stack.len() == 1 && !ast_stack[0].is_helper() {
            Ok(ast_stack.pop().unwrap())
        } else {
            Err(ParseError::Internal { fault: InternalError::NotOneRoot, found: current_token })
        }
    }
}

} // verus!
