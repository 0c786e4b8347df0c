//! What it is to parse: the state of the parser, its steps, and the actions that build
//! the tree.

use vstd::prelude::*;
use crate::lexer::scan::{LexErrorView, is_digit, scan_token};
use crate::lexer::symbols::recorded;
use crate::lexer::token::{KeywordKind, TokenType, TokenView, Type};
use crate::syntactic::symbol::{ActionKind, SymbolView};
use crate::syntactic::tree::AstView;

verus! {

/// The number of steps after which a parser gives up, unless it is told another. A table
/// whose productions expand without end and without reading a token keeps the parser
/// busy until then.
pub const STEP_LIMIT: u64 = 0xffff_ffff_ffff_ffff;

/// The faults of the grammar and its actions, as opposed to those of the source.
#[derive(Debug, Clone, Copy, PartialEq, Eq, Structural)]
pub enum InternalError {
    /// The action found fewer nodes than it takes.
    MissingOperand(ActionKind),
    /// The action found a node of another shape than it takes.
    WrongOperand(ActionKind),
    /// The parse did not end with exactly one node, or that node is a helper.
    NotOneRoot,
    /// The parse took more steps than the parser allows.
    StepLimit,
}

/// The mathematical value of a parse failure.
pub enum ParseErrorView {
    Lexical(LexErrorView),
    UnexpectedToken { expected: TokenType, found: TokenView },
    NoTableEntry { non_terminal: Seq<char>, found: TokenView },
    ExpectedEndOfInput { found: TokenView },
    Internal { fault: InternalError, found: TokenView },
}

/// The state of the parser between two steps: the symbols that await expansion or a
/// match, the nodes built so far, the token that comes next, and the state of the lexer
/// behind that token.
pub struct Machine {
    pub stack: Seq<SymbolView>,
    pub nodes: Seq<AstView>,
    pub lookahead: TokenView,
    pub position: int,
    pub symbols: Map<Seq<char>, TokenView>,
}

/// What one step gives: the state after it, and the failure if the step failed.
pub struct Step {
    pub machine: Machine,
    pub error: Option<ParseErrorView>,
}

/// How a parse ends: the state that it ends in, and the tree or the failure.
pub struct Outcome {
    pub machine: Machine,
    pub result: Result<AstView, ParseErrorView>,
}

/// The value of the digit `c`.
pub open spec fn digit_value(c: char) -> nat {
    (c as nat - '0' as nat) as nat
}

/// The number that the digits of `text` write in base ten.
pub open spec fn decimal_value(text: Seq<char>) -> nat
    decreases text.len(),
{
    if text.len() == 0 {
        0
    } else {
        decimal_value(text.drop_last()) * 10 + digit_value(text.last())
    }
}

/// Whether `text` is made of digits only.
pub open spec fn all_digits(text: Seq<char>) -> bool {
    forall|i: int| 0 <= i < text.len() ==> is_digit(#[trigger] text[i])
}

/// The bound of a loop that `text` writes: digits only, at least one, and a number that
/// 32 bits hold.
pub open spec fn bound_of(text: Seq<char>) -> Option<u32> {
    if text.len() > 0 && all_digits(text) && decimal_value(text) <= u32::MAX {
        Some(decimal_value(text) as u32)
    } else {
        None
    }
}

/// The leaf that a matched token leaves on the stack of nodes: identifiers, numbers and
/// character literals become leaves of the tree, the names of types and the relational
/// operators are carried to the action that needs them, other tokens leave nothing.
pub open spec fn leaf_of(token: TokenView) -> Option<AstView> {
    match token {
        TokenView::Id { value, .. } => Some(AstView::Identifier { name: value }),
        TokenView::Number { value, .. } => Some(AstView::Number { value }),
        TokenView::Char { value, .. } => Some(AstView::Literal { value }),
        TokenView::Keyword { kind: KeywordKind::Char, .. } => Some(
            AstView::TypeWrapper(Type::Char),
        ),
        TokenView::Keyword { kind: KeywordKind::Float, .. } => Some(
            AstView::TypeWrapper(Type::Float),
        ),
        TokenView::Keyword { kind: KeywordKind::Int, .. } => Some(AstView::TypeWrapper(Type::Int)),
        TokenView::Keyword { kind: KeywordKind::Void, .. } => Some(
            AstView::TypeWrapper(Type::Void),
        ),
        TokenView::Relop { kind, .. } => Some(AstView::CondWrapper(kind)),
        _ => None,
    }
}

/// The symbols of a production in the order in which they are pushed: the last one
/// first, so that the first one comes out first; the empty word is left out.
pub open spec fn pushed(production: Seq<SymbolView>) -> Seq<SymbolView> {
    production.filter(|symbol: SymbolView| !(symbol is Epsilon)).reverse()
}

/// The first symbol of a production is pushed last, on top of the others.
pub proof fn lemma_pushed_first_on_top(production: Seq<SymbolView>)
    requires
        production.len() > 0,
    ensures
        pushed(production) == if production[0] is Epsilon {
            pushed(production.drop_first())
        } else {
            pushed(production.drop_first()).push(production[0])
        },
{
    let kept = |symbol: SymbolView| !(symbol is Epsilon);
    let first = production[0];
    let others = production.drop_first();
    assert(production =~= seq![first] + others);
    others.lemma_filter_prepend(first, kept);
    if first is Epsilon {
        assert(Seq::<SymbolView>::empty() + others.filter(kept) =~= others.filter(kept));
    } else {
        assert((seq![first] + others.filter(kept)).reverse() =~= others.filter(kept).reverse().push(
            first,
        ));
    }
}

/// The empty production pushes nothing.
pub proof fn lemma_pushed_nothing(production: Seq<SymbolView>)
    requires
        production.len() == 0,
    ensures
        pushed(production) == Seq::<SymbolView>::empty(),
{
    reveal(Seq::filter);
}

/// Whether every node of `items` is an identifier.
pub open spec fn all_identifiers(items: Seq<AstView>) -> bool {
    forall|i: int| 0 <= i < items.len() ==> (#[trigger] items[i]) is Identifier
}

/// The names of the identifiers `items`.
pub open spec fn names_of(items: Seq<AstView>) -> Seq<Seq<char>> {
    Seq::new(items.len(), |i: int| items[i]->Identifier_name)
}

/// What a node with two children and no other payload is built from: the two nodes on
/// top of `nodes`, neither of them a helper. Gives the nodes below them, the lower and
/// the upper of the two.
pub open spec fn two_children(kind: ActionKind, nodes: Seq<AstView>) -> Result<
    (Seq<AstView>, AstView, AstView),
    InternalError,
> {
    if nodes.len() < 2 {
        Err(InternalError::MissingOperand(kind))
    } else {
        let upper = nodes.last();
        let lower = nodes.drop_last().last();
        if upper.is_helper() || lower.is_helper() {
            Err(InternalError::WrongOperand(kind))
        } else {
            Ok((nodes.drop_last().drop_last(), lower, upper))
        }
    }
}

/// The stack of nodes after the action `kind` ran on `nodes`: the action takes a fixed
/// number of nodes off the top, checks their shapes, and puts one node in their place.
pub open spec fn apply_action(kind: ActionKind, nodes: Seq<AstView>) -> Result<
    Seq<AstView>,
    InternalError,
> {
    match kind {
        ActionKind::MakeList => Ok(nodes.push(AstView::List(Seq::empty()))),
        ActionKind::AppendList => {
            if nodes.len() < 2 {
                Err(InternalError::MissingOperand(kind))
            } else {
                let list = nodes.last();
                let item = nodes.drop_last().last();
                match list {
                    AstView::List(items) if !item.is_helper() => Ok(
                        nodes.drop_last().drop_last().push(AstView::List(seq![item] + items)),
                    ),
                    _ => Err(InternalError::WrongOperand(kind)),
                }
            }
        },
        ActionKind::Math(op) => match two_children(kind, nodes) {
            Ok((rest, left, right)) => Ok(
                rest.push(AstView::BinaryOp { op, left: Box::new(left), right: Box::new(right) }),
            ),
            Err(e) => Err(e),
        },
        ActionKind::CreateIf => match two_children(kind, nodes) {
            Ok((rest, cond, then_block)) => Ok(
                rest.push(
                    AstView::If {
                        cond: Box::new(cond),
                        then_block: Box::new(then_block),
                        else_block: None,
                    },
                ),
            ),
            Err(e) => Err(e),
        },
        ActionKind::CreateWhile => match two_children(kind, nodes) {
            Ok((rest, cond, body)) => Ok(
                rest.push(AstView::While { cond: Box::new(cond), body: Box::new(body) }),
            ),
            Err(e) => Err(e),
        },
        ActionKind::CreateDoWhile => match two_children(kind, nodes) {
            Ok((rest, body, cond)) => Ok(
                rest.push(AstView::DoWhile { body: Box::new(body), cond: Box::new(cond) }),
            ),
            Err(e) => Err(e),
        },
        ActionKind::CreateUnaryOp => {
            if nodes.len() < 1 {
                Err(InternalError::MissingOperand(kind))
            } else if nodes.last().is_helper() {
                Err(InternalError::WrongOperand(kind))
            } else {
                Ok(nodes.drop_last().push(AstView::UnaryOp { expr: Box::new(nodes.last()) }))
            }
        },
        ActionKind::CreateIfElse => {
            if nodes.len() < 3 {
                Err(InternalError::MissingOperand(kind))
            } else {
                let else_block = nodes.last();
                match two_children(kind, nodes.drop_last()) {
                    Ok((rest, cond, then_block)) if !else_block.is_helper() => Ok(
                        rest.push(
                            AstView::If {
                                cond: Box::new(cond),
                                then_block: Box::new(then_block),
                                else_block: Some(Box::new(else_block)),
                            },
                        ),
                    ),
                    _ => Err(InternalError::WrongOperand(kind)),
                }
            }
        },
        ActionKind::CreateCond => {
            if nodes.len() < 3 {
                Err(InternalError::MissingOperand(kind))
            } else {
                let right = nodes.last();
                let relop = nodes.drop_last().last();
                let left = nodes.drop_last().drop_last().last();
                match relop {
                    AstView::CondWrapper(relop) if !left.is_helper() && !right.is_helper() => Ok(
                        nodes.drop_last().drop_last().drop_last().push(
                            AstView::BinaryComp {
                                relop,
                                left: Box::new(left),
                                right: Box::new(right),
                            },
                        ),
                    ),
                    _ => Err(InternalError::WrongOperand(kind)),
                }
            }
        },
        ActionKind::Assign => {
            if nodes.len() < 2 {
                Err(InternalError::MissingOperand(kind))
            } else {
                let expr = nodes.last();
                match nodes.drop_last().last() {
                    AstView::Identifier { name } if !expr.is_helper() => Ok(
                        nodes.drop_last().drop_last().push(
                            AstView::Assignment { id: name, expr: Box::new(expr) },
                        ),
                    ),
                    _ => Err(InternalError::WrongOperand(kind)),
                }
            }
        },
        ActionKind::CreateProgram => {
            if nodes.len() < 2 {
                Err(InternalError::MissingOperand(kind))
            } else {
                let body = nodes.last();
                match nodes.drop_last().last() {
                    AstView::TypeWrapper(kind_of) if !body.is_helper() => Ok(
                        nodes.drop_last().drop_last().push(
                            AstView::Program { kind: kind_of, body: Box::new(body) },
                        ),
                    ),
                    _ => Err(InternalError::WrongOperand(kind)),
                }
            }
        },
        ActionKind::CreateBlock => {
            if nodes.len() < 2 {
                Err(InternalError::MissingOperand(kind))
            } else {
                match (nodes.drop_last().last(), nodes.last()) {
                    (AstView::List(decls), AstView::List(stmts)) => Ok(
                        nodes.drop_last().drop_last().push(AstView::Block { decls, stmts }),
                    ),
                    _ => Err(InternalError::WrongOperand(kind)),
                }
            }
        },
        ActionKind::CreateDecl => {
            if nodes.len() < 2 {
                Err(InternalError::MissingOperand(kind))
            } else {
                match (nodes.drop_last().last(), nodes.last()) {
                    (AstView::TypeWrapper(kind_of), AstView::List(items)) if all_identifiers(
                        items,
                    ) => Ok(
                        nodes.drop_last().drop_last().push(
                            AstView::VarDecl { kind: kind_of, names: names_of(items) },
                        ),
                    ),
                    _ => Err(InternalError::WrongOperand(kind)),
                }
            }
        },
        ActionKind::CreateFor => {
            if nodes.len() < 5 {
                Err(InternalError::MissingOperand(kind))
            } else {
                let below = nodes.drop_last().drop_last();
                match (
                    below.drop_last().drop_last().last(),
                    below.drop_last().last(),
                    below.last(),
                    two_children(kind, nodes),
                ) {
                    (
                        AstView::Identifier { name },
                        AstView::Number { value: first },
                        AstView::Number { value: last },
                        Ok((_, step, body)),
                    ) if bound_of(first) is Some && bound_of(last) is Some => Ok(
                        below.drop_last().drop_last().drop_last().push(
                            AstView::For {
                                id: name,
                                start: bound_of(first)->0,
                                end: bound_of(last)->0,
                                step: Box::new(step),
                                body: Box::new(body),
                            },
                        ),
                    ),
                    _ => Err(InternalError::WrongOperand(kind)),
                }
            }
        },
    }
}

/// The production in the cell of `non_terminal` and `lookahead` of `table`.
pub open spec fn cell_of(
    table: Map<(Seq<char>, TokenType), Seq<SymbolView>>,
    non_terminal: Seq<char>,
    lookahead: TokenType,
) -> Option<Seq<SymbolView>> {
    if table.contains_key((non_terminal, lookahead)) {
        Some(table[(non_terminal, lookahead)])
    } else {
        None
    }
}

/// One step of the parser, which looks at the symbol on top of the stack:
/// - the end marker is taken off if the source has ended;
/// - a terminal is taken off if the lookahead is of its category; the lookahead then
///   leaves its leaf, if it has one, and the next token is read;
/// - a non-terminal gives way to the production that the table has for it and the
///   lookahead;
/// - an action is taken off and runs on the stack of nodes;
/// - the empty word is taken off.
/// Anything else is a failure.
pub open spec fn step(
    table: Map<(Seq<char>, TokenType), Seq<SymbolView>>,
    source: Seq<char>,
    m: Machine,
) -> Step
    recommends
        m.stack.len() > 0,
{
    let rest = m.stack.drop_last();
    match m.stack.last() {
        SymbolView::End => {
            if m.lookahead is Eof {
                Step { machine: Machine { stack: rest, ..m }, error: None }
            } else {
                Step {
                    machine: m,
                    error: Some(ParseErrorView::ExpectedEndOfInput { found: m.lookahead }),
                }
            }
        },
        SymbolView::Terminal(expected) => {
            if m.lookahead.category() == expected {
                let nodes = match leaf_of(m.lookahead) {
                    Some(leaf) => m.nodes.push(leaf),
                    None => m.nodes,
                };
                let scan = scan_token(source, m.position);
                match scan.found {
                    Ok(token) => Step {
                        machine: Machine {
                            stack: rest,
                            nodes,
                            lookahead: token,
                            position: scan.end,
                            symbols: recorded(m.symbols, token),
                        },
                        error: None,
                    },
                    Err(error) => Step {
                        machine: Machine { stack: rest, nodes, position: scan.end, ..m },
                        error: Some(ParseErrorView::Lexical(error)),
                    },
                }
            } else {
                Step {
                    machine: m,
                    error: Some(
                        ParseErrorView::UnexpectedToken { expected, found: m.lookahead },
                    ),
                }
            }
        },
        SymbolView::NonTerminal(name) => {
            match cell_of(table, name, m.lookahead.category()) {
                Some(production) => Step {
                    machine: Machine { stack: rest + pushed(production), ..m },
                    error: None,
                },
                None => Step {
                    machine: m,
                    error: Some(
                        ParseErrorView::NoTableEntry { non_terminal: name, found: m.lookahead },
                    ),
                },
            }
        },
        SymbolView::Epsilon => Step { machine: Machine { stack: rest, ..m }, error: None },
        SymbolView::Action(kind) => {
            match apply_action(kind, m.nodes) {
                Ok(nodes) => Step { machine: Machine { stack: rest, nodes, ..m }, error: None },
                Err(error) => Step {
                    machine: Machine { stack: rest, ..m },
                    error: Some(ParseErrorView::Internal { fault: error, found: m.lookahead }),
                },
            }
        },
    }
}

/// The tree that a parse ends with in the state `m`: the one node that is left, unless it
/// is a helper.
pub open spec fn root_of(m: Machine) -> Result<AstView, ParseErrorView> {
    if m.nodes.len() == 1 && !m.nodes[0].is_helper() {
        Ok(m.nodes[0])
    } else {
        Err(ParseErrorView::Internal { fault: InternalError::NotOneRoot, found: m.lookahead })
    }
}

/// Runs the parser from the state `m` until the stack of symbols is empty, a step fails,
/// or `fuel` steps were taken.
pub open spec fn run(
    table: Map<(Seq<char>, TokenType), Seq<SymbolView>>,
    source: Seq<char>,
    m: Machine,
    fuel: nat,
) -> Outcome
    decreases fuel,
{
    if m.stack.len() == 0 {
        Outcome { machine: m, result: root_of(m) }
    } else if fuel == 0 {
        Outcome {
            machine: m,
            result: Err(
                ParseErrorView::Internal { fault: InternalError::StepLimit, found: m.lookahead },
            ),
        }
    } else {
        let next = step(table, source, m);
        match next.error {
            Some(error) => Outcome { machine: next.machine, result: Err(error) },
            None => run(table, source, next.machine, (fuel - 1) as nat),
        }
    }
}

/// The stack of symbols that a parse begins with: the end marker, and on top of it the
/// non-terminal `start`.
pub open spec fn initial_stack(start: Seq<char>) -> Seq<SymbolView> {
    seq![SymbolView::End, SymbolView::NonTerminal(start)]
}

/// Parses `source` from the index `position` on, with the grammar `table` and the start
/// symbol `start`: reads the first token, then runs the parser for `limit` steps at most.
pub open spec fn parse_from(
    table: Map<(Seq<char>, TokenType), Seq<SymbolView>>,
    start: Seq<char>,
    source: Seq<char>,
    position: int,
    symbols: Map<Seq<char>, TokenView>,
    limit: nat,
) -> Outcome {
    let scan = scan_token(source, position);
    match scan.found {
        Ok(token) => run(
            table,
            source,
            Machine {
                stack: initial_stack(start),
                nodes: Seq::empty(),
                lookahead: token,
                position: scan.end,
                symbols: recorded(symbols, token),
            },
            limit,
        ),
        Err(error) => Outcome {
            machine: Machine {
                stack: initial_stack(start),
                nodes: Seq::empty(),
                lookahead: TokenView::Eof,
                position: scan.end,
                symbols,
            },
            result: Err(ParseErrorView::Lexical(error)),
        },
    }
}

} // verus!
