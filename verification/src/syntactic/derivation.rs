//! The parser accepts only sentences of the grammar: what it has matched when it
//! succeeds is derived from the start symbol by productions of the table.

use vstd::prelude::*;
use crate::lexer::laws::lemma_scan_goes_on;
use crate::lexer::scan::scan_token;
use crate::lexer::symbols::recorded;
use crate::lexer::token::{TokenType, TokenView};
use crate::syntactic::machine::{Machine, initial_stack, parse_from, pushed, run, step};
use crate::syntactic::symbol::SymbolView;

verus! {

/// The categories of the tokens of `source` from index `from` on, up to the end of input
/// or to the first lexeme that is malformed.
pub open spec fn categories_from(source: Seq<char>, from: int) -> Seq<TokenType>
    decreases source.len() - from,
    when 0 <= from <= source.len()
    via categories_from_decreases
{
    match scan_token(source, from).found {
        Ok(token) => if token is Eof {
            Seq::empty()
        } else {
            seq![token.category()] + categories_from(source, scan_token(source, from).end)
        },
        Err(_) => Seq::empty(),
    }
}

#[via_fn]
proof fn categories_from_decreases(source: Seq<char>, from: int) {
    lemma_scan_goes_on(source, from);
}

/// The categories of the tokens that the parser in the state `m` has before it: the
/// lookahead and what follows it in the source.
pub open spec fn tokens_ahead(source: Seq<char>, m: Machine) -> Seq<TokenType> {
    if m.lookahead is Eof {
        Seq::empty()
    } else {
        seq![m.lookahead.category()] + categories_from(source, m.position)
    }
}

/// Whether the symbols of `stack`, taken from the last to the first, derive `word` by
/// productions of `table`, in `depth` steps at most:
/// - a terminal derives the one token of its category;
/// - a non-terminal derives what one of its productions derives;
/// - the end marker and the terminal of the end of input ask that no token is left;
/// - actions and the empty word derive nothing.
pub open spec fn derives(
    table: Map<(Seq<char>, TokenType), Seq<SymbolView>>,
    stack: Seq<SymbolView>,
    word: Seq<TokenType>,
    depth: nat,
) -> bool
    decreases depth,
{
    if stack.len() == 0 {
        word.len() == 0
    } else if depth == 0 {
        false
    } else {
        let rest = stack.drop_last();
        match stack.last() {
            SymbolView::Terminal(category) => if category == TokenType::Eof {
                word.len() == 0 && derives(table, rest, word, (depth - 1) as nat)
            } else {
                word.len() > 0 && word[0] == category && derives(
                    table,
                    rest,
                    word.drop_first(),
                    (depth - 1) as nat,
                )
            },
            SymbolView::NonTerminal(name) => exists|lookahead: TokenType|
                (#[trigger] table.contains_key((name, lookahead))) && derives(
                    table,
                    rest + pushed(table[(name, lookahead)]),
                    word,
                    (depth - 1) as nat,
                ),
            SymbolView::End => word.len() == 0 && derives(table, rest, word, (depth - 1) as nat),
            _ => derives(table, rest, word, (depth - 1) as nat),
        }
    }
}

/// The categories of the tokens that the parser matches from the state `m` on.
pub open spec fn matched(
    table: Map<(Seq<char>, TokenType), Seq<SymbolView>>,
    source: Seq<char>,
    m: Machine,
    fuel: nat,
) -> Seq<TokenType>
    decreases fuel,
{
    if m.stack.len() == 0 || fuel == 0 || step(table, source, m).error is Some {
        Seq::empty()
    } else {
        let later = matched(table, source, step(table, source, m).machine, (fuel - 1) as nat);
        match m.stack.last() {
            SymbolView::Terminal(category) if category != TokenType::Eof => seq![category]
                + later,
            _ => later,
        }
    }
}

/// Whether the lexer of the state `m` stands inside the source, and at its end where the
/// lookahead is the end of input.
pub open spec fn reads_on(source: Seq<char>, m: Machine) -> bool {
    &&& 0 <= m.position <= source.len()
    &&& m.lookahead is Eof ==> m.position == source.len()
}

/// A parse that succeeds from the state `m` on has matched a word that the stack of `m`
/// derives; at its end it has before it the tokens that it had before it at first, but
/// for that word. Where the end marker is at the bottom of the stack, no token is left.
pub proof fn lemma_run_derives(
    table: Map<(Seq<char>, TokenType), Seq<SymbolView>>,
    source: Seq<char>,
    m: Machine,
    fuel: nat,
)
    requires
        reads_on(source, m),
        run(table, source, m, fuel).result is Ok,
    ensures
        derives(table, m.stack, matched(table, source, m, fuel), fuel),
        tokens_ahead(source, m) == matched(table, source, m, fuel) + tokens_ahead(
            source,
            run(table, source, m, fuel).machine,
        ),
        m.stack.len() > 0 && m.stack[0] is End ==> run(table, source, m, fuel).machine.lookahead
            is Eof,
    decreases fuel,
{
    let word = matched(table, source, m, fuel);
    let last = run(table, source, m, fuel).machine;
    if m.stack.len() == 0 {
        assert(tokens_ahead(source, m) =~= word + tokens_ahead(source, last));
    } else {
        let next = step(table, source, m).machine;
        let rest = m.stack.drop_last();
        lemma_scan_goes_on(source, m.position);
        assert(reads_on(source, next)) by {
            if next.lookahead is Eof && m.stack.last() is Terminal {
                assert(next.position == source.len());
            }
        }
        lemma_run_derives(table, source, next, (fuel - 1) as nat);
        let later = matched(table, source, next, (fuel - 1) as nat);
        match m.stack.last() {
            SymbolView::Terminal(category) => {
                if category != TokenType::Eof {
                    assert(word == seq![category] + later);
                    assert(word.drop_first() =~= later);
                    assert(word[0] == category);
                    assert(tokens_ahead(source, next) == categories_from(source, m.position));
                    assert(tokens_ahead(source, m) =~= word + tokens_ahead(source, last));
                } else {
                    assert(tokens_ahead(source, next) =~= Seq::<TokenType>::empty());
                    assert(later =~= Seq::<TokenType>::empty());
                }
            },
            SymbolView::NonTerminal(name) => {
                let lookahead = m.lookahead.category();
                assert(table.contains_key((name, lookahead)));
                assert(derives(
                    table,
                    rest + pushed(table[(name, lookahead)]),
                    word,
                    (fuel - 1) as nat,
                ));
            },
            SymbolView::End => {
                assert(later =~= Seq::<TokenType>::empty());
            },
            _ => {},
        }
        if m.stack[0] is End && next.stack.len() > 0 {
            assert(next.stack[0] == m.stack[0]);
        }
    }
}

/// A source that the parser accepts is a sentence of the grammar: the start symbol,
/// with the end marker behind it, derives the tokens of the source by productions of
/// the table.
pub proof fn lemma_parsed_source_is_derived(
    table: Map<(Seq<char>, TokenType), Seq<SymbolView>>,
    start: Seq<char>,
    source: Seq<char>,
    position: int,
    symbols: Map<Seq<char>, TokenView>,
    limit: nat,
)
    requires
        0 <= position <= source.len(),
        parse_from(table, start, source, position, symbols, limit).result is Ok,
    ensures
        derives(table, initial_stack(start), categories_from(source, position), limit),
{
    lemma_scan_goes_on(source, position);
    let scan = scan_token(source, position);
    let token = scan.found->Ok_0;
    let m = Machine {
        stack: initial_stack(start),
        nodes: Seq::empty(),
        lookahead: token,
        position: scan.end,
        symbols: recorded(symbols, token),
    };
    lemma_run_derives(table, source, m, limit);
    let last = run(table, source, m, limit).machine;
    let word = matched(table, source, m, limit);
    assert(initial_stack(start)[0] is End);
    assert(tokens_ahead(source, m) == categories_from(source, position));
    assert(word =~= categories_from(source, position));
}

} // verus!
