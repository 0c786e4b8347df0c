//! What holds of every parse, whatever the table: a parse that succeeds leaves one
//! finished tree, and no parse changes an entry of the symbol table.

use vstd::prelude::*;
use crate::lexer::token::{TokenType, TokenView};
use crate::lexer::display::{decimal, digit_char};
use crate::lexer::scan::{is_digit, scan_token};
use crate::lexer::symbols::recorded;
use crate::syntactic::machine::{
    Machine, all_digits, apply_action, bound_of, decimal_value, digit_value,
    initial_stack, parse_from, run, step,
};
use crate::syntactic::symbol::{ActionKind, SymbolView};
use crate::syntactic::tree::AstView;

verus! {

/// Whether `node` may stand on the stack of nodes while a tree is built: a finished tree,
/// a type or relational operator on its way to an action, or a list of finished trees.
pub open spec fn entry_ok(node: AstView) -> bool {
    match node {
        AstView::List(items) => forall|i: int|
            0 <= i < items.len() ==> (#[trigger] items[i]).is_finished(),
        AstView::TypeWrapper(_) => true,
        AstView::CondWrapper(_) => true,
        _ => node.is_finished(),
    }
}

/// Whether every node of `nodes` may stand on the stack of nodes.
pub open spec fn nodes_ok(nodes: Seq<AstView>) -> bool {
    forall|i: int| 0 <= i < nodes.len() ==> entry_ok(#[trigger] nodes[i])
}

/// An action that succeeds leaves on the stack only nodes that may stand there.
pub proof fn lemma_action_keeps_nodes(kind: ActionKind, nodes: Seq<AstView>)
    requires
        nodes_ok(nodes),
        apply_action(kind, nodes) is Ok,
    ensures
        nodes_ok(apply_action(kind, nodes)->Ok_0),
{
    let after = apply_action(kind, nodes)->Ok_0;
    let n = nodes.len() as int;
    assert forall|i: int| 0 <= i < after.len() implies entry_ok(#[trigger] after[i]) by {
        if i < after.len() - 1 {
            assert(after[i] == nodes[i]);
        } else {
            if n >= 1 {
                assert(entry_ok(nodes[n - 1]));
            }
            if n >= 2 {
                assert(entry_ok(nodes[n - 2]));
            }
            if n >= 3 {
                assert(entry_ok(nodes[n - 3]));
            }
            match kind {
                ActionKind::AppendList => {
                    let items = nodes[n - 1]->List_0;
                    let item = nodes[n - 2];
                    let list = seq![item] + items;
                    assert forall|j: int| 0 <= j < list.len() implies (#[trigger] list[j])
                        .is_finished() by {
                        if j > 0 {
                            assert(list[j] == items[j - 1]);
                        }
                    }
                },
                _ => {},
            }
        }
    }
}

/// A step that succeeds leaves on the stack only nodes that may stand there.
pub proof fn lemma_step_keeps_nodes(
    table: Map<(Seq<char>, TokenType), Seq<SymbolView>>,
    source: Seq<char>,
    m: Machine,
)
    requires
        nodes_ok(m.nodes),
        m.stack.len() > 0,
        step(table, source, m).error is None,
    ensures
        nodes_ok(step(table, source, m).machine.nodes),
{
    match m.stack.last() {
        SymbolView::Action(kind) => {
            lemma_action_keeps_nodes(kind, m.nodes);
        },
        SymbolView::Terminal(_) => {
            let after = step(table, source, m).machine.nodes;
            assert forall|i: int| 0 <= i < after.len() implies entry_ok(#[trigger] after[i]) by {
                if i < m.nodes.len() {
                    assert(after[i] == m.nodes[i]);
                }
            }
        },
        _ => {},
    }
}

/// A parse that succeeds has emptied the stack of symbols and is left with exactly one
/// node, which is the tree that it gives; no helper stands anywhere in that tree.
pub proof fn lemma_run_ends_with_one_root(
    table: Map<(Seq<char>, TokenType), Seq<SymbolView>>,
    source: Seq<char>,
    m: Machine,
    fuel: nat,
)
    requires
        nodes_ok(m.nodes),
    ensures
        ({
            let outcome = run(table, source, m, fuel);
            outcome.result is Ok ==> {
                &&& outcome.machine.stack.len() == 0
                &&& outcome.machine.nodes == seq![outcome.result->Ok_0]
                &&& outcome.result->Ok_0.is_finished()
            }
        }),
    decreases fuel,
{
    if m.stack.len() == 0 {
        if m.nodes.len() == 1 {
            assert(m.nodes =~= seq![m.nodes[0]]);
            assert(entry_ok(m.nodes[0]));
        }
    } else if fuel > 0 {
        let next = step(table, source, m);
        if next.error is None {
            lemma_step_keeps_nodes(table, source, m);
            lemma_run_ends_with_one_root(table, source, next.machine, (fuel - 1) as nat);
        }
    }
}

/// Whatever the table, the start symbol and the source: a parse that gives a tree has
/// emptied the stack of symbols, is left with that tree as its one node, and the tree
/// holds no helper.
pub proof fn lemma_parse_ends_with_one_root(
    table: Map<(Seq<char>, TokenType), Seq<SymbolView>>,
    start: Seq<char>,
    source: Seq<char>,
    position: int,
    symbols: Map<Seq<char>, TokenView>,
    limit: nat,
)
    ensures
        ({
            let outcome = parse_from(table, start, source, position, symbols, limit);
            outcome.result is Ok ==> {
                &&& outcome.machine.stack.len() == 0
                &&& outcome.machine.nodes == seq![outcome.result->Ok_0]
                &&& outcome.result->Ok_0.is_finished()
            }
        }),
{
    let scan = scan_token(source, position);
    if let Ok(token) = scan.found {
        let m = Machine {
            stack: initial_stack(start),
            nodes: Seq::empty(),
            lookahead: token,
            position: scan.end,
            symbols: recorded(symbols, token),
        };
        lemma_run_ends_with_one_root(table, source, m, limit);
    }
}

/// Whatever happens from the state `m` on, the entries of the symbol table stay as they
/// are: tokens read later add entries and change none.
pub proof fn lemma_run_keeps_symbols(
    table: Map<(Seq<char>, TokenType), Seq<SymbolView>>,
    source: Seq<char>,
    m: Machine,
    fuel: nat,
)
    ensures
        m.symbols.submap_of(run(table, source, m, fuel).machine.symbols),
    decreases fuel,
{
    if m.stack.len() > 0 && fuel > 0 {
        let next = step(table, source, m);
        lemma_step_keeps_symbols(table, source, m);
        if next.error is None {
            lemma_run_keeps_symbols(table, source, next.machine, (fuel - 1) as nat);
            let last = run(table, source, next.machine, (fuel - 1) as nat).machine.symbols;
            assert(m.symbols.submap_of(last)) by {
                assert forall|key: Seq<char>| m.symbols.contains_key(key) implies (
                #[trigger] last.contains_key(key)) && m.symbols[key] == last[key] by {
                    assert(next.machine.symbols.contains_key(key));
                }
            }
        }
    }
}

/// A step changes no entry that the symbol table holds.
pub proof fn lemma_step_keeps_symbols(
    table: Map<(Seq<char>, TokenType), Seq<SymbolView>>,
    source: Seq<char>,
    m: Machine,
)
    requires
        m.stack.len() > 0,
    ensures
        m.symbols.submap_of(step(table, source, m).machine.symbols),
{
}

/// A parse, whether it succeeds or fails, changes no entry that the symbol table held
/// before it.
pub proof fn lemma_parse_keeps_symbols(
    table: Map<(Seq<char>, TokenType), Seq<SymbolView>>,
    start: Seq<char>,
    source: Seq<char>,
    position: int,
    symbols: Map<Seq<char>, TokenView>,
    limit: nat,
)
    ensures
        symbols.submap_of(
            parse_from(table, start, source, position, symbols, limit).machine.symbols,
        ),
{
    let scan = scan_token(source, position);
    if let Ok(token) = scan.found {
        let m = Machine {
            stack: initial_stack(start),
            nodes: Seq::empty(),
            lookahead: token,
            position: scan.end,
            symbols: recorded(symbols, token),
        };
        lemma_run_keeps_symbols(table, source, m, limit);
        let last = run(table, source, m, limit).machine.symbols;
        assert forall|key: Seq<char>| symbols.contains_key(key) implies (
        #[trigger] last.contains_key(key)) && symbols[key] == last[key] by {
            assert(m.symbols.contains_key(key));
        }
    }
}

/// A number written in base ten reads back as itself: as the bound of a loop it is the
/// number that was written, where 32 bits hold it.
pub proof fn lemma_decimal_reads_back(n: nat)
    ensures
        decimal(n).len() > 0,
        all_digits(decimal(n)),
        decimal_value(decimal(n)) == n,
        n <= u32::MAX ==> bound_of(decimal(n)) == Some(n as u32),
    decreases n,
{
    let text = decimal(n);
    if n < 10 {
        assert(text.drop_last() =~= Seq::<char>::empty());
        assert(decimal_value(text.drop_last()) == 0);
        assert(digit_value(digit_char(n)) == n);
    } else {
        lemma_decimal_reads_back(n / 10);
        assert(text.drop_last() =~= decimal(n / 10));
        assert(digit_value(digit_char(n % 10)) == n % 10);
        assert forall|i: int| 0 <= i < text.len() implies is_digit(#[trigger] text[i]) by {
            if i < text.len() - 1 {
                assert(text[i] == decimal(n / 10)[i]);
            }
        }
    }
}

} // verus!
