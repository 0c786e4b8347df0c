//! The parse table: the production for each pair of a non-terminal and the category of
//! the lookahead.

use vstd::prelude::*;
use crate::lexer::token::TokenType;
use crate::syntactic::symbol::{Symbol, SymbolView, symbol_views};

verus! {

/// One cell of the table: the production that expands `non_terminal` when a token of the
/// category `terminal` is the lookahead.
pub struct Entry {
    pub non_terminal: String,
    pub terminal: TokenType,
    pub symbols: Vec<Symbol>,
}

/// The LL(1) parse table: at most one production for each pair of a non-terminal and the
/// category of the lookahead.
pub struct ParseTable {
    entries: Vec<Entry>,
    pub start_symbol: String,
}

/// The pair that a cell is found by.
pub open spec fn key_of(entry: Entry) -> (Seq<char>, TokenType) {
    (entry.non_terminal@, entry.terminal)
}

/// The index of the first cell at or behind `from` that is found by `key`, or the number of
/// cells where there is none.
pub open spec fn find_from(entries: Seq<Entry>, key: (Seq<char>, TokenType), from: int) -> int
    decreases entries.len() - from,
{
    if from < 0 || from >= entries.len() {
        entries.len() as int
    } else if key_of(entries[from]) == key {
        from
    } else {
        find_from(entries, key, from + 1)
    }
}

/// `find_from` gives the first cell found by `key` from `from` on.
proof fn lemma_find_first(entries: Seq<Entry>, key: (Seq<char>, TokenType), from: int, at: int)
    requires
        0 <= from <= at <= entries.len(),
        forall|j: int| from <= j < at ==> key_of(#[trigger] entries[j]) != key,
        at < entries.len() ==> key_of(entries[at]) == key,
    ensures
        find_from(entries, key, from) == at,
    decreases at - from,
{
    if from < at {
        lemma_find_first(entries, key, from + 1, at);
    }
}

/// What `find_from` gives is the first cell found by `key`.
proof fn lemma_find_is_first(entries: Seq<Entry>, key: (Seq<char>, TokenType), from: int)
    requires
        0 <= from <= entries.len(),
    ensures
        from <= find_from(entries, key, from) <= entries.len(),
        forall|j: int|
            from <= j < find_from(entries, key, from) ==> key_of(#[trigger] entries[j]) != key,
        find_from(entries, key, from) < entries.len() ==> key_of(
            entries[find_from(entries, key, from)],
        ) == key,
    decreases entries.len() - from,
{
    if from < entries.len() && key_of(entries[from]) != key {
        lemma_find_is_first(entries, key, from + 1);
    }
}

impl View for ParseTable {
    type V = Map<(Seq<char>, TokenType), Seq<SymbolView>>;

    closed spec fn view(&self) -> Map<(Seq<char>, TokenType), Seq<SymbolView>> {
        Map::new(
            |key: (Seq<char>, TokenType)| find_from(self.entries@, key, 0) < self.entries.len(),
            |key: (Seq<char>, TokenType)|
                symbol_views(self.entries@[find_from(self.entries@, key, 0)].symbols@),
        )
    }
}

impl ParseTable {
    /// The name of the non-terminal that a parse begins with.
    pub closed spec fn start(&self) -> Seq<char> {
        self.start_symbol@
    }

    /// The production in the cell of `non_terminal` and `terminal`, if the cell holds one.
    pub open spec fn cell(&self, non_terminal: Seq<char>, terminal: TokenType) -> Option<
        Seq<SymbolView>,
    > {
        if self@.contains_key((non_terminal, terminal)) {
            Some(self@[(non_terminal, terminal)])
        } else {
            None
        }
    }

    /// Whether the table holds no production of the non-terminal `name`.
    pub open spec fn has_no_rule(&self, name: Seq<char>) -> bool {
        forall|lookahead: TokenType| !(#[trigger] self@.contains_key((name, lookahead)))
    }

    /// A table without productions.
    pub fn new(start_symbol: &str) -> (table: Self)
        ensures
            table@ == Map::<(Seq<char>, TokenType), Seq<SymbolView>>::empty(),
            table.start() == start_symbol@,
    {
        let table = ParseTable { entries: Vec::new(), start_symbol: start_symbol.to_owned() };
        assert(table@ =~= Map::<(Seq<char>, TokenType), Seq<SymbolView>>::empty());
        table
    }

    /// The name of the non-terminal that a parse begins with.
    pub fn start_symbol(&self) -> (name: &String)
        ensures
            name@ == self.start(),
    {
        &self.start_symbol
    }

    /// The index of the cell of `non_terminal` and `terminal`, or the number of cells where
    /// the table has no such cell.
    fn index_of(&self, non_terminal: &String, terminal: TokenType) -> (at: usize)
        ensures
            at == find_from(self.entries@, (non_terminal@, terminal), 0),
            at <= self.entries.len(),
    {
        let ghost key = (non_terminal@, terminal);
        let mut at: usize = 0;
        while at < self.entries.len()
            invariant
                at <= self.entries.len(),
                key == (non_terminal@, terminal),
                forall|j: int| 0 <= j < at ==> key_of(#[trigger] self.entries@[j]) != key,
            ensures
                at <= self.entries.len(),
                forall|j: int| 0 <= j < at ==> key_of(#[trigger] self.entries@[j]) != key,
                at < self.entries.len() ==> key_of(self.entries@[at as int]) == key,
            decreases self.entries.len() - at,
        {
            if self.entries[at].terminal == terminal && self.entries[at].non_terminal
                == *non_terminal {
                break ;
            }
            at = at + 1;
        }
        proof {
            lemma_find_first(self.entries@, key, 0, at as int);
        }
        at
    }

    /// Puts `symbols` in the cell of `non_terminal` and `terminal`, in place of what the
    /// cell held.
    pub fn set_entry(&mut self, non_terminal: &str, terminal: TokenType, symbols: Vec<Symbol>)
        ensures
            final(self)@ == old(self)@.insert((non_terminal@, terminal), symbol_views(symbols@)),
            final(self).start() == old(self).start(),
    {
        let name = non_terminal.to_owned();
        let at = self.index_of(&name, terminal);
        let ghost key = (non_terminal@, terminal);
        let ghost before = self.entries@;
        let entry = Entry { non_terminal: name, terminal, symbols };
        if at < self.entries.len() {
            self.entries.set(at, entry);
        } else {
            self.entries.push(entry);
        }
        proof {
            let after = self.entries@;
            lemma_find_is_first(before, key, 0);
            assert(key_of(entry) == key);
            assert(after[at as int] == entry);
            assert forall|j: int| 0 <= j < before.len() implies key_of(#[trigger] after[j])
                == key_of(before[j]) by {
                if j != at {
                    assert(after[j] == before[j]);
                }
            }
            lemma_find_first(after, key, 0, at as int);
            let wanted = old(self)@.insert(key, symbol_views(symbols@));
            assert forall|other: (Seq<char>, TokenType)|
                (#[trigger] self@.contains_key(other)) == wanted.contains_key(other) && (
                self@.contains_key(other) ==> self@[other] == wanted[other]) by {
                if other != key {
                    lemma_find_is_first(before, other, 0);
                    let found = find_from(before, other, 0);
                    if found < before.len() {
                        lemma_find_first(after, other, 0, found);
                        assert(after[found] == before[found]);
                    } else {
                        lemma_find_first(after, other, 0, after.len() as int);
                    }
                }
            }
            assert(self@ =~= wanted);
        }
    }

    /// Puts `symbols` in the cell of `non_terminal` and `terminal`, which must be empty: a
    /// grammar that is LL(1) has one production for a cell.
    pub fn add_entry(&mut self, non_terminal: &str, terminal: TokenType, symbols: Vec<Symbol>)
        requires
            !old(self)@.contains_key((non_terminal@, terminal)),
        ensures
            final(self)@ == old(self)@.insert((non_terminal@, terminal), symbol_views(symbols@)),
            final(self).start() == old(self).start(),
    {
        self.set_entry(non_terminal, terminal, symbols);
    }

    /// The production in the cell of `non_terminal` and `terminal`, if the cell holds one.
    pub fn get_entry(&self, non_terminal: &str, terminal: &TokenType) -> (found: Option<
        &Vec<Symbol>,
    >)
        ensures
            match found {
                Some(symbols) => self.cell(non_terminal@, *terminal) == Some(
                    symbol_views(symbols@),
                ),
                None => self.cell(non_terminal@, *terminal) is None,
            },
    {
        let name = non_terminal.to_owned();
        let at = self.index_of(&name, *terminal);
        if at < self.entries.len() {
            Some(&self.entries[at].symbols)
        } else {
            None
        }
    }
}

} // verus!
