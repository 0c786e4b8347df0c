//! The symbol table, in which the first occurrence of an identifier, a character literal or
//! a number is entered.

use vstd::prelude::*;
use vstd::hash_map::StringHashMap;
use crate::lexer::token::{Token, TokenView};

verus! {

/// The symbol table: the identifiers, character literals and numbers that were read, each
/// under its text, with the token of its first occurrence.
pub struct SymbolTable {
    entries: StringHashMap<Token>,
}

/// The table that results from entering `token` under `key`: an entry that is there stays.
pub open spec fn interned(
    table: Map<Seq<char>, TokenView>,
    key: Seq<char>,
    token: TokenView,
) -> Map<Seq<char>, TokenView> {
    if table.contains_key(key) {
        table
    } else {
        table.insert(key, token)
    }
}

/// The table that results from reading `token`: identifiers, character literals and
/// numbers are entered, other tokens leave the table as it is.
pub open spec fn recorded(table: Map<Seq<char>, TokenView>, token: TokenView) -> Map<
    Seq<char>,
    TokenView,
> {
    match token.symbol_key() {
        Some(key) => interned(table, key, token),
        None => table,
    }
}

impl View for SymbolTable {
    type V = Map<Seq<char>, TokenView>;

    closed spec fn view(&self) -> Map<Seq<char>, TokenView> {
        self.entries@.map_values(|token: Token| token@)
    }
}

impl SymbolTable {
    /// The empty table.
    pub fn new() -> (table: Self)
        ensures
            table@ == Map::<Seq<char>, TokenView>::empty(),
    {
        let table = SymbolTable { entries: StringHashMap::new() };
        assert(table@ =~= Map::<Seq<char>, TokenView>::empty());
        table
    }

    /// The number of entries.
    pub fn len(&self) -> (n: usize)
        ensures
            n == self@.len(),
    {
        broadcast use vstd::hash_map::group_hash_map_axioms;

        proof {
            let entries = self.entries@;
            assert(self@.dom() =~= entries.dom());
        }
        self.entries.len()
    }

    /// Whether something was entered under `key`.
    pub fn contains(&self, key: &str) -> (found: bool)
        ensures
            found == self@.contains_key(key@),
    {
        self.entries.contains_key(key)
    }

    /// The token that was entered under `key`.
    pub fn get(&self, key: &str) -> (found: Option<&Token>)
        ensures
            match found {
                Some(token) => self@.contains_key(key@) && self@[key@] == token@,
                None => !self@.contains_key(key@),
            },
    {
        self.entries.get(key)
    }

    /// Enters `token` under `key`, unless something stands under `key` already.
    pub fn insert_if_absent(&mut self, key: String, token: Token)
        ensures
            final(self)@ == interned(old(self)@, key@, token@),
    {
        if !self.entries.contains_key(key.as_str()) {
            self.entries.insert(key, token);
            assert(self@ =~= old(self)@.insert(key@, token@));
        }
    }
}

} // verus!
