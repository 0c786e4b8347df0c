//! With the grammar of the language the actions fit the productions: every action finds
//! on the stack of nodes the nodes that it takes, and a parse that begins with a
//! non-terminal for a tree ends with exactly one tree.

use vstd::prelude::*;
use crate::lexer::token::{TokenType, TokenView};
use crate::syntactic::grammar::{
    bloco_rule, cmd_atrib_rule, cmd_do_rule, cmd_for_rule, cmd_if_prime_rule, cmd_if_rule,
    cmd_ou_bloco_rule, cmd_while_rule, comando_rule, comandos_rule, cond_rule, decl_rule,
    decls_rule, e_prime_rule, e_rule, f_prime_rule, f_rule, grammar, grammar_rule,
    lemma_non_terminal_names, lista_ids_prime_rule, lista_ids_rule, nt, op_rel_rule,
    programa_rule, t_prime_rule, t_rule, tipo_rule, u_rule,
};
use crate::lexer::scan::scan_token;
use crate::lexer::symbols::recorded;
use crate::syntactic::machine::{
    InternalError, Machine, ParseErrorView, all_identifiers, apply_action, initial_stack,
    leaf_of, lemma_pushed_first_on_top, lemma_pushed_nothing, parse_from, pushed, run, step,
};
use crate::syntactic::progress::{lemma_language_parse_ends, token_credit};
use crate::syntactic::symbol::{ActionKind, SymbolView};
use crate::syntactic::tree::AstView;

verus! {

/// What a node on the stack of nodes is known to be.
pub enum NodeKind {
    /// A finished tree.
    Tree,
    /// An identifier.
    Name,
    /// A number.
    Count,
    /// The name of a type, on its way to an action.
    Type,
    /// A relational operator, on its way to an action.
    Relation,
    /// A list of finished trees.
    Items,
    /// A list of identifiers.
    Names,
}

/// What the nodes on the stack are known to be, from the top down.
pub enum Kinds {
    Nil,
    Cons(NodeKind, Box<Kinds>),
}

/// Whether a node that is known to be `a` is a `b` too.
pub open spec fn le(a: NodeKind, b: NodeKind) -> bool {
    a == b || (b is Tree && (a is Name || a is Count)) || (b is Items && a is Names)
}

/// Whether `node` is of the kind `kind`.
pub open spec fn has_kind(node: AstView, kind: NodeKind) -> bool {
    match kind {
        NodeKind::Tree => node.is_finished(),
        NodeKind::Name => node is Identifier,
        NodeKind::Count => node is Number,
        NodeKind::Type => node is TypeWrapper,
        NodeKind::Relation => node is CondWrapper,
        NodeKind::Items => node is List && forall|i: int|
            0 <= i < node->List_0.len() ==> (#[trigger] node->List_0[i]).is_finished(),
        NodeKind::Names => node is List && all_identifiers(node->List_0),
    }
}

/// Whether the nodes of `nodes`, from the last to the first, are of the kinds `kinds`.
pub open spec fn have_kinds(nodes: Seq<AstView>, kinds: Kinds) -> bool
    decreases kinds,
{
    match kinds {
        Kinds::Nil => nodes.len() == 0,
        Kinds::Cons(kind, below) => nodes.len() > 0 && has_kind(nodes.last(), kind) && have_kinds(
            nodes.drop_last(),
            *below,
        ),
    }
}

/// Whether nodes that are known to be `a` are `b` too, one by one.
pub open spec fn kinds_le(a: Kinds, b: Kinds) -> bool
    decreases a,
{
    match (a, b) {
        (Kinds::Nil, Kinds::Nil) => true,
        (Kinds::Cons(first, below), Kinds::Cons(other, under)) => le(first, other) && kinds_le(
            *below,
            *under,
        ),
        _ => false,
    }
}

/// The kinds with a node of the kind `kind` on top.
pub open spec fn push(kinds: Option<Kinds>, kind: NodeKind) -> Option<Kinds> {
    match kinds {
        Some(kinds) => Some(Kinds::Cons(kind, Box::new(kinds))),
        None => None,
    }
}

/// The kinds without the node on top, which must be a `wanted`.
pub open spec fn pop(kinds: Option<Kinds>, wanted: NodeKind) -> Option<Kinds> {
    match kinds {
        Some(Kinds::Cons(kind, below)) => if le(kind, wanted) {
            Some(*below)
        } else {
            None
        },
        _ => None,
    }
}

/// The kind of the leaf that a matched token of the category `category` leaves.
pub open spec fn leaf_kind(category: TokenType) -> Option<NodeKind> {
    match category {
        TokenType::Id => Some(NodeKind::Name),
        TokenType::Number => Some(NodeKind::Count),
        TokenType::CharValue => Some(NodeKind::Tree),
        TokenType::IntKeyword
        | TokenType::FloatKeyword
        | TokenType::CharKeyword
        | TokenType::VoidKeyword => Some(NodeKind::Type),
        TokenType::GTOperator
        | TokenType::LTOperator
        | TokenType::GEOperator
        | TokenType::LEOperator
        | TokenType::EQOperator
        | TokenType::NEOperator => Some(NodeKind::Relation),
        _ => None,
    }
}

/// Whether the non-terminal `name` of the language leaves a tree where there was none.
pub open spec fn makes_tree(name: Seq<char>) -> bool {
    name == "E"@ || name == "T"@ || name == "F"@ || name == "U"@ || name == "cond"@ || name
        == "cmd_atrib"@ || name == "cmd_if"@ || name == "cmd_while"@ || name == "cmd_do"@ || name
        == "cmd_for"@ || name == "comando"@ || name == "cmd_ou_bloco"@ || name == "bloco"@ || name
        == "decl"@ || name == "inicio"@
}

/// Whether the non-terminal `name` of the language goes on with the tree on top: it
/// leaves a tree where it found one.
pub open spec fn grows_tree(name: Seq<char>) -> bool {
    name == "E'"@ || name == "T'"@ || name == "F'"@
}

/// What the work on `symbol` makes of a stack of nodes of the kinds `kinds`: the kinds of
/// the nodes that it leaves, or nothing where the nodes do not fit.
pub open spec fn transform(symbol: SymbolView, kinds: Kinds) -> Option<Kinds> {
    let found = Some(kinds);
    match symbol {
        SymbolView::Terminal(category) => match leaf_kind(category) {
            Some(kind) => push(found, kind),
            None => found,
        },
        SymbolView::NonTerminal(name) => if makes_tree(name) {
            push(found, NodeKind::Tree)
        } else if grows_tree(name) {
            push(pop(found, NodeKind::Tree), NodeKind::Tree)
        } else if name == "cmd_if'"@ {
            push(pop(pop(found, NodeKind::Tree), NodeKind::Tree), NodeKind::Tree)
        } else if name == "tipo"@ {
            push(found, NodeKind::Type)
        } else if name == "op_rel"@ {
            push(found, NodeKind::Relation)
        } else if name == "decls"@ || name == "comandos"@ {
            push(found, NodeKind::Items)
        } else if name == "lista_ids"@ || name == "lista_ids'"@ {
            push(found, NodeKind::Names)
        } else {
            None
        },
        SymbolView::Epsilon => found,
        SymbolView::End => found,
        SymbolView::Action(kind) => match kind {
            ActionKind::MakeList => push(found, NodeKind::Names),
            ActionKind::AppendList => match kinds {
                Kinds::Cons(list, below) => push(
                    pop(pop(found, NodeKind::Items), NodeKind::Tree),
                    if list is Names && *below matches Kinds::Cons(NodeKind::Name, _) {
                        NodeKind::Names
                    } else {
                        NodeKind::Items
                    },
                ),
                Kinds::Nil => None,
            },
            ActionKind::Math(_)
            | ActionKind::CreateIf
            | ActionKind::CreateWhile
            | ActionKind::CreateDoWhile => push(
                pop(pop(found, NodeKind::Tree), NodeKind::Tree),
                NodeKind::Tree,
            ),
            ActionKind::CreateUnaryOp => push(pop(found, NodeKind::Tree), NodeKind::Tree),
            ActionKind::CreateIfElse => push(
                pop(pop(pop(found, NodeKind::Tree), NodeKind::Tree), NodeKind::Tree),
                NodeKind::Tree,
            ),
            ActionKind::CreateCond => push(
                pop(pop(pop(found, NodeKind::Tree), NodeKind::Relation), NodeKind::Tree),
                NodeKind::Tree,
            ),
            ActionKind::Assign => push(
                pop(pop(found, NodeKind::Tree), NodeKind::Name),
                NodeKind::Tree,
            ),
            ActionKind::CreateProgram => push(
                pop(pop(found, NodeKind::Tree), NodeKind::Type),
                NodeKind::Tree,
            ),
            ActionKind::CreateBlock => push(
                pop(pop(found, NodeKind::Items), NodeKind::Items),
                NodeKind::Tree,
            ),
            ActionKind::CreateDecl => push(
                pop(pop(found, NodeKind::Names), NodeKind::Type),
                NodeKind::Tree,
            ),
            ActionKind::CreateFor => push(
                pop(
                    pop(
                        pop(pop(pop(found, NodeKind::Tree), NodeKind::Tree), NodeKind::Count),
                        NodeKind::Count,
                    ),
                    NodeKind::Name,
                ),
                NodeKind::Tree,
            ),
        },
    }
}

/// Whether the work on the symbols of `stack`, from the last to the first, fits a stack
/// of nodes of the kinds `kinds`, and leaves exactly one tree.
pub open spec fn fits(stack: Seq<SymbolView>, kinds: Kinds) -> bool
    decreases stack.len(),
{
    if stack.len() == 0 {
        kinds matches Kinds::Cons(kind, below) && le(kind, NodeKind::Tree) && *below is Nil
    } else {
        match transform(stack.last(), kinds) {
            Some(after) => fits(stack.drop_last(), after),
            None => false,
        }
    }
}

/// What the work on the symbols of `production` from index `from` on, one after the
/// other, makes of a stack of nodes of the kinds `kinds`.
pub open spec fn through(production: Seq<SymbolView>, from: int, kinds: Option<Kinds>) -> Option<
    Kinds,
>
    decreases production.len() - from,
{
    if from < 0 || from >= production.len() {
        kinds
    } else {
        match kinds {
            Some(found) => through(production, from + 1, transform(production[from], found)),
            None => None,
        }
    }
}

/// A node that is known to be of a kind is of the wider kinds too.
pub proof fn lemma_wider_kind(node: AstView, a: NodeKind, b: NodeKind)
    requires
        has_kind(node, a),
        le(a, b),
    ensures
        has_kind(node, b),
{
    if a is Names && b is Items {
        assert forall|i: int| 0 <= i < node->List_0.len() implies (#[trigger] node->List_0[i])
            .is_finished() by {
            assert(node->List_0[i] is Identifier);
        }
    }
}

pub proof fn lemma_kinds_le_same(kinds: Kinds)
    ensures
        kinds_le(kinds, kinds),
    decreases kinds,
{
    if let Kinds::Cons(_, below) = kinds {
        lemma_kinds_le_same(*below);
    }
}

/// The work on a symbol fits narrower kinds where it fits wider ones, and leaves
/// narrower kinds.
pub proof fn lemma_transform_narrower(symbol: SymbolView, a: Kinds, b: Kinds)
    requires
        kinds_le(a, b),
        transform(symbol, b) is Some,
    ensures
        transform(symbol, a) is Some,
        kinds_le(transform(symbol, a)->0, transform(symbol, b)->0),
{
    reveal_with_fuel(kinds_le, 7);
}

/// The work on a stack of symbols fits narrower kinds where it fits wider ones.
pub proof fn lemma_fits_narrower(stack: Seq<SymbolView>, a: Kinds, b: Kinds)
    requires
        kinds_le(a, b),
        fits(stack, b),
    ensures
        fits(stack, a),
    decreases stack.len(),
{
    if stack.len() == 0 {
        reveal_with_fuel(kinds_le, 3);
    } else {
        lemma_transform_narrower(stack.last(), a, b);
        lemma_fits_narrower(
            stack.drop_last(),
            transform(stack.last(), a)->0,
            transform(stack.last(), b)->0,
        );
    }
}

/// The work on a production that was pushed is the work on its symbols one after the
/// other.
pub proof fn lemma_fits_pushed(
    rest: Seq<SymbolView>,
    production: Seq<SymbolView>,
    from: int,
    kinds: Kinds,
)
    requires
        0 <= from <= production.len(),
    ensures
        fits(rest + pushed(production.subrange(from, production.len() as int)), kinds) == (
        match through(production, from, Some(kinds)) {
            Some(after) => fits(rest, after),
            None => false,
        }),
    decreases production.len() - from,
{
    let body = production.subrange(from, production.len() as int);
    if from == production.len() {
        lemma_pushed_nothing(body);
        assert(rest + pushed(body) =~= rest);
    } else {
        lemma_pushed_first_on_top(body);
        let others = production.subrange(from + 1, production.len() as int);
        assert(body.drop_first() =~= others);
        assert(body[0] == production[from]);
        if production[from] is Epsilon {
            lemma_fits_pushed(rest, production, from + 1, kinds);
        } else {
            let stack = rest + pushed(body);
            assert(stack.last() == production[from]);
            assert(stack.drop_last() =~= rest + pushed(others));
            match transform(production[from], kinds) {
                Some(after) => {
                    lemma_fits_pushed(rest, production, from + 1, after);
                },
                None => {
                    lemma_through_nothing(production, from + 1);
                },
            }
        }
    }
}

/// Where the nodes do not fit one symbol, they do not fit what follows it.
pub proof fn lemma_through_nothing(production: Seq<SymbolView>, from: int)
    ensures
        through(production, from, None) is None,
    decreases production.len() - from,
{
    if 0 <= from < production.len() {
    }
}

/// Whether `production`, where the language has it for the non-terminal `name`, fits
/// the nodes that `name` fits, and leaves what `name` leaves, or narrower kinds.
pub open spec fn shaped(production: Option<Seq<SymbolView>>, name: &str, kinds: Kinds) -> bool {
    production is Some && transform(nt(name), kinds) is Some ==> {
        &&& through(production->0, 0, Some(kinds)) is Some
        &&& kinds_le(through(production->0, 0, Some(kinds))->0, transform(nt(name), kinds)->0)
    }
}


/// The productions of `programa_rule` fit the nodes that their non-terminal fits.
proof fn lemma_programa_shapes(lookahead: TokenType, kinds: Kinds)
    ensures
        shaped(programa_rule(lookahead), "inicio", kinds),
{
    reveal_with_fuel(through, 13);
    reveal_with_fuel(kinds_le, 6);
    lemma_non_terminal_names();
    lemma_kinds_le_same(kinds);
}


/// The productions of `tipo_rule` fit the nodes that their non-terminal fits.
proof fn lemma_tipo_shapes(lookahead: TokenType, kinds: Kinds)
    ensures
        shaped(tipo_rule(lookahead), "tipo", kinds),
{
    reveal_with_fuel(through, 13);
    reveal_with_fuel(kinds_le, 6);
    lemma_non_terminal_names();
    lemma_kinds_le_same(kinds);
}


/// The productions of `bloco_rule` fit the nodes that their non-terminal fits.
proof fn lemma_bloco_shapes(lookahead: TokenType, kinds: Kinds)
    ensures
        shaped(bloco_rule(lookahead), "bloco", kinds),
{
    reveal_with_fuel(through, 13);
    reveal_with_fuel(kinds_le, 6);
    lemma_non_terminal_names();
    lemma_kinds_le_same(kinds);
}


/// The productions of `decls_rule` fit the nodes that their non-terminal fits.
proof fn lemma_decls_shapes(lookahead: TokenType, kinds: Kinds)
    ensures
        shaped(decls_rule(lookahead), "decls", kinds),
{
    reveal_with_fuel(through, 13);
    reveal_with_fuel(kinds_le, 6);
    lemma_non_terminal_names();
    lemma_kinds_le_same(kinds);
}


/// The productions of `decl_rule` fit the nodes that their non-terminal fits.
proof fn lemma_decl_shapes(lookahead: TokenType, kinds: Kinds)
    ensures
        shaped(decl_rule(lookahead), "decl", kinds),
{
    reveal_with_fuel(through, 13);
    reveal_with_fuel(kinds_le, 6);
    lemma_non_terminal_names();
    lemma_kinds_le_same(kinds);
}


/// The productions of `lista_ids_rule` fit the nodes that their non-terminal fits.
proof fn lemma_lista_ids_shapes(lookahead: TokenType, kinds: Kinds)
    ensures
        shaped(lista_ids_rule(lookahead), "lista_ids", kinds),
{
    reveal_with_fuel(through, 13);
    reveal_with_fuel(kinds_le, 6);
    lemma_non_terminal_names();
    lemma_kinds_le_same(kinds);
}


/// The productions of `lista_ids_prime_rule` fit the nodes that their non-terminal fits.
proof fn lemma_lista_ids_prime_shapes(lookahead: TokenType, kinds: Kinds)
    ensures
        shaped(lista_ids_prime_rule(lookahead), "lista_ids'", kinds),
{
    reveal_with_fuel(through, 13);
    reveal_with_fuel(kinds_le, 6);
    lemma_non_terminal_names();
    lemma_kinds_le_same(kinds);
}


/// The productions of `comandos_rule` fit the nodes that their non-terminal fits.
proof fn lemma_comandos_shapes(lookahead: TokenType, kinds: Kinds)
    ensures
        shaped(comandos_rule(lookahead), "comandos", kinds),
{
    reveal_with_fuel(through, 13);
    reveal_with_fuel(kinds_le, 6);
    lemma_non_terminal_names();
    lemma_kinds_le_same(kinds);
}


/// The productions of `comando_rule` fit the nodes that their non-terminal fits.
proof fn lemma_comando_shapes(lookahead: TokenType, kinds: Kinds)
    ensures
        shaped(comando_rule(lookahead), "comando", kinds),
{
    reveal_with_fuel(through, 13);
    reveal_with_fuel(kinds_le, 6);
    lemma_non_terminal_names();
    lemma_kinds_le_same(kinds);
}


/// The productions of `cmd_atrib_rule` fit the nodes that their non-terminal fits.
proof fn lemma_cmd_atrib_shapes(lookahead: TokenType, kinds: Kinds)
    ensures
        shaped(cmd_atrib_rule(lookahead), "cmd_atrib", kinds),
{
    reveal_with_fuel(through, 13);
    reveal_with_fuel(kinds_le, 6);
    lemma_non_terminal_names();
    lemma_kinds_le_same(kinds);
}


/// The productions of `cmd_if_rule` fit the nodes that their non-terminal fits.
proof fn lemma_cmd_if_shapes(lookahead: TokenType, kinds: Kinds)
    ensures
        shaped(cmd_if_rule(lookahead), "cmd_if", kinds),
{
    reveal_with_fuel(through, 13);
    reveal_with_fuel(kinds_le, 6);
    lemma_non_terminal_names();
    lemma_kinds_le_same(kinds);
}


/// The productions of `cmd_if_prime_rule` fit the nodes that their non-terminal fits.
proof fn lemma_cmd_if_prime_shapes(lookahead: TokenType, kinds: Kinds)
    ensures
        shaped(cmd_if_prime_rule(lookahead), "cmd_if'", kinds),
{
    reveal_with_fuel(through, 13);
    reveal_with_fuel(kinds_le, 6);
    lemma_non_terminal_names();
    lemma_kinds_le_same(kinds);
}


/// The productions of `cond_rule` fit the nodes that their non-terminal fits.
proof fn lemma_cond_shapes(lookahead: TokenType, kinds: Kinds)
    ensures
        shaped(cond_rule(lookahead), "cond", kinds),
{
    reveal_with_fuel(through, 13);
    reveal_with_fuel(kinds_le, 6);
    lemma_non_terminal_names();
    lemma_kinds_le_same(kinds);
}


/// The productions of `op_rel_rule` fit the nodes that their non-terminal fits.
proof fn lemma_op_rel_shapes(lookahead: TokenType, kinds: Kinds)
    ensures
        shaped(op_rel_rule(lookahead), "op_rel", kinds),
{
    reveal_with_fuel(through, 13);
    reveal_with_fuel(kinds_le, 6);
    lemma_non_terminal_names();
    lemma_kinds_le_same(kinds);
}


/// The productions of `cmd_ou_bloco_rule` fit the nodes that their non-terminal fits.
proof fn lemma_cmd_ou_bloco_shapes(lookahead: TokenType, kinds: Kinds)
    ensures
        shaped(cmd_ou_bloco_rule(lookahead), "cmd_ou_bloco", kinds),
{
    reveal_with_fuel(through, 13);
    reveal_with_fuel(kinds_le, 6);
    lemma_non_terminal_names();
    lemma_kinds_le_same(kinds);
}


/// The productions of `cmd_while_rule` fit the nodes that their non-terminal fits.
proof fn lemma_cmd_while_shapes(lookahead: TokenType, kinds: Kinds)
    ensures
        shaped(cmd_while_rule(lookahead), "cmd_while", kinds),
{
    reveal_with_fuel(through, 13);
    reveal_with_fuel(kinds_le, 6);
    lemma_non_terminal_names();
    lemma_kinds_le_same(kinds);
}


/// The productions of `cmd_do_rule` fit the nodes that their non-terminal fits.
proof fn lemma_cmd_do_shapes(lookahead: TokenType, kinds: Kinds)
    ensures
        shaped(cmd_do_rule(lookahead), "cmd_do", kinds),
{
    reveal_with_fuel(through, 13);
    reveal_with_fuel(kinds_le, 6);
    lemma_non_terminal_names();
    lemma_kinds_le_same(kinds);
}


/// The productions of `cmd_for_rule` fit the nodes that their non-terminal fits.
proof fn lemma_cmd_for_shapes(lookahead: TokenType, kinds: Kinds)
    ensures
        shaped(cmd_for_rule(lookahead), "cmd_for", kinds),
{
    reveal_with_fuel(through, 13);
    reveal_with_fuel(kinds_le, 6);
    lemma_non_terminal_names();
    lemma_kinds_le_same(kinds);
}


/// The productions of `e_rule` fit the nodes that their non-terminal fits.
proof fn lemma_e_shapes(lookahead: TokenType, kinds: Kinds)
    ensures
        shaped(e_rule(lookahead), "E", kinds),
{
    reveal_with_fuel(through, 13);
    reveal_with_fuel(kinds_le, 6);
    lemma_non_terminal_names();
    lemma_kinds_le_same(kinds);
}


/// The productions of `e_prime_rule` fit the nodes that their non-terminal fits.
proof fn lemma_e_prime_shapes(lookahead: TokenType, kinds: Kinds)
    ensures
        shaped(e_prime_rule(lookahead), "E'", kinds),
{
    reveal_with_fuel(through, 13);
    reveal_with_fuel(kinds_le, 6);
    lemma_non_terminal_names();
    lemma_kinds_le_same(kinds);
}


/// The productions of `t_rule` fit the nodes that their non-terminal fits.
proof fn lemma_t_shapes(lookahead: TokenType, kinds: Kinds)
    ensures
        shaped(t_rule(lookahead), "T", kinds),
{
    reveal_with_fuel(through, 13);
    reveal_with_fuel(kinds_le, 6);
    lemma_non_terminal_names();
    lemma_kinds_le_same(kinds);
}


/// The productions of `t_prime_rule` fit the nodes that their non-terminal fits.
proof fn lemma_t_prime_shapes(lookahead: TokenType, kinds: Kinds)
    ensures
        shaped(t_prime_rule(lookahead), "T'", kinds),
{
    reveal_with_fuel(through, 13);
    reveal_with_fuel(kinds_le, 6);
    lemma_non_terminal_names();
    lemma_kinds_le_same(kinds);
}


/// The productions of `f_rule` fit the nodes that their non-terminal fits.
proof fn lemma_f_shapes(lookahead: TokenType, kinds: Kinds)
    ensures
        shaped(f_rule(lookahead), "F", kinds),
{
    reveal_with_fuel(through, 13);
    reveal_with_fuel(kinds_le, 6);
    lemma_non_terminal_names();
    lemma_kinds_le_same(kinds);
}


/// The productions of `f_prime_rule` fit the nodes that their non-terminal fits.
proof fn lemma_f_prime_shapes(lookahead: TokenType, kinds: Kinds)
    ensures
        shaped(f_prime_rule(lookahead), "F'", kinds),
{
    reveal_with_fuel(through, 13);
    reveal_with_fuel(kinds_le, 6);
    lemma_non_terminal_names();
    lemma_kinds_le_same(kinds);
}


/// The productions of `u_rule` fit the nodes that their non-terminal fits.
proof fn lemma_u_shapes(lookahead: TokenType, kinds: Kinds)
    ensures
        shaped(u_rule(lookahead), "U", kinds),
{
    reveal_with_fuel(through, 13);
    reveal_with_fuel(kinds_le, 6);
    lemma_non_terminal_names();
    lemma_kinds_le_same(kinds);
}


/// Every production of the language fits the nodes that its non-terminal fits, and
/// leaves what its non-terminal leaves, or narrower kinds.
proof fn lemma_production_shapes(name: Seq<char>, lookahead: TokenType, kinds: Kinds)
    requires
        grammar_rule(name, lookahead) is Some,
        transform(SymbolView::NonTerminal(name), kinds) is Some,
    ensures
        through(grammar_rule(name, lookahead)->0, 0, Some(kinds)) is Some,
        kinds_le(
            through(grammar_rule(name, lookahead)->0, 0, Some(kinds))->0,
            transform(SymbolView::NonTerminal(name), kinds)->0,
        ),
{
    lemma_non_terminal_names();
    lemma_programa_shapes(lookahead, kinds);
    lemma_tipo_shapes(lookahead, kinds);
    lemma_bloco_shapes(lookahead, kinds);
    lemma_decls_shapes(lookahead, kinds);
    lemma_decl_shapes(lookahead, kinds);
    lemma_lista_ids_shapes(lookahead, kinds);
    lemma_lista_ids_prime_shapes(lookahead, kinds);
    lemma_comandos_shapes(lookahead, kinds);
    lemma_comando_shapes(lookahead, kinds);
    lemma_cmd_atrib_shapes(lookahead, kinds);
    lemma_cmd_if_shapes(lookahead, kinds);
    lemma_cmd_if_prime_shapes(lookahead, kinds);
    lemma_cond_shapes(lookahead, kinds);
    lemma_op_rel_shapes(lookahead, kinds);
    lemma_cmd_ou_bloco_shapes(lookahead, kinds);
    lemma_cmd_while_shapes(lookahead, kinds);
    lemma_cmd_do_shapes(lookahead, kinds);
    lemma_cmd_for_shapes(lookahead, kinds);
    lemma_e_shapes(lookahead, kinds);
    lemma_e_prime_shapes(lookahead, kinds);
    lemma_t_shapes(lookahead, kinds);
    lemma_t_prime_shapes(lookahead, kinds);
    lemma_f_shapes(lookahead, kinds);
    lemma_f_prime_shapes(lookahead, kinds);
    lemma_u_shapes(lookahead, kinds);
}

/// The leaf that a matched token leaves is of the kind that its category tells.
pub proof fn lemma_leaf_kind(token: TokenView)
    ensures
        match leaf_of(token) {
            Some(leaf) => leaf_kind(token.category()) is Some && has_kind(
                leaf,
                leaf_kind(token.category())->0,
            ),
            None => leaf_kind(token.category()) is None,
        },
{
}

/// A node of the kind `kind` on top of nodes of the kinds `below`.
proof fn lemma_kinds_with(nodes: Seq<AstView>, node: AstView, kind: NodeKind, below: Kinds)
    requires
        have_kinds(nodes, below),
        has_kind(node, kind),
    ensures
        have_kinds(nodes.push(node), Kinds::Cons(kind, Box::new(below))),
{
    assert(nodes.push(node).drop_last() =~= nodes);
}

/// The node on top of nodes that fit a `wanted` on top is a `wanted`.
proof fn lemma_kind_on_top(nodes: Seq<AstView>, kinds: Kinds, wanted: NodeKind)
    requires
        have_kinds(nodes, kinds),
        pop(Some(kinds), wanted) is Some,
    ensures
        nodes.len() > 0,
        has_kind(nodes.last(), wanted),
        have_kinds(nodes.drop_last(), pop(Some(kinds), wanted)->0),
{
    lemma_wider_kind(nodes.last(), kinds->Cons_0, wanted);
}

/// With nodes of the kinds that it fits, an action finds what it takes and leaves a node
/// of the kind that it is to leave; only the action of the counting loop may fail, on a
/// bound that is no number that 32 bits hold.
pub proof fn lemma_action_shapes(kind: ActionKind, nodes: Seq<AstView>, kinds: Kinds)
    requires
        have_kinds(nodes, kinds),
        transform(SymbolView::Action(kind), kinds) is Some,
    ensures
        match apply_action(kind, nodes) {
            Ok(after) => have_kinds(after, transform(SymbolView::Action(kind), kinds)->0),
            Err(fault) => kind is CreateFor && fault == InternalError::WrongOperand(kind),
        },
{
    let found = Some(kinds);
    match kind {
        ActionKind::MakeList => {
            let list = AstView::List(Seq::empty());
            assert(has_kind(list, NodeKind::Names));
            lemma_kinds_with(nodes, list, NodeKind::Names, kinds);
        },
        ActionKind::AppendList => {
            lemma_kind_on_top(nodes, kinds, NodeKind::Items);
            let below = pop(found, NodeKind::Items);
            lemma_kind_on_top(nodes.drop_last(), below->0, NodeKind::Tree);
            let rest = pop(below, NodeKind::Tree);
            let items = nodes.last()->List_0;
            let item = nodes.drop_last().last();
            let list = AstView::List(seq![item] + items);
            let given = transform(SymbolView::Action(kind), kinds)->0->Cons_0;
            assert(has_kind(list, given)) by {
                assert forall|i: int| 0 <= i < (seq![item] + items).len() implies (#[trigger] (
                seq![item] + items)[i]).is_finished() by {
                    if i > 0 {
                        assert((seq![item] + items)[i] == items[i - 1]);
                    }
                }
                if given is Names {
                    assert(has_kind(nodes.last(), NodeKind::Names));
                    assert(has_kind(item, NodeKind::Name));
                    assert forall|i: int| 0 <= i < (seq![item] + items).len() implies (#[trigger] (
                    seq![item] + items)[i]) is Identifier by {
                        if i > 0 {
                            assert((seq![item] + items)[i] == items[i - 1]);
                        }
                    }
                }
            }
            lemma_kinds_with(nodes.drop_last().drop_last(), list, given, rest->0);
        },
        ActionKind::Math(_)
        | ActionKind::CreateIf
        | ActionKind::CreateWhile
        | ActionKind::CreateDoWhile => {
            lemma_kind_on_top(nodes, kinds, NodeKind::Tree);
            let below = pop(found, NodeKind::Tree);
            lemma_kind_on_top(nodes.drop_last(), below->0, NodeKind::Tree);
            let rest = pop(below, NodeKind::Tree);
            let after = apply_action(kind, nodes)->Ok_0;
            lemma_kinds_with(
                nodes.drop_last().drop_last(),
                after.last(),
                NodeKind::Tree,
                rest->0,
            );
        },
        ActionKind::CreateUnaryOp => {
            lemma_kind_on_top(nodes, kinds, NodeKind::Tree);
            let rest = pop(found, NodeKind::Tree);
            let after = apply_action(kind, nodes)->Ok_0;
            lemma_kinds_with(nodes.drop_last(), after.last(), NodeKind::Tree, rest->0);
        },
        ActionKind::CreateIfElse => {
            lemma_kind_on_top(nodes, kinds, NodeKind::Tree);
            let below = pop(found, NodeKind::Tree);
            lemma_kind_on_top(nodes.drop_last(), below->0, NodeKind::Tree);
            let under = pop(below, NodeKind::Tree);
            lemma_kind_on_top(nodes.drop_last().drop_last(), under->0, NodeKind::Tree);
            let rest = pop(under, NodeKind::Tree);
            let after = apply_action(kind, nodes)->Ok_0;
            lemma_kinds_with(
                nodes.drop_last().drop_last().drop_last(),
                after.last(),
                NodeKind::Tree,
                rest->0,
            );
        },
        ActionKind::CreateCond => {
            lemma_kind_on_top(nodes, kinds, NodeKind::Tree);
            let below = pop(found, NodeKind::Tree);
            lemma_kind_on_top(nodes.drop_last(), below->0, NodeKind::Relation);
            let under = pop(below, NodeKind::Relation);
            lemma_kind_on_top(nodes.drop_last().drop_last(), under->0, NodeKind::Tree);
            let rest = pop(under, NodeKind::Tree);
            let after = apply_action(kind, nodes)->Ok_0;
            lemma_kinds_with(
                nodes.drop_last().drop_last().drop_last(),
                after.last(),
                NodeKind::Tree,
                rest->0,
            );
        },
        ActionKind::Assign => {
            lemma_kind_on_top(nodes, kinds, NodeKind::Tree);
            let below = pop(found, NodeKind::Tree);
            lemma_kind_on_top(nodes.drop_last(), below->0, NodeKind::Name);
            let rest = pop(below, NodeKind::Name);
            let after = apply_action(kind, nodes)->Ok_0;
            lemma_kinds_with(
                nodes.drop_last().drop_last(),
                after.last(),
                NodeKind::Tree,
                rest->0,
            );
        },
        ActionKind::CreateProgram => {
            lemma_kind_on_top(nodes, kinds, NodeKind::Tree);
            let below = pop(found, NodeKind::Tree);
            lemma_kind_on_top(nodes.drop_last(), below->0, NodeKind::Type);
            let rest = pop(below, NodeKind::Type);
            let after = apply_action(kind, nodes)->Ok_0;
            lemma_kinds_with(
                nodes.drop_last().drop_last(),
                after.last(),
                NodeKind::Tree,
                rest->0,
            );
        },
        ActionKind::CreateBlock => {
            lemma_kind_on_top(nodes, kinds, NodeKind::Items);
            let below = pop(found, NodeKind::Items);
            lemma_kind_on_top(nodes.drop_last(), below->0, NodeKind::Items);
            let rest = pop(below, NodeKind::Items);
            let after = apply_action(kind, nodes)->Ok_0;
            lemma_kinds_with(
                nodes.drop_last().drop_last(),
                after.last(),
                NodeKind::Tree,
                rest->0,
            );
        },
        ActionKind::CreateDecl => {
            lemma_kind_on_top(nodes, kinds, NodeKind::Names);
            let below = pop(found, NodeKind::Names);
            lemma_kind_on_top(nodes.drop_last(), below->0, NodeKind::Type);
            let rest = pop(below, NodeKind::Type);
            let after = apply_action(kind, nodes)->Ok_0;
            lemma_kinds_with(
                nodes.drop_last().drop_last(),
                after.last(),
                NodeKind::Tree,
                rest->0,
            );
        },
        ActionKind::CreateFor => {
            lemma_kind_on_top(nodes, kinds, NodeKind::Tree);
            let k1 = pop(found, NodeKind::Tree);
            let n1 = nodes.drop_last();
            lemma_kind_on_top(n1, k1->0, NodeKind::Tree);
            let k2 = pop(k1, NodeKind::Tree);
            let n2 = n1.drop_last();
            lemma_kind_on_top(n2, k2->0, NodeKind::Count);
            let k3 = pop(k2, NodeKind::Count);
            let n3 = n2.drop_last();
            lemma_kind_on_top(n3, k3->0, NodeKind::Count);
            let k4 = pop(k3, NodeKind::Count);
            let n4 = n3.drop_last();
            lemma_kind_on_top(n4, k4->0, NodeKind::Name);
            let rest = pop(k4, NodeKind::Name);
            if apply_action(kind, nodes) is Ok {
                let after = apply_action(kind, nodes)->Ok_0;
                lemma_kinds_with(n4.drop_last(), after.last(), NodeKind::Tree, rest->0);
            }
        },
    }
}

/// The kinds of the nodes after the step that the parser takes in the state `m`, where
/// the nodes of `m` are of the kinds `kinds`.
pub open spec fn kinds_after(m: Machine, kinds: Kinds) -> Kinds {
    match m.stack.last() {
        SymbolView::NonTerminal(_) => kinds,
        symbol => transform(symbol, kinds)->0,
    }
}

/// Whether `error` is no fault of the grammar and its actions, but for a bound of a
/// counting loop that is no number that 32 bits hold, and for the limit of steps.
pub open spec fn is_no_fault(error: ParseErrorView) -> bool {
    match error {
        ParseErrorView::Internal { fault, .. } => fault is StepLimit || fault
            == InternalError::WrongOperand(ActionKind::CreateFor),
        _ => true,
    }
}

/// With the grammar of the language, a step leaves nodes that fit the symbols that are
/// left, where the nodes fitted before; if it fails, then on the source or on a bound.
pub proof fn lemma_step_shapes(source: Seq<char>, m: Machine, kinds: Kinds)
    requires
        m.stack.len() > 0,
        have_kinds(m.nodes, kinds),
        fits(m.stack, kinds),
    ensures
        match step(grammar(), source, m).error {
            Some(error) => is_no_fault(error),
            None => {
                &&& have_kinds(step(grammar(), source, m).machine.nodes, kinds_after(m, kinds))
                &&& fits(step(grammar(), source, m).machine.stack, kinds_after(m, kinds))
            },
        },
{
    let rest = m.stack.drop_last();
    let lookahead = m.lookahead.category();
    match m.stack.last() {
        SymbolView::Terminal(expected) => {
            if lookahead == expected {
                lemma_leaf_kind(m.lookahead);
                if let Some(leaf) = leaf_of(m.lookahead) {
                    lemma_kinds_with(m.nodes, leaf, leaf_kind(expected)->0, kinds);
                }
            }
        },
        SymbolView::NonTerminal(name) => {
            if grammar_rule(name, lookahead) is Some {
                let production = grammar_rule(name, lookahead)->0;
                let wanted = transform(m.stack.last(), kinds)->0;
                lemma_production_shapes(name, lookahead, kinds);
                let made = through(production, 0, Some(kinds))->0;
                lemma_fits_narrower(rest, made, wanted);
                lemma_fits_pushed(rest, production, 0, kinds);
                assert(production.subrange(0, production.len() as int) =~= production);
            }
        },
        SymbolView::Action(kind) => {
            lemma_action_shapes(kind, m.nodes, kinds);
        },
        _ => {},
    }
}

/// With the grammar of the language, a parse from a state whose nodes fit its symbols
/// fails only on the source, on a bound, or for the limit of steps.
pub proof fn lemma_run_shapes(source: Seq<char>, m: Machine, kinds: Kinds, fuel: nat)
    requires
        have_kinds(m.nodes, kinds),
        fits(m.stack, kinds),
    ensures
        match run(grammar(), source, m, fuel).result {
            Ok(_) => true,
            Err(error) => is_no_fault(error),
        },
    decreases fuel,
{
    if m.stack.len() == 0 {
        reveal_with_fuel(have_kinds, 3);
        assert(m.nodes.len() == 1);
        assert(m.nodes[0] == m.nodes.last());
    } else if fuel > 0 {
        lemma_step_shapes(source, m, kinds);
        let next = step(grammar(), source, m);
        if next.error is None {
            lemma_run_shapes(source, next.machine, kinds_after(m, kinds), (fuel - 1) as nat);
        }
    }
}

/// With the grammar of the language, a parse that begins with a non-terminal for a tree
/// gives a tree, unless the source is at fault: the actions find the nodes that they
/// take, and one node is left at the end. Only a lexeme that is malformed, a token that
/// the grammar does not allow, a bound of a counting loop that is no number that 32 bits
/// hold, or the limit of steps ends the parse otherwise.
pub proof fn lemma_language_builds_one_tree(
    start: Seq<char>,
    source: Seq<char>,
    position: int,
    symbols: Map<Seq<char>, TokenView>,
    limit: nat,
)
    requires
        makes_tree(start),
    ensures
        match parse_from(grammar(), start, source, position, symbols, limit).result {
            Ok(_) => true,
            Err(error) => is_no_fault(error),
        },
{
    let scan = scan_token(source, position);
    if let Ok(token) = scan.found {
        let m = Machine {
            stack: initial_stack(start),
            nodes: Seq::empty(),
            lookahead: token,
            position: scan.end,
            symbols: recorded(symbols, token),
        };
        let stack = initial_stack(start);
        assert(stack.len() == 2 && stack[0] == SymbolView::End && stack[1]
            == SymbolView::NonTerminal(start));
        assert(stack.drop_last().len() == 1 && stack.drop_last()[0] == SymbolView::End);
        assert(stack.drop_last().drop_last().len() == 0);
        reveal_with_fuel(fits, 3);
        assert(fits(stack, Kinds::Nil));
        lemma_run_shapes(source, m, Kinds::Nil, limit);
    }
}

/// With the grammar of the language, a parse that begins with a non-terminal for a tree
/// and may take fourteen steps for every character of the source, and thirty-one more,
/// gives a tree or tells what is wrong with the source: a lexeme that is malformed, a
/// token that the grammar does not allow, or a bound of a counting loop that is no number
/// that 32 bits hold.
pub proof fn lemma_language_parse_fails_on_the_source_only(
    start: Seq<char>,
    source: Seq<char>,
    position: int,
    symbols: Map<Seq<char>, TokenView>,
    limit: nat,
)
    requires
        makes_tree(start),
        0 <= position <= source.len(),
        token_credit() * source.len() + 31 <= limit,
    ensures
        match parse_from(grammar(), start, source, position, symbols, limit).result {
            Ok(_) => true,
            Err(ParseErrorView::Internal { fault, .. }) => fault == InternalError::WrongOperand(
                ActionKind::CreateFor,
            ),
            Err(_) => true,
        },
{
    lemma_language_builds_one_tree(start, source, position, symbols, limit);
    lemma_language_parse_ends(start, source, position, symbols, limit);
}

} // verus!
