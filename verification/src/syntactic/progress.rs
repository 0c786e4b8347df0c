//! With the grammar of the language the parser ends: every step uses up what its stack
//! and the tokens left can pay for, so that a limit of steps in proportion to the source
//! is never reached.

use vstd::prelude::*;
use crate::lexer::laws::lemma_scan_goes_on;
use crate::lexer::scan::scan_token;
use crate::lexer::symbols::recorded;
use crate::lexer::token::{TokenType, TokenView};
use crate::syntactic::grammar::{
    bloco_rule, cmd_atrib_rule, cmd_do_rule, cmd_for_rule, cmd_if_prime_rule, cmd_if_rule,
    cmd_ou_bloco_rule, cmd_while_rule, comando_rule, comandos_rule, cond_rule, decl_rule,
    decls_rule, e_prime_rule, e_rule, f_prime_rule, f_rule, grammar, grammar_rule,
    lemma_non_terminal_names, lista_ids_prime_rule, lista_ids_rule, nt, op_rel_rule,
    programa_rule, t_prime_rule, t_rule, tipo_rule, u_rule,
};
use crate::syntactic::machine::{
    InternalError, Machine, Outcome, ParseErrorView, initial_stack,
    lemma_pushed_first_on_top, lemma_pushed_nothing, parse_from, pushed, run, step,
};
use crate::syntactic::symbol::SymbolView;

verus! {

/// The steps that one token of the source pays for: the parser takes no more than this
/// many steps between two tokens that it matches.
pub open spec fn token_credit() -> int {
    14
}

/// Whether the non-terminal `name` of the language can derive the empty word.
pub open spec fn is_nullable(name: Seq<char>) -> bool {

    name == "E'"@
    || name == "T'"@
    || name == "F'"@
    || name == "decls"@
    || name == "lista_ids'"@
    || name == "comandos"@
    || name == "cmd_if'"@
}

/// A bound on the steps that the parser takes on the non-terminal `name` of the language,
/// from its expansion to the first token that it matches: the productions are ranked so
/// that every non-terminal stands above the one that its production begins with.
pub open spec fn rank(name: Seq<char>) -> int {
    if name == "inicio"@ {
        4
    } else if name == "tipo"@ {
        2
    } else if name == "bloco"@ {
        7
    } else if name == "decls"@ {
        8
    } else if name == "decl"@ {
        4
    } else if name == "lista_ids"@ {
        5
    } else if name == "lista_ids'"@ {
        5
    } else if name == "comandos"@ {
        12
    } else if name == "comando"@ {
        8
    } else if name == "cmd_atrib"@ {
        3
    } else if name == "cmd_if"@ {
        4
    } else if name == "cmd_if'"@ {
        5
    } else if name == "cond"@ {
        14
    } else if name == "op_rel"@ {
        2
    } else if name == "cmd_ou_bloco"@ {
        9
    } else if name == "cmd_while"@ {
        3
    } else if name == "cmd_do"@ {
        3
    } else if name == "cmd_for"@ {
        3
    } else if name == "E"@ {
        12
    } else if name == "E'"@ {
        5
    } else if name == "T"@ {
        9
    } else if name == "T'"@ {
        5
    } else if name == "F"@ {
        6
    } else if name == "F'"@ {
        5
    } else if name == "U"@ {
        3
    } else {
        1
    }
}

/// Whether the production that the language has for `name` and `lookahead` matches the
/// lookahead: it begins with a terminal or with a non-terminal.
pub open spec fn consumes(name: Seq<char>, lookahead: TokenType) -> bool {
    match grammar_rule(name, lookahead) {
        Some(production) => production.len() > 0 && (production[0] is Terminal
            || production[0] is NonTerminal),
        None => false,
    }
}

/// The steps that are owed for a symbol below the top of the stack.
pub open spec fn rest_weight(symbol: SymbolView) -> int {
    match symbol {
        SymbolView::Terminal(category) => if category == TokenType::Eof {
            1
        } else {
            0
        },
        SymbolView::NonTerminal(name) => if is_nullable(name) {
            2
        } else {
            0
        },
        _ => 1,
    }
}

/// The steps that are owed for the symbol on top of the stack when a token of the
/// category `lookahead` comes next. A symbol that matches a token owes less than nothing:
/// the token pays for it.
pub open spec fn top_weight(symbol: SymbolView, lookahead: TokenType) -> int {
    match symbol {
        SymbolView::Terminal(category) => if category == TokenType::Eof {
            1
        } else {
            1 - token_credit()
        },
        SymbolView::NonTerminal(name) => if consumes(name, lookahead) {
            rank(name) - token_credit()
        } else {
            rest_weight(symbol)
        },
        _ => 1,
    }
}

/// The steps that are owed for the symbols of `stack`, none of them on top.
pub open spec fn below_weight(stack: Seq<SymbolView>) -> int
    decreases stack.len(),
{
    if stack.len() == 0 {
        0
    } else {
        below_weight(stack.drop_last()) + rest_weight(stack.last())
    }
}

/// The steps that are owed for the symbols of `stack`, the last of them on top.
pub open spec fn stack_weight(stack: Seq<SymbolView>, lookahead: TokenType) -> int {
    if stack.len() == 0 {
        0
    } else {
        below_weight(stack.drop_last()) + top_weight(stack.last(), lookahead)
    }
}

/// The steps that are owed for the symbols of `production` from index `from` on, once
/// they are pushed and none of them is on top.
pub open spec fn tail_weight(production: Seq<SymbolView>, from: int) -> int
    decreases production.len() - from,
{
    if from < 0 || from >= production.len() {
        0
    } else if production[from] is Epsilon {
        tail_weight(production, from + 1)
    } else {
        rest_weight(production[from]) + tail_weight(production, from + 1)
    }
}

/// The steps that are owed for the symbols of `production` from index `from` on, once
/// they are pushed on top of the stack.
pub open spec fn body_weight(production: Seq<SymbolView>, from: int, lookahead: TokenType) -> int
    decreases production.len() - from,
{
    if from < 0 || from >= production.len() {
        0
    } else if production[from] is Epsilon {
        body_weight(production, from + 1, lookahead)
    } else {
        top_weight(production[from], lookahead) + tail_weight(production, from + 1)
    }
}

/// The tokens that are left to match: the lookahead, unless it is the end of input, and
/// no more tokens than there are characters behind it.
pub open spec fn tokens_left(source: Seq<char>, m: Machine) -> int {
    source.len() - m.position + if m.lookahead is Eof {
        0int
    } else {
        1int
    }
}

/// The steps that the parser may still take from the state `m` on.
pub open spec fn steps_left(source: Seq<char>, m: Machine) -> int {
    stack_weight(m.stack, m.lookahead.category()) + token_credit() * tokens_left(source, m)
        + token_credit()
}

/// Whether `production`, where the language has it for the non-terminal `name` and
/// `lookahead`, owes less than that non-terminal.
pub open spec fn pays(
    production: Option<Seq<SymbolView>>,
    name: &str,
    lookahead: TokenType,
) -> bool {
    production is Some ==> body_weight(production->0, 0, lookahead) + 1 <= top_weight(
        nt(name),
        lookahead,
    )
}

/// Whether the parse gave up for the number of its steps.
pub open spec fn ran_out(outcome: Outcome) -> bool {
    match outcome.result {
        Err(ParseErrorView::Internal { fault: InternalError::StepLimit, .. }) => true,
        _ => false,
    }
}

/// The ranks and the nullable ones among the non-terminals of the language.
proof fn lemma_ranks()
    ensures

        rank("inicio"@) == 4 && is_nullable("inicio"@) == false,
        rank("tipo"@) == 2 && is_nullable("tipo"@) == false,
        rank("bloco"@) == 7 && is_nullable("bloco"@) == false,
        rank("decls"@) == 8 && is_nullable("decls"@) == true,
        rank("decl"@) == 4 && is_nullable("decl"@) == false,
        rank("lista_ids"@) == 5 && is_nullable("lista_ids"@) == false,
        rank("lista_ids'"@) == 5 && is_nullable("lista_ids'"@) == true,
        rank("comandos"@) == 12 && is_nullable("comandos"@) == true,
        rank("comando"@) == 8 && is_nullable("comando"@) == false,
        rank("cmd_atrib"@) == 3 && is_nullable("cmd_atrib"@) == false,
        rank("cmd_if"@) == 4 && is_nullable("cmd_if"@) == false,
        rank("cmd_if'"@) == 5 && is_nullable("cmd_if'"@) == true,
        rank("cond"@) == 14 && is_nullable("cond"@) == false,
        rank("op_rel"@) == 2 && is_nullable("op_rel"@) == false,
        rank("cmd_ou_bloco"@) == 9 && is_nullable("cmd_ou_bloco"@) == false,
        rank("cmd_while"@) == 3 && is_nullable("cmd_while"@) == false,
        rank("cmd_do"@) == 3 && is_nullable("cmd_do"@) == false,
        rank("cmd_for"@) == 3 && is_nullable("cmd_for"@) == false,
        rank("E"@) == 12 && is_nullable("E"@) == false,
        rank("E'"@) == 5 && is_nullable("E'"@) == true,
        rank("T"@) == 9 && is_nullable("T"@) == false,
        rank("T'"@) == 5 && is_nullable("T'"@) == true,
        rank("F"@) == 6 && is_nullable("F"@) == false,
        rank("F'"@) == 5 && is_nullable("F'"@) == true,
        rank("U"@) == 3 && is_nullable("U"@) == false,
{
    lemma_non_terminal_names();
}

/// The rule of each non-terminal of the language.
proof fn lemma_rules(lookahead: TokenType)
    ensures

        grammar_rule("inicio"@, lookahead) == programa_rule(lookahead),
        grammar_rule("tipo"@, lookahead) == tipo_rule(lookahead),
        grammar_rule("bloco"@, lookahead) == bloco_rule(lookahead),
        grammar_rule("decls"@, lookahead) == decls_rule(lookahead),
        grammar_rule("decl"@, lookahead) == decl_rule(lookahead),
        grammar_rule("lista_ids"@, lookahead) == lista_ids_rule(lookahead),
        grammar_rule("lista_ids'"@, lookahead) == lista_ids_prime_rule(lookahead),
        grammar_rule("comandos"@, lookahead) == comandos_rule(lookahead),
        grammar_rule("comando"@, lookahead) == comando_rule(lookahead),
        grammar_rule("cmd_atrib"@, lookahead) == cmd_atrib_rule(lookahead),
        grammar_rule("cmd_if"@, lookahead) == cmd_if_rule(lookahead),
        grammar_rule("cmd_if'"@, lookahead) == cmd_if_prime_rule(lookahead),
        grammar_rule("cond"@, lookahead) == cond_rule(lookahead),
        grammar_rule("op_rel"@, lookahead) == op_rel_rule(lookahead),
        grammar_rule("cmd_ou_bloco"@, lookahead) == cmd_ou_bloco_rule(lookahead),
        grammar_rule("cmd_while"@, lookahead) == cmd_while_rule(lookahead),
        grammar_rule("cmd_do"@, lookahead) == cmd_do_rule(lookahead),
        grammar_rule("cmd_for"@, lookahead) == cmd_for_rule(lookahead),
        grammar_rule("E"@, lookahead) == e_rule(lookahead),
        grammar_rule("E'"@, lookahead) == e_prime_rule(lookahead),
        grammar_rule("T"@, lookahead) == t_rule(lookahead),
        grammar_rule("T'"@, lookahead) == t_prime_rule(lookahead),
        grammar_rule("F"@, lookahead) == f_rule(lookahead),
        grammar_rule("F'"@, lookahead) == f_prime_rule(lookahead),
        grammar_rule("U"@, lookahead) == u_rule(lookahead),
{
    lemma_non_terminal_names();
}

/// What a symbol owes on top of the stack it owes below the top too, and a token pays
/// for no more than its credit.
proof fn lemma_weight_bounds(symbol: SymbolView, lookahead: TokenType)
    ensures
        1 - token_credit() <= top_weight(symbol, lookahead) <= rest_weight(symbol),
        0 <= rest_weight(symbol) <= 2,
{
    lemma_non_terminal_names();
}

/// Below the top, every symbol owes something between nothing and two steps.
proof fn lemma_below_weight_bounds(stack: Seq<SymbolView>)
    ensures
        0 <= below_weight(stack) <= 2 * stack.len(),
    decreases stack.len(),
{
    if stack.len() > 0 {
        lemma_below_weight_bounds(stack.drop_last());
        lemma_weight_bounds(stack.last(), TokenType::Eof);
    }
}

/// A stack owes no more with its last symbol on top than with that symbol below the top,
/// and a token pays for no more than its credit.
proof fn lemma_stack_weight_bounds(stack: Seq<SymbolView>, lookahead: TokenType)
    ensures
        stack_weight(stack, lookahead) <= below_weight(stack),
        stack.len() > 0 ==> 1 - token_credit() <= stack_weight(stack, lookahead),
{
    if stack.len() > 0 {
        lemma_below_weight_bounds(stack.drop_last());
        lemma_weight_bounds(stack.last(), lookahead);
    }
}

/// What two stacks owe, one on top of the other, is the sum of what each owes.
proof fn lemma_below_weight_of_both(below: Seq<SymbolView>, above: Seq<SymbolView>)
    ensures
        below_weight(below + above) == below_weight(below) + below_weight(above),
    decreases above.len(),
{
    if above.len() == 0 {
        assert(below + above =~= below);
    } else {
        lemma_below_weight_of_both(below, above.drop_last());
        assert((below + above).drop_last() =~= below + above.drop_last());
    }
}

/// A stack put on top of another owes no more than it owes alone, and the other below
/// the top.
proof fn lemma_stack_weight_of_both(
    below: Seq<SymbolView>,
    above: Seq<SymbolView>,
    lookahead: TokenType,
)
    ensures
        stack_weight(below + above, lookahead) <= below_weight(below) + stack_weight(
            above,
            lookahead,
        ),
{
    if above.len() == 0 {
        assert(below + above =~= below);
        lemma_stack_weight_bounds(below, lookahead);
    } else {
        lemma_below_weight_of_both(below, above.drop_last());
        assert((below + above).drop_last() =~= below + above.drop_last());
    }
}

/// What is owed for a production that was pushed.
proof fn lemma_pushed_weights(production: Seq<SymbolView>, from: int, lookahead: TokenType)
    requires
        0 <= from <= production.len(),
    ensures
        below_weight(pushed(production.subrange(from, production.len() as int))) == tail_weight(
            production,
            from,
        ),
        stack_weight(pushed(production.subrange(from, production.len() as int)), lookahead)
            == body_weight(production, from, lookahead),
    decreases production.len() - from,
{
    let rest = production.subrange(from, production.len() as int);
    if from == production.len() {
        lemma_pushed_nothing(rest);
    } else {
        lemma_pushed_first_on_top(rest);
        lemma_pushed_weights(production, from + 1, lookahead);
        let others = production.subrange(from + 1, production.len() as int);
        assert(rest.drop_first() =~= others);
        assert(rest[0] == production[from]);
        if !(production[from] is Epsilon) {
            assert(pushed(others).push(production[from]).drop_last() =~= pushed(others));
        }
    }
}


/// The productions of `programa_rule` owe less than the non-terminal that they expand.
proof fn lemma_programa_pays(lookahead: TokenType)
    ensures
        pays(programa_rule(lookahead), "inicio", lookahead),
{
    reveal_with_fuel(tail_weight, 13);
    reveal_with_fuel(body_weight, 3);
    lemma_ranks();
    lemma_rules(lookahead);
}


/// The productions of `tipo_rule` owe less than the non-terminal that they expand.
proof fn lemma_tipo_pays(lookahead: TokenType)
    ensures
        pays(tipo_rule(lookahead), "tipo", lookahead),
{
    reveal_with_fuel(tail_weight, 13);
    reveal_with_fuel(body_weight, 3);
    lemma_ranks();
    lemma_rules(lookahead);
}


/// The productions of `bloco_rule` owe less than the non-terminal that they expand.
proof fn lemma_bloco_pays(lookahead: TokenType)
    ensures
        pays(bloco_rule(lookahead), "bloco", lookahead),
{
    reveal_with_fuel(tail_weight, 13);
    reveal_with_fuel(body_weight, 3);
    lemma_ranks();
    lemma_rules(lookahead);
}


/// The productions of `decls_rule` owe less than the non-terminal that they expand.
proof fn lemma_decls_pays(lookahead: TokenType)
    ensures
        pays(decls_rule(lookahead), "decls", lookahead),
{
    reveal_with_fuel(tail_weight, 13);
    reveal_with_fuel(body_weight, 3);
    lemma_ranks();
    lemma_rules(lookahead);
}


/// The productions of `decl_rule` owe less than the non-terminal that they expand.
proof fn lemma_decl_pays(lookahead: TokenType)
    ensures
        pays(decl_rule(lookahead), "decl", lookahead),
{
    reveal_with_fuel(tail_weight, 13);
    reveal_with_fuel(body_weight, 3);
    lemma_ranks();
    lemma_rules(lookahead);
}


/// The productions of `lista_ids_rule` owe less than the non-terminal that they expand.
proof fn lemma_lista_ids_pays(lookahead: TokenType)
    ensures
        pays(lista_ids_rule(lookahead), "lista_ids", lookahead),
{
    reveal_with_fuel(tail_weight, 13);
    reveal_with_fuel(body_weight, 3);
    lemma_ranks();
    lemma_rules(lookahead);
}


/// The productions of `lista_ids_prime_rule` owe less than the non-terminal that they expand.
proof fn lemma_lista_ids_prime_pays(lookahead: TokenType)
    ensures
        pays(lista_ids_prime_rule(lookahead), "lista_ids'", lookahead),
{
    reveal_with_fuel(tail_weight, 13);
    reveal_with_fuel(body_weight, 3);
    lemma_ranks();
    lemma_rules(lookahead);
}


/// The productions of `comandos_rule` owe less than the non-terminal that they expand.
proof fn lemma_comandos_pays(lookahead: TokenType)
    ensures
        pays(comandos_rule(lookahead), "comandos", lookahead),
{
    reveal_with_fuel(tail_weight, 13);
    reveal_with_fuel(body_weight, 3);
    lemma_ranks();
    lemma_rules(lookahead);
}


/// The productions of `comando_rule` owe less than the non-terminal that they expand.
proof fn lemma_comando_pays(lookahead: TokenType)
    ensures
        pays(comando_rule(lookahead), "comando", lookahead),
{
    reveal_with_fuel(tail_weight, 13);
    reveal_with_fuel(body_weight, 3);
    lemma_ranks();
    lemma_rules(lookahead);
}


/// The productions of `cmd_atrib_rule` owe less than the non-terminal that they expand.
proof fn lemma_cmd_atrib_pays(lookahead: TokenType)
    ensures
        pays(cmd_atrib_rule(lookahead), "cmd_atrib", lookahead),
{
    reveal_with_fuel(tail_weight, 13);
    reveal_with_fuel(body_weight, 3);
    lemma_ranks();
    lemma_rules(lookahead);
}


/// The productions of `cmd_if_rule` owe less than the non-terminal that they expand.
proof fn lemma_cmd_if_pays(lookahead: TokenType)
    ensures
        pays(cmd_if_rule(lookahead), "cmd_if", lookahead),
{
    reveal_with_fuel(tail_weight, 13);
    reveal_with_fuel(body_weight, 3);
    lemma_ranks();
    lemma_rules(lookahead);
}


/// The productions of `cmd_if_prime_rule` owe less than the non-terminal that they expand.
proof fn lemma_cmd_if_prime_pays(lookahead: TokenType)
    ensures
        pays(cmd_if_prime_rule(lookahead), "cmd_if'", lookahead),
{
    reveal_with_fuel(tail_weight, 13);
    reveal_with_fuel(body_weight, 3);
    lemma_ranks();
    lemma_rules(lookahead);
}


/// The productions of `cond_rule` owe less than the non-terminal that they expand.
proof fn lemma_cond_pays(lookahead: TokenType)
    ensures
        pays(cond_rule(lookahead), "cond", lookahead),
{
    reveal_with_fuel(tail_weight, 13);
    reveal_with_fuel(body_weight, 3);
    lemma_ranks();
    lemma_rules(lookahead);
}


/// The productions of `op_rel_rule` owe less than the non-terminal that they expand.
proof fn lemma_op_rel_pays(lookahead: TokenType)
    ensures
        pays(op_rel_rule(lookahead), "op_rel", lookahead),
{
    reveal_with_fuel(tail_weight, 13);
    reveal_with_fuel(body_weight, 3);
    lemma_ranks();
    lemma_rules(lookahead);
}


/// The productions of `cmd_ou_bloco_rule` owe less than the non-terminal that they expand.
proof fn lemma_cmd_ou_bloco_pays(lookahead: TokenType)
    ensures
        pays(cmd_ou_bloco_rule(lookahead), "cmd_ou_bloco", lookahead),
{
    reveal_with_fuel(tail_weight, 13);
    reveal_with_fuel(body_weight, 3);
    lemma_ranks();
    lemma_rules(lookahead);
}


/// The productions of `cmd_while_rule` owe less than the non-terminal that they expand.
proof fn lemma_cmd_while_pays(lookahead: TokenType)
    ensures
        pays(cmd_while_rule(lookahead), "cmd_while", lookahead),
{
    reveal_with_fuel(tail_weight, 13);
    reveal_with_fuel(body_weight, 3);
    lemma_ranks();
    lemma_rules(lookahead);
}


/// The productions of `cmd_do_rule` owe less than the non-terminal that they expand.
proof fn lemma_cmd_do_pays(lookahead: TokenType)
    ensures
        pays(cmd_do_rule(lookahead), "cmd_do", lookahead),
{
    reveal_with_fuel(tail_weight, 13);
    reveal_with_fuel(body_weight, 3);
    lemma_ranks();
    lemma_rules(lookahead);
}


/// The productions of `cmd_for_rule` owe less than the non-terminal that they expand.
proof fn lemma_cmd_for_pays(lookahead: TokenType)
    ensures
        pays(cmd_for_rule(lookahead), "cmd_for", lookahead),
{
    reveal_with_fuel(tail_weight, 13);
    reveal_with_fuel(body_weight, 3);
    lemma_ranks();
    lemma_rules(lookahead);
}


/// The productions of `e_rule` owe less than the non-terminal that they expand.
proof fn lemma_e_pays(lookahead: TokenType)
    ensures
        pays(e_rule(lookahead), "E", lookahead),
{
    reveal_with_fuel(tail_weight, 13);
    reveal_with_fuel(body_weight, 3);
    lemma_ranks();
    lemma_rules(lookahead);
}


/// The productions of `e_prime_rule` owe less than the non-terminal that they expand.
proof fn lemma_e_prime_pays(lookahead: TokenType)
    ensures
        pays(e_prime_rule(lookahead), "E'", lookahead),
{
    reveal_with_fuel(tail_weight, 13);
    reveal_with_fuel(body_weight, 3);
    lemma_ranks();
    lemma_rules(lookahead);
}


/// The productions of `t_rule` owe less than the non-terminal that they expand.
proof fn lemma_t_pays(lookahead: TokenType)
    ensures
        pays(t_rule(lookahead), "T", lookahead),
{
    reveal_with_fuel(tail_weight, 13);
    reveal_with_fuel(body_weight, 3);
    lemma_ranks();
    lemma_rules(lookahead);
}


/// The productions of `t_prime_rule` owe less than the non-terminal that they expand.
proof fn lemma_t_prime_pays(lookahead: TokenType)
    ensures
        pays(t_prime_rule(lookahead), "T'", lookahead),
{
    reveal_with_fuel(tail_weight, 13);
    reveal_with_fuel(body_weight, 3);
    lemma_ranks();
    lemma_rules(lookahead);
}


/// The productions of `f_rule` owe less than the non-terminal that they expand.
proof fn lemma_f_pays(lookahead: TokenType)
    ensures
        pays(f_rule(lookahead), "F", lookahead),
{
    reveal_with_fuel(tail_weight, 13);
    reveal_with_fuel(body_weight, 3);
    lemma_ranks();
    lemma_rules(lookahead);
}


/// The productions of `f_prime_rule` owe less than the non-terminal that they expand.
proof fn lemma_f_prime_pays(lookahead: TokenType)
    ensures
        pays(f_prime_rule(lookahead), "F'", lookahead),
{
    reveal_with_fuel(tail_weight, 13);
    reveal_with_fuel(body_weight, 3);
    lemma_ranks();
    lemma_rules(lookahead);
}


/// The productions of `u_rule` owe less than the non-terminal that they expand.
proof fn lemma_u_pays(lookahead: TokenType)
    ensures
        pays(u_rule(lookahead), "U", lookahead),
{
    reveal_with_fuel(tail_weight, 13);
    reveal_with_fuel(body_weight, 3);
    lemma_ranks();
    lemma_rules(lookahead);
}


/// Every production of the language owes less than the non-terminal that it expands.
proof fn lemma_production_pays(name: Seq<char>, lookahead: TokenType)
    ensures
        grammar_rule(name, lookahead) is Some ==> body_weight(
            grammar_rule(name, lookahead)->0,
            0,
            lookahead,
        ) + 1 <= top_weight(SymbolView::NonTerminal(name), lookahead),
{
    lemma_programa_pays(lookahead);
    lemma_tipo_pays(lookahead);
    lemma_bloco_pays(lookahead);
    lemma_decls_pays(lookahead);
    lemma_decl_pays(lookahead);
    lemma_lista_ids_pays(lookahead);
    lemma_lista_ids_prime_pays(lookahead);
    lemma_comandos_pays(lookahead);
    lemma_comando_pays(lookahead);
    lemma_cmd_atrib_pays(lookahead);
    lemma_cmd_if_pays(lookahead);
    lemma_cmd_if_prime_pays(lookahead);
    lemma_cond_pays(lookahead);
    lemma_op_rel_pays(lookahead);
    lemma_cmd_ou_bloco_pays(lookahead);
    lemma_cmd_while_pays(lookahead);
    lemma_cmd_do_pays(lookahead);
    lemma_cmd_for_pays(lookahead);
    lemma_e_pays(lookahead);
    lemma_e_prime_pays(lookahead);
    lemma_t_pays(lookahead);
    lemma_t_prime_pays(lookahead);
    lemma_f_pays(lookahead);
    lemma_f_prime_pays(lookahead);
    lemma_u_pays(lookahead);
}

/// With the grammar of the language, every step that succeeds leaves fewer steps to take.
pub proof fn lemma_step_pays(source: Seq<char>, m: Machine)
    requires
        m.stack.len() > 0,
        0 <= m.position <= source.len(),
        step(grammar(), source, m).error is None,
    ensures
        steps_left(source, step(grammar(), source, m).machine) < steps_left(source, m),
        0 <= step(grammar(), source, m).machine.position <= source.len(),
{
    let next = step(grammar(), source, m).machine;
    let rest = m.stack.drop_last();
    let lookahead = m.lookahead.category();
    lemma_stack_weight_bounds(rest, next.lookahead.category());
    match m.stack.last() {
        SymbolView::Terminal(_) => {
            lemma_scan_goes_on(source, m.position);
        },
        SymbolView::NonTerminal(name) => {
            let production = grammar_rule(name, lookahead)->0;
            lemma_production_pays(name, lookahead);
            lemma_pushed_weights(production, 0, lookahead);
            assert(production.subrange(0, production.len() as int) =~= production);
            lemma_stack_weight_of_both(rest, pushed(production), lookahead);
        },
        _ => {},
    }
}

/// With the grammar of the language, a parse that has as many steps to take as are left
/// does not run out of steps.
pub proof fn lemma_run_ends(source: Seq<char>, m: Machine, fuel: nat)
    requires
        0 <= m.position <= source.len(),
        steps_left(source, m) <= fuel,
    ensures
        !ran_out(run(grammar(), source, m, fuel)),
    decreases fuel,
{
    if m.stack.len() > 0 {
        lemma_stack_weight_bounds(m.stack, m.lookahead.category());
        let next = step(grammar(), source, m);
        if next.error is None {
            lemma_step_pays(source, m);
            lemma_run_ends(source, next.machine, (fuel - 1) as nat);
        }
    }
}

/// With the grammar of the language, whatever the start symbol and the source: a parse
/// that may take fourteen steps for every character of the source, and thirty-one more,
/// does not give up for the number of its steps.
pub proof fn lemma_language_parse_ends(
    start: Seq<char>,
    source: Seq<char>,
    position: int,
    symbols: Map<Seq<char>, TokenView>,
    limit: nat,
)
    requires
        0 <= position <= source.len(),
        token_credit() * source.len() + 31 <= limit,
    ensures
        !ran_out(parse_from(grammar(), start, source, position, symbols, limit)),
{
    lemma_scan_goes_on(source, position);
    let scan = scan_token(source, position);
    if let Ok(token) = scan.found {
        let m = Machine {
            stack: initial_stack(start),
            nodes: Seq::empty(),
            lookahead: token,
            position: scan.end,
            symbols: recorded(symbols, token),
        };
        let stack = initial_stack(start);
        assert(stack.len() == 2 && stack[0] == SymbolView::End && stack[1]
            == SymbolView::NonTerminal(start));
        lemma_weight_bounds(stack[1], token.category());
        assert(stack.drop_last().drop_last() =~= Seq::<SymbolView>::empty());
        reveal_with_fuel(below_weight, 3);
        lemma_run_ends(source, m, limit);
    }
}

} // verus!
