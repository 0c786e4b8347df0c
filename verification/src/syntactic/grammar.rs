//! The grammar of the language, and the parse table built from it.

use vstd::prelude::*;
use crate::lexer::token::{OperatorKind, TokenType};
use crate::syntactic::parse_table::ParseTable;
use crate::syntactic::symbol::{ActionKind, Symbol, SymbolView, symbol_views};

verus! {

/// The non-terminal called `name`.
pub open spec fn nt(name: &str) -> SymbolView {
    SymbolView::NonTerminal(name@)
}

/// The terminal that stands for a token of the category `terminal`.
pub open spec fn tk(terminal: TokenType) -> SymbolView {
    SymbolView::Terminal(terminal)
}

/// The marker of the semantic action `kind`.
pub open spec fn act(kind: ActionKind) -> SymbolView {
    SymbolView::Action(kind)
}

/// E -> T E'
pub open spec fn e_rule(lookahead: TokenType) -> Option<Seq<SymbolView>> {
    match lookahead {
        TokenType::Id
        | TokenType::Number
        | TokenType::CharValue
        | TokenType::LParenOperator
        | TokenType::MinusOperator => Some(
            seq![nt("T"), nt("E'")],
        ),
        _ => None,
    }
}

/// E' -> + T E' | - T E' | ε; the action stands behind the right operand
pub open spec fn e_prime_rule(lookahead: TokenType) -> Option<Seq<SymbolView>> {
    match lookahead {
        TokenType::PlusOperator => Some(
            seq![
                tk(TokenType::PlusOperator),
                nt("T"),
                act(ActionKind::Math(OperatorKind::Sum)),
                nt("E'"),
            ],
        ),
        TokenType::MinusOperator => Some(
            seq![
                tk(TokenType::MinusOperator),
                nt("T"),
                act(ActionKind::Math(OperatorKind::Sub)),
                nt("E'"),
            ],
        ),
        TokenType::RParenOperator
        | TokenType::SemiColonPunctuation
        | TokenType::GTOperator
        | TokenType::LTOperator
        | TokenType::GEOperator
        | TokenType::LEOperator
        | TokenType::NEOperator
        | TokenType::EQOperator
        | TokenType::Eof => Some(
            seq![SymbolView::Epsilon],
        ),
        _ => None,
    }
}

/// T -> F T'
pub open spec fn t_rule(lookahead: TokenType) -> Option<Seq<SymbolView>> {
    match lookahead {
        TokenType::Id
        | TokenType::Number
        | TokenType::CharValue
        | TokenType::LParenOperator
        | TokenType::MinusOperator => Some(
            seq![nt("F"), nt("T'")],
        ),
        _ => None,
    }
}

/// T' -> * F T' | / F T' | ε
pub open spec fn t_prime_rule(lookahead: TokenType) -> Option<Seq<SymbolView>> {
    match lookahead {
        TokenType::MultOperator => Some(
            seq![
                tk(TokenType::MultOperator),
                nt("F"),
                act(ActionKind::Math(OperatorKind::Mult)),
                nt("T'"),
            ],
        ),
        TokenType::DivOperator => Some(
            seq![
                tk(TokenType::DivOperator),
                nt("F"),
                act(ActionKind::Math(OperatorKind::Div)),
                nt("T'"),
            ],
        ),
        TokenType::PlusOperator
        | TokenType::MinusOperator
        | TokenType::RParenOperator
        | TokenType::SemiColonPunctuation
        | TokenType::GTOperator
        | TokenType::LTOperator
        | TokenType::GEOperator
        | TokenType::LEOperator
        | TokenType::NEOperator
        | TokenType::EQOperator
        | TokenType::Eof => Some(
            seq![SymbolView::Epsilon],
        ),
        _ => None,
    }
}

/// F -> U F'
pub open spec fn f_rule(lookahead: TokenType) -> Option<Seq<SymbolView>> {
    match lookahead {
        TokenType::Id
        | TokenType::Number
        | TokenType::CharValue
        | TokenType::LParenOperator
        | TokenType::MinusOperator => Some(
            seq![nt("U"), nt("F'")],
        ),
        _ => None,
    }
}

/// F' -> ** U F' | ε
pub open spec fn f_prime_rule(lookahead: TokenType) -> Option<Seq<SymbolView>> {
    match lookahead {
        TokenType::ExpOperator => Some(
            seq![
                tk(TokenType::ExpOperator),
                nt("U"),
                act(ActionKind::Math(OperatorKind::Exp)),
                nt("F'"),
            ],
        ),
        TokenType::PlusOperator
        | TokenType::MinusOperator
        | TokenType::MultOperator
        | TokenType::DivOperator
        | TokenType::RParenOperator
        | TokenType::SemiColonPunctuation
        | TokenType::GTOperator
        | TokenType::LTOperator
        | TokenType::GEOperator
        | TokenType::LEOperator
        | TokenType::NEOperator
        | TokenType::EQOperator
        | TokenType::Eof => Some(
            seq![SymbolView::Epsilon],
        ),
        _ => None,
    }
}

/// U -> id | num | char | ( E ) | - U
pub open spec fn u_rule(lookahead: TokenType) -> Option<Seq<SymbolView>> {
    match lookahead {
        TokenType::Id => Some(seq![tk(TokenType::Id)]),
        TokenType::Number => Some(seq![tk(TokenType::Number)]),
        TokenType::CharValue => Some(seq![tk(TokenType::CharValue)]),
        TokenType::LParenOperator => Some(
            seq![tk(TokenType::LParenOperator), nt("E"), tk(TokenType::RParenOperator)],
        ),
        TokenType::MinusOperator => Some(
            seq![tk(TokenType::MinusOperator), nt("U"), act(ActionKind::CreateUnaryOp)],
        ),
        _ => None,
    }
}

/// inicio -> tipo main ( ) bloco
pub open spec fn programa_rule(lookahead: TokenType) -> Option<Seq<SymbolView>> {
    match lookahead {
        TokenType::CharKeyword
        | TokenType::IntKeyword
        | TokenType::FloatKeyword
        | TokenType::VoidKeyword => Some(
            seq![
                nt("tipo"),
                tk(TokenType::MainKeyword),
                tk(TokenType::LParenOperator),
                tk(TokenType::RParenOperator),
                nt("bloco"),
                act(ActionKind::CreateProgram),
            ],
        ),
        _ => None,
    }
}

/// tipo -> float | int | char | void
pub open spec fn tipo_rule(lookahead: TokenType) -> Option<Seq<SymbolView>> {
    match lookahead {
        TokenType::FloatKeyword => Some(seq![tk(TokenType::FloatKeyword)]),
        TokenType::IntKeyword => Some(seq![tk(TokenType::IntKeyword)]),
        TokenType::CharKeyword => Some(seq![tk(TokenType::CharKeyword)]),
        TokenType::VoidKeyword => Some(seq![tk(TokenType::VoidKeyword)]),
        _ => None,
    }
}

/// bloco -> [ decls comandos ]
pub open spec fn bloco_rule(lookahead: TokenType) -> Option<Seq<SymbolView>> {
    match lookahead {
        TokenType::BeginBlockPunctuation => Some(
            seq![
                tk(TokenType::BeginBlockPunctuation),
                nt("decls"),
                nt("comandos"),
                tk(TokenType::EndBlockPunctuation),
                act(ActionKind::CreateBlock),
            ],
        ),
        _ => None,
    }
}

/// decls -> decl decls | ε
pub open spec fn decls_rule(lookahead: TokenType) -> Option<Seq<SymbolView>> {
    match lookahead {
        TokenType::CharKeyword
        | TokenType::IntKeyword
        | TokenType::FloatKeyword
        | TokenType::VoidKeyword => Some(
            seq![nt("decl"), nt("decls"), act(ActionKind::AppendList)],
        ),
        TokenType::Id
        | TokenType::IfKeyword
        | TokenType::WhileKeyword
        | TokenType::DoKeyword
        | TokenType::ForKeyword
        | TokenType::BeginBlockPunctuation
        | TokenType::EndBlockPunctuation
        | TokenType::Eof => Some(
            seq![SymbolView::Epsilon, act(ActionKind::MakeList)],
        ),
        _ => None,
    }
}

/// decl -> tipo lista_ids ;
pub open spec fn decl_rule(lookahead: TokenType) -> Option<Seq<SymbolView>> {
    match lookahead {
        TokenType::CharKeyword
        | TokenType::IntKeyword
        | TokenType::FloatKeyword
        | TokenType::VoidKeyword => Some(
            seq![
                nt("tipo"),
                nt("lista_ids"),
                tk(TokenType::SemiColonPunctuation),
                act(ActionKind::CreateDecl),
            ],
        ),
        _ => None,
    }
}

/// lista_ids -> id lista_ids'
pub open spec fn lista_ids_rule(lookahead: TokenType) -> Option<Seq<SymbolView>> {
    match lookahead {
        TokenType::Id => Some(
            seq![tk(TokenType::Id), nt("lista_ids'"), act(ActionKind::AppendList)],
        ),
        _ => None,
    }
}

/// lista_ids' -> , id lista_ids' | ε
pub open spec fn lista_ids_prime_rule(lookahead: TokenType) -> Option<Seq<SymbolView>> {
    match lookahead {
        TokenType::CommaPunctuation => Some(
            seq![
                tk(TokenType::CommaPunctuation),
                tk(TokenType::Id),
                nt("lista_ids'"),
                act(ActionKind::AppendList),
            ],
        ),
        TokenType::SemiColonPunctuation | TokenType::Eof => Some(
            seq![SymbolView::Epsilon, act(ActionKind::MakeList)],
        ),
        _ => None,
    }
}

/// comandos -> comando comandos | ε
pub open spec fn comandos_rule(lookahead: TokenType) -> Option<Seq<SymbolView>> {
    match lookahead {
        TokenType::Id
        | TokenType::IfKeyword
        | TokenType::WhileKeyword
        | TokenType::DoKeyword
        | TokenType::ForKeyword
        | TokenType::BeginBlockPunctuation => Some(
            seq![nt("comando"), nt("comandos"), act(ActionKind::AppendList)],
        ),
        TokenType::EndBlockPunctuation | TokenType::Eof => Some(
            seq![SymbolView::Epsilon, act(ActionKind::MakeList)],
        ),
        _ => None,
    }
}

/// comando -> cmd_atrib | cmd_if | cmd_while | cmd_do | cmd_for | bloco
pub open spec fn comando_rule(lookahead: TokenType) -> Option<Seq<SymbolView>> {
    match lookahead {
        TokenType::Id => Some(seq![nt("cmd_atrib")]),
        TokenType::IfKeyword => Some(seq![nt("cmd_if")]),
        TokenType::WhileKeyword => Some(seq![nt("cmd_while")]),
        TokenType::DoKeyword => Some(seq![nt("cmd_do")]),
        TokenType::ForKeyword => Some(seq![nt("cmd_for")]),
        TokenType::BeginBlockPunctuation => Some(seq![nt("bloco")]),
        _ => None,
    }
}

/// cmd_atrib -> id := E ;
pub open spec fn cmd_atrib_rule(lookahead: TokenType) -> Option<Seq<SymbolView>> {
    match lookahead {
        TokenType::Id => Some(
            seq![
                tk(TokenType::Id),
                tk(TokenType::AssignPunctuation),
                nt("E"),
                tk(TokenType::SemiColonPunctuation),
                act(ActionKind::Assign),
            ],
        ),
        _ => None,
    }
}

/// cmd_if -> if ( cond ) then cmd_ou_bloco cmd_if'
pub open spec fn cmd_if_rule(lookahead: TokenType) -> Option<Seq<SymbolView>> {
    match lookahead {
        TokenType::IfKeyword => Some(
            seq![
                tk(TokenType::IfKeyword),
                tk(TokenType::LParenOperator),
                nt("cond"),
                tk(TokenType::RParenOperator),
                tk(TokenType::ThenKeyword),
                nt("cmd_ou_bloco"),
                nt("cmd_if'"),
            ],
        ),
        _ => None,
    }
}

/// cond -> E op_rel E
pub open spec fn cond_rule(lookahead: TokenType) -> Option<Seq<SymbolView>> {
    match lookahead {
        TokenType::Id
        | TokenType::Number
        | TokenType::CharValue
        | TokenType::LParenOperator
        | TokenType::MinusOperator => Some(
            seq![nt("E"), nt("op_rel"), nt("E"), act(ActionKind::CreateCond)],
        ),
        _ => None,
    }
}

/// op_rel -> == | != | <= | >= | < | >
pub open spec fn op_rel_rule(lookahead: TokenType) -> Option<Seq<SymbolView>> {
    match lookahead {
        TokenType::EQOperator => Some(seq![tk(TokenType::EQOperator)]),
        TokenType::NEOperator => Some(seq![tk(TokenType::NEOperator)]),
        TokenType::LEOperator => Some(seq![tk(TokenType::LEOperator)]),
        TokenType::GEOperator => Some(seq![tk(TokenType::GEOperator)]),
        TokenType::LTOperator => Some(seq![tk(TokenType::LTOperator)]),
        TokenType::GTOperator => Some(seq![tk(TokenType::GTOperator)]),
        _ => None,
    }
}

/// cmd_ou_bloco -> comando | bloco
pub open spec fn cmd_ou_bloco_rule(lookahead: TokenType) -> Option<Seq<SymbolView>> {
    match lookahead {
        TokenType::Id
        | TokenType::IfKeyword
        | TokenType::WhileKeyword
        | TokenType::DoKeyword
        | TokenType::ForKeyword => Some(
            seq![nt("comando")],
        ),
        TokenType::BeginBlockPunctuation => Some(seq![nt("bloco")]),
        _ => None,
    }
}

/// cmd_if' -> elsif ( cond ) then cmd_ou_bloco cmd_if' | else cmd_ou_bloco | ε
pub open spec fn cmd_if_prime_rule(lookahead: TokenType) -> Option<Seq<SymbolView>> {
    match lookahead {
        TokenType::ElsifKeyword => Some(
            seq![
                tk(TokenType::ElsifKeyword),
                tk(TokenType::LParenOperator),
                nt("cond"),
                tk(TokenType::RParenOperator),
                tk(TokenType::ThenKeyword),
                nt("cmd_ou_bloco"),
                nt("cmd_if'"),
                act(ActionKind::CreateIfElse),
            ],
        ),
        TokenType::ElseKeyword => Some(
            seq![tk(TokenType::ElseKeyword), nt("cmd_ou_bloco"), act(ActionKind::CreateIfElse)],
        ),
        TokenType::Id
        | TokenType::IfKeyword
        | TokenType::WhileKeyword
        | TokenType::DoKeyword
        | TokenType::ForKeyword
        | TokenType::BeginBlockPunctuation
        | TokenType::EndBlockPunctuation
        | TokenType::Eof => Some(
            seq![SymbolView::Epsilon, act(ActionKind::CreateIf)],
        ),
        _ => None,
    }
}

/// cmd_while -> while ( cond ) do cmd_ou_bloco
pub open spec fn cmd_while_rule(lookahead: TokenType) -> Option<Seq<SymbolView>> {
    match lookahead {
        TokenType::WhileKeyword => Some(
            seq![
                tk(TokenType::WhileKeyword),
                tk(TokenType::LParenOperator),
                nt("cond"),
                tk(TokenType::RParenOperator),
                tk(TokenType::DoKeyword),
                nt("cmd_ou_bloco"),
                act(ActionKind::CreateWhile),
            ],
        ),
        _ => None,
    }
}

/// cmd_do -> do cmd_ou_bloco while ( cond ) ;
pub open spec fn cmd_do_rule(lookahead: TokenType) -> Option<Seq<SymbolView>> {
    match lookahead {
        TokenType::DoKeyword => Some(
            seq![
                tk(TokenType::DoKeyword),
                nt("cmd_ou_bloco"),
                tk(TokenType::WhileKeyword),
                tk(TokenType::LParenOperator),
                nt("cond"),
                tk(TokenType::RParenOperator),
                tk(TokenType::SemiColonPunctuation),
                act(ActionKind::CreateDoWhile),
            ],
        ),
        _ => None,
    }
}

/// cmd_for -> for ( id ; num ; num ; E ) cmd_ou_bloco
pub open spec fn cmd_for_rule(lookahead: TokenType) -> Option<Seq<SymbolView>> {
    match lookahead {
        TokenType::ForKeyword => Some(
            seq![
                tk(TokenType::ForKeyword),
                tk(TokenType::LParenOperator),
                tk(TokenType::Id),
                tk(TokenType::SemiColonPunctuation),
                tk(TokenType::Number),
                tk(TokenType::SemiColonPunctuation),
                tk(TokenType::Number),
                tk(TokenType::SemiColonPunctuation),
                nt("E"),
                tk(TokenType::RParenOperator),
                nt("cmd_ou_bloco"),
                act(ActionKind::CreateFor),
            ],
        ),
        _ => None,
    }
}

/// The productions of the expressions: the production that expands `non_terminal` when a
/// token of the category `lookahead` comes next, if there is one.
pub open spec fn expression_rule(non_terminal: Seq<char>, lookahead: TokenType) -> Option<
    Seq<SymbolView>,
> {
    if non_terminal == "E"@ {
        e_rule(lookahead)
    } else if non_terminal == "E'"@ {
        e_prime_rule(lookahead)
    } else if non_terminal == "T"@ {
        t_rule(lookahead)
    } else if non_terminal == "T'"@ {
        t_prime_rule(lookahead)
    } else if non_terminal == "F"@ {
        f_rule(lookahead)
    } else if non_terminal == "F'"@ {
        f_prime_rule(lookahead)
    } else if non_terminal == "U"@ {
        u_rule(lookahead)
    } else {
        None
    }
}

/// The grammar as a table: the production that expands `non_terminal` when a token of the
/// category `lookahead` comes next, if the grammar has one.
pub open spec fn grammar_rule(non_terminal: Seq<char>, lookahead: TokenType) -> Option<
    Seq<SymbolView>,
> {
    if non_terminal == "inicio"@ {
        programa_rule(lookahead)
    } else if non_terminal == "tipo"@ {
        tipo_rule(lookahead)
    } else if non_terminal == "bloco"@ {
        bloco_rule(lookahead)
    } else if non_terminal == "decls"@ {
        decls_rule(lookahead)
    } else if non_terminal == "decl"@ {
        decl_rule(lookahead)
    } else if non_terminal == "lista_ids"@ {
        lista_ids_rule(lookahead)
    } else if non_terminal == "lista_ids'"@ {
        lista_ids_prime_rule(lookahead)
    } else if non_terminal == "comandos"@ {
        comandos_rule(lookahead)
    } else if non_terminal == "comando"@ {
        comando_rule(lookahead)
    } else if non_terminal == "cmd_atrib"@ {
        cmd_atrib_rule(lookahead)
    } else if non_terminal == "cmd_if"@ {
        cmd_if_rule(lookahead)
    } else if non_terminal == "cmd_if'"@ {
        cmd_if_prime_rule(lookahead)
    } else if non_terminal == "cond"@ {
        cond_rule(lookahead)
    } else if non_terminal == "op_rel"@ {
        op_rel_rule(lookahead)
    } else if non_terminal == "cmd_ou_bloco"@ {
        cmd_ou_bloco_rule(lookahead)
    } else if non_terminal == "cmd_while"@ {
        cmd_while_rule(lookahead)
    } else if non_terminal == "cmd_do"@ {
        cmd_do_rule(lookahead)
    } else if non_terminal == "cmd_for"@ {
        cmd_for_rule(lookahead)
    } else {
        expression_rule(non_terminal, lookahead)
    }
}

/// The grammar as a map from the pairs of a non-terminal and a lookahead to productions.
pub open spec fn grammar() -> Map<(Seq<char>, TokenType), Seq<SymbolView>> {
    Map::new(
        |key: (Seq<char>, TokenType)| grammar_rule(key.0, key.1) is Some,
        |key: (Seq<char>, TokenType)| grammar_rule(key.0, key.1)->0,
    )
}

/// `after` is `before` with the productions of `rule` in the cells of `name`.
pub open spec fn extends(
    before: ParseTable,
    after: ParseTable,
    name: Seq<char>,
    rule: spec_fn(TokenType) -> Option<Seq<SymbolView>>,
) -> bool {
    &&& after.start() == before.start()
    &&& forall|key: (Seq<char>, TokenType)|
        {
            &&& (#[trigger] after@.contains_key(key)) == (before@.contains_key(key) || (key.0
                == name && rule(key.1) is Some))
            &&& after@.contains_key(key) ==> after@[key] == if key.0 == name && rule(
                key.1,
            ) is Some {
                rule(key.1)->0
            } else {
                before@[key]
            }
        }
}

/// The names of the non-terminals, character by character: no two of them are the same.
pub proof fn lemma_non_terminal_names()
    ensures
        "inicio"@.len() == 6 && "inicio"@[0] == 'i' && "inicio"@[1] == 'n' && "inicio"@[2] == 'i'
            && "inicio"@[3] == 'c' && "inicio"@[4] == 'i' && "inicio"@[5] == 'o',
        "tipo"@.len() == 4 && "tipo"@[0] == 't' && "tipo"@[1] == 'i' && "tipo"@[2] == 'p'
            && "tipo"@[3] == 'o',
        "bloco"@.len() == 5 && "bloco"@[0] == 'b' && "bloco"@[1] == 'l' && "bloco"@[2] == 'o'
            && "bloco"@[3] == 'c' && "bloco"@[4] == 'o',
        "decls"@.len() == 5 && "decls"@[0] == 'd' && "decls"@[1] == 'e' && "decls"@[2] == 'c'
            && "decls"@[3] == 'l' && "decls"@[4] == 's',
        "decl"@.len() == 4 && "decl"@[0] == 'd' && "decl"@[1] == 'e' && "decl"@[2] == 'c'
            && "decl"@[3] == 'l',
        "lista_ids"@.len() == 9 && "lista_ids"@[0] == 'l' && "lista_ids"@[1] == 'i'
            && "lista_ids"@[2] == 's' && "lista_ids"@[3] == 't' && "lista_ids"@[4] == 'a'
            && "lista_ids"@[5] == '_' && "lista_ids"@[6] == 'i' && "lista_ids"@[7] == 'd'
            && "lista_ids"@[8] == 's',
        "lista_ids'"@.len() == 10 && "lista_ids'"@[0] == 'l' && "lista_ids'"@[1] == 'i'
            && "lista_ids'"@[2] == 's' && "lista_ids'"@[3] == 't' && "lista_ids'"@[4] == 'a'
            && "lista_ids'"@[5] == '_' && "lista_ids'"@[6] == 'i' && "lista_ids'"@[7] == 'd'
            && "lista_ids'"@[8] == 's' && "lista_ids'"@[9] == '\'',
        "comandos"@.len() == 8 && "comandos"@[0] == 'c' && "comandos"@[1] == 'o'
            && "comandos"@[2] == 'm' && "comandos"@[3] == 'a' && "comandos"@[4] == 'n'
            && "comandos"@[5] == 'd' && "comandos"@[6] == 'o' && "comandos"@[7] == 's',
        "comando"@.len() == 7 && "comando"@[0] == 'c' && "comando"@[1] == 'o'
            && "comando"@[2] == 'm' && "comando"@[3] == 'a' && "comando"@[4] == 'n'
            && "comando"@[5] == 'd' && "comando"@[6] == 'o',
        "cmd_atrib"@.len() == 9 && "cmd_atrib"@[0] == 'c' && "cmd_atrib"@[1] == 'm'
            && "cmd_atrib"@[2] == 'd' && "cmd_atrib"@[3] == '_' && "cmd_atrib"@[4] == 'a'
            && "cmd_atrib"@[5] == 't' && "cmd_atrib"@[6] == 'r' && "cmd_atrib"@[7] == 'i'
            && "cmd_atrib"@[8] == 'b',
        "cmd_if"@.len() == 6 && "cmd_if"@[0] == 'c' && "cmd_if"@[1] == 'm' && "cmd_if"@[2] == 'd'
            && "cmd_if"@[3] == '_' && "cmd_if"@[4] == 'i' && "cmd_if"@[5] == 'f',
        "cmd_if'"@.len() == 7 && "cmd_if'"@[0] == 'c' && "cmd_if'"@[1] == 'm'
            && "cmd_if'"@[2] == 'd' && "cmd_if'"@[3] == '_' && "cmd_if'"@[4] == 'i'
            && "cmd_if'"@[5] == 'f' && "cmd_if'"@[6] == '\'',
        "cond"@.len() == 4 && "cond"@[0] == 'c' && "cond"@[1] == 'o' && "cond"@[2] == 'n'
            && "cond"@[3] == 'd',
        "op_rel"@.len() == 6 && "op_rel"@[0] == 'o' && "op_rel"@[1] == 'p' && "op_rel"@[2] == '_'
            && "op_rel"@[3] == 'r' && "op_rel"@[4] == 'e' && "op_rel"@[5] == 'l',
        "cmd_ou_bloco"@.len() == 12 && "cmd_ou_bloco"@[0] == 'c' && "cmd_ou_bloco"@[1] == 'm'
            && "cmd_ou_bloco"@[2] == 'd' && "cmd_ou_bloco"@[3] == '_' && "cmd_ou_bloco"@[4] == 'o'
            && "cmd_ou_bloco"@[5] == 'u' && "cmd_ou_bloco"@[6] == '_' && "cmd_ou_bloco"@[7] == 'b'
            && "cmd_ou_bloco"@[8] == 'l' && "cmd_ou_bloco"@[9] == 'o'
            && "cmd_ou_bloco"@[10] == 'c' && "cmd_ou_bloco"@[11] == 'o',
        "cmd_while"@.len() == 9 && "cmd_while"@[0] == 'c' && "cmd_while"@[1] == 'm'
            && "cmd_while"@[2] == 'd' && "cmd_while"@[3] == '_' && "cmd_while"@[4] == 'w'
            && "cmd_while"@[5] == 'h' && "cmd_while"@[6] == 'i' && "cmd_while"@[7] == 'l'
            && "cmd_while"@[8] == 'e',
        "cmd_do"@.len() == 6 && "cmd_do"@[0] == 'c' && "cmd_do"@[1] == 'm' && "cmd_do"@[2] == 'd'
            && "cmd_do"@[3] == '_' && "cmd_do"@[4] == 'd' && "cmd_do"@[5] == 'o',
        "cmd_for"@.len() == 7 && "cmd_for"@[0] == 'c' && "cmd_for"@[1] == 'm'
            && "cmd_for"@[2] == 'd' && "cmd_for"@[3] == '_' && "cmd_for"@[4] == 'f'
            && "cmd_for"@[5] == 'o' && "cmd_for"@[6] == 'r',
        "E"@.len() == 1 && "E"@[0] == 'E',
        "E'"@.len() == 2 && "E'"@[0] == 'E' && "E'"@[1] == '\'',
        "T"@.len() == 1 && "T"@[0] == 'T',
        "T'"@.len() == 2 && "T'"@[0] == 'T' && "T'"@[1] == '\'',
        "F"@.len() == 1 && "F"@[0] == 'F',
        "F'"@.len() == 2 && "F'"@[0] == 'F' && "F'"@[1] == '\'',
        "U"@.len() == 1 && "U"@[0] == 'U',
{
    reveal_strlit("inicio");
    reveal_strlit("tipo");
    reveal_strlit("bloco");
    reveal_strlit("decls");
    reveal_strlit("decl");
    reveal_strlit("lista_ids");
    reveal_strlit("lista_ids'");
    reveal_strlit("comandos");
    reveal_strlit("comando");
    reveal_strlit("cmd_atrib");
    reveal_strlit("cmd_if");
    reveal_strlit("cmd_if'");
    reveal_strlit("cond");
    reveal_strlit("op_rel");
    reveal_strlit("cmd_ou_bloco");
    reveal_strlit("cmd_while");
    reveal_strlit("cmd_do");
    reveal_strlit("cmd_for");
    reveal_strlit("E");
    reveal_strlit("E'");
    reveal_strlit("T");
    reveal_strlit("T'");
    reveal_strlit("F");
    reveal_strlit("F'");
    reveal_strlit("U");
}

/// The terminal that stands for a token of the category `category`.
fn terminal(category: TokenType) -> (symbol: Symbol)
    ensures
        symbol@ == tk(category),
{
    Symbol::Terminal(category)
}

/// The non-terminal called `name`.
fn non_terminal(name: &str) -> (symbol: Symbol)
    ensures
        symbol@ == nt(name),
{
    Symbol::NonTerminal(name.to_owned())
}

/// The marker of the semantic action `kind`.
fn action(kind: ActionKind) -> (symbol: Symbol)
    ensures
        symbol@ == act(kind),
{
    Symbol::Action(kind)
}

/// The empty production.
fn production() -> (body: Vec<Symbol>)
    ensures
        symbol_views(body@) == Seq::<SymbolView>::empty(),
{
    let body: Vec<Symbol> = Vec::new();
    assert(symbol_views(body@) =~= Seq::<SymbolView>::empty());
    body
}

/// Puts `symbol` at the end of the production `body`.
fn extend_with(body: &mut Vec<Symbol>, symbol: Symbol)
    ensures
        symbol_views(final(body)@) == symbol_views(old(body)@).push(symbol@),
{
    body.push(symbol);
    assert(symbol_views(body@) =~= symbol_views(old(body)@).push(symbol@));
}

/// A copy of the production `body`.
pub fn copy_of(body: &Vec<Symbol>) -> (copy: Vec<Symbol>)
    ensures
        symbol_views(copy@) == symbol_views(body@),
{
    let mut copy: Vec<Symbol> = Vec::new();
    let mut i: usize = 0;
    while i < body.len()
        invariant
            i <= body.len(),
            copy.len() == i,
            forall|j: int| 0 <= j < i ==> copy@[j]@ == body@[j]@,
        decreases body.len() - i,
    {
        copy.push(body[i].duplicate());
        i = i + 1;
    }
    assert(symbol_views(copy@) =~= symbol_views(body@));
    copy
}

impl ParseTable {
    /// E -> T E'
    fn create_e_table(mut table: ParseTable) -> (built: ParseTable)
        requires
            table.has_no_rule("E"@),
        ensures
            extends(table, built, "E"@, |lookahead: TokenType| e_rule(lookahead)),
    {
        let mut body = production();
        extend_with(&mut body, non_terminal("T"));
        extend_with(&mut body, non_terminal("E'"));
        assert(symbol_views(body@) =~= e_rule(TokenType::Id)->0);
        table.add_entry("E", TokenType::Id, copy_of(&body));
        table.add_entry("E", TokenType::Number, copy_of(&body));
        table.add_entry("E", TokenType::CharValue, copy_of(&body));
        table.add_entry("E", TokenType::LParenOperator, copy_of(&body));
        table.add_entry("E", TokenType::MinusOperator, copy_of(&body));
        table
    }

    /// E' -> + T E' | - T E' | ε; the action stands behind the right operand
    fn create_e_prime_table(mut table: ParseTable) -> (built: ParseTable)
        requires
            table.has_no_rule("E'"@),
        ensures
            extends(table, built, "E'"@, |lookahead: TokenType| e_prime_rule(lookahead)),
    {
        let mut body = production();
        extend_with(&mut body, terminal(TokenType::PlusOperator));
        extend_with(&mut body, non_terminal("T"));
        extend_with(&mut body, action(ActionKind::Math(OperatorKind::Sum)));
        extend_with(&mut body, non_terminal("E'"));
        assert(symbol_views(body@) =~= e_prime_rule(TokenType::PlusOperator)->0);
        table.add_entry("E'", TokenType::PlusOperator, body);
        let mut body = production();
        extend_with(&mut body, terminal(TokenType::MinusOperator));
        extend_with(&mut body, non_terminal("T"));
        extend_with(&mut body, action(ActionKind::Math(OperatorKind::Sub)));
        extend_with(&mut body, non_terminal("E'"));
        assert(symbol_views(body@) =~= e_prime_rule(TokenType::MinusOperator)->0);
        table.add_entry("E'", TokenType::MinusOperator, body);
        let mut body = production();
        extend_with(&mut body, Symbol::Epsilon);
        table.add_entry("E'", TokenType::RParenOperator, copy_of(&body));
        table.add_entry("E'", TokenType::SemiColonPunctuation, copy_of(&body));
        table.add_entry("E'", TokenType::GTOperator, copy_of(&body));
        table.add_entry("E'", TokenType::LTOperator, copy_of(&body));
        table.add_entry("E'", TokenType::GEOperator, copy_of(&body));
        table.add_entry("E'", TokenType::LEOperator, copy_of(&body));
        table.add_entry("E'", TokenType::NEOperator, copy_of(&body));
        table.add_entry("E'", TokenType::EQOperator, copy_of(&body));
        table.add_entry("E'", TokenType::Eof, copy_of(&body));
        table
    }

    /// T -> F T'
    fn create_t_table(mut table: ParseTable) -> (built: ParseTable)
        requires
            table.has_no_rule("T"@),
        ensures
            extends(table, built, "T"@, |lookahead: TokenType| t_rule(lookahead)),
    {
        let mut body = production();
        extend_with(&mut body, non_terminal("F"));
        extend_with(&mut body, non_terminal("T'"));
        assert(symbol_views(body@) =~= t_rule(TokenType::Id)->0);
        table.add_entry("T", TokenType::Id, copy_of(&body));
        table.add_entry("T", TokenType::Number, copy_of(&body));
        table.add_entry("T", TokenType::CharValue, copy_of(&body));
        table.add_entry("T", TokenType::LParenOperator, copy_of(&body));
        table.add_entry("T", TokenType::MinusOperator, copy_of(&body));
        table
    }

    /// T' -> * F T' | / F T' | ε
    fn create_t_prime_table(mut table: ParseTable) -> (built: ParseTable)
        requires
            table.has_no_rule("T'"@),
        ensures
            extends(table, built, "T'"@, |lookahead: TokenType| t_prime_rule(lookahead)),
    {
        let mut body = production();
        extend_with(&mut body, terminal(TokenType::MultOperator));
        extend_with(&mut body, non_terminal("F"));
        extend_with(&mut body, action(ActionKind::Math(OperatorKind::Mult)));
        extend_with(&mut body, non_terminal("T'"));
        assert(symbol_views(body@) =~= t_prime_rule(TokenType::MultOperator)->0);
        table.add_entry("T'", TokenType::MultOperator, body);
        let mut body = production();
        extend_with(&mut body, terminal(TokenType::DivOperator));
        extend_with(&mut body, non_terminal("F"));
        extend_with(&mut body, action(ActionKind::Math(OperatorKind::Div)));
        extend_with(&mut body, non_terminal("T'"));
        assert(symbol_views(body@) =~= t_prime_rule(TokenType::DivOperator)->0);
        table.add_entry("T'", TokenType::DivOperator, body);
        let mut body = production();
        extend_with(&mut body, Symbol::Epsilon);
        table.add_entry("T'", TokenType::PlusOperator, copy_of(&body));
        table.add_entry("T'", TokenType::MinusOperator, copy_of(&body));
        table.add_entry("T'", TokenType::RParenOperator, copy_of(&body));
        table.add_entry("T'", TokenType::SemiColonPunctuation, copy_of(&body));
        table.add_entry("T'", TokenType::GTOperator, copy_of(&body));
        table.add_entry("T'", TokenType::LTOperator, copy_of(&body));
        table.add_entry("T'", TokenType::GEOperator, copy_of(&body));
        table.add_entry("T'", TokenType::LEOperator, copy_of(&body));
        table.add_entry("T'", TokenType::NEOperator, copy_of(&body));
        table.add_entry("T'", TokenType::EQOperator, copy_of(&body));
        table.add_entry("T'", TokenType::Eof, copy_of(&body));
        table
    }

    /// F -> U F'
    fn create_f_table(mut table: ParseTable) -> (built: ParseTable)
        requires
            table.has_no_rule("F"@),
        ensures
            extends(table, built, "F"@, |lookahead: TokenType| f_rule(lookahead)),
    {
        let mut body = production();
        extend_with(&mut body, non_terminal("U"));
        extend_with(&mut body, non_terminal("F'"));
        assert(symbol_views(body@) =~= f_rule(TokenType::Id)->0);
        table.add_entry("F", TokenType::Id, copy_of(&body));
        table.add_entry("F", TokenType::Number, copy_of(&body));
        table.add_entry("F", TokenType::CharValue, copy_of(&body));
        table.add_entry("F", TokenType::LParenOperator, copy_of(&body));
        table.add_entry("F", TokenType::MinusOperator, copy_of(&body));
        table
    }

    /// F' -> ** U F' | ε
    fn create_f_prime_table(mut table: ParseTable) -> (built: ParseTable)
        requires
            table.has_no_rule("F'"@),
        ensures
            extends(table, built, "F'"@, |lookahead: TokenType| f_prime_rule(lookahead)),
    {
        let mut body = production();
        extend_with(&mut body, terminal(TokenType::ExpOperator));
        extend_with(&mut body, non_terminal("U"));
        extend_with(&mut body, action(ActionKind::Math(OperatorKind::Exp)));
        extend_with(&mut body, non_terminal("F'"));
        assert(symbol_views(body@) =~= f_prime_rule(TokenType::ExpOperator)->0);
        table.add_entry("F'", TokenType::ExpOperator, body);
        let mut body = production();
        extend_with(&mut body, Symbol::Epsilon);
        table.add_entry("F'", TokenType::PlusOperator, copy_of(&body));
        table.add_entry("F'", TokenType::MinusOperator, copy_of(&body));
        table.add_entry("F'", TokenType::MultOperator, copy_of(&body));
        table.add_entry("F'", TokenType::DivOperator, copy_of(&body));
        table.add_entry("F'", TokenType::RParenOperator, copy_of(&body));
        table.add_entry("F'", TokenType::SemiColonPunctuation, copy_of(&body));
        table.add_entry("F'", TokenType::GTOperator, copy_of(&body));
        table.add_entry("F'", TokenType::LTOperator, copy_of(&body));
        table.add_entry("F'", TokenType::GEOperator, copy_of(&body));
        table.add_entry("F'", TokenType::LEOperator, copy_of(&body));
        table.add_entry("F'", TokenType::NEOperator, copy_of(&body));
        table.add_entry("F'", TokenType::EQOperator, copy_of(&body));
        table.add_entry("F'", TokenType::Eof, copy_of(&body));
        table
    }

    /// U -> id | num | char | ( E ) | - U
    fn create_u_table(mut table: ParseTable) -> (built: ParseTable)
        requires
            table.has_no_rule("U"@),
        ensures
            extends(table, built, "U"@, |lookahead: TokenType| u_rule(lookahead)),
    {
        let mut body = production();
        extend_with(&mut body, terminal(TokenType::Id));
        table.add_entry("U", TokenType::Id, body);
        let mut body = production();
        extend_with(&mut body, terminal(TokenType::Number));
        table.add_entry("U", TokenType::Number, body);
        let mut body = production();
        extend_with(&mut body, terminal(TokenType::CharValue));
        table.add_entry("U", TokenType::CharValue, body);
        let mut body = production();
        extend_with(&mut body, terminal(TokenType::LParenOperator));
        extend_with(&mut body, non_terminal("E"));
        extend_with(&mut body, terminal(TokenType::RParenOperator));
        assert(symbol_views(body@) =~= u_rule(TokenType::LParenOperator)->0);
        table.add_entry("U", TokenType::LParenOperator, body);
        let mut body = production();
        extend_with(&mut body, terminal(TokenType::MinusOperator));
        extend_with(&mut body, non_terminal("U"));
        extend_with(&mut body, action(ActionKind::CreateUnaryOp));
        assert(symbol_views(body@) =~= u_rule(TokenType::MinusOperator)->0);
        table.add_entry("U", TokenType::MinusOperator, body);
        table
    }

    /// inicio -> tipo main ( ) bloco
    fn create_programa_table(mut table: ParseTable) -> (built: ParseTable)
        requires
            table.has_no_rule("inicio"@),
        ensures
            extends(table, built, "inicio"@, |lookahead: TokenType| programa_rule(lookahead)),
    {
        let mut body = production();
        extend_with(&mut body, non_terminal("tipo"));
        extend_with(&mut body, terminal(TokenType::MainKeyword));
        extend_with(&mut body, terminal(TokenType::LParenOperator));
        extend_with(&mut body, terminal(TokenType::RParenOperator));
        extend_with(&mut body, non_terminal("bloco"));
        extend_with(&mut body, action(ActionKind::CreateProgram));
        assert(symbol_views(body@) =~= programa_rule(TokenType::CharKeyword)->0);
        table.add_entry("inicio", TokenType::CharKeyword, copy_of(&body));
        table.add_entry("inicio", TokenType::IntKeyword, copy_of(&body));
        table.add_entry("inicio", TokenType::FloatKeyword, copy_of(&body));
        table.add_entry("inicio", TokenType::VoidKeyword, copy_of(&body));
        table
    }

    /// tipo -> float | int | char | void
    fn create_tipo_table(mut table: ParseTable) -> (built: ParseTable)
        requires
            table.has_no_rule("tipo"@),
        ensures
            extends(table, built, "tipo"@, |lookahead: TokenType| tipo_rule(lookahead)),
    {
        let mut body = production();
        extend_with(&mut body, terminal(TokenType::FloatKeyword));
        table.add_entry("tipo", TokenType::FloatKeyword, body);
        let mut body = production();
        extend_with(&mut body, terminal(TokenType::IntKeyword));
        table.add_entry("tipo", TokenType::IntKeyword, body);
        let mut body = production();
        extend_with(&mut body, terminal(TokenType::CharKeyword));
        table.add_entry("tipo", TokenType::CharKeyword, body);
        let mut body = production();
        extend_with(&mut body, terminal(TokenType::VoidKeyword));
        table.add_entry("tipo", TokenType::VoidKeyword, body);
        table
    }

    /// bloco -> [ decls comandos ]
    fn create_bloco_table(mut table: ParseTable) -> (built: ParseTable)
        requires
            table.has_no_rule("bloco"@),
        ensures
            extends(table, built, "bloco"@, |lookahead: TokenType| bloco_rule(lookahead)),
    {
        let mut body = production();
        extend_with(&mut body, terminal(TokenType::BeginBlockPunctuation));
        extend_with(&mut body, non_terminal("decls"));
        extend_with(&mut body, non_terminal("comandos"));
        extend_with(&mut body, terminal(TokenType::EndBlockPunctuation));
        extend_with(&mut body, action(ActionKind::CreateBlock));
        assert(symbol_views(body@) =~= bloco_rule(TokenType::BeginBlockPunctuation)->0);
        table.add_entry("bloco", TokenType::BeginBlockPunctuation, body);
        table
    }

    /// decls -> decl decls | ε
    fn create_decls_table(mut table: ParseTable) -> (built: ParseTable)
        requires
            table.has_no_rule("decls"@),
        ensures
            extends(table, built, "decls"@, |lookahead: TokenType| decls_rule(lookahead)),
    {
        let mut body = production();
        extend_with(&mut body, non_terminal("decl"));
        extend_with(&mut body, non_terminal("decls"));
        extend_with(&mut body, action(ActionKind::AppendList));
        assert(symbol_views(body@) =~= decls_rule(TokenType::CharKeyword)->0);
        table.add_entry("decls", TokenType::CharKeyword, copy_of(&body));
        table.add_entry("decls", TokenType::IntKeyword, copy_of(&body));
        table.add_entry("decls", TokenType::FloatKeyword, copy_of(&body));
        table.add_entry("decls", TokenType::VoidKeyword, copy_of(&body));
        let mut body = production();
        extend_with(&mut body, Symbol::Epsilon);
        extend_with(&mut body, action(ActionKind::MakeList));
        assert(symbol_views(body@) =~= decls_rule(TokenType::Id)->0);
        table.add_entry("decls", TokenType::Id, copy_of(&body));
        table.add_entry("decls", TokenType::IfKeyword, copy_of(&body));
        table.add_entry("decls", TokenType::WhileKeyword, copy_of(&body));
        table.add_entry("decls", TokenType::DoKeyword, copy_of(&body));
        table.add_entry("decls", TokenType::ForKeyword, copy_of(&body));
        table.add_entry("decls", TokenType::BeginBlockPunctuation, copy_of(&body));
        table.add_entry("decls", TokenType::EndBlockPunctuation, copy_of(&body));
        table.add_entry("decls", TokenType::Eof, copy_of(&body));
        table
    }

    /// decl -> tipo lista_ids ;
    fn create_decl_table(mut table: ParseTable) -> (built: ParseTable)
        requires
            table.has_no_rule("decl"@),
        ensures
            extends(table, built, "decl"@, |lookahead: TokenType| decl_rule(lookahead)),
    {
        let mut body = production();
        extend_with(&mut body, non_terminal("tipo"));
        extend_with(&mut body, non_terminal("lista_ids"));
        extend_with(&mut body, terminal(TokenType::SemiColonPunctuation));
        extend_with(&mut body, action(ActionKind::CreateDecl));
        assert(symbol_views(body@) =~= decl_rule(TokenType::CharKeyword)->0);
        table.add_entry("decl", TokenType::CharKeyword, copy_of(&body));
        table.add_entry("decl", TokenType::IntKeyword, copy_of(&body));
        table.add_entry("decl", TokenType::FloatKeyword, copy_of(&body));
        table.add_entry("decl", TokenType::VoidKeyword, copy_of(&body));
        table
    }

    /// lista_ids -> id lista_ids'
    fn create_lista_ids_table(mut table: ParseTable) -> (built: ParseTable)
        requires
            table.has_no_rule("lista_ids"@),
        ensures
            extends(table, built, "lista_ids"@, |lookahead: TokenType| lista_ids_rule(lookahead)),
    {
        let mut body = production();
        extend_with(&mut body, terminal(TokenType::Id));
        extend_with(&mut body, non_terminal("lista_ids'"));
        extend_with(&mut body, action(ActionKind::AppendList));
        assert(symbol_views(body@) =~= lista_ids_rule(TokenType::Id)->0);
        table.add_entry("lista_ids", TokenType::Id, body);
        table
    }

    /// lista_ids' -> , id lista_ids' | ε
    fn create_lista_ids_prime_table(mut table: ParseTable) -> (built: ParseTable)
        requires
            table.has_no_rule("lista_ids'"@),
        ensures
            extends(
                table,
                built,
                "lista_ids'"@,
                |lookahead: TokenType| lista_ids_prime_rule(lookahead),
            ),
    {
        let mut body = production();
        extend_with(&mut body, terminal(TokenType::CommaPunctuation));
        extend_with(&mut body, terminal(TokenType::Id));
        extend_with(&mut body, non_terminal("lista_ids'"));
        extend_with(&mut body, action(ActionKind::AppendList));
        assert(symbol_views(body@) =~= lista_ids_prime_rule(TokenType::CommaPunctuation)->0);
        table.add_entry("lista_ids'", TokenType::CommaPunctuation, body);
        let mut body = production();
        extend_with(&mut body, Symbol::Epsilon);
        extend_with(&mut body, action(ActionKind::MakeList));
        assert(symbol_views(body@) =~= lista_ids_prime_rule(TokenType::SemiColonPunctuation)->0);
        table.add_entry("lista_ids'", TokenType::SemiColonPunctuation, copy_of(&body));
        table.add_entry("lista_ids'", TokenType::Eof, copy_of(&body));
        table
    }

    /// comandos -> comando comandos | ε
    fn create_comandos_table(mut table: ParseTable) -> (built: ParseTable)
        requires
            table.has_no_rule("comandos"@),
        ensures
            extends(table, built, "comandos"@, |lookahead: TokenType| comandos_rule(lookahead)),
    {
        let mut body = production();
        extend_with(&mut body, non_terminal("comando"));
        extend_with(&mut body, non_terminal("comandos"));
        extend_with(&mut body, action(ActionKind::AppendList));
        assert(symbol_views(body@) =~= comandos_rule(TokenType::Id)->0);
        table.add_entry("comandos", TokenType::Id, copy_of(&body));
        table.add_entry("comandos", TokenType::IfKeyword, copy_of(&body));
        table.add_entry("comandos", TokenType::WhileKeyword, copy_of(&body));
        table.add_entry("comandos", TokenType::DoKeyword, copy_of(&body));
        table.add_entry("comandos", TokenType::ForKeyword, copy_of(&body));
        table.add_entry("comandos", TokenType::BeginBlockPunctuation, copy_of(&body));
        let mut body = production();
        extend_with(&mut body, Symbol::Epsilon);
        extend_with(&mut body, action(ActionKind::MakeList));
        assert(symbol_views(body@) =~= comandos_rule(TokenType::EndBlockPunctuation)->0);
        table.add_entry("comandos", TokenType::EndBlockPunctuation, copy_of(&body));
        table.add_entry("comandos", TokenType::Eof, copy_of(&body));
        table
    }

    /// comando -> cmd_atrib | cmd_if | cmd_while | cmd_do | cmd_for | bloco
    fn create_comando_table(mut table: ParseTable) -> (built: ParseTable)
        requires
            table.has_no_rule("comando"@),
        ensures
            extends(table, built, "comando"@, |lookahead: TokenType| comando_rule(lookahead)),
    {
        let mut body = production();
        extend_with(&mut body, non_terminal("cmd_atrib"));
        table.add_entry("comando", TokenType::Id, body);
        let mut body = production();
        extend_with(&mut body, non_terminal("cmd_if"));
        table.add_entry("comando", TokenType::IfKeyword, body);
        let mut body = production();
        extend_with(&mut body, non_terminal("cmd_while"));
        table.add_entry("comando", TokenType::WhileKeyword, body);
        let mut body = production();
        extend_with(&mut body, non_terminal("cmd_do"));
        table.add_entry("comando", TokenType::DoKeyword, body);
        let mut body = production();
        extend_with(&mut body, non_terminal("cmd_for"));
        table.add_entry("comando", TokenType::ForKeyword, body);
        let mut body = production();
        extend_with(&mut body, non_terminal("bloco"));
        table.add_entry("comando", TokenType::BeginBlockPunctuation, body);
        table
    }

    /// cmd_atrib -> id := E ;
    fn create_cmd_atrib_table(mut table: ParseTable) -> (built: ParseTable)
        requires
            table.has_no_rule("cmd_atrib"@),
        ensures
            extends(table, built, "cmd_atrib"@, |lookahead: TokenType| cmd_atrib_rule(lookahead)),
    {
        let mut body = production();
        extend_with(&mut body, terminal(TokenType::Id));
        extend_with(&mut body, terminal(TokenType::AssignPunctuation));
        extend_with(&mut body, non_terminal("E"));
        extend_with(&mut body, terminal(TokenType::SemiColonPunctuation));
        extend_with(&mut body, action(ActionKind::Assign));
        assert(symbol_views(body@) =~= cmd_atrib_rule(TokenType::Id)->0);
        table.add_entry("cmd_atrib", TokenType::Id, body);
        table
    }

    /// cmd_if -> if ( cond ) then cmd_ou_bloco cmd_if'
    fn create_cmd_if_table(mut table: ParseTable) -> (built: ParseTable)
        requires
            table.has_no_rule("cmd_if"@),
        ensures
            extends(table, built, "cmd_if"@, |lookahead: TokenType| cmd_if_rule(lookahead)),
    {
        let mut body = production();
        extend_with(&mut body, terminal(TokenType::IfKeyword));
        extend_with(&mut body, terminal(TokenType::LParenOperator));
        extend_with(&mut body, non_terminal("cond"));
        extend_with(&mut body, terminal(TokenType::RParenOperator));
        extend_with(&mut body, terminal(TokenType::ThenKeyword));
        extend_with(&mut body, non_terminal("cmd_ou_bloco"));
        extend_with(&mut body, non_terminal("cmd_if'"));
        assert(symbol_views(body@) =~= cmd_if_rule(TokenType::IfKeyword)->0);
        table.add_entry("cmd_if", TokenType::IfKeyword, body);
        table
    }

    /// cond -> E op_rel E
    fn create_cond_table(mut table: ParseTable) -> (built: ParseTable)
        requires
            table.has_no_rule("cond"@),
        ensures
            extends(table, built, "cond"@, |lookahead: TokenType| cond_rule(lookahead)),
    {
        let mut body = production();
        extend_with(&mut body, non_terminal("E"));
        extend_with(&mut body, non_terminal("op_rel"));
        extend_with(&mut body, non_terminal("E"));
        extend_with(&mut body, action(ActionKind::CreateCond));
        assert(symbol_views(body@) =~= cond_rule(TokenType::Id)->0);
        table.add_entry("cond", TokenType::Id, copy_of(&body));
        table.add_entry("cond", TokenType::Number, copy_of(&body));
        table.add_entry("cond", TokenType::CharValue, copy_of(&body));
        table.add_entry("cond", TokenType::LParenOperator, copy_of(&body));
        table.add_entry("cond", TokenType::MinusOperator, copy_of(&body));
        table
    }

    /// op_rel -> == | != | <= | >= | < | >
    fn create_op_rel_table(mut table: ParseTable) -> (built: ParseTable)
        requires
            table.has_no_rule("op_rel"@),
        ensures
            extends(table, built, "op_rel"@, |lookahead: TokenType| op_rel_rule(lookahead)),
    {
        let mut body = production();
        extend_with(&mut body, terminal(TokenType::EQOperator));
        table.add_entry("op_rel", TokenType::EQOperator, body);
        let mut body = production();
        extend_with(&mut body, terminal(TokenType::NEOperator));
        table.add_entry("op_rel", TokenType::NEOperator, body);
        let mut body = production();
        extend_with(&mut body, terminal(TokenType::LEOperator));
        table.add_entry("op_rel", TokenType::LEOperator, body);
        let mut body = production();
        extend_with(&mut body, terminal(TokenType::GEOperator));
        table.add_entry("op_rel", TokenType::GEOperator, body);
        let mut body = production();
        extend_with(&mut body, terminal(TokenType::LTOperator));
        table.add_entry("op_rel", TokenType::LTOperator, body);
        let mut body = production();
        extend_with(&mut body, terminal(TokenType::GTOperator));
        table.add_entry("op_rel", TokenType::GTOperator, body);
        table
    }

    /// cmd_ou_bloco -> comando | bloco
    fn create_cmd_ou_bloco_table(mut table: ParseTable) -> (built: ParseTable)
        requires
            table.has_no_rule("cmd_ou_bloco"@),
        ensures
            extends(
                table,
                built,
                "cmd_ou_bloco"@,
                |lookahead: TokenType| cmd_ou_bloco_rule(lookahead),
            ),
    {
        let mut body = production();
        extend_with(&mut body, non_terminal("comando"));
        table.add_entry("cmd_ou_bloco", TokenType::Id, copy_of(&body));
        table.add_entry("cmd_ou_bloco", TokenType::IfKeyword, copy_of(&body));
        table.add_entry("cmd_ou_bloco", TokenType::WhileKeyword, copy_of(&body));
        table.add_entry("cmd_ou_bloco", TokenType::DoKeyword, copy_of(&body));
        table.add_entry("cmd_ou_bloco", TokenType::ForKeyword, copy_of(&body));
        let mut body = production();
        extend_with(&mut body, non_terminal("bloco"));
        table.add_entry("cmd_ou_bloco", TokenType::BeginBlockPunctuation, body);
        table
    }

    /// cmd_if' -> elsif ( cond ) then cmd_ou_bloco cmd_if' | else cmd_ou_bloco | ε
    fn create_cmd_if_prime_table(mut table: ParseTable) -> (built: ParseTable)
        requires
            table.has_no_rule("cmd_if'"@),
        ensures
            extends(table, built, "cmd_if'"@, |lookahead: TokenType| cmd_if_prime_rule(lookahead)),
    {
        let mut body = production();
        extend_with(&mut body, terminal(TokenType::ElsifKeyword));
        extend_with(&mut body, terminal(TokenType::LParenOperator));
        extend_with(&mut body, non_terminal("cond"));
        extend_with(&mut body, terminal(TokenType::RParenOperator));
        extend_with(&mut body, terminal(TokenType::ThenKeyword));
        extend_with(&mut body, non_terminal("cmd_ou_bloco"));
        extend_with(&mut body, non_terminal("cmd_if'"));
        extend_with(&mut body, action(ActionKind::CreateIfElse));
        assert(symbol_views(body@) =~= cmd_if_prime_rule(TokenType::ElsifKeyword)->0);
        table.add_entry("cmd_if'", TokenType::ElsifKeyword, body);
        let mut body = production();
        extend_with(&mut body, terminal(TokenType::ElseKeyword));
        extend_with(&mut body, non_terminal("cmd_ou_bloco"));
        extend_with(&mut body, action(ActionKind::CreateIfElse));
        assert(symbol_views(body@) =~= cmd_if_prime_rule(TokenType::ElseKeyword)->0);
        table.add_entry("cmd_if'", TokenType::ElseKeyword, body);
        let mut body = production();
        extend_with(&mut body, Symbol::Epsilon);
        extend_with(&mut body, action(ActionKind::CreateIf));
        assert(symbol_views(body@) =~= cmd_if_prime_rule(TokenType::Id)->0);
        table.add_entry("cmd_if'", TokenType::Id, copy_of(&body));
        table.add_entry("cmd_if'", TokenType::IfKeyword, copy_of(&body));
        table.add_entry("cmd_if'", TokenType::WhileKeyword, copy_of(&body));
        table.add_entry("cmd_if'", TokenType::DoKeyword, copy_of(&body));
        table.add_entry("cmd_if'", TokenType::ForKeyword, copy_of(&body));
        table.add_entry("cmd_if'", TokenType::BeginBlockPunctuation, copy_of(&body));
        table.add_entry("cmd_if'", TokenType::EndBlockPunctuation, copy_of(&body));
        table.add_entry("cmd_if'", TokenType::Eof, copy_of(&body));
        table
    }

    /// cmd_while -> while ( cond ) do cmd_ou_bloco
    fn create_cmd_while_table(mut table: ParseTable) -> (built: ParseTable)
        requires
            table.has_no_rule("cmd_while"@),
        ensures
            extends(table, built, "cmd_while"@, |lookahead: TokenType| cmd_while_rule(lookahead)),
    {
        let mut body = production();
        extend_with(&mut body, terminal(TokenType::WhileKeyword));
        extend_with(&mut body, terminal(TokenType::LParenOperator));
        extend_with(&mut body, non_terminal("cond"));
        extend_with(&mut body, terminal(TokenType::RParenOperator));
        extend_with(&mut body, terminal(TokenType::DoKeyword));
        extend_with(&mut body, non_terminal("cmd_ou_bloco"));
        extend_with(&mut body, action(ActionKind::CreateWhile));
        assert(symbol_views(body@) =~= cmd_while_rule(TokenType::WhileKeyword)->0);
        table.add_entry("cmd_while", TokenType::WhileKeyword, body);
        table
    }

    /// cmd_do -> do cmd_ou_bloco while ( cond ) ;
    fn create_cmd_do_table(mut table: ParseTable) -> (built: ParseTable)
        requires
            table.has_no_rule("cmd_do"@),
        ensures
            extends(table, built, "cmd_do"@, |lookahead: TokenType| cmd_do_rule(lookahead)),
    {
        let mut body = production();
        extend_with(&mut body, terminal(TokenType::DoKeyword));
        extend_with(&mut body, non_terminal("cmd_ou_bloco"));
        extend_with(&mut body, terminal(TokenType::WhileKeyword));
        extend_with(&mut body, terminal(TokenType::LParenOperator));
        extend_with(&mut body, non_terminal("cond"));
        extend_with(&mut body, terminal(TokenType::RParenOperator));
        extend_with(&mut body, terminal(TokenType::SemiColonPunctuation));
        extend_with(&mut body, action(ActionKind::CreateDoWhile));
        assert(symbol_views(body@) =~= cmd_do_rule(TokenType::DoKeyword)->0);
        table.add_entry("cmd_do", TokenType::DoKeyword, body);
        table
    }

    /// cmd_for -> for ( id ; num ; num ; E ) cmd_ou_bloco
    fn create_cmd_for_table(mut table: ParseTable) -> (built: ParseTable)
        requires
            table.has_no_rule("cmd_for"@),
        ensures
            extends(table, built, "cmd_for"@, |lookahead: TokenType| cmd_for_rule(lookahead)),
    {
        let mut body = production();
        extend_with(&mut body, terminal(TokenType::ForKeyword));
        extend_with(&mut body, terminal(TokenType::LParenOperator));
        extend_with(&mut body, terminal(TokenType::Id));
        extend_with(&mut body, terminal(TokenType::SemiColonPunctuation));
        extend_with(&mut body, terminal(TokenType::Number));
        extend_with(&mut body, terminal(TokenType::SemiColonPunctuation));
        extend_with(&mut body, terminal(TokenType::Number));
        extend_with(&mut body, terminal(TokenType::SemiColonPunctuation));
        extend_with(&mut body, non_terminal("E"));
        extend_with(&mut body, terminal(TokenType::RParenOperator));
        extend_with(&mut body, non_terminal("cmd_ou_bloco"));
        extend_with(&mut body, action(ActionKind::CreateFor));
        assert(symbol_views(body@) =~= cmd_for_rule(TokenType::ForKeyword)->0);
        table.add_entry("cmd_for", TokenType::ForKeyword, body);
        table
    }
    /// The productions of the expressions: sums over products over powers over operands.
    fn create_expression_parse_table(table: ParseTable) -> (built: ParseTable)
        requires
            table@ == Map::<(Seq<char>, TokenType), Seq<SymbolView>>::empty(),
        ensures
            built.start() == table.start(),
            forall|key: (Seq<char>, TokenType)|
                {
                    &&& (#[trigger] built@.contains_key(key)) == (expression_rule(
                        key.0,
                        key.1,
                    ) is Some)
                    &&& built@.contains_key(key) ==> built@[key] == expression_rule(key.0, key.1)->0
                },
    {
        proof {
            lemma_non_terminal_names();
        }
        let table = ParseTable::create_e_table(table);
        let table = ParseTable::create_e_prime_table(table);
        let table = ParseTable::create_t_table(table);
        let table = ParseTable::create_t_prime_table(table);
        let table = ParseTable::create_f_table(table);
        let table = ParseTable::create_f_prime_table(table);
        ParseTable::create_u_table(table)
    }

    /// The parse table of the language, for parses that begin with `start_symbol`.
    pub fn create_parse_table(start_symbol: &str) -> (table: ParseTable)
        ensures
            table.start() == start_symbol@,
            table@ == grammar(),
    {
        proof {
            lemma_non_terminal_names();
        }
        let table = ParseTable::new(start_symbol);
        let table = ParseTable::create_expression_parse_table(table);
        let table = ParseTable::create_programa_table(table);
        let table = ParseTable::create_tipo_table(table);
        let table = ParseTable::create_bloco_table(table);
        let table = ParseTable::create_decls_table(table);
        let table = ParseTable::create_decl_table(table);
        let table = ParseTable::create_lista_ids_table(table);
        let table = ParseTable::create_lista_ids_prime_table(table);
        let table = ParseTable::create_comandos_table(table);
        let table = ParseTable::create_comando_table(table);
        let table = ParseTable::create_cmd_atrib_table(table);
        let table = ParseTable::create_cmd_if_table(table);
        let table = ParseTable::create_cond_table(table);
        let table = ParseTable::create_op_rel_table(table);
        let table = ParseTable::create_cmd_ou_bloco_table(table);
        let table = ParseTable::create_cmd_if_prime_table(table);
        let table = ParseTable::create_cmd_while_table(table);
        let table = ParseTable::create_cmd_do_table(table);
        let table = ParseTable::create_cmd_for_table(table);
        proof {
            assert(table@ =~= grammar());
        }
        table
    }
}

} // verus!
