//! The semantic actions, run on the stack of nodes.

use vstd::prelude::*;
use crate::lexer::scan::is_digit;
use crate::lexer::text::{chars_of, is_ascii_digit};
use crate::lexer::token::OperatorKind;
use crate::syntactic::machine::{
    InternalError, all_digits, all_identifiers, apply_action, bound_of, decimal_value,
    digit_value, names_of, two_children,
};
use crate::syntactic::symbol::ActionKind;
use crate::syntactic::tree::{
    AstNode, AstView, lemma_block_view, lemma_list_view, text_views, tree_views,
};

verus! {

/// A longer text of digits writes no smaller number.
proof fn lemma_decimal_value_grows(text: Seq<char>, n: int)
    requires
        0 <= n <= text.len(),
    ensures
        decimal_value(text.take(n)) <= decimal_value(text),
    decreases text.len() - n,
{
    if n < text.len() {
        lemma_decimal_value_grows(text, n + 1);
        assert(text.take(n + 1).drop_last() =~= text.take(n));
    } else {
        assert(text.take(n) =~= text);
    }
}

/// The bound of a loop that `text` writes, if it writes one.
pub fn parse_bound(text: &String) -> (bound: Option<u32>)
    ensures
        bound == bound_of(text@),
{
    let chars = chars_of(text.as_str());
    if chars.len() == 0 {
        return None;
    }
    let mut value: u64 = 0;
    let mut i: usize = 0;
    while i < chars.len()
        invariant
            chars@ == text@,
            i <= chars.len(),
            value == decimal_value(chars@.take(i as int)),
            value <= u32::MAX,
            all_digits(chars@.take(i as int)),
        decreases chars.len() - i,
    {
        let c = chars[i];
        proof {
            assert(chars@.take(i + 1).drop_last() =~= chars@.take(i as int));
            assert(chars@.take(i + 1).last() == c);
            lemma_decimal_value_grows(chars@, i + 1);
        }
        if !is_ascii_digit(c) {
            assert(!is_digit(chars@[i as int]));
            return None;
        }
        let digit: u64 = (c as u32 - '0' as u32) as u64;
        assert(digit == digit_value(c));
        value = value * 10 + digit;
        if value > 0xffff_ffff {
            return None;
        }
        i = i + 1;
        assert forall|j: int| 0 <= j < i implies is_digit(#[trigger] chars@.take(i as int)[j]) by {
            if j < i - 1 {
                assert(chars@.take(i as int)[j] == chars@.take(i - 1)[j]);
            }
        }
    }
    assert(chars@.take(i as int) =~= chars@);
    Some(value as u32)
}

/// Whether the action `kind` has led from the stack `before` to the stack `after`, or has
/// failed as `done` says.
pub open spec fn acted(
    kind: ActionKind,
    before: Seq<AstView>,
    after: Seq<AstView>,
    done: Result<(), InternalError>,
) -> bool {
    match apply_action(kind, before) {
        Ok(nodes) => done is Ok && after == nodes,
        Err(fault) => done == Err::<(), InternalError>(fault),
    }
}

/// Takes the node on top of `nodes`.
fn pop_node(nodes: &mut Vec<AstNode>) -> (node: AstNode)
    requires
        old(nodes).len() > 0,
    ensures
        final(nodes).len() == old(nodes).len() - 1,
        tree_views(final(nodes)@) == tree_views(old(nodes)@).drop_last(),
        node@ == tree_views(old(nodes)@).last(),
{
    let node = nodes.pop().unwrap();
    assert(tree_views(nodes@) =~= tree_views(old(nodes)@).drop_last());
    node
}

/// Puts `node` on top of `nodes`.
fn push_node(nodes: &mut Vec<AstNode>, node: AstNode)
    ensures
        final(nodes).len() == old(nodes).len() + 1,
        tree_views(final(nodes)@) == tree_views(old(nodes)@).push(node@),
{
    nodes.push(node);
    assert(tree_views(nodes@) =~= tree_views(old(nodes)@).push(node@));
}

/// Takes the two nodes on top of `nodes`, neither of which may be a helper: gives the
/// lower one, then the upper one.
fn take_two(kind: ActionKind, nodes: &mut Vec<AstNode>) -> (taken: Result<
    (AstNode, AstNode),
    InternalError,
>)
    ensures
        match two_children(kind, tree_views(old(nodes)@)) {
            Ok((rest, lower, upper)) => {
                &&& taken is Ok
                &&& taken->Ok_0.0@ == lower
                &&& taken->Ok_0.1@ == upper
                &&& tree_views(final(nodes)@) == rest
            },
            Err(error) => taken == Err::<(AstNode, AstNode), InternalError>(error),
        },
        old(nodes).len() >= 2 ==> final(nodes).len() == old(nodes).len() - 2,
{
    if nodes.len() < 2 {
        return Err(InternalError::MissingOperand(kind));
    }
    let upper = pop_node(nodes);
    let lower = pop_node(nodes);
    if upper.is_helper() || lower.is_helper() {
        Err(InternalError::WrongOperand(kind))
    } else {
        Ok((lower, upper))
    }
}

/// The names of the identifiers `items`, if every one of them is an identifier.
fn identifier_names(items: &Vec<AstNode>) -> (names: Option<Vec<String>>)
    ensures
        match names {
            Some(names) => all_identifiers(tree_views(items@)) && text_views(names@) == names_of(
                tree_views(items@),
            ),
            None => !all_identifiers(tree_views(items@)),
        },
{
    let mut names: Vec<String> = Vec::new();
    let mut i: usize = 0;
    while i < items.len()
        invariant
            i <= items.len(),
            names.len() == i,
            forall|j: int| 0 <= j < i ==> (#[trigger] tree_views(items@)[j]) is Identifier,
            forall|j: int|
                0 <= j < i ==> (#[trigger] names@[j])@ == tree_views(items@)[j]->Identifier_name,
        decreases items.len() - i,
    {
        match &items[i] {
            AstNode::Identifier { name } => {
                names.push(name.clone());
            },
            _ => {
                assert(!(tree_views(items@)[i as int] is Identifier));
                return None;
            },
        }
        i = i + 1;
    }
    assert(text_views(names@) =~= names_of(tree_views(items@)));
    Some(names)
}

/// Puts an empty list on the stack.
fn make_list(nodes: &mut Vec<AstNode>) -> (done: Result<(), InternalError>)
    ensures
        acted(ActionKind::MakeList, tree_views(old(nodes)@), tree_views(final(nodes)@), done),
{
    let items: Vec<AstNode> = Vec::new();
    proof {
        lemma_list_view(items);
        assert(tree_views(items@) =~= Seq::<AstView>::empty());
    }
    push_node(nodes, AstNode::List(items));
    Ok(())
}

/// Puts the node below the list on top of the stack at the front of that list: the lists
/// are built from their last item to their first.
fn append_list(nodes: &mut Vec<AstNode>) -> (done: Result<(), InternalError>)
    ensures
        acted(ActionKind::AppendList, tree_views(old(nodes)@), tree_views(final(nodes)@), done),
{
    let kind = ActionKind::AppendList;
    if nodes.len() < 2 {
        return Err(InternalError::MissingOperand(kind));
    }
    let list = pop_node(nodes);
    let item = pop_node(nodes);
    match list {
        AstNode::List(mut items) => {
            if item.is_helper() {
                return Err(InternalError::WrongOperand(kind));
            }
            let ghost before = items;
            let ghost added = item@;
            items.insert(0, item);
            proof {
                lemma_list_view(before);
                lemma_list_view(items);
                assert(tree_views(items@) =~= seq![added] + tree_views(before@));
            }
            push_node(nodes, AstNode::List(items));
            Ok(())
        },
        _ => Err(InternalError::WrongOperand(kind)),
    }
}

/// Builds an arithmetic operation from its operands: the right one on top, the left one
/// below it.
fn create_binary(op: OperatorKind, nodes: &mut Vec<AstNode>) -> (done: Result<(), InternalError>)
    ensures
        acted(ActionKind::Math(op), tree_views(old(nodes)@), tree_views(final(nodes)@), done),
{
    let kind = ActionKind::Math(op);
    let (left, right) = take_two(kind, nodes)?;
    push_node(nodes, AstNode::BinaryOp { op, left: Box::new(left), right: Box::new(right) });
    Ok(())
}

/// Builds a conditional without an alternative from the branch on top and the condition
/// below it.
fn create_if(nodes: &mut Vec<AstNode>) -> (done: Result<(), InternalError>)
    ensures
        acted(ActionKind::CreateIf, tree_views(old(nodes)@), tree_views(final(nodes)@), done),
{
    let kind = ActionKind::CreateIf;
    let (cond, then_block) = take_two(kind, nodes)?;
    push_node(
        nodes,
        AstNode::If {
            cond: Box::new(cond),
            then_block: Box::new(then_block),
            else_block: None,
        },
    );
    Ok(())
}

/// Builds a loop from the body on top and the condition below it.
fn create_while(nodes: &mut Vec<AstNode>) -> (done: Result<(), InternalError>)
    ensures
        acted(ActionKind::CreateWhile, tree_views(old(nodes)@), tree_views(final(nodes)@), done),
{
    let kind = ActionKind::CreateWhile;
    let (cond, body) = take_two(kind, nodes)?;
    push_node(nodes, AstNode::While { cond: Box::new(cond), body: Box::new(body) });
    Ok(())
}

/// Builds a loop that tests at its end from the condition on top and the body below it.
fn create_do_while(nodes: &mut Vec<AstNode>) -> (done: Result<(), InternalError>)
    ensures
        acted(ActionKind::CreateDoWhile, tree_views(old(nodes)@), tree_views(final(nodes)@), done),
{
    let kind = ActionKind::CreateDoWhile;
    let (body, cond) = take_two(kind, nodes)?;
    push_node(nodes, AstNode::DoWhile { body: Box::new(body), cond: Box::new(cond) });
    Ok(())
}

/// Builds a negation from the operand on top.
fn create_unary(nodes: &mut Vec<AstNode>) -> (done: Result<(), InternalError>)
    ensures
        acted(ActionKind::CreateUnaryOp, tree_views(old(nodes)@), tree_views(final(nodes)@), done),
{
    let kind = ActionKind::CreateUnaryOp;
    if nodes.len() < 1 {
        return Err(InternalError::MissingOperand(kind));
    }
    let expr = pop_node(nodes);
    if expr.is_helper() {
        return Err(InternalError::WrongOperand(kind));
    }
    push_node(nodes, AstNode::UnaryOp { expr: Box::new(expr) });
    Ok(())
}

/// Builds a conditional from the alternative on top, the branch below it, and the
/// condition below that.
fn create_if_else(nodes: &mut Vec<AstNode>) -> (done: Result<(), InternalError>)
    ensures
        acted(ActionKind::CreateIfElse, tree_views(old(nodes)@), tree_views(final(nodes)@), done),
{
    let kind = ActionKind::CreateIfElse;
    if nodes.len() < 3 {
        return Err(InternalError::MissingOperand(kind));
    }
    let else_block = pop_node(nodes);
    match take_two(kind, nodes) {
        Ok((cond, then_block)) => {
            if else_block.is_helper() {
                return Err(InternalError::WrongOperand(kind));
            }
            push_node(
                nodes,
                AstNode::If {
                    cond: Box::new(cond),
                    then_block: Box::new(then_block),
                    else_block: Some(Box::new(else_block)),
                },
            );
            Ok(())
        },
        Err(_) => Err(InternalError::WrongOperand(kind)),
    }
}

/// Builds a comparison from the right operand on top, the operator below it, and the left
/// operand below that.
fn create_cond(nodes: &mut Vec<AstNode>) -> (done: Result<(), InternalError>)
    ensures
        acted(ActionKind::CreateCond, tree_views(old(nodes)@), tree_views(final(nodes)@), done),
{
    let kind = ActionKind::CreateCond;
    if nodes.len() < 3 {
        return Err(InternalError::MissingOperand(kind));
    }
    let right = pop_node(nodes);
    let relop = pop_node(nodes);
    let left = pop_node(nodes);
    match relop {
        AstNode::CondWrapper(relop) => {
            if left.is_helper() || right.is_helper() {
                return Err(InternalError::WrongOperand(kind));
            }
            push_node(
                nodes,
                AstNode::BinaryComp { relop, left: Box::new(left), right: Box::new(right) },
            );
            Ok(())
        },
        _ => Err(InternalError::WrongOperand(kind)),
    }
}

/// Builds an assignment from the expression on top and the identifier below it.
fn create_assignment(nodes: &mut Vec<AstNode>) -> (done: Result<(), InternalError>)
    ensures
        acted(ActionKind::Assign, tree_views(old(nodes)@), tree_views(final(nodes)@), done),
{
    let kind = ActionKind::Assign;
    if nodes.len() < 2 {
        return Err(InternalError::MissingOperand(kind));
    }
    let expr = pop_node(nodes);
    let id = pop_node(nodes);
    match id {
        AstNode::Identifier { name } => {
            if expr.is_helper() {
                return Err(InternalError::WrongOperand(kind));
            }
            push_node(nodes, AstNode::Assignment { id: name, expr: Box::new(expr) });
            Ok(())
        },
        _ => Err(InternalError::WrongOperand(kind)),
    }
}

/// Builds the program from the block on top and the type below it.
fn create_program(nodes: &mut Vec<AstNode>) -> (done: Result<(), InternalError>)
    ensures
        acted(ActionKind::CreateProgram, tree_views(old(nodes)@), tree_views(final(nodes)@), done),
{
    let kind = ActionKind::CreateProgram;
    if nodes.len() < 2 {
        return Err(InternalError::MissingOperand(kind));
    }
    let body = pop_node(nodes);
    let kind_node = pop_node(nodes);
    match kind_node {
        AstNode::TypeWrapper(kind_of) => {
            if body.is_helper() {
                return Err(InternalError::WrongOperand(kind));
            }
            push_node(nodes, AstNode::Program { kind: kind_of, body: Box::new(body) });
            Ok(())
        },
        _ => Err(InternalError::WrongOperand(kind)),
    }
}

/// Builds a block from the list of statements on top and the list of declarations below
/// it.
fn create_block(nodes: &mut Vec<AstNode>) -> (done: Result<(), InternalError>)
    ensures
        acted(ActionKind::CreateBlock, tree_views(old(nodes)@), tree_views(final(nodes)@), done),
{
    let kind = ActionKind::CreateBlock;
    if nodes.len() < 2 {
        return Err(InternalError::MissingOperand(kind));
    }
    let stmts_node = pop_node(nodes);
    let decls_node = pop_node(nodes);
    match (decls_node, stmts_node) {
        (AstNode::List(decls), AstNode::List(stmts)) => {
            proof {
                lemma_list_view(decls);
                lemma_list_view(stmts);
                lemma_block_view(decls, stmts);
            }
            push_node(nodes, AstNode::Block { decls, stmts });
            Ok(())
        },
        _ => Err(InternalError::WrongOperand(kind)),
    }
}

/// Builds a declaration from the list of identifiers on top and the type below it.
fn create_decl(nodes: &mut Vec<AstNode>) -> (done: Result<(), InternalError>)
    ensures
        acted(ActionKind::CreateDecl, tree_views(old(nodes)@), tree_views(final(nodes)@), done),
{
    let kind = ActionKind::CreateDecl;
    if nodes.len() < 2 {
        return Err(InternalError::MissingOperand(kind));
    }
    let ids_node = pop_node(nodes);
    let kind_node = pop_node(nodes);
    match (kind_node, ids_node) {
        (AstNode::TypeWrapper(kind_of), AstNode::List(items)) => {
            proof {
                lemma_list_view(items);
            }
            match identifier_names(&items) {
                Some(names) => {
                    push_node(nodes, AstNode::VarDecl { kind: kind_of, names });
                    Ok(())
                },
                None => Err(InternalError::WrongOperand(kind)),
            }
        },
        _ => Err(InternalError::WrongOperand(kind)),
    }
}

/// Builds a counting loop from the body on top, and below it the step, the last bound,
/// the first bound and the identifier.
fn create_for(nodes: &mut Vec<AstNode>) -> (done: Result<(), InternalError>)
    ensures
        acted(ActionKind::CreateFor, tree_views(old(nodes)@), tree_views(final(nodes)@), done),
{
    let kind = ActionKind::CreateFor;
    if nodes.len() < 5 {
        return Err(InternalError::MissingOperand(kind));
    }
    let taken = take_two(kind, nodes);
    let last_node = pop_node(nodes);
    let first_node = pop_node(nodes);
    let id_node = pop_node(nodes);
    match (id_node, first_node, last_node, taken) {
        (
            AstNode::Identifier { name },
            AstNode::Number { value: first },
            AstNode::Number { value: last },
            Ok((step, body)),
        ) => {
            match (parse_bound(&first), parse_bound(&last)) {
                (Some(start), Some(end)) => {
                    push_node(
                        nodes,
                        AstNode::For {
                            id: name,
                            start,
                            end,
                            step: Box::new(step),
                            body: Box::new(body),
                        },
                    );
                    Ok(())
                },
                _ => Err(InternalError::WrongOperand(kind)),
            }
        },
        _ => Err(InternalError::WrongOperand(kind)),
    }
}

/// Runs the action `kind` on the stack of nodes: takes the nodes that the action is made
/// from off the top and puts the node that it builds in their place. Where it fails, the
/// stack is of no further use.
pub fn run_action(kind: ActionKind, nodes: &mut Vec<AstNode>) -> (done: Result<
    (),
    InternalError,
>)
    ensures
        acted(kind, tree_views(old(nodes)@), tree_views(final(nodes)@), done),
{
    match kind {
        ActionKind::MakeList => make_list(nodes),
        ActionKind::AppendList => append_list(nodes),
        ActionKind::Math(op) => create_binary(op, nodes),
        ActionKind::CreateIf => create_if(nodes),
        ActionKind::CreateWhile => create_while(nodes),
        ActionKind::CreateDoWhile => create_do_while(nodes),
        ActionKind::CreateUnaryOp => create_unary(nodes),
        ActionKind::CreateIfElse => create_if_else(nodes),
        ActionKind::CreateCond => create_cond(nodes),
        ActionKind::Assign => create_assignment(nodes),
        ActionKind::CreateProgram => create_program(nodes),
        ActionKind::CreateBlock => create_block(nodes),
        ActionKind::CreateDecl => create_decl(nodes),
        ActionKind::CreateFor => create_for(nodes),
    }
}

} // verus!
