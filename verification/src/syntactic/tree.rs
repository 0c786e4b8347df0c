//! The syntax tree.

use vstd::prelude::*;
use crate::lexer::token::{OperatorKind, RelopKind, Type};

verus! {

/// A node of the syntax tree. The last three variants carry a value from one semantic
/// action to the next while a tree is built, and are no part of a finished tree.
#[allow(inconsistent_fields)]
#[derive(Debug, PartialEq)]
pub enum AstNode {
    Program { kind: Type, body: Box<AstNode> },
    Block { decls: Vec<AstNode>, stmts: Vec<AstNode> },
    VarDecl { kind: Type, names: Vec<String> },
    Assignment { id: String, expr: Box<AstNode> },
    If { cond: Box<AstNode>, then_block: Box<AstNode>, else_block: Option<Box<AstNode>> },
    While { cond: Box<AstNode>, body: Box<AstNode> },
    DoWhile { body: Box<AstNode>, cond: Box<AstNode> },
    For { id: String, start: u32, end: u32, step: Box<AstNode>, body: Box<AstNode> },
    UnaryOp { expr: Box<AstNode> },
    BinaryOp { op: OperatorKind, left: Box<AstNode>, right: Box<AstNode> },
    BinaryComp { relop: RelopKind, left: Box<AstNode>, right: Box<AstNode> },
    Number { value: String },
    Identifier { name: String },
    Literal { value: char },
    TypeWrapper(Type),
    CondWrapper(RelopKind),
    List(Vec<AstNode>),
}

/// The mathematical value of an [`AstNode`].
#[allow(inconsistent_fields)]
pub enum AstView {
    Program { kind: Type, body: Box<AstView> },
    Block { decls: Seq<AstView>, stmts: Seq<AstView> },
    VarDecl { kind: Type, names: Seq<Seq<char>> },
    Assignment { id: Seq<char>, expr: Box<AstView> },
    If { cond: Box<AstView>, then_block: Box<AstView>, else_block: Option<Box<AstView>> },
    While { cond: Box<AstView>, body: Box<AstView> },
    DoWhile { body: Box<AstView>, cond: Box<AstView> },
    For { id: Seq<char>, start: u32, end: u32, step: Box<AstView>, body: Box<AstView> },
    UnaryOp { expr: Box<AstView> },
    BinaryOp { op: OperatorKind, left: Box<AstView>, right: Box<AstView> },
    BinaryComp { relop: RelopKind, left: Box<AstView>, right: Box<AstView> },
    Number { value: Seq<char> },
    Identifier { name: Seq<char> },
    Literal { value: char },
    TypeWrapper(Type),
    CondWrapper(RelopKind),
    List(Seq<AstView>),
}

/// The mathematical values of a sequence of texts.
pub open spec fn text_views(texts: Seq<String>) -> Seq<Seq<char>> {
    texts.map_values(|text: String| text@)
}

/// The mathematical value of `node`.
pub open spec fn tree_of(node: AstNode) -> AstView
    decreases node,
{
    match node {
        AstNode::Program { kind, body } => AstView::Program {
            kind,
            body: Box::new(tree_of(*body)),
        },
        AstNode::Block { decls, stmts } => AstView::Block {
            decls: Seq::new(
                decls@.len(),
                |i: int|
                    if 0 <= i < decls@.len() {
                        tree_of(decls@[i])
                    } else {
                        AstView::List(Seq::empty())
                    },
            ),
            stmts: Seq::new(
                stmts@.len(),
                |i: int|
                    if 0 <= i < stmts@.len() {
                        tree_of(stmts@[i])
                    } else {
                        AstView::List(Seq::empty())
                    },
            ),
        },
        AstNode::VarDecl { kind, names } => AstView::VarDecl { kind, names: text_views(names@) },
        AstNode::Assignment { id, expr } => AstView::Assignment {
            id: id@,
            expr: Box::new(tree_of(*expr)),
        },
        AstNode::If { cond, then_block, else_block } => AstView::If {
            cond: Box::new(tree_of(*cond)),
            then_block: Box::new(tree_of(*then_block)),
            else_block: match else_block {
                Some(other) => Some(Box::new(tree_of(*other))),
                None => None,
            },
        },
        AstNode::While { cond, body } => AstView::While {
            cond: Box::new(tree_of(*cond)),
            body: Box::new(tree_of(*body)),
        },
        AstNode::DoWhile { body, cond } => AstView::DoWhile {
            body: Box::new(tree_of(*body)),
            cond: Box::new(tree_of(*cond)),
        },
        AstNode::For { id, start, end, step, body } => AstView::For {
            id: id@,
            start,
            end,
            step: Box::new(tree_of(*step)),
            body: Box::new(tree_of(*body)),
        },
        AstNode::UnaryOp { expr } => AstView::UnaryOp { expr: Box::new(tree_of(*expr)) },
        AstNode::BinaryOp { op, left, right } => AstView::BinaryOp {
            op,
            left: Box::new(tree_of(*left)),
            right: Box::new(tree_of(*right)),
        },
        AstNode::BinaryComp { relop, left, right } => AstView::BinaryComp {
            relop,
            left: Box::new(tree_of(*left)),
            right: Box::new(tree_of(*right)),
        },
        AstNode::Number { value } => AstView::Number { value: value@ },
        AstNode::Identifier { name } => AstView::Identifier { name: name@ },
        AstNode::Literal { value } => AstView::Literal { value },
        AstNode::TypeWrapper(kind) => AstView::TypeWrapper(kind),
        AstNode::CondWrapper(relop) => AstView::CondWrapper(relop),
        AstNode::List(items) => AstView::List(
            Seq::new(
                items@.len(),
                |i: int|
                    if 0 <= i < items@.len() {
                        tree_of(items@[i])
                    } else {
                        AstView::List(Seq::empty())
                    },
            ),
        ),
    }
}

impl View for AstNode {
    type V = AstView;

    open spec fn view(&self) -> AstView {
        tree_of(*self)
    }
}

/// The mathematical values of a sequence of nodes.
pub open spec fn tree_views(nodes: Seq<AstNode>) -> Seq<AstView> {
    nodes.map_values(|node: AstNode| node@)
}

/// The value of a list node is the list of the values of its items.
pub proof fn lemma_list_view(items: Vec<AstNode>)
    ensures
        AstNode::List(items)@ == AstView::List(tree_views(items@)),
{
    assert(AstNode::List(items)@->List_0 =~= tree_views(items@));
}

/// The value of a block is made of the values of its declarations and statements.
pub proof fn lemma_block_view(decls: Vec<AstNode>, stmts: Vec<AstNode>)
    ensures
        (AstNode::Block { decls, stmts })@ == (AstView::Block {
            decls: tree_views(decls@),
            stmts: tree_views(stmts@),
        }),
{
    let block = (AstNode::Block { decls, stmts })@;
    assert(block->Block_decls =~= tree_views(decls@));
    assert(block->Block_stmts =~= tree_views(stmts@));
}

impl AstView {
    /// Whether this is one of the variants that only carry a value between actions.
    pub open spec fn is_helper(self) -> bool {
        self is TypeWrapper || self is CondWrapper || self is List
    }

    /// Whether this tree holds no helper variant anywhere.
    pub open spec fn is_finished(self) -> bool
        decreases self,
    {
        match self {
            AstView::Program { body, .. } => body.is_finished(),
            AstView::Block { decls, stmts } => {
                &&& forall|i: int| 0 <= i < decls.len() ==> (#[trigger] decls[i]).is_finished()
                &&& forall|i: int| 0 <= i < stmts.len() ==> (#[trigger] stmts[i]).is_finished()
            },
            AstView::VarDecl { .. } => true,
            AstView::Assignment { expr, .. } => expr.is_finished(),
            AstView::If { cond, then_block, else_block } => {
                &&& cond.is_finished()
                &&& then_block.is_finished()
                &&& match else_block {
                    Some(other) => other.is_finished(),
                    None => true,
                }
            },
            AstView::While { cond, body } => cond.is_finished() && body.is_finished(),
            AstView::DoWhile { body, cond } => body.is_finished() && cond.is_finished(),
            AstView::For { step, body, .. } => step.is_finished() && body.is_finished(),
            AstView::UnaryOp { expr } => expr.is_finished(),
            AstView::BinaryOp { left, right, .. } => left.is_finished() && right.is_finished(),
            AstView::BinaryComp { left, right, .. } => left.is_finished() && right.is_finished(),
            AstView::Number { .. } => true,
            AstView::Identifier { .. } => true,
            AstView::Literal { .. } => true,
            AstView::TypeWrapper(_) => false,
            AstView::CondWrapper(_) => false,
            AstView::List(_) => false,
        }
    }
}

impl AstNode {
    /// Whether this is one of the variants that only carry a value between actions.
    pub fn is_helper(&self) -> (b: bool)
        ensures
            b == self@.is_helper(),
    {
        match self {
            AstNode::TypeWrapper(_) => true,
            AstNode::CondWrapper(_) => true,
            AstNode::List(_) => true,
            _ => false,
        }
    }
}

} // verus!
