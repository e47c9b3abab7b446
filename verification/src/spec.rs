//! The description of the syntax nodes that the generated code is made from.

use vstd::prelude::*;

verus! {

/// A member (child) of a struct-like node.
pub struct Member {
    pub name: String,
    pub kind: String,
    /// Whether this child is part of the node's key for stable pointers.
    pub key: bool,
}

/// A variant of an enum node.
pub struct Variant {
    pub name: String,
    pub kind: String,
}

/// The shape of a syntax node.
pub enum NodeKind {
    Enum { variants: Vec<Variant>, missing_variant: Option<Variant> },
    Struct { members: Vec<Member> },
    Terminal { is_keyword: bool, members: Vec<Member> },
    Token { is_keyword: bool },
    List { element_type: String },
    SeparatedList { element_type: String, separator_type: String },
}

/// A named syntax node.
pub struct Node {
    pub name: String,
    pub kind: NodeKind,
}

/// The names of the nodes whose kind satisfies `p`, in order.
pub open spec fn names_where(nodes: Seq<Node>, p: spec_fn(NodeKind) -> bool) -> Seq<Seq<char>>
    decreases nodes.len(),
{
    if nodes.len() == 0 {
        Seq::empty()
    } else {
        let prev = names_where(nodes.drop_last(), p);
        if p(nodes.last().kind) {
            prev.push(nodes.last().name@)
        } else {
            prev
        }
    }
}

/// Every kind but an enum: these nodes get a `SyntaxKind` variant.
pub open spec fn has_syntax_kind(k: NodeKind) -> bool {
    !(k is Enum)
}

pub open spec fn is_token(k: NodeKind) -> bool {
    k is Token
}

pub open spec fn is_keyword_token(k: NodeKind) -> bool {
    k matches NodeKind::Token { is_keyword } && is_keyword
}

pub open spec fn is_terminal(k: NodeKind) -> bool {
    k is Terminal
}

pub open spec fn is_keyword_terminal(k: NodeKind) -> bool {
    k matches NodeKind::Terminal { is_keyword, .. } && is_keyword
}

/// The nodes that get a `SyntaxKind` variant.
pub open spec fn kind_names(nodes: Seq<Node>) -> Seq<Seq<char>> {
    names_where(nodes, |k: NodeKind| has_syntax_kind(k))
}

pub open spec fn token_names(nodes: Seq<Node>) -> Seq<Seq<char>> {
    names_where(nodes, |k: NodeKind| is_token(k))
}

pub open spec fn keyword_token_names(nodes: Seq<Node>) -> Seq<Seq<char>> {
    names_where(nodes, |k: NodeKind| is_keyword_token(k))
}

pub open spec fn terminal_names(nodes: Seq<Node>) -> Seq<Seq<char>> {
    names_where(nodes, |k: NodeKind| is_terminal(k))
}

pub open spec fn keyword_terminal_names(nodes: Seq<Node>) -> Seq<Seq<char>> {
    names_where(nodes, |k: NodeKind| is_keyword_terminal(k))
}

} // verus!
