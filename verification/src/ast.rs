//! The typed AST wrappers of all nodes, and the three generated sources.

use vstd::prelude::*;
use vstd::string::*;

use crate::enums::{enum_code, gen_enum_code};
use crate::kinds::{generate_key_fields_code, generate_kinds_code, key_fields_code, kinds_code};
use crate::lists::{gen_list_code, gen_separated_list_code, list_code, separated_list_code};
use crate::spec::{Node, NodeKind};
use crate::structs::{gen_struct_code, gen_token_code, struct_code, token_code};
use crate::tokens::{concat, render, token_literals, tokens_append, tokens_extend, tokens_new, CodeTokens};

verus! {

pub const AST_HEADER: &'static str = "// Autogenerated file. To regenerate, please run `cargo run --bin generate-syntax`.\n\n#![allow(clippy::match_single_binding)]\n#![allow(clippy::too_many_arguments)]\n#![allow(dead_code)]\n#![allow(unused_variables)]\nuse std::ops::Deref;\nuse std::sync::Arc;\n\nuse cairo_lang_filesystem::span::TextWidth;\nuse cairo_lang_utils::extract_matches;\nuse smol_str::SmolStr;\n\nuse super::element_list::ElementList;\nuse super::green::GreenNodeDetails;\nuse super::kind::SyntaxKind;\nuse super::{\n    GreenId, GreenNode, SyntaxGroup, SyntaxNode, SyntaxStablePtr, SyntaxStablePtrId,\n    Terminal, Token, TypedSyntaxNode,\n};\n\n#[path = \"ast_ext.rs\"]\nmod ast_ext;\n";

pub const AST_FILE: &'static str = "crates/cairo-lang-syntax/src/node/ast.rs";

pub const KIND_FILE: &'static str = "crates/cairo-lang-syntax/src/node/kind.rs";

pub const KEY_FIELDS_FILE: &'static str = "crates/cairo-lang-syntax/src/node/key_fields.rs";

/// The typed wrapper of one node, by its shape.
pub open spec fn node_code(node: Node) -> Seq<Seq<char>> {
    match node.kind {
        NodeKind::Enum { variants, missing_variant } => enum_code(
            node.name@,
            variants@,
            missing_variant,
        ),
        NodeKind::Struct { members } => struct_code(node.name@, members@, false),
        NodeKind::Terminal { members, .. } => struct_code(node.name@, members@, true),
        NodeKind::Token { .. } => token_code(node.name@),
        NodeKind::List { element_type } => list_code(node.name@, element_type@),
        NodeKind::SeparatedList { element_type, separator_type } => separated_list_code(
            node.name@,
            element_type@,
            separator_type@,
        ),
    }
}

/// The typed wrappers of `nodes`, in order.
pub open spec fn node_codes(nodes: Seq<Node>) -> Seq<Seq<char>>
    decreases nodes.len(),
{
    if nodes.len() == 0 {
        Seq::empty()
    } else {
        node_codes(nodes.drop_last()) + node_code(nodes.last())
    }
}

/// The source of `ast.rs` for the nodes `nodes`.
pub open spec fn ast_code(nodes: Seq<Node>) -> Seq<Seq<char>> {
    seq![AST_HEADER@] + node_codes(nodes)
}

/// The typed wrapper of `node`.
fn gen_node_code(node: Node) -> (t: CodeTokens)
    ensures
        token_literals(t) == Some(node_code(node)),
{
    let Node { name, kind } = node;
    match kind {
        NodeKind::Enum { variants, missing_variant } => gen_enum_code(
            name,
            variants,
            missing_variant,
        ),
        NodeKind::Struct { members } => gen_struct_code(name, members, false),
        NodeKind::Terminal { members, .. } => gen_struct_code(name, members, true),
        NodeKind::Token { .. } => gen_token_code(name),
        NodeKind::List { element_type } => gen_list_code(name, element_type),
        NodeKind::SeparatedList { element_type, separator_type } => gen_separated_list_code(
            name,
            element_type,
            separator_type,
        ),
    }
}

/// The source of `ast.rs`: the imports, then the typed wrapper of each node,
/// in order.
pub fn generate_ast_code(nodes: Vec<Node>) -> (t: CodeTokens)
    ensures
        token_literals(t) == Some(ast_code(nodes@)),
{
    let ghost all = nodes@;
    let count = nodes.len();
    let mut rest = nodes;
    let mut tokens = tokens_new();
    tokens_append(&mut tokens, AST_HEADER);
    let mut i: usize = 0;
    assert(all.take(0) =~= Seq::<Node>::empty());
    assert(all.skip(0) =~= all);
    assert(all.len() == count);
    while rest.len() > 0
        invariant
            i <= all.len(),
            rest@ == all.skip(i as int),
            i + rest.len() == all.len(),
            all.len() <= usize::MAX,
            token_literals(tokens) == Some(seq![AST_HEADER@] + node_codes(all.take(i as int))),
        decreases rest.len(),
    {
        let node = rest.remove(0);
        proof {
            assert(all.take(i + 1).drop_last() =~= all.take(i as int));
            assert(all.skip(i as int).remove(0) =~= all.skip(i + 1));
        }
        let code = gen_node_code(node);
        tokens_extend(&mut tokens, code);
        assert(token_literals(tokens).unwrap() =~= seq![AST_HEADER@] + node_codes(
            all.take(i + 1),
        ));
        i = i + 1;
    }
    assert(all.take(i as int) =~= all);
    tokens
}

/// The three generated sources, each with the path of its file, before
/// formatting: `ast.rs`, `kind.rs` and `key_fields.rs`.
pub fn get_unformatted_codes(nodes: Vec<Node>) -> (codes: Vec<(String, String)>)
    ensures
        codes@.len() == 3,
        codes@[0].0@ == AST_FILE@,
        codes@[0].1@ == concat(ast_code(nodes@)),
        codes@[1].0@ == KIND_FILE@,
        codes@[1].1@ == concat(kinds_code(nodes@)),
        codes@[2].0@ == KEY_FIELDS_FILE@,
        codes@[2].1@ == concat(key_fields_code(nodes@)),
{
    let kinds = generate_kinds_code(&nodes);
    let key_fields = generate_key_fields_code(&nodes);
    let ghost all = nodes@;
    let ast = generate_ast_code(nodes);
    let mut codes: Vec<(String, String)> = Vec::new();
    codes.push((String::from_str(AST_FILE), render(&ast)));
    codes.push((String::from_str(KIND_FILE), render(&kinds)));
    codes.push((String::from_str(KEY_FIELDS_FILE), render(&key_fields)));
    codes
}

} // verus!
