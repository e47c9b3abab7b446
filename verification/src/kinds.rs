//! The `SyntaxKind` enum and the key fields of each kind.

use vstd::prelude::*;
use vstd::string::*;

use crate::spec::{
    kind_names, keyword_terminal_names, keyword_token_names, terminal_names, token_names,
    has_syntax_kind, is_keyword_terminal, is_keyword_token, is_terminal, is_token, names_where,
    Member, Node, NodeKind,
};
use crate::text::{decimal, decimal_string};
use crate::tokens::{
    concat,
    suffixed, token_literals, tokens_append, tokens_extend, tokens_is_empty, tokens_new,
    CodeTokens,
};

verus! {

pub const KINDS_HEADER: &'static str = "// Autogenerated file. To regenerate, please run `cargo run --bin generate-syntax`.\n\nuse core::fmt;\n";

pub const KINDS_ENUM_OPEN: &'static str = "#[derive(Copy, Clone, Debug, Hash, PartialEq, Eq)]\npub enum SyntaxKind {\n";

pub const KINDS_IS_TOKEN: &'static str = "}\nimpl SyntaxKind {\n    pub fn is_token(&self) -> bool {\n        matches!(\n            *self,\n            ";

pub const KINDS_IS_TERMINAL: &'static str = "\n        )\n    }\n    pub fn is_terminal(&self) -> bool {\n        matches!(\n            *self,\n            ";

pub const KINDS_IS_KEYWORD_TOKEN: &'static str = "\n        )\n    }\n    pub fn is_keyword_token(&self) -> bool {\n        matches!(\n            *self,\n            ";

pub const KINDS_IS_KEYWORD_TERMINAL: &'static str = "\n        )\n    }\n    pub fn is_keyword_terminal(&self) -> bool {\n        matches!(\n            *self,\n            ";

pub const KINDS_TAIL: &'static str = "\n        )\n    }\n}\nimpl fmt::Display for SyntaxKind {\n    fn fmt(&self, f: &mut fmt::Formatter<'_>) -> fmt::Result {\n        write!(f, \"{self:?}\")\n    }\n}\n";

pub const SYNTAX_KIND_PATH: &'static str = "SyntaxKind::";

pub const ALTERNATIVE_SEPARATOR: &'static str = "| ";

pub const VARIANT_END: &'static str = ",\n";

/// The pattern that names the kind `name` in an alternation: the first one
/// alone, every later one after a `|`.
pub open spec fn rust_token_item(first: bool, name: Seq<char>) -> Seq<char> {
    if first {
        SYNTAX_KIND_PATH@ + name
    } else {
        ALTERNATIVE_SEPARATOR@ + SYNTAX_KIND_PATH@ + name
    }
}

/// The alternation of the kinds `names`, one item per kind.
pub open spec fn rust_token_list(names: Seq<Seq<char>>) -> Seq<Seq<char>>
    decreases names.len(),
{
    if names.len() == 0 {
        Seq::empty()
    } else {
        rust_token_list(names.drop_last()).push(
            rust_token_item(names.len() == 1, names.last()),
        )
    }
}

/// The variants of `SyntaxKind`: each name followed by a comma.
pub open spec fn kind_variants(names: Seq<Seq<char>>) -> Seq<Seq<char>>
    decreases names.len(),
{
    if names.len() == 0 {
        Seq::empty()
    } else {
        kind_variants(names.drop_last()) + seq![names.last(), VARIANT_END@]
    }
}

/// The source of `kind.rs` for the nodes `nodes`.
pub open spec fn kinds_code(nodes: Seq<Node>) -> Seq<Seq<char>> {
    seq![KINDS_HEADER@, KINDS_ENUM_OPEN@]
        + kind_variants(kind_names(nodes))
        + seq![KINDS_IS_TOKEN@]
        + rust_token_list(token_names(nodes))
        + seq![KINDS_IS_TERMINAL@]
        + rust_token_list(terminal_names(nodes))
        + seq![KINDS_IS_KEYWORD_TOKEN@]
        + rust_token_list(keyword_token_names(nodes))
        + seq![KINDS_IS_KEYWORD_TERMINAL@]
        + rust_token_list(keyword_terminal_names(nodes))
        + seq![KINDS_TAIL@]
}

/// One step of building an alternation: the kind `name` added to the items
/// `items`, alone if there are none, after a `|` otherwise.
pub open spec fn append_step(items: Seq<Seq<char>>, name: Seq<char>) -> Seq<Seq<char>> {
    items.push(rust_token_item(items.len() == 0, name))
}

/// Appends the kind `name` to the alternation `list`: alone if `list` is
/// empty, after a `|` otherwise.
pub fn append_rust_token(list: &mut CodeTokens, name: &str)
    ensures
        token_literals(*old(list)) matches Some(items) ==> token_literals(*final(list)) == Some(
            append_step(items, name@),
        ),
        token_literals(*old(list)) is None ==> token_literals(*final(list)) is None,
{
    if tokens_is_empty(list) {
        let item = suffixed(SYNTAX_KIND_PATH, name);
        tokens_append(list, item.as_str());
    } else {
        proof {
            if token_literals(*list) is Some {
                if token_literals(*list).unwrap().len() == 0 {
                    assert(token_literals(*list).unwrap() =~= Seq::<Seq<char>>::empty());
                }
            }
        }
        let mut item = String::from_str(ALTERNATIVE_SEPARATOR);
        item.append(SYNTAX_KIND_PATH);
        item.append(name);
        tokens_append(list, item.as_str());
    }
}

proof fn lemma_names_where_step(nodes: Seq<Node>, i: int, p: spec_fn(NodeKind) -> bool)
    requires
        0 <= i < nodes.len(),
    ensures
        names_where(nodes.take(i + 1), p) == if p(nodes[i].kind) {
            names_where(nodes.take(i), p).push(nodes[i].name@)
        } else {
            names_where(nodes.take(i), p)
        },
{
    assert(nodes.take(i + 1).drop_last() =~= nodes.take(i));
}

proof fn lemma_rust_token_list_len(names: Seq<Seq<char>>)
    ensures
        rust_token_list(names).len() == names.len(),
    decreases names.len(),
{
    if names.len() > 0 {
        lemma_rust_token_list_len(names.drop_last());
    }
}

/// The alternation lists every kind once, in order, the first alone and each
/// later one after a `|`.
pub proof fn lemma_rust_token_list_items(names: Seq<Seq<char>>)
    ensures
        rust_token_list(names).len() == names.len(),
        forall|i: int|
            0 <= i < names.len() ==> #[trigger] rust_token_list(names)[i] == rust_token_item(
                i == 0,
                names[i],
            ),
    decreases names.len(),
{
    lemma_rust_token_list_len(names);
    if names.len() > 0 {
        lemma_rust_token_list_items(names.drop_last());
    }
}

/// Appends `name` to `list` when `add` holds.
fn append_rust_token_if(list: &mut CodeTokens, add: bool, name: &str, names: Ghost<Seq<Seq<char>>>)
    requires
        token_literals(*old(list)) == Some(rust_token_list(names@)),
    ensures
        token_literals(*final(list)) == Some(
            rust_token_list(if add { names@.push(name@) } else { names@ }),
        ),
{
    if add {
        proof {
            lemma_rust_token_list_len(names@);
            assert(names@.push(name@).drop_last() =~= names@);
        }
        append_rust_token(list, name);
    }
}

/// The source of `kind.rs`: the `SyntaxKind` enum with a variant for each
/// node that is not an enum, and the predicates that tell tokens, terminals
/// and their keyword subsets apart.
pub fn generate_kinds_code(nodes: &Vec<Node>) -> (t: CodeTokens)
    ensures
        token_literals(t) == Some(kinds_code(nodes@)),
{
    let ghost all = nodes@;
    let mut tokens = tokens_new();
    tokens_append(&mut tokens, KINDS_HEADER);
    let mut kinds = tokens_new();
    let mut token_kinds = tokens_new();
    let mut keyword_token_kinds = tokens_new();
    let mut terminal_kinds = tokens_new();
    let mut keyword_terminal_kinds = tokens_new();
    let mut i: usize = 0;
    assert(all.take(0) =~= Seq::<Node>::empty());
    while i < nodes.len()
        invariant
            all == nodes@,
            i <= nodes.len(),
            token_literals(tokens) == Some(seq![KINDS_HEADER@]),
            token_literals(kinds) == Some(
                kind_variants(names_where(all.take(i as int), |k: NodeKind| has_syntax_kind(k))),
            ),
            token_literals(token_kinds) == Some(
                rust_token_list(names_where(all.take(i as int), |k: NodeKind| is_token(k))),
            ),
            token_literals(keyword_token_kinds) == Some(
                rust_token_list(
                    names_where(all.take(i as int), |k: NodeKind| is_keyword_token(k)),
                ),
            ),
            token_literals(terminal_kinds) == Some(
                rust_token_list(names_where(all.take(i as int), |k: NodeKind| is_terminal(k))),
            ),
            token_literals(keyword_terminal_kinds) == Some(
                rust_token_list(
                    names_where(all.take(i as int), |k: NodeKind| is_keyword_terminal(k)),
                ),
            ),
        decreases nodes.len() - i,
    {
        let node = &nodes[i];
        proof {
            lemma_names_where_step(all, i as int, |k: NodeKind| has_syntax_kind(k));
            lemma_names_where_step(all, i as int, |k: NodeKind| is_token(k));
            lemma_names_where_step(all, i as int, |k: NodeKind| is_keyword_token(k));
            lemma_names_where_step(all, i as int, |k: NodeKind| is_terminal(k));
            lemma_names_where_step(all, i as int, |k: NodeKind| is_keyword_terminal(k));
        }
        let ghost variants_before = names_where(
            all.take(i as int),
            |k: NodeKind| has_syntax_kind(k),
        );
        match &node.kind {
            NodeKind::Enum { .. } => {},
            _ => {
                tokens_append(&mut kinds, node.name.as_str());
                tokens_append(&mut kinds, VARIANT_END);
                proof {
                    let names = variants_before.push(node.name@);
                    assert(names.drop_last() =~= variants_before);
                    assert(kind_variants(variants_before).push(node.name@).push(VARIANT_END@)
                        =~= kind_variants(names));
                }
            },
        }
        let ghost tk = names_where(all.take(i as int), |k: NodeKind| is_token(k));
        let ghost ktk = names_where(all.take(i as int), |k: NodeKind| is_keyword_token(k));
        let ghost te = names_where(all.take(i as int), |k: NodeKind| is_terminal(k));
        let ghost kte = names_where(all.take(i as int), |k: NodeKind| is_keyword_terminal(k));
        match &node.kind {
            NodeKind::Token { is_keyword } => {
                append_rust_token_if(&mut token_kinds, true, node.name.as_str(), Ghost(tk));
                append_rust_token_if(
                    &mut keyword_token_kinds,
                    *is_keyword,
                    node.name.as_str(),
                    Ghost(ktk),
                );
            },
            NodeKind::Terminal { is_keyword, .. } => {
                append_rust_token_if(&mut terminal_kinds, true, node.name.as_str(), Ghost(te));
                append_rust_token_if(
                    &mut keyword_terminal_kinds,
                    *is_keyword,
                    node.name.as_str(),
                    Ghost(kte),
                );
            },
            _ => {},
        }
        i = i + 1;
    }
    assert(all.take(nodes.len() as int) =~= all);
    let mut block = tokens_new();
    tokens_append(&mut block, KINDS_ENUM_OPEN);
    tokens_extend(&mut block, kinds);
    tokens_append(&mut block, KINDS_IS_TOKEN);
    tokens_extend(&mut block, token_kinds);
    tokens_append(&mut block, KINDS_IS_TERMINAL);
    tokens_extend(&mut block, terminal_kinds);
    tokens_append(&mut block, KINDS_IS_KEYWORD_TOKEN);
    tokens_extend(&mut block, keyword_token_kinds);
    tokens_append(&mut block, KINDS_IS_KEYWORD_TERMINAL);
    tokens_extend(&mut block, keyword_terminal_kinds);
    tokens_append(&mut block, KINDS_TAIL);
    tokens_extend(&mut tokens, block);
    assert(token_literals(tokens).unwrap() =~= kinds_code(nodes@));
    tokens
}

pub const KEY_FIELDS_HEADER: &'static str = "// Autogenerated file. To regenerate, please run `cargo run --bin generate-syntax`.\n\nuse super::ids::GreenId;\nuse super::kind::SyntaxKind;\n\n/// Gets the vector of children ids that are the indexing key for this SyntaxKind.\n\n/// Each SyntaxKind has some children that are defined in the spec to be its indexing key\n\n/// for its stable pointer. See [super::stable_ptr].\n\npub fn get_key_fields(kind: SyntaxKind, children: &[GreenId]) -> Vec<GreenId> {\n    match kind {\n";

pub const KEY_FIELDS_TAIL: &'static str = "    }\n}\n";

pub const KEY_ARM_OPEN: &'static str = " => {vec![";

pub const KEY_ARM_CLOSE: &'static str = "]},\n";

pub const EMPTY_KEY_ARM: &'static str = " => vec![],\n";

pub const KEY_ENTRY_OPEN: &'static str = "/* ";

pub const KEY_ENTRY_CHILD: &'static str = " */ children[";

pub const KEY_ENTRY_CLOSE: &'static str = "],\n";

/// The key-field entry for child `i`, named `name`: `/* name */ children[i],`.
pub open spec fn key_entry(name: Seq<char>, i: nat) -> Seq<Seq<char>> {
    seq![KEY_ENTRY_OPEN@, name, KEY_ENTRY_CHILD@, decimal(i), KEY_ENTRY_CLOSE@]
}

/// The key-field entries of a struct's members: one for each key member, in
/// order, naming the member's position among all members.
pub open spec fn key_field_items(members: Seq<Member>) -> Seq<Seq<char>>
    decreases members.len(),
{
    if members.len() == 0 {
        Seq::empty()
    } else {
        let last = members.last();
        key_field_items(members.drop_last()) + if last.key {
            key_entry(last.name@, (members.len() - 1) as nat)
        } else {
            Seq::empty()
        }
    }
}

/// The arm of `get_key_fields` for a node: the key children of a struct or
/// terminal, none for a list, separated list or token, and no arm for an enum.
pub open spec fn key_fields_arm(node: Node) -> Seq<Seq<char>> {
    match node.kind {
        NodeKind::Struct { members } => seq![SYNTAX_KIND_PATH@, node.name@, KEY_ARM_OPEN@]
            + key_field_items(members@) + seq![KEY_ARM_CLOSE@],
        NodeKind::Terminal { members, .. } => seq![SYNTAX_KIND_PATH@, node.name@, KEY_ARM_OPEN@]
            + key_field_items(members@) + seq![KEY_ARM_CLOSE@],
        NodeKind::Enum { .. } => Seq::empty(),
        _ => seq![SYNTAX_KIND_PATH@, node.name@, EMPTY_KEY_ARM@],
    }
}

pub open spec fn key_fields_arms(nodes: Seq<Node>) -> Seq<Seq<char>>
    decreases nodes.len(),
{
    if nodes.len() == 0 {
        Seq::empty()
    } else {
        key_fields_arms(nodes.drop_last()) + key_fields_arm(nodes.last())
    }
}

/// The source of `key_fields.rs` for the nodes `nodes`.
pub open spec fn key_fields_code(nodes: Seq<Node>) -> Seq<Seq<char>> {
    seq![KEY_FIELDS_HEADER@] + key_fields_arms(nodes) + seq![KEY_FIELDS_TAIL@]
}

/// The key-field entries of `members`.
pub fn key_field_entries(members: &Vec<Member>) -> (t: CodeTokens)
    ensures
        token_literals(t) == Some(key_field_items(members@)),
{
    let mut fields = tokens_new();
    let mut i: usize = 0;
    assert(members@.take(0) =~= Seq::<Member>::empty());
    while i < members.len()
        invariant
            i <= members.len(),
            token_literals(fields) == Some(key_field_items(members@.take(i as int))),
        decreases members.len() - i,
    {
        let member = &members[i];
        let ghost before = token_literals(fields).unwrap();
        proof {
            assert(members@.take(i + 1).drop_last() =~= members@.take(i as int));
        }
        if member.key {
            tokens_append(&mut fields, KEY_ENTRY_OPEN);
            tokens_append(&mut fields, member.name.as_str());
            tokens_append(&mut fields, KEY_ENTRY_CHILD);
            let index = decimal_string(i);
            tokens_append(&mut fields, index.as_str());
            tokens_append(&mut fields, KEY_ENTRY_CLOSE);
            assert(token_literals(fields).unwrap() =~= before + key_entry(
                member.name@,
                i as nat,
            ));
        } else {
            assert(before + Seq::<Seq<char>>::empty() =~= before);
        }
        i = i + 1;
    }
    assert(members@.take(members.len() as int) =~= members@);
    fields
}

/// The source of `key_fields.rs`: `get_key_fields`, which gives for each
/// kind the children that make up its key for stable pointers.
pub fn generate_key_fields_code(nodes: &Vec<Node>) -> (t: CodeTokens)
    ensures
        token_literals(t) == Some(key_fields_code(nodes@)),
{
    let mut arms = tokens_new();
    let mut i: usize = 0;
    assert(nodes@.take(0) =~= Seq::<Node>::empty());
    while i < nodes.len()
        invariant
            i <= nodes.len(),
            token_literals(arms) == Some(key_fields_arms(nodes@.take(i as int))),
        decreases nodes.len() - i,
    {
        let node = &nodes[i];
        let ghost before = token_literals(arms).unwrap();
        proof {
            assert(nodes@.take(i + 1).drop_last() =~= nodes@.take(i as int));
        }
        match &node.kind {
            NodeKind::Struct { members } | NodeKind::Terminal { members, .. } => {
                let fields = key_field_entries(members);
                tokens_append(&mut arms, SYNTAX_KIND_PATH);
                tokens_append(&mut arms, node.name.as_str());
                tokens_append(&mut arms, KEY_ARM_OPEN);
                tokens_extend(&mut arms, fields);
                tokens_append(&mut arms, KEY_ARM_CLOSE);
                assert(token_literals(arms).unwrap() =~= before + key_fields_arm(*node));
            },
            NodeKind::List { .. } | NodeKind::SeparatedList { .. } | NodeKind::Token { .. } => {
                tokens_append(&mut arms, SYNTAX_KIND_PATH);
                tokens_append(&mut arms, node.name.as_str());
                tokens_append(&mut arms, EMPTY_KEY_ARM);
                assert(token_literals(arms).unwrap() =~= before + key_fields_arm(*node));
            },
            NodeKind::Enum { .. } => {
                assert(before + key_fields_arm(*node) =~= before);
            },
        }
        i = i + 1;
    }
    assert(nodes@.take(nodes.len() as int) =~= nodes@);
    let mut tokens = tokens_new();
    tokens_append(&mut tokens, KEY_FIELDS_HEADER);
    tokens_extend(&mut tokens, arms);
    tokens_append(&mut tokens, KEY_FIELDS_TAIL);
    assert(token_literals(tokens).unwrap() =~= key_fields_code(nodes@));
    tokens
}

/// The texts `parts` with `sep` between each two consecutive ones.
pub open spec fn join(parts: Seq<Seq<char>>, sep: Seq<char>) -> Seq<char>
    decreases parts.len(),
{
    if parts.len() == 0 {
        Seq::empty()
    } else if parts.len() == 1 {
        parts[0]
    } else {
        join(parts.drop_last(), sep) + sep + parts.last()
    }
}

/// The kind paths `SyntaxKind::<name>` of `names`.
pub open spec fn kind_paths(names: Seq<Seq<char>>) -> Seq<Seq<char>> {
    names.map_values(|n: Seq<char>| SYNTAX_KIND_PATH@ + n)
}

/// The rendered alternation of the kinds `names` is their paths joined by
/// `| `: no separator before the first or after the last, one between each
/// two.
pub proof fn lemma_alternation_is_join(names: Seq<Seq<char>>)
    ensures
        concat(rust_token_list(names)) == join(kind_paths(names), ALTERNATIVE_SEPARATOR@),
    decreases names.len(),
{
    if names.len() == 0 {
        assert(kind_paths(names) =~= Seq::<Seq<char>>::empty());
    } else if names.len() == 1 {
        assert(rust_token_list(names.drop_last()) =~= Seq::<Seq<char>>::empty());
        assert(concat(rust_token_list(names).drop_last()) =~= Seq::<char>::empty());
        assert(concat(rust_token_list(names)) =~= SYNTAX_KIND_PATH@ + names[0]);
    } else {
        lemma_alternation_is_join(names.drop_last());
        assert(kind_paths(names).drop_last() =~= kind_paths(names.drop_last()));
        let prev = concat(rust_token_list(names.drop_last()));
        assert(rust_token_list(names).drop_last() == rust_token_list(names.drop_last()));
        assert(concat(rust_token_list(names)) =~= prev + (ALTERNATIVE_SEPARATOR@ + SYNTAX_KIND_PATH@
            + names.last()));
        assert(join(kind_paths(names), ALTERNATIVE_SEPARATOR@) =~= prev + ALTERNATIVE_SEPARATOR@ + (
        SYNTAX_KIND_PATH@ + names.last()));
    }
}

/// The names of the nodes that have an arm in `get_key_fields`, in order.
pub open spec fn key_arm_names(nodes: Seq<Node>) -> Seq<Seq<char>>
    decreases nodes.len(),
{
    if nodes.len() == 0 {
        Seq::empty()
    } else {
        let prev = key_arm_names(nodes.drop_last());
        if key_fields_arm(nodes.last()).len() > 0 {
            prev.push(nodes.last().name@)
        } else {
            prev
        }
    }
}

/// The match of `get_key_fields` is exhaustive and has no other arm: the
/// nodes with an arm are, in order, those with a `SyntaxKind` variant, and
/// each arm starts with the pattern `SyntaxKind::<name>`.
pub proof fn lemma_key_field_arms_are_the_kinds(nodes: Seq<Node>)
    ensures
        key_arm_names(nodes) == kind_names(nodes),
        forall|i: int|
            0 <= i < nodes.len() && #[trigger] key_fields_arm(nodes[i]).len() > 0 ==> key_fields_arm(
                nodes[i],
            )[0] == SYNTAX_KIND_PATH@ && key_fields_arm(nodes[i])[1] == nodes[i].name@,
    decreases nodes.len(),
{
    if nodes.len() > 0 {
        lemma_key_field_arms_are_the_kinds(nodes.drop_last());
        let last = nodes.last();
        assert(key_fields_arm(last).len() > 0 <==> has_syntax_kind(last.kind));
        assert forall|i: int|
            0 <= i < nodes.len() && #[trigger] key_fields_arm(nodes[i]).len() > 0 implies key_fields_arm(
                nodes[i],
            )[0] == SYNTAX_KIND_PATH@ && key_fields_arm(nodes[i])[1] == nodes[i].name@ by {
            if i < nodes.len() - 1 {
                assert(nodes.drop_last()[i] == nodes[i]);
            }
        }
    }
}

} // verus!
