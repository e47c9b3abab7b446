//! Properties that relate the generated sources to each other.

use vstd::prelude::*;

use crate::ast::{ast_code, node_code, node_codes, AST_HEADER};
use crate::blocks::{
    green_struct, ptr_block, typed_head, GREEN_SUFFIX, INTERN_DETAILS, NO_KIND, TYPED_STABLE_PTR, INTERN_OPEN, PTR_SUFFIX, SOME_KIND_CLOSE,
    SOME_KIND_OPEN, TYPED_MISSING, TYPED_OPEN, TYPED_OPTIONAL_KIND,
};
use crate::lists::{
    EOS_ELEMENT, EOS_ENUM_OPEN, EOS_SEPARATOR, EOS_SUFFIX, LIST_ARITY, LIST_ELEMENT_LIST,
    LIST_NEW_GREEN, LIST_STRUCT_OPEN, MISSING_INDENT, ONE, TWO,
};
use crate::kinds::{
    append_step, join, kind_paths, lemma_alternation_is_join, lemma_rust_token_list_items,
    rust_token_item, rust_token_list, ALTERNATIVE_SEPARATOR, EMPTY_KEY_ARM, KINDS_IS_KEYWORD_TERMINAL,
    KINDS_TAIL, KINDS_HEADER, KINDS_ENUM_OPEN, KINDS_IS_TOKEN, KINDS_IS_TERMINAL,
    KINDS_IS_KEYWORD_TOKEN, kind_variants, kinds_code, key_entry, key_field_items, key_fields_arm, key_fields_arms, key_fields_code, KEY_ARM_CLOSE,
    KEY_ARM_OPEN, KEY_FIELDS_HEADER, KEY_FIELDS_TAIL, SYNTAX_KIND_PATH,
};
use crate::spec::{
    kind_names, keyword_terminal_names, keyword_token_names, terminal_names, token_names,
    has_syntax_kind, is_keyword_terminal, is_keyword_token, is_terminal, is_token, names_where,
    Member, Node, NodeKind,
};
use crate::enums::{conversions, enum_body, enum_code, from_node_arms, is_variant_arms};
use crate::spec::Variant;
use crate::structs::{
    field_index, field_indices, key_count, key_getter, key_getters, member_args, member_getter,
    member_getters, missing_args, struct_code, struct_head, struct_ptr_getters, struct_tail,
    MISSING_CHILDREN_OPEN, STRUCT_FROM_NODE, STRUCT_FROM_NODE_CLOSE, STRUCT_FROM_NODE_EXPECTED,
    STRUCT_MISSING_INDENT, TOKEN_NEW_GREEN,
};
use crate::text::{decimal, digit_char};
use crate::tokens::concat;

verus! {

proof fn lemma_key_field_items_len(ms: Seq<Member>)
    ensures
        key_field_items(ms).len() == 5 * key_count(ms),
    decreases ms.len(),
{
    if ms.len() > 0 {
        lemma_key_field_items_len(ms.drop_last());
    }
}

proof fn lemma_key_getters_len(ms: Seq<Member>)
    ensures
        key_getters(ms).len() == 9 * key_count(ms),
    decreases ms.len(),
{
    if ms.len() > 0 {
        lemma_key_getters_len(ms.drop_last());
    }
}

proof fn lemma_key_count_prefix(ms: Seq<Member>, j: int)
    requires
        0 <= j <= ms.len(),
    ensures
        key_count(ms.take(j)) <= key_count(ms),
    decreases ms.len(),
{
    if j < ms.len() {
        lemma_key_count_prefix(ms.drop_last(), j);
        assert(ms.drop_last().take(j) =~= ms.take(j));
    } else {
        assert(ms.take(j) =~= ms);
    }
}

/// The slot of member `i` among the key members of `ms`: how many key
/// members come before it.
pub open spec fn key_slot(ms: Seq<Member>, i: int) -> int {
    key_count(ms.take(i)) as int
}

/// The key of a stable pointer lists the key children in member order: the
/// `k`-th key member, at position `i`, is `children[i]` in slot `k` of
/// `get_key_fields`, and its `<name>_green` getter on the pointer reads
/// `key_fields[k]`, the same slot.
pub proof fn lemma_key_slots_agree(ms: Seq<Member>, i: int)
    requires
        0 <= i < ms.len(),
        ms[i].key,
    ensures
        key_field_items(ms).subrange(5 * key_slot(ms, i), 5 * key_slot(ms, i) + 5) == key_entry(
            ms[i].name@,
            i as nat,
        ),
        key_getters(ms).subrange(9 * key_slot(ms, i), 9 * key_slot(ms, i) + 9) == key_getter(
            ms[i],
            key_count(ms.take(i)),
        ),
    decreases ms.len(),
{
    let k = key_slot(ms, i);
    let dl = ms.drop_last();
    if i == ms.len() - 1 {
        assert(ms.take(i) =~= dl);
        lemma_key_field_items_len(dl);
        lemma_key_getters_len(dl);
        assert(key_field_items(ms).subrange(5 * k, 5 * k + 5) =~= key_entry(
            ms[i].name@,
            i as nat,
        ));
        assert(key_getters(ms).subrange(9 * k, 9 * k + 9) =~= key_getter(ms[i], key_count(ms.take(i))));
    } else {
        assert(dl.take(i) =~= ms.take(i));
        lemma_key_slots_agree(dl, i);
        assert(dl.take(i + 1).drop_last() =~= dl.take(i));
        lemma_key_count_prefix(dl, i + 1);
        lemma_key_field_items_len(dl);
        lemma_key_getters_len(dl);
        assert(key_field_items(ms).subrange(5 * k, 5 * k + 5) =~= key_field_items(
            dl,
        ).subrange(5 * k, 5 * k + 5));
        assert(key_getters(ms).subrange(9 * k, 9 * k + 9) =~= key_getters(dl).subrange(
            9 * k,
            9 * k + 9,
        ));
    }
}

proof fn lemma_names_where_implies(
    nodes: Seq<Node>,
    p: spec_fn(NodeKind) -> bool,
    q: spec_fn(NodeKind) -> bool,
)
    requires
        forall|k: NodeKind| #[trigger] p(k) ==> q(k),
    ensures
        forall|x: Seq<char>|
            #[trigger] names_where(nodes, p).contains(x) ==> names_where(nodes, q).contains(x),
    decreases nodes.len(),
{
    if nodes.len() > 0 {
        lemma_names_where_implies(nodes.drop_last(), p, q);
        let last = nodes.last();
        let pp = names_where(nodes.drop_last(), p);
        let qq = names_where(nodes.drop_last(), q);
        assert forall|x: Seq<char>| #[trigger] names_where(nodes, p).contains(x) implies names_where(
            nodes,
            q,
        ).contains(x) by {
            vstd::seq_lib::lemma_seq_contains_after_push(pp, last.name@, x);
            vstd::seq_lib::lemma_seq_contains_after_push(qq, last.name@, x);
        }
    }
}

/// The kind predicates of `SyntaxKind` agree with each other: a keyword token
/// is a token, a keyword terminal is a terminal, and every token or terminal
/// has a `SyntaxKind` variant.
pub proof fn lemma_kind_predicates_nest(nodes: Seq<Node>)
    ensures
        forall|x: Seq<char>|
            #[trigger] keyword_token_names(nodes).contains(x)
                ==> token_names(nodes).contains(x),
        forall|x: Seq<char>|
            #[trigger] keyword_terminal_names(nodes).contains(x)
                ==> terminal_names(nodes).contains(x),
        forall|x: Seq<char>|
            #[trigger] token_names(nodes).contains(x)
                ==> kind_names(nodes).contains(x),
        forall|x: Seq<char>|
            #[trigger] terminal_names(nodes).contains(x)
                ==> kind_names(nodes).contains(x),
{
    lemma_names_where_implies(
        nodes,
        |k: NodeKind| is_keyword_token(k),
        |k: NodeKind| is_token(k),
    );
    lemma_names_where_implies(
        nodes,
        |k: NodeKind| is_keyword_terminal(k),
        |k: NodeKind| is_terminal(k),
    );
    lemma_names_where_implies(nodes, |k: NodeKind| is_token(k), |k: NodeKind| has_syntax_kind(k));
    lemma_names_where_implies(
        nodes,
        |k: NodeKind| is_terminal(k),
        |k: NodeKind| has_syntax_kind(k),
    );
}

/// The value of a decimal digit character.
pub open spec fn digit_value(c: char) -> nat {
    if c == '0' {
        0
    } else if c == '1' {
        1
    } else if c == '2' {
        2
    } else if c == '3' {
        3
    } else if c == '4' {
        4
    } else if c == '5' {
        5
    } else if c == '6' {
        6
    } else if c == '7' {
        7
    } else if c == '8' {
        8
    } else {
        9
    }
}

/// The number a decimal numeral denotes.
pub open spec fn numeral_value(s: Seq<char>) -> nat
    decreases s.len(),
{
    if s.len() == 0 {
        0
    } else {
        numeral_value(s.drop_last()) * 10 + digit_value(s.last())
    }
}

/// The numerals written for child positions and key slots denote those
/// numbers.
pub proof fn lemma_decimal_value(n: nat)
    ensures
        numeral_value(decimal(n)) == n,
    decreases n,
{
    if n >= 10 {
        lemma_decimal_value(n / 10);
        let d = decimal(n);
        assert(d.drop_last() =~= decimal(n / 10));
        assert(d.last() == digit_char(n % 10));
        assert(digit_value(digit_char(n % 10)) == n % 10);
        assert(numeral_value(d) == numeral_value(decimal(n / 10)) * 10 + n % 10);
        assert((n / 10) * 10 + n % 10 == n);
    } else {
        let d = decimal(n);
        assert(d.drop_last() =~= Seq::<char>::empty());
        assert(numeral_value(d.drop_last()) == 0);
        assert(digit_value(digit_char(n)) == n);
    }
}

/// Member `i` of a struct sits at position `i` everywhere the generated code
/// lists children: it is the `i`-th argument of `new_green`, the `i`-th child
/// of the missing node, and its getter reads `children[i]`.
pub proof fn lemma_children_positions_agree(ms: Seq<Member>, i: int)
    requires
        0 <= i < ms.len(),
    ensures
        member_args(ms).len() == 2 * ms.len(),
        member_args(ms)[2 * i] == ms[i].name@,
        missing_args(ms).len() == 2 * ms.len(),
        missing_args(ms)[2 * i] == ms[i].kind@,
        member_getters(ms).len() == 9 * ms.len(),
        member_getters(ms).subrange(9 * i, 9 * i + 9) == member_getter(ms[i], i as nat),
    decreases ms.len(),
{
    let dl = ms.drop_last();
    if i < ms.len() - 1 {
        lemma_children_positions_agree(dl, i);
        assert(member_getters(ms).subrange(9 * i, 9 * i + 9) =~= member_getters(dl).subrange(
            9 * i,
            9 * i + 9,
        ));
    } else if dl.len() > 0 {
        lemma_children_positions_agree(dl, 0);
        assert(member_getters(ms).subrange(9 * i, 9 * i + 9) =~= member_getter(ms[i], i as nat));
    } else {
        assert(member_args(dl) =~= Seq::<Seq<char>>::empty());
        assert(missing_args(dl) =~= Seq::<Seq<char>>::empty());
        assert(member_getters(dl) =~= Seq::<Seq<char>>::empty());
        assert(member_getters(ms).subrange(9 * i, 9 * i + 9) =~= member_getter(ms[i], i as nat));
    }
}

/// Variant `j` of an enum is named and typed alike in the enum, in
/// `from_syntax_node` (which converts nodes of its kind into it) and in
/// `is_variant` (which holds of its kind): `is_variant` holds of exactly the
/// kinds that `from_syntax_node` converts.
pub proof fn lemma_variant_arms_agree(name: Seq<char>, vs: Seq<Variant>, j: int)
    requires
        0 <= j < vs.len(),
    ensures
        enum_body(vs).len() == 5 * vs.len(),
        from_node_arms(name, vs).len() == 9 * vs.len(),
        is_variant_arms(vs).len() == 3 * vs.len(),
        enum_body(vs)[5 * j + 1] == vs[j].name@,
        enum_body(vs)[5 * j + 3] == vs[j].kind@,
        from_node_arms(name, vs)[9 * j + 1] == vs[j].kind@,
        from_node_arms(name, vs)[9 * j + 5] == vs[j].name@,
        is_variant_arms(vs)[3 * j + 1] == vs[j].kind@,
    decreases vs.len(),
{
    let dl = vs.drop_last();
    if j < vs.len() - 1 {
        lemma_variant_arms_agree(name, dl, j);
    } else if dl.len() > 0 {
        lemma_variant_arms_agree(name, dl, 0);
    } else {
        assert(enum_body(dl) =~= Seq::<Seq<char>>::empty());
        assert(from_node_arms(name, dl) =~= Seq::<Seq<char>>::empty());
        assert(is_variant_arms(dl) =~= Seq::<Seq<char>>::empty());
    }
}

/// The children of a struct or terminal node; none for other shapes.
pub open spec fn node_members(node: Node) -> Seq<Member> {
    match node.kind {
        NodeKind::Struct { members } => members@,
        NodeKind::Terminal { members, .. } => members@,
        _ => Seq::empty(),
    }
}

proof fn lemma_key_fields_arms_append(a: Seq<Node>, b: Seq<Node>)
    ensures
        key_fields_arms(a + b) == key_fields_arms(a) + key_fields_arms(b),
    decreases b.len(),
{
    if b.len() == 0 {
        assert(a + b =~= a);
        assert(key_fields_arms(a) + key_fields_arms(b) =~= key_fields_arms(a));
    } else {
        lemma_key_fields_arms_append(a, b.drop_last());
        assert((a + b).drop_last() =~= a + b.drop_last());
        assert(key_fields_arms(a + b) =~= key_fields_arms(a) + key_fields_arms(b));
    }
}

proof fn lemma_node_codes_append(a: Seq<Node>, b: Seq<Node>)
    ensures
        node_codes(a + b) == node_codes(a) + node_codes(b),
    decreases b.len(),
{
    if b.len() == 0 {
        assert(a + b =~= a);
        assert(node_codes(a) + node_codes(b) =~= node_codes(a));
    } else {
        lemma_node_codes_append(a, b.drop_last());
        assert((a + b).drop_last() =~= a + b.drop_last());
        assert(node_codes(a + b) =~= node_codes(a) + node_codes(b));
    }
}

proof fn lemma_field_indices_position(ms: Seq<Member>, i: int)
    requires
        0 <= i < ms.len(),
    ensures
        field_indices(ms).len() == 5 * ms.len(),
        field_indices(ms).subrange(5 * i, 5 * i + 5) == field_index(ms[i], i as nat),
    decreases ms.len(),
{
    let dl = ms.drop_last();
    if i < ms.len() - 1 {
        lemma_field_indices_position(dl, i);
        assert(field_indices(ms).subrange(5 * i, 5 * i + 5) =~= field_indices(dl).subrange(
            5 * i,
            5 * i + 5,
        ));
    } else {
        if dl.len() > 0 {
            lemma_field_indices_position(dl, 0);
        } else {
            assert(field_indices(dl) =~= Seq::<Seq<char>>::empty());
        }
        assert(field_indices(ms).subrange(5 * i, 5 * i + 5) =~= field_index(ms[i], i as nat));
    }
}

proof fn lemma_key_fields_code_split(nodes: Seq<Node>, p: int)
    requires
        0 <= p < nodes.len(),
    ensures
        key_fields_code(nodes) == seq![KEY_FIELDS_HEADER@] + key_fields_arms(nodes.take(p))
            + key_fields_arm(nodes[p]) + key_fields_arms(nodes.skip(p + 1)) + seq![KEY_FIELDS_TAIL@],
{
    let node = nodes[p];
    assert(nodes =~= nodes.take(p) + seq![node] + nodes.skip(p + 1));
    lemma_key_fields_arms_append(nodes.take(p) + seq![node], nodes.skip(p + 1));
    lemma_key_fields_arms_append(nodes.take(p), seq![node]);
    assert(seq![node].drop_last() =~= Seq::<Node>::empty());
    assert(seq![node].last() == node);
    assert(key_fields_arms(Seq::<Node>::empty()) =~= Seq::<Seq<char>>::empty());
    assert(key_fields_arms(seq![node]) =~= key_fields_arm(node));
    assert(key_fields_code(nodes) =~= seq![KEY_FIELDS_HEADER@] + key_fields_arms(nodes.take(p))
        + key_fields_arm(nodes[p]) + key_fields_arms(nodes.skip(p + 1)) + seq![KEY_FIELDS_TAIL@]);
}

proof fn lemma_ast_code_split(nodes: Seq<Node>, p: int)
    requires
        0 <= p < nodes.len(),
    ensures
        ast_code(nodes) == seq![AST_HEADER@] + node_codes(nodes.take(p)) + node_code(nodes[p])
            + node_codes(nodes.skip(p + 1)),
{
    let node = nodes[p];
    assert(nodes =~= nodes.take(p) + seq![node] + nodes.skip(p + 1));
    lemma_node_codes_append(nodes.take(p) + seq![node], nodes.skip(p + 1));
    lemma_node_codes_append(nodes.take(p), seq![node]);
    assert(seq![node].drop_last() =~= Seq::<Node>::empty());
    assert(seq![node].last() == node);
    assert(node_codes(Seq::<Node>::empty()) =~= Seq::<Seq<char>>::empty());
    assert(node_codes(seq![node]) =~= node_code(node));
    assert(ast_code(nodes) =~= seq![AST_HEADER@] + node_codes(nodes.take(p)) + node_code(nodes[p])
        + node_codes(nodes.skip(p + 1)));
}

proof fn lemma_key_slot_of_member(ms: Seq<Member>, j: int)
    requires
        0 <= j < ms.len(),
        ms[j].key,
    ensures
        key_field_items(ms).subrange(5 * key_slot(ms, j), 5 * key_slot(ms, j) + 5) == key_entry(
            ms[j].name@,
            j as nat,
        ),
        struct_ptr_getters(ms).subrange(9 * key_slot(ms, j), 9 * key_slot(ms, j) + 9)
            == key_getter(ms[j], key_count(ms.take(j))),
        field_indices(ms).subrange(5 * j, 5 * j + 5) == field_index(ms[j], j as nat),
{
    let slot = key_slot(ms, j);
    lemma_key_slots_agree(ms, j);
    lemma_key_getters_len(ms);
    assert(key_count(ms.take(j + 1)) == key_count(ms.take(j)) + 1) by {
        assert(ms.take(j + 1).drop_last() =~= ms.take(j));
    }
    lemma_key_count_prefix(ms, j + 1);
    assert(struct_ptr_getters(ms).subrange(9 * slot, 9 * slot + 9) =~= key_getters(ms).subrange(
        9 * slot,
        9 * slot + 9,
    ));
    lemma_field_indices_position(ms, j);
}

/// In the generated sources, key child `j` of the struct or terminal node `p`
/// is found the same way on both sides of a stable pointer: the arm of node
/// `p` in `key_fields.rs` lists the node's key entries, whose slot
/// `key_slot(ms, j)` is `children[j]`; the node's wrapper in `ast.rs` has the
/// pointer getter `<name>_green` reading `key_fields[key_slot(ms, j)]`; and,
/// for a struct, its `INDEX_<NAME>` constant is `j`.
pub proof fn lemma_key_slot_in_sources(nodes: Seq<Node>, p: int, j: int)
    requires
        0 <= p < nodes.len(),
        nodes[p].kind is Struct || nodes[p].kind is Terminal,
        0 <= j < node_members(nodes[p]).len(),
        node_members(nodes[p])[j].key,
    ensures
        ({
            let node = nodes[p];
            let ms = node_members(node);
            let slot = key_slot(ms, j);
            &&& key_fields_code(nodes) == seq![KEY_FIELDS_HEADER@] + key_fields_arms(nodes.take(p))
                + seq![SYNTAX_KIND_PATH@, node.name@, KEY_ARM_OPEN@] + key_field_items(ms) + seq![
                KEY_ARM_CLOSE@,
            ] + key_fields_arms(nodes.skip(p + 1)) + seq![KEY_FIELDS_TAIL@]
            &&& key_field_items(ms).subrange(5 * slot, 5 * slot + 5) == key_entry(
                ms[j].name@,
                j as nat,
            )
            &&& ast_code(nodes) == seq![AST_HEADER@] + node_codes(nodes.take(p)) + struct_head(
                node.name@,
                ms,
                node.kind is Terminal,
            ) + ptr_block(node.name@, node.name@ + PTR_SUFFIX@, struct_ptr_getters(ms))
                + struct_tail(node.name@, ms) + node_codes(nodes.skip(p + 1))
            &&& struct_ptr_getters(ms).subrange(9 * slot, 9 * slot + 9) == key_getter(
                ms[j],
                key_count(ms.take(j)),
            )
            &&& field_indices(ms).subrange(5 * j, 5 * j + 5) == field_index(ms[j], j as nat)
        }),
{
    let node = nodes[p];
    let ms = node_members(node);
    lemma_key_fields_code_split(nodes, p);
    lemma_ast_code_split(nodes, p);
    lemma_key_slot_of_member(ms, j);
    assert(key_fields_arm(node) =~= seq![SYNTAX_KIND_PATH@, node.name@, KEY_ARM_OPEN@]
        + key_field_items(ms) + seq![KEY_ARM_CLOSE@]);
    assert(node_code(node) == struct_code(node.name@, ms, node.kind is Terminal));
}

/// The items of an alternation that starts empty and gets one
/// `append_rust_token` call for each of `names`, in order: each call takes
/// the items to `append_step(items, name)`.
pub open spec fn appended(names: Seq<Seq<char>>) -> Seq<Seq<char>>
    decreases names.len(),
{
    if names.len() == 0 {
        Seq::empty()
    } else {
        append_step(appended(names.drop_last()), names.last())
    }
}

/// After `append_rust_token` has been called on an empty stream once for
/// each of `names`, in order, the stream renders as the kind paths
/// `SyntaxKind::<name>` joined by `| `: no separator before the first or
/// after the last, and one between each two.
pub proof fn lemma_appends_render_join(names: Seq<Seq<char>>)
    ensures
        appended(names) == rust_token_list(names),
        concat(appended(names)) == join(kind_paths(names), ALTERNATIVE_SEPARATOR@),
    decreases names.len(),
{
    if names.len() > 0 {
        lemma_appends_render_join(names.drop_last());
        lemma_rust_token_list_items(names.drop_last());
    }
    lemma_alternation_is_join(names);
}


/// `run` occurs in `items` as one unbroken stretch.
pub open spec fn has_run(items: Seq<Seq<char>>, run: Seq<Seq<char>>) -> bool {
    exists|k: int|
        0 <= k && k + run.len() <= items.len() && #[trigger] items.subrange(k, k + run.len())
            == run
}

proof fn lemma_run_at(items: Seq<Seq<char>>, run: Seq<Seq<char>>, k: int)
    requires
        0 <= k,
        k + run.len() <= items.len(),
        items.subrange(k, k + run.len()) == run,
    ensures
        has_run(items, run),
{
}

/// `impl TypedSyntaxNode for <name> { const OPTIONAL_KIND: Option<SyntaxKind> =
/// Some(SyntaxKind::<name>)`.
pub open spec fn optional_kind_of(name: Seq<char>) -> Seq<Seq<char>> {
    seq![TYPED_OPEN@, name, TYPED_OPTIONAL_KIND@, SOME_KIND_OPEN@, name, SOME_KIND_CLOSE@]
}

/// `ast.rs` is its imports followed by the wrapper of each node, in order:
/// the wrapper of node `p` stands between those of the nodes before it and
/// those of the nodes after it.
pub proof fn lemma_ast_holds_each_wrapper(nodes: Seq<Node>, p: int)
    requires
        0 <= p < nodes.len(),
    ensures
        ast_code(nodes) == seq![AST_HEADER@] + node_codes(nodes.take(p)) + node_code(nodes[p])
            + node_codes(nodes.skip(p + 1)),
{
    lemma_ast_code_split(nodes, p);
}

/// The wrapper of a list node `N` of elements `E` is a list of arity one,
/// `pub struct N(ElementList<E,1>)`, whose `new_green` takes the elements'
/// green ids `EGreen`, and whose `TypedSyntaxNode` impl has the kind
/// `Some(SyntaxKind::N)`.
pub proof fn lemma_list_wrapper(node: Node)
    requires
        node.kind is List,
    ensures
        ({
            let code = node_code(node);
            let name = node.name@;
            let element = node.kind->List_element_type@;
            &&& code.take(6) == seq![
                LIST_STRUCT_OPEN@,
                name,
                LIST_ELEMENT_LIST@,
                element,
                LIST_ARITY@,
                ONE@,
            ]
            &&& code.subrange(14, 16) == seq![LIST_NEW_GREEN@, element + GREEN_SUFFIX@]
            &&& has_run(code, optional_kind_of(name))
        }),
{
    let code = node_code(node);
    let name = node.name@;
    let element = node.kind->List_element_type@;
    assert(code.take(6) =~= seq![
        LIST_STRUCT_OPEN@,
        name,
        LIST_ELEMENT_LIST@,
        element,
        LIST_ARITY@,
        ONE@,
    ]);
    assert(code.subrange(14, 16) =~= seq![LIST_NEW_GREEN@, element + GREEN_SUFFIX@]);
    assert(code.subrange(43, 49) =~= optional_kind_of(name));
    lemma_run_at(code, optional_kind_of(name), 43);
}

/// The wrapper of a separated-list node `N` of elements `E` separated by `S`
/// is a list of arity two, `pub struct N(ElementList<E,2>)`, whose
/// `new_green` takes `NElementOrSeparatorGreen` children; that enum is
/// emitted with its `Separator` variant holding `SGreen` and its `Element`
/// variant holding `EGreen`; and the `TypedSyntaxNode` impl has the kind
/// `Some(SyntaxKind::N)`.
pub proof fn lemma_separated_list_wrapper(node: Node)
    requires
        node.kind is SeparatedList,
    ensures
        ({
            let code = node_code(node);
            let name = node.name@;
            let element = node.kind->SeparatedList_element_type@;
            let separator = node.kind->separator_type@;
            &&& code.take(6) == seq![
                LIST_STRUCT_OPEN@,
                name,
                LIST_ELEMENT_LIST@,
                element,
                LIST_ARITY@,
                TWO@,
            ]
            &&& code.subrange(14, 16) == seq![LIST_NEW_GREEN@, name + EOS_SUFFIX@]
            &&& has_run(
                code,
                seq![
                    EOS_ENUM_OPEN@,
                    name + EOS_SUFFIX@,
                    EOS_SEPARATOR@,
                    separator + GREEN_SUFFIX@,
                    EOS_ELEMENT@,
                    element + GREEN_SUFFIX@,
                ],
            )
            &&& has_run(code, optional_kind_of(name))
        }),
{
    let code = node_code(node);
    let name = node.name@;
    let element = node.kind->SeparatedList_element_type@;
    let separator = node.kind->separator_type@;
    let eos_run = seq![
        EOS_ENUM_OPEN@,
        name + EOS_SUFFIX@,
        EOS_SEPARATOR@,
        separator + GREEN_SUFFIX@,
        EOS_ELEMENT@,
        element + GREEN_SUFFIX@,
    ];
    assert(code.take(6) =~= seq![
        LIST_STRUCT_OPEN@,
        name,
        LIST_ELEMENT_LIST@,
        element,
        LIST_ARITY@,
        TWO@,
    ]);
    assert(code.subrange(14, 16) =~= seq![LIST_NEW_GREEN@, name + EOS_SUFFIX@]);
    assert(code.subrange(40, 46) =~= eos_run);
    lemma_run_at(code, eos_run, 40);
    assert(code.subrange(72, 78) =~= optional_kind_of(name));
    lemma_run_at(code, optional_kind_of(name), 72);
}

/// In the wrapper of a struct or terminal node `N`, the `TypedSyntaxNode`
/// impl has the kind `Some(SyntaxKind::N)`; `missing` interns a green node
/// `NGreen` of kind `SyntaxKind::N` whose children are the members' missing
/// nodes; and `from_syntax_node` asserts that the node's kind is
/// `SyntaxKind::N`.
pub proof fn lemma_struct_wrapper_kinds(node: Node)
    requires
        node.kind is Struct || node.kind is Terminal,
    ensures
        ({
            let code = node_code(node);
            let name = node.name@;
            &&& has_run(code, optional_kind_of(name))
            &&& has_run(
                code,
                seq![
                    TYPED_MISSING@,
                    STRUCT_MISSING_INDENT@,
                    name + GREEN_SUFFIX@,
                    INTERN_OPEN@,
                    name,
                    INTERN_DETAILS@,
                    MISSING_CHILDREN_OPEN@,
                ],
            )
            &&& has_run(
                code,
                seq![
                    STRUCT_FROM_NODE@,
                    name,
                    STRUCT_FROM_NODE_EXPECTED@,
                    name,
                    STRUCT_FROM_NODE_CLOSE@,
                ],
            )
        }),
{
    let code = node_code(node);
    let name = node.name@;
    let ms = node_members(node);
    assert(code == struct_code(name, ms, node.kind is Terminal));
    let head = struct_head(name, ms, node.kind is Terminal) + ptr_block(
        name,
        name + PTR_SUFFIX@,
        struct_ptr_getters(ms),
    );
    let tail = struct_tail(name, ms);
    assert(code =~= head + tail);
    let h = head.len() as int;
    let missing_run = seq![
        TYPED_MISSING@,
        STRUCT_MISSING_INDENT@,
        name + GREEN_SUFFIX@,
        INTERN_OPEN@,
        name,
        INTERN_DETAILS@,
        MISSING_CHILDREN_OPEN@,
    ];
    let from_run = seq![
        STRUCT_FROM_NODE@,
        name,
        STRUCT_FROM_NODE_EXPECTED@,
        name,
        STRUCT_FROM_NODE_CLOSE@,
    ];
    let m = missing_args(ms).len() as int;
    assert(code.subrange(h + 3, h + 9) =~= optional_kind_of(name));
    lemma_run_at(code, optional_kind_of(name), h + 3);
    assert(code.subrange(h + 13, h + 20) =~= missing_run);
    lemma_run_at(code, missing_run, h + 13);
    assert(code.subrange(h + 22 + m, h + 27 + m) =~= from_run);
    lemma_run_at(code, from_run, h + 22 + m);
}

/// A list, separated-list or token node has no key children: its arm of
/// `get_key_fields` is `SyntaxKind::N => vec![],`, in its place among the
/// arms of the other nodes.
pub proof fn lemma_keyless_arm(nodes: Seq<Node>, p: int)
    requires
        0 <= p < nodes.len(),
        nodes[p].kind is List || nodes[p].kind is SeparatedList || nodes[p].kind is Token,
    ensures
        key_fields_code(nodes) == seq![KEY_FIELDS_HEADER@] + key_fields_arms(nodes.take(p))
            + seq![SYNTAX_KIND_PATH@, nodes[p].name@, EMPTY_KEY_ARM@] + key_fields_arms(
            nodes.skip(p + 1),
        ) + seq![KEY_FIELDS_TAIL@],
{
    lemma_key_fields_code_split(nodes, p);
}

/// An enum node has no `SyntaxKind` of its own, and no arm of
/// `get_key_fields`: the arms of the nodes before and after it meet.
pub proof fn lemma_enum_has_no_arm(nodes: Seq<Node>, p: int)
    requires
        0 <= p < nodes.len(),
        nodes[p].kind is Enum,
    ensures
        key_fields_code(nodes) == seq![KEY_FIELDS_HEADER@] + key_fields_arms(nodes.take(p))
            + key_fields_arms(nodes.skip(p + 1)) + seq![KEY_FIELDS_TAIL@],
{
    lemma_key_fields_code_split(nodes, p);
    assert(key_fields_arm(nodes[p]) =~= Seq::<Seq<char>>::empty());
    assert(key_fields_arms(nodes.take(p)) + key_fields_arm(nodes[p]) =~= key_fields_arms(
        nodes.take(p),
    ));
}

proof fn lemma_names_where_source(nodes: Seq<Node>, p: spec_fn(NodeKind) -> bool, i: int) -> (q:
    int)
    requires
        0 <= i < names_where(nodes, p).len(),
    ensures
        0 <= q < nodes.len(),
        p(nodes[q].kind),
        names_where(nodes, p)[i] == nodes[q].name@,
    decreases nodes.len(),
{
    let dl = nodes.drop_last();
    let prev = names_where(dl, p);
    if i < prev.len() {
        let q = lemma_names_where_source(dl, p, i);
        assert(nodes[q] == dl[q]);
        q
    } else {
        (nodes.len() - 1) as int
    }
}

proof fn lemma_names_where_lists(nodes: Seq<Node>, p: spec_fn(NodeKind) -> bool, q: int)
    requires
        0 <= q < nodes.len(),
        p(nodes[q].kind),
    ensures
        names_where(nodes, p).contains(nodes[q].name@),
    decreases nodes.len(),
{
    let dl = nodes.drop_last();
    let prev = names_where(dl, p);
    let cur = names_where(nodes, p);
    if q < dl.len() {
        assert(dl[q] == nodes[q]);
        lemma_names_where_lists(dl, p, q);
        vstd::seq_lib::lemma_seq_contains_after_push(prev, nodes.last().name@, nodes[q].name@);
    } else {
        assert(cur[cur.len() - 1] == nodes[q].name@);
    }
}

/// `item` names, as the first item of an alternation or as a later one, a
/// terminal node of `nodes` whose `is_keyword` holds.
pub open spec fn names_keyword_terminal(nodes: Seq<Node>, item: Seq<char>, first: bool) -> bool {
    exists|q: int|
        0 <= q < nodes.len() && (#[trigger] nodes[q].kind matches NodeKind::Terminal {
            is_keyword,
            ..
        } && is_keyword) && item == rust_token_item(first, nodes[q].name@)
}

/// The number of keyword terminals among `nodes`.
pub open spec fn keyword_terminal_count(nodes: Seq<Node>) -> nat
    decreases nodes.len(),
{
    if nodes.len() == 0 {
        0
    } else {
        keyword_terminal_count(nodes.drop_last()) + if nodes.last().kind matches NodeKind::Terminal {
            is_keyword,
            ..
        } && is_keyword {
            1nat
        } else {
            0nat
        }
    }
}

proof fn lemma_keyword_terminal_count(nodes: Seq<Node>)
    ensures
        keyword_terminal_names(nodes).len() == keyword_terminal_count(nodes),
    decreases nodes.len(),
{
    if nodes.len() > 0 {
        lemma_keyword_terminal_count(nodes.drop_last());
    }
}

/// `is_keyword_terminal` in `kind.rs` matches exactly the keyword terminals:
/// its alternation, the last one before the tail of the file, has one item
/// per keyword terminal, each item names a terminal node whose `is_keyword`
/// holds (the first alone, the others after a `|`), and every such terminal
/// is named there.
pub proof fn lemma_keyword_terminal_alternation(nodes: Seq<Node>)
    ensures
        ({
            let code = kinds_code(nodes);
            let n = keyword_terminal_count(nodes) as int;
            let alternation = code.subrange(code.len() - 1 - n, code.len() - 1);
            &&& code.len() >= n + 2
            &&& code.last() == KINDS_TAIL@
            &&& code[code.len() - 2 - n] == KINDS_IS_KEYWORD_TERMINAL@
            &&& forall|i: int|
                0 <= i < n ==> names_keyword_terminal(nodes, #[trigger] alternation[i], i == 0)
            &&& forall|q: int|
                0 <= q < nodes.len() && (#[trigger] nodes[q].kind matches NodeKind::Terminal {
                    is_keyword,
                    ..
                } && is_keyword) ==> exists|i: int|
                    0 <= i < n && alternation[i] == rust_token_item(i == 0, nodes[q].name@)
        }),
{
    let code = kinds_code(nodes);
    let names = keyword_terminal_names(nodes);
    let n = keyword_terminal_count(nodes) as int;
    lemma_keyword_terminal_count(nodes);
    lemma_rust_token_list_items(names);
    let list = rust_token_list(names);
    let front = seq![KINDS_HEADER@, KINDS_ENUM_OPEN@] + kind_variants(kind_names(nodes)) + seq![
        KINDS_IS_TOKEN@,
    ] + rust_token_list(token_names(nodes)) + seq![KINDS_IS_TERMINAL@] + rust_token_list(
        terminal_names(nodes),
    ) + seq![KINDS_IS_KEYWORD_TOKEN@] + rust_token_list(keyword_token_names(nodes)) + seq![
        KINDS_IS_KEYWORD_TERMINAL@,
    ];
    assert(code =~= front + list + seq![KINDS_TAIL@]);
    let alternation = code.subrange(code.len() - 1 - n, code.len() - 1);
    assert(alternation =~= list);
    assert forall|i: int| 0 <= i < n implies names_keyword_terminal(
        nodes,
        #[trigger] alternation[i],
        i == 0,
    ) by {
        assert(alternation[i] == rust_token_item(i == 0, names[i]));
        let q = lemma_names_where_source(nodes, |k: NodeKind| is_keyword_terminal(k), i);
        assert(is_keyword_terminal(nodes[q].kind));
    }
    assert forall|q: int|
        0 <= q < nodes.len() && (#[trigger] nodes[q].kind matches NodeKind::Terminal {
            is_keyword,
            ..
        } && is_keyword) implies exists|i: int|
        0 <= i < n && alternation[i] == rust_token_item(i == 0, nodes[q].name@) by {
        assert(is_keyword_terminal(nodes[q].kind));
        lemma_names_where_lists(nodes, |k: NodeKind| is_keyword_terminal(k), q);
        assert(names.contains(nodes[q].name@));
        let i = choose|i: int| 0 <= i < names.len() && names[i] == nodes[q].name@;
        assert(alternation[i] == rust_token_item(i == 0, names[i]));
    }
}


/// `x` is the name of a node of `nodes` whose kind satisfies `p`.
pub open spec fn names_node_where(nodes: Seq<Node>, x: Seq<char>, p: spec_fn(NodeKind) -> bool) -> bool {
    exists|q: int| 0 <= q < nodes.len() && p(#[trigger] nodes[q].kind) && nodes[q].name@ == x
}

/// `names` lists the nodes of `nodes` whose kind satisfies `p`: each entry is
/// the name of such a node, and each such node is listed.
pub open spec fn lists_nodes_where(
    names: Seq<Seq<char>>,
    nodes: Seq<Node>,
    p: spec_fn(NodeKind) -> bool,
) -> bool {
    &&& forall|i: int| 0 <= i < names.len() ==> names_node_where(nodes, #[trigger] names[i], p)
    &&& forall|q: int|
        0 <= q < nodes.len() && p(#[trigger] nodes[q].kind) ==> names.contains(nodes[q].name@)
}

proof fn lemma_names_where_lists_nodes(nodes: Seq<Node>, p: spec_fn(NodeKind) -> bool)
    ensures
        lists_nodes_where(names_where(nodes, p), nodes, p),
{
    let names = names_where(nodes, p);
    assert forall|i: int| 0 <= i < names.len() implies names_node_where(
        nodes,
        #[trigger] names[i],
        p,
    ) by {
        let q = lemma_names_where_source(nodes, p, i);
        assert(p(nodes[q].kind));
    }
    assert forall|q: int| 0 <= q < nodes.len() && p(#[trigger] nodes[q].kind) implies names.contains(
        nodes[q].name@,
    ) by {
        lemma_names_where_lists(nodes, p, q);
    }
}

/// `kind.rs` is, in order: the `SyntaxKind` enum, with a variant for every
/// node that is not an enum; `is_token`, matching the token nodes;
/// `is_terminal`, matching the terminal nodes; `is_keyword_token`, matching
/// the tokens whose `is_keyword` holds; and `is_keyword_terminal`, matching
/// the terminals whose `is_keyword` holds. Each list names exactly those
/// nodes, in the order of `nodes`.
pub proof fn lemma_kind_rs_lists(nodes: Seq<Node>)
    ensures
        kinds_code(nodes) == seq![KINDS_HEADER@, KINDS_ENUM_OPEN@] + kind_variants(
            kind_names(nodes),
        ) + seq![KINDS_IS_TOKEN@] + rust_token_list(token_names(nodes)) + seq![
            KINDS_IS_TERMINAL@,
        ] + rust_token_list(terminal_names(nodes)) + seq![KINDS_IS_KEYWORD_TOKEN@]
            + rust_token_list(keyword_token_names(nodes)) + seq![KINDS_IS_KEYWORD_TERMINAL@]
            + rust_token_list(keyword_terminal_names(nodes)) + seq![KINDS_TAIL@],
        lists_nodes_where(kind_names(nodes), nodes, |k: NodeKind| !(k is Enum)),
        lists_nodes_where(token_names(nodes), nodes, |k: NodeKind| k is Token),
        lists_nodes_where(terminal_names(nodes), nodes, |k: NodeKind| k is Terminal),
        lists_nodes_where(
            keyword_token_names(nodes),
            nodes,
            |k: NodeKind| k matches NodeKind::Token { is_keyword } && is_keyword,
        ),
        lists_nodes_where(
            keyword_terminal_names(nodes),
            nodes,
            |k: NodeKind| k matches NodeKind::Terminal { is_keyword, .. } && is_keyword,
        ),
{
    let p0 = |k: NodeKind| has_syntax_kind(k);
    let p1 = |k: NodeKind| is_token(k);
    let p2 = |k: NodeKind| is_terminal(k);
    let p3 = |k: NodeKind| is_keyword_token(k);
    let p4 = |k: NodeKind| is_keyword_terminal(k);
    lemma_names_where_lists_nodes(nodes, p0);
    lemma_names_where_lists_nodes(nodes, p1);
    lemma_names_where_lists_nodes(nodes, p2);
    lemma_names_where_lists_nodes(nodes, p3);
    lemma_names_where_lists_nodes(nodes, p4);
    assert(p0 =~= |k: NodeKind| !(k is Enum));
    assert(p1 =~= |k: NodeKind| k is Token);
    assert(p2 =~= |k: NodeKind| k is Terminal);
    assert(p3 =~= |k: NodeKind| k matches NodeKind::Token { is_keyword } && is_keyword);
    assert(p4 =~= |k: NodeKind| k matches NodeKind::Terminal { is_keyword, .. } && is_keyword);
}


/// The wrapper of a token node `N`: `new_green` interns a green node
/// `NGreen` of kind `SyntaxKind::N`, and the `TypedSyntaxNode` impl has the
/// kind `Some(SyntaxKind::N)`.
pub proof fn lemma_token_wrapper(node: Node)
    requires
        node.kind is Token,
    ensures
        ({
            let code = node_code(node);
            let name = node.name@;
            &&& code.subrange(4, 8) == seq![
                TOKEN_NEW_GREEN@,
                name + GREEN_SUFFIX@,
                INTERN_OPEN@,
                name,
            ]
            &&& has_run(code, optional_kind_of(name))
        }),
{
    let code = node_code(node);
    let name = node.name@;
    assert(code.subrange(4, 8) =~= seq![TOKEN_NEW_GREEN@, name + GREEN_SUFFIX@, INTERN_OPEN@, name]);
    assert(code.subrange(28, 34) =~= optional_kind_of(name));
    lemma_run_at(code, optional_kind_of(name), 28);
}

/// Every wrapper's `TypedSyntaxNode` impl states the node's kind: an enum,
/// which has no `SyntaxKind` of its own, has `OPTIONAL_KIND` `None`; every
/// other node `N` has `Some(SyntaxKind::N)`.
pub proof fn lemma_optional_kind_by_shape(node: Node)
    ensures
        node.kind is Enum ==> has_run(
            node_code(node),
            seq![TYPED_OPEN@, node.name@, TYPED_OPTIONAL_KIND@, NO_KIND@, TYPED_STABLE_PTR@],
        ),
        !(node.kind is Enum) ==> has_run(node_code(node), optional_kind_of(node.name@)),
{
    let name = node.name@;
    match node.kind {
        NodeKind::Enum { variants, missing_variant } => {
            let code = node_code(node);
            let vs = variants@;
            let ptr = name + PTR_SUFFIX@;
            let green = name + GREEN_SUFFIX@;
            let run = seq![TYPED_OPEN@, name, TYPED_OPTIONAL_KIND@, NO_KIND@, TYPED_STABLE_PTR@];
            let front = seq![crate::enums::ENUM_OPEN@, name, crate::enums::ENUM_BODY_OPEN@]
                + enum_body(vs) + seq![crate::enums::ENUM_BODY_CLOSE@] + ptr_block(
                name,
                ptr,
                Seq::empty(),
            ) + conversions(ptr, PTR_SUFFIX@, vs) + conversions(green, GREEN_SUFFIX@, vs)
                + green_struct(green);
            let f = front.len() as int;
            assert(code == enum_code(name, vs, missing_variant));
            assert(code.subrange(f, f + 5) =~= run);
            lemma_run_at(code, run, f);
        },
        NodeKind::Struct { .. } => {
            lemma_struct_wrapper_kinds(node);
        },
        NodeKind::Terminal { .. } => {
            lemma_struct_wrapper_kinds(node);
        },
        NodeKind::Token { .. } => {
            lemma_token_wrapper(node);
        },
        NodeKind::List { .. } => {
            lemma_list_wrapper(node);
        },
        NodeKind::SeparatedList { .. } => {
            lemma_separated_list_wrapper(node);
        },
    }
}

} // verus!
