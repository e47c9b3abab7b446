//! Typed wrappers of token nodes and of struct and terminal nodes.

use vstd::prelude::*;

use crate::blocks::{
    emit, emit_green_struct, emit_intern_green, emit_ptr_block, emit_tokens, emit_typed_head,
    emit_typed_tail, green_struct, intern_green, literal_tokens, ptr_block, some_kind,
    typed_head, typed_tail, FN_IMPL_CLOSE, GREEN_SUFFIX, PTR_SUFFIX,
};
use crate::lists::{LIST_STRUCT_OPEN, MISSING_INDENT};
use crate::spec::Member;
use crate::text::{
    decimal, decimal_string, index_const_name, index_const_name_string, replace_all, replaced,
};
use crate::tokens::{suffixed, token_literals, tokens_new, CodeTokens};

verus! {

pub const TOKEN_IMPL: &'static str = " {\n    node: SyntaxNode,\n}\nimpl Token for ";

pub const TOKEN_NEW_GREEN: &'static str = " {\n    fn new_green(db: &dyn SyntaxGroup, text: SmolStr) -> Self::Green {\n        ";

pub const TOKEN_DETAILS: &'static str = "GreenNodeDetails::Token(text)";

pub const TOKEN_TEXT: &'static str = "    }\n    fn text(&self, db: &dyn SyntaxGroup) -> SmolStr {\n        extract_matches!(&db.lookup_intern_green(self.node.0.green).details, GreenNodeDetails::Token)\n            .clone()\n    }\n}\n";

pub const IMPL_OPEN: &'static str = "impl ";

pub const GREEN_TEXT: &'static str = " {\n    pub fn text(&self, db: &dyn SyntaxGroup) -> SmolStr {\n        extract_matches!(&db.lookup_intern_green(self.0).details, GreenNodeDetails::Token).clone()\n    }\n}\n";

pub const TOKEN_MISSING: &'static str = "TokenMissing";

pub const TOKEN_MISSING_DETAILS: &'static str = "GreenNodeDetails::Token(\"\".into())";

pub const TOKEN_FROM_NODE: &'static str = "    }\n    fn from_syntax_node(db: &dyn SyntaxGroup, node: SyntaxNode) -> Self {\n        match db.lookup_intern_green(node.0.green).details {\n            GreenNodeDetails::Token(_) => Self { node },\n            GreenNodeDetails::Node { .. } => panic!(\n                \"Expected a token {:?}, not an internal node\",\n                SyntaxKind::";

pub const TOKEN_FROM_NODE_CLOSE: &'static str = "\n            ),\n        }\n    }\n";

/// The typed wrapper of the token node `name`.
pub open spec fn token_code(name: Seq<char>) -> Seq<Seq<char>> {
    let ptr = name + PTR_SUFFIX@;
    let green = name + GREEN_SUFFIX@;
    seq![LIST_STRUCT_OPEN@, name, TOKEN_IMPL@, name, TOKEN_NEW_GREEN@] + intern_green(
        green,
        name,
        seq![TOKEN_DETAILS@],
    ) + seq![TOKEN_TEXT@] + ptr_block(name, ptr, Seq::empty()) + green_struct(green) + seq![
        IMPL_OPEN@,
        green,
        GREEN_TEXT@,
    ] + typed_head(name, ptr, green, some_kind(name)) + seq![MISSING_INDENT@] + intern_green(
        green,
        TOKEN_MISSING@,
        seq![TOKEN_MISSING_DETAILS@],
    ) + seq![TOKEN_FROM_NODE@, name, TOKEN_FROM_NODE_CLOSE@] + typed_tail(ptr)
}

/// The typed wrapper of the token node `name`: the struct, its `Token` impl,
/// its stable pointer and green id, and its `TypedSyntaxNode` impl.
pub fn gen_token_code(name: String) -> (t: CodeTokens)
    ensures
        token_literals(t) == Some(token_code(name@)),
{
    let green_name = suffixed(name.as_str(), GREEN_SUFFIX);
    let ptr_name = suffixed(name.as_str(), PTR_SUFFIX);
    let n = name.as_str();
    let g = green_name.as_str();
    let p = ptr_name.as_str();
    let mut t = tokens_new();
    let head = [LIST_STRUCT_OPEN, n, TOKEN_IMPL, n, TOKEN_NEW_GREEN];
    emit(&mut t, &head);
    let details = [TOKEN_DETAILS];
    emit_intern_green(&mut t, g, n, literal_tokens(&details));
    let text = [TOKEN_TEXT];
    emit(&mut t, &text);
    emit_ptr_block(&mut t, n, p, tokens_new());
    emit_green_struct(&mut t, g);
    let green_text = [IMPL_OPEN, g, GREEN_TEXT];
    emit(&mut t, &green_text);
    emit_typed_head(&mut t, n, p, g, true);
    let indent = [MISSING_INDENT];
    emit(&mut t, &indent);
    let missing_details = [TOKEN_MISSING_DETAILS];
    emit_intern_green(&mut t, g, TOKEN_MISSING, literal_tokens(&missing_details));
    let from_node = [TOKEN_FROM_NODE, n, TOKEN_FROM_NODE_CLOSE];
    emit(&mut t, &from_node);
    emit_typed_tail(&mut t, p);
    assert(token_literals(t).unwrap() =~= token_code(name@));
    t
}

pub const STRUCT_FIELDS: &'static str = " {\n    node: SyntaxNode,\n    children: Arc<Vec<SyntaxNode>>,\n}\n";

pub const TERMINAL_OPEN: &'static str = "impl Terminal for ";

pub const TERMINAL_KIND: &'static str = " {\n    const KIND: SyntaxKind = SyntaxKind::";

pub const TERMINAL_TOKEN_TYPE: &'static str = ";\n    type TokenType = ";

pub const TERMINAL_NEW_GREEN: &'static str = ";\n    fn new_green(\n        db: &dyn SyntaxGroup,\n        leading_trivia: TriviaGreen,\n        token: <<";

pub const TERMINAL_TOKEN_GREEN: &'static str = " as Terminal>::TokenType as TypedSyntaxNode>::Green,\n        trailing_trivia: TriviaGreen\n    ) -> Self::Green {\n        let children: Vec<GreenId> = vec![";

pub const CHILDREN_WIDTH: &'static str = "];\n        let width = children.iter().copied().map(|id|\n            db.lookup_intern_green(id).width()).sum();\n        ";

pub const NODE_DETAILS: &'static str = "GreenNodeDetails::Node { children, width }";

pub const TERMINAL_TEXT: &'static str = "    }\n    fn text(&self, db: &dyn SyntaxGroup) -> SmolStr {\n        self.token(db).text(db)\n    }\n}\n";

pub const IMPL_BODY_OPEN: &'static str = " {\n";

pub const IMPL_BODY_CLOSE: &'static str = "}\n";

pub const PLAIN_NEW_GREEN: &'static str = "    pub fn new_green(db: &dyn SyntaxGroup, ";

pub const PLAIN_RETURN: &'static str = ") -> ";

pub const PLAIN_CHILDREN: &'static str = " {\n        let children: Vec<GreenId> = vec![";

pub const MISSING_CHILDREN_OPEN: &'static str = "GreenNodeDetails::Node {\n                children: vec![";

pub const MISSING_CHILDREN_CLOSE: &'static str = "],\n                width: TextWidth::default(),\n            }";

pub const STRUCT_FROM_NODE: &'static str = "    }\n    fn from_syntax_node(db: &dyn SyntaxGroup, node: SyntaxNode) -> Self {\n        let kind = node.kind(db);\n        assert_eq!(kind, SyntaxKind::";

pub const STRUCT_FROM_NODE_EXPECTED: &'static str = ", \"Unexpected SyntaxKind {:?}. Expected {:?}.\", kind, SyntaxKind::";

pub const STRUCT_FROM_NODE_CLOSE: &'static str = ");\n        let children = db.get_children(node.clone());\n        Self { node, children }\n    }\n";

pub const INDEX_CONST_OPEN: &'static str = "    pub const ";

pub const INDEX_CONST_TYPE: &'static str = " : usize = ";

pub const INDEX_CONST_CLOSE: &'static str = ";\n";

pub const ARG_GREEN_ID: &'static str = ".0,";

pub const PARAM_COLON: &'static str = ": ";

pub const PARAM_SEP: &'static str = ",";

pub const GETTER_OPEN: &'static str = "    pub fn ";

pub const GETTER_SIG: &'static str = "(&self, db: &dyn SyntaxGroup) -> ";

pub const GETTER_BODY: &'static str = " {\n        ";

pub const GETTER_CHILD: &'static str = "::from_syntax_node(db, self.children[";

pub const GETTER_CLOSE: &'static str = "].clone())\n    }\n";

pub const MISSING_ARG: &'static str = "::missing(db).0,";

pub const KEY_GREEN_SUFFIX: &'static str = "_green";

pub const KEY_GETTER_SIG: &'static str = "(self, db: &dyn SyntaxGroup) -> ";

pub const KEY_GETTER_BODY: &'static str = " {\n        let ptr = db.lookup_intern_stable_ptr(self.0);\n        if let SyntaxStablePtr::Child { key_fields, .. } = ptr {\n            ";

pub const KEY_GETTER_FIELD: &'static str = "(key_fields[";

pub const KEY_GETTER_CLOSE: &'static str = "])\n        } else {\n            panic!(\"Unexpected key field query on root.\");\n        }\n    }\n";

pub const BLANK_LINE: &'static str = "\n";

pub const STRUCT_MISSING_INDENT: &'static str = "\n        ";

pub const TERMINAL_WORD: &'static str = "Terminal";

pub const TOKEN_WORD: &'static str = "Token";

/// How many of `members` are key members.
pub open spec fn key_count(members: Seq<Member>) -> nat
    decreases members.len(),
{
    if members.len() == 0 {
        0
    } else {
        key_count(members.drop_last()) + if members.last().key {
            1nat
        } else {
            0nat
        }
    }
}

/// `pub const INDEX_<NAME> : usize = <i>;` for member `i`.
pub open spec fn field_index(m: Member, i: nat) -> Seq<Seq<char>> {
    seq![INDEX_CONST_OPEN@, index_const_name(m.name@), INDEX_CONST_TYPE@, decimal(i), INDEX_CONST_CLOSE@]
}

/// The child getter of member `i`: `pub fn <name>(&self, db) -> <kind>`.
pub open spec fn member_getter(m: Member, i: nat) -> Seq<Seq<char>> {
    seq![
        GETTER_OPEN@,
        m.name@,
        GETTER_SIG@,
        m.kind@,
        GETTER_BODY@,
        m.kind@,
        GETTER_CHILD@,
        decimal(i),
        GETTER_CLOSE@,
    ]
}

/// The getter of a key member's green id from a stable pointer, reading
/// entry `k` of the pointer's key fields.
pub open spec fn key_getter(m: Member, k: nat) -> Seq<Seq<char>> {
    let child_green = m.kind@ + GREEN_SUFFIX@;
    seq![
        GETTER_OPEN@,
        m.name@ + KEY_GREEN_SUFFIX@,
        KEY_GETTER_SIG@,
        child_green,
        KEY_GETTER_BODY@,
        child_green,
        KEY_GETTER_FIELD@,
        decimal(k),
        KEY_GETTER_CLOSE@,
    ]
}

/// The parts of a struct's code with a piece per member, each built over the
/// members in order: index constants, `new_green` arguments and parameters,
/// child getters, children of the missing node, and key getters (the `k`-th
/// key member's reading key field `k`).
pub open spec fn field_indices(ms: Seq<Member>) -> Seq<Seq<char>>
    decreases ms.len(),
{
    if ms.len() == 0 {
        Seq::empty()
    } else {
        field_indices(ms.drop_last()) + field_index(ms.last(), (ms.len() - 1) as nat)
    }
}

pub open spec fn member_args(ms: Seq<Member>) -> Seq<Seq<char>>
    decreases ms.len(),
{
    if ms.len() == 0 {
        Seq::empty()
    } else {
        member_args(ms.drop_last()) + seq![ms.last().name@, ARG_GREEN_ID@]
    }
}

pub open spec fn member_params(ms: Seq<Member>) -> Seq<Seq<char>>
    decreases ms.len(),
{
    if ms.len() == 0 {
        Seq::empty()
    } else {
        member_params(ms.drop_last()) + seq![
            ms.last().name@,
            PARAM_COLON@,
            ms.last().kind@ + GREEN_SUFFIX@,
            PARAM_SEP@,
        ]
    }
}

pub open spec fn member_getters(ms: Seq<Member>) -> Seq<Seq<char>>
    decreases ms.len(),
{
    if ms.len() == 0 {
        Seq::empty()
    } else {
        member_getters(ms.drop_last()) + member_getter(ms.last(), (ms.len() - 1) as nat)
    }
}

pub open spec fn missing_args(ms: Seq<Member>) -> Seq<Seq<char>>
    decreases ms.len(),
{
    if ms.len() == 0 {
        Seq::empty()
    } else {
        missing_args(ms.drop_last()) + seq![ms.last().kind@, MISSING_ARG@]
    }
}

pub open spec fn key_getters(ms: Seq<Member>) -> Seq<Seq<char>>
    decreases ms.len(),
{
    if ms.len() == 0 {
        Seq::empty()
    } else {
        key_getters(ms.drop_last()) + if ms.last().key {
            key_getter(ms.last(), key_count(ms.drop_last()))
        } else {
            Seq::empty()
        }
    }
}

/// The `Terminal` impl of the terminal `name`, whose token type is `token`.
pub open spec fn terminal_impl(name: Seq<char>, token: Seq<char>, green: Seq<char>, args: Seq<Seq<char>>) -> Seq<
    Seq<char>,
> {
    seq![
        TERMINAL_OPEN@,
        name,
        TERMINAL_KIND@,
        name,
        TERMINAL_TOKEN_TYPE@,
        token,
        TERMINAL_NEW_GREEN@,
        name,
        TERMINAL_TOKEN_GREEN@,
    ] + args + seq![CHILDREN_WIDTH@] + intern_green(green, name, seq![NODE_DETAILS@]) + seq![
        TERMINAL_TEXT@,
    ]
}

/// The inherent impl of a non-terminal struct: its index constants and
/// `new_green` from the green ids of its children.
pub open spec fn plain_impl(
    name: Seq<char>,
    green: Seq<char>,
    indices: Seq<Seq<char>>,
    params: Seq<Seq<char>>,
    args: Seq<Seq<char>>,
) -> Seq<Seq<char>> {
    seq![IMPL_OPEN@, name, IMPL_BODY_OPEN@] + indices + seq![PLAIN_NEW_GREEN@] + params + seq![
        PLAIN_RETURN@,
        green,
        PLAIN_CHILDREN@,
    ] + args + seq![CHILDREN_WIDTH@] + intern_green(green, name, seq![NODE_DETAILS@]) + seq![
        FN_IMPL_CLOSE@,
    ]
}

/// The part of a struct's typed wrapper before its stable pointer: the
/// struct, its `Terminal` impl (when `is_terminal`) or its index constants
/// and `new_green`, and a getter for each child.
pub open spec fn struct_head(name: Seq<char>, ms: Seq<Member>, is_terminal: bool) -> Seq<
    Seq<char>,
> {
    let green = name + GREEN_SUFFIX@;
    seq![LIST_STRUCT_OPEN@, name, STRUCT_FIELDS@] + (if is_terminal {
        terminal_impl(name, replaced(name, TERMINAL_WORD@, TOKEN_WORD@), green, member_args(ms))
    } else {
        plain_impl(name, green, field_indices(ms), member_params(ms), member_args(ms))
    }) + seq![IMPL_OPEN@, name, IMPL_BODY_OPEN@] + member_getters(ms) + seq![IMPL_BODY_CLOSE@]
}

/// The methods of a struct's stable pointer before `untyped`: the key getters,
/// then a blank line.
pub open spec fn struct_ptr_getters(ms: Seq<Member>) -> Seq<Seq<char>> {
    key_getters(ms) + seq![BLANK_LINE@]
}

/// The part of a struct's typed wrapper after its stable pointer: its green
/// id and its `TypedSyntaxNode` impl.
pub open spec fn struct_tail(name: Seq<char>, ms: Seq<Member>) -> Seq<Seq<char>> {
    let ptr = name + PTR_SUFFIX@;
    let green = name + GREEN_SUFFIX@;
    green_struct(green) + typed_head(name, ptr, green, some_kind(name)) + seq![
        STRUCT_MISSING_INDENT@,
    ] + intern_green(
        green,
        name,
        seq![MISSING_CHILDREN_OPEN@] + missing_args(ms) + seq![MISSING_CHILDREN_CLOSE@],
    ) + seq![STRUCT_FROM_NODE@, name, STRUCT_FROM_NODE_EXPECTED@, name, STRUCT_FROM_NODE_CLOSE@]
        + typed_tail(ptr)
}

/// The typed wrapper of the struct (or, when `is_terminal`, terminal) node
/// `name` with the children `ms`.
pub open spec fn struct_code(name: Seq<char>, ms: Seq<Member>, is_terminal: bool) -> Seq<
    Seq<char>,
> {
    struct_head(name, ms, is_terminal) + ptr_block(
        name,
        name + PTR_SUFFIX@,
        struct_ptr_getters(ms),
    ) + struct_tail(name, ms)
}

proof fn lemma_key_count_bound(ms: Seq<Member>)
    ensures
        key_count(ms) <= ms.len(),
    decreases ms.len(),
{
    if ms.len() > 0 {
        lemma_key_count_bound(ms.drop_last());
    }
}

/// The parts of a struct's code that have a piece per member.
struct MemberParts {
    getters: CodeTokens,
    indices: CodeTokens,
    args: CodeTokens,
    params: CodeTokens,
    missing: CodeTokens,
    key_getters: CodeTokens,
}

/// The parts of `ms` are what the streams of `parts` hold.
spec fn parts_hold(parts: MemberParts, ms: Seq<Member>) -> bool {
    &&& token_literals(parts.getters) == Some(member_getters(ms))
    &&& token_literals(parts.indices) == Some(field_indices(ms))
    &&& token_literals(parts.args) == Some(member_args(ms))
    &&& token_literals(parts.params) == Some(member_params(ms))
    &&& token_literals(parts.missing) == Some(missing_args(ms))
    &&& token_literals(parts.key_getters) == Some(key_getters(ms))
}

/// Adds the pieces of `member`, the last of `ms`, at position `i`, whose key
/// getter (if it is a key) reads key field `key_index`.
fn emit_member(
    parts: &mut MemberParts,
    member: &Member,
    i: usize,
    key_index: usize,
    ms: Ghost<Seq<Member>>,
)
    requires
        ms@.len() == i + 1,
        ms@.last() == *member,
        key_index == key_count(ms@.drop_last()),
        parts_hold(*old(parts), ms@.drop_last()),
    ensures
        parts_hold(*final(parts), ms@),
{
    let m = member.name.as_str();
    let k = member.kind.as_str();
    let ghost prefix = ms@.drop_last();
    let index_name = index_const_name_string(m);
    let index = decimal_string(i);
    let field_index_parts = [
        INDEX_CONST_OPEN,
        index_name.as_str(),
        INDEX_CONST_TYPE,
        index.as_str(),
        INDEX_CONST_CLOSE,
    ];
    emit(&mut parts.indices, &field_index_parts);
    assert(token_literals(parts.indices).unwrap() =~= field_indices(ms@));
    let arg = [m, ARG_GREEN_ID];
    emit(&mut parts.args, &arg);
    assert(token_literals(parts.args).unwrap() =~= member_args(ms@));
    let child_green = suffixed(k, GREEN_SUFFIX);
    let cg = child_green.as_str();
    let param = [m, PARAM_COLON, cg, PARAM_SEP];
    emit(&mut parts.params, &param);
    assert(token_literals(parts.params).unwrap() =~= member_params(ms@));
    let getter = [
        GETTER_OPEN,
        m,
        GETTER_SIG,
        k,
        GETTER_BODY,
        k,
        GETTER_CHILD,
        index.as_str(),
        GETTER_CLOSE,
    ];
    emit(&mut parts.getters, &getter);
    assert(token_literals(parts.getters).unwrap() =~= member_getters(ms@));
    let missing = [k, MISSING_ARG];
    emit(&mut parts.missing, &missing);
    assert(token_literals(parts.missing).unwrap() =~= missing_args(ms@));
    if member.key {
        let key_name_green = suffixed(m, KEY_GREEN_SUFFIX);
        let key_field = decimal_string(key_index);
        let key_getter_parts = [
            GETTER_OPEN,
            key_name_green.as_str(),
            KEY_GETTER_SIG,
            cg,
            KEY_GETTER_BODY,
            cg,
            KEY_GETTER_FIELD,
            key_field.as_str(),
            KEY_GETTER_CLOSE,
        ];
        emit(&mut parts.key_getters, &key_getter_parts);
        assert(token_literals(parts.key_getters).unwrap() =~= key_getters(ms@));
    } else {
        assert(key_getters(prefix) + Seq::<Seq<char>>::empty() =~= key_getters(prefix));
    }
}

/// The pieces of each of `members`, gathered by part.
fn member_parts(members: &Vec<Member>) -> (parts: MemberParts)
    ensures
        parts_hold(parts, members@),
{
    let mut parts = MemberParts {
        getters: tokens_new(),
        indices: tokens_new(),
        args: tokens_new(),
        params: tokens_new(),
        missing: tokens_new(),
        key_getters: tokens_new(),
    };
    let mut key_field_index: usize = 0;
    let ghost ms = members@;
    let mut i: usize = 0;
    assert(ms.take(0) =~= Seq::<Member>::empty());
    while i < members.len()
        invariant
            ms == members@,
            i <= members.len(),
            key_field_index == key_count(ms.take(i as int)),
            parts_hold(parts, ms.take(i as int)),
        decreases members.len() - i,
    {
        let member = &members[i];
        let ghost next = ms.take(i + 1);
        proof {
            assert(next.drop_last() =~= ms.take(i as int));
            lemma_key_count_bound(ms.take(i as int));
        }
        emit_member(&mut parts, member, i, key_field_index, Ghost(next));
        if member.key {
            key_field_index = key_field_index + 1;
        }
        i = i + 1;
    }
    assert(ms.take(members.len() as int) =~= ms);
    parts
}

/// Appends the `Terminal` impl of `name`, or the inherent impl with index
/// constants and `new_green` of a non-terminal.
fn emit_new_green_impl(
    t: &mut CodeTokens,
    name: &str,
    green: &str,
    is_terminal: bool,
    indices: CodeTokens,
    params: CodeTokens,
    args: CodeTokens,
)
    requires
        token_literals(*old(t)) is Some,
        token_literals(indices) is Some,
        token_literals(params) is Some,
        token_literals(args) is Some,
    ensures
        token_literals(*final(t)) == Some(
            token_literals(*old(t)).unwrap() + if is_terminal {
                terminal_impl(
                    name@,
                    replaced(name@, TERMINAL_WORD@, TOKEN_WORD@),
                    green@,
                    token_literals(args).unwrap(),
                )
            } else {
                plain_impl(
                    name@,
                    green@,
                    token_literals(indices).unwrap(),
                    token_literals(params).unwrap(),
                    token_literals(args).unwrap(),
                )
            },
        ),
{
    let ghost start = token_literals(*t).unwrap();
    let ghost a = token_literals(args).unwrap();
    let ghost ix = token_literals(indices).unwrap();
    let ghost ps = token_literals(params).unwrap();
    if is_terminal {
        proof {
            reveal_strlit("Terminal");
        }
        let token_name = replace_all(name, TERMINAL_WORD, TOKEN_WORD);
        let terminal_head = [
            TERMINAL_OPEN,
            name,
            TERMINAL_KIND,
            name,
            TERMINAL_TOKEN_TYPE,
            token_name.as_str(),
            TERMINAL_NEW_GREEN,
            name,
            TERMINAL_TOKEN_GREEN,
        ];
        emit(t, &terminal_head);
        emit_tokens(t, args);
        let width = [CHILDREN_WIDTH];
        emit(t, &width);
        let details = [NODE_DETAILS];
        emit_intern_green(t, green, name, literal_tokens(&details));
        let text = [TERMINAL_TEXT];
        emit(t, &text);
        assert(token_literals(*t).unwrap() =~= start + terminal_impl(
            name@,
            replaced(name@, TERMINAL_WORD@, TOKEN_WORD@),
            green@,
            a,
        ));
    } else {
        let impl_head = [IMPL_OPEN, name, IMPL_BODY_OPEN];
        emit(t, &impl_head);
        emit_tokens(t, indices);
        let new_green = [PLAIN_NEW_GREEN];
        emit(t, &new_green);
        emit_tokens(t, params);
        let ret = [PLAIN_RETURN, green, PLAIN_CHILDREN];
        emit(t, &ret);
        emit_tokens(t, args);
        let width = [CHILDREN_WIDTH];
        emit(t, &width);
        let details = [NODE_DETAILS];
        emit_intern_green(t, green, name, literal_tokens(&details));
        let close = [FN_IMPL_CLOSE];
        emit(t, &close);
        assert(token_literals(*t).unwrap() =~= start + plain_impl(name@, green@, ix, ps, a));
    }
}

/// The typed wrapper of a struct or terminal node `name` with the children
/// `members`: the struct, its `Terminal` impl or its index constants and
/// `new_green`, a getter for each child, its stable pointer with a getter
/// for each key child, its green id, and its `TypedSyntaxNode` impl.
pub fn gen_struct_code(name: String, members: Vec<Member>, is_terminal: bool) -> (t: CodeTokens)
    ensures
        token_literals(t) == Some(struct_code(name@, members@, is_terminal)),
{
    let green_name = suffixed(name.as_str(), GREEN_SUFFIX);
    let n = name.as_str();
    let g = green_name.as_str();
    let parts = member_parts(&members);
    let MemberParts { getters, indices, args, params, missing, key_getters } = parts;
    let ptr_name = suffixed(n, PTR_SUFFIX);
    let p = ptr_name.as_str();
    let mut t = tokens_new();
    let head = [LIST_STRUCT_OPEN, n, STRUCT_FIELDS];
    emit(&mut t, &head);
    emit_new_green_impl(&mut t, n, g, is_terminal, indices, params, args);
    let getters_head = [IMPL_OPEN, n, IMPL_BODY_OPEN];
    emit(&mut t, &getters_head);
    emit_tokens(&mut t, getters);
    let getters_close = [IMPL_BODY_CLOSE];
    emit(&mut t, &getters_close);
    let mut ptr_getters = key_getters;
    let blank = [BLANK_LINE];
    emit(&mut ptr_getters, &blank);
    emit_ptr_block(&mut t, n, p, ptr_getters);
    emit_green_struct(&mut t, g);
    emit_typed_head(&mut t, n, p, g, true);
    let indent = [STRUCT_MISSING_INDENT];
    emit(&mut t, &indent);
    let mut missing_details = tokens_new();
    let missing_open = [MISSING_CHILDREN_OPEN];
    emit(&mut missing_details, &missing_open);
    emit_tokens(&mut missing_details, missing);
    let missing_close = [MISSING_CHILDREN_CLOSE];
    emit(&mut missing_details, &missing_close);
    emit_intern_green(&mut t, g, n, missing_details);
    let from_node = [STRUCT_FROM_NODE, n, STRUCT_FROM_NODE_EXPECTED, n, STRUCT_FROM_NODE_CLOSE];
    emit(&mut t, &from_node);
    emit_typed_tail(&mut t, p);
    assert(token_literals(t).unwrap() =~= struct_code(name@, members@, is_terminal));
    t
}

} // verus!