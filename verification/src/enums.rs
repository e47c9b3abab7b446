//! Typed wrappers of enum nodes.

use vstd::prelude::*;

use crate::blocks::{
    emit, emit_green_struct, emit_ptr_block, emit_tokens, emit_typed_head, green_struct,
    ptr_block, typed_head, GREEN_SUFFIX, NO_KIND, PTR_SUFFIX,
};
use crate::lists::MISSING_INDENT;
use crate::spec::Variant;
use crate::tokens::{quote_str, rust_quoted, suffixed, token_literals, tokens_new, CodeTokens};

verus! {

pub const ENUM_OPEN: &'static str = "#[derive(Clone, Debug, Eq, Hash, PartialEq)]\npub enum ";

pub const ENUM_BODY_OPEN: &'static str = " {\n";

pub const ENUM_BODY_CLOSE: &'static str = "}\n";

pub const VARIANT_INDENT: &'static str = "    ";

pub const OPEN_PAREN: &'static str = "(";

pub const VARIANT_CLOSE: &'static str = "),\n";

pub const ARM_KIND: &'static str = "            SyntaxKind::";

pub const ARM_ARROW: &'static str = " => ";

pub const PATH_SEP: &'static str = "::";

pub const FROM_NODE_CALL: &'static str = "::from_syntax_node(db, node)),\n";

pub const CONVERSION_OPEN: &'static str = "impl From<";

pub const CONVERSION_FOR: &'static str = "> for ";

pub const CONVERSION_BODY: &'static str = " {\n    fn from(value: ";

pub const CONVERSION_CLOSE: &'static str = ") -> Self {\n        Self(value.0)\n    }\n}\n";

pub const ARM_INDENT: &'static str = "            ";

pub const AS_NODE_CALL: &'static str = "(x) => x.as_syntax_node(),\n";

pub const IS_VARIANT_TRUE: &'static str = " => true,\n";

pub const MISSING_CALL: &'static str = "::missing(db).0)\n";

pub const NO_MISSING_VARIANT: &'static str = "        panic!(\"No missing variant.\");\n";

pub const ENUM_FROM_NODE: &'static str = "    }\n    fn from_syntax_node(db: &dyn SyntaxGroup, node: SyntaxNode) -> Self {\n        let kind = node.kind(db);\n        match kind {\n";

pub const ENUM_FROM_NODE_FALLBACK: &'static str = "            _ => panic!(\n                \"Unexpected syntax kind {:?} when constructing {}.\",\n                kind,\n                ";

pub const ENUM_AS_NODE: &'static str = "),\n        }\n    }\n    fn as_syntax_node(&self) -> SyntaxNode {\n        match self {\n";

pub const ENUM_STABLE_PTR: &'static str = "        }\n    }\n    fn stable_ptr(&self) -> Self::StablePtr {\n        ";

pub const ENUM_IS_VARIANT: &'static str = "(self.as_syntax_node().0.stable_ptr)\n    }\n}\nimpl ";

pub const ENUM_IS_VARIANT_BODY: &'static str = " {\n\n    #[allow(clippy::match_like_matches_macro)]\n    pub fn is_variant(kind: SyntaxKind) -> bool {\n        match kind {\n";

pub const ENUM_TAIL: &'static str = "            _ => false,\n        }\n    }\n}\n";

/// The variants of the enum: `name(kind),` for each.
pub open spec fn enum_body(vs: Seq<Variant>) -> Seq<Seq<char>>
    decreases vs.len(),
{
    if vs.len() == 0 {
        Seq::empty()
    } else {
        let v = vs.last();
        enum_body(vs.drop_last()) + seq![
            VARIANT_INDENT@,
            v.name@,
            OPEN_PAREN@,
            v.kind@,
            VARIANT_CLOSE@,
        ]
    }
}

/// The arms of `from_syntax_node`: each variant's kind maps to that variant.
pub open spec fn from_node_arms(name: Seq<char>, vs: Seq<Variant>) -> Seq<Seq<char>>
    decreases vs.len(),
{
    if vs.len() == 0 {
        Seq::empty()
    } else {
        let v = vs.last();
        from_node_arms(name, vs.drop_last()) + seq![
            ARM_KIND@,
            v.kind@,
            ARM_ARROW@,
            name,
            PATH_SEP@,
            v.name@,
            OPEN_PAREN@,
            v.kind@,
            FROM_NODE_CALL@,
        ]
    }
}

/// `impl From<<source>> for <target>` by taking the wrapped id.
pub open spec fn conversion(source: Seq<char>, target: Seq<char>) -> Seq<Seq<char>> {
    seq![
        CONVERSION_OPEN@,
        source,
        CONVERSION_FOR@,
        target,
        CONVERSION_BODY@,
        source,
        CONVERSION_CLOSE@,
    ]
}

/// Conversions into `target` from each variant kind's type named with
/// `suffix`.
pub open spec fn conversions(target: Seq<char>, suffix: Seq<char>, vs: Seq<Variant>) -> Seq<
    Seq<char>,
>
    decreases vs.len(),
{
    if vs.len() == 0 {
        Seq::empty()
    } else {
        conversions(target, suffix, vs.drop_last()) + conversion(vs.last().kind@ + suffix, target)
    }
}

/// The arms of `as_syntax_node`, one per variant.
pub open spec fn as_node_arms(name: Seq<char>, vs: Seq<Variant>) -> Seq<Seq<char>>
    decreases vs.len(),
{
    if vs.len() == 0 {
        Seq::empty()
    } else {
        as_node_arms(name, vs.drop_last()) + seq![
            ARM_INDENT@,
            name,
            PATH_SEP@,
            vs.last().name@,
            AS_NODE_CALL@,
        ]
    }
}

/// The arms of `is_variant` that answer `true`: the kind of each variant.
pub open spec fn is_variant_arms(vs: Seq<Variant>) -> Seq<Seq<char>>
    decreases vs.len(),
{
    if vs.len() == 0 {
        Seq::empty()
    } else {
        is_variant_arms(vs.drop_last()) + seq![ARM_KIND@, vs.last().kind@, IS_VARIANT_TRUE@]
    }
}

/// The body of `missing`: the missing node of the missing variant's kind, or
/// a panic when the enum has none.
pub open spec fn missing_body(green: Seq<char>, missing: Option<Variant>) -> Seq<Seq<char>> {
    match missing {
        Some(m) => seq![MISSING_INDENT@, green, OPEN_PAREN@, m.kind@, MISSING_CALL@],
        None => seq![NO_MISSING_VARIANT@],
    }
}

/// The typed wrapper of the enum node `name` with the variants `vs`.
pub open spec fn enum_code(name: Seq<char>, vs: Seq<Variant>, missing: Option<Variant>) -> Seq<
    Seq<char>,
> {
    let ptr = name + PTR_SUFFIX@;
    let green = name + GREEN_SUFFIX@;
    seq![ENUM_OPEN@, name, ENUM_BODY_OPEN@] + enum_body(vs) + seq![ENUM_BODY_CLOSE@] + ptr_block(
        name,
        ptr,
        Seq::empty(),
    ) + conversions(ptr, PTR_SUFFIX@, vs) + conversions(green, GREEN_SUFFIX@, vs) + green_struct(
        green,
    ) + typed_head(name, ptr, green, seq![NO_KIND@]) + missing_body(green, missing) + seq![
        ENUM_FROM_NODE@,
    ] + from_node_arms(name, vs) + seq![ENUM_FROM_NODE_FALLBACK@, rust_quoted(name), ENUM_AS_NODE@]
        + as_node_arms(name, vs) + seq![ENUM_STABLE_PTR@, ptr, ENUM_IS_VARIANT@, name, ENUM_IS_VARIANT_BODY@]
        + is_variant_arms(vs) + seq![ENUM_TAIL@]
}

/// The typed wrapper of the enum node `name`: the enum of its variants, its
/// stable pointer and green id with conversions from each variant's, and its
/// `TypedSyntaxNode` impl and `is_variant`.
pub fn gen_enum_code(name: String, variants: Vec<Variant>, missing_variant: Option<Variant>) -> (t:
    CodeTokens)
    ensures
        token_literals(t) == Some(enum_code(name@, variants@, missing_variant)),
{
    let ptr_name = suffixed(name.as_str(), PTR_SUFFIX);
    let green_name = suffixed(name.as_str(), GREEN_SUFFIX);
    let n = name.as_str();
    let mut enum_body_t = tokens_new();
    let mut from_node_body = tokens_new();
    let mut ptr_conversions = tokens_new();
    let mut green_conversions = tokens_new();
    let mut as_node_body = tokens_new();
    let mut is_variant_body = tokens_new();
    let ghost vs = variants@;
    let mut i: usize = 0;
    assert(vs.take(0) =~= Seq::<Variant>::empty());
    while i < variants.len()
        invariant
            vs == variants@,
            i <= variants.len(),
            n@ == name@,
            ptr_name@ == name@ + PTR_SUFFIX@,
            green_name@ == name@ + GREEN_SUFFIX@,
            token_literals(enum_body_t) == Some(enum_body(vs.take(i as int))),
            token_literals(from_node_body) == Some(from_node_arms(name@, vs.take(i as int))),
            token_literals(ptr_conversions) == Some(
                conversions(ptr_name@, PTR_SUFFIX@, vs.take(i as int)),
            ),
            token_literals(green_conversions) == Some(
                conversions(green_name@, GREEN_SUFFIX@, vs.take(i as int)),
            ),
            token_literals(as_node_body) == Some(as_node_arms(name@, vs.take(i as int))),
            token_literals(is_variant_body) == Some(is_variant_arms(vs.take(i as int))),
        decreases variants.len() - i,
    {
        let v = &variants[i];
        let vn = v.name.as_str();
        let k = v.kind.as_str();
        proof {
            assert(vs.take(i + 1).drop_last() =~= vs.take(i as int));
        }
        let body = [VARIANT_INDENT, vn, OPEN_PAREN, k, VARIANT_CLOSE];
        emit(&mut enum_body_t, &body);
        let arm = [ARM_KIND, k, ARM_ARROW, n, PATH_SEP, vn, OPEN_PAREN, k, FROM_NODE_CALL];
        emit(&mut from_node_body, &arm);
        let variant_ptr = suffixed(k, PTR_SUFFIX);
        let vp = variant_ptr.as_str();
        let ptr_conv = [CONVERSION_OPEN, vp, CONVERSION_FOR, ptr_name.as_str(), CONVERSION_BODY, vp, CONVERSION_CLOSE];
        emit(&mut ptr_conversions, &ptr_conv);
        let variant_green = suffixed(k, GREEN_SUFFIX);
        let vg = variant_green.as_str();
        let green_conv = [CONVERSION_OPEN, vg, CONVERSION_FOR, green_name.as_str(), CONVERSION_BODY, vg, CONVERSION_CLOSE];
        emit(&mut green_conversions, &green_conv);
        let as_node = [ARM_INDENT, n, PATH_SEP, vn, AS_NODE_CALL];
        emit(&mut as_node_body, &as_node);
        let is_variant = [ARM_KIND, k, IS_VARIANT_TRUE];
        emit(&mut is_variant_body, &is_variant);
        proof {
            let next = vs.take(i + 1);
            assert(token_literals(enum_body_t).unwrap() =~= enum_body(next));
            assert(token_literals(from_node_body).unwrap() =~= from_node_arms(name@, next));
            assert(token_literals(ptr_conversions).unwrap() =~= conversions(
                ptr_name@,
                PTR_SUFFIX@,
                next,
            ));
            assert(token_literals(green_conversions).unwrap() =~= conversions(
                green_name@,
                GREEN_SUFFIX@,
                next,
            ));
            assert(token_literals(as_node_body).unwrap() =~= as_node_arms(name@, next));
            assert(token_literals(is_variant_body).unwrap() =~= is_variant_arms(next));
        }
        i = i + 1;
    }
    assert(vs.take(variants.len() as int) =~= vs);
    let mut t = tokens_new();
    let open = [ENUM_OPEN, n, ENUM_BODY_OPEN];
    emit(&mut t, &open);
    emit_tokens(&mut t, enum_body_t);
    let close = [ENUM_BODY_CLOSE];
    emit(&mut t, &close);
    emit_ptr_block(&mut t, n, ptr_name.as_str(), tokens_new());
    emit_tokens(&mut t, ptr_conversions);
    emit_tokens(&mut t, green_conversions);
    emit_green_struct(&mut t, green_name.as_str());
    emit_typed_head(&mut t, n, ptr_name.as_str(), green_name.as_str(), false);
    match &missing_variant {
        Some(missing) => {
            let body = [MISSING_INDENT, green_name.as_str(), OPEN_PAREN, missing.kind.as_str(), MISSING_CALL];
            emit(&mut t, &body);
        },
        None => {
            let body = [NO_MISSING_VARIANT];
            emit(&mut t, &body);
        },
    }
    let from_node = [ENUM_FROM_NODE];
    emit(&mut t, &from_node);
    emit_tokens(&mut t, from_node_body);
    let quoted_name = quote_str(n);
    let fallback = [ENUM_FROM_NODE_FALLBACK, quoted_name.as_str(), ENUM_AS_NODE];
    emit(&mut t, &fallback);
    emit_tokens(&mut t, as_node_body);
    let stable_ptr = [ENUM_STABLE_PTR, ptr_name.as_str(), ENUM_IS_VARIANT, n, ENUM_IS_VARIANT_BODY];
    emit(&mut t, &stable_ptr);
    emit_tokens(&mut t, is_variant_body);
    let tail = [ENUM_TAIL];
    emit(&mut t, &tail);
    assert(token_literals(t).unwrap() =~= enum_code(name@, variants@, missing_variant));
    t
}

} // verus!
