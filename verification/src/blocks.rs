//! Pieces of code that the typed wrappers of several node shapes share: the
//! green-id struct, the stable-pointer struct, and the head and tail of the
//! `TypedSyntaxNode` impl.

use vstd::prelude::*;

use crate::tokens::{token_literals, tokens_append, tokens_extend, tokens_new, CodeTokens};

verus! {

pub const GREEN_STRUCT_OPEN: &'static str = "#[derive(Copy, Clone, PartialEq, Eq, Hash, Debug)]\npub struct ";

pub const GREEN_STRUCT_CLOSE: &'static str = "(pub GreenId);\n";

pub const PTR_STRUCT_OPEN: &'static str = "#[derive(Copy, Clone, PartialEq, Eq, Hash, Debug)]\npub struct ";

pub const PTR_STRUCT_IMPL: &'static str = "(pub SyntaxStablePtrId);\nimpl ";

pub const PTR_IMPL_OPEN: &'static str = " {\n";

pub const PTR_IMPL_LOOKUP: &'static str = "    pub fn untyped(&self) -> SyntaxStablePtrId {\n        self.0\n    }\n    pub fn lookup(&self, db: &dyn SyntaxGroup) -> ";

pub const PTR_IMPL_LOOKUP_BODY: &'static str = " {\n        ";

pub const PTR_IMPL_CLOSE: &'static str = "::from_syntax_node(db, self.0.lookup(db))\n    }\n}\n";

pub const TYPED_OPEN: &'static str = "impl TypedSyntaxNode for ";

pub const TYPED_OPTIONAL_KIND: &'static str = " {\n    const OPTIONAL_KIND: Option<SyntaxKind> = ";

pub const SOME_KIND_OPEN: &'static str = "Some(SyntaxKind::";

pub const SOME_KIND_CLOSE: &'static str = ")";

pub const NO_KIND: &'static str = "None";

pub const TYPED_STABLE_PTR: &'static str = ";\n    type StablePtr = ";

pub const TYPED_GREEN: &'static str = ";\n    type Green = ";

pub const TYPED_MISSING: &'static str = ";\n    fn missing(db: &dyn SyntaxGroup) -> Self::Green {\n";

pub const TYPED_TAIL_OPEN: &'static str = "    fn as_syntax_node(&self) -> SyntaxNode {\n        self.node.clone()\n    }\n    fn stable_ptr(&self) -> Self::StablePtr {\n        ";

pub const TYPED_TAIL_CLOSE: &'static str = "(self.node.0.stable_ptr)\n    }\n}\n";

pub const INTERN_OPEN: &'static str = "(db.intern_green(Arc::new(GreenNode {\n            kind: SyntaxKind::";

pub const INTERN_DETAILS: &'static str = ",\n            details: ";

pub const PTR_SUFFIX: &'static str = "Ptr";

pub const GREEN_SUFFIX: &'static str = "Green";

pub const FN_IMPL_CLOSE: &'static str = "    }\n}\n";

pub const INTERN_CLOSE: &'static str = ",\n        })))\n";

/// `#[derive(..)] pub struct <green>(pub GreenId);`
pub open spec fn green_struct(green: Seq<char>) -> Seq<Seq<char>> {
    seq![GREEN_STRUCT_OPEN@, green, GREEN_STRUCT_CLOSE@]
}

/// The stable-pointer struct of the node `name`, with the methods `getters`
/// before `untyped` and `lookup`.
pub open spec fn ptr_block(name: Seq<char>, ptr: Seq<char>, getters: Seq<Seq<char>>) -> Seq<
    Seq<char>,
> {
    seq![PTR_STRUCT_OPEN@, ptr, PTR_STRUCT_IMPL@, ptr, PTR_IMPL_OPEN@] + getters + seq![
        PTR_IMPL_LOOKUP@,
        name,
        PTR_IMPL_LOOKUP_BODY@,
        name,
        PTR_IMPL_CLOSE@,
    ]
}

/// `Some(SyntaxKind::<name>)`.
pub open spec fn some_kind(name: Seq<char>) -> Seq<Seq<char>> {
    seq![SOME_KIND_OPEN@, name, SOME_KIND_CLOSE@]
}

/// The start of `impl TypedSyntaxNode for <name>`, up to the opening of
/// `missing`; `optional_kind` is the value of `OPTIONAL_KIND`.
pub open spec fn typed_head(
    name: Seq<char>,
    ptr: Seq<char>,
    green: Seq<char>,
    optional_kind: Seq<Seq<char>>,
) -> Seq<Seq<char>> {
    seq![TYPED_OPEN@, name, TYPED_OPTIONAL_KIND@] + optional_kind + seq![
        TYPED_STABLE_PTR@,
        ptr,
        TYPED_GREEN@,
        green,
        TYPED_MISSING@,
    ]
}

/// The end of the `TypedSyntaxNode` impl of a node that holds its syntax
/// node: `as_syntax_node` and `stable_ptr`.
pub open spec fn typed_tail(ptr: Seq<char>) -> Seq<Seq<char>> {
    seq![TYPED_TAIL_OPEN@, ptr, TYPED_TAIL_CLOSE@]
}

/// `<green>(db.intern_green(Arc::new(GreenNode { kind: SyntaxKind::<name>,
/// details: <details>, })))`.
pub open spec fn intern_green(green: Seq<char>, name: Seq<char>, details: Seq<Seq<char>>) -> Seq<
    Seq<char>,
> {
    seq![green, INTERN_OPEN@, name, INTERN_DETAILS@] + details + seq![INTERN_CLOSE@]
}

/// Appends each of `parts` to `t`, in order.
pub fn emit(t: &mut CodeTokens, parts: &[&str])
    requires
        token_literals(*old(t)) is Some,
    ensures
        token_literals(*final(t)) == Some(
            token_literals(*old(t)).unwrap() + parts@.map_values(|p: &str| p@),
        ),
{
    let ghost start = token_literals(*t).unwrap();
    let mut i: usize = 0;
    while i < parts.len()
        invariant
            i <= parts.len(),
            token_literals(*t) == Some(start + parts@.take(i as int).map_values(|p: &str| p@)),
        decreases parts.len() - i,
    {
        tokens_append(t, parts[i]);
        assert(parts@.take(i + 1).map_values(|p: &str| p@) =~= parts@.take(i as int).map_values(
            |p: &str| p@,
        ).push(parts@[i as int]@));
        assert(start + parts@.take(i + 1).map_values(|p: &str| p@) =~= (start + parts@.take(
            i as int,
        ).map_values(|p: &str| p@)).push(parts@[i as int]@));
        i = i + 1;
    }
    assert(parts@.take(parts.len() as int) =~= parts@);
}

/// Appends the items of `other`, a stream of literals, to `t`.
pub fn emit_tokens(t: &mut CodeTokens, other: CodeTokens)
    requires
        token_literals(*old(t)) is Some,
        token_literals(other) is Some,
    ensures
        token_literals(*final(t)) == Some(
            token_literals(*old(t)).unwrap() + token_literals(other).unwrap(),
        ),
{
    tokens_extend(t, other);
}

/// Appends `green_struct(green)`.
pub fn emit_green_struct(t: &mut CodeTokens, green: &str)
    requires
        token_literals(*old(t)) is Some,
    ensures
        token_literals(*final(t)) == Some(token_literals(*old(t)).unwrap() + green_struct(green@)),
{
    let parts = [GREEN_STRUCT_OPEN, green, GREEN_STRUCT_CLOSE];
    emit(t, &parts);
    assert(parts@.map_values(|p: &str| p@) =~= green_struct(green@));
}

/// Appends `ptr_block(name, ptr, getters)`, the getters taken from `getters`.
pub fn emit_ptr_block(t: &mut CodeTokens, name: &str, ptr: &str, getters: CodeTokens)
    requires
        token_literals(*old(t)) is Some,
        token_literals(getters) is Some,
    ensures
        token_literals(*final(t)) == Some(
            token_literals(*old(t)).unwrap() + ptr_block(
                name@,
                ptr@,
                token_literals(getters).unwrap(),
            ),
        ),
{
    let ghost start = token_literals(*t).unwrap();
    let ghost g = token_literals(getters).unwrap();
    let head = [PTR_STRUCT_OPEN, ptr, PTR_STRUCT_IMPL, ptr, PTR_IMPL_OPEN];
    emit(t, &head);
    emit_tokens(t, getters);
    let tail = [PTR_IMPL_LOOKUP, name, PTR_IMPL_LOOKUP_BODY, name, PTR_IMPL_CLOSE];
    emit(t, &tail);
    assert(token_literals(*t).unwrap() =~= start + ptr_block(name@, ptr@, g));
}

/// Appends `typed_head(name, ptr, green, optional_kind)`: `Some(SyntaxKind::
/// <name>)` as the optional kind when `has_kind`, `None` otherwise.
pub fn emit_typed_head(t: &mut CodeTokens, name: &str, ptr: &str, green: &str, has_kind: bool)
    requires
        token_literals(*old(t)) is Some,
    ensures
        token_literals(*final(t)) == Some(
            token_literals(*old(t)).unwrap() + typed_head(
                name@,
                ptr@,
                green@,
                if has_kind {
                    some_kind(name@)
                } else {
                    seq![NO_KIND@]
                },
            ),
        ),
{
    let ghost start = token_literals(*t).unwrap();
    let ghost kind = if has_kind {
        some_kind(name@)
    } else {
        seq![NO_KIND@]
    };
    let head = [TYPED_OPEN, name, TYPED_OPTIONAL_KIND];
    emit(t, &head);
    if has_kind {
        let k = [SOME_KIND_OPEN, name, SOME_KIND_CLOSE];
        emit(t, &k);
        assert(k@.map_values(|p: &str| p@) =~= kind);
    } else {
        let k = [NO_KIND];
        emit(t, &k);
        assert(k@.map_values(|p: &str| p@) =~= kind);
    }
    let tail = [TYPED_STABLE_PTR, ptr, TYPED_GREEN, green, TYPED_MISSING];
    emit(t, &tail);
    assert(token_literals(*t).unwrap() =~= start + typed_head(name@, ptr@, green@, kind));
}

/// Appends `typed_tail(ptr)`.
pub fn emit_typed_tail(t: &mut CodeTokens, ptr: &str)
    requires
        token_literals(*old(t)) is Some,
    ensures
        token_literals(*final(t)) == Some(token_literals(*old(t)).unwrap() + typed_tail(ptr@)),
{
    let parts = [TYPED_TAIL_OPEN, ptr, TYPED_TAIL_CLOSE];
    emit(t, &parts);
    assert(parts@.map_values(|p: &str| p@) =~= typed_tail(ptr@));
}

/// Appends `intern_green(green, name, details)`.
pub fn emit_intern_green(t: &mut CodeTokens, green: &str, name: &str, details: CodeTokens)
    requires
        token_literals(*old(t)) is Some,
        token_literals(details) is Some,
    ensures
        token_literals(*final(t)) == Some(
            token_literals(*old(t)).unwrap() + intern_green(
                green@,
                name@,
                token_literals(details).unwrap(),
            ),
        ),
{
    let ghost start = token_literals(*t).unwrap();
    let ghost d = token_literals(details).unwrap();
    let head = [green, INTERN_OPEN, name, INTERN_DETAILS];
    emit(t, &head);
    emit_tokens(t, details);
    let tail = [INTERN_CLOSE];
    emit(t, &tail);
    assert(token_literals(*t).unwrap() =~= start + intern_green(green@, name@, d));
}

/// A new stream holding the literals `parts`.
pub fn literal_tokens(parts: &[&str]) -> (t: CodeTokens)
    ensures
        token_literals(t) == Some(parts@.map_values(|p: &str| p@)),
{
    let mut t = tokens_new();
    emit(&mut t, parts);
    assert(Seq::<Seq<char>>::empty() + parts@.map_values(|p: &str| p@) =~= parts@.map_values(
        |p: &str| p@,
    ));
    t
}

} // verus!
