//! Typed wrappers of list and separated-list nodes.

use vstd::prelude::*;

use crate::blocks::{
    emit, emit_green_struct, emit_tokens, emit_intern_green, emit_ptr_block, emit_typed_head, emit_typed_tail,
    green_struct, intern_green, literal_tokens, ptr_block, some_kind, typed_head, typed_tail,
    FN_IMPL_CLOSE, GREEN_SUFFIX, PTR_SUFFIX,
};
use crate::tokens::{suffixed, token_literals, tokens_new, CodeTokens};

verus! {

pub const MISSING_INDENT: &'static str = "        ";

pub const EMPTY_NODE_DETAILS: &'static str = "GreenNodeDetails::Node { children: vec![], width: TextWidth::default() }";

pub const LIST_FROM_NODE: &'static str = "    }\n    fn from_syntax_node(db: &dyn SyntaxGroup, node: SyntaxNode) -> Self {\n        Self(ElementList::new(node))\n    }\n";

pub const LIST_STRUCT_OPEN: &'static str = "#[derive(Clone, Debug, Eq, Hash, PartialEq)]\npub struct ";

pub const LIST_ELEMENT_LIST: &'static str = "(ElementList<";

pub const LIST_ARITY: &'static str = ",";

pub const LIST_DEREF: &'static str = ">);\nimpl Deref for ";

pub const LIST_TARGET: &'static str = " {\n    type Target = ElementList<";

pub const LIST_DEREF_BODY: &'static str = ">;\n\n    fn deref(&self) -> &Self::Target {\n        &self.0\n    }\n}\nimpl ";

pub const LIST_NEW_GREEN: &'static str = " {\n    pub fn new_green(\n        db: &dyn SyntaxGroup, children: Vec<";

pub const LIST_NEW_GREEN_RET: &'static str = ">\n    ) -> ";

pub const LIST_WIDTH: &'static str = " {\n        let width = children.iter().map(|id|\n            db.lookup_intern_green(id.";

pub const LIST_WIDTH_SUM: &'static str = ").width()).sum();\n        ";

pub const LIST_CHILDREN: &'static str = "GreenNodeDetails::Node {\n                children: children.iter().map(|x| x.";

pub const LIST_CHILDREN_TAIL: &'static str = ").collect(),\n                width,\n            }";

pub const ONE: &'static str = "1";

pub const TWO: &'static str = "2";

pub const FIELD_ZERO: &'static str = "0";

pub const ID_CALL: &'static str = "id()";

pub const EOS_SUFFIX: &'static str = "ElementOrSeparatorGreen";

pub const EOS_ENUM_OPEN: &'static str = "#[derive(Copy, Clone, PartialEq, Eq, Hash, Debug)]\npub enum ";

pub const EOS_SEPARATOR: &'static str = " {\n    Separator(";

pub const EOS_ELEMENT: &'static str = "),\n    Element(";

pub const EOS_FROM: &'static str = "),\n}\nimpl From<";

pub const EOS_FOR: &'static str = "> for ";

pub const EOS_FROM_BODY: &'static str = " {\n    fn from(value: ";

pub const EOS_FROM_RET: &'static str = ") -> Self {\n        ";

pub const EOS_SEPARATOR_VALUE: &'static str = "::Separator(value)\n    }\n}\nimpl From<";

pub const EOS_ELEMENT_VALUE: &'static str = "::Element(value)\n    }\n}\nimpl ";

pub const EOS_ID: &'static str = " {\n    fn id(&self) -> GreenId {\n        match self {\n            ";

pub const EOS_ID_SEPARATOR: &'static str = "::Separator(green) => green.0,\n            ";

pub const EOS_ID_ELEMENT: &'static str = "::Element(green) => green.0,\n        }\n    }\n}\n";

/// The green struct and the `TypedSyntaxNode` impl shared by lists and
/// separated lists.
pub open spec fn common_list_code(name: Seq<char>, green: Seq<char>, ptr: Seq<char>) -> Seq<
    Seq<char>,
> {
    green_struct(green) + typed_head(name, ptr, green, some_kind(name)) + seq![MISSING_INDENT@]
        + intern_green(green, name, seq![EMPTY_NODE_DETAILS@]) + seq![LIST_FROM_NODE@]
        + typed_tail(ptr)
}

/// The list struct of `name` over `element` (with `arity` slots per element),
/// its `Deref` to the element list, and `new_green` from children whose green
/// type is `child_green` and whose id is read by `.id`.
pub open spec fn list_struct(
    name: Seq<char>,
    element: Seq<char>,
    arity: Seq<char>,
    child_green: Seq<char>,
    green: Seq<char>,
    id: Seq<char>,
) -> Seq<Seq<char>> {
    seq![
        LIST_STRUCT_OPEN@,
        name,
        LIST_ELEMENT_LIST@,
        element,
        LIST_ARITY@,
        arity,
        LIST_DEREF@,
        name,
        LIST_TARGET@,
        element,
        LIST_ARITY@,
        arity,
        LIST_DEREF_BODY@,
        name,
        LIST_NEW_GREEN@,
        child_green,
        LIST_NEW_GREEN_RET@,
        green,
        LIST_WIDTH@,
        id,
        LIST_WIDTH_SUM@,
    ] + intern_green(green, name, seq![LIST_CHILDREN@, id, LIST_CHILDREN_TAIL@]) + seq![
        FN_IMPL_CLOSE@,
    ]
}

/// The typed wrapper of the list node `name` of `element`s.
pub open spec fn list_code(name: Seq<char>, element: Seq<char>) -> Seq<Seq<char>> {
    let ptr = name + PTR_SUFFIX@;
    let green = name + GREEN_SUFFIX@;
    list_struct(name, element, ONE@, element + GREEN_SUFFIX@, green, FIELD_ZERO@) + ptr_block(
        name,
        ptr,
        Seq::empty(),
    ) + common_list_code(name, green, ptr)
}

/// The enum of the green ids of either an element or a separator, with its
/// conversions and `id`.
pub open spec fn element_or_separator(eos: Seq<char>, separator: Seq<char>, element: Seq<char>) -> Seq<
    Seq<char>,
> {
    seq![
        EOS_ENUM_OPEN@,
        eos,
        EOS_SEPARATOR@,
        separator,
        EOS_ELEMENT@,
        element,
        EOS_FROM@,
        separator,
        EOS_FOR@,
        eos,
        EOS_FROM_BODY@,
        separator,
        EOS_FROM_RET@,
        eos,
        EOS_SEPARATOR_VALUE@,
        element,
        EOS_FOR@,
        eos,
        EOS_FROM_BODY@,
        element,
        EOS_FROM_RET@,
        eos,
        EOS_ELEMENT_VALUE@,
        eos,
        EOS_ID@,
        eos,
        EOS_ID_SEPARATOR@,
        eos,
        EOS_ID_ELEMENT@,
    ]
}

/// The typed wrapper of the separated-list node `name` of `element`s
/// separated by `separator`s.
pub open spec fn separated_list_code(name: Seq<char>, element: Seq<char>, separator: Seq<char>) -> Seq<
    Seq<char>,
> {
    let ptr = name + PTR_SUFFIX@;
    let green = name + GREEN_SUFFIX@;
    let eos = name + EOS_SUFFIX@;
    list_struct(name, element, TWO@, eos, green, ID_CALL@) + ptr_block(name, ptr, Seq::empty())
        + element_or_separator(eos, separator + GREEN_SUFFIX@, element + GREEN_SUFFIX@)
        + common_list_code(name, green, ptr)
}

/// The green struct and `TypedSyntaxNode` impl of the list `name`.
pub fn gen_common_list_code(name: &str, green_name: &str, ptr_name: &str) -> (t: CodeTokens)
    ensures
        token_literals(t) == Some(common_list_code(name@, green_name@, ptr_name@)),
{
    let mut t = tokens_new();
    emit_green_struct(&mut t, green_name);
    emit_typed_head(&mut t, name, ptr_name, green_name, true);
    let indent = [MISSING_INDENT];
    emit(&mut t, &indent);
    let details = [EMPTY_NODE_DETAILS];
    emit_intern_green(&mut t, green_name, name, literal_tokens(&details));
    let from_node = [LIST_FROM_NODE];
    emit(&mut t, &from_node);
    emit_typed_tail(&mut t, ptr_name);
    assert(token_literals(t).unwrap() =~= common_list_code(name@, green_name@, ptr_name@));
    t
}

fn emit_list_struct(
    t: &mut CodeTokens,
    name: &str,
    element: &str,
    arity: &str,
    child_green: &str,
    green: &str,
    id: &str,
)
    requires
        token_literals(*old(t)) is Some,
    ensures
        token_literals(*final(t)) == Some(
            token_literals(*old(t)).unwrap() + list_struct(
                name@,
                element@,
                arity@,
                child_green@,
                green@,
                id@,
            ),
        ),
{
    let ghost start = token_literals(*t).unwrap();
    let head = [
        LIST_STRUCT_OPEN,
        name,
        LIST_ELEMENT_LIST,
        element,
        LIST_ARITY,
        arity,
        LIST_DEREF,
        name,
        LIST_TARGET,
        element,
        LIST_ARITY,
        arity,
        LIST_DEREF_BODY,
        name,
        LIST_NEW_GREEN,
        child_green,
        LIST_NEW_GREEN_RET,
        green,
        LIST_WIDTH,
        id,
        LIST_WIDTH_SUM,
    ];
    emit(t, &head);
    let details = [LIST_CHILDREN, id, LIST_CHILDREN_TAIL];
    emit_intern_green(t, green, name, literal_tokens(&details));
    let close = [FN_IMPL_CLOSE];
    emit(t, &close);
    assert(token_literals(*t).unwrap() =~= start + list_struct(
        name@,
        element@,
        arity@,
        child_green@,
        green@,
        id@,
    ));
}

/// The typed wrapper of the list node `name` of `element_type`s.
pub fn gen_list_code(name: String, element_type: String) -> (t: CodeTokens)
    ensures
        token_literals(t) == Some(list_code(name@, element_type@)),
{
    let ptr_name = suffixed(name.as_str(), PTR_SUFFIX);
    let green_name = suffixed(name.as_str(), GREEN_SUFFIX);
    let element_green_name = suffixed(element_type.as_str(), GREEN_SUFFIX);
    let common_code = gen_common_list_code(name.as_str(), green_name.as_str(), ptr_name.as_str());
    let mut t = tokens_new();
    emit_list_struct(
        &mut t,
        name.as_str(),
        element_type.as_str(),
        ONE,
        element_green_name.as_str(),
        green_name.as_str(),
        FIELD_ZERO,
    );
    emit_ptr_block(&mut t, name.as_str(), ptr_name.as_str(), tokens_new());
    emit_tokens(&mut t, common_code);
    assert(token_literals(t).unwrap() =~= list_code(name@, element_type@));
    t
}

/// The typed wrapper of the separated-list node `name` of `element_type`s
/// separated by `separator_type`s.
pub fn gen_separated_list_code(name: String, element_type: String, separator_type: String) -> (t:
    CodeTokens)
    ensures
        token_literals(t) == Some(separated_list_code(name@, element_type@, separator_type@)),
{
    let ptr_name = suffixed(name.as_str(), PTR_SUFFIX);
    let green_name = suffixed(name.as_str(), GREEN_SUFFIX);
    let element_or_separator_green_name = suffixed(name.as_str(), EOS_SUFFIX);
    let element_green_name = suffixed(element_type.as_str(), GREEN_SUFFIX);
    let separator_green_name = suffixed(separator_type.as_str(), GREEN_SUFFIX);
    let common_code = gen_common_list_code(name.as_str(), green_name.as_str(), ptr_name.as_str());
    let mut t = tokens_new();
    emit_list_struct(
        &mut t,
        name.as_str(),
        element_type.as_str(),
        TWO,
        element_or_separator_green_name.as_str(),
        green_name.as_str(),
        ID_CALL,
    );
    emit_ptr_block(&mut t, name.as_str(), ptr_name.as_str(), tokens_new());
    let eos = element_or_separator_green_name.as_str();
    let sg = separator_green_name.as_str();
    let eg = element_green_name.as_str();
    let eos_enum = [
        EOS_ENUM_OPEN,
        eos,
        EOS_SEPARATOR,
        sg,
        EOS_ELEMENT,
        eg,
        EOS_FROM,
        sg,
        EOS_FOR,
        eos,
        EOS_FROM_BODY,
        sg,
        EOS_FROM_RET,
        eos,
        EOS_SEPARATOR_VALUE,
        eg,
        EOS_FOR,
        eos,
        EOS_FROM_BODY,
        eg,
        EOS_FROM_RET,
        eos,
        EOS_ELEMENT_VALUE,
        eos,
        EOS_ID,
        eos,
        EOS_ID_SEPARATOR,
        eos,
        EOS_ID_ELEMENT,
    ];
    emit(&mut t, &eos_enum);
    assert(eos_enum@.map_values(|p: &str| p@) =~= element_or_separator(eos@, sg@, eg@));
    emit_tokens(&mut t, common_code);
    assert(token_literals(t).unwrap() =~= separated_list_code(
        name@,
        element_type@,
        separator_type@,
    ));
    t
}

} // verus!
