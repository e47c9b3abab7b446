use cairo_lang_syntax_codegen::ast::generate_ast_code;
use cairo_lang_syntax_codegen::enums::gen_enum_code;
use cairo_lang_syntax_codegen::lists::{gen_list_code, gen_separated_list_code};
use cairo_lang_syntax_codegen::spec::{Member, Node, NodeKind, Variant};
use cairo_lang_syntax_codegen::structs::{gen_struct_code, gen_token_code};
use cairo_lang_syntax_codegen::tokens::render;

fn member(name: &str, kind: &str, key: bool) -> Member {
    Member { name: name.to_string(), kind: kind.to_string(), key }
}

fn variant(name: &str, kind: &str) -> Variant {
    Variant { name: name.to_string(), kind: kind.to_string() }
}

#[test]
fn token_wrapper() {
    let text = render(&gen_token_code("TokenPlus".to_string()));
    assert!(text.starts_with(
        "#[derive(Clone, Debug, Eq, Hash, PartialEq)]\npub struct TokenPlus {\n    node: SyntaxNode,\n}\nimpl Token for TokenPlus {"
    ));
    assert!(text.contains(
        "TokenPlusGreen(db.intern_green(Arc::new(GreenNode {\n            kind: SyntaxKind::TokenPlus,\n            details: GreenNodeDetails::Token(text),"
    ));
    assert!(text.contains("pub struct TokenPlusPtr(pub SyntaxStablePtrId);\nimpl TokenPlusPtr {"));
    assert!(text.contains("pub struct TokenPlusGreen(pub GreenId);\nimpl TokenPlusGreen {"));
    assert!(text.contains("const OPTIONAL_KIND: Option<SyntaxKind> = Some(SyntaxKind::TokenPlus);"));
    assert!(text.contains("kind: SyntaxKind::TokenMissing,"));
    assert!(text.contains("\"Expected a token {:?}, not an internal node\",\n                SyntaxKind::TokenPlus\n"));
    assert!(text.ends_with("TokenPlusPtr(self.node.0.stable_ptr)\n    }\n}\n"));
}

#[test]
fn struct_wrapper_children_and_key_slots() {
    let members = vec![
        member("lhs", "Expr", true),
        member("op", "BinaryOperator", false),
        member("rhs", "Expr", true),
    ];
    let text = render(&gen_struct_code("ExprBinary".to_string(), members, false));
    assert!(text.contains("impl ExprBinary {\n    pub const INDEX_LHS : usize = 0;\n    pub const INDEX_OP : usize = 1;\n    pub const INDEX_RHS : usize = 2;\n"));
    assert!(text.contains(
        "pub fn new_green(db: &dyn SyntaxGroup, lhs: ExprGreen,op: BinaryOperatorGreen,rhs: ExprGreen,) -> ExprBinaryGreen {\n        let children: Vec<GreenId> = vec![lhs.0,op.0,rhs.0,];"
    ));
    assert!(text.contains(
        "    pub fn op(&self, db: &dyn SyntaxGroup) -> BinaryOperator {\n        BinaryOperator::from_syntax_node(db, self.children[1].clone())\n    }\n"
    ));
    assert!(text.contains("pub fn lhs_green(self, db: &dyn SyntaxGroup) -> ExprGreen {"));
    assert!(text.contains("ExprGreen(key_fields[0])"));
    assert!(text.contains("pub fn rhs_green(self, db: &dyn SyntaxGroup) -> ExprGreen {"));
    let text_no_keys = render(&gen_struct_code(
        "ExprParenthesized".to_string(),
        vec![member("expr", "Expr", false)],
        false,
    ));
    assert!(text_no_keys.contains(
        "impl ExprParenthesizedPtr {\n\n    pub fn untyped(&self) -> SyntaxStablePtrId {"
    ));
    assert!(text.contains("ExprGreen(key_fields[1])"));
    assert!(text.contains(
        "            panic!(\"Unexpected key field query on root.\");\n        }\n    }\n\n    pub fn untyped(&self) -> SyntaxStablePtrId {"
    ));
    assert!(text.contains(
        "    fn missing(db: &dyn SyntaxGroup) -> Self::Green {\n\n        ExprBinaryGreen(db.intern_green("
    ));
    assert!(!text.contains("op_green"));
    assert!(text.contains("children: vec![Expr::missing(db).0,BinaryOperator::missing(db).0,Expr::missing(db).0,],"));
    assert!(text.contains(
        "assert_eq!(kind, SyntaxKind::ExprBinary, \"Unexpected SyntaxKind {:?}. Expected {:?}.\", kind, SyntaxKind::ExprBinary);"
    ));
}

#[test]
fn terminal_wrapper_names_its_token() {
    let members = vec![
        member("leading_trivia", "Trivia", false),
        member("token", "TokenIdentifier", false),
        member("trailing_trivia", "Trivia", false),
    ];
    let text = render(&gen_struct_code("TerminalIdentifier".to_string(), members, true));
    assert!(text.contains("impl Terminal for TerminalIdentifier {\n    const KIND: SyntaxKind = SyntaxKind::TerminalIdentifier;\n    type TokenType = TokenIdentifier;"));
    assert!(text.contains("token: <<TerminalIdentifier as Terminal>::TokenType as TypedSyntaxNode>::Green,"));
    assert!(text.contains("vec![leading_trivia.0,token.0,trailing_trivia.0,]"));
    assert!(!text.contains("INDEX_"));
    assert!(!text.contains("_green(self"));
}

#[test]
fn enum_wrapper_variants_agree() {
    let variants = vec![variant("Path", "ExprPath"), variant("Literal", "TerminalLiteralNumber")];
    let text = render(&gen_enum_code(
        "Expr".to_string(),
        variants,
        Some(variant("Missing", "ExprMissing")),
    ));
    assert!(text.starts_with(
        "#[derive(Clone, Debug, Eq, Hash, PartialEq)]\npub enum Expr {\n    Path(ExprPath),\n    Literal(TerminalLiteralNumber),\n}\n"
    ));
    assert!(text.contains("impl From<ExprPathPtr> for ExprPtr {\n    fn from(value: ExprPathPtr) -> Self {\n        Self(value.0)\n    }\n}\n"));
    assert!(text.contains("impl From<TerminalLiteralNumberGreen> for ExprGreen {"));
    assert!(text.contains("const OPTIONAL_KIND: Option<SyntaxKind> = None;"));
    assert!(text.contains("        ExprGreen(ExprMissing::missing(db).0)\n"));
    assert!(text.contains("            SyntaxKind::ExprPath => Expr::Path(ExprPath::from_syntax_node(db, node)),\n"));
    assert!(text.contains("            SyntaxKind::TerminalLiteralNumber => Expr::Literal(TerminalLiteralNumber::from_syntax_node(db, node)),\n"));
    assert!(text.contains("\"Unexpected syntax kind {:?} when constructing {}.\",\n                kind,\n                \"Expr\"),"));
    assert!(text.contains("            Expr::Literal(x) => x.as_syntax_node(),\n"));
    assert!(text.contains("impl Expr {\n\n    #[allow(clippy::match_like_matches_macro)]\n"));
    assert!(text.contains("            SyntaxKind::ExprPath => true,\n            SyntaxKind::TerminalLiteralNumber => true,\n            _ => false,\n"));
}

#[test]
fn enum_wrapper_without_missing_variant_panics() {
    let text = render(&gen_enum_code("Item".to_string(), vec![variant("Use", "ItemUse")], None));
    assert!(text.contains("        panic!(\"No missing variant.\");\n"));
}

#[test]
fn list_wrappers() {
    let text = render(&gen_list_code("StatementList".to_string(), "Statement".to_string()));
    assert!(text.starts_with("#[derive(Clone, Debug, Eq, Hash, PartialEq)]\npub struct StatementList(ElementList<Statement,1>);"));
    assert!(text.contains("children: Vec<StatementGreen>"));
    assert!(text.contains("db.lookup_intern_green(id.0).width()"));
    assert!(text.contains("details: GreenNodeDetails::Node { children: vec![], width: TextWidth::default() },"));
    assert!(text.contains("Self(ElementList::new(node))"));
    let text = render(&gen_separated_list_code(
        "ArgList".to_string(),
        "Arg".to_string(),
        "TerminalComma".to_string(),
    ));
    assert!(text.contains("pub struct ArgList(ElementList<Arg,2>);"));
    assert!(text.contains("children: Vec<ArgListElementOrSeparatorGreen>"));
    assert!(text.contains("db.lookup_intern_green(id.id()).width()"));
    assert!(text.contains("pub enum ArgListElementOrSeparatorGreen {\n    Separator(TerminalCommaGreen),\n    Element(ArgGreen),\n}\n"));
    assert!(text.contains("impl From<TerminalCommaGreen> for ArgListElementOrSeparatorGreen {"));
    assert!(text.contains("ArgListElementOrSeparatorGreen::Element(green) => green.0,"));
}

#[test]
fn ast_wraps_each_node_in_order() {
    let nodes = vec![
        Node { name: "TokenPlus".to_string(), kind: NodeKind::Token { is_keyword: false } },
        Node {
            name: "StatementList".to_string(),
            kind: NodeKind::List { element_type: "Statement".to_string() },
        },
    ];
    let text = render(&generate_ast_code(nodes));
    assert!(text.starts_with("// Autogenerated file. To regenerate, please run `cargo run --bin generate-syntax`.\n\n#![allow(clippy::match_single_binding)]"));
    let header_end = text.find("mod ast_ext;\n").unwrap() + "mod ast_ext;\n".len();
    let token = render(&gen_token_code("TokenPlus".to_string()));
    let list = render(&gen_list_code("StatementList".to_string(), "Statement".to_string()));
    assert_eq!(&text[header_end..], format!("{token}{list}"));
}
