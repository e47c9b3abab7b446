use cairo_lang_syntax_codegen::ast::get_unformatted_codes;
use cairo_lang_syntax_codegen::kinds::{
    append_rust_token, generate_key_fields_code, generate_kinds_code,
};
use cairo_lang_syntax_codegen::spec::{Member, Node, NodeKind, Variant};
use cairo_lang_syntax_codegen::tokens::{empty_tokens, render};

fn member(name: &str, kind: &str, key: bool) -> Member {
    Member { name: name.to_string(), kind: kind.to_string(), key }
}

fn sample_nodes() -> Vec<Node> {
    vec![
        Node {
            name: "Expr".to_string(),
            kind: NodeKind::Enum {
                variants: vec![Variant { name: "Path".to_string(), kind: "ExprPath".to_string() }],
                missing_variant: None,
            },
        },
        Node {
            name: "ExprPath".to_string(),
            kind: NodeKind::Struct {
                members: vec![member("ident", "TerminalIdentifier", true)],
            },
        },
        Node { name: "TokenIdentifier".to_string(), kind: NodeKind::Token { is_keyword: false } },
        Node { name: "TokenFn".to_string(), kind: NodeKind::Token { is_keyword: true } },
        Node {
            name: "TerminalFn".to_string(),
            kind: NodeKind::Terminal {
                is_keyword: true,
                members: vec![
                    member("leading_trivia", "Trivia", false),
                    member("token", "TokenFn", false),
                    member("trailing_trivia", "Trivia", false),
                ],
            },
        },
        Node {
            name: "Trivia".to_string(),
            kind: NodeKind::List { element_type: "Trivium".to_string() },
        },
    ]
}

#[test]
fn rust_token_alternation() {
    let mut alternatives = empty_tokens();
    append_rust_token(&mut alternatives, "TokenA");
    assert_eq!(render(&alternatives), "SyntaxKind::TokenA");
    append_rust_token(&mut alternatives, "TokenB");
    append_rust_token(&mut alternatives, "TokenC");
    assert_eq!(
        render(&alternatives),
        "SyntaxKind::TokenA| SyntaxKind::TokenB| SyntaxKind::TokenC"
    );
    let names = ["TokenA", "TokenB", "TokenC"];
    let joined = names.iter().map(|n| format!("SyntaxKind::{n}")).collect::<Vec<_>>().join("| ");
    assert_eq!(render(&alternatives), joined);
}

#[test]
fn kinds_lists_each_kind_and_its_predicates() {
    let text = render(&generate_kinds_code(&sample_nodes()));
    assert!(text.starts_with(
        "// Autogenerated file. To regenerate, please run `cargo run --bin generate-syntax`.\n\nuse core::fmt;\n"
    ));
    assert!(text.contains(
        "pub enum SyntaxKind {\nExprPath,\nTokenIdentifier,\nTokenFn,\nTerminalFn,\nTrivia,\n}\n"
    ));
    assert!(!text.contains("\nExpr,\n"));
    assert!(text.contains(
        "pub fn is_token(&self) -> bool {\n        matches!(\n            *self,\n            SyntaxKind::TokenIdentifier| SyntaxKind::TokenFn\n        )"
    ));
    assert!(text.contains(
        "pub fn is_terminal(&self) -> bool {\n        matches!(\n            *self,\n            SyntaxKind::TerminalFn\n        )"
    ));
    assert!(text.contains(
        "pub fn is_keyword_token(&self) -> bool {\n        matches!(\n            *self,\n            SyntaxKind::TokenFn\n        )"
    ));
    assert!(text.contains(
        "pub fn is_keyword_terminal(&self) -> bool {\n        matches!(\n            *self,\n            SyntaxKind::TerminalFn\n        )"
    ));
    assert!(text.ends_with("write!(f, \"{self:?}\")\n    }\n}\n"));
}

#[test]
fn key_fields_source_exactly() {
    let nodes = vec![
        Node {
            name: "ExprBinary".to_string(),
            kind: NodeKind::Struct {
                members: vec![
                    member("lhs", "Expr", true),
                    member("op", "BinaryOperator", false),
                    member("rhs", "Expr", true),
                ],
            },
        },
        Node { name: "TokenPlus".to_string(), kind: NodeKind::Token { is_keyword: false } },
        Node {
            name: "Expr".to_string(),
            kind: NodeKind::Enum { variants: vec![], missing_variant: None },
        },
    ];
    let text = render(&generate_key_fields_code(&nodes));
    let expected = "// Autogenerated file. To regenerate, please run `cargo run --bin generate-syntax`.\n\
\n\
use super::ids::GreenId;\n\
use super::kind::SyntaxKind;\n\
\n\
/// Gets the vector of children ids that are the indexing key for this SyntaxKind.\n\
\n\
/// Each SyntaxKind has some children that are defined in the spec to be its indexing key\n\
\n\
/// for its stable pointer. See [super::stable_ptr].\n\
\n\
pub fn get_key_fields(kind: SyntaxKind, children: &[GreenId]) -> Vec<GreenId> {\n    match kind {\n\
SyntaxKind::ExprBinary => {vec![/* lhs */ children[0],\n/* rhs */ children[2],\n]},\n\
SyntaxKind::TokenPlus => vec![],\n    }\n}\n";
    assert_eq!(text, expected);
}

#[test]
fn unformatted_codes_name_the_three_files() {
    let codes = get_unformatted_codes(sample_nodes());
    assert_eq!(codes.len(), 3);
    assert_eq!(codes[0].0, "crates/cairo-lang-syntax/src/node/ast.rs");
    assert_eq!(codes[1].0, "crates/cairo-lang-syntax/src/node/kind.rs");
    assert_eq!(codes[2].0, "crates/cairo-lang-syntax/src/node/key_fields.rs");
    assert_eq!(codes[1].1, render(&generate_kinds_code(&sample_nodes())));
    assert_eq!(codes[2].1, render(&generate_key_fields_code(&sample_nodes())));
    assert!(codes[0].1.contains("pub enum Expr {\n    Path(ExprPath),\n}\n"));
    assert!(codes[0].1.contains("pub struct ExprPath {\n    node: SyntaxNode,"));
    assert!(codes[0].1.contains("impl Token for TokenIdentifier {"));
    assert!(codes[0].1.contains("impl Terminal for TerminalFn {"));
    assert!(codes[0].1.contains("pub struct Trivia(ElementList<Trivium,1>);"));
}
