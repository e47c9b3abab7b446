use cairo_lang_syntax_codegen::tokens::quote_str;
use cairo_lang_syntax_codegen::text::{
    content_needs_write, decimal_string, ensure_trailing_newline, index_const_name_of_upper,
    index_const_name_string,
    replace_all,
};

#[test]
fn decimal_of_small_and_large_numbers() {
    assert_eq!(decimal_string(0), "0");
    assert_eq!(decimal_string(7), "7");
    assert_eq!(decimal_string(10), "10");
    assert_eq!(decimal_string(1234), "1234");
    assert_eq!(decimal_string(usize::MAX), usize::MAX.to_string());
}

#[test]
fn replace_terminal_by_token() {
    assert_eq!(replace_all("TerminalIdentifier", "Terminal", "Token"), "TokenIdentifier");
    assert_eq!(replace_all("TerminalTerminal", "Terminal", "Token"), "TokenToken");
    assert_eq!(replace_all("ExprPath", "Terminal", "Token"), "ExprPath");
    assert_eq!(replace_all("", "Terminal", "Token"), "");
}

#[test]
fn replace_takes_occurrences_from_the_left_without_overlap() {
    assert_eq!(replace_all("aaa", "aa", "b"), "ba");
    assert_eq!(replace_all("aaaa", "aa", "b"), "bb");
    assert_eq!(replace_all("abcabc", "bc", ""), "aa");
    assert_eq!(replace_all("aaa", "aa", "b"), "aaa".replace("aa", "b"));
}

#[test]
fn index_constant_name_from_upper_case_name() {
    assert_eq!(index_const_name_of_upper("LPAREN"), "INDEX_LPAREN");
    assert_eq!(index_const_name_of_upper(""), "INDEX_");
}

#[test]
fn index_constant_names_are_upper_case() {
    assert_eq!(index_const_name_string("lparen"), "INDEX_LPAREN");
    assert_eq!(index_const_name_string("return_type_clause"), "INDEX_RETURN_TYPE_CLAUSE");
}

#[test]
fn trailing_newline_added_only_when_missing() {
    assert_eq!(ensure_trailing_newline("fn f() {}".to_string()), "fn f() {}\n");
    assert_eq!(ensure_trailing_newline("fn f() {}\n".to_string()), "fn f() {}\n");
    assert_eq!(ensure_trailing_newline(String::new()), "\n");
}

#[test]
fn trailing_newline_twice_is_once() {
    let once = ensure_trailing_newline("x".to_string());
    let twice = ensure_trailing_newline(once.clone());
    assert_eq!(once, twice);
}

#[test]
fn file_written_only_when_content_differs() {
    let content = "a\n".to_string();
    assert!(content_needs_write(&None, &content));
    assert!(content_needs_write(&Some("b\n".to_string()), &content));
    assert!(!content_needs_write(&Some("a\n".to_string()), &content));
}

#[test]
fn names_are_quoted_as_rust_string_literals() {
    assert_eq!(quote_str("Expr"), "\"Expr\"");
    assert_eq!(quote_str("a\"b\\"), "\"a\\\"b\\\\\"");
    assert_eq!(quote_str("line\n"), "\"line\\n\"");
    assert_eq!(quote_str(""), "\"\"");
    assert_eq!(quote_str("\t\r\0"), "\"\\t\\r\\0\"");
    assert_eq!(quote_str("\u{7}"), "\"\\x07\"");
    assert_eq!(quote_str("π"), "\"π\"");
    assert_eq!(quote_str("\u{1b}"), "\"\\x1b\"");
    assert_eq!(quote_str("\u{7f}"), "\"\\x7f\"");
    assert_eq!(quote_str("\u{85}"), "\"\\u{0085}\"");
    assert_eq!(quote_str("\u{9f}a"), "\"\\u{009f}a\"");
    assert_eq!(quote_str("\u{a0}"), "\"\u{a0}\"");
}
