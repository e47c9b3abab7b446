[package]
name = "cairo_lang_syntax_codegen"
version = "0.1.0"
edition = "2021"
publish = false

[dependencies]
genco = "0.17"
xshell = "0.2"
