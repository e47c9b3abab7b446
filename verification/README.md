# cairo_lang_syntax_codegen

Generates the sources of the Cairo syntax tree (`kind.rs`, `key_fields.rs`
and `ast.rs`) from a description of the syntax nodes (`spec::Node`).

- `src/` is verified with Verus. Each generator appends literal text to a
  `genco` token stream and states, as a sequence of text pieces, exactly
  what the stream holds afterwards; `tokens::render` gives their
  concatenation.
  - `spec`: the node description; `kinds`: `SyntaxKind` and `get_key_fields`;
    `lists`, `enums`, `structs`: the typed wrappers per node shape, with
    shared pieces in `blocks`; `ast`: `ast.rs` and the three sources together;
    `text`: numerals, replacement, upper-casing, trailing newlines;
    `laws`: how the generated pieces agree with each other.
- `app/` runs `rustfmt` (through `xshell`) on the sources and writes files.
