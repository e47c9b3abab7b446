//! The token streams that code is assembled in, and how they render.
//!
//! A stream is a `genco` Rust token stream. The library only ever puts
//! literal items into it, so what it holds is described by the text of its
//! literals, in order, and rendering it gives their concatenation.

use vstd::prelude::*;
use vstd::string::*;

use crate::text::digit_char;

verus! {

/// A `genco` Rust token stream (`genco::lang::rust::Tokens`) that code is
/// assembled in; what it holds is described by `token_literals`.
#[verifier::external_body]
pub struct CodeTokens {
    inner: genco::lang::rust::Tokens,
}

/// The error type of `genco`'s formatting.
#[verifier::external_type_specification]
#[verifier::external_body]
pub struct ExFmtError(core::fmt::Error);

/// The text of each item of the stream, in order, when every item of the
/// stream is a literal; `None` when some item is not a literal.
pub uninterp spec fn token_literals(t: CodeTokens) -> Option<Seq<Seq<char>>>;

/// The concatenation of a sequence of texts.
pub open spec fn concat(parts: Seq<Seq<char>>) -> Seq<char>
    decreases parts.len(),
{
    if parts.len() == 0 {
        Seq::empty()
    } else {
        concat(parts.drop_last()) + parts.last()
    }
}

/// Concatenation distributes over joining two sequences of texts.
pub proof fn lemma_concat_append(a: Seq<Seq<char>>, b: Seq<Seq<char>>)
    ensures
        concat(a + b) == concat(a) + concat(b),
    decreases b.len(),
{
    if b.len() == 0 {
        assert(a + b =~= a);
    } else {
        lemma_concat_append(a, b.drop_last());
        assert((a + b).drop_last() =~= a + b.drop_last());
    }
}

/// `genco::Tokens::new`: a stream with no items.
#[verifier::external_body]
pub(crate) fn tokens_new() -> (t: CodeTokens)
    ensures
        token_literals(t) == Some(Seq::<Seq<char>>::empty()),
{
    CodeTokens { inner: genco::lang::rust::Tokens::new() }
}

/// `genco::Tokens::append` of a string: the string becomes one more literal
/// item at the end of the stream; the items before it are kept.
#[verifier::external_body]
pub(crate) fn tokens_append(t: &mut CodeTokens, s: &str)
    ensures
        token_literals(*final(t)) == match token_literals(*old(t)) {
            Some(items) => Some(items.push(s@)),
            None => None::<Seq<Seq<char>>>,
        },
{
    t.inner.append(s);
}

/// `genco::Tokens::extend` with the items of another stream: when both hold
/// only literals, the items of `other` follow those of `t`. Nothing is stated
/// when `other` holds an item that is not a literal (such items may merge with
/// whitespace items at the end of `t`).
#[verifier::external_body]
pub(crate) fn tokens_extend(t: &mut CodeTokens, other: CodeTokens)
    ensures
        (token_literals(*old(t)) is Some && token_literals(other) is Some) ==> token_literals(
            *final(t),
        ) == Some(token_literals(*old(t)).unwrap() + token_literals(other).unwrap()),
{
    t.inner.extend(other.inner);
}

/// `genco::Tokens::is_empty`: whether the stream has no items.
#[verifier::external_body]
pub(crate) fn tokens_is_empty(t: &CodeTokens) -> (r: bool)
    ensures
        r == (token_literals(*t) == Some(Seq::<Seq<char>>::empty())),
{
    t.inner.is_empty()
}

/// `genco::Tokens::to_string`: for a stream of literals only, the formatter
/// writes each literal as it is and no whitespace, so the result is `Ok` with
/// their concatenation. Nothing is stated for other streams.
#[verifier::external_body]
pub(crate) fn tokens_to_string(t: &CodeTokens) -> (r: Result<String, core::fmt::Error>)
    ensures
        token_literals(*t) is Some ==> r is Ok,
        token_literals(*t) is Some ==> r.unwrap()@ == concat(token_literals(*t).unwrap()),
{
    t.inner.to_string()
}

/// A character that `genco` writes unchanged inside a Rust string literal:
/// neither a quote, a backslash, nor a control character (Unicode category
/// Cc: U+0000 to U+001F and U+007F to U+009F).
pub open spec fn plain_char(c: char) -> bool {
    &&& c != '"'
    &&& c != '\\'
    &&& !(c as u32 <= 0x1f)
    &&& !(0x7f <= c as u32 <= 0x9f)
}

/// The lower-case hexadecimal digit of `d < 16`.
pub open spec fn hex_digit(d: nat) -> char {
    if d < 10 {
        digit_char(d)
    } else if d == 10 {
        'a'
    } else if d == 11 {
        'b'
    } else if d == 12 {
        'c'
    } else if d == 13 {
        'd'
    } else if d == 14 {
        'e'
    } else {
        'f'
    }
}

/// How `genco` writes `c` inside a Rust string literal: one-letter escapes
/// for `\n`, `\r`, `\t`, `\\`, `\0` and `"`; other control characters as
/// `\xHH` below U+0080 and as `\u{HHHH}` from there, in lower-case
/// hexadecimal; every other character as it is.
pub open spec fn rust_char_escape(c: char) -> Seq<char> {
    let code = c as u32;
    if c == '\n' {
        seq!['\\', 'n']
    } else if c == '\r' {
        seq!['\\', 'r']
    } else if c == '\t' {
        seq!['\\', 't']
    } else if c == '\\' {
        seq!['\\', '\\']
    } else if c == '\0' {
        seq!['\\', '0']
    } else if c == '"' {
        seq!['\\', '"']
    } else if plain_char(c) {
        seq![c]
    } else if code < 0x80 {
        seq!['\\', 'x', hex_digit((code / 16) as nat), hex_digit((code % 16) as nat)]
    } else {
        seq![
            '\\',
            'u',
            '{',
            '0',
            '0',
            hex_digit((code / 16) as nat),
            hex_digit((code % 16) as nat),
            '}',
        ]
    }
}

/// The escaped characters of `s`, each as `rust_char_escape` gives it.
pub open spec fn rust_escaped(s: Seq<char>) -> Seq<char>
    decreases s.len(),
{
    if s.len() == 0 {
        Seq::empty()
    } else {
        rust_escaped(s.drop_last()) + rust_char_escape(s.last())
    }
}

/// The Rust string literal of `s`, as `genco` writes it.
pub open spec fn rust_quoted(s: Seq<char>) -> Seq<char> {
    seq!['"'] + rust_escaped(s) + seq!['"']
}

/// `genco::tokens::quoted`, rendered by `Tokens::to_string`: the formatter
/// opens and closes the quote with `"` and writes each character of `s` as
/// `rust_char_escape` gives it (`Rust::write_quoted`); writing into a
/// `String` does not fail.
#[verifier::external_body]
pub(crate) fn quoted_string(s: &str) -> (r: Result<String, core::fmt::Error>)
    ensures
        r is Ok,
        r is Ok ==> r.unwrap()@ == rust_quoted(s@),
{
    let mut t = genco::lang::rust::Tokens::new();
    t.append(genco::tokens::quoted(s));
    t.to_string()
}

/// The Rust string literal of `s`.
pub fn quote_str(s: &str) -> (r: String)
    ensures
        r@ == rust_quoted(s@),
{
    match quoted_string(s) {
        Ok(q) => q,
        Err(_) => String::new(),
    }
}

/// A stream with no items, to assemble code in.
pub fn empty_tokens() -> (t: CodeTokens)
    ensures
        token_literals(t) == Some(Seq::<Seq<char>>::empty()),
{
    tokens_new()
}

/// The text of a stream of literals: their concatenation.
pub fn render(t: &CodeTokens) -> (s: String)
    requires
        token_literals(*t) is Some,
    ensures
        s@ == concat(token_literals(*t).unwrap()),
{
    match tokens_to_string(t) {
        Ok(s) => s,
        Err(_) => String::new(),
    }
}

/// `s` followed by `suffix`, as a new string.
pub fn suffixed(s: &str, suffix: &str) -> (r: String)
    ensures
        r@ == s@ + suffix@,
{
    let mut r = String::from_str(s);
    r.append(suffix);
    r
}

} // verus!
