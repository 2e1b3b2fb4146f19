//! A best-effort guess at the source language of a binary, from keyword
//! tokens found among its raw bytes.
//!
//! The guess looks at every byte of the buffer alike, whatever section or
//! table it belongs to, and is expected to be wrong often.

use vstd::prelude::*;
use crate::scan::{
    ascii, contains_token, lemma_absent_family_not_found, lemma_found_survives_embedding,
    lemma_found_token_occurs, occurs, window, window_in_bounds, TokenFamily,
};

verus! {

/// The outcome of the language heuristic.
#[derive(Clone, Copy, Debug, PartialEq, Eq, Structural)]
pub enum Language {
    Rust,
    Cpp,
    Unknown,
}

impl Language {
    /// The text under which the guess is reported.
    pub open spec fn label(self) -> Seq<char> {
        match self {
            Language::Rust => "Rust"@,
            Language::Cpp => "C++"@,
            Language::Unknown => "Unknown (Detection not conclusive)"@,
        }
    }

    /// The text under which the guess is reported.
    pub fn name(self) -> (name: &'static str)
        ensures
            name@ == self.label(),
    {
        match self {
            Language::Rust => "Rust",
            Language::Cpp => "C++",
            Language::Unknown => "Unknown (Detection not conclusive)",
        }
    }
}

/// The guess for a buffer: Rust where a window equals a Rust token, else C++
/// where a window equals a C or C++ token, else unknown.
pub open spec fn guess(bytes: Seq<u8>) -> Language {
    if TokenFamily::Rust.found_in(bytes) {
        Language::Rust
    } else if TokenFamily::CCpp.found_in(bytes) {
        Language::Cpp
    } else {
        Language::Unknown
    }
}

/// Scans the whole buffer for both token families and returns the guess.
/// Rust tokens take precedence over C and C++ tokens.
pub fn detect_language(bytes: &[u8]) -> (language: Language)
    ensures
        language == guess(bytes@),
{
    let contains_rust_pattern = contains_token(bytes, TokenFamily::Rust);
    let contains_c_cpp_pattern = contains_token(bytes, TokenFamily::CCpp);
    if contains_rust_pattern {
        Language::Rust
    } else if contains_c_cpp_pattern {
        Language::Cpp
    } else {
        Language::Unknown
    }
}

/// Of the Rust tokens only the four that fill a window can be found: a
/// buffer holds a matching window exactly where `use `, `enum`, `impl` or
/// `loop` occurs in it.
pub proof fn lemma_rust_tokens_found(bytes: Seq<u8>)
    ensures
        TokenFamily::Rust.found_in(bytes) <==> occurs(bytes, ascii("use "@)) || occurs(
            bytes,
            ascii("enum"@),
        ) || occurs(bytes, ascii("impl"@)) || occurs(bytes, ascii("loop"@)),
{
    reveal_strlit("fn ");
    reveal_strlit("use ");
    reveal_strlit("struct");
    reveal_strlit("enum");
    reveal_strlit("impl");
    reveal_strlit("'a");
    reveal_strlit("trait");
    reveal_strlit("match");
    reveal_strlit("if ");
    reveal_strlit("loop");
    let family = TokenFamily::Rust;
    let tokens = family.tokens();
    assert(tokens[1] == ascii("use "@) && tokens[3] == ascii("enum"@) && tokens[4] == ascii(
        "impl"@,
    ) && tokens[9] == ascii("loop"@));
    if family.found_in(bytes) {
        lemma_found_token_occurs(family, bytes);
        let i = choose|i: int|
            0 <= i < tokens.len() && tokens[i].len() == 4 && occurs(bytes, #[trigger] tokens[i]);
        assert(i == 1 || i == 3 || i == 4 || i == 9);
    }
    assert forall|i: int|
        (i == 1 || i == 3 || i == 4 || i == 9) && occurs(
            bytes,
            #[trigger] tokens[i],
        ) implies family.found_in(bytes) by {
        let token = tokens[i];
        let start = choose|start: int|
            window_in_bounds(bytes, start, token.len()) && #[trigger] window(
                bytes,
                start,
                token.len(),
            ) == token;
        assert(family.matches_at(bytes, start));
    }
}

/// Of the C and C++ tokens only `if` fills a window: a buffer holds a
/// matching window exactly where `if` occurs in it.
pub proof fn lemma_c_cpp_tokens_found(bytes: Seq<u8>)
    ensures
        TokenFamily::CCpp.found_in(bytes) <==> occurs(bytes, ascii("if"@)),
{
    reveal_strlit("if");
    reveal_strlit("for");
    reveal_strlit("int");
    let family = TokenFamily::CCpp;
    let tokens = family.tokens();
    assert(tokens[0] == ascii("if"@));
    if family.found_in(bytes) {
        lemma_found_token_occurs(family, bytes);
        let i = choose|i: int|
            0 <= i < tokens.len() && tokens[i].len() == 2 && occurs(bytes, #[trigger] tokens[i]);
        assert(i == 0);
    }
    if occurs(bytes, tokens[0]) {
        let token = tokens[0];
        let start = choose|start: int|
            window_in_bounds(bytes, start, token.len()) && #[trigger] window(
                bytes,
                start,
                token.len(),
            ) == token;
        assert(family.matches_at(bytes, start));
    }
}

/// A buffer that is guessed to be Rust is still guessed to be Rust when
/// other bytes are put before and after it, whatever they are.
pub proof fn lemma_rust_guess_survives_embedding(
    before: Seq<u8>,
    bytes: Seq<u8>,
    after: Seq<u8>,
)
    requires
        guess(bytes) == Language::Rust,
    ensures
        guess(before + bytes + after) == Language::Rust,
{
    lemma_found_survives_embedding(TokenFamily::Rust, before, bytes, after);
}

/// A buffer in which no token of either family occurs is guessed to be of
/// unknown language.
pub proof fn lemma_no_token_guess_unknown(bytes: Seq<u8>)
    requires
        TokenFamily::Rust.absent_from(bytes),
        TokenFamily::CCpp.absent_from(bytes),
    ensures
        guess(bytes) == Language::Unknown,
{
    lemma_absent_family_not_found(TokenFamily::Rust, bytes);
    lemma_absent_family_not_found(TokenFamily::CCpp, bytes);
}

/// A buffer in which `fn ` occurs is guessed to be Rust, whatever else it
/// holds, provided that one of its four-byte windows equals a Rust token.
/// `fn ` is three bytes long and fills no window by itself.
pub proof fn lemma_fn_token_guess_rust(bytes: Seq<u8>)
    requires
        occurs(bytes, ascii("fn "@)),
        TokenFamily::Rust.found_in(bytes),
    ensures
        guess(bytes) == Language::Rust,
{
}

/// A buffer in which `int` occurs and no Rust token does is guessed to be
/// C++, provided that one of its two-byte windows equals a C or C++ token.
/// `int` is three bytes long and fills no window by itself.
pub proof fn lemma_int_token_guess_cpp(bytes: Seq<u8>)
    requires
        occurs(bytes, ascii("int"@)),
        TokenFamily::Rust.absent_from(bytes),
        TokenFamily::CCpp.found_in(bytes),
    ensures
        guess(bytes) == Language::Cpp,
{
    lemma_absent_family_not_found(TokenFamily::Rust, bytes);
}

} // verus!
