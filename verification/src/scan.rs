//! Fixed-width sliding-window search for keyword tokens in raw bytes.
//!
//! A buffer is cut into every run of `width` consecutive bytes, and each run
//! is compared, as a whole, with the tokens of a family. A token is therefore
//! found only where it is exactly as long as the window: a shorter or longer
//! token equals no window, wherever it occurs in the buffer.

use vstd::prelude::*;
use vstd::slice::slice_subrange;
use vstd::string::*;

verus! {

/// The bytes of a text whose characters are all ASCII.
pub open spec fn ascii(text: Seq<char>) -> Seq<u8> {
    Seq::new(text.len(), |i: int| text[i] as u8)
}

/// Whether a whole window of `width` bytes begins at `start`.
pub open spec fn window_in_bounds(bytes: Seq<u8>, start: int, width: nat) -> bool {
    0 <= start && start + width <= bytes.len()
}

/// The run of `width` bytes that begins at `start`.
pub open spec fn window(bytes: Seq<u8>, start: int, width: nat) -> Seq<u8> {
    bytes.subrange(start, start + width)
}

/// Whether `token` occurs in `bytes` as a contiguous run, at any position.
pub open spec fn occurs(bytes: Seq<u8>, token: Seq<u8>) -> bool {
    exists|start: int|
        window_in_bounds(bytes, start, token.len()) && #[trigger] window(
            bytes,
            start,
            token.len(),
        ) == token
}

/// A family of keyword tokens, searched for with one window width.
#[derive(Clone, Copy, Debug, PartialEq, Eq, Structural)]
pub enum TokenFamily {
    /// Keywords of Rust source text, searched for in four-byte windows.
    Rust,
    /// Keywords of C and C++ source text, searched for in two-byte windows.
    CCpp,
}

impl TokenFamily {
    /// The window width used for this family.
    pub open spec fn width(self) -> nat {
        match self {
            TokenFamily::Rust => 4,
            TokenFamily::CCpp => 2,
        }
    }

    /// The tokens of this family, in the order in which a window is compared
    /// with them.
    pub open spec fn tokens(self) -> Seq<Seq<u8>> {
        match self {
            TokenFamily::Rust => seq![
                ascii("fn "@),
                ascii("use "@),
                ascii("struct"@),
                ascii("enum"@),
                ascii("impl"@),
                ascii("'a"@),
                ascii("trait"@),
                ascii("match"@),
                ascii("if "@),
                ascii("loop"@),
            ],
            TokenFamily::CCpp => seq![ascii("if"@), ascii("for"@), ascii("int"@)],
        }
    }

    /// Whether the window that begins at `start` equals a token of this family.
    pub open spec fn matches_at(self, bytes: Seq<u8>, start: int) -> bool {
        window_in_bounds(bytes, start, self.width()) && self.tokens().contains(
            window(bytes, start, self.width()),
        )
    }

    /// Whether any window of `bytes` equals a token of this family.
    pub open spec fn found_in(self, bytes: Seq<u8>) -> bool {
        exists|start: int| self.matches_at(bytes, start)
    }

    /// Whether no token of this family occurs anywhere in `bytes`, whatever
    /// its length.
    pub open spec fn absent_from(self, bytes: Seq<u8>) -> bool {
        forall|i: int|
            0 <= i < self.tokens().len() ==> !occurs(bytes, #[trigger] self.tokens()[i])
    }

    /// The window width used for this family.
    pub fn window_width(self) -> (width: usize)
        ensures
            width == self.width(),
    {
        match self {
            TokenFamily::Rust => 4,
            TokenFamily::CCpp => 2,
        }
    }

    /// Compares a run of bytes with every token of the family, whole against
    /// whole.
    pub fn matches(self, run: &[u8]) -> (hit: bool)
        ensures
            hit == self.tokens().contains(run@),
    {
        match self {
            TokenFamily::Rust => {
                proof {
                    reveal_strlit("fn ");
                    reveal_strlit("use ");
                    reveal_strlit("struct");
                    reveal_strlit("enum");
                    reveal_strlit("impl");
                    reveal_strlit("'a");
                    reveal_strlit("trait");
                    reveal_strlit("match");
                    reveal_strlit("if ");
                    reveal_strlit("loop");
                }
                let hit = equals_text(run, "fn ")
                    || equals_text(run, "use ")
                    || equals_text(run, "struct")
                    || equals_text(run, "enum")
                    || equals_text(run, "impl")
                    || equals_text(run, "'a")
                    || equals_text(run, "trait")
                    || equals_text(run, "match")
                    || equals_text(run, "if ")
                    || equals_text(run, "loop");
                hit
            },
            TokenFamily::CCpp => {
                proof {
                    reveal_strlit("if");
                    reveal_strlit("for");
                    reveal_strlit("int");
                }
                let hit = equals_text(run, "if")
                    || equals_text(run, "for")
                    || equals_text(run, "int");
                hit
            },
        }
    }
}

/// Whether two byte strings are equal: of one length, and equal byte for byte.
pub fn bytes_equal(a: &[u8], b: &[u8]) -> (equal: bool)
    ensures
        equal == (a@ == b@),
{
    if a.len() != b.len() {
        return false;
    }
    let mut i: usize = 0;
    while i < a.len()
        invariant
            i <= a.len(),
            a.len() == b.len(),
            forall|j: int| 0 <= j < i ==> a@[j] == b@[j],
        decreases a.len() - i,
    {
        if a[i] != b[i] {
            return false;
        }
        i += 1;
    }
    assert(a@ =~= b@);
    true
}

/// Whether `run` holds exactly the bytes of the ASCII text `text`.
fn equals_text(run: &[u8], text: &str) -> (equal: bool)
    requires
        is_ascii(text),
    ensures
        equal == (run@ == ascii(text@)),
{
    broadcast use is_ascii_spec_bytes;

    bytes_equal(run, text.as_bytes())
}

/// Slides a window of the family's width over `bytes` and reports whether any
/// window equals one of the family's tokens. A buffer shorter than the window
/// has no window at all.
pub fn contains_token(bytes: &[u8], family: TokenFamily) -> (found: bool)
    ensures
        found == family.found_in(bytes@),
{
    let width = family.window_width();
    if bytes.len() < width {
        return false;
    }
    let last: usize = bytes.len() - width;
    let mut start: usize = 0;
    while start <= last
        invariant
            width == family.width(),
            last + width == bytes.len(),
            start <= last + 1,
            forall|s: int| 0 <= s < start ==> !family.matches_at(bytes@, s),
        decreases last + 1 - start,
    {
        let run = slice_subrange(bytes, start, start + width);
        if family.matches(run) {
            assert(family.matches_at(bytes@, start as int));
            return true;
        }
        start += 1;
    }
    false
}

/// A token that is not as long as the window equals no window, wherever it
/// may occur in the buffer.
pub proof fn lemma_token_of_other_length_fills_no_window(
    bytes: Seq<u8>,
    start: int,
    width: nat,
    token: Seq<u8>,
)
    requires
        token.len() != width,
        window_in_bounds(bytes, start, width),
    ensures
        window(bytes, start, width) != token,
{
}

/// A window that equals a token is an occurrence of that token.
pub proof fn lemma_found_token_occurs(family: TokenFamily, bytes: Seq<u8>)
    requires
        family.found_in(bytes),
    ensures
        exists|i: int|
            0 <= i < family.tokens().len() && family.tokens()[i].len() == family.width()
                && occurs(bytes, #[trigger] family.tokens()[i]),
{
    let start = choose|start: int| family.matches_at(bytes, start);
    let tokens = family.tokens();
    let run = window(bytes, start, family.width());
    let i = choose|i: int| 0 <= i < tokens.len() && tokens[i] == run;
    assert(window(bytes, start, tokens[i].len()) == tokens[i]);
    assert(occurs(bytes, tokens[i]));
}

/// Where no token of a family occurs in a buffer, at whatever length, no
/// window of the buffer equals a token of the family.
pub proof fn lemma_absent_family_not_found(family: TokenFamily, bytes: Seq<u8>)
    requires
        family.absent_from(bytes),
    ensures
        !family.found_in(bytes),
{
    if family.found_in(bytes) {
        lemma_found_token_occurs(family, bytes);
    }
}

/// What is found in a buffer is still found when other bytes are put before
/// and after it.
pub proof fn lemma_found_survives_embedding(
    family: TokenFamily,
    before: Seq<u8>,
    bytes: Seq<u8>,
    after: Seq<u8>,
)
    requires
        family.found_in(bytes),
    ensures
        family.found_in(before + bytes + after),
{
    let start = choose|start: int| family.matches_at(bytes, start);
    let whole = before + bytes + after;
    let shifted = before.len() + start;
    assert(window(whole, shifted, family.width()) =~= window(bytes, start, family.width()));
    assert(family.matches_at(whole, shifted));
}

} // verus!
