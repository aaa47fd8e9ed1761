//! Tokens handed to the parsing engine by the external tokenizer.
//!
//! The engine consumes a finished, ordered, immutable sequence of tokens.
//! Each token carries its lexical kind, the source slice it was extracted
//! from, and the byte span of that slice in the original document. The
//! engine never re-tokenizes: everything it decides, it decides from the
//! kind/slice/span triples alone.

use vstd::prelude::*;

verus! {

/// Lexical category of one extracted token.
///
/// A block construct's opening marker (for example `[[b]]`, aliases and
/// head arguments included) arrives as a single `BlockOpen` token whose
/// slice holds the whole marker; the matching terminator (`[[/b]]`)
/// arrives as one `BlockClose` token. Running text, whitespace runs and
/// line breaks each arrive as their own token.
#[derive(Clone, Copy, PartialEq, Eq, Debug, Structural)]
pub enum TokenKind {
    BlockOpen,
    BlockClose,
    Text,
    Whitespace,
    LineBreak,
}

/// One token extracted by the tokenizer: kind, source slice, byte span.
#[derive(Debug)]
pub struct ExtractedToken {
    pub kind: TokenKind,
    pub slice: String,
    pub start: usize,
    pub end: usize,
}

/// Mathematical image of one token, used by the specification-level parser.
pub ghost struct TokenView {
    pub kind: TokenKind,
    pub slice: Seq<char>,
    pub start: nat,
    pub end: nat,
}

impl View for ExtractedToken {
    type V = TokenView;

    open spec fn view(&self) -> TokenView {
        TokenView {
            kind: self.kind,
            slice: self.slice@,
            start: self.start as nat,
            end: self.end as nat,
        }
    }
}

/// The token sequence as the specification-level parser sees it.
pub open spec fn tokens_view(tokens: Seq<ExtractedToken>) -> Seq<TokenView> {
    tokens.map(|i: int, t: ExtractedToken| t@)
}

impl ExtractedToken {
    /// Builds one token; the ordinary way tests and callers make streams.
    pub fn new(kind: TokenKind, slice: String, start: usize, end: usize) -> (t: ExtractedToken)
        ensures
            t@ == (TokenView { kind, slice: slice@, start: start as nat, end: end as nat }),
    {
        ExtractedToken { kind, slice, start, end }
    }
}

} // verus!
