//! Parse diagnostics.
//!
//! A diagnostic records one non-fatal problem met while parsing: which
//! kind of problem, which rule raised it (or the fallback path), and the
//! span of the offending token. Diagnostics never abort a parse; they are
//! collected in encounter order and handed back beside the tree.

use vstd::prelude::*;
use crate::tokens::ExtractedToken;

verus! {

/// The kinds of non-fatal problems a parse can record.
#[derive(Clone, Copy, PartialEq, Eq, Debug, Structural)]
pub enum ParseErrorKind {
    /// No registered rule matched the current token; it was degraded to text.
    NoRulesMatch,
    /// A word in a construct's head was not a well-formed `name=value` pair.
    MalformedArguments,
    /// A body-accepting construct reached end of input before its terminator.
    UnclosedBlock,
    /// A construct whose rule forbids newlines in its head held one anyway.
    NewlineInHead,
}

/// One recorded diagnostic: kind, raising rule, offending token span.
#[derive(Debug, PartialEq)]
pub struct ParseError {
    pub kind: ParseErrorKind,
    /// Name of the rule that raised it, or the fallback name for the
    /// dispatcher's text fallback.
    pub rule: String,
    pub start: usize,
    pub end: usize,
}

/// Rule name recorded on diagnostics raised by the fallback path.
pub open spec fn spec_rule_fallback() -> Seq<char> {
    "fallback"@
}

/// Mathematical image of a diagnostic.
pub ghost struct ParseErrorView {
    pub kind: ParseErrorKind,
    pub rule: Seq<char>,
    pub start: nat,
    pub end: nat,
}

impl View for ParseError {
    type V = ParseErrorView;

    open spec fn view(&self) -> ParseErrorView {
        ParseErrorView {
            kind: self.kind,
            rule: self.rule@,
            start: self.start as nat,
            end: self.end as nat,
        }
    }
}

/// The view of a diagnostic sequence, in encounter order.
pub open spec fn errors_view(errors: Seq<ParseError>) -> Seq<ParseErrorView> {
    errors.map(|i: int, e: ParseError| e@)
}

impl ParseError {
    /// Builds a diagnostic pointing at the given token's span.
    pub fn new(kind: ParseErrorKind, rule: String, token: &ExtractedToken) -> (e: ParseError)
        ensures
            e@ == (ParseErrorView {
                kind,
                rule: rule@,
                start: token.start as nat,
                end: token.end as nat,
            }),
    {
        ParseError { kind, rule, start: token.start, end: token.end }
    }
}

} // verus!
