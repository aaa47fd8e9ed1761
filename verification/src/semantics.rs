//! The specification-level reference parser.
//!
//! These spec functions define, once and mathematically, what the engine
//! computes: what one rule attempt yields, which rule the ordered-choice
//! dispatcher picks, and how the recursive element builder folds a token
//! span into elements, diagnostics and a paragraph-safety flag. Every
//! executable engine function is proved to return exactly these values,
//! so totality and determinism hold by construction: the functions below
//! are total mathematical functions of the registry and the token stream.

use vstd::prelude::*;
use crate::diagnostics::{ParseErrorKind, ParseErrorView, spec_rule_fallback};
use crate::head::{spec_open_args, spec_open_newline};
use crate::rules::{BlockRuleView, RuleView, spec_is_terminator, spec_rule_matches};
use crate::tokens::TokenView;
use crate::tree::ElementView;

verus! {

/// What consuming one construct yields: the element, the cursor after
/// it, the diagnostics raised while producing it, and whether the
/// element may sit inline inside a paragraph.
pub ghost struct ConsumedView {
    pub element: ElementView,
    pub next: int,
    pub errors: Seq<ParseErrorView>,
    pub paragraph_safe: bool,
}

/// What gathering a token span yields: the elements in order, the cursor
/// after the span, the diagnostics in encounter order, the conjunction
/// of the elements' paragraph-safety, and whether the span ended at its
/// terminator (rather than running off the end of the stream).
pub ghost struct GatheredView {
    pub elements: Seq<ElementView>,
    pub next: int,
    pub errors: Seq<ParseErrorView>,
    pub paragraph_safe: bool,
    pub closed: bool,
}

/// A diagnostic of the given kind, raised by the named rule, pointing at
/// one token's span.
pub open spec fn spec_err_at(kind: ParseErrorKind, rule: Seq<char>, t: TokenView)
    -> ParseErrorView {
    ParseErrorView { kind, rule, start: t.start, end: t.end }
}

/// What one matched rule consumes, starting at token `c`.
///
/// A text rule takes its token as a literal leaf. A block rule whose
/// head holds a forbidden newline degrades to a literal leaf of the
/// whole marker with a diagnostic — the construct is treated as if it
/// did not appear here. Otherwise the marker's head arguments are read
/// (one diagnostic if any word was malformed), the body — if the rule
/// accepts one — is gathered up to a closing marker owning one of the
/// rule's names (a missing terminator adds a diagnostic but keeps the
/// children gathered so far), and the construct's paragraph-safety is
/// its declared flag conjoined with its body's.
pub open spec fn spec_attempt(
    rules: Seq<RuleView>,
    toks: Seq<TokenView>,
    c: int,
    r: RuleView,
) -> ConsumedView
    decreases toks.len() - c, 0int, 0int
        when 0 <= c < toks.len()
{
    match r {
        RuleView::Text => ConsumedView {
            element: ElementView::Text { text: toks[c].slice },
            next: c + 1,
            errors: Seq::empty(),
            paragraph_safe: true,
        },
        RuleView::Block(b) => {
            let t = toks[c];
            if spec_open_newline(t.slice) && !b.accepts_newlines {
                ConsumedView {
                    element: ElementView::Text { text: t.slice },
                    next: c + 1,
                    errors: seq![spec_err_at(ParseErrorKind::NewlineInHead, b.name, t)],
                    paragraph_safe: true,
                }
            } else {
                let ha = spec_open_args(t.slice);
                let arg_errors: Seq<ParseErrorView> = if ha.malformed > 0 {
                    seq![spec_err_at(ParseErrorKind::MalformedArguments, b.name, t)]
                } else {
                    Seq::empty()
                };
                if b.accepts_body {
                    let g = spec_gather(rules, toks, c + 1, Option::Some(b.accepts_names));
                    let close_errors: Seq<ParseErrorView> = if g.closed {
                        Seq::empty()
                    } else {
                        seq![spec_err_at(ParseErrorKind::UnclosedBlock, b.name, t)]
                    };
                    ConsumedView {
                        element: ElementView::Container {
                            ctype: b.ctype,
                            children: g.elements,
                            arguments: ha.args,
                        },
                        next: g.next,
                        errors: arg_errors + g.errors + close_errors,
                        paragraph_safe: b.paragraph_safe && g.paragraph_safe,
                    }
                } else {
                    ConsumedView {
                        element: ElementView::Container {
                            ctype: b.ctype,
                            children: Seq::empty(),
                            arguments: ha.args,
                        },
                        next: c + 1,
                        errors: arg_errors,
                        paragraph_safe: b.paragraph_safe,
                    }
                }
            }
        },
    }
}

/// Ordered choice from candidate `i` on: the first rule at or after `i`
/// that matches the current token wins outright; if none matches, the
/// token degrades to a literal text leaf with one no-rules-match
/// diagnostic raised by the fallback path.
pub open spec fn spec_first_match(
    rules: Seq<RuleView>,
    toks: Seq<TokenView>,
    c: int,
    i: int,
) -> ConsumedView
    decreases toks.len() - c, 1int, rules.len() - i
        when 0 <= c < toks.len() && 0 <= i <= rules.len()
{
    if i >= rules.len() {
        ConsumedView {
            element: ElementView::Text { text: toks[c].slice },
            next: c + 1,
            errors: seq![
                spec_err_at(ParseErrorKind::NoRulesMatch, spec_rule_fallback(), toks[c]),
            ],
            paragraph_safe: true,
        }
    } else if spec_rule_matches(rules[i], toks[c]) {
        spec_attempt(rules, toks, c, rules[i])
    } else {
        spec_first_match(rules, toks, c, i + 1)
    }
}

/// What the dispatcher resolves at token `c`: ordered choice over the
/// whole registry, falling back to literal text.
pub open spec fn spec_consume(rules: Seq<RuleView>, toks: Seq<TokenView>, c: int) -> ConsumedView
    decreases toks.len() - c, 2int, 0int
        when 0 <= c < toks.len()
{
    spec_first_match(rules, toks, c, 0)
}

/// What the recursive element builder gathers from token `c` to the
/// caller's terminator (a closing marker owning one of the given names)
/// or the end of the stream. The span's paragraph-safety is the logical
/// AND of its elements'; a span that ends at the stream's end is closed
/// only if no terminator was demanded.
pub open spec fn spec_gather(
    rules: Seq<RuleView>,
    toks: Seq<TokenView>,
    c: int,
    term: Option<Seq<Seq<char>>>,
) -> GatheredView
    decreases toks.len() - c, 3int, 0int
        when 0 <= c <= toks.len()
{
    if c >= toks.len() {
        GatheredView {
            elements: Seq::empty(),
            next: c,
            errors: Seq::empty(),
            paragraph_safe: true,
            closed: term is None,
        }
    } else if (term matches Option::Some(names) && spec_is_terminator(names, toks[c])) {
        GatheredView {
            elements: Seq::empty(),
            next: c + 1,
            errors: Seq::empty(),
            paragraph_safe: true,
            closed: true,
        }
    } else {
        let k = spec_consume(rules, toks, c);
        let step = if k.next <= c {
            c + 1
        } else if k.next > toks.len() {
            toks.len() as int
        } else {
            k.next
        };
        let rest = spec_gather(rules, toks, step, term);
        GatheredView {
            elements: seq![k.element] + rest.elements,
            next: rest.next,
            errors: k.errors + rest.errors,
            paragraph_safe: k.paragraph_safe && rest.paragraph_safe,
            closed: rest.closed,
        }
    }
}

/// What a whole parse yields: the stream gathered from its start with no
/// terminator demanded.
pub open spec fn spec_parse(rules: Seq<RuleView>, toks: Seq<TokenView>) -> GatheredView {
    spec_gather(rules, toks, 0, Option::None)
}

/// A rule attempt leaves the cursor strictly advanced and in bounds.
pub proof fn lemma_attempt_bounds(rules: Seq<RuleView>, toks: Seq<TokenView>, c: int, r: RuleView)
    requires
        0 <= c < toks.len(),
    ensures
        c < spec_attempt(rules, toks, c, r).next <= toks.len(),
    decreases toks.len() - c, 0int, 0int,
{
    match r {
        RuleView::Text => {},
        RuleView::Block(b) => {
            let t = toks[c];
            if !(spec_open_newline(t.slice) && !b.accepts_newlines) && b.accepts_body {
                lemma_gather_bounds(rules, toks, c + 1, Option::Some(b.accepts_names));
            }
        },
    }
}

/// Ordered choice leaves the cursor strictly advanced and in bounds.
pub proof fn lemma_first_match_bounds(
    rules: Seq<RuleView>,
    toks: Seq<TokenView>,
    c: int,
    i: int,
)
    requires
        0 <= c < toks.len(),
        0 <= i <= rules.len(),
    ensures
        c < spec_first_match(rules, toks, c, i).next <= toks.len(),
    decreases toks.len() - c, 1int, rules.len() - i,
{
    if i >= rules.len() {
    } else if spec_rule_matches(rules[i], toks[c]) {
        lemma_attempt_bounds(rules, toks, c, rules[i]);
    } else {
        lemma_first_match_bounds(rules, toks, c, i + 1);
    }
}

/// The dispatcher leaves the cursor strictly advanced and in bounds.
pub proof fn lemma_consume_bounds(rules: Seq<RuleView>, toks: Seq<TokenView>, c: int)
    requires
        0 <= c < toks.len(),
    ensures
        c < spec_consume(rules, toks, c).next <= toks.len(),
    decreases toks.len() - c, 2int, 0int,
{
    lemma_first_match_bounds(rules, toks, c, 0);
}

/// The builder leaves the cursor at or after where it started, in
/// bounds, and strictly advanced when anything was left to gather.
pub proof fn lemma_gather_bounds(
    rules: Seq<RuleView>,
    toks: Seq<TokenView>,
    c: int,
    term: Option<Seq<Seq<char>>>,
)
    requires
        0 <= c <= toks.len(),
    ensures
        c <= spec_gather(rules, toks, c, term).next <= toks.len(),
    decreases toks.len() - c, 3int, 0int,
{
    if c >= toks.len() {
    } else if (term matches Option::Some(names) && spec_is_terminator(names, toks[c])) {
    } else {
        let k = spec_consume(rules, toks, c);
        lemma_consume_bounds(rules, toks, c);
        lemma_gather_bounds(rules, toks, k.next, term);
    }
}

/// Unfolding the builder one step where the span has not ended: the
/// dispatcher's result is prepended and gathering continues at its
/// (always in-bounds) next cursor.
pub proof fn lemma_gather_step(
    rules: Seq<RuleView>,
    toks: Seq<TokenView>,
    c: int,
    term: Option<Seq<Seq<char>>>,
)
    requires
        0 <= c < toks.len(),
        !(term matches Option::Some(names) && spec_is_terminator(names, toks[c])),
    ensures
        ({
            let k = spec_consume(rules, toks, c);
            let rest = spec_gather(rules, toks, k.next, term);
            spec_gather(rules, toks, c, term) == (GatheredView {
                elements: seq![k.element] + rest.elements,
                next: rest.next,
                errors: k.errors + rest.errors,
                paragraph_safe: k.paragraph_safe && rest.paragraph_safe,
                closed: rest.closed,
            })
        }),
{
    lemma_consume_bounds(rules, toks, c);
}

} // verus!
