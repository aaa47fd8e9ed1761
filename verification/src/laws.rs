//! Engine-wide laws, proved once over the reference parser.
//!
//! The executable engine returns exactly the reference parser's values,
//! so each law below holds of the engine for every registry and every
//! finite token stream.

use vstd::prelude::*;
use crate::diagnostics::ParseErrorKind;
use crate::head::spec_open_newline;
use crate::rules::{BlockRuleView, RuleView, spec_is_terminator, spec_rule_matches};
use crate::semantics::{ConsumedView, lemma_consume_bounds, spec_attempt, spec_consume,
    spec_err_at, spec_first_match, spec_gather, spec_parse};
use crate::tokens::TokenView;
use crate::tree::ElementView;

verus! {

/// Totality: a whole parse reads every token and never stops early. The
/// parse of any finite token stream — empty or malformed as it may be —
/// is a defined value of the total function [`spec_parse`], whose cursor
/// ends exactly at the stream's end; the executable [`crate::consume::parse`]
/// returns exactly that value, terminates (all recursion carries a
/// decreases measure) and, being verified, cannot panic.
pub proof fn lemma_parse_total(rules: Seq<RuleView>, toks: Seq<TokenView>)
    ensures
        spec_parse(rules, toks).next == toks.len(),
        spec_parse(rules, toks).closed,
{
    lemma_gather_none(rules, toks, 0);
}

/// Gathering with no terminator demanded runs to the stream's end.
proof fn lemma_gather_none(rules: Seq<RuleView>, toks: Seq<TokenView>, c: int)
    requires
        0 <= c <= toks.len(),
    ensures
        spec_gather(rules, toks, c, Option::None).next == toks.len(),
        spec_gather(rules, toks, c, Option::None).closed,
    decreases toks.len() - c,
{
    if c < toks.len() {
        lemma_consume_bounds(rules, toks, c);
        lemma_gather_none(rules, toks, spec_consume(rules, toks, c).next);
    }
}

/// Fallback correctness: when no registered rule matches the current
/// token, the dispatcher produces exactly a literal text element
/// wrapping that token's slice, advances by one token, and records
/// exactly one no-rules-match diagnostic, raised by the fallback path at
/// the token's span.
pub proof fn lemma_fallback_correct(rules: Seq<RuleView>, toks: Seq<TokenView>, c: int)
    requires
        0 <= c < toks.len(),
        forall|i: int| 0 <= i < rules.len() ==> !spec_rule_matches(rules[i], toks[c]),
    ensures
        spec_consume(rules, toks, c) == (ConsumedView {
            element: ElementView::Text { text: toks[c].slice },
            next: c + 1,
            errors: seq![
                spec_err_at(
                    ParseErrorKind::NoRulesMatch,
                    crate::diagnostics::spec_rule_fallback(),
                    toks[c],
                ),
            ],
            paragraph_safe: true,
        }),
{
    lemma_first_match_skips(rules, toks, c, 0);
}

/// Ordered choice passes over every non-matching candidate.
proof fn lemma_first_match_skips(rules: Seq<RuleView>, toks: Seq<TokenView>, c: int, i: int)
    requires
        0 <= c < toks.len(),
        0 <= i <= rules.len(),
        forall|j: int| i <= j < rules.len() ==> !spec_rule_matches(rules[j], toks[c]),
    ensures
        spec_first_match(rules, toks, c, i) == spec_first_match(rules, toks, c, rules.len() as int),
    decreases rules.len() - i,
{
    if i < rules.len() {
        lemma_first_match_skips(rules, toks, c, i + 1);
    }
}

/// Ordered-choice determinism: the first matching candidate wins. If
/// rule `i` matches the current token and no earlier candidate does, the
/// dispatcher's result is exactly rule `i`'s attempt — whatever later
/// rules, matching or not, stand behind it. In particular, of two rules
/// registered for the same token kind that would both match, the one
/// registered earlier is always selected.
pub proof fn lemma_ordered_choice(rules: Seq<RuleView>, toks: Seq<TokenView>, c: int, i: int)
    requires
        0 <= c < toks.len(),
        0 <= i < rules.len(),
        spec_rule_matches(rules[i], toks[c]),
        forall|k: int| 0 <= k < i ==> !spec_rule_matches(rules[k], toks[c]),
    ensures
        spec_consume(rules, toks, c) == spec_attempt(rules, toks, c, rules[i]),
{
    lemma_first_match_reaches(rules, toks, c, 0, i);
}

/// Ordered choice from `j` reaches the first match at `i ≥ j`.
proof fn lemma_first_match_reaches(
    rules: Seq<RuleView>,
    toks: Seq<TokenView>,
    c: int,
    j: int,
    i: int,
)
    requires
        0 <= c < toks.len(),
        0 <= j <= i < rules.len(),
        spec_rule_matches(rules[i], toks[c]),
        forall|k: int| j <= k < i ==> !spec_rule_matches(rules[k], toks[c]),
    ensures
        spec_first_match(rules, toks, c, j) == spec_attempt(rules, toks, c, rules[i]),
    decreases i - j,
{
    if j < i {
        lemma_first_match_reaches(rules, toks, c, j + 1, i);
    }
}

/// The paragraph-safety flags of the elements a span gathers, in order:
/// one flag per dispatched construct.
pub open spec fn spec_child_flags(
    rules: Seq<RuleView>,
    toks: Seq<TokenView>,
    c: int,
    term: Option<Seq<Seq<char>>>,
) -> Seq<bool>
    decreases toks.len() - c
        when 0 <= c <= toks.len()
{
    if c >= toks.len() {
        Seq::empty()
    } else if (term matches Option::Some(names) && spec_is_terminator(names, toks[c])) {
        Seq::empty()
    } else {
        let k = spec_consume(rules, toks, c);
        let step = if k.next <= c {
            c + 1
        } else if k.next > toks.len() {
            toks.len() as int
        } else {
            k.next
        };
        seq![k.paragraph_safe] + spec_child_flags(rules, toks, step, term)
    }
}

/// Paragraph-safety aggregation: a gathered span is paragraph-safe
/// exactly when every element it gathered is — one non-paragraph-safe
/// element anywhere makes the whole span unsafe.
pub proof fn lemma_gather_paragraph_safe(
    rules: Seq<RuleView>,
    toks: Seq<TokenView>,
    c: int,
    term: Option<Seq<Seq<char>>>,
)
    requires
        0 <= c <= toks.len(),
    ensures
        spec_gather(rules, toks, c, term).paragraph_safe <==> (forall|i: int|
            0 <= i < spec_child_flags(rules, toks, c, term).len() ==> spec_child_flags(
                rules,
                toks,
                c,
                term,
            )[i]),
    decreases toks.len() - c,
{
    let flags = spec_child_flags(rules, toks, c, term);
    if c >= toks.len() {
    } else if (term matches Option::Some(names) && spec_is_terminator(names, toks[c])) {
    } else {
        let k = spec_consume(rules, toks, c);
        lemma_consume_bounds(rules, toks, c);
        lemma_gather_paragraph_safe(rules, toks, k.next, term);
        let rest = spec_child_flags(rules, toks, k.next, term);
        assert(flags == seq![k.paragraph_safe] + rest);
        assert(flags[0] == k.paragraph_safe);
        assert(forall|i: int| 0 <= i < rest.len() ==> rest[i] == flags[i + 1]);
        if spec_gather(rules, toks, c, term).paragraph_safe {
            assert(forall|i: int| 0 <= i < flags.len() ==> flags[i]) by {
                assert(forall|i: int| 1 <= i < flags.len() ==> flags[i] == rest[i - 1]);
            }
        }
    }
}

/// Paragraph-safety propagation: a container construct declared
/// paragraph-safe is paragraph-safe exactly when every element of its
/// body is; declared not paragraph-safe, it never is. (The degenerate
/// head-with-forbidden-newline path is excluded: there the construct
/// degrades to literal text.)
pub proof fn lemma_paragraph_safety(
    rules: Seq<RuleView>,
    toks: Seq<TokenView>,
    c: int,
    b: BlockRuleView,
)
    requires
        0 <= c < toks.len(),
        b.accepts_body,
        !(spec_open_newline(toks[c].slice) && !b.accepts_newlines),
    ensures
        ({
            let body_flags = spec_child_flags(
                rules,
                toks,
                c + 1,
                Option::Some(b.accepts_names),
            );
            spec_attempt(rules, toks, c, RuleView::Block(b)).paragraph_safe <==> (b.paragraph_safe
                && (forall|i: int| 0 <= i < body_flags.len() ==> body_flags[i]))
        }),
{
    lemma_gather_paragraph_safe(rules, toks, c + 1, Option::Some(b.accepts_names));
}

} // verus!
