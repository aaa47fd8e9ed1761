//! The executable engine: dispatcher, rule attempts and the recursive
//! element builder.
//!
//! Every function here is proved to return exactly what the reference
//! parser in [`crate::semantics`] defines. The dispatcher resolves one
//! construct at the current token by ordered choice over the registry,
//! falling back to a literal text element when no rule matches; the
//! builder threads the cursor between dispatcher calls, aggregating
//! elements, diagnostics and paragraph-safety.

use vstd::prelude::*;
use crate::diagnostics::{ParseError, ParseErrorKind, ParseErrorView, errors_view};
use crate::head::examine_open;
use crate::rules::{BlockRule, Registry, Rule, RuleView, is_terminator, names_contain,
    spec_rule_matches};
use crate::semantics::{ConsumedView, GatheredView, spec_attempt, spec_consume,
    spec_first_match, spec_gather, spec_parse};
use crate::semantics::{lemma_consume_bounds, lemma_gather_step};
use crate::tokens::{ExtractedToken, TokenKind, tokens_view};
use crate::tree::{Container, Element, ElementView, elements_view, lemma_elements_view_push};

verus! {

/// A value built by a rule, together with the diagnostics produced while
/// building it and whether it may sit inline inside a paragraph.
pub struct ParseResult<T> {
    pub value: T,
    pub errors: Vec<ParseError>,
    pub paragraph_safe: bool,
}

/// A successful (possibly warning-laden) consumption: the element, the
/// cursor past everything consumed, and the diagnostics raised. With no
/// diagnostics this is a clean success; with some it is a warning, which
/// still counts as a match and is preferred over further candidates.
pub struct Matched {
    pub element: Element,
    pub next: usize,
    pub errors: Vec<ParseError>,
    pub paragraph_safe: bool,
}

/// The outcome of one rule attempt: a match (clean or with warnings)
/// carrying the consumed element and new cursor, or a refusal, upon
/// which the dispatcher tries the next candidate or falls back.
pub enum Consumption {
    Matched(Matched),
    NotMatched,
}

/// The mathematical content of a match.
pub open spec fn matched_view(m: Matched) -> ConsumedView {
    ConsumedView {
        element: m.element@,
        next: m.next as int,
        errors: errors_view(m.errors@),
        paragraph_safe: m.paragraph_safe,
    }
}

/// Whether a consumption is a match whose content is exactly `k`.
pub open spec fn consumption_is(r: Consumption, k: ConsumedView) -> bool {
    match r {
        Consumption::Matched(m) => matched_view(m) == k,
        Consumption::NotMatched => false,
    }
}

impl Consumption {
    /// Whether this attempt matched (cleanly or with warnings).
    pub fn is_success(&self) -> (r: bool)
        ensures
            r == (*self matches Consumption::Matched(_)),
    {
        matches!(self, Consumption::Matched(_))
    }

    /// A clean success: an element consumed with no diagnostics.
    pub fn ok(element: Element, next: usize, paragraph_safe: bool) -> (r: Consumption)
        ensures
            consumption_is(
                r,
                ConsumedView {
                    element: element@,
                    next: next as int,
                    errors: Seq::empty(),
                    paragraph_safe,
                },
            ),
    {
        let errors: Vec<ParseError> = Vec::new();
        proof {
            assert(errors_view(errors@) =~= Seq::<ParseErrorView>::empty());
        }
        Consumption::Matched(Matched { element, next, errors, paragraph_safe })
    }

    /// A warning: an element still consumed, but with one diagnostic —
    /// preferred over trying further rules or falling back.
    pub fn warn(element: Element, next: usize, error: ParseError, paragraph_safe: bool) -> (r:
        Consumption)
        ensures
            consumption_is(
                r,
                ConsumedView {
                    element: element@,
                    next: next as int,
                    errors: seq![error@],
                    paragraph_safe,
                },
            ),
    {
        let ghost errorv = error@;
        let mut errors: Vec<ParseError> = Vec::new();
        errors.push(error);
        proof {
            assert(errors_view(errors@) =~= seq![errorv]);
        }
        Consumption::Matched(Matched { element, next, errors, paragraph_safe })
    }
}

/// What the recursive element builder hands back for one token span.
pub struct Gathered {
    pub elements: Vec<Element>,
    pub next: usize,
    pub errors: Vec<ParseError>,
    pub paragraph_safe: bool,
    pub closed: bool,
}

/// The mathematical content of a gathered span.
pub open spec fn gathered_view(g: Gathered) -> GatheredView {
    GatheredView {
        elements: elements_view(g.elements@),
        next: g.next as int,
        errors: errors_view(g.errors@),
        paragraph_safe: g.paragraph_safe,
        closed: g.closed,
    }
}

/// The terminator names demanded of the builder, if any.
pub open spec fn term_view(o: Option<&Vec<String>>) -> Option<Seq<Seq<char>>> {
    match o {
        Option::Some(names) => Option::Some(names@.map(|i: int, n: String| n@)),
        Option::None => Option::None,
    }
}

/// Parse function of the block construct family, bound to a descriptor.
///
/// The dispatcher routes a token here only when the descriptor owns the
/// invoked name and supports the invocation forms used — anything else
/// would be a wiring fault in the registry, excluded by precondition.
/// The head arguments are taken from the marker (one diagnostic if any
/// word is malformed); a forbidden newline in the head degrades the
/// whole marker to literal text with a diagnostic; a body, if accepted,
/// is built recursively until a closing marker owning one of the
/// descriptor's names, an unterminated body keeping its children with an
/// unclosed-block diagnostic. Returns the built element with its
/// diagnostics and paragraph-safety, and the cursor past the construct.
pub fn parse_fn(
    registry: &Registry,
    rule: &BlockRule,
    tokens: &Vec<ExtractedToken>,
    cursor: usize,
    name: &str,
    special: bool,
    modifier: bool,
) -> (r: (ParseResult<Element>, usize))
    requires
        cursor < tokens.len(),
        spec_rule_matches(RuleView::Block(rule@), tokens@[cursor as int]@),
        name@ == crate::head::spec_open_name(tokens@[cursor as int]@.slice),
        special == crate::head::spec_open_special(tokens@[cursor as int]@.slice),
        modifier == crate::head::spec_open_modifier(tokens@[cursor as int]@.slice),
    ensures
        ({
            let k = spec_attempt(
                registry@,
                tokens_view(tokens@),
                cursor as int,
                RuleView::Block(rule@),
            );
            &&& r.0.value@ == k.element
            &&& errors_view(r.0.errors@) == k.errors
            &&& r.0.paragraph_safe == k.paragraph_safe
            &&& r.1 as int == k.next
        }),
    decreases tokens.len() - cursor, 0int,
{
    let ghost rv = registry@;
    let ghost tvv = tokens_view(tokens@);
    let ghost k = spec_attempt(rv, tvv, cursor as int, RuleView::Block(rule@));
    let token = &tokens[cursor];
    proof {
        assert(tvv[cursor as int] == token@);
    }
    let exam = match examine_open(token.slice.as_str()) {
        Option::Some(e) => e,
        Option::None => vstd::pervasive::unreached(),
    };
    if exam.newline && !rule.accepts_newlines {
        let element = Element::Text(token.slice.clone());
        let error = ParseError::new(ParseErrorKind::NewlineInHead, rule.name.clone(), token);
        let mut errors: Vec<ParseError> = Vec::new();
        errors.push(error);
        proof {
            assert(errors_view(errors@) =~= k.errors);
        }
        return (ParseResult { value: element, errors, paragraph_safe: true }, cursor + 1);
    }
    let mut errors: Vec<ParseError> = Vec::new();
    if exam.malformed > 0 {
        errors.push(ParseError::new(ParseErrorKind::MalformedArguments, rule.name.clone(), token));
    }
    let ghost arg_errors = errors_view(errors@);
    proof {
        assert(arg_errors =~= if crate::head::spec_open_args(token@.slice).malformed > 0 {
            seq![
                crate::semantics::spec_err_at(
                    ParseErrorKind::MalformedArguments,
                    rule@.name,
                    token@,
                ),
            ]
        } else {
            Seq::<ParseErrorView>::empty()
        });
    }
    if rule.accepts_body {
        let mut g = get_body_elements(registry, tokens, cursor + 1, rule);
        let ghost gs = spec_gather(rv, tvv, cursor as int + 1, Option::Some(rule@.accepts_names));
        let ghost gelems = g.elements@;
        let ghost argsv = exam.arguments@;
        proof {
            assert(elements_view(gelems) == gs.elements);
        }
        let element = Element::Container(Container::new(rule.ctype, g.elements, exam.arguments));
        proof {
            assert(element@ matches ElementView::Container { ctype, children, arguments } && ctype
                == rule@.ctype && children == elements_view(gelems) && arguments == argsv.map(
                |i: int, a: crate::tree::Argument| a@,
            ));
        }
        let ghost before_append = errors@;
        errors.append(&mut g.errors);
        proof {
            assert(errors_view(errors@) =~= errors_view(before_append) + gs.errors);
        }
        if !g.closed {
            let ghost before_push = errors@;
            errors.push(ParseError::new(ParseErrorKind::UnclosedBlock, rule.name.clone(), token));
            proof {
                assert(errors_view(errors@) =~= errors_view(before_push).push(
                    crate::semantics::spec_err_at(
                        ParseErrorKind::UnclosedBlock,
                        rule@.name,
                        token@,
                    ),
                ));
                assert(errors_view(errors@) =~= k.errors);
            }
        } else {
            proof {
                assert(errors_view(errors@) =~= k.errors);
            }
        }
        proof {
            assert(element@ == k.element);
        }
        (
            ParseResult {
                value: element,
                errors,
                paragraph_safe: rule.paragraph_safe && g.paragraph_safe,
            },
            g.next,
        )
    } else {
        let ghost argsv = exam.arguments@;
        let element = Element::Container(Container::new(rule.ctype, Vec::new(), exam.arguments));
        proof {
            assert(elements_view(Seq::<Element>::empty()) =~= Seq::<ElementView>::empty());
            assert(element@ == k.element);
            assert(errors_view(errors@) =~= k.errors);
        }
        (ParseResult { value: element, errors, paragraph_safe: rule.paragraph_safe }, cursor + 1)
    }
}

/// Attempts one rule against the current token: the rule's parse
/// function runs exactly when the rule matches the token, and its result
/// is exactly what the reference parser assigns to this attempt.
pub fn try_consume(
    rule: &Rule,
    registry: &Registry,
    tokens: &Vec<ExtractedToken>,
    cursor: usize,
) -> (r: Consumption)
    requires
        cursor < tokens.len(),
    ensures
        spec_rule_matches(rule@, tokens@[cursor as int]@) ==> consumption_is(
            r,
            spec_attempt(registry@, tokens_view(tokens@), cursor as int, rule@),
        ),
        !spec_rule_matches(rule@, tokens@[cursor as int]@) ==> r is NotMatched,
    decreases tokens.len() - cursor, 1int,
{
    let token = &tokens[cursor];
    match rule {
        Rule::Text => {
            if matches!(token.kind, TokenKind::Text | TokenKind::Whitespace | TokenKind::LineBreak) {
                Consumption::ok(Element::Text(token.slice.clone()), cursor + 1, true)
            } else {
                Consumption::NotMatched
            }
        },
        Rule::Block(b) => {
            if !matches!(token.kind, TokenKind::BlockOpen) {
                return Consumption::NotMatched;
            }
            let exam = match examine_open(token.slice.as_str()) {
                Option::Some(e) => e,
                Option::None => {
                    return Consumption::NotMatched;
                },
            };
            if exam.name.as_str().is_empty() {
                return Consumption::NotMatched;
            }
            if !names_contain(&b.accepts_names, exam.name.as_str()) {
                return Consumption::NotMatched;
            }
            if exam.special && !b.accepts_special {
                return Consumption::NotMatched;
            }
            if exam.modifier && !b.accepts_modifier {
                return Consumption::NotMatched;
            }
            let (result, next) = parse_fn(
                registry,
                b,
                tokens,
                cursor,
                exam.name.as_str(),
                exam.special,
                exam.modifier,
            );
            Consumption::Matched(
                Matched {
                    element: result.value,
                    next,
                    errors: result.errors,
                    paragraph_safe: result.paragraph_safe,
                },
            )
        },
    }
}

/// Resolves exactly one syntactic construct at the current token.
///
/// Candidates are attempted in registry order; the first that does not
/// refuse wins immediately, later candidates never being tried. If every
/// candidate refuses, the token's slice becomes a literal text element
/// and one no-rules-match diagnostic is recorded: every token sequence,
/// however malformed, reduces to some element. The result is always a
/// match, and is exactly the reference parser's dispatch value.
pub fn consume(registry: &Registry, tokens: &Vec<ExtractedToken>, cursor: usize) -> (r:
    Consumption)
    requires
        cursor < tokens.len(),
    ensures
        consumption_is(r, spec_consume(registry@, tokens_view(tokens@), cursor as int)),
        r matches Consumption::Matched(m) && cursor < m.next <= tokens.len(),
    decreases tokens.len() - cursor, 2int,
{
    let ghost rv = registry@;
    let ghost tvv = tokens_view(tokens@);
    let ghost t = tokens@[cursor as int]@;
    proof {
        lemma_consume_bounds(rv, tvv, cursor as int);
    }
    let mut i: usize = 0;
    while i < registry.rules.len()
        invariant
            cursor < tokens.len(),
            i <= registry.rules.len(),
            rv == registry@,
            tvv == tokens_view(tokens@),
            t == tokens@[cursor as int]@,
            spec_first_match(rv, tvv, cursor as int, 0) == spec_first_match(
                rv,
                tvv,
                cursor as int,
                i as int,
            ),
        decreases registry.rules.len() - i,
    {
        let rule = &registry.rules[i];
        let attempt = try_consume(rule, registry, tokens, cursor);
        if attempt.is_success() {
            proof {
                lemma_consume_bounds(rv, tvv, cursor as int);
                assert(spec_rule_matches(rule@, t));
                assert(rv[i as int] == rule@);
                assert(spec_first_match(rv, tvv, cursor as int, i as int) == spec_attempt(
                    rv,
                    tvv,
                    cursor as int,
                    rule@,
                ));
                assert(consumption_is(attempt, spec_consume(rv, tvv, cursor as int)));
                assert(tvv.len() == tokens@.len());
                assert(attempt matches Consumption::Matched(m) && m.next as int == spec_consume(
                    rv,
                    tvv,
                    cursor as int,
                ).next);
                assert(attempt matches Consumption::Matched(m) && cursor < m.next && m.next
                    <= tokens.len());
            }
            return attempt;
        }
        proof {
            assert(!spec_rule_matches(rule@, t));
            assert(rv[i as int] == rule@);
        }
        i = i + 1;
    }
    let token = &tokens[cursor];
    let element = Element::Text(token.slice.clone());
    let error = ParseError::new(
        ParseErrorKind::NoRulesMatch,
        rule_fallback_name(),
        token,
    );
    let ghost elementv = element@;
    let ghost errorv = error@;
    let r = Consumption::warn(element, cursor + 1, error, true);
    proof {
        lemma_consume_bounds(rv, tvv, cursor as int);
        assert(seq![errorv] =~= spec_first_match(rv, tvv, cursor as int, i as int).errors);
        assert(consumption_is(r, spec_consume(rv, tvv, cursor as int)));
    }
    r
}

/// The rule name recorded on diagnostics raised by the fallback path.
pub fn rule_fallback_name() -> (r: String)
    ensures
        r@ == crate::diagnostics::spec_rule_fallback(),
{
    "fallback".to_owned()
}

/// Builds the ordered element sequence of one token span: repeated
/// dispatch from `cursor`, stopping at a closing marker owning one of
/// `close_names` (when demanded) or at the end of the stream. Aggregates
/// diagnostics in encounter order and paragraph-safety as the AND of the
/// elements'; a missing terminator yields `closed == false`, never an
/// error.
fn gather(
    registry: &Registry,
    tokens: &Vec<ExtractedToken>,
    cursor: usize,
    close_names: Option<&Vec<String>>,
) -> (g: Gathered)
    requires
        cursor <= tokens.len(),
    ensures
        gathered_view(g) == spec_gather(
            registry@,
            tokens_view(tokens@),
            cursor as int,
            term_view(close_names),
        ),
    decreases tokens.len() - cursor, 3int,
{
    let ghost rv = registry@;
    let ghost tvv = tokens_view(tokens@);
    let ghost termv = term_view(close_names);
    let ghost target = spec_gather(rv, tvv, cursor as int, termv);
    let mut elements: Vec<Element> = Vec::new();
    let mut errors: Vec<ParseError> = Vec::new();
    let mut paragraph_safe: bool = true;
    let mut pos: usize = cursor;
    proof {
        assert(elements_view(elements@) =~= Seq::<ElementView>::empty());
        assert(errors_view(errors@) =~= Seq::<ParseErrorView>::empty());
        assert(target.elements =~= elements_view(elements@) + spec_gather(
            rv,
            tvv,
            pos as int,
            termv,
        ).elements);
        assert(target.errors =~= errors_view(errors@) + spec_gather(
            rv,
            tvv,
            pos as int,
            termv,
        ).errors);
    }
    while pos < tokens.len()
        invariant
            cursor <= pos <= tokens.len(),
            rv == registry@,
            tvv == tokens_view(tokens@),
            termv == term_view(close_names),
            target == spec_gather(rv, tvv, cursor as int, termv),
            target.elements == elements_view(elements@) + spec_gather(
                rv,
                tvv,
                pos as int,
                termv,
            ).elements,
            target.errors == errors_view(errors@) + spec_gather(rv, tvv, pos as int, termv).errors,
            target.paragraph_safe == (paragraph_safe && spec_gather(
                rv,
                tvv,
                pos as int,
                termv,
            ).paragraph_safe),
            target.next == spec_gather(rv, tvv, pos as int, termv).next,
            target.closed == spec_gather(rv, tvv, pos as int, termv).closed,
        decreases tokens.len() - pos,
    {
        let ghost before = spec_gather(rv, tvv, pos as int, termv);
        let terminated = match close_names {
            Option::Some(names) => is_terminator(names, &tokens[pos]),
            Option::None => false,
        };
        if terminated {
            let g = Gathered { elements, next: pos + 1, errors, paragraph_safe, closed: true };
            proof {
                assert(elements_view(g.elements@) =~= target.elements);
                assert(errors_view(g.errors@) =~= target.errors);
            }
            return g;
        }
        let step = consume(registry, tokens, pos);
        let m = match step {
            Consumption::Matched(m) => m,
            Consumption::NotMatched => vstd::pervasive::unreached(),
        };
        proof {
            lemma_gather_step(rv, tvv, pos as int, termv);
        }
        let ghost prev_elements = elements@;
        let ghost prev_errors = errors@;
        let ghost melem = m.element;
        let mut merrors = m.errors;
        elements.push(m.element);
        errors.append(&mut merrors);
        paragraph_safe = paragraph_safe && m.paragraph_safe;
        proof {
            lemma_elements_view_push(prev_elements, melem);
            let k = spec_consume(rv, tvv, pos as int);
            let rest = spec_gather(rv, tvv, k.next, termv);
            assert(elements_view(elements@) =~= elements_view(prev_elements).push(melem@));
            assert(errors_view(errors@) =~= errors_view(prev_errors) + k.errors);
            assert(target.elements =~= elements_view(elements@) + rest.elements);
            assert(target.errors =~= errors_view(errors@) + rest.errors);
        }
        pos = m.next;
    }
    let closed = close_names.is_none();
    let g = Gathered { elements, next: pos, errors, paragraph_safe, closed };
    proof {
        assert(elements_view(g.elements@) =~= target.elements);
        assert(errors_view(g.errors@) =~= target.errors);
    }
    g
}

/// Builds a construct's body: the elements from `cursor` up to a closing
/// marker owning one of the descriptor's names. An unterminated body
/// keeps everything gathered before the end of the stream, reporting
/// `closed == false`.
pub fn get_body_elements(
    registry: &Registry,
    tokens: &Vec<ExtractedToken>,
    cursor: usize,
    rule: &BlockRule,
) -> (g: Gathered)
    requires
        cursor <= tokens.len(),
    ensures
        gathered_view(g) == spec_gather(
            registry@,
            tokens_view(tokens@),
            cursor as int,
            Option::Some(rule@.accepts_names),
        ),
    decreases tokens.len() - cursor, 4int,
{
    gather(registry, tokens, cursor, Option::Some(&rule.accepts_names))
}

/// Parses a whole token stream into its top-level elements.
///
/// Always terminates and always returns a tree: the value is the
/// reference parser's, whose totality is proved once and for all. The
/// diagnostics list is empty exactly when the reference parser raises
/// nothing. Every recursion in the engine carries a decreases measure
/// bounded by the number of unread tokens, so nesting depth never
/// exceeds the stream's length; a caller bounding worst-case latency or
/// stack use against adversarial input does so by bounding the token
/// count it hands in.
pub fn parse(registry: &Registry, tokens: &Vec<ExtractedToken>) -> (r: ParseResult<Vec<Element>>)
    ensures
        ({
            let g = spec_parse(registry@, tokens_view(tokens@));
            &&& elements_view(r.value@) == g.elements
            &&& errors_view(r.errors@) == g.errors
            &&& r.paragraph_safe == g.paragraph_safe
        }),
{
    let g = gather(registry, tokens, 0, Option::None);
    ParseResult { value: g.elements, errors: g.errors, paragraph_safe: g.paragraph_safe }
}

} // verus!
