//! End-to-end tests of the parsing engine.

use ftml::consume::{consume, parse, Consumption};
use ftml::diagnostics::ParseErrorKind;
use ftml::head::examine_open;
use ftml::rules::{block_bold, default_registry, BlockRule, Registry, Rule};
use ftml::tokens::{ExtractedToken, TokenKind};
use ftml::tree::{Argument, Container, ContainerType, Element};

fn tok(kind: TokenKind, slice: &str, start: usize) -> ExtractedToken {
    ExtractedToken::new(kind, slice.to_string(), start, start + slice.len())
}

fn stream(parts: Vec<(TokenKind, &str)>) -> Vec<ExtractedToken> {
    let mut tokens = Vec::new();
    let mut pos = 0;
    for (kind, slice) in parts {
        let len = slice.len();
        tokens.push(tok(kind, slice, pos));
        pos += len;
    }
    tokens
}

fn text(s: &str) -> Element {
    Element::Text(s.to_string())
}

#[test]
fn empty_stream_parses_to_nothing() {
    let registry = default_registry();
    let tokens: Vec<ExtractedToken> = Vec::new();
    let result = parse(&registry, &tokens);
    assert_eq!(result.value, Vec::<Element>::new());
    assert_eq!(result.errors.len(), 0);
    assert!(result.paragraph_safe);
}

#[test]
fn round_trip_bold() {
    // [[b]]hello[[/b]] yields one bold container with one text child,
    // no arguments and no diagnostics.
    let registry = default_registry();
    let tokens = stream(vec![
        (TokenKind::BlockOpen, "[[b]]"),
        (TokenKind::Text, "hello"),
        (TokenKind::BlockClose, "[[/b]]"),
    ]);
    let result = parse(&registry, &tokens);
    assert_eq!(
        result.value,
        vec![Element::Container(Container {
            ctype: ContainerType::Bold,
            children: vec![text("hello")],
            arguments: Vec::new(),
        })]
    );
    assert_eq!(result.errors.len(), 0);
    assert!(result.paragraph_safe);
}

#[test]
fn bold_alias_and_closing_alias() {
    let registry = default_registry();
    let tokens = stream(vec![
        (TokenKind::BlockOpen, "[[strong]]"),
        (TokenKind::Text, "hi"),
        (TokenKind::BlockClose, "[[/bold]]"),
    ]);
    let result = parse(&registry, &tokens);
    assert_eq!(result.value.len(), 1);
    assert!(matches!(&result.value[0], Element::Container(c) if c.ctype == ContainerType::Bold));
    assert_eq!(result.errors.len(), 0);
}

#[test]
fn unknown_name_degrades_open_token_only() {
    // [[zzz]]text[[/zzz]] has no rule under "zzz": the opening token
    // degrades to its literal slice with a no-rules-match diagnostic,
    // and the rest of the stream is parsed independently.
    let registry = default_registry();
    let tokens = stream(vec![
        (TokenKind::BlockOpen, "[[zzz]]"),
        (TokenKind::Text, "text"),
        (TokenKind::BlockClose, "[[/zzz]]"),
    ]);
    let result = parse(&registry, &tokens);
    assert_eq!(result.value.len(), 3);
    assert_eq!(result.value[0], text("[[zzz]]"));
    assert_eq!(result.value[1], text("text"));
    assert_eq!(result.value[2], text("[[/zzz]]"));
    assert_eq!(result.errors[0].kind, ParseErrorKind::NoRulesMatch);
    assert_eq!(result.errors[0].rule, "fallback");
    assert_eq!((result.errors[0].start, result.errors[0].end), (0, 7));
}

#[test]
fn unclosed_body_keeps_partial_children() {
    // A bold block never closed keeps everything gathered before the
    // end of the stream, with an unclosed-block diagnostic.
    let registry = default_registry();
    let tokens = stream(vec![
        (TokenKind::BlockOpen, "[[b]]"),
        (TokenKind::Text, "one"),
        (TokenKind::Whitespace, " "),
        (TokenKind::Text, "two"),
    ]);
    let result = parse(&registry, &tokens);
    assert_eq!(
        result.value,
        vec![Element::Container(Container {
            ctype: ContainerType::Bold,
            children: vec![text("one"), text(" "), text("two")],
            arguments: Vec::new(),
        })]
    );
    assert_eq!(result.errors.len(), 1);
    assert_eq!(result.errors[0].kind, ParseErrorKind::UnclosedBlock);
    assert_eq!(result.errors[0].rule, "block-bold");
}

#[test]
fn fallback_when_no_rule_registered() {
    // With an empty registry, every token reduces to literal text with
    // exactly one no-rules-match diagnostic each.
    let registry = Registry::new(Vec::new());
    let tokens = stream(vec![(TokenKind::Text, "plain")]);
    let result = parse(&registry, &tokens);
    assert_eq!(result.value, vec![text("plain")]);
    assert_eq!(result.errors.len(), 1);
    assert_eq!(result.errors[0].kind, ParseErrorKind::NoRulesMatch);
    assert!(result.paragraph_safe);
}

fn stub_rule(alias: &str, ctype: ContainerType, paragraph_safe: bool) -> BlockRule {
    BlockRule {
        name: format!("block-{alias}"),
        accepts_names: vec![alias.to_string()],
        accepts_special: false,
        accepts_modifier: false,
        accepts_newlines: false,
        accepts_body: true,
        paragraph_safe,
        ctype,
    }
}

#[test]
fn ordered_choice_picks_higher_priority_rule() {
    // Two deliberately-overlapping rules both own "b"; the one
    // registered earlier always wins.
    let registry = Registry::new(vec![
        Rule::Text,
        Rule::Block(stub_rule("b", ContainerType::Span, true)),
        Rule::Block(block_bold()),
    ]);
    let tokens = stream(vec![
        (TokenKind::BlockOpen, "[[b]]"),
        (TokenKind::Text, "x"),
        (TokenKind::BlockClose, "[[/b]]"),
    ]);
    let result = parse(&registry, &tokens);
    assert_eq!(result.value.len(), 1);
    assert!(matches!(&result.value[0], Element::Container(c) if c.ctype == ContainerType::Span));

    // With the order reversed, bold wins instead.
    let registry = Registry::new(vec![
        Rule::Text,
        Rule::Block(block_bold()),
        Rule::Block(stub_rule("b", ContainerType::Span, true)),
    ]);
    let result = parse(&registry, &tokens);
    assert!(matches!(&result.value[0], Element::Container(c) if c.ctype == ContainerType::Bold));
}

#[test]
fn paragraph_safety_propagates_from_body() {
    // An inline, paragraph-safe container over paragraph-safe children
    // stays paragraph-safe; one non-paragraph-safe child poisons it.
    let registry = Registry::new(vec![
        Rule::Text,
        Rule::Block(block_bold()),
        Rule::Block(stub_rule("div", ContainerType::Span, false)),
    ]);
    let safe = stream(vec![
        (TokenKind::BlockOpen, "[[b]]"),
        (TokenKind::Text, "hello"),
        (TokenKind::BlockClose, "[[/b]]"),
    ]);
    assert!(parse(&registry, &safe).paragraph_safe);

    let unsafe_child = stream(vec![
        (TokenKind::BlockOpen, "[[b]]"),
        (TokenKind::BlockOpen, "[[div]]"),
        (TokenKind::Text, "x"),
        (TokenKind::BlockClose, "[[/div]]"),
        (TokenKind::BlockClose, "[[/b]]"),
    ]);
    assert!(!parse(&registry, &unsafe_child).paragraph_safe);
}

#[test]
fn newline_in_head_degrades_to_text() {
    // Bold forbids newlines in its head: the whole marker falls back to
    // literal text with a diagnostic, and the stream continues.
    let registry = default_registry();
    let tokens = stream(vec![
        (TokenKind::BlockOpen, "[[b\nstyle=red]]"),
        (TokenKind::Text, "after"),
    ]);
    let result = parse(&registry, &tokens);
    assert_eq!(result.value.len(), 2);
    assert_eq!(result.value[0], text("[[b\nstyle=red]]"));
    assert_eq!(result.value[1], text("after"));
    assert_eq!(result.errors.len(), 1);
    assert_eq!(result.errors[0].kind, ParseErrorKind::NewlineInHead);
}

#[test]
fn head_arguments_are_parsed() {
    let registry = default_registry();
    let tokens = stream(vec![
        (TokenKind::BlockOpen, "[[b style=red class=x]]"),
        (TokenKind::Text, "t"),
        (TokenKind::BlockClose, "[[/b]]"),
    ]);
    let result = parse(&registry, &tokens);
    assert_eq!(result.errors.len(), 0);
    match &result.value[0] {
        Element::Container(c) => {
            assert_eq!(
                c.arguments,
                vec![
                    Argument { name: "style".to_string(), value: "red".to_string() },
                    Argument { name: "class".to_string(), value: "x".to_string() },
                ]
            );
        }
        other => panic!("expected a container, got {other:?}"),
    }
}

#[test]
fn malformed_argument_word_is_diagnosed() {
    let registry = default_registry();
    let tokens = stream(vec![
        (TokenKind::BlockOpen, "[[b style]]"),
        (TokenKind::Text, "t"),
        (TokenKind::BlockClose, "[[/b]]"),
    ]);
    let result = parse(&registry, &tokens);
    assert_eq!(result.errors.len(), 1);
    assert_eq!(result.errors[0].kind, ParseErrorKind::MalformedArguments);
    match &result.value[0] {
        Element::Container(c) => assert_eq!(c.arguments.len(), 0),
        other => panic!("expected a container, got {other:?}"),
    }
}

#[test]
fn unsupported_special_form_falls_back() {
    // Bold declares no special form, so [[*b]] matches nothing and the
    // opening token degrades to text.
    let registry = default_registry();
    let tokens = stream(vec![
        (TokenKind::BlockOpen, "[[*b]]"),
        (TokenKind::Text, "x"),
        (TokenKind::BlockClose, "[[/b]]"),
    ]);
    let result = parse(&registry, &tokens);
    assert_eq!(result.value[0], text("[[*b]]"));
    assert_eq!(result.errors[0].kind, ParseErrorKind::NoRulesMatch);
}

#[test]
fn consume_resolves_one_construct() {
    let registry = default_registry();
    let tokens = stream(vec![
        (TokenKind::Text, "first"),
        (TokenKind::Text, "second"),
    ]);
    match consume(&registry, &tokens, 0) {
        Consumption::Matched(m) => {
            assert_eq!(m.element, text("first"));
            assert_eq!(m.next, 1);
            assert_eq!(m.errors.len(), 0);
            assert!(m.paragraph_safe);
        }
        Consumption::NotMatched => panic!("the dispatcher always matches"),
    }
}

#[test]
fn examine_open_reads_marker_parts() {
    let exam = examine_open("[[*name_ key=value bad]]").expect("well-shaped marker");
    assert_eq!(exam.name, "name");
    assert!(exam.special);
    assert!(exam.modifier);
    assert!(!exam.newline);
    assert_eq!(exam.arguments.len(), 1);
    assert_eq!(exam.arguments[0].name, "key");
    assert_eq!(exam.arguments[0].value, "value");
    assert_eq!(exam.malformed, 1);
    assert!(examine_open("not a marker").is_none());
}

#[test]
fn rules_for_filters_and_keeps_order() {
    let registry = Registry::new(vec![
        Rule::Text,
        Rule::Block(stub_rule("b", ContainerType::Span, true)),
        Rule::Block(block_bold()),
    ]);
    let for_open = registry.rules_for(TokenKind::BlockOpen);
    assert_eq!(for_open.len(), 2);
    assert!(matches!(for_open[0], Rule::Block(b) if b.name == "block-b"));
    assert!(matches!(for_open[1], Rule::Block(b) if b.name == "block-bold"));
    let for_text = registry.rules_for(TokenKind::Text);
    assert_eq!(for_text.len(), 1);
    assert!(matches!(for_text[0], Rule::Text));
    let for_close = registry.rules_for(TokenKind::BlockClose);
    assert_eq!(for_close.len(), 0);
}

#[test]
fn nested_bold_blocks() {
    let registry = default_registry();
    let tokens = stream(vec![
        (TokenKind::BlockOpen, "[[b]]"),
        (TokenKind::Text, "a"),
        (TokenKind::BlockOpen, "[[bold]]"),
        (TokenKind::Text, "inner"),
        (TokenKind::BlockClose, "[[/bold]]"),
        (TokenKind::Text, "z"),
        (TokenKind::BlockClose, "[[/b]]"),
    ]);
    let result = parse(&registry, &tokens);
    assert_eq!(result.errors.len(), 0);
    assert_eq!(
        result.value,
        vec![Element::Container(Container {
            ctype: ContainerType::Bold,
            children: vec![
                text("a"),
                Element::Container(Container {
                    ctype: ContainerType::Bold,
                    children: vec![text("inner")],
                    arguments: Vec::new(),
                }),
                text("z"),
            ],
            arguments: Vec::new(),
        })]
    );
}
