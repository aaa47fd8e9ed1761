//! Rule descriptors and the rule registry.
//!
//! A rule descriptor is immutable, statically defined configuration: the
//! construct's canonical name, its accepted aliases, and its capability
//! flags. The registry is an ordered table of rules built once before
//! parsing and never mutated; its order is the engine's whole
//! disambiguation strategy, because the dispatcher accepts the first rule
//! that matches.

use vstd::prelude::*;
use vstd::string::StrSliceExecFns;
use crate::head::{spec_open_modifier, spec_open_name, spec_open_shape, spec_open_special};
use crate::tokens::{ExtractedToken, TokenKind, TokenView};
use crate::tree::ContainerType;

verus! {

/// Descriptor of one block-style construct.
pub struct BlockRule {
    /// Canonical rule name, recorded on diagnostics (e.g. `block-bold`).
    pub name: String,
    /// Names and aliases under which the construct is invoked.
    pub accepts_names: Vec<String>,
    /// Whether the special invocation form (`[[*name]]`) is supported.
    pub accepts_special: bool,
    /// Whether the modifier invocation form (`[[name_]]`) is supported.
    pub accepts_modifier: bool,
    /// Whether newlines may stand inside the head section.
    pub accepts_newlines: bool,
    /// Whether the construct carries a body up to a closing marker.
    pub accepts_body: bool,
    /// Whether the construct may sit inline inside a paragraph, provided
    /// its own body allows it.
    pub paragraph_safe: bool,
    /// The container type its elements are tagged with.
    pub ctype: ContainerType,
}

/// One registered rule: a construct family member.
pub enum Rule {
    /// Plain text, whitespace and line breaks become literal text leaves.
    Text,
    /// A block-style construct described by its descriptor.
    Block(BlockRule),
}

/// The ordered rule table consulted by the dispatcher.
pub struct Registry {
    pub rules: Vec<Rule>,
}

/// Mathematical image of a block rule descriptor.
pub ghost struct BlockRuleView {
    pub name: Seq<char>,
    pub accepts_names: Seq<Seq<char>>,
    pub accepts_special: bool,
    pub accepts_modifier: bool,
    pub accepts_newlines: bool,
    pub accepts_body: bool,
    pub paragraph_safe: bool,
    pub ctype: ContainerType,
}

/// Mathematical image of a rule.
pub ghost enum RuleView {
    Text,
    Block(BlockRuleView),
}

impl View for BlockRule {
    type V = BlockRuleView;

    open spec fn view(&self) -> BlockRuleView {
        BlockRuleView {
            name: self.name@,
            accepts_names: self.accepts_names@.map(|i: int, n: String| n@),
            accepts_special: self.accepts_special,
            accepts_modifier: self.accepts_modifier,
            accepts_newlines: self.accepts_newlines,
            accepts_body: self.accepts_body,
            paragraph_safe: self.paragraph_safe,
            ctype: self.ctype,
        }
    }
}

impl View for Rule {
    type V = RuleView;

    open spec fn view(&self) -> RuleView {
        match self {
            Rule::Text => RuleView::Text,
            Rule::Block(b) => RuleView::Block(b@),
        }
    }
}

impl View for Registry {
    type V = Seq<RuleView>;

    open spec fn view(&self) -> Seq<RuleView> {
        self.rules@.map(|i: int, r: Rule| r@)
    }
}

/// Whether a rule is registered for tokens of this kind at all.
pub open spec fn spec_rule_applies(r: RuleView, kind: TokenKind) -> bool {
    match r {
        RuleView::Text => kind == TokenKind::Text || kind == TokenKind::Whitespace
            || kind == TokenKind::LineBreak,
        RuleView::Block(_) => kind == TokenKind::BlockOpen,
    }
}

/// Whether a rule matches the current token: it is registered for the
/// token's kind, and — for a block rule — the token is a well-shaped
/// opening marker whose name the rule owns, invoked only in forms the
/// rule declared support for. The dispatcher routes a token to a rule's
/// parse function exactly under this predicate, so a parse function may
/// assume it as a precondition.
pub open spec fn spec_rule_matches(r: RuleView, t: TokenView) -> bool {
    match r {
        RuleView::Text => spec_rule_applies(r, t.kind),
        RuleView::Block(b) => {
            &&& t.kind == TokenKind::BlockOpen
            &&& spec_open_shape(t.slice)
            &&& spec_open_name(t.slice).len() > 0
            &&& b.accepts_names.contains(spec_open_name(t.slice))
            &&& (spec_open_special(t.slice) ==> b.accepts_special)
            &&& (spec_open_modifier(t.slice) ==> b.accepts_modifier)
        },
    }
}

/// Whether two string slices hold the same characters.
pub fn str_eq(a: &str, b: &str) -> (r: bool)
    ensures
        r == (a@ == b@),
{
    let alen = a.unicode_len();
    let blen = b.unicode_len();
    if alen != blen {
        return false;
    }
    let mut i: usize = 0;
    while i < alen
        invariant
            i <= alen,
            alen == a@.len(),
            alen == b@.len(),
            forall|k: int| 0 <= k < i ==> a@[k] == b@[k],
        decreases alen - i,
    {
        if a.get_char(i) != b.get_char(i) {
            return false;
        }
        i = i + 1;
    }
    proof {
        assert(a@ =~= b@);
    }
    true
}

/// Whether any of the registered names equals `name`.
pub fn names_contain(names: &Vec<String>, name: &str) -> (r: bool)
    ensures
        r == names@.map(|i: int, n: String| n@).contains(name@),
{
    let ghost mapped = names@.map(|i: int, n: String| n@);
    let mut i: usize = 0;
    while i < names.len()
        invariant
            i <= names.len(),
            mapped == names@.map(|i: int, n: String| n@),
            forall|k: int| 0 <= k < i ==> mapped[k] != name@,
        decreases names.len() - i,
    {
        if str_eq(names[i].as_str(), name) {
            assert(mapped.contains(name@)) by {
                assert(mapped[i as int] == name@);
            }
            return true;
        }
        i = i + 1;
    }
    false
}

impl Rule {
    /// Whether this rule is registered for tokens of the given kind.
    pub fn applies_to(&self, kind: TokenKind) -> (r: bool)
        ensures
            r == spec_rule_applies(self@, kind),
    {
        match self {
            Rule::Text => matches!(
                kind,
                TokenKind::Text | TokenKind::Whitespace | TokenKind::LineBreak
            ),
            Rule::Block(_) => matches!(kind, TokenKind::BlockOpen),
        }
    }
}

impl Registry {
    /// Builds a registry from an ordered rule table. Higher priority
    /// stands earlier.
    pub fn new(rules: Vec<Rule>) -> (r: Registry)
        ensures
            r.rules == rules,
    {
        Registry { rules }
    }
}

/// The rules eligible to attempt a token of this kind, in priority order:
/// the registry's order with non-applicable rules left out.
pub open spec fn spec_rules_for(rules: Seq<RuleView>, kind: TokenKind) -> Seq<RuleView>
    decreases rules.len(),
{
    if rules.len() == 0 {
        Seq::empty()
    } else {
        let rest = spec_rules_for(rules.subrange(1, rules.len() as int), kind);
        if spec_rule_applies(rules[0], kind) {
            seq![rules[0]] + rest
        } else {
            rest
        }
    }
}

impl Registry {
    /// The ordered candidate rules for one token, by its kind. The result
    /// is deterministic: it depends only on the registry and the kind.
    pub fn rules_for(&self, kind: TokenKind) -> (r: Vec<&Rule>)
        ensures
            r@.map(|i: int, x: &Rule| (*x)@) == spec_rules_for(self@, kind),
    {
        let mut out: Vec<&Rule> = Vec::new();
        let mut i: usize = 0;
        proof {
            assert(out@.map(|n: int, x: &Rule| (*x)@) =~= Seq::<RuleView>::empty());
            assert(self@.subrange(0, 0) =~= Seq::<RuleView>::empty());
            lemma_rules_for_empty(kind);
        }
        while i < self.rules.len()
            invariant
                i <= self.rules.len(),
                out@.map(|n: int, x: &Rule| (*x)@) == spec_rules_for(
                    self@.subrange(0, i as int),
                    kind,
                ),
            decreases self.rules.len() - i,
        {
            let ghost prev = out@.map(|n: int, x: &Rule| (*x)@);
            let rule = &self.rules[i];
            if rule.applies_to(kind) {
                out.push(rule);
                proof {
                    assert(out@.map(|n: int, x: &Rule| (*x)@) =~= prev.push(rule@));
                }
            }
            proof {
                lemma_rules_for_snoc(self@, i as int, kind);
            }
            i = i + 1;
        }
        proof {
            assert(self@.subrange(0, self.rules.len() as int) =~= self@);
        }
        out
    }
}

/// A rule can only match a token it is registered for, so the
/// dispatcher's ordered choice over the whole registry visits matching
/// rules in exactly the order [`Registry::rules_for`] lists them.
pub proof fn lemma_matches_implies_applies(r: RuleView, t: TokenView)
    ensures
        spec_rule_matches(r, t) ==> spec_rule_applies(r, t.kind),
{
}

/// No rules, no candidates.
proof fn lemma_rules_for_empty(kind: TokenKind)
    ensures
        spec_rules_for(Seq::empty(), kind) == Seq::<RuleView>::empty(),
{
}

/// Extending the table by one rule at the back appends it to the
/// candidates exactly when it applies.
proof fn lemma_rules_for_snoc(rules: Seq<RuleView>, i: int, kind: TokenKind)
    requires
        0 <= i < rules.len(),
    ensures
        spec_rules_for(rules.subrange(0, i + 1), kind) == if spec_rule_applies(rules[i], kind) {
            spec_rules_for(rules.subrange(0, i), kind).push(rules[i])
        } else {
            spec_rules_for(rules.subrange(0, i), kind)
        },
    decreases i,
{
    let pre = rules.subrange(0, i + 1);
    let cur = rules.subrange(0, i);
    if i == 0 {
        assert(pre.subrange(1, pre.len() as int) =~= Seq::<RuleView>::empty());
        assert(cur =~= Seq::<RuleView>::empty());
        if spec_rule_applies(rules[0], kind) {
            assert(spec_rules_for(pre, kind) =~= spec_rules_for(cur, kind).push(rules[0]));
        }
    } else {
        lemma_rules_for_snoc(rules.subrange(1, rules.len() as int), i - 1, kind);
        assert(pre.subrange(1, pre.len() as int) =~= rules.subrange(1, rules.len() as int)
            .subrange(0, i));
        assert(cur.subrange(1, cur.len() as int) =~= rules.subrange(1, rules.len() as int)
            .subrange(0, i - 1));
        assert(rules.subrange(1, rules.len() as int)[i - 1] == rules[i]);
        assert(pre[0] == rules[0]);
        assert(cur[0] == rules[0]);
        if spec_rule_applies(rules[i], kind) {
            if spec_rule_applies(rules[0], kind) {
                assert(spec_rules_for(pre, kind) =~= spec_rules_for(cur, kind).push(rules[i]));
            } else {
                assert(spec_rules_for(pre, kind) =~= spec_rules_for(cur, kind).push(rules[i]));
            }
        }
    }
}

/// The descriptor of the bold styled-container construct: invoked as
/// `b`, `bold` or `strong`; no special form, no modifier form, no
/// newlines in its head; carries a body parsed without paragraph breaks,
/// and sits inline wherever its body allows it.
pub fn block_bold() -> (r: BlockRule)
    ensures
        r@.name == "block-bold"@,
        r@.accepts_names == seq!["b"@, "bold"@, "strong"@],
        !r@.accepts_special,
        !r@.accepts_modifier,
        !r@.accepts_newlines,
        r@.accepts_body,
        r@.paragraph_safe,
        r@.ctype == ContainerType::Bold,
{
    let mut accepts_names: Vec<String> = Vec::new();
    accepts_names.push("b".to_owned());
    accepts_names.push("bold".to_owned());
    accepts_names.push("strong".to_owned());
    let r = BlockRule {
        name: "block-bold".to_owned(),
        accepts_names,
        accepts_special: false,
        accepts_modifier: false,
        accepts_newlines: false,
        accepts_body: true,
        paragraph_safe: true,
        ctype: ContainerType::Bold,
    };
    proof {
        assert(r@.accepts_names =~= seq!["b"@, "bold"@, "strong"@]);
    }
    r
}

/// The default registry: literal text first, then the bold construct.
pub fn default_registry() -> (r: Registry)
    ensures
        r@.len() == 2,
        r@[0] == RuleView::Text,
        r@[1] matches RuleView::Block(b) && b == block_bold_view(),
{
    let mut rules: Vec<Rule> = Vec::new();
    rules.push(Rule::Text);
    rules.push(Rule::Block(block_bold()));
    let r = Registry { rules };
    proof {
        assert(r@[1] matches RuleView::Block(b) && b == block_bold_view());
    }
    r
}

/// The bold descriptor's image, for stating contracts about the default
/// registry.
pub open spec fn block_bold_view() -> BlockRuleView {
    BlockRuleView {
        name: "block-bold"@,
        accepts_names: seq!["b"@, "bold"@, "strong"@],
        accepts_special: false,
        accepts_modifier: false,
        accepts_newlines: false,
        accepts_body: true,
        paragraph_safe: true,
        ctype: ContainerType::Bold,
    }
}

/// Whether one of the terminator names closes this token: it is a
/// closing marker whose name the construct owns.
pub open spec fn spec_is_terminator(names: Seq<Seq<char>>, t: TokenView) -> bool {
    &&& t.kind == TokenKind::BlockClose
    &&& crate::head::spec_close_shape(t.slice)
    &&& names.contains(crate::head::spec_close_name(t.slice))
}

/// Decides [`spec_is_terminator`] for one token.
pub fn is_terminator(names: &Vec<String>, token: &ExtractedToken) -> (r: bool)
    ensures
        r == spec_is_terminator(names@.map(|i: int, n: String| n@), token@),
{
    if !matches!(token.kind, TokenKind::BlockClose) {
        return false;
    }
    match crate::head::examine_close(token.slice.as_str()) {
        Option::Some(name) => names_contain(names, name.as_str()),
        Option::None => false,
    }
}

} // verus!
