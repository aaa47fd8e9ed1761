//! Determining the update tasks a new revision entails.
//!
//! When a revision changes a page, downstream caches must be refreshed —
//! but only those the change actually touches. The decision is a pure
//! function of the stored revision and the proposed changes; its exact
//! outcome, field by field, is stated in the contract of
//! [`RevisionTasks::determine`].

use vstd::prelude::*;
use crate::rules::str_eq;
use crate::text::{TextService, spec_hash_bytes};

verus! {

/// A field a revision body may set, or leave untouched.
pub enum ProvidedValue<T> {
    Provided(T),
    Unset,
}

/// The stored revision a change is compared against, reduced to the
/// plain values the decision reads.
pub struct PageRevisionModel {
    pub revision_id: i64,
    pub wikitext_hash: Vec<u8>,
    pub title: String,
    pub alt_title: Option<String>,
    pub slug: String,
    pub tags: Vec<String>,
}

/// The changes a new revision proposes.
pub struct CreateRevisionBody {
    pub wikitext: ProvidedValue<String>,
    pub hidden: ProvidedValue<bool>,
    pub title: ProvidedValue<String>,
    pub alt_title: ProvidedValue<Option<String>>,
    pub slug: ProvidedValue<String>,
    pub tags: ProvidedValue<Vec<String>>,
}

/// The view of an optional string.
pub open spec fn opt_string_view(o: Option<String>) -> Option<Seq<char>> {
    match o {
        Option::Some(s) => Option::Some(s@),
        Option::None => Option::None,
    }
}

/// The view of a string list.
pub open spec fn string_list_view(v: Seq<String>) -> Seq<Seq<char>> {
    v.map(|i: int, s: String| s@)
}

/// Whether the proposed wikitext digests differently from the stored one.
pub open spec fn spec_wikitext_changed(rev: PageRevisionModel, ch: CreateRevisionBody) -> bool {
    match ch.wikitext {
        ProvidedValue::Provided(w) => spec_hash_bytes(w@) != rev.wikitext_hash@,
        ProvidedValue::Unset => false,
    }
}

/// Whether the proposed title differs from the stored one.
pub open spec fn spec_title_changed(rev: PageRevisionModel, ch: CreateRevisionBody) -> bool {
    match ch.title {
        ProvidedValue::Provided(t) => t@ != rev.title@,
        ProvidedValue::Unset => false,
    }
}

/// Whether the proposed alternate title differs from the stored one.
pub open spec fn spec_alt_title_changed(rev: PageRevisionModel, ch: CreateRevisionBody) -> bool {
    match ch.alt_title {
        ProvidedValue::Provided(t) => opt_string_view(t) != opt_string_view(rev.alt_title),
        ProvidedValue::Unset => false,
    }
}

/// Whether the proposed slug differs from the stored one.
pub open spec fn spec_slug_changed(rev: PageRevisionModel, ch: CreateRevisionBody) -> bool {
    match ch.slug {
        ProvidedValue::Provided(s) => s@ != rev.slug@,
        ProvidedValue::Unset => false,
    }
}

/// Whether the proposed tag list differs from the stored one.
pub open spec fn spec_tags_changed(rev: PageRevisionModel, ch: CreateRevisionBody) -> bool {
    match ch.tags {
        ProvidedValue::Provided(t) => string_list_view(t@) != string_list_view(rev.tags@),
        ProvidedValue::Unset => false,
    }
}

/// A representation of the updating tasks to do for a revision.
#[derive(Debug, Copy, Clone, PartialEq, Eq, Structural)]
pub struct RevisionTasks {
    pub render_and_update_links: bool,
    pub rerender_incoming_links: bool,
    pub rerender_outgoing_includes: bool,
    pub rerender_templates: bool,
}

impl Default for RevisionTasks {
    /// No tasks at all.
    fn default() -> (r: Self)
        ensures
            !r.render_and_update_links,
            !r.rerender_incoming_links,
            !r.rerender_outgoing_includes,
            !r.rerender_templates,
    {
        RevisionTasks {
            render_and_update_links: false,
            rerender_incoming_links: false,
            rerender_outgoing_includes: false,
            rerender_templates: false,
        }
    }
}

/// Whether two byte strings are equal.
pub fn bytes_eq(a: &Vec<u8>, b: &Vec<u8>) -> (r: bool)
    ensures
        r == (a@ == b@),
{
    if a.len() != b.len() {
        return false;
    }
    let mut i: usize = 0;
    while i < a.len()
        invariant
            i <= a.len(),
            a.len() == b.len(),
            forall|k: int| 0 <= k < i ==> a@[k] == b@[k],
        decreases a.len() - i,
    {
        if a[i] != b[i] {
            return false;
        }
        i = i + 1;
    }
    proof {
        assert(a@ =~= b@);
    }
    true
}

/// Whether two string lists hold the same strings in the same order.
pub fn string_lists_eq(a: &Vec<String>, b: &Vec<String>) -> (r: bool)
    ensures
        r == (string_list_view(a@) == string_list_view(b@)),
{
    if a.len() != b.len() {
        proof {
            assert(string_list_view(a@).len() != string_list_view(b@).len());
        }
        return false;
    }
    let mut i: usize = 0;
    while i < a.len()
        invariant
            i <= a.len(),
            a.len() == b.len(),
            forall|k: int| 0 <= k < i ==> string_list_view(a@)[k] == string_list_view(b@)[k],
        decreases a.len() - i,
    {
        if !str_eq(a[i].as_str(), b[i].as_str()) {
            proof {
                assert(string_list_view(a@)[i as int] != string_list_view(b@)[i as int]);
            }
            return false;
        }
        i = i + 1;
    }
    proof {
        assert(string_list_view(a@) =~= string_list_view(b@));
    }
    true
}

/// Whether two optional strings are equal.
pub fn opt_strings_eq(a: &Option<String>, b: &Option<String>) -> (r: bool)
    ensures
        ({
            let av = match a {
                Option::Some(s) => Option::Some(s@),
                Option::None => Option::<Seq<char>>::None,
            };
            let bv = match b {
                Option::Some(s) => Option::Some(s@),
                Option::None => Option::<Seq<char>>::None,
            };
            r == (av == bv)
        }),
{
    match (a, b) {
        (Option::Some(x), Option::Some(y)) => str_eq(x.as_str(), y.as_str()),
        (Option::None, Option::None) => true,
        _ => false,
    }
}

impl RevisionTasks {
    /// Decides, field by field, which downstream updates a change set
    /// forces: a wikitext change (detected by digest) forces rendering
    /// and include/template refreshes; a title, alternate-title or slug
    /// change forces rendering and incoming-link refreshes; a slug or
    /// tag change additionally forces include and template refreshes.
    /// The hidden flag forces nothing.
    pub fn determine(revision: &PageRevisionModel, changes: &CreateRevisionBody) -> (tasks: Self)
        ensures
            tasks.render_and_update_links == (spec_wikitext_changed(*revision, *changes)
                || spec_title_changed(*revision, *changes) || spec_alt_title_changed(
                *revision,
                *changes,
            ) || spec_slug_changed(*revision, *changes) || spec_tags_changed(*revision, *changes)),
            tasks.rerender_incoming_links == (spec_title_changed(*revision, *changes)
                || spec_alt_title_changed(*revision, *changes) || spec_slug_changed(
                *revision,
                *changes,
            )),
            tasks.rerender_outgoing_includes == (spec_wikitext_changed(*revision, *changes)
                || spec_slug_changed(*revision, *changes) || spec_tags_changed(
                *revision,
                *changes,
            )),
            tasks.rerender_templates == (spec_wikitext_changed(*revision, *changes)
                || spec_slug_changed(*revision, *changes) || spec_tags_changed(
                *revision,
                *changes,
            )),
    {
        let mut tasks = RevisionTasks::default();

        if let ProvidedValue::Provided(wikitext) = &changes.wikitext {
            let digest = TextService::hash(wikitext.as_str());
            if !bytes_eq(&revision.wikitext_hash, &digest) {
                tasks.render_and_update_links = true;
                tasks.rerender_outgoing_includes = true;
                tasks.rerender_templates = true;
            }
        }

        // The hidden flag affects no derived content.

        if let ProvidedValue::Provided(title) = &changes.title {
            if !str_eq(revision.title.as_str(), title.as_str()) {
                tasks.render_and_update_links = true;
                tasks.rerender_incoming_links = true;
            }
        }

        if let ProvidedValue::Provided(alt_title) = &changes.alt_title {
            if !opt_strings_eq(&revision.alt_title, alt_title) {
                tasks.render_and_update_links = true;
                tasks.rerender_incoming_links = true;
            }
        }

        if let ProvidedValue::Provided(slug) = &changes.slug {
            if !str_eq(revision.slug.as_str(), slug.as_str()) {
                tasks.render_and_update_links = true;
                tasks.rerender_incoming_links = true;
                tasks.rerender_outgoing_includes = true;
                tasks.rerender_templates = true;
            }
        }

        if let ProvidedValue::Provided(tags) = &changes.tags {
            if !string_lists_eq(&revision.tags, tags) {
                tasks.render_and_update_links = true;
                tasks.rerender_outgoing_includes = true;
                tasks.rerender_templates = true;
            }
        }

        tasks
    }

    /// Whether no update task is required at all.
    #[inline]
    pub fn is_empty(self) -> (r: bool)
        ensures
            r == (!self.render_and_update_links && !self.rerender_incoming_links
                && !self.rerender_outgoing_includes && !self.rerender_templates),
    {
        !self.render_and_update_links && !self.rerender_incoming_links
            && !self.rerender_outgoing_includes && !self.rerender_templates
    }
}

} // verus!
