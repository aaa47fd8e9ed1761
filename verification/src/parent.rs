//! Folding the outcomes of bulk parent-relationship changes.
//!
//! Modifying a page's parents applies many single creations and
//! removals, each of which the storage layer may decline. What the
//! caller is told — which parent ids were created, which removals
//! deleted a row — is a pure fold over those per-item outcomes, stated
//! here exactly. The storage loop itself hands in one `Option` per
//! attempted item: its payload for an attempt that succeeded, nothing
//! for one that did not.

use vstd::prelude::*;

verus! {

/// The payloads of the present outcomes, in order.
pub open spec fn spec_present<T>(s: Seq<Option<T>>) -> Seq<T>
    decreases s.len(),
{
    if s.len() == 0 {
        Seq::empty()
    } else {
        let rest = spec_present(s.subrange(1, s.len() as int));
        match s[0] {
            Option::Some(x) => seq![x] + rest,
            Option::None => rest,
        }
    }
}

/// Extending the outcomes by one appends its payload exactly when it is
/// present.
proof fn lemma_present_snoc<T>(s: Seq<Option<T>>, i: int)
    requires
        0 <= i < s.len(),
    ensures
        spec_present(s.subrange(0, i + 1)) == (match s[i] {
            Option::Some(x) => spec_present(s.subrange(0, i)).push(x),
            Option::None => spec_present(s.subrange(0, i)),
        }),
    decreases i,
{
    let pre = s.subrange(0, i + 1);
    let cur = s.subrange(0, i);
    if i == 0 {
        assert(pre.subrange(1, pre.len() as int) =~= Seq::<Option<T>>::empty());
        assert(cur =~= Seq::<Option<T>>::empty());
        match s[0] {
            Option::Some(x) => {
                assert(spec_present(pre) =~= spec_present(cur).push(x));
            },
            Option::None => {},
        }
    } else {
        lemma_present_snoc(s.subrange(1, s.len() as int), i - 1);
        assert(pre.subrange(1, pre.len() as int) =~= s.subrange(1, s.len() as int).subrange(0, i));
        assert(cur.subrange(1, cur.len() as int) =~= s.subrange(1, s.len() as int).subrange(
            0,
            i - 1,
        ));
        assert(s.subrange(1, s.len() as int)[i - 1] == s[i]);
        assert(pre[0] == s[0]);
        assert(cur[0] == s[0]);
        match s[i] {
            Option::Some(x) => {
                assert(spec_present(pre) =~= spec_present(cur).push(x));
            },
            Option::None => {
                assert(spec_present(pre) =~= spec_present(cur));
            },
        }
    }
}

/// Keeps the payloads of the present outcomes, in order.
pub fn collect_present<T: Copy>(outcomes: &Vec<Option<T>>) -> (r: Vec<T>)
    ensures
        r@ == spec_present(outcomes@),
{
    let mut out: Vec<T> = Vec::new();
    let mut i: usize = 0;
    proof {
        assert(outcomes@.subrange(0, 0) =~= Seq::<Option<T>>::empty());
    }
    while i < outcomes.len()
        invariant
            i <= outcomes.len(),
            out@ == spec_present(outcomes@.subrange(0, i as int)),
        decreases outcomes.len() - i,
    {
        proof {
            lemma_present_snoc(outcomes@, i as int);
        }
        match outcomes[i] {
            Option::Some(x) => {
                out.push(x);
            },
            Option::None => {},
        }
        i = i + 1;
    }
    proof {
        assert(outcomes@.subrange(0, outcomes.len() as int) =~= outcomes@);
    }
    out
}

/// What a bulk parent modification reports back.
#[derive(Debug, PartialEq)]
pub struct ModifyParentOutput {
    /// The parent page ids actually created, when additions were asked.
    pub added: Option<Vec<i64>>,
    /// Whether each completed removal deleted a row, when removals were
    /// asked.
    pub removed: Option<Vec<bool>>,
}

/// Folds the per-item outcomes of a bulk parent modification: when
/// additions were attempted, the created parent ids in order; when
/// removals were attempted, the deletion flags of those that completed;
/// either side absent exactly when it was not asked for.
pub fn modify_parent_output(
    added: Option<Vec<Option<i64>>>,
    removed: Option<Vec<Option<bool>>>,
) -> (r: ModifyParentOutput)
    ensures
        r.added is Some <==> added is Some,
        (added matches Some(a) ==> r.added matches Some(ra) && ra@ == spec_present(a@)),
        r.removed is Some <==> removed is Some,
        (removed matches Some(d) ==> r.removed matches Some(rd) && rd@ == spec_present(d@)),
{
    let added = match added {
        Option::Some(outcomes) => Option::Some(collect_present(&outcomes)),
        Option::None => Option::None,
    };
    let removed = match removed {
        Option::Some(outcomes) => Option::Some(collect_present(&outcomes)),
        Option::None => Option::None,
    };
    ModifyParentOutput { added, removed }
}

} // verus!
