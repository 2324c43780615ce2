//! Merging a submodule into the module it belongs to.

use crate::text::str_equal;
use crate::yang::{ModuleView, Revision, RevisionView, SubmoduleView};
use vstd::prelude::*;

verus! {

/// Some revision of `revisions` has the date `date`.
pub open spec fn has_date(revisions: Seq<RevisionView>, date: Seq<char>) -> bool {
    exists|i: int| 0 <= i < revisions.len() && #[trigger] revisions[i].date == date
}

/// No two revisions of `revisions` have the same date.
pub open spec fn distinct_dates(revisions: Seq<RevisionView>) -> bool {
    forall|i: int, j: int|
        0 <= i < j < revisions.len() ==> #[trigger] revisions[i].date
            != #[trigger] revisions[j].date
}

/// The revisions `have`, followed by those of `more` whose date is new, in
/// their order. A date is new where no revision before it has it, be it one
/// of `have` or an earlier one of `more`.
pub open spec fn merge_revisions(have: Seq<RevisionView>, more: Seq<RevisionView>) -> Seq<
    RevisionView,
>
    decreases more.len(),
{
    if more.len() == 0 {
        have
    } else {
        let merged = merge_revisions(have, more.drop_last());
        if has_date(merged, more.last().date) {
            merged
        } else {
            merged.push(more.last())
        }
    }
}

/// The module `m` with the submodule `s` merged into it: the body of `s`
/// follows that of `m`, and the revisions of `s` with a new date follow
/// those of `m`. All else is as in `m`.
pub open spec fn merged_module(m: ModuleView, s: SubmoduleView) -> ModuleView {
    ModuleView { body: m.body + s.body, revisions: merge_revisions(m.revisions, s.revisions), ..m }
}

/// Revision dedup. Merging keeps the revisions that were there, in front and
/// in their order; it adds no date twice, so revisions with distinct dates
/// stay so; and every date of the revisions merged in is there afterwards.
pub proof fn lemma_merge_revisions(have: Seq<RevisionView>, more: Seq<RevisionView>)
    ensures
        have.is_prefix_of(merge_revisions(have, more)),
        distinct_dates(have) ==> distinct_dates(merge_revisions(have, more)),
        forall|i: int| 0 <= i < more.len() ==> has_date(merge_revisions(have, more), more[i].date),
    decreases more.len(),
{
    if more.len() > 0 {
        let head = more.drop_last();
        let merged = merge_revisions(have, head);
        let last = more.last();
        let out = merge_revisions(have, more);
        lemma_merge_revisions(have, head);
        if has_date(merged, last.date) {
            assert forall|i: int| 0 <= i < more.len() implies has_date(out, more[i].date) by {
                if i < head.len() {
                    assert(head[i] == more[i]);
                }
            }
        } else {
            assert(out == merged.push(last));
            assert(have.is_prefix_of(out)) by {
                assert(out.subrange(0, have.len() as int) =~= merged.subrange(
                    0,
                    have.len() as int,
                ));
            }
            if distinct_dates(have) {
                assert forall|i: int, j: int| 0 <= i < j < out.len() implies out[i].date
                    != out[j].date by {
                    if j < merged.len() {
                        assert(out[i] == merged[i] && out[j] == merged[j]);
                    } else {
                        assert(out[i] == merged[i]);
                        assert(out[j] == last);
                    }
                }
            }
            assert forall|i: int| 0 <= i < more.len() implies has_date(out, more[i].date) by {
                if i < head.len() {
                    assert(head[i] == more[i]);
                    let k = choose|k: int| 0 <= k < merged.len() && merged[k].date == head[i].date;
                    assert(out[k].date == more[i].date);
                } else {
                    assert(out[out.len() - 1].date == more[i].date);
                }
            }
        }
    }
}

/// Whether some revision of `revisions` has the date `date`.
pub fn contains_date(revisions: &Vec<Revision>, date: &str) -> (res: bool)
    ensures
        res == has_date(revisions.deep_view(), date@),
{
    let mut i: usize = 0;
    while i < revisions.len()
        invariant
            i <= revisions.len(),
            forall|k: int| 0 <= k < i ==> revisions.deep_view()[k].date != date@,
        decreases revisions.len() - i,
    {
        if str_equal(revisions[i].date.as_str(), date) {
            assert(revisions.deep_view()[i as int].date == date@);
            return true;
        }
        i += 1;
    }
    false
}

} // verus!
