//! Project-wide aggregation of per-file label lists.
//!
//! Per-file results are concatenated and deduplicated, keeping the first
//! occurrence of each label: a project-wide result is a set of labels, and
//! duplicates across files collapse silently. The aggregation laws — the
//! result is a function of the per-file lists, it is unchanged by
//! re-aggregation, and it does not depend on the order of the files — are
//! proved below.
use vstd::prelude::*;

use crate::ExpectedAmLabel;
use crate::LabelModel;

verus! {

/// The concatenation of all per-file label lists, in order.
pub open spec fn spec_concat(parts: Seq<Seq<LabelModel>>) -> Seq<LabelModel>
    decreases parts.len(),
{
    if parts.len() == 0 {
        Seq::empty()
    } else {
        spec_concat(parts.drop_last()) + parts.last()
    }
}

/// Deduplication keeping the first occurrence of each label.
pub open spec fn spec_dedup(s: Seq<LabelModel>) -> Seq<LabelModel>
    decreases s.len(),
{
    if s.len() == 0 {
        Seq::empty()
    } else if s.drop_last().contains(s.last()) {
        spec_dedup(s.drop_last())
    } else {
        spec_dedup(s.drop_last()).push(s.last())
    }
}

/// Deduplication keeps membership: a label is in the deduplicated sequence
/// exactly when it is in the original one.
pub proof fn lemma_dedup_contains(s: Seq<LabelModel>, x: LabelModel)
    ensures
        spec_dedup(s).contains(x) <==> s.contains(x),
    decreases s.len(),
{
    if s.len() == 0 {
    } else {
        lemma_dedup_contains(s.drop_last(), x);
        assert(s.contains(x) <==> (s.drop_last().contains(x) || s.last() == x)) by {
            if s.contains(x) {
                let i = choose|i: int| 0 <= i < s.len() && s[i] == x;
                if i < s.len() - 1 {
                    assert(s.drop_last()[i] == x);
                }
            }
            if s.drop_last().contains(x) {
                let i = choose|i: int| 0 <= i < s.drop_last().len() && s.drop_last()[i] == x;
                assert(s[i] == x);
            }
            if s.last() == x {
                assert(s[s.len() - 1] == x);
            }
        }
        if !s.drop_last().contains(s.last()) {
            assert(spec_dedup(s) == spec_dedup(s.drop_last()).push(s.last()));
            assert forall|y: LabelModel| spec_dedup(s).contains(y) <==> (spec_dedup(
                s.drop_last(),
            ).contains(y) || s.last() == y) by {
                let d = spec_dedup(s.drop_last());
                if d.contains(y) {
                    let i = choose|i: int| 0 <= i < d.len() && d[i] == y;
                    assert(d.push(s.last())[i] == y);
                }
                if s.last() == y {
                    assert(d.push(s.last())[d.len() as int] == y);
                }
                if d.push(s.last()).contains(y) {
                    let i = choose|i: int| 0 <= i < d.push(s.last()).len() && d.push(s.last())[i]
                        == y;
                    if i < d.len() {
                        assert(d[i] == y);
                    }
                }
            }
        }
    }
}

/// Deduplication leaves no duplicates.
pub proof fn lemma_dedup_no_dups(s: Seq<LabelModel>)
    ensures
        forall|i: int, j: int|
            0 <= i < j < spec_dedup(s).len() ==> spec_dedup(s)[i] != spec_dedup(s)[j],
    decreases s.len(),
{
    if s.len() == 0 {
    } else {
        lemma_dedup_no_dups(s.drop_last());
        if !s.drop_last().contains(s.last()) {
            lemma_dedup_contains(s.drop_last(), s.last());
            let d = spec_dedup(s.drop_last());
            assert(!d.contains(s.last()));
            assert forall|i: int, j: int|
                0 <= i < j < d.push(s.last()).len() implies d.push(s.last())[i] != d.push(
                s.last(),
            )[j] by {
                if j < d.len() {
                } else {
                    assert(d.push(s.last())[j] == s.last());
                    assert(d.push(s.last())[i] == d[i]);
                    if d[i] == s.last() {
                        assert(d.contains(s.last()));
                    }
                }
            }
        }
    }
}

/// A sequence without duplicates is unchanged by deduplication.
pub proof fn lemma_dedup_of_unique(s: Seq<LabelModel>)
    requires
        forall|i: int, j: int| 0 <= i < j < s.len() ==> s[i] != s[j],
    ensures
        spec_dedup(s) == s,
    decreases s.len(),
{
    if s.len() == 0 {
        assert(spec_dedup(s) =~= s);
    } else {
        lemma_dedup_of_unique(s.drop_last());
        assert(!s.drop_last().contains(s.last())) by {
            if s.drop_last().contains(s.last()) {
                let i = choose|i: int|
                    0 <= i < s.drop_last().len() && s.drop_last()[i] == s.last();
                assert(s[i] == s[s.len() - 1]);
            }
        }
        assert(spec_dedup(s) =~= s.drop_last().push(s.last()));
        assert(s.drop_last().push(s.last()) =~= s);
    }
}

/// Re-running deduplication changes nothing: together with the exact
/// contract of `aggregate`, re-aggregating an unchanged set of per-file
/// results yields an identical label sequence.
pub proof fn lemma_dedup_idempotent(s: Seq<LabelModel>)
    ensures
        spec_dedup(spec_dedup(s)) == spec_dedup(s),
{
    lemma_dedup_no_dups(s);
    lemma_dedup_of_unique(spec_dedup(s));
}

/// A label is in the concatenation exactly when some part holds it.
pub proof fn lemma_concat_contains(parts: Seq<Seq<LabelModel>>, x: LabelModel)
    ensures
        spec_concat(parts).contains(x) <==> exists|i: int|
            0 <= i < parts.len() && #[trigger] parts[i].contains(x),
    decreases parts.len(),
{
    if parts.len() == 0 {
    } else {
        lemma_concat_contains(parts.drop_last(), x);
        let front = spec_concat(parts.drop_last());
        assert(spec_concat(parts) == front + parts.last());
        assert(spec_concat(parts).contains(x) <==> (front.contains(x) || parts.last().contains(
            x,
        ))) by {
            if front.contains(x) {
                let i = choose|i: int| 0 <= i < front.len() && front[i] == x;
                assert((front + parts.last())[i] == x);
            }
            if parts.last().contains(x) {
                let i = choose|i: int| 0 <= i < parts.last().len() && parts.last()[i] == x;
                assert((front + parts.last())[front.len() + i] == x);
            }
            if (front + parts.last()).contains(x) {
                let i = choose|i: int|
                    0 <= i < (front + parts.last()).len() && (front + parts.last())[i] == x;
                if i < front.len() {
                    assert(front[i] == x);
                } else {
                    assert(parts.last()[i - front.len()] == x);
                }
            }
        }
        if front.contains(x) || parts.last().contains(x) {
            if front.contains(x) {
                let i = choose|i: int| 0 <= i < parts.drop_last().len() && #[trigger] parts.drop_last()[i].contains(x);
                assert(parts[i].contains(x));
            } else {
                assert(parts[parts.len() - 1].contains(x));
            }
        }
        if exists|i: int| 0 <= i < parts.len() && #[trigger] parts[i].contains(x) {
            let i = choose|i: int| 0 <= i < parts.len() && #[trigger] parts[i].contains(x);
            if i < parts.len() - 1 {
                assert(parts.drop_last()[i].contains(x));
            } else {
                assert(parts.last().contains(x));
            }
        }
    }
}

/// Order-independence of aggregation: two sequences of per-file results that
/// are permutations of each other — they have the same multiset of parts —
/// aggregate to the same set of labels.
pub proof fn lemma_aggregate_order_independent(p1: Seq<Seq<LabelModel>>, p2: Seq<Seq<LabelModel>>)
    requires
        p1.to_multiset() == p2.to_multiset(),
    ensures
        spec_dedup(spec_concat(p1)).to_set() == spec_dedup(spec_concat(p2)).to_set(),
{
    broadcast use vstd::seq_lib::to_multiset_contains;

    assert forall|x: LabelModel|
        spec_dedup(spec_concat(p1)).contains(x) <==> spec_dedup(spec_concat(p2)).contains(
        x,
    ) by {
        lemma_dedup_contains(spec_concat(p1), x);
        lemma_dedup_contains(spec_concat(p2), x);
        lemma_concat_contains(p1, x);
        lemma_concat_contains(p2, x);
        if exists|i: int| 0 <= i < p1.len() && #[trigger] p1[i].contains(x) {
            let i = choose|i: int| 0 <= i < p1.len() && #[trigger] p1[i].contains(x);
            assert(p1.contains(p1[i]));
            assert(p1.to_multiset().count(p1[i]) > 0);
            assert(p2.to_multiset().count(p1[i]) > 0);
            assert(p2.contains(p1[i]));
            let j = choose|j: int| 0 <= j < p2.len() && p2[j] == p1[i];
            assert(p2[j].contains(x));
        }
        if exists|i: int| 0 <= i < p2.len() && #[trigger] p2[i].contains(x) {
            let i = choose|i: int| 0 <= i < p2.len() && #[trigger] p2[i].contains(x);
            assert(p2.contains(p2[i]));
            assert(p2.to_multiset().count(p2[i]) > 0);
            assert(p1.to_multiset().count(p2[i]) > 0);
            assert(p1.contains(p2[i]));
            let j = choose|j: int| 0 <= j < p1.len() && p1[j] == p2[i];
            assert(p1[j].contains(x));
        }
    }
    assert(spec_dedup(spec_concat(p1)).to_set() =~= spec_dedup(spec_concat(p2)).to_set());
}

/// A file that contributes nothing — unreadable, unparsable — does not
/// change the aggregated result.
pub proof fn lemma_aggregate_absorbs_empty(parts: Seq<Seq<LabelModel>>)
    ensures
        spec_dedup(spec_concat(parts.push(Seq::empty()))) == spec_dedup(spec_concat(parts)),
{
    assert(parts.push(Seq::<LabelModel>::empty()).drop_last() =~= parts);
    assert(spec_concat(parts.push(Seq::empty())) =~= spec_concat(parts) + Seq::<
        LabelModel,
    >::empty());
    assert(spec_concat(parts) + Seq::<LabelModel>::empty() =~= spec_concat(parts));
}

/// A property that holds of every label of a sequence holds of every label
/// of its deduplication.
pub proof fn lemma_dedup_preserves(s: Seq<LabelModel>, p: spec_fn(LabelModel) -> bool)
    requires
        forall|i: int| 0 <= i < s.len() ==> p(#[trigger] s[i]),
    ensures
        forall|i: int| 0 <= i < spec_dedup(s).len() ==> p(#[trigger] spec_dedup(s)[i]),
{
    assert forall|i: int| 0 <= i < spec_dedup(s).len() implies p(#[trigger] spec_dedup(s)[i]) by {
        assert(spec_dedup(s).contains(spec_dedup(s)[i]));
        lemma_dedup_contains(s, spec_dedup(s)[i]);
        let j = choose|j: int| 0 <= j < s.len() && s[j] == spec_dedup(s)[i];
        assert(p(s[j]));
    }
}

/// One file's labels, deduplicated keeping first occurrences: per-file
/// results are sets too, so a function is never reported twice by one file —
/// not even when it is both individually marked and covered by its marked
/// container.
pub fn dedup_labels(v: &Vec<ExpectedAmLabel>) -> (r: Vec<ExpectedAmLabel>)
    ensures
        r.deep_view() == spec_dedup(v.deep_view()),
        forall|i: int, j: int|
            0 <= i < j < r.deep_view().len() ==> r.deep_view()[i] != r.deep_view()[j],
{
    proof {
        lemma_dedup_no_dups(v.deep_view());
    }
    let mut out: Vec<ExpectedAmLabel> = Vec::new();
    let mut k: usize = 0;
    proof {
        assert(v.deep_view().take(0) =~= Seq::<LabelModel>::empty());
        assert(out.deep_view() =~= spec_dedup(v.deep_view().take(0)));
    }
    while k < v.len()
        invariant
            k <= v.len(),
            out.deep_view() == spec_dedup(v.deep_view().take(k as int)),
        decreases v.len() - k,
    {
        proof {
            assert(v.deep_view().take(k as int + 1).drop_last() =~= v.deep_view().take(k as int));
            assert(v.deep_view().take(k as int + 1).last() == v.deep_view()[k as int]);
            lemma_dedup_contains(v.deep_view().take(k as int), v.deep_view()[k as int]);
        }
        let x = &v[k];
        if !contains_label(&out, x) {
            let ghost old_out = out.deep_view();
            out.push(x.clone_label());
            proof {
                assert(out.deep_view() =~= old_out.push(x@));
            }
        }
        proof {
            assert(out.deep_view() =~= spec_dedup(v.deep_view().take(k as int + 1)));
        }
        k += 1;
    }
    proof {
        assert(v.deep_view().take(v.len() as int) =~= v.deep_view());
    }
    out
}

/// Whether the list holds a label with the given value.
pub fn contains_label(v: &Vec<ExpectedAmLabel>, x: &ExpectedAmLabel) -> (r: bool)
    ensures
        r == v.deep_view().contains(x@),
{
    let mut i: usize = 0;
    while i < v.len()
        invariant
            i <= v.len(),
            forall|j: int| 0 <= j < i ==> v.deep_view()[j] != x@,
        decreases v.len() - i,
    {
        if &v[i] == x {
            assert(v.deep_view()[i as int] == x@);
            return true;
        }
        i += 1;
    }
    false
}

/// Merges per-file label lists into one project-wide list: the concatenation
/// of the parts, deduplicated, keeping first occurrences. The result is an
/// exact function of the input, so re-running the aggregation on unchanged
/// per-file results yields an identical list.
pub fn aggregate(parts: &Vec<Vec<ExpectedAmLabel>>) -> (r: Vec<ExpectedAmLabel>)
    ensures
        r.deep_view() == spec_dedup(spec_concat(parts.deep_view())),
        forall|i: int, j: int|
            0 <= i < j < r.deep_view().len() ==> r.deep_view()[i] != r.deep_view()[j],
{
    proof {
        lemma_dedup_no_dups(spec_concat(parts.deep_view()));
    }
    let ghost pdv = parts.deep_view();
    let mut out: Vec<ExpectedAmLabel> = Vec::new();
    let mut i: usize = 0;
    proof {
        assert(pdv.take(0) =~= Seq::<Seq<LabelModel>>::empty());
        assert(out.deep_view() =~= spec_dedup(spec_concat(pdv.take(0))));
    }
    while i < parts.len()
        invariant
            i <= parts.len(),
            pdv == parts.deep_view(),
            out.deep_view() == spec_dedup(spec_concat(pdv.take(i as int))),
        decreases parts.len() - i,
    {
        let part = &parts[i];
        let ghost base = spec_concat(pdv.take(i as int));
        let mut k: usize = 0;
        proof {
            assert(part.deep_view() =~= pdv[i as int]);
            assert(base + part.deep_view().take(0) =~= base);
        }
        while k < part.len()
            invariant
                k <= part.len(),
                pdv == parts.deep_view(),
                part.deep_view() == pdv[i as int],
                base == spec_concat(pdv.take(i as int)),
                out.deep_view() == spec_dedup(base + part.deep_view().take(k as int)),
            decreases part.len() - k,
        {
            let ghost cur = base + part.deep_view().take(k as int);
            proof {
                assert((base + part.deep_view().take(k as int + 1)).drop_last() =~= cur);
                assert((base + part.deep_view().take(k as int + 1)).last() == part.deep_view()[k as int]);
                lemma_dedup_contains(cur, part.deep_view()[k as int]);
            }
            let x = &part[k];
            if !contains_label(&out, x) {
                let ghost old_out = out.deep_view();
                out.push(x.clone_label());
                proof {
                    assert(out.deep_view() =~= old_out.push(x@));
                }
            }
            proof {
                assert(out.deep_view() =~= spec_dedup(base + part.deep_view().take(k as int + 1)));
            }
            k += 1;
        }
        proof {
            assert(part.deep_view().take(part.len() as int) =~= part.deep_view());
            assert(pdv.take(i as int + 1).drop_last() =~= pdv.take(i as int));
            assert(pdv.take(i as int + 1).last() == pdv[i as int]);
            assert(spec_concat(pdv.take(i as int + 1)) =~= base + part.deep_view());
        }
        i += 1;
    }
    proof {
        assert(pdv.take(parts.len() as int) =~= pdv);
    }
    out
}

} // verus!
