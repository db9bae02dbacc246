//! Sorting of kept entries by title, ascending.
//!
//! The sort is an insertion sort that places a new entry after every entry
//! whose title compares less than or equal, so entries with equal titles
//! keep their input order (the sort is stable) and the result is
//! deterministic.

use vstd::prelude::*;
use crate::order::{lex_le, lex_leq, lemma_lex_refl, lemma_lex_total, lemma_lex_trans};
use crate::playlist::{EntryModel, MusicEntry};

verus! {

/// `e` inserted into `s` after every entry whose title is less than or
/// equal to `e`'s.
pub open spec fn insert_sorted(e: EntryModel, s: Seq<EntryModel>) -> Seq<EntryModel>
    decreases s.len(),
{
    if s.len() == 0 {
        seq![e]
    } else if lex_leq(s[0].title, e.title) {
        seq![s[0]] + insert_sorted(e, s.drop_first())
    } else {
        seq![e] + s
    }
}

/// The entries of `s`, stably sorted by title ascending.
pub open spec fn sort_entries(s: Seq<EntryModel>) -> Seq<EntryModel>
    decreases s.len(),
{
    if s.len() == 0 {
        Seq::empty()
    } else {
        insert_sorted(s.last(), sort_entries(s.drop_last()))
    }
}

/// The titles of `s` appear in ascending lexicographic order.
pub open spec fn sorted_by_title(s: Seq<EntryModel>) -> bool {
    forall|i: int, j: int| 0 <= i < j < s.len() ==> lex_leq(s[i].title, s[j].title)
}

/// Inserting is inserting: `insert_sorted` places `e` at the first
/// position whose entry's title is not less than or equal to `e`'s.
pub proof fn lemma_insert_sorted_position(e: EntryModel, s: Seq<EntryModel>) -> (i: int)
    ensures
        0 <= i <= s.len(),
        insert_sorted(e, s) == s.insert(i, e),
        forall|j: int| 0 <= j < i ==> lex_leq(s[j].title, e.title),
        i < s.len() ==> !lex_leq(s[i].title, e.title),
    decreases s.len(),
{
    if s.len() == 0 {
        assert(insert_sorted(e, s) =~= s.insert(0, e));
        0
    } else if lex_leq(s[0].title, e.title) {
        let i1 = lemma_insert_sorted_position(e, s.drop_first());
        assert(seq![s[0]] + s.drop_first().insert(i1, e) =~= s.insert(i1 + 1, e));
        assert forall|j: int| 0 < j < i1 + 1 implies lex_leq(s[j].title, e.title) by {
            assert(s.drop_first()[j - 1] == s[j]);
        }
        if i1 + 1 < s.len() {
            assert(s.drop_first()[i1] == s[i1 + 1]);
        }
        i1 + 1
    } else {
        assert(insert_sorted(e, s) =~= s.insert(0, e));
        0
    }
}

/// Inserting into a sorted sequence keeps it sorted.
pub proof fn lemma_insert_sorted_sorted(e: EntryModel, s: Seq<EntryModel>)
    requires
        sorted_by_title(s),
    ensures
        sorted_by_title(insert_sorted(e, s)),
{
    let i = lemma_insert_sorted_position(e, s);
    let r = insert_sorted(e, s);
    assert forall|p: int, q: int| 0 <= p < q < r.len() implies lex_leq(
        r[p].title,
        r[q].title,
    ) by {
        if q > i {
            assert(r[q] == s[q - 1]);
            lemma_lex_total(s[i].title, e.title);
            if i == q - 1 {
                lemma_lex_refl(s[i].title);
            }
            lemma_lex_trans(e.title, s[i].title, s[q - 1].title);
            if p < i {
                assert(r[p] == s[p]);
                lemma_lex_trans(s[p].title, e.title, s[q - 1].title);
            }
        }
    }
}

/// Inserting adds exactly the new entry: the result holds the entries of
/// `s` and `e`, with multiplicity.
pub proof fn lemma_insert_sorted_multiset(e: EntryModel, s: Seq<EntryModel>)
    ensures
        insert_sorted(e, s).to_multiset() == s.to_multiset().insert(e),
{
    broadcast use vstd::seq_lib::group_to_multiset_ensures;

    let i = lemma_insert_sorted_position(e, s);
    assert(insert_sorted(e, s) == s.insert(i, e));
}

/// Sorting permutes: the sorted sequence holds exactly the entries of `s`,
/// with multiplicity, in ascending title order.
pub proof fn lemma_sort_entries_ensures(s: Seq<EntryModel>)
    ensures
        sorted_by_title(sort_entries(s)),
        sort_entries(s).to_multiset() == s.to_multiset(),
        sort_entries(s).len() == s.len(),
    decreases s.len(),
{
    broadcast use vstd::seq_lib::group_to_multiset_ensures;

    if s.len() > 0 {
        lemma_sort_entries_ensures(s.drop_last());
        lemma_insert_sorted_sorted(s.last(), sort_entries(s.drop_last()));
        lemma_insert_sorted_multiset(s.last(), sort_entries(s.drop_last()));
        assert(s =~= s.drop_last().push(s.last()));
        assert(s.to_multiset() =~= s.drop_last().to_multiset().insert(s.last()));
    } else {
        assert(s =~= Seq::<EntryModel>::empty());
    }
    assert(sort_entries(s).len() == sort_entries(s).to_multiset().len());
    assert(s.len() == s.to_multiset().len());
}

/// Inserts `e` into the sorted vector `v`, after every entry whose title
/// is less than or equal to `e`'s.
pub fn insert_entry(v: &mut Vec<MusicEntry>, e: MusicEntry)
    ensures
        final(v).deep_view() == insert_sorted(e.deep_view(), old(v).deep_view()),
{
    let ghost model = v.deep_view();
    let mut i: usize = 0;
    while i < v.len() && lex_le(v[i].title.as_str(), e.title.as_str())
        invariant
            i <= v.len(),
            v == old(v),
            model == v.deep_view(),
            forall|j: int| 0 <= j < i ==> lex_leq(model[j].title, e.deep_view().title),
        decreases v.len() - i,
    {
        i += 1;
    }
    proof {
        let p = lemma_insert_sorted_position(e.deep_view(), model);
        if p < i {
            assert(lex_leq(model[p].title, e.deep_view().title));
        }
        if i < p {
            assert(lex_leq(model[i as int].title, e.deep_view().title));
        }
        assert(p == i);
    }
    v.insert(i, e);
    proof {
        assert(v.deep_view() =~= insert_sorted(e.deep_view(), model));
    }
}

/// Sorts the entries by title ascending; entries with equal titles keep
/// their input order.
pub fn sort_music_entries(v: Vec<MusicEntry>) -> (r: Vec<MusicEntry>)
    ensures
        r.deep_view() == sort_entries(v.deep_view()),
{
    let ghost model = v.deep_view();
    let mut rest = v;
    let mut out: Vec<MusicEntry> = Vec::new();
    let ghost mut k: int = 0;
    proof {
        assert(model.subrange(0, model.len() as int) =~= model);
    }
    while rest.len() > 0
        invariant
            0 <= k <= model.len(),
            rest.deep_view() == model.subrange(k, model.len() as int),
            out.deep_view() == sort_entries(model.subrange(0, k)),
        decreases rest.len(),
    {
        let ghost pre = rest.deep_view();
        let ghost prev = rest@;
        let e = rest.remove(0);
        proof {
            assert(pre == model.subrange(k, model.len() as int));
            assert(pre.len() == prev.len());
            assert(k < model.len());
            assert(pre[0] == model[k]);
            assert(e.deep_view() == pre[0]);
            assert forall|j: int| 0 <= j < rest.deep_view().len() implies rest.deep_view()[j]
                == pre[j + 1] by {
                assert(rest@[j] == prev[j + 1]);
            }
            assert(rest.deep_view() =~= model.subrange(k + 1, model.len() as int));
        }
        insert_entry(&mut out, e);
        proof {
            let sub = model.subrange(0, k + 1);
            assert(sub.drop_last() =~= model.subrange(0, k));
            assert(sub.last() == model[k]);
            k = k + 1;
        }
    }
    proof {
        assert(model.subrange(0, model.len() as int) =~= model);
    }
    out
}

} // verus!
