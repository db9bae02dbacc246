//! Proved properties of the fetch core.
//!
//! These lemmas state, over the model functions, what the library promises
//! of every listing response: which identifiers appear in the output, in
//! what order, and that the result is a function of the response alone.

use vstd::prelude::*;
use crate::fetcher::music_ids;
use crate::playlist::{
    entry_of, is_included, music_entries, title_matches, EntryModel, RecordModel,
};
use crate::sort::{lemma_sort_entries_ensures, sort_entries, sorted_by_title};

verus! {

/// An entry is in `music_entries(s)` exactly when some kept record of `s`
/// contributes it.
pub proof fn lemma_music_entries_contains(s: Seq<RecordModel>, e: EntryModel)
    ensures
        music_entries(s).contains(e) <==> exists|i: int|
            0 <= i < s.len() && is_included(#[trigger] s[i]) && entry_of(s[i]) == e,
    decreases s.len(),
{
    if s.len() > 0 {
        lemma_music_entries_contains(s.drop_last(), e);
        let d = s.drop_last();
        let r = music_entries(d);
        let m = music_entries(s);
        if m.contains(e) {
            let j = choose|j: int| 0 <= j < m.len() && m[j] == e;
            if j < r.len() {
                assert(r[j] == e);
                assert(r.contains(e));
                let i = choose|i: int|
                    0 <= i < d.len() && is_included(#[trigger] d[i]) && entry_of(d[i]) == e;
                assert(s[i] == d[i]);
                assert(0 <= i < s.len() && is_included(s[i]) && entry_of(s[i]) == e);
            } else {
                assert(is_included(s.last()) && entry_of(s.last()) == e);
                assert(s[s.len() - 1] == s.last());
            }
        }
        if exists|i: int| 0 <= i < s.len() && is_included(#[trigger] s[i]) && entry_of(s[i])
            == e {
            let i = choose|i: int|
                0 <= i < s.len() && is_included(#[trigger] s[i]) && entry_of(s[i]) == e;
            if i < s.len() - 1 {
                assert(d[i] == s[i]);
                assert(r.contains(e));
                let j = choose|j: int| 0 <= j < r.len() && r[j] == e;
                assert(m[j] == e);
                assert(m.contains(e));
            } else {
                assert(is_included(s.last()));
                assert(m[r.len() as int] == e);
                assert(m.contains(e));
            }
        }
    }
}

/// Filter correctness: every output identifier is the identifier of a
/// record whose title starts with `music-`, and every record whose title
/// so starts and whose identifier is present contributes its identifier.
pub proof fn lemma_filter_correctness(s: Seq<RecordModel>)
    ensures
        forall|t: Seq<char>| #[trigger] music_ids(s).contains(t) ==> exists|i: int|
            0 <= i < s.len() && is_included(#[trigger] s[i]) && s[i].id == Some(t),
        forall|i: int|
            0 <= i < s.len() && is_included(#[trigger] s[i]) ==> music_ids(s).contains(s[i].id->0),
{
    broadcast use vstd::seq_lib::group_to_multiset_ensures;

    let entries = music_entries(s);
    let sorted = sort_entries(entries);
    let ids = music_ids(s);
    lemma_sort_entries_ensures(entries);
    assert forall|t: Seq<char>| #[trigger] ids.contains(t) implies exists|i: int|
        0 <= i < s.len() && is_included(#[trigger] s[i]) && s[i].id == Some(t) by {
        let j = choose|j: int| 0 <= j < ids.len() && ids[j] == t;
        let e = sorted[j];
        assert(e.id == t);
        assert(sorted.contains(e));
        assert(entries.to_multiset().count(e) == sorted.to_multiset().count(e));
        assert(entries.contains(e));
        lemma_music_entries_contains(s, e);
        let i = choose|i: int|
            0 <= i < s.len() && is_included(#[trigger] s[i]) && entry_of(s[i]) == e;
        assert(s[i].id == Some(t));
    }
    assert forall|i: int| 0 <= i < s.len() && is_included(#[trigger] s[i]) implies ids.contains(
        s[i].id->0,
    ) by {
        let e = entry_of(s[i]);
        lemma_music_entries_contains(s, e);
        assert(entries.contains(e));
        assert(entries.to_multiset().count(e) == sorted.to_multiset().count(e));
        assert(sorted.contains(e));
        let j = choose|j: int| 0 <= j < sorted.len() && sorted[j] == e;
        assert(ids[j] == e.id);
        assert(ids.contains(s[i].id->0));
    }
}

/// Sort correctness: the output is the kept entries — with multiplicity —
/// in ascending lexicographic title order, and the identifiers are read
/// off that order.
pub proof fn lemma_sort_correctness(s: Seq<RecordModel>)
    ensures
        sorted_by_title(sort_entries(music_entries(s))),
        sort_entries(music_entries(s)).to_multiset() == music_entries(s).to_multiset(),
        music_ids(s) == sort_entries(music_entries(s)).map_values(|e: EntryModel| e.id),
{
    lemma_sort_entries_ensures(music_entries(s));
}

/// At most one entry per record.
proof fn lemma_music_entries_len(s: Seq<RecordModel>)
    ensures
        music_entries(s).len() <= s.len(),
    decreases s.len(),
{
    if s.len() > 0 {
        lemma_music_entries_len(s.drop_last());
    }
}

/// The output is never longer than the input: each record contributes at
/// most one identifier.
pub proof fn lemma_output_length(s: Seq<RecordModel>)
    ensures
        music_ids(s).len() <= s.len(),
{
    lemma_music_entries_len(s);
    lemma_sort_entries_ensures(music_entries(s));
}

/// Determinism: the output is a function of the listing response alone, so
/// identical responses give identical outputs.
pub proof fn lemma_deterministic(a: Seq<RecordModel>, b: Seq<RecordModel>)
    requires
        a == b,
    ensures
        music_ids(a) == music_ids(b),
{
}

/// Empty input: a response with no records yields an empty output.
pub proof fn lemma_empty_input(s: Seq<RecordModel>)
    requires
        s.len() == 0,
    ensures
        music_ids(s) == Seq::<Seq<char>>::empty(),
{
    assert(music_ids(s) =~= Seq::<Seq<char>>::empty());
}

/// No kept title means an empty entry list.
proof fn lemma_no_match_entries(s: Seq<RecordModel>)
    requires
        forall|i: int| 0 <= i < s.len() ==> !title_matches(#[trigger] s[i]),
    ensures
        music_entries(s) == Seq::<EntryModel>::empty(),
    decreases s.len(),
{
    if s.len() > 0 {
        assert(forall|i: int|
            0 <= i < s.drop_last().len() ==> !title_matches(#[trigger] s.drop_last()[i]));
        lemma_no_match_entries(s.drop_last());
        assert(!title_matches(s[s.len() - 1]));
    }
}

/// No match: a response where no title starts with `music-` yields an
/// empty output.
pub proof fn lemma_no_match(s: Seq<RecordModel>)
    requires
        forall|i: int| 0 <= i < s.len() ==> !title_matches(#[trigger] s[i]),
    ensures
        music_ids(s) == Seq::<Seq<char>>::empty(),
{
    lemma_no_match_entries(s);
    assert(music_ids(s) =~= Seq::<Seq<char>>::empty());
}

} // verus!
