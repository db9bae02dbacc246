//! Playlist records and the music-title filter.
//!
//! A `PlaylistSummary` is one record of the remote listing response: an
//! opaque identifier and a human-readable title, either of which the remote
//! end may omit. A record is kept when its title starts with the literal
//! prefix `music-` and its identifier is present.

use vstd::prelude::*;
use vstd::string::StrSliceExecFns;

verus! {

/// One playlist record as returned by the remote listing endpoint.
pub struct PlaylistSummary {
    /// The opaque identifier of the playlist, if the response carried one.
    pub id: Option<String>,
    /// The title of the playlist, if the response carried one.
    pub title: Option<String>,
}

/// The mathematical model of a `PlaylistSummary`.
pub ghost struct RecordModel {
    pub id: Option<Seq<char>>,
    pub title: Option<Seq<char>>,
}

impl DeepView for PlaylistSummary {
    type V = RecordModel;

    open spec fn deep_view(&self) -> RecordModel {
        RecordModel { id: self.id.deep_view(), title: self.title.deep_view() }
    }
}

impl View for PlaylistSummary {
    type V = RecordModel;

    open spec fn view(&self) -> RecordModel {
        self.deep_view()
    }
}

/// A kept record, reduced to the two fields the result depends on.
pub struct MusicEntry {
    pub title: String,
    pub id: String,
}

/// The mathematical model of a `MusicEntry`.
pub ghost struct EntryModel {
    pub title: Seq<char>,
    pub id: Seq<char>,
}

impl DeepView for MusicEntry {
    type V = EntryModel;

    open spec fn deep_view(&self) -> EntryModel {
        EntryModel { title: self.title@, id: self.id@ }
    }
}

impl View for MusicEntry {
    type V = EntryModel;

    open spec fn view(&self) -> EntryModel {
        self.deep_view()
    }
}

/// The characters of the literal title prefix that marks a music playlist.
pub open spec fn music_prefix() -> Seq<char> {
    seq!['m', 'u', 's', 'i', 'c', '-']
}

/// The title starts with the exact, case-sensitive prefix `music-`.
pub open spec fn starts_with_music(t: Seq<char>) -> bool {
    t.len() >= 6 && t.subrange(0, 6) == music_prefix()
}

/// The record's title is present and starts with the music prefix.
pub open spec fn title_matches(r: RecordModel) -> bool {
    r.title matches Some(t) && starts_with_music(t)
}

/// The record contributes to the output: its title matches and its
/// identifier is present.
pub open spec fn is_included(r: RecordModel) -> bool {
    title_matches(r) && r.id is Some
}

/// The entry a kept record contributes.
pub open spec fn entry_of(r: RecordModel) -> EntryModel
    recommends
        is_included(r),
{
    EntryModel { title: r.title->0, id: r.id->0 }
}

/// The entries of the kept records, in input order.
pub open spec fn music_entries(s: Seq<RecordModel>) -> Seq<EntryModel>
    decreases s.len(),
{
    if s.len() == 0 {
        Seq::empty()
    } else {
        let rest = music_entries(s.drop_last());
        if is_included(s.last()) {
            rest.push(entry_of(s.last()))
        } else {
            rest
        }
    }
}

/// Decides whether a title starts with `music-`.
pub fn starts_with_music_prefix(t: &str) -> (r: bool)
    ensures
        r == starts_with_music(t@),
{
    let n = t.unicode_len();
    if n < 6 {
        return false;
    }
    let c0 = t.get_char(0);
    let c1 = t.get_char(1);
    let c2 = t.get_char(2);
    let c3 = t.get_char(3);
    let c4 = t.get_char(4);
    let c5 = t.get_char(5);
    let r = c0 == 'm' && c1 == 'u' && c2 == 's' && c3 == 'i' && c4 == 'c' && c5 == '-';
    proof {
        if r {
            assert(t@.subrange(0, 6) =~= music_prefix());
        } else {
            if c0 != 'm' {
                assert(t@.subrange(0, 6)[0] != music_prefix()[0]);
            } else if c1 != 'u' {
                assert(t@.subrange(0, 6)[1] != music_prefix()[1]);
            } else if c2 != 's' {
                assert(t@.subrange(0, 6)[2] != music_prefix()[2]);
            } else if c3 != 'i' {
                assert(t@.subrange(0, 6)[3] != music_prefix()[3]);
            } else if c4 != 'c' {
                assert(t@.subrange(0, 6)[4] != music_prefix()[4]);
            } else {
                assert(t@.subrange(0, 6)[5] != music_prefix()[5]);
            }
            assert(t@.subrange(0, 6) != music_prefix());
        }
    }
    r
}

/// Extracts the kept records' entries, in input order.
pub fn music_entries_of(items: &Vec<PlaylistSummary>) -> (r: Vec<MusicEntry>)
    ensures
        r.deep_view() == music_entries(items.deep_view()),
{
    let ghost model = items.deep_view();
    let mut out: Vec<MusicEntry> = Vec::new();
    let mut k: usize = 0;
    while k < items.len()
        invariant
            k <= items.len(),
            model == items.deep_view(),
            out.deep_view() == music_entries(model.subrange(0, k as int)),
        decreases items.len() - k,
    {
        let item = &items[k];
        if let Some(title) = &item.title {
            if starts_with_music_prefix(title.as_str()) {
                if let Some(id) = &item.id {
                    out.push(MusicEntry { title: title.clone(), id: id.clone() });
                }
            }
        }
        proof {
            let sub = model.subrange(0, k + 1);
            assert(sub.drop_last() =~= model.subrange(0, k as int));
            assert(sub.last() == model[k as int]);
            assert(out.deep_view() =~= music_entries(sub));
        }
        k += 1;
    }
    proof {
        assert(model.subrange(0, items.len() as int) =~= model);
    }
    out
}

} // verus!
