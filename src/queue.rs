//! Preparing a fetched track list for playback: random order, an optional
//! size limit, or album order.

use vstd::prelude::*;
use crate::state::shuffled;
use crate::track::Song;

verus! {

/// Shuffles `songs`. Where `limit` is positive and fewer than their number,
/// `limit` of them are kept, chosen at random; otherwise all are kept.
pub fn shuffled_queue(songs: Vec<Song>, limit: usize) -> (r: Vec<Song>)
    ensures
        limit > 0 && songs.len() > limit ==> r.len() == limit && r@.to_multiset().subset_of(
            songs@.to_multiset(),
        ),
        !(limit > 0 && songs.len() > limit) ==> r.len() == songs.len() && r@.to_multiset()
            == songs@.to_multiset(),
{
    if limit > 0 && songs.len() > limit {
        let mut s = shuffled(songs);
        let ghost whole = s@;
        s.truncate(limit);
        proof {
            assert(whole == s@ + whole.subrange(limit as int, whole.len() as int));
            vstd::seq_lib::lemma_multiset_commutative(s@, whole.subrange(limit as int, whole.len() as int));
        }
        let r = shuffled(s);
        r
    } else {
        shuffled(songs)
    }
}

/// Album order of a track: disc, then track number, an unknown one as 0.
pub open spec fn album_key(s: Song) -> (u32, u32) {
    (
        match s.disc {
            Some(d) => d,
            None => 0,
        },
        match s.track {
            Some(t) => t,
            None => 0,
        },
    )
}

pub open spec fn key_le(a: (u32, u32), b: (u32, u32)) -> bool {
    a.0 < b.0 || (a.0 == b.0 && a.1 <= b.1)
}

/// `s` is in album order.
pub open spec fn in_album_order(s: Seq<Song>) -> bool {
    forall|i: int, j: int| 0 <= i <= j < s.len() ==> key_le(album_key(#[trigger] s[i]), album_key(#[trigger] s[j]))
}

/// Element `i` of `after` is element `from[i]` of `before`, each taken
/// once, and elements of equal album key keep their relative order.
pub open spec fn rearranged_by(before: Seq<Song>, after: Seq<Song>, from: Seq<int>) -> bool {
    &&& from.len() == before.len() == after.len()
    &&& forall|i: int| 0 <= i < from.len() ==> 0 <= #[trigger] from[i] < before.len()
    &&& forall|i: int| 0 <= i < from.len() ==> after[i] == before[#[trigger] from[i]]
    &&& forall|i: int, j: int| 0 <= i < j < from.len() ==> #[trigger] from[i] != #[trigger] from[j]
    &&& forall|i: int, j: int|
        0 <= i < j < from.len() && album_key(#[trigger] after[i]) == album_key(#[trigger] after[j])
            ==> from[i] < from[j]
}

/// `after` is `before` stably rearranged.
pub open spec fn stably_rearranged(before: Seq<Song>, after: Seq<Song>) -> bool {
    exists|from: Seq<int>| #[trigger] rearranged_by(before, after, from)
}

/// The album order key of `s`.
pub fn album_key_of(s: &Song) -> (r: (u32, u32))
    ensures
        r == album_key(*s),
{
    (
        match s.disc {
            Some(d) => d,
            None => 0,
        },
        match s.track {
            Some(t) => t,
            None => 0,
        },
    )
}

/// Relies on `slice::sort_by_key`, a stable sort that orders by the key's
/// `Ord`, for tuples lexicographic; it keeps every element.
#[verifier::external_body]
fn sort_by_album_key(songs: &mut Vec<Song>)
    ensures
        final(songs)@.to_multiset() == old(songs)@.to_multiset(),
        final(songs)@.len() == old(songs)@.len(),
        in_album_order(final(songs)@),
        stably_rearranged(old(songs)@, final(songs)@),
{
    songs.sort_by_key(|s| album_key_of(s));
}

/// The tracks of `songs` in album order: by disc, then by track number.
pub fn album_order(songs: Vec<Song>) -> (r: Vec<Song>)
    ensures
        r@.to_multiset() == songs@.to_multiset(),
        r.len() == songs.len(),
        in_album_order(r@),
        stably_rearranged(songs@, r@),
{
    let mut songs = songs;
    sort_by_album_key(&mut songs);
    songs
}

} // verus!
