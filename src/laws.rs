//! Properties of the playback transitions that span several calls.

use vstd::prelude::*;
use crate::events::end_file_spec;
use crate::state::{PlaybackError, PlaybackView, advance_spec};
use crate::track::Song;

verus! {

/// The state after `n` manual advances with no expected track.
pub open spec fn manual_advances(v: PlaybackView, n: nat) -> PlaybackView
    decreases n,
{
    if n == 0 {
        v
    } else {
        let w = manual_advances(v, (n - 1) as nat);
        advance_spec(w, true, None, w.queue).1
    }
}

proof fn lemma_manual_advances_step(v: PlaybackView, k: nat)
    requires
        v.valid(),
        v.queue.len() > 0,
        !v.repeat,
        v.index == 0,
        k < v.queue.len(),
    ensures
        manual_advances(v, k).queue == v.queue,
        manual_advances(v, k).index == k,
        manual_advances(v, k).current == Some(v.queue[k as int]),
        manual_advances(v, k).repeat == v.repeat,
        manual_advances(v, k).valid(),
    decreases k,
{
    if k > 0 {
        lemma_manual_advances_step(v, (k - 1) as nat);
    }
}

/// Without `repeat`, from the first track of a queue of `n` tracks, each of
/// the first `n - 1` manual advances moves to the next track, and the `n`-th
/// fails with `EndOfQueue` and leaves the state as it was.
pub proof fn lemma_end_of_queue(v: PlaybackView, reshuffled: Seq<Song>)
    requires
        v.valid(),
        v.queue.len() > 0,
        !v.repeat,
        v.index == 0,
    ensures
        forall|k: nat|
            k + 1 < v.queue.len() ==> #[trigger] advance_spec(
                manual_advances(v, k),
                true,
                None,
                reshuffled,
            ).0 == Ok::<Option<Song>, PlaybackError>(Some(v.queue[k + 1int])),
        forall|k: nat|
            k < v.queue.len() ==> (#[trigger] manual_advances(v, k)).index == k
                && manual_advances(v, k).queue == v.queue,
        ({
            let last = manual_advances(v, (v.queue.len() - 1) as nat);
            advance_spec(last, true, None, reshuffled) == (
                Err::<Option<Song>, PlaybackError>(PlaybackError::EndOfQueue),
                last,
            )
        }),
{
    assert forall|k: nat| k < v.queue.len() implies (#[trigger] manual_advances(v, k)).index == k
        && manual_advances(v, k).queue == v.queue by {
        lemma_manual_advances_step(v, k);
    }
    assert forall|k: nat| k + 1 < v.queue.len() implies #[trigger] advance_spec(
        manual_advances(v, k),
        true,
        None,
        reshuffled,
    ).0 == Ok::<Option<Song>, PlaybackError>(Some(v.queue[k + 1int])) by {
        lemma_manual_advances_step(v, k);
    }
    lemma_manual_advances_step(v, (v.queue.len() - 1) as nat);
}

/// With `repeat` on, advancing from the last track wraps to the first track
/// of the (possibly reshuffled) queue, which keeps the same tracks; with
/// `shuffle` off the order is kept.
pub proof fn lemma_wrap_around(v: PlaybackView, manual: bool, reshuffled: Seq<Song>)
    requires
        v.valid(),
        v.queue.len() > 0,
        v.repeat,
        v.index == v.queue.len() - 1,
        reshuffled.to_multiset() == v.queue.to_multiset(),
    ensures
        ({
            let (r, w) = advance_spec(v, manual, None, reshuffled);
            &&& w.index == 0
            &&& w.queue.len() > 0
            &&& w.current == Some(w.queue[0])
            &&& r == Ok::<Option<Song>, PlaybackError>(Some(w.queue[0]))
            &&& w.queue.to_multiset() == v.queue.to_multiset()
            &&& !v.shuffle ==> w.queue == v.queue
            &&& w.valid()
        }),
{
    vstd::seq_lib::to_multiset_len(reshuffled);
    vstd::seq_lib::to_multiset_len(v.queue);
}

/// After a manual advance, the end-of-track notice for the track that was
/// left is swallowed: no advance, no report, and queue, position and current
/// track stay as the manual advance left them (only the one-shot flag is
/// spent).
pub proof fn lemma_notice_after_manual_advance(
    v: PlaybackView,
    reshuffled: Seq<Song>,
    reason: Option<Seq<char>>,
    later: Seq<Song>,
)
    requires
        v.valid(),
        advance_spec(v, true, None, reshuffled).0 is Ok,
    ensures
        ({
            let w = advance_spec(v, true, None, reshuffled).1;
            let (out, x) = end_file_spec(w, reason, later);
            &&& out.advance is None
            &&& out.scrobble is None
            &&& x == w.unsuppressed()
            &&& x.queue == w.queue
            &&& x.index == w.index
            &&& x.current == w.current
        }),
{
}

/// A fallback timer set for track `a` that wakes after a manual advance has
/// moved to another track stops, and its forced advance, guarded by `a`,
/// would change nothing.
pub proof fn lemma_stale_fallback(
    v: PlaybackView,
    reshuffled: Seq<Song>,
    a: Seq<char>,
    later: Seq<Song>,
)
    requires
        v.valid(),
        v.current_is(a),
        reshuffled.to_multiset() == v.queue.to_multiset(),
        advance_spec(v, true, None, reshuffled).0 is Ok,
        !advance_spec(v, true, None, reshuffled).1.current_is(a),
    ensures
        ({
            let w = advance_spec(v, true, None, reshuffled).1;
            &&& w.paused || !w.current_is(a)
            &&& advance_spec(w, false, Some(a), later) == (
                Ok::<Option<Song>, PlaybackError>(None),
                w,
            )
        }),
{
    vstd::seq_lib::to_multiset_len(reshuffled);
    vstd::seq_lib::to_multiset_len(v.queue);
}

} // verus!
