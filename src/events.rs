//! Decisions of the two background watchers: the consumer of the player's
//! end-of-track notices and the timer that stands in for a lost notice.

use vstd::prelude::*;
use crate::state::{PlaybackError, PlaybackView, State, advance_spec, id_view};
use crate::text::text_is;
use crate::track::Song;

verus! {

/// What handling one end-of-track notice did.
#[derive(Debug)]
pub struct EndFileOutcome {
    /// The track that played to its end, to be reported as listened to.
    pub scrobble: Option<String>,
    /// The automatic advance, where one was made, and its result.
    pub advance: Option<Result<Option<Song>, PlaybackError>>,
}

/// The player reports that the track played to its end.
pub open spec fn natural_end(reason: Option<Seq<char>>) -> bool {
    reason == Some("eof"@)
}

/// Reasons after which playback moves on: none given, completion, an
/// explicit stop, or an error.
pub open spec fn moves_on(reason: Option<Seq<char>>) -> bool {
    match reason {
        None => true,
        Some(r) => r.len() == 0 || r == "eof"@ || r == "stop"@ || r == "error"@,
    }
}

/// Handling an end-of-track notice: a set suppression flag swallows it (and
/// is cleared); otherwise a completed track is reported and, for the reasons
/// of [`moves_on`], an automatic advance is made.
pub open spec fn end_file_spec(
    v: PlaybackView,
    reason: Option<Seq<char>>,
    reshuffled: Seq<Song>,
) -> (EndFileOutcome, PlaybackView) {
    if v.suppress_next_end {
        (EndFileOutcome { scrobble: None, advance: None }, v.unsuppressed())
    } else {
        let scrobble = if natural_end(reason) {
            match v.current {
                Some(s) => Some(s.id),
                None => None,
            }
        } else {
            None
        };
        if moves_on(reason) {
            let (r, w) = advance_spec(v, false, None, reshuffled);
            (EndFileOutcome { scrobble, advance: Some(r) }, w)
        } else {
            (EndFileOutcome { scrobble, advance: None }, v)
        }
    }
}

/// Handles one end-of-track notice with the reason the player gave.
pub fn on_end_file(state: &mut State, reason: Option<&str>) -> (r: EndFileOutcome)
    ensures
        (r, final(state)@) == end_file_spec(old(state)@, id_view(reason), final(state)@.queue),
        final(state)@.queue.to_multiset() == old(state)@.queue.to_multiset(),
{
    if state.consume_suppression() {
        return EndFileOutcome { scrobble: None, advance: None };
    }
    let (natural, advance) = match reason {
        None => (false, true),
        Some(r) => {
            let natural = text_is(r, "eof");
            (natural, r.is_empty() || natural || text_is(r, "stop") || text_is(r, "error"))
        },
    };
    let scrobble = if natural {
        match state.current_song() {
            Some(s) => Some(s.id),
            None => None,
        }
    } else {
        None
    };
    if advance {
        let r = state.advance(false, None);
        EndFileOutcome { scrobble, advance: Some(r) }
    } else {
        EndFileOutcome { scrobble, advance: None }
    }
}

/// The fallback timer's next step once the player's position is known.
#[derive(Debug, PartialEq, Eq, Clone, Copy)]
pub enum FallbackStep {
    /// The track is running behind: wait this many more milliseconds.
    Recheck(u64),
    /// The track has reached its end: force the advance.
    Advance,
}

/// Milliseconds of a track of `duration_secs` seconds.
pub open spec fn millis(duration_secs: u32) -> int {
    duration_secs as int * 1000
}

/// The first wait of a fallback timer for `song`, in milliseconds before the
/// grace period; none for a track of unknown length, which gets no timer.
pub fn fallback_wait_ms(song: &Song) -> (r: Option<u64>)
    ensures
        r == match song.duration {
            Some(d) => Some(millis(d) as u64),
            None => None::<u64>,
        },
{
    match song.duration {
        Some(d) => Some(d as u64 * 1000),
        None => None,
    }
}

/// How long the timer sleeps: the wait plus the grace period, saturating.
pub fn fallback_sleep_ms(remaining_ms: u64, grace_ms: u64) -> (r: u64)
    ensures
        r == if remaining_ms + grace_ms <= u64::MAX {
            (remaining_ms + grace_ms) as u64
        } else {
            u64::MAX
        },
{
    remaining_ms.saturating_add(grace_ms)
}

/// Whether a timer for track `song_id` that wakes now should stop without
/// acting: the track has changed, or playback is paused.
pub fn tracker_superseded(state: &State, song_id: &str) -> (r: bool)
    ensures
        r == (state@.paused || !state@.current_is(song_id@)),
{
    state.is_paused() || !state.current_is(song_id)
}

/// The step after reading the player's position: a position more than a
/// quarter second before the nominal end means the track runs behind, and
/// the rest of it is waited for; an unknown position, or one near the end,
/// forces the advance.
pub fn fallback_step(duration_secs: u32, position_ms: Option<u64>) -> (r: FallbackStep)
    ensures
        r == match position_ms {
            Some(p) if p + 250 < millis(duration_secs) => FallbackStep::Recheck(
                (millis(duration_secs) - p) as u64,
            ),
            _ => FallbackStep::Advance,
        },
{
    let total: u64 = duration_secs as u64 * 1000;
    match position_ms {
        Some(p) => {
            if p < total && total - p > 250 {
                FallbackStep::Recheck(total - p)
            } else {
                FallbackStep::Advance
            }
        },
        None => FallbackStep::Advance,
    }
}

} // verus!
