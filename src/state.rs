//! The single shared playback record: queue, position, modes and the one-shot
//! flag that keeps a manual move and a late end-of-track notice from both
//! advancing past the same track boundary.

use vstd::prelude::*;
use rand::seq::SliceRandom;
use crate::protocol::{SongInfo, Status, info_of};
use crate::text::text_is;
use crate::track::Song;

verus! {

/// Why a move through the queue was refused.
#[derive(Debug, PartialEq, Eq, Clone, Copy)]
pub enum PlaybackError {
    /// Nothing has been loaded.
    EmptyQueue,
    /// A session was started with no tracks.
    NoSongs,
    /// The last track has been reached and `repeat` is off.
    EndOfQueue,
    /// The first track is playing; there is nothing before it.
    AtStart,
}

pub open spec fn error_text(e: PlaybackError) -> Seq<char> {
    match e {
        PlaybackError::EmptyQueue => "Queue is empty"@,
        PlaybackError::NoSongs => "No songs to play"@,
        PlaybackError::EndOfQueue => "End of queue"@,
        PlaybackError::AtStart => "At start of queue"@,
    }
}

impl PlaybackError {
    /// The text reported to a client.
    pub fn message(&self) -> (r: &'static str)
        ensures
            r@ == error_text(*self),
    {
        match self {
            PlaybackError::EmptyQueue => "Queue is empty",
            PlaybackError::NoSongs => "No songs to play",
            PlaybackError::EndOfQueue => "End of queue",
            PlaybackError::AtStart => "At start of queue",
        }
    }
}

/// The abstract value of a [`State`].
pub struct PlaybackView {
    pub queue: Seq<Song>,
    pub index: int,
    pub current: Option<Song>,
    pub paused: bool,
    pub repeat: bool,
    pub shuffle: bool,
    pub suppress_next_end: bool,
    pub end_grace_ms: u64,
}

impl PlaybackView {
    /// The position is valid for the queue and `current` is the track there;
    /// an empty queue has no current track.
    pub open spec fn valid(self) -> bool {
        if self.queue.len() == 0 {
            self.index == 0 && self.current is None
        } else {
            &&& 0 <= self.index < self.queue.len()
            &&& self.current == Some(self.queue[self.index])
        }
    }

    /// Whether the current track has identifier `id`.
    pub open spec fn current_is(self, id: Seq<char>) -> bool {
        match self.current {
            Some(s) => s.id@ == id,
            None => false,
        }
    }

    /// `self` with its position moved to `index` of `queue`, playing, and the
    /// suppression flag set if the move was `manual`.
    pub open spec fn moved_to(self, queue: Seq<Song>, index: int, manual: bool) -> PlaybackView {
        PlaybackView {
            queue,
            index,
            current: Some(queue[index]),
            paused: false,
            repeat: self.repeat,
            shuffle: self.shuffle,
            suppress_next_end: self.suppress_next_end || manual,
            end_grace_ms: self.end_grace_ms,
        }
    }

    /// `self` with the suppression flag cleared.
    pub open spec fn unsuppressed(self) -> PlaybackView {
        PlaybackView { suppress_next_end: false, ..self }
    }
}

pub open spec fn id_view(id: Option<&str>) -> Option<Seq<char>> {
    match id {
        Some(s) => Some(s@),
        None => None,
    }
}

/// Starting a session: `queue` replaces the old one, playback starts at its
/// first track. An empty queue is refused with `NoSongs` and changes nothing.
pub open spec fn load_spec(v: PlaybackView, queue: Seq<Song>, repeat: bool, shuffle: bool) -> (
    Result<Song, PlaybackError>,
    PlaybackView,
) {
    if queue.len() == 0 {
        (Err(PlaybackError::NoSongs), v)
    } else {
        (
            Ok(queue[0]),
            PlaybackView {
                queue,
                index: 0,
                current: Some(queue[0]),
                paused: false,
                repeat,
                shuffle,
                suppress_next_end: false,
                end_grace_ms: v.end_grace_ms,
            },
        )
    }
}

/// Whether advancing from `v` goes past the last track.
pub open spec fn at_last(v: PlaybackView) -> bool {
    v.index + 1 >= v.queue.len()
}

/// Moving to the next track. With `expected` given, a current track of
/// another identifier makes the move a silent no-op. Past the last track the
/// queue wraps to its start when `repeat` is on, first replaced by
/// `reshuffled` when `shuffle` is on too; otherwise the move fails.
/// Success gives the track now to be played.
pub open spec fn advance_spec(
    v: PlaybackView,
    manual: bool,
    expected: Option<Seq<char>>,
    reshuffled: Seq<Song>,
) -> (Result<Option<Song>, PlaybackError>, PlaybackView) {
    if v.queue.len() == 0 {
        (Err(PlaybackError::EmptyQueue), v)
    } else if expected is Some && !v.current_is(expected->0) {
        (Ok(None), v)
    } else if at_last(v) && !v.repeat {
        (Err(PlaybackError::EndOfQueue), v)
    } else if at_last(v) {
        let queue = if v.shuffle { reshuffled } else { v.queue };
        (Ok(Some(queue[0])), v.moved_to(queue, 0, manual))
    } else {
        (Ok(Some(v.queue[v.index + 1])), v.moved_to(v.queue, v.index + 1, manual))
    }
}

/// Moving to the previous track; refused at the first one.
pub open spec fn retreat_spec(v: PlaybackView, manual: bool) -> (
    Result<Song, PlaybackError>,
    PlaybackView,
) {
    if v.queue.len() == 0 {
        (Err(PlaybackError::EmptyQueue), v)
    } else if v.index == 0 {
        (Err(PlaybackError::AtStart), v)
    } else {
        (Ok(v.queue[v.index - 1]), v.moved_to(v.queue, v.index - 1, manual))
    }
}

/// The snapshot a client sees of `v`.
pub open spec fn status_of(v: PlaybackView) -> Status {
    Status {
        song: match v.current {
            Some(s) => Some(info_of(s)),
            None => None,
        },
        paused: v.paused,
        queue_len: v.queue.len() as usize,
        index: v.index as usize,
    }
}

/// Relies on rand's `SliceRandom::shuffle` with the thread-local generator:
/// it reorders the elements in place and keeps each of them.
#[verifier::external_body]
pub(crate) fn shuffled(songs: Vec<Song>) -> (r: Vec<Song>)
    ensures
        r@.to_multiset() == songs@.to_multiset(),
        r@.len() == songs@.len(),
{
    let mut songs = songs;
    songs.shuffle(&mut rand::thread_rng());
    songs
}

/// The playback record. All of it is read and written under one lock by the
/// daemon; every method leaves it valid.
pub struct State {
    queue: Vec<Song>,
    index: usize,
    current: Option<Song>,
    paused: bool,
    repeat: bool,
    shuffle: bool,
    suppress_next_end: bool,
    end_grace_ms: u64,
}

impl View for State {
    type V = PlaybackView;

    closed spec fn view(&self) -> PlaybackView {
        PlaybackView {
            queue: self.queue@,
            index: self.index as int,
            current: self.current,
            paused: self.paused,
            repeat: self.repeat,
            shuffle: self.shuffle,
            suppress_next_end: self.suppress_next_end,
            end_grace_ms: self.end_grace_ms,
        }
    }
}

impl State {
    #[verifier::type_invariant]
    closed spec fn inv(self) -> bool {
        self@.valid()
    }

    /// An empty, idle record.
    pub fn new(end_grace_ms: u64) -> (r: Self)
        ensures
            r@.queue.len() == 0,
            r@.index == 0,
            r@.current is None,
            !r@.paused,
            !r@.repeat,
            !r@.shuffle,
            !r@.suppress_next_end,
            r@.end_grace_ms == end_grace_ms,
    {
        State {
            queue: Vec::new(),
            index: 0,
            current: None,
            paused: false,
            repeat: false,
            shuffle: false,
            suppress_next_end: false,
            end_grace_ms,
        }
    }

    /// Every record is valid (position within the queue, current track the
    /// one there); calling this hands that fact to a caller's proof, for
    /// instance to apply the laws of the playback transitions.
    pub fn is_valid(&self) -> (r: bool)
        ensures
            r,
            self@.valid(),
    {
        proof {
            use_type_invariant(self);
        }
        true
    }

    /// The snapshot a client sees: current track, pause flag, queue length
    /// and position.
    pub fn status(&self) -> (r: Status)
        ensures
            r == status_of(self@),
    {
        let song = match &self.current {
            Some(s) => Some(SongInfo::of(s)),
            None => None,
        };
        Status { song, paused: self.paused, queue_len: self.queue.len(), index: self.index }
    }

    /// The track playing now, if any.
    pub fn current_song(&self) -> (r: Option<Song>)
        ensures
            r == self@.current,
    {
        match &self.current {
            Some(s) => Some(s.clone()),
            None => None,
        }
    }

    /// Whether the current track has identifier `id`.
    pub fn current_is(&self, id: &str) -> (r: bool)
        ensures
            r == self@.current_is(id@),
    {
        match &self.current {
            Some(s) => text_is(s.id.as_str(), id),
            None => false,
        }
    }

    pub fn is_paused(&self) -> (r: bool)
        ensures
            r == self@.paused,
    {
        self.paused
    }

    pub fn end_grace_ms(&self) -> (r: u64)
        ensures
            r == self@.end_grace_ms,
    {
        self.end_grace_ms
    }

    /// Records the player's pause flag.
    pub fn set_paused(&mut self, paused: bool)
        ensures
            final(self)@ == (PlaybackView { paused, ..old(self)@ }),
    {
        proof {
            use_type_invariant(&*self);
        }
        self.paused = paused;
    }

    /// Reads and clears the one-shot suppression flag.
    pub fn consume_suppression(&mut self) -> (r: bool)
        ensures
            r == old(self)@.suppress_next_end,
            final(self)@ == old(self)@.unsuppressed(),
    {
        proof {
            use_type_invariant(&*self);
        }
        let r = self.suppress_next_end;
        self.suppress_next_end = false;
        r
    }

    /// Replaces the queue and starts at its first track, which is returned.
    pub fn load(&mut self, queue: Vec<Song>, repeat: bool, shuffle: bool) -> (r: Result<
        Song,
        PlaybackError,
    >)
        ensures
            (r, final(self)@) == load_spec(old(self)@, queue@, repeat, shuffle),
    {
        if queue.len() == 0 {
            return Err(PlaybackError::NoSongs);
        }
        let first = queue[0].clone();
        *self = State {
            queue,
            index: 0,
            current: Some(first.clone()),
            paused: false,
            repeat,
            shuffle,
            suppress_next_end: false,
            end_grace_ms: self.end_grace_ms,
        };
        Ok(first)
    }

    /// Takes the record out of `self`, leaving an empty one behind.
    fn take(&mut self) -> (r: State)
        ensures
            r@ == old(self)@,
    {
        let mut st = State::new(0);
        std::mem::swap(self, &mut st);
        st
    }

    /// Moves to the next track; see [`advance_spec`]. On success with a
    /// track, that track is to be played. A wrap with `shuffle` on reorders
    /// the queue at random; every outcome keeps the same tracks.
    pub fn advance(&mut self, manual: bool, expected_id: Option<&str>) -> (r: Result<
        Option<Song>,
        PlaybackError,
    >)
        ensures
            (r, final(self)@) == advance_spec(
                old(self)@,
                manual,
                id_view(expected_id),
                final(self)@.queue,
            ),
            final(self)@.queue.to_multiset() == old(self)@.queue.to_multiset(),
            final(self)@.queue.len() == old(self)@.queue.len(),
    {
        proof {
            use_type_invariant(&*self);
        }
        if self.queue.len() == 0 {
            return Err(PlaybackError::EmptyQueue);
        }
        if let Some(expected) = expected_id {
            if !self.current_is(expected) {
                return Ok(None);
            }
        }
        if self.index + 1 >= self.queue.len() && !self.repeat {
            return Err(PlaybackError::EndOfQueue);
        }
        let State { queue, index, current: _, paused: _, repeat, shuffle, suppress_next_end, end_grace_ms } =
            self.take();
        let (queue, index) = if index + 1 >= queue.len() {
            if shuffle {
                (shuffled(queue), 0)
            } else {
                (queue, 0)
            }
        } else {
            (queue, index + 1)
        };
        let song = queue[index].clone();
        *self = State {
            queue,
            index,
            current: Some(song.clone()),
            paused: false,
            repeat,
            shuffle,
            suppress_next_end: suppress_next_end || manual,
            end_grace_ms,
        };
        Ok(Some(song))
    }

    /// Moves to the previous track, which is returned; refused with
    /// `AtStart` at the first track, changing nothing.
    pub fn retreat(&mut self, manual: bool) -> (r: Result<Song, PlaybackError>)
        ensures
            (r, final(self)@) == retreat_spec(old(self)@, manual),
            old(self)@.queue.len() > 0 && old(self)@.index == 0 ==> r == Err::<Song, PlaybackError>(
                PlaybackError::AtStart,
            ) && final(self)@ == old(self)@,
    {
        proof {
            use_type_invariant(&*self);
        }
        if self.queue.len() == 0 {
            return Err(PlaybackError::EmptyQueue);
        }
        if self.index == 0 {
            return Err(PlaybackError::AtStart);
        }
        let State { queue, index, current: _, paused: _, repeat, shuffle, suppress_next_end, end_grace_ms } =
            self.take();
        let index = index - 1;
        let song = queue[index].clone();
        *self = State {
            queue,
            index,
            current: Some(song.clone()),
            paused: false,
            repeat,
            shuffle,
            suppress_next_end: suppress_next_end || manual,
            end_grace_ms,
        };
        Ok(song)
    }
}

} // verus!
