//! The command handler: decoding a control request into a command, and the
//! decisions that carry it out, one step per reply of the player or the
//! library service.

use vstd::prelude::*;
use crate::cli::{decimal, decimal_text};
use crate::config::Config;
use crate::protocol::{Request, Response};
use crate::queue::{album_order, in_album_order, shuffled_queue, stably_rearranged};
use crate::state::{PlaybackView, State, advance_spec, error_text, load_spec, retreat_spec, status_of};
use crate::text::{
    chars_of, has_visible, has_visible_chars, joined, parse_unsigned, parse_unsigned_chars,
    text_is, trim_chars, trimmed,
};
use crate::track::{Item, Song};

verus! {

/// A command of the control socket, its argument checked.
#[derive(Debug, PartialEq, Eq)]
pub enum Command {
    Shuffle,
    ShuffleArtist(String),
    ShuffleAlbum(String),
    ShufflePlaylist(String),
    PlayAlbum(String),
    ShuffleLiked,
    FastForward,
    Rewind,
    Pause,
    Play,
    StartOver,
    LikeSong,
    UnlikeSong,
    Rate(u8),
    VolumeUp,
    VolumeDown,
    AddSongToPlaylist(String),
    DeletePlaylist(String),
    Status,
}

/// The rating an argument gives: once surrounding white space is dropped,
/// a number from 1 to 5.
pub open spec fn rating_in(arg: Seq<char>) -> Option<u8> {
    match parse_unsigned(trimmed(arg), 255) {
        Some(n) => if 1 <= n <= 5 {
            Some(n as u8)
        } else {
            None
        },
        None => None,
    }
}

/// The argument, where it holds more than white space.
pub open spec fn named_arg(arg: Option<String>) -> Option<String> {
    match arg {
        Some(a) => if has_visible(a@) {
            Some(a)
        } else {
            None
        },
        None => None,
    }
}

/// The command a request names, or the text of the failure it gets.
pub open spec fn parse_spec(cmd: Seq<char>, arg: Option<String>) -> Result<Command, Seq<char>> {
    if cmd == "shuffle"@ {
        Ok(Command::Shuffle)
    } else if cmd == "shuffleartist"@ {
        match named_arg(arg) {
            Some(a) => Ok(Command::ShuffleArtist(a)),
            None => Err("Artist name required"@),
        }
    } else if cmd == "shufflealbum"@ {
        match named_arg(arg) {
            Some(a) => Ok(Command::ShuffleAlbum(a)),
            None => Err("Album name required"@),
        }
    } else if cmd == "shuffleplaylist"@ {
        match named_arg(arg) {
            Some(a) => Ok(Command::ShufflePlaylist(a)),
            None => Err("Playlist name required"@),
        }
    } else if cmd == "playalbum"@ {
        match named_arg(arg) {
            Some(a) => Ok(Command::PlayAlbum(a)),
            None => Err("Album name required"@),
        }
    } else if cmd == "fastforward"@ {
        Ok(Command::FastForward)
    } else if cmd == "rewind"@ {
        Ok(Command::Rewind)
    } else if cmd == "pause"@ {
        Ok(Command::Pause)
    } else if cmd == "play"@ {
        Ok(Command::Play)
    } else if cmd == "startover"@ {
        Ok(Command::StartOver)
    } else if cmd == "likesong"@ {
        Ok(Command::LikeSong)
    } else if cmd == "unlikesong"@ {
        Ok(Command::UnlikeSong)
    } else if cmd == "rate"@ {
        match arg {
            Some(a) => match rating_in(a@) {
                Some(n) => Ok(Command::Rate(n)),
                None => Err("Rating must be 1-5"@),
            },
            None => Err("Rating required"@),
        }
    } else if cmd == "shuffleliked"@ {
        Ok(Command::ShuffleLiked)
    } else if cmd == "volumeup"@ {
        Ok(Command::VolumeUp)
    } else if cmd == "volumedown"@ {
        Ok(Command::VolumeDown)
    } else if cmd == "addsongtoplaylist"@ {
        match named_arg(arg) {
            Some(a) => Ok(Command::AddSongToPlaylist(a)),
            None => Err("Playlist name required"@),
        }
    } else if cmd == "deleteplaylist"@ {
        match named_arg(arg) {
            Some(a) => Ok(Command::DeletePlaylist(a)),
            None => Err("Playlist name required"@),
        }
    } else if cmd == "status"@ {
        Ok(Command::Status)
    } else {
        Err("Unknown command"@)
    }
}

/// `r` is a failure response with text `m`.
pub open spec fn is_failure(r: Response, m: Seq<char>) -> bool {
    !r.ok && r.message@ == m && r.status is None
}

/// `r` is a success response with text `m` and no snapshot.
pub open spec fn is_success(r: Response, m: Seq<char>) -> bool {
    r.ok && r.message@ == m && r.status is None
}

fn named(arg: &Option<String>, missing: &str) -> (r: Result<String, Response>)
    ensures
        match named_arg(*arg) {
            Some(a) => r == Ok::<String, Response>(a),
            None => r matches Err(e) && is_failure(e, missing@),
        },
{
    match arg {
        Some(a) => {
            let cs = chars_of(a.as_str());
            if has_visible_chars(&cs) {
                Ok(a.clone())
            } else {
                Err(Response::err(missing))
            }
        },
        None => Err(Response::err(missing)),
    }
}

fn rating(arg: &String) -> (r: Option<u8>)
    ensures
        r == rating_in(arg@),
{
    let cs = chars_of(arg.as_str());
    let t = trim_chars(&cs);
    match parse_unsigned_chars(&t, 255) {
        Some(n) => if 1 <= n && n <= 5 {
            Some(n as u8)
        } else {
            None
        },
        None => None,
    }
}

/// The command that `req` names, its argument checked; a failure response
/// for an unknown command or a missing or invalid argument.
pub fn parse_command(req: &Request) -> (r: Result<Command, Response>)
    ensures
        match parse_spec(req.cmd@, req.arg) {
            Ok(c) => r == Ok::<Command, Response>(c),
            Err(m) => r matches Err(e) && is_failure(e, m),
        },
{
    let cmd = req.cmd.as_str();
    if text_is(cmd, "shuffle") {
        Ok(Command::Shuffle)
    } else if text_is(cmd, "shuffleartist") {
        match named(&req.arg, "Artist name required") {
            Ok(a) => Ok(Command::ShuffleArtist(a)),
            Err(e) => Err(e),
        }
    } else if text_is(cmd, "shufflealbum") {
        match named(&req.arg, "Album name required") {
            Ok(a) => Ok(Command::ShuffleAlbum(a)),
            Err(e) => Err(e),
        }
    } else if text_is(cmd, "shuffleplaylist") {
        match named(&req.arg, "Playlist name required") {
            Ok(a) => Ok(Command::ShufflePlaylist(a)),
            Err(e) => Err(e),
        }
    } else if text_is(cmd, "playalbum") {
        match named(&req.arg, "Album name required") {
            Ok(a) => Ok(Command::PlayAlbum(a)),
            Err(e) => Err(e),
        }
    } else if text_is(cmd, "fastforward") {
        Ok(Command::FastForward)
    } else if text_is(cmd, "rewind") {
        Ok(Command::Rewind)
    } else if text_is(cmd, "pause") {
        Ok(Command::Pause)
    } else if text_is(cmd, "play") {
        Ok(Command::Play)
    } else if text_is(cmd, "startover") {
        Ok(Command::StartOver)
    } else if text_is(cmd, "likesong") {
        Ok(Command::LikeSong)
    } else if text_is(cmd, "unlikesong") {
        Ok(Command::UnlikeSong)
    } else if text_is(cmd, "rate") {
        match &req.arg {
            Some(a) => match rating(a) {
                Some(n) => Ok(Command::Rate(n)),
                None => Err(Response::err("Rating must be 1-5")),
            },
            None => Err(Response::err("Rating required")),
        }
    } else if text_is(cmd, "shuffleliked") {
        Ok(Command::ShuffleLiked)
    } else if text_is(cmd, "volumeup") {
        Ok(Command::VolumeUp)
    } else if text_is(cmd, "volumedown") {
        Ok(Command::VolumeDown)
    } else if text_is(cmd, "addsongtoplaylist") {
        match named(&req.arg, "Playlist name required") {
            Ok(a) => Ok(Command::AddSongToPlaylist(a)),
            Err(e) => Err(e),
        }
    } else if text_is(cmd, "deleteplaylist") {
        match named(&req.arg, "Playlist name required") {
            Ok(a) => Ok(Command::DeletePlaylist(a)),
            Err(e) => Err(e),
        }
    } else if text_is(cmd, "status") {
        Ok(Command::Status)
    } else {
        Err(Response::err("Unknown command"))
    }
}

/// A lookup by fuzzy name in the library service.
#[derive(Debug, PartialEq, Eq, Clone, Copy)]
pub enum Lookup {
    Artist,
    Album,
    Playlist,
}

/// Where a list of tracks is fetched from.
#[derive(Debug, PartialEq, Eq)]
pub enum SongSource {
    /// Every track of the library.
    Library,
    /// This many tracks picked at random by the service.
    Random(usize),
    /// Every track of every album of the artist with this identifier.
    ArtistAlbums(String),
    Album(String),
    Playlist(String),
    /// The tracks the user has starred.
    Starred,
}

/// A call to the library service that changes something there.
#[derive(Debug, PartialEq, Eq)]
pub enum LibraryCall {
    Star(String),
    Unstar(String),
    /// Track identifier and rating.
    Rate(String, u8),
    /// Playlist identifier and track identifier.
    AddToPlaylist(String, String),
    /// Playlist name and track identifier.
    CreatePlaylist(String, String),
    DeletePlaylist(String),
}

/// What the handler asks the daemon to do next.
#[derive(Debug)]
pub enum Action {
    /// Answer the client; the command is over.
    Reply(Response),
    /// Look a name up; answer with [`Event::Found`].
    Find(Lookup, String),
    /// Fetch tracks; answer with [`Event::Songs`].
    Fetch(SongSource),
    /// Start playing a track; answer with [`Event::Done`].
    Play(Song),
    /// Set the player's pause flag; answer with [`Event::Done`].
    SetPause(bool),
    /// Seek to the start of the track; answer with [`Event::Done`].
    SeekStart,
    /// Read the player's volume; answer with [`Event::Volume`].
    GetVolume,
    /// Set the player's volume; answer with [`Event::Done`].
    SetVolume(u8),
    /// Make a library call; answer with [`Event::Done`].
    Call(LibraryCall),
}

/// The outcome of an [`Action`]; an error carries its text.
#[derive(Debug)]
pub enum Event {
    Found(Result<Option<Item>, String>),
    Songs(Result<Vec<Song>, String>),
    Done(Result<(), String>),
    /// The volume, as a whole percentage.
    Volume(Result<i32, String>),
}

/// What a command in progress waits for.
#[derive(Debug)]
pub enum Flow {
    /// The lookup made for this command.
    Finding(Command),
    /// The playlist lookup for adding the track with the second identifier
    /// to the playlist named first.
    Adding(String, String),
    /// The tracks for this command; with the name of the album or playlist
    /// found for it.
    Fetching(Command, Option<String>),
    /// The last call: on success, this text is reported and, where given,
    /// the pause flag recorded.
    Acting(String, Option<bool>),
    /// The volume, to be changed by this many points.
    Adjusting(i32),
}

/// One step of a command: the action to take, and what the command then
/// waits for (nothing after a reply).
#[derive(Debug)]
pub struct Step {
    pub action: Action,
    pub next: Option<Flow>,
}

/// `s` answers the client with a failure of text `m`.
pub open spec fn fails_with(s: Step, m: Seq<char>) -> bool {
    &&& s.action matches Action::Reply(r) && is_failure(r, m)
    &&& s.next is None
}

/// `s` takes `a` and then waits for the last call to end with text `m`.
pub open spec fn acts(s: Step, a: Action, m: Seq<char>, pause: Option<bool>) -> bool {
    &&& s.action == a
    &&& s.next matches Some(Flow::Acting(t, p)) && t@ == m && p == pause
}

fn fail(m: &str) -> (r: Step)
    ensures
        fails_with(r, m@),
{
    Step { action: Action::Reply(Response::err(m)), next: None }
}

fn act(a: Action, m: String, pause: Option<bool>) -> (r: Step)
    ensures
        acts(r, a, m@, pause),
{
    Step { action: a, next: Some(Flow::Acting(m, pause)) }
}

/// Where a session's tracks come from for a library-wide shuffle.
pub open spec fn library_source(max_shuffle: usize) -> SongSource {
    if max_shuffle == 0 {
        SongSource::Library
    } else {
        SongSource::Random(max_shuffle)
    }
}

/// The success text after a move through the queue.
pub open spec fn moved_text(forward: bool) -> Seq<char> {
    if forward {
        "Next track"@
    } else {
        "Previous track"@
    }
}

/// What a move through the queue, `r`, leads to: playing the track moved to,
/// or the failure of the move.
pub open spec fn after_move(s: Step, r: Result<Option<Song>, crate::state::PlaybackError>, forward: bool) -> bool {
    match r {
        Ok(Some(song)) => acts(s, Action::Play(song), moved_text(forward), None),
        Ok(None) => (s.action matches Action::Reply(resp) && is_success(resp, moved_text(forward)))
            && s.next is None,
        Err(e) => fails_with(s, error_text(e)),
    }
}

/// What a command on the current track leads to: the call `call(id)` on
/// the current track, or a failure when nothing plays.
pub open spec fn on_current(s: Step, v: PlaybackView, call: spec_fn(String) -> LibraryCall, m: Seq<char>) -> bool {
    match v.current {
        Some(song) => acts(s, Action::Call(call(song.id)), m, None),
        None => fails_with(s, "No song playing"@),
    }
}

/// The first step of `cmd`.
pub fn begin(cmd: Command, state: &mut State, config: &Config) -> (r: Step)
    ensures
        match cmd {
            Command::FastForward => {
                let (m, w) = advance_spec(old(state)@, true, None, final(state)@.queue);
                &&& final(state)@ == w
                &&& final(state)@.queue.to_multiset() == old(state)@.queue.to_multiset()
                &&& after_move(r, m, true)
            },
            Command::Rewind => {
                let (m, w) = retreat_spec(old(state)@, true);
                &&& final(state)@ == w
                &&& after_move(r, match m {
                    Ok(s) => Ok(Some(s)),
                    Err(e) => Err(e),
                }, false)
            },
            _ => final(state)@ == old(state)@,
        },
        match cmd {
            Command::Shuffle => r.action == Action::Fetch(library_source(config.max_shuffle))
                && r.next == Some(Flow::Fetching(cmd, None)),
            Command::ShuffleLiked => r.action == Action::Fetch(SongSource::Starred) && r.next
                == Some(Flow::Fetching(cmd, None)),
            Command::ShuffleArtist(n) => r.action == Action::Find(Lookup::Artist, n) && r.next
                == Some(Flow::Finding(cmd)),
            Command::ShuffleAlbum(n) => r.action == Action::Find(Lookup::Album, n) && r.next
                == Some(Flow::Finding(cmd)),
            Command::PlayAlbum(n) => r.action == Action::Find(Lookup::Album, n) && r.next
                == Some(Flow::Finding(cmd)),
            Command::ShufflePlaylist(n) => r.action == Action::Find(Lookup::Playlist, n) && r.next
                == Some(Flow::Finding(cmd)),
            Command::DeletePlaylist(n) => r.action == Action::Find(Lookup::Playlist, n) && r.next
                == Some(Flow::Finding(cmd)),
            Command::FastForward => true,
            Command::Rewind => true,
            Command::Pause => acts(r, Action::SetPause(true), "Paused"@, Some(true)),
            Command::Play => acts(r, Action::SetPause(false), "Playing"@, Some(false)),
            Command::StartOver => acts(r, Action::SeekStart, "Restarted"@, None),
            Command::LikeSong => on_current(r, old(state)@, |id| LibraryCall::Star(id), "Hearted song"@),
            Command::UnlikeSong => on_current(r, old(state)@, |id| LibraryCall::Unstar(id), "Unhearted song"@),
            Command::Rate(n) => on_current(r, old(state)@, |id| LibraryCall::Rate(id, n), "Rated song "@ + decimal(n as nat)),
            Command::VolumeUp => r.action == Action::GetVolume && r.next == Some(Flow::Adjusting(config.volume_step as i32)),
            Command::VolumeDown => r.action == Action::GetVolume && r.next == Some(Flow::Adjusting((0 - config.volume_step) as i32)),
            Command::AddSongToPlaylist(n) => match old(state)@.current {
                Some(song) => r.action == Action::Find(Lookup::Playlist, n) && r.next == Some(Flow::Adding(n, song.id)),
                None => fails_with(r, "No song playing"@),
            },
            Command::Status => {
                &&& r.action matches Action::Reply(resp) && resp.ok && resp.message@ == "ok"@
                    && resp.status == Some(status_of(old(state)@))
                &&& r.next is None
            },
        },
{
    match cmd {
        Command::Shuffle => {
            let source = if config.max_shuffle == 0 {
                SongSource::Library
            } else {
                SongSource::Random(config.max_shuffle)
            };
            Step { action: Action::Fetch(source), next: Some(Flow::Fetching(cmd, None)) }
        },
        Command::ShuffleLiked => Step {
            action: Action::Fetch(SongSource::Starred),
            next: Some(Flow::Fetching(cmd, None)),
        },
        Command::ShuffleArtist(n) => Step {
            action: Action::Find(Lookup::Artist, n.clone()),
            next: Some(Flow::Finding(Command::ShuffleArtist(n))),
        },
        Command::ShuffleAlbum(n) => Step {
            action: Action::Find(Lookup::Album, n.clone()),
            next: Some(Flow::Finding(Command::ShuffleAlbum(n))),
        },
        Command::PlayAlbum(n) => Step {
            action: Action::Find(Lookup::Album, n.clone()),
            next: Some(Flow::Finding(Command::PlayAlbum(n))),
        },
        Command::ShufflePlaylist(n) => Step {
            action: Action::Find(Lookup::Playlist, n.clone()),
            next: Some(Flow::Finding(Command::ShufflePlaylist(n))),
        },
        Command::DeletePlaylist(n) => Step {
            action: Action::Find(Lookup::Playlist, n.clone()),
            next: Some(Flow::Finding(Command::DeletePlaylist(n))),
        },
        Command::FastForward => match state.advance(true, None) {
            Ok(Some(song)) => act(Action::Play(song), "Next track".to_string(), None),
            Ok(None) => Step { action: Action::Reply(Response::ok("Next track")), next: None },
            Err(e) => fail(e.message()),
        },
        Command::Rewind => match state.retreat(true) {
            Ok(song) => act(Action::Play(song), "Previous track".to_string(), None),
            Err(e) => fail(e.message()),
        },
        Command::Pause => act(Action::SetPause(true), "Paused".to_string(), Some(true)),
        Command::Play => act(Action::SetPause(false), "Playing".to_string(), Some(false)),
        Command::StartOver => act(Action::SeekStart, "Restarted".to_string(), None),
        Command::LikeSong => match state.current_song() {
            Some(song) => act(Action::Call(LibraryCall::Star(song.id)), "Hearted song".to_string(), None),
            None => fail("No song playing"),
        },
        Command::UnlikeSong => match state.current_song() {
            Some(song) => act(Action::Call(LibraryCall::Unstar(song.id)), "Unhearted song".to_string(), None),
            None => fail("No song playing"),
        },
        Command::Rate(n) => match state.current_song() {
            Some(song) => {
                let digits = decimal_text(n);
                let m = joined("Rated song ", digits.as_str());
                act(Action::Call(LibraryCall::Rate(song.id, n)), m, None)
            },
            None => fail("No song playing"),
        },
        Command::VolumeUp => Step {
            action: Action::GetVolume,
            next: Some(Flow::Adjusting(config.volume_step as i32)),
        },
        Command::VolumeDown => Step {
            action: Action::GetVolume,
            next: Some(Flow::Adjusting(0 - config.volume_step as i32)),
        },
        Command::AddSongToPlaylist(n) => match state.current_song() {
            Some(song) => Step {
                action: Action::Find(Lookup::Playlist, n.clone()),
                next: Some(Flow::Adding(n, song.id)),
            },
            None => fail("No song playing"),
        },
        Command::Status => Step {
            action: Action::Reply(Response {
                ok: true,
                message: "ok".to_string(),
                status: Some(state.status()),
            }),
            next: None,
        },
    }
}

/// Commands that start a session from fetched tracks.
pub open spec fn fetches(cmd: Command) -> bool {
    match cmd {
        Command::Shuffle | Command::ShuffleArtist(_) | Command::ShuffleAlbum(_)
        | Command::ShufflePlaylist(_) | Command::PlayAlbum(_) | Command::ShuffleLiked => true,
        _ => false,
    }
}

/// The failure text when `cmd` fetched no tracks.
pub open spec fn empty_text(cmd: Command) -> Seq<char> {
    match cmd {
        Command::Shuffle => "No songs found"@,
        Command::ShuffleArtist(_) => "No songs found for artist"@,
        Command::ShuffleAlbum(_) | Command::PlayAlbum(_) => "No songs found for album"@,
        Command::ShufflePlaylist(_) => "No songs found for playlist"@,
        _ => "No liked songs found"@,
    }
}

pub open spec fn name_text(name: Option<String>) -> Seq<char> {
    match name {
        Some(n) => n@,
        None => Seq::empty(),
    }
}

/// The success text once `cmd` has started its session; `name` is the
/// album or playlist it found.
pub open spec fn started_text(cmd: Command, name: Option<String>) -> Seq<char> {
    match cmd {
        Command::Shuffle => "Shuffling library"@,
        Command::ShuffleArtist(_) => "Shuffling artist"@,
        Command::ShuffleAlbum(_) => "Shuffling album "@ + name_text(name),
        Command::ShufflePlaylist(_) => "Shuffling playlist "@ + name_text(name),
        Command::PlayAlbum(_) => "Playing album "@ + name_text(name),
        _ => "Shuffling liked songs"@,
    }
}

/// The failure text when the lookup of `cmd` found nothing.
pub open spec fn not_found_text(cmd: Command) -> Seq<char> {
    match cmd {
        Command::ShuffleArtist(_) => "Artist not found"@,
        Command::ShuffleAlbum(_) | Command::PlayAlbum(_) => "Album not found"@,
        _ => "Playlist not found"@,
    }
}

/// Where `cmd` fetches its tracks once its lookup found `id`.
pub open spec fn source_of(cmd: Command, id: String) -> SongSource {
    match cmd {
        Command::ShuffleArtist(_) => SongSource::ArtistAlbums(id),
        Command::ShufflePlaylist(_) => SongSource::Playlist(id),
        _ => SongSource::Album(id),
    }
}

/// The size limit of a session of `cmd`: the configured one for a
/// library-wide or liked-tracks shuffle, none otherwise.
pub open spec fn limit_of(cmd: Command, max_shuffle: usize) -> usize {
    match cmd {
        Command::Shuffle | Command::ShuffleLiked => max_shuffle,
        _ => 0,
    }
}

/// `q` is the queue a session of `cmd` plays from `songs`: the tracks in
/// album order for `PlayAlbum`; otherwise shuffled, and at most `limit` of
/// them where a positive limit is exceeded.
pub open spec fn queue_from(cmd: Command, songs: Seq<Song>, limit: usize, q: Seq<Song>) -> bool {
    if cmd matches Command::PlayAlbum(_) {
        q.to_multiset() == songs.to_multiset() && q.len() == songs.len() && in_album_order(q)
            && stably_rearranged(songs, q)
    } else if limit > 0 && songs.len() > limit {
        q.len() == limit && q.to_multiset().subset_of(songs.to_multiset())
    } else {
        q.len() == songs.len() && q.to_multiset() == songs.to_multiset()
    }
}

/// `v` clamped to a percentage.
pub open spec fn clamp_percent(v: int) -> int {
    if v < 0 {
        0
    } else if v > 100 {
        100
    } else {
        v
    }
}

/// The volume after a change of `delta` points from `volume`, kept within
/// 0 to 100.
pub fn adjusted_volume(volume: i32, delta: i32) -> (r: u8)
    ensures
        r as int == clamp_percent(volume + delta),
{
    let v: i64 = volume as i64 + delta as i64;
    if v < 0 {
        0
    } else if v > 100 {
        100
    } else {
        v as u8
    }
}

/// The step after an event: what the command waiting in `flow` does with
/// the outcome of its last action. An event of another kind than the one
/// waited for ends the command with a failure and changes nothing.
pub fn resume(flow: Flow, event: Event, state: &mut State, config: &Config) -> (r: Step)
    ensures
        match (flow, event) {
            (Flow::Finding(cmd), Event::Found(Ok(Some(it)))) => final(state)@ == old(state)@ && match cmd {
                Command::ShuffleArtist(_) | Command::ShuffleAlbum(_) | Command::ShufflePlaylist(_)
                | Command::PlayAlbum(_) => r.action == Action::Fetch(source_of(cmd, it.id))
                    && r.next == Some(Flow::Fetching(cmd, Some(it.name))),
                Command::DeletePlaylist(_) => acts(
                    r,
                    Action::Call(LibraryCall::DeletePlaylist(it.id)),
                    "Deleted playlist "@ + it.name@,
                    None,
                ),
                _ => fails_with(r, "Unexpected reply"@),
            },
            (Flow::Finding(cmd), Event::Found(Ok(None))) => final(state)@ == old(state)@
                && fails_with(r, not_found_text(cmd)),
            (Flow::Adding(name, song_id), Event::Found(Ok(found))) => final(state)@ == old(state)@
                && match found {
                Some(pl) => acts(
                    r,
                    Action::Call(LibraryCall::AddToPlaylist(pl.id, song_id)),
                    "Added to playlist "@ + pl.name@,
                    None,
                ),
                None => acts(
                    r,
                    Action::Call(LibraryCall::CreatePlaylist(name, song_id)),
                    "Created playlist "@ + name@,
                    None,
                ),
            },
            (Flow::Fetching(cmd, name), Event::Songs(Ok(songs))) => if !fetches(cmd) {
                final(state)@ == old(state)@ && fails_with(r, "Unexpected reply"@)
            } else if songs.len() == 0 {
                final(state)@ == old(state)@ && fails_with(r, empty_text(cmd))
            } else {
                let q = final(state)@.queue;
                let album = cmd matches Command::PlayAlbum(_);
                &&& queue_from(cmd, songs@, limit_of(cmd, config.max_shuffle), q)
                &&& q.len() > 0
                &&& final(state)@ == load_spec(old(state)@, q, !album, !album).1
                &&& acts(r, Action::Play(q[0]), started_text(cmd, name), None)
            },
            (Flow::Acting(m, pause), Event::Done(Ok(()))) => {
                &&& final(state)@ == match pause {
                    Some(p) => PlaybackView { paused: p, ..old(state)@ },
                    None => old(state)@,
                }
                &&& r.action matches Action::Reply(resp) && is_success(resp, m@)
                &&& r.next is None
            },
            (Flow::Adjusting(delta), Event::Volume(Ok(v))) => {
                let nv = clamp_percent(v + delta);
                &&& final(state)@ == old(state)@
                &&& acts(r, Action::SetVolume(nv as u8), "Volume "@ + decimal(nv as nat), None)
            },
            (Flow::Finding(_), Event::Found(Err(e))) => final(state)@ == old(state)@ && fails_with(r, e@),
            (Flow::Adding(_, _), Event::Found(Err(e))) => final(state)@ == old(state)@ && fails_with(r, e@),
            (Flow::Fetching(_, _), Event::Songs(Err(e))) => final(state)@ == old(state)@ && fails_with(r, e@),
            (Flow::Acting(_, _), Event::Done(Err(e))) => final(state)@ == old(state)@ && fails_with(r, e@),
            (Flow::Adjusting(_), Event::Volume(Err(e))) => final(state)@ == old(state)@ && fails_with(r, e@),
            _ => final(state)@ == old(state)@ && fails_with(r, "Unexpected reply"@),
        },
{
    match (flow, event) {
        (Flow::Finding(cmd), Event::Found(Ok(Some(it)))) => match cmd {
            Command::ShuffleArtist(_) => Step {
                action: Action::Fetch(SongSource::ArtistAlbums(it.id)),
                next: Some(Flow::Fetching(cmd, Some(it.name))),
            },
            Command::ShuffleAlbum(_) | Command::PlayAlbum(_) => Step {
                action: Action::Fetch(SongSource::Album(it.id)),
                next: Some(Flow::Fetching(cmd, Some(it.name))),
            },
            Command::ShufflePlaylist(_) => Step {
                action: Action::Fetch(SongSource::Playlist(it.id)),
                next: Some(Flow::Fetching(cmd, Some(it.name))),
            },
            Command::DeletePlaylist(_) => {
                let m = joined("Deleted playlist ", it.name.as_str());
                act(Action::Call(LibraryCall::DeletePlaylist(it.id)), m, None)
            },
            _ => fail("Unexpected reply"),
        },
        (Flow::Finding(cmd), Event::Found(Ok(None))) => match cmd {
            Command::ShuffleArtist(_) => fail("Artist not found"),
            Command::ShuffleAlbum(_) | Command::PlayAlbum(_) => fail("Album not found"),
            _ => fail("Playlist not found"),
        },
        (Flow::Adding(name, song_id), Event::Found(Ok(found))) => match found {
            Some(pl) => {
                let m = joined("Added to playlist ", pl.name.as_str());
                act(Action::Call(LibraryCall::AddToPlaylist(pl.id, song_id)), m, None)
            },
            None => {
                let m = joined("Created playlist ", name.as_str());
                act(Action::Call(LibraryCall::CreatePlaylist(name, song_id)), m, None)
            },
        },
        (Flow::Fetching(cmd, name), Event::Songs(Ok(songs))) => start_session(cmd, name, songs, state, config),
        (Flow::Acting(m, pause), Event::Done(Ok(()))) => {
            if let Some(p) = pause {
                state.set_paused(p);
            }
            Step { action: Action::Reply(Response::ok(m.as_str())), next: None }
        },
        (Flow::Adjusting(delta), Event::Volume(Ok(v))) => {
            let nv = adjusted_volume(v, delta);
            let digits = decimal_text(nv);
            let m = joined("Volume ", digits.as_str());
            act(Action::SetVolume(nv), m, None)
        },
        (Flow::Finding(_), Event::Found(Err(e))) => fail(e.as_str()),
        (Flow::Adding(_, _), Event::Found(Err(e))) => fail(e.as_str()),
        (Flow::Fetching(_, _), Event::Songs(Err(e))) => fail(e.as_str()),
        (Flow::Acting(_, _), Event::Done(Err(e))) => fail(e.as_str()),
        (Flow::Adjusting(_), Event::Volume(Err(e))) => fail(e.as_str()),
        _ => fail("Unexpected reply"),
    }
}

fn start_session(cmd: Command, name: Option<String>, songs: Vec<Song>, state: &mut State, config: &Config) -> (r: Step)
    ensures
        if !fetches(cmd) {
            final(state)@ == old(state)@ && fails_with(r, "Unexpected reply"@)
        } else if songs.len() == 0 {
            final(state)@ == old(state)@ && fails_with(r, empty_text(cmd))
        } else {
            let q = final(state)@.queue;
            let album = cmd matches Command::PlayAlbum(_);
            &&& queue_from(cmd, songs@, limit_of(cmd, config.max_shuffle), q)
            &&& q.len() > 0
            &&& final(state)@ == load_spec(old(state)@, q, !album, !album).1
            &&& acts(r, Action::Play(q[0]), started_text(cmd, name), None)
        },
{
    let (limit, empty, message): (usize, &str, String) = match &cmd {
        Command::Shuffle => (config.max_shuffle, "No songs found", "Shuffling library".to_string()),
        Command::ShuffleArtist(_) => (0, "No songs found for artist", "Shuffling artist".to_string()),
        Command::ShuffleAlbum(_) => (0, "No songs found for album", joined("Shuffling album ", name_or_empty(&name).as_str())),
        Command::ShufflePlaylist(_) => (0, "No songs found for playlist", joined("Shuffling playlist ", name_or_empty(&name).as_str())),
        Command::PlayAlbum(_) => (0, "No songs found for album", joined("Playing album ", name_or_empty(&name).as_str())),
        Command::ShuffleLiked => (config.max_shuffle, "No liked songs found", "Shuffling liked songs".to_string()),
        _ => {
            return fail("Unexpected reply");
        },
    };
    if songs.len() == 0 {
        return fail(empty);
    }
    let album = match &cmd {
        Command::PlayAlbum(_) => true,
        _ => false,
    };
    let queue = if album {
        album_order(songs)
    } else {
        shuffled_queue(songs, limit)
    };
    match state.load(queue, !album, !album) {
        Ok(first) => act(Action::Play(first), message, None),
        Err(e) => fail(e.message()),
    }
}

fn name_or_empty(name: &Option<String>) -> (r: String)
    ensures
        r@ == name_text(*name),
{
    match name {
        Some(n) => n.clone(),
        None => String::new(),
    }
}

} // verus!
