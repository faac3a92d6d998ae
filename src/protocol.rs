//! Records of the control socket: one request in, one response out.

use vstd::prelude::*;
use crate::track::Song;

verus! {

/// A command by name, with its optional argument.
#[derive(Debug, PartialEq, Eq)]
pub struct Request {
    pub cmd: String,
    pub arg: Option<String>,
}

impl Request {
    pub fn new(cmd: &str, arg: Option<String>) -> (r: Self)
        ensures
            r.cmd@ == cmd@,
            r.arg == arg,
    {
        Request { cmd: cmd.to_string(), arg }
    }
}

/// The outcome of one command: success or failure, a message, and, for
/// `status`, a snapshot of the playback state.
#[derive(Debug, PartialEq, Eq)]
pub struct Response {
    pub ok: bool,
    pub message: String,
    pub status: Option<Status>,
}

impl Response {
    pub fn ok(message: &str) -> (r: Self)
        ensures
            r.ok,
            r.message@ == message@,
            r.status is None,
    {
        Response { ok: true, message: message.to_string(), status: None }
    }

    pub fn err(message: &str) -> (r: Self)
        ensures
            !r.ok,
            r.message@ == message@,
            r.status is None,
    {
        Response { ok: false, message: message.to_string(), status: None }
    }
}

/// What a client sees of the playback state.
#[derive(Debug, PartialEq, Eq)]
pub struct Status {
    pub song: Option<SongInfo>,
    pub paused: bool,
    pub queue_len: usize,
    pub index: usize,
}

/// The displayed fields of the current track.
#[derive(Debug, PartialEq, Eq)]
pub struct SongInfo {
    pub id: String,
    pub title: String,
    pub artist: String,
    pub album: String,
}

impl Clone for SongInfo {
    fn clone(&self) -> (r: Self)
        ensures
            r == *self,
    {
        SongInfo {
            id: self.id.clone(),
            title: self.title.clone(),
            artist: self.artist.clone(),
            album: self.album.clone(),
        }
    }
}

/// The displayed fields of `s`.
pub open spec fn info_of(s: Song) -> SongInfo {
    SongInfo { id: s.id, title: s.title, artist: s.artist, album: s.album }
}

impl SongInfo {
    pub fn of(song: &Song) -> (r: Self)
        ensures
            r == info_of(*song),
    {
        SongInfo {
            id: song.id.clone(),
            title: song.title.clone(),
            artist: song.artist.clone(),
            album: song.album.clone(),
        }
    }
}

} // verus!
