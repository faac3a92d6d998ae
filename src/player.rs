//! Decisions of the player control channel: correlating command replies by
//! request identifier, and recognizing the notices that matter.

use vstd::prelude::*;
use crate::text::text_is;

verus! {

/// A notice from the player that the daemon acts on.
#[derive(Debug, PartialEq, Eq)]
pub enum MpvEvent {
    /// A track stopped playing, with the reason the player gave.
    EndFile { reason: Option<String> },
}

pub open spec fn text_of(s: Option<&str>) -> Option<Seq<char>> {
    match s {
        Some(t) => Some(t@),
        None => None,
    }
}

/// The notice a line of the notice connection carries: only an `end-file`
/// event is recognized, with its reason where one is given.
pub fn end_file_event(event: Option<&str>, reason: Option<&str>) -> (r: Option<MpvEvent>)
    ensures
        text_of(event) == Some("end-file"@) ==> (r matches Some(MpvEvent::EndFile { reason: x })
            && match (x, reason) {
            (Some(a), Some(b)) => a@ == b@,
            (None, None) => true,
            _ => false,
        }),
        text_of(event) != Some("end-file"@) ==> r is None,
{
    let is_end = match event {
        Some(e) => text_is(e, "end-file"),
        None => false,
    };
    if !is_end {
        return None;
    }
    let reason = match reason {
        Some(s) => Some(s.to_string()),
        None => None,
    };
    Some(MpvEvent::EndFile { reason })
}

/// The identifiers that tag commands sent to the player, each used once.
pub struct RequestIds {
    next_id: u64,
}

impl RequestIds {
    /// The identifier the next command gets.
    pub closed spec fn upcoming(&self) -> u64 {
        self.next_id
    }

    pub fn new() -> (r: Self)
        ensures
            r.upcoming() == 1,
    {
        RequestIds { next_id: 1 }
    }

    /// Hands out the next identifier; the one after it is one larger
    /// (wrapping after the largest `u64`).
    pub fn take(&mut self) -> (r: u64)
        ensures
            r == old(self).upcoming(),
            final(self).upcoming() == if r == u64::MAX {
                0
            } else {
                (r + 1) as u64
            },
    {
        let r = self.next_id;
        self.next_id = if r == u64::MAX {
            0
        } else {
            r + 1
        };
        r
    }
}

/// What to do with a line read while awaiting the reply to a command.
#[derive(Debug, PartialEq, Eq, Clone, Copy)]
pub enum ReplyCheck {
    /// The reply awaited.
    Matched,
    /// Another record: keep reading.
    Skip,
    /// The connection ended: the channel is lost.
    Closed,
}

/// Classifies a line of `bytes_read` bytes whose `request_id` field is
/// `reply_id`, while awaiting the reply tagged `awaited`.
pub fn check_reply(bytes_read: usize, reply_id: Option<u64>, awaited: u64) -> (r: ReplyCheck)
    ensures
        r == if bytes_read == 0 {
            ReplyCheck::Closed
        } else if reply_id == Some(awaited) {
            ReplyCheck::Matched
        } else {
            ReplyCheck::Skip
        },
{
    if bytes_read == 0 {
        ReplyCheck::Closed
    } else {
        match reply_id {
            Some(id) => if id == awaited {
                ReplyCheck::Matched
            } else {
                ReplyCheck::Skip
            },
            None => ReplyCheck::Skip,
        }
    }
}

/// Whether a property reply reports success: its `error` field is absent
/// or `"success"`.
pub fn property_ok(error: Option<&str>) -> (r: bool)
    ensures
        r == match text_of(error) {
            Some(e) => e == "success"@,
            None => true,
        },
{
    match error {
        Some(e) => text_is(e, "success"),
        None => true,
    }
}

/// Polls for the player's socket beyond the first before giving up.
pub const SOCKET_POLL_LIMIT: u32 = 40;

/// Milliseconds between two polls for the player's socket.
pub const SOCKET_POLL_MS: u64 = 50;

/// Whether to poll again for the player's socket after `attempts` polls
/// that did not find it; past the limit, starting the player has failed.
pub fn keep_waiting_for_socket(attempts: u32) -> (r: bool)
    ensures
        r == (attempts <= SOCKET_POLL_LIMIT),
{
    attempts <= SOCKET_POLL_LIMIT
}

} // verus!
