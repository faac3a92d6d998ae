//! The control socket's records as JSON values: a request is
//! `{cmd, arg}`, a response `{ok, message, status}` with the status
//! `{song: {id, title, artist, album} | null, paused, queue_len, index}`.
//! Absent optional values are `null`.

use vstd::prelude::*;
use crate::json::{Json, field, member};
use crate::protocol::{Request, Response, SongInfo, Status};

verus! {

/// The string member `key` of `j`.
pub open spec fn string_field(j: Json, key: Seq<char>) -> Option<String> {
    match field(j, key) {
        Some(Json::Str(s)) => Some(s),
        _ => None,
    }
}

/// The boolean member `key` of `j`.
pub open spec fn bool_field(j: Json, key: Seq<char>) -> Option<bool> {
    match field(j, key) {
        Some(Json::Bool(b)) => Some(b),
        _ => None,
    }
}

/// The count member `key` of `j`, where it fits a `usize`.
pub open spec fn count_field(j: Json, key: Seq<char>) -> Option<usize> {
    match field(j, key) {
        Some(Json::Number(Some(n))) => if n <= usize::MAX {
            Some(n as usize)
        } else {
            None
        },
        _ => None,
    }
}

/// An optional string member: absent or `null` is none, a string is that
/// string; anything else does not decode (`Err`).
pub open spec fn optional_string(j: Json, key: Seq<char>) -> Result<Option<String>, ()> {
    match field(j, key) {
        None => Ok(None),
        Some(Json::Null) => Ok(None),
        Some(Json::Str(s)) => Ok(Some(s)),
        _ => Err(()),
    }
}

/// The request that `j` encodes, if any.
pub open spec fn request_of(j: Json) -> Option<Request> {
    match (string_field(j, "cmd"@), optional_string(j, "arg"@)) {
        (Some(cmd), Ok(arg)) => Some(Request { cmd, arg }),
        _ => None,
    }
}

pub open spec fn song_info_of(j: Json) -> Option<SongInfo> {
    match (
        string_field(j, "id"@),
        string_field(j, "title"@),
        string_field(j, "artist"@),
        string_field(j, "album"@),
    ) {
        (Some(id), Some(title), Some(artist), Some(album)) => Some(
            SongInfo { id, title, artist, album },
        ),
        _ => None,
    }
}

/// An optional record member, decoded by `dec`.
pub open spec fn optional_record<T>(j: Json, key: Seq<char>, dec: spec_fn(Json) -> Option<T>) -> Result<Option<T>, ()> {
    match field(j, key) {
        None => Ok(None),
        Some(Json::Null) => Ok(None),
        Some(v) => match dec(v) {
            Some(x) => Ok(Some(x)),
            None => Err(()),
        },
    }
}

pub open spec fn status_of_json(j: Json) -> Option<Status> {
    match (
        optional_record(j, "song"@, |v: Json| song_info_of(v)),
        bool_field(j, "paused"@),
        count_field(j, "queue_len"@),
        count_field(j, "index"@),
    ) {
        (Ok(song), Some(paused), Some(queue_len), Some(index)) => Some(
            Status { song, paused, queue_len, index },
        ),
        _ => None,
    }
}

/// The response that `j` encodes, if any.
pub open spec fn response_of(j: Json) -> Option<Response> {
    match (
        bool_field(j, "ok"@),
        string_field(j, "message"@),
        optional_record(j, "status"@, |v: Json| status_of_json(v)),
    ) {
        (Some(ok), Some(message), Ok(status)) => Some(Response { ok, message, status }),
        _ => None,
    }
}

/// `j` is the encoding of `r`: an object with `cmd`, then `arg`.
pub open spec fn encodes_request(r: Request, j: Json) -> bool {
    &&& j matches Json::Object(m)
    &&& m@.len() == 2
    &&& m@[0].0@ == "cmd"@ && m@[0].1 == Json::Str(r.cmd)
    &&& m@[1].0@ == "arg"@ && m@[1].1 == match r.arg {
        Some(a) => Json::Str(a),
        None => Json::Null,
    }
}

pub open spec fn encodes_song_info(s: SongInfo, j: Json) -> bool {
    &&& j matches Json::Object(m)
    &&& m@.len() == 4
    &&& m@[0].0@ == "id"@ && m@[0].1 == Json::Str(s.id)
    &&& m@[1].0@ == "title"@ && m@[1].1 == Json::Str(s.title)
    &&& m@[2].0@ == "artist"@ && m@[2].1 == Json::Str(s.artist)
    &&& m@[3].0@ == "album"@ && m@[3].1 == Json::Str(s.album)
}

pub open spec fn encodes_status(s: Status, j: Json) -> bool {
    &&& j matches Json::Object(m)
    &&& m@.len() == 4
    &&& m@[0].0@ == "song"@ && match s.song {
        Some(info) => encodes_song_info(info, m@[0].1),
        None => m@[0].1 == Json::Null,
    }
    &&& m@[1].0@ == "paused"@ && m@[1].1 == Json::Bool(s.paused)
    &&& m@[2].0@ == "queue_len"@ && m@[2].1 == Json::Number(Some(s.queue_len as u64))
    &&& m@[3].0@ == "index"@ && m@[3].1 == Json::Number(Some(s.index as u64))
}

/// `j` is the encoding of `r`: an object with `ok`, `message`, then
/// `status`.
pub open spec fn encodes_response(r: Response, j: Json) -> bool {
    &&& j matches Json::Object(m)
    &&& m@.len() == 3
    &&& m@[0].0@ == "ok"@ && m@[0].1 == Json::Bool(r.ok)
    &&& m@[1].0@ == "message"@ && m@[1].1 == Json::Str(r.message)
    &&& m@[2].0@ == "status"@ && match r.status {
        Some(s) => encodes_status(s, m@[2].1),
        None => m@[2].1 == Json::Null,
    }
}

fn entry(key: &str, value: Json) -> (r: (String, Json))
    ensures
        r.0@ == key@,
        r.1 == value,
{
    (key.to_string(), value)
}

/// The JSON record of `r`.
pub fn encode_request(r: &Request) -> (j: Json)
    ensures
        encodes_request(*r, j),
{
    let arg = match &r.arg {
        Some(a) => Json::Str(a.clone()),
        None => Json::Null,
    };
    let mut m: Vec<(String, Json)> = Vec::new();
    m.push(entry("cmd", Json::Str(r.cmd.clone())));
    m.push(entry("arg", arg));
    Json::Object(m)
}

fn encode_song_info(s: &SongInfo) -> (j: Json)
    ensures
        encodes_song_info(*s, j),
{
    let mut m: Vec<(String, Json)> = Vec::new();
    m.push(entry("id", Json::Str(s.id.clone())));
    m.push(entry("title", Json::Str(s.title.clone())));
    m.push(entry("artist", Json::Str(s.artist.clone())));
    m.push(entry("album", Json::Str(s.album.clone())));
    Json::Object(m)
}

fn encode_status(s: &Status) -> (j: Json)
    ensures
        encodes_status(*s, j),
{
    let song = match &s.song {
        Some(info) => encode_song_info(info),
        None => Json::Null,
    };
    let mut m: Vec<(String, Json)> = Vec::new();
    m.push(entry("song", song));
    m.push(entry("paused", Json::Bool(s.paused)));
    m.push(entry("queue_len", Json::Number(Some(s.queue_len as u64))));
    m.push(entry("index", Json::Number(Some(s.index as u64))));
    Json::Object(m)
}

/// The JSON record of `r`.
pub fn encode_response(r: &Response) -> (j: Json)
    ensures
        encodes_response(*r, j),
{
    let status = match &r.status {
        Some(s) => encode_status(s),
        None => Json::Null,
    };
    let mut m: Vec<(String, Json)> = Vec::new();
    m.push(entry("ok", Json::Bool(r.ok)));
    m.push(entry("message", Json::Str(r.message.clone())));
    m.push(entry("status", status));
    Json::Object(m)
}

fn get_string(j: &Json, key: &str) -> (r: Option<String>)
    ensures
        r == string_field(*j, key@),
{
    match j.get(key) {
        Some(Json::Str(s)) => Some(s.clone()),
        _ => None,
    }
}

fn get_bool(j: &Json, key: &str) -> (r: Option<bool>)
    ensures
        r == bool_field(*j, key@),
{
    match j.get(key) {
        Some(Json::Bool(b)) => Some(*b),
        _ => None,
    }
}

fn get_count(j: &Json, key: &str) -> (r: Option<usize>)
    ensures
        r == count_field(*j, key@),
{
    match j.get(key) {
        Some(Json::Number(Some(n))) => if *n <= usize::MAX as u64 {
            Some(*n as usize)
        } else {
            None
        },
        _ => None,
    }
}

fn get_optional_string(j: &Json, key: &str) -> (r: Result<Option<String>, ()>)
    ensures
        r == optional_string(*j, key@),
{
    match j.get(key) {
        None => Ok(None),
        Some(Json::Null) => Ok(None),
        Some(Json::Str(s)) => Ok(Some(s.clone())),
        _ => Err(()),
    }
}

/// The request a JSON record encodes; none where it is not one.
pub fn decode_request(j: &Json) -> (r: Option<Request>)
    ensures
        r == request_of(*j),
{
    match (get_string(j, "cmd"), get_optional_string(j, "arg")) {
        (Some(cmd), Ok(arg)) => Some(Request { cmd, arg }),
        _ => None,
    }
}

fn decode_song_info(j: &Json) -> (r: Option<SongInfo>)
    ensures
        r == song_info_of(*j),
{
    match (get_string(j, "id"), get_string(j, "title"), get_string(j, "artist"), get_string(j, "album")) {
        (Some(id), Some(title), Some(artist), Some(album)) => Some(SongInfo { id, title, artist, album }),
        _ => None,
    }
}

fn decode_status(j: &Json) -> (r: Option<Status>)
    ensures
        r == status_of_json(*j),
{
    let song = match j.get("song") {
        None => Ok(None),
        Some(Json::Null) => Ok(None),
        Some(v) => match decode_song_info(v) {
            Some(x) => Ok(Some(x)),
            None => Err(()),
        },
    };
    match (song, get_bool(j, "paused"), get_count(j, "queue_len"), get_count(j, "index")) {
        (Ok(song), Some(paused), Some(queue_len), Some(index)) => Some(Status { song, paused, queue_len, index }),
        _ => None,
    }
}

/// The response a JSON record encodes; none where it is not one.
pub fn decode_response(j: &Json) -> (r: Option<Response>)
    ensures
        r == response_of(*j),
{
    let status = match j.get("status") {
        None => Ok(None),
        Some(Json::Null) => Ok(None),
        Some(v) => match decode_status(v) {
            Some(x) => Ok(Some(x)),
            None => Err(()),
        },
    };
    match (get_bool(j, "ok"), get_string(j, "message"), status) {
        (Some(ok), Some(message), Ok(status)) => Some(Response { ok, message, status }),
        _ => None,
    }
}

proof fn lemma_member_at(m: Seq<(String, Json)>, i: int, key: Seq<char>)
    requires
        0 <= i < m.len(),
        m[i].0@ == key,
        forall|k: int| 0 <= k < i ==> (#[trigger] m[k]).0@ != key,
    ensures
        member(m, key) == Some(m[i].1),
    decreases i,
{
    if i > 0 {
        assert forall|k: int| 0 <= k < i - 1 implies (#[trigger] m.drop_first()[k]).0@ != key by {
            assert(m.drop_first()[k] == m[k + 1]);
        }
        lemma_member_at(m.drop_first(), i - 1, key);
    }
}

/// Decoding the encoding of a request gives that request back, field for
/// field.
pub proof fn lemma_request_round_trip(r: Request, j: Json)
    requires
        encodes_request(r, j),
    ensures
        request_of(j) == Some(r),
{
    let m = j->Object_0@;
    reveal_strlit("cmd");
    reveal_strlit("arg");
    assert("cmd"@ != "arg"@) by {
        assert("cmd"@[0] != "arg"@[0]);
    }
    lemma_member_at(m, 1, "arg"@);
}

proof fn lemma_song_info_round_trip(s: SongInfo, j: Json)
    requires
        encodes_song_info(s, j),
    ensures
        song_info_of(j) == Some(s),
{
    let m = j->Object_0@;
    reveal_strlit("id");
    reveal_strlit("title");
    reveal_strlit("artist");
    reveal_strlit("album");
    assert("id"@ != "title"@ && "id"@ != "artist"@ && "id"@ != "album"@) by {
        assert("id"@[0] != "title"@[0] && "id"@[0] != "artist"@[0] && "id"@[0] != "album"@[0]);
    }
    assert("title"@ != "artist"@ && "title"@ != "album"@) by {
        assert("title"@[0] != "artist"@[0] && "title"@[0] != "album"@[0]);
    }
    assert("artist"@ != "album"@) by {
        assert("artist"@[1] != "album"@[1]);
    }
    lemma_member_at(m, 1, "title"@);
    lemma_member_at(m, 2, "artist"@);
    lemma_member_at(m, 3, "album"@);
}

proof fn lemma_status_round_trip(s: Status, j: Json)
    requires
        encodes_status(s, j),
    ensures
        status_of_json(j) == Some(s),
{
    let m = j->Object_0@;
    reveal_strlit("song");
    reveal_strlit("paused");
    reveal_strlit("queue_len");
    reveal_strlit("index");
    assert("song"@ != "paused"@ && "song"@ != "queue_len"@ && "song"@ != "index"@) by {
        assert("song"@[0] != "paused"@[0] && "song"@[0] != "queue_len"@[0] && "song"@[0] != "index"@[0]);
    }
    assert("paused"@ != "queue_len"@ && "paused"@ != "index"@) by {
        assert("paused"@[0] != "queue_len"@[0] && "paused"@[0] != "index"@[0]);
    }
    assert("queue_len"@ != "index"@) by {
        assert("queue_len"@[0] != "index"@[0]);
    }
    lemma_member_at(m, 1, "paused"@);
    lemma_member_at(m, 2, "queue_len"@);
    lemma_member_at(m, 3, "index"@);
    if let Some(info) = s.song {
        lemma_song_info_round_trip(info, m[0].1);
    }
}

/// Decoding the encoding of a response gives that response back, field for
/// field, its status snapshot and current track included.
pub proof fn lemma_response_round_trip(r: Response, j: Json)
    requires
        encodes_response(r, j),
    ensures
        response_of(j) == Some(r),
{
    let m = j->Object_0@;
    reveal_strlit("ok");
    reveal_strlit("message");
    reveal_strlit("status");
    assert("ok"@ != "message"@ && "ok"@ != "status"@) by {
        assert("ok"@[0] != "message"@[0] && "ok"@[0] != "status"@[0]);
    }
    assert("message"@ != "status"@) by {
        assert("message"@[0] != "status"@[0]);
    }
    lemma_member_at(m, 1, "message"@);
    lemma_member_at(m, 2, "status"@);
    if let Some(s) = r.status {
        lemma_status_round_trip(s, m[2].1);
    }
}

} // verus!
