//! The library service's answers: reading tracks, named items and album
//! identifiers out of them, and telling failures apart.

use vstd::prelude::*;
use crate::json::{Json, field, number, text};
use crate::text::text_is;
use crate::track::{Item, Song};

verus! {

/// The text of `v`, or `d` where it is not a string.
pub open spec fn text_or(v: Option<Json>, d: Seq<char>) -> Seq<char> {
    match text(v) {
        Some(t) => t,
        None => d,
    }
}

/// A number as a `u32`, cut to its low 32 bits.
pub open spec fn low32(n: Option<u64>) -> Option<u32> {
    match n {
        Some(x) => Some(x as u32),
        None => None,
    }
}

/// `v` has a string `id`, which makes it a record.
pub open spec fn has_id(v: Json) -> bool {
    text(field(v, "id"@)) is Some
}

/// `s` is the track that record `v` describes: its identifier, the texts
/// it gives or their defaults, and its numbers.
pub open spec fn song_from(v: Json, s: Song) -> bool {
    &&& text(field(v, "id"@)) == Some(s.id@)
    &&& s.title@ == text_or(field(v, "title"@), "Unknown Title"@)
    &&& s.artist@ == text_or(field(v, "artist"@), "Unknown Artist"@)
    &&& s.album@ == text_or(field(v, "album"@), "Unknown Album"@)
    &&& s.duration == low32(number(field(v, "duration"@)))
    &&& s.track == low32(number(field(v, "track"@)))
    &&& s.disc == low32(number(field(v, "discNumber"@)))
}

/// The name of item record `v`: its `name` where it has one, else its
/// `title`, as text; "Unknown" where that is not a string.
pub open spec fn item_name(v: Json) -> Seq<char> {
    if field(v, "name"@) is Some {
        text_or(field(v, "name"@), "Unknown"@)
    } else {
        text_or(field(v, "title"@), "Unknown"@)
    }
}

pub open spec fn item_from(v: Json, it: Item) -> bool {
    &&& text(field(v, "id"@)) == Some(it.id@)
    &&& it.name@ == item_name(v)
}

/// `out` holds, in order, the track of each record among `items`.
pub open spec fn songs_from(items: Seq<Json>, out: Seq<Song>) -> bool
    decreases items.len(),
{
    if items.len() == 0 {
        out.len() == 0
    } else if has_id(items.last()) {
        out.len() > 0 && song_from(items.last(), out.last()) && songs_from(
            items.drop_last(),
            out.drop_last(),
        )
    } else {
        songs_from(items.drop_last(), out)
    }
}

/// `out` holds, in order, the item of each record among `items`.
pub open spec fn items_from(items: Seq<Json>, out: Seq<Item>) -> bool
    decreases items.len(),
{
    if items.len() == 0 {
        out.len() == 0
    } else if has_id(items.last()) {
        out.len() > 0 && item_from(items.last(), out.last()) && items_from(
            items.drop_last(),
            out.drop_last(),
        )
    } else {
        items_from(items.drop_last(), out)
    }
}

/// `out` holds, in order, the identifier of each record among `items`.
pub open spec fn ids_from(items: Seq<Json>, out: Seq<String>) -> bool
    decreases items.len(),
{
    if items.len() == 0 {
        out.len() == 0
    } else if has_id(items.last()) {
        out.len() > 0 && text(field(items.last(), "id"@)) == Some(out.last()@) && ids_from(
            items.drop_last(),
            out.drop_last(),
        )
    } else {
        ids_from(items.drop_last(), out)
    }
}

/// `out` is what a list of records (or a lone record) `v` holds as tracks.
pub open spec fn song_list(v: Json, out: Seq<Song>) -> bool {
    match v {
        Json::Array(items) => songs_from(items@, out),
        Json::Object(_) => songs_from(seq![v], out),
        _ => out.len() == 0,
    }
}

/// `out` is what a list of records (or a lone record) `v` holds as items.
pub open spec fn item_list(v: Json, out: Seq<Item>) -> bool {
    match v {
        Json::Array(items) => items_from(items@, out),
        Json::Object(_) => items_from(seq![v], out),
        _ => out.len() == 0,
    }
}

/// `out` is what a list of records (or a lone record) `v` holds as
/// identifiers.
pub open spec fn id_list(v: Json, out: Seq<String>) -> bool {
    match v {
        Json::Array(items) => ids_from(items@, out),
        Json::Object(_) => ids_from(seq![v], out),
        _ => out.len() == 0,
    }
}

fn text_field_or(value: &Json, key: &str, default: &str) -> (r: String)
    ensures
        r@ == text_or(field(*value, key@), default@),
{
    match value.get(key) {
        Some(v) => match v.as_str() {
            Some(s) => s.to_string(),
            None => default.to_string(),
        },
        None => default.to_string(),
    }
}

fn number_field(value: &Json, key: &str) -> (r: Option<u32>)
    ensures
        r == low32(number(field(*value, key@))),
{
    match value.get(key) {
        Some(v) => match v.as_u64() {
            Some(n) => Some(n as u32),
            None => None,
        },
        None => None,
    }
}

fn id_of(value: &Json) -> (r: Option<String>)
    ensures
        match r {
            Some(s) => text(field(*value, "id"@)) == Some(s@),
            None => text(field(*value, "id"@)) is None,
        },
{
    match value.get("id") {
        Some(v) => match v.as_str() {
            Some(s) => Some(s.to_string()),
            None => None,
        },
        None => None,
    }
}

/// The track a record describes; none without a string `id`.
pub fn parse_song(value: &Json) -> (r: Option<Song>)
    ensures
        match r {
            Some(s) => song_from(*value, s),
            None => !has_id(*value),
        },
{
    let id = match id_of(value) {
        Some(id) => id,
        None => return None,
    };
    Some(
        Song {
            id,
            title: text_field_or(value, "title", "Unknown Title"),
            artist: text_field_or(value, "artist", "Unknown Artist"),
            album: text_field_or(value, "album", "Unknown Album"),
            duration: number_field(value, "duration"),
            track: number_field(value, "track"),
            disc: number_field(value, "discNumber"),
        },
    )
}

/// The item a record describes; none without a string `id`.
pub fn parse_item(value: &Json) -> (r: Option<Item>)
    ensures
        match r {
            Some(it) => item_from(*value, it),
            None => !has_id(*value),
        },
{
    let id = match id_of(value) {
        Some(id) => id,
        None => return None,
    };
    let name = match value.get("name") {
        Some(_) => text_field_or(value, "name", "Unknown"),
        None => text_field_or(value, "title", "Unknown"),
    };
    Some(Item { id, name })
}

/// The tracks of a list of records (or of a lone record); a value of
/// another kind gives none.
pub fn parse_song_list(value: &Json) -> (r: Vec<Song>)
    ensures
        song_list(*value, r@),
{
    match value {
        Json::Array(items) => {
            let mut out: Vec<Song> = Vec::new();
            let mut i: usize = 0;
            while i < items.len()
                invariant
                    i <= items.len(),
                    *value == Json::Array(*items),
                    songs_from(items@.subrange(0, i as int), out@),
                decreases items.len() - i,
            {
                assert(items@.subrange(0, i + 1).drop_last() == items@.subrange(0, i as int));
                let ghost before = out@;
                if let Some(s) = parse_song(&items[i]) {
                    out.push(s);
                    assert(out@.drop_last() == before);
                }
                i = i + 1;
            }
            assert(items@.subrange(0, items.len() as int) == items@);
            out
        },
        Json::Object(_) => {
            let mut out: Vec<Song> = Vec::new();
            assert(seq![*value].drop_last() == Seq::<Json>::empty());
            assert(seq![*value].last() == *value);
            assert(songs_from(Seq::<Json>::empty(), Seq::<Song>::empty()));
            if let Some(s) = parse_song(value) {
                out.push(s);
                assert(out@.drop_last() == Seq::<Song>::empty());
            }
            out
        },
        _ => Vec::new(),
    }
}

/// The items of a list of records (or of a lone record); a value of
/// another kind gives none.
pub fn parse_items(value: &Json) -> (r: Vec<Item>)
    ensures
        item_list(*value, r@),
{
    match value {
        Json::Array(items) => {
            let mut out: Vec<Item> = Vec::new();
            let mut i: usize = 0;
            while i < items.len()
                invariant
                    i <= items.len(),
                    *value == Json::Array(*items),
                    items_from(items@.subrange(0, i as int), out@),
                decreases items.len() - i,
            {
                assert(items@.subrange(0, i + 1).drop_last() == items@.subrange(0, i as int));
                let ghost before = out@;
                if let Some(s) = parse_item(&items[i]) {
                    out.push(s);
                    assert(out@.drop_last() == before);
                }
                i = i + 1;
            }
            assert(items@.subrange(0, items.len() as int) == items@);
            out
        },
        Json::Object(_) => {
            let mut out: Vec<Item> = Vec::new();
            assert(seq![*value].drop_last() == Seq::<Json>::empty());
            assert(seq![*value].last() == *value);
            assert(items_from(Seq::<Json>::empty(), Seq::<Item>::empty()));
            if let Some(s) = parse_item(value) {
                out.push(s);
                assert(out@.drop_last() == Seq::<Item>::empty());
            }
            out
        },
        _ => Vec::new(),
    }
}

/// The identifiers of a list of records (or of a lone record); a value of
/// another kind gives none.
pub fn parse_album_ids(value: &Json) -> (r: Vec<String>)
    ensures
        id_list(*value, r@),
{
    match value {
        Json::Array(items) => {
            let mut out: Vec<String> = Vec::new();
            let mut i: usize = 0;
            while i < items.len()
                invariant
                    i <= items.len(),
                    *value == Json::Array(*items),
                    ids_from(items@.subrange(0, i as int), out@),
                decreases items.len() - i,
            {
                assert(items@.subrange(0, i + 1).drop_last() == items@.subrange(0, i as int));
                let ghost before = out@;
                if let Some(s) = id_of(&items[i]) {
                    out.push(s);
                    assert(out@.drop_last() == before);
                }
                i = i + 1;
            }
            assert(items@.subrange(0, items.len() as int) == items@);
            out
        },
        Json::Object(_) => {
            let mut out: Vec<String> = Vec::new();
            assert(seq![*value].drop_last() == Seq::<Json>::empty());
            assert(seq![*value].last() == *value);
            assert(ids_from(Seq::<Json>::empty(), Seq::<String>::empty()));
            if let Some(s) = id_of(value) {
                out.push(s);
                assert(out@.drop_last() == Seq::<String>::empty());
            }
            out
        },
        _ => Vec::new(),
    }
}

/// The part of an answer under `subsonic-response`, then `outer`, then
/// `inner`.
pub open spec fn part(json: Json, outer: Seq<char>, inner: Seq<char>) -> Option<Json> {
    match field(json, "subsonic-response"@) {
        Some(r) => match field(r, outer) {
            Some(o) => field(o, inner),
            None => None,
        },
        None => None,
    }
}

fn part_of<'a>(json: &'a Json, outer: &str, inner: &str) -> (r: Option<&'a Json>)
    ensures
        match r {
            Some(p) => part(*json, outer@, inner@) == Some(*p),
            None => part(*json, outer@, inner@) is None,
        },
{
    match json.get("subsonic-response") {
        Some(resp) => match resp.get(outer) {
            Some(o) => o.get(inner),
            None => None,
        },
        None => None,
    }
}

/// The tracks of an answer at `outer`/`inner`; none where it lacks that part.
pub open spec fn songs_at(json: Json, outer: Seq<char>, inner: Seq<char>, out: Seq<Song>) -> bool {
    match part(json, outer, inner) {
        Some(p) => song_list(p, out),
        None => out.len() == 0,
    }
}

pub open spec fn items_at(json: Json, outer: Seq<char>, inner: Seq<char>, out: Seq<Item>) -> bool {
    match part(json, outer, inner) {
        Some(p) => item_list(p, out),
        None => out.len() == 0,
    }
}

pub open spec fn ids_at(json: Json, outer: Seq<char>, inner: Seq<char>, out: Seq<String>) -> bool {
    match part(json, outer, inner) {
        Some(p) => id_list(p, out),
        None => out.len() == 0,
    }
}

fn songs_under(json: &Json, outer: &str, inner: &str) -> (r: Vec<Song>)
    ensures
        songs_at(*json, outer@, inner@, r@),
{
    match part_of(json, outer, inner) {
        Some(p) => parse_song_list(p),
        None => Vec::new(),
    }
}

fn items_under(json: &Json, outer: &str, inner: &str) -> (r: Vec<Item>)
    ensures
        items_at(*json, outer@, inner@, r@),
{
    match part_of(json, outer, inner) {
        Some(p) => parse_items(p),
        None => Vec::new(),
    }
}

fn ids_under(json: &Json, outer: &str, inner: &str) -> (r: Vec<String>)
    ensures
        ids_at(*json, outer@, inner@, r@),
{
    match part_of(json, outer, inner) {
        Some(p) => parse_album_ids(p),
        None => Vec::new(),
    }
}

/// The tracks of a `getRandomSongs` answer.
pub fn random_songs_in(json: &Json) -> (r: Vec<Song>)
    ensures
        songs_at(*json, "randomSongs"@, "song"@, r@),
{
    songs_under(json, "randomSongs", "song")
}

/// The album identifiers of a `getAlbumList2` answer.
pub fn album_list_ids_in(json: &Json) -> (r: Vec<String>)
    ensures
        ids_at(*json, "albumList2"@, "album"@, r@),
{
    ids_under(json, "albumList2", "album")
}

/// The artists of a `search3` answer.
pub fn found_artists_in(json: &Json) -> (r: Vec<Item>)
    ensures
        items_at(*json, "searchResult3"@, "artist"@, r@),
{
    items_under(json, "searchResult3", "artist")
}

/// The albums of a `search3` answer.
pub fn found_albums_in(json: &Json) -> (r: Vec<Item>)
    ensures
        items_at(*json, "searchResult3"@, "album"@, r@),
{
    items_under(json, "searchResult3", "album")
}

/// The playlists of a `getPlaylists` answer.
pub fn playlists_in(json: &Json) -> (r: Vec<Item>)
    ensures
        items_at(*json, "playlists"@, "playlist"@, r@),
{
    items_under(json, "playlists", "playlist")
}

/// The album identifiers of a `getArtist` answer.
pub fn artist_album_ids_in(json: &Json) -> (r: Vec<String>)
    ensures
        ids_at(*json, "artist"@, "album"@, r@),
{
    ids_under(json, "artist", "album")
}

/// The tracks of a `getAlbum` answer.
pub fn album_songs_in(json: &Json) -> (r: Vec<Song>)
    ensures
        songs_at(*json, "album"@, "song"@, r@),
{
    songs_under(json, "album", "song")
}

/// The tracks of a `getPlaylist` answer.
pub fn playlist_songs_in(json: &Json) -> (r: Vec<Song>)
    ensures
        songs_at(*json, "playlist"@, "entry"@, r@),
{
    songs_under(json, "playlist", "entry")
}

/// The tracks of a `getStarred2` answer.
pub fn starred_songs_in(json: &Json) -> (r: Vec<Song>)
    ensures
        songs_at(*json, "starred2"@, "song"@, r@),
{
    songs_under(json, "starred2", "song")
}

/// The status an answer reports, "failed" where it gives none.
pub open spec fn answer_status(json: Json) -> Seq<char> {
    match field(json, "subsonic-response"@) {
        Some(r) => text_or(field(r, "status"@), "failed"@),
        None => "failed"@,
    }
}

/// The error message of a failed answer, "Unknown error" where it gives none.
pub open spec fn answer_error(json: Json) -> Seq<char> {
    match field(json, "subsonic-response"@) {
        Some(r) => match field(r, "error"@) {
            Some(e) => text_or(field(e, "message"@), "Unknown error"@),
            None => "Unknown error"@,
        },
        None => "Unknown error"@,
    }
}

/// Accepts an answer whose status is "ok"; otherwise gives its error
/// message.
pub fn check_status(json: &Json) -> (r: Result<(), String>)
    ensures
        answer_status(*json) == "ok"@ ==> r is Ok,
        answer_status(*json) != "ok"@ ==> (r matches Err(m) && m@ == answer_error(*json)),
{
    let ok = match json.get("subsonic-response") {
        Some(resp) => {
            let status = text_field_or(resp, "status", "failed");
            text_is(status.as_str(), "ok")
        },
        None => {
            proof {
                reveal_strlit("failed");
                reveal_strlit("ok");
                assert("failed"@[0] != "ok"@[0]);
            }
            false
        },
    };
    if ok {
        return Ok(());
    }
    let message = match json.get("subsonic-response") {
        Some(resp) => match resp.get("error") {
            Some(e) => text_field_or(e, "message", "Unknown error"),
            None => "Unknown error".to_string(),
        },
        None => "Unknown error".to_string(),
    };
    Err(message)
}

/// How many albums one page of the library-wide album list asks for.
pub const ALBUM_PAGE_SIZE: usize = 200;

/// The offset of the album-list page to ask for after the page at `offset`
/// that held `found` albums: none once a page comes back empty (or the
/// offset would pass the largest `usize`).
pub fn next_album_page(offset: usize, found: usize) -> (r: Option<usize>)
    ensures
        found == 0 ==> r is None,
        found > 0 ==> r == if offset + ALBUM_PAGE_SIZE <= usize::MAX {
            Some((offset + ALBUM_PAGE_SIZE) as usize)
        } else {
            None::<usize>
        },
{
    if found == 0 || offset > usize::MAX - ALBUM_PAGE_SIZE {
        None
    } else {
        Some(offset + ALBUM_PAGE_SIZE)
    }
}

} // verus!
