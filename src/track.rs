//! The library's records: tracks and named items (artists, albums, playlists).

use vstd::prelude::*;

verus! {

/// One track of the music library. Never changed after it is fetched.
#[derive(Debug, PartialEq, Eq)]
pub struct Song {
    pub id: String,
    pub title: String,
    pub artist: String,
    pub album: String,
    /// Length in whole seconds, where the library knows it.
    pub duration: Option<u32>,
    pub track: Option<u32>,
    pub disc: Option<u32>,
}

impl Clone for Song {
    fn clone(&self) -> (r: Self)
        ensures
            r == *self,
    {
        Song {
            id: self.id.clone(),
            title: self.title.clone(),
            artist: self.artist.clone(),
            album: self.album.clone(),
            duration: self.duration,
            track: self.track,
            disc: self.disc,
        }
    }
}

/// A named entry of the library: an artist, an album or a playlist.
#[derive(Debug, PartialEq, Eq)]
pub struct Item {
    pub id: String,
    pub name: String,
}

impl Clone for Item {
    fn clone(&self) -> (r: Self)
        ensures
            r == *self,
    {
        Item { id: self.id.clone(), name: self.name.clone() }
    }
}

} // verus!
