//! A plain track description: the tag fields and the duration, as the
//! bottom panel lists them.

use vstd::prelude::*;

verus! {

/// A track as listed: its title, artist, album, and duration in
/// milliseconds.
#[derive(Debug)]
pub struct Track {
    pub name: String,
    pub artist: String,
    pub album: String,
    pub duration_ms: u64,
}

impl Track {
    /// A track from its fields.
    pub fn new(name: String, artist: String, album: String, duration_ms: u64) -> (r: Track)
        ensures
            r.name == name,
            r.artist == artist,
            r.album == album,
            r.duration_ms == duration_ms,
    {
        Track { name, artist, album, duration_ms }
    }

    /// The placeholder track: unnamed, unattributed, of zero length.
    pub fn default() -> (r: Track)
        ensures
            r.name@ == "No name"@,
            r.artist@ == "No artist"@,
            r.album@ == "No album"@,
            r.duration_ms == 0,
    {
        Track {
            name: "No name".to_owned(),
            artist: "No artist".to_owned(),
            album: "No album".to_owned(),
            duration_ms: 0,
        }
    }
}

} // verus!
