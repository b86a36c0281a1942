//! What the loader learns about a track: its tag fields, its duration when
//! the container reports one, and its cover art as a plain pixel buffer.

use vstd::prelude::*;

verus! {

/// Cover art as raw pixels: four bytes (red, green, blue, alpha) per pixel,
/// rows from the top.
#[derive(Debug)]
pub struct CoverArt {
    pub width: usize,
    pub height: usize,
    pub rgba: Vec<u8>,
}

impl CoverArt {
    /// The buffer holds exactly four bytes for every pixel.
    pub open spec fn wf(self) -> bool {
        self.rgba@.len() == 4 * self.width * self.height
    }

    /// The two images have the same dimensions and the same pixels.
    pub open spec fn eq_art(self, o: CoverArt) -> bool {
        &&& self.width == o.width
        &&& self.height == o.height
        &&& self.rgba@ == o.rgba@
    }

    /// An exact copy of the image.
    pub fn duplicate(&self) -> (r: CoverArt)
        ensures
            r.eq_art(*self),
    {
        let rgba = self.rgba.clone();
        proof {
            assert(rgba@ =~= self.rgba@);
        }
        CoverArt { width: self.width, height: self.height, rgba }
    }
}

/// A track's metadata, created once per load and read-only afterwards.
#[derive(Debug)]
pub struct TrackMetaData {
    pub name: String,
    pub artist: String,
    pub album: String,
    /// Total duration in milliseconds, when the container reports one.
    pub duration_ms: Option<u64>,
    pub image: Option<CoverArt>,
}

impl TrackMetaData {
    /// The two values describe the same track: every field agrees, the cover
    /// art pixel for pixel.
    pub open spec fn eq_meta(self, o: TrackMetaData) -> bool {
        &&& self.name@ == o.name@
        &&& self.artist@ == o.artist@
        &&& self.album@ == o.album@
        &&& self.duration_ms == o.duration_ms
        &&& match (self.image, o.image) {
            (Some(a), Some(b)) => a.eq_art(b),
            (None, None) => true,
            _ => false,
        }
    }

    /// An exact copy of the metadata.
    pub fn duplicate(&self) -> (r: TrackMetaData)
        ensures
            r.eq_meta(*self),
    {
        let image = match &self.image {
            None => None,
            Some(c) => Some(c.duplicate()),
        };
        TrackMetaData {
            name: self.name.clone(),
            artist: self.artist.clone(),
            album: self.album.clone(),
            duration_ms: self.duration_ms,
            image,
        }
    }

    /// The placeholder metadata: every field not learned from the container
    /// keeps these values.
    pub fn default() -> (r: TrackMetaData)
        ensures
            r.name@ == "No name"@,
            r.artist@ == "No artist"@,
            r.album@ == "No album"@,
            r.duration_ms is None,
            r.image is None,
    {
        TrackMetaData {
            name: "No name".to_owned(),
            artist: "No artist".to_owned(),
            album: "No album".to_owned(),
            duration_ms: None,
            image: None,
        }
    }
}

} // verus!
