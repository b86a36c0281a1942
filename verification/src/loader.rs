//! The track loader's decision half. The caller opens and probes the file,
//! decodes embedded art, and reads the sibling cover files; what is decided
//! here is how those findings become the track's metadata: which tag value
//! wins, which cover image is used, and what stands in for anything missing.

use vstd::prelude::*;

use crate::track_metadata::{CoverArt, TrackMetaData};

verus! {

/// The standard tag fields the panel shows; anything else is passed over.
#[derive(Debug, Clone, Copy, PartialEq, Eq, Structural)]
pub enum TagField {
    Album,
    Artist,
    TrackTitle,
    Other,
}

/// The value of the last tag for `field`, or `dflt` when no tag carries it.
pub open spec fn spec_tag_value(tags: Seq<(TagField, String)>, field: TagField, dflt: Seq<char>) -> Seq<char>
    decreases tags.len(),
{
    if tags.len() == 0 {
        dflt
    } else if tags.last().0 == field {
        tags.last().1@
    } else {
        spec_tag_value(tags.drop_last(), field, dflt)
    }
}

/// Reading one more tag either overrides the value or leaves it.
proof fn lemma_tag_value_take_step(
    tags: Seq<(TagField, String)>,
    i: int,
    field: TagField,
    dflt: Seq<char>,
)
    requires
        0 <= i < tags.len(),
    ensures
        spec_tag_value(tags.take(i + 1), field, dflt) == if tags[i].0 == field {
            tags[i].1@
        } else {
            spec_tag_value(tags.take(i), field, dflt)
        },
{
    assert(tags.take(i + 1).drop_last() =~= tags.take(i));
    assert(tags.take(i + 1).last() == tags[i]);
}

/// The cover image for a track, in the resolution order the loader uses:
/// when the container embeds a visual it alone counts (whether or not it
/// decoded), otherwise the sibling cover files, the jpg before the png.
pub open spec fn spec_cover_choice(
    has_embedded_art: bool,
    embedded_art: Option<CoverArt>,
    cover_jpg: Option<CoverArt>,
    cover_png: Option<CoverArt>,
) -> Option<CoverArt> {
    if has_embedded_art {
        embedded_art
    } else if cover_jpg is Some {
        cover_jpg
    } else {
        cover_png
    }
}

/// Builds a track's metadata from what probing the container found: for each
/// tag field the last value read wins, a missing field keeps its placeholder,
/// and the cover is resolved in the order embedded visual, then cover.jpg,
/// then cover.png. The duration is not known here; the caller sets it from
/// the decoder.
pub fn assemble_metadata(
    tags: &Vec<(TagField, String)>,
    has_embedded_art: bool,
    embedded_art: Option<CoverArt>,
    cover_jpg: Option<CoverArt>,
    cover_png: Option<CoverArt>,
) -> (m: TrackMetaData)
    requires
        embedded_art matches Some(a) ==> a.wf(),
        cover_jpg matches Some(a) ==> a.wf(),
        cover_png matches Some(a) ==> a.wf(),
    ensures
        m.image matches Some(c) ==> c.wf(),
        m.name@ == spec_tag_value(tags@, TagField::TrackTitle, "No name"@),
        m.artist@ == spec_tag_value(tags@, TagField::Artist, "No artist"@),
        m.album@ == spec_tag_value(tags@, TagField::Album, "No album"@),
        m.duration_ms is None,
        m.image == spec_cover_choice(has_embedded_art, embedded_art, cover_jpg, cover_png),
{
    let mut m = TrackMetaData::default();
    let mut i: usize = 0;
    while i < tags.len()
        invariant
            i <= tags@.len(),
            m.name@ == spec_tag_value(tags@.take(i as int), TagField::TrackTitle, "No name"@),
            m.artist@ == spec_tag_value(tags@.take(i as int), TagField::Artist, "No artist"@),
            m.album@ == spec_tag_value(tags@.take(i as int), TagField::Album, "No album"@),
            m.duration_ms is None,
            m.image is None,
        decreases tags@.len() - i,
    {
        proof {
            lemma_tag_value_take_step(tags@, i as int, TagField::TrackTitle, "No name"@);
            lemma_tag_value_take_step(tags@, i as int, TagField::Artist, "No artist"@);
            lemma_tag_value_take_step(tags@, i as int, TagField::Album, "No album"@);
        }
        let entry = &tags[i];
        match entry.0 {
            TagField::Album => {
                m.album = entry.1.clone();
            },
            TagField::Artist => {
                m.artist = entry.1.clone();
            },
            TagField::TrackTitle => {
                m.name = entry.1.clone();
            },
            TagField::Other => {},
        }
        i += 1;
    }
    proof {
        assert(tags@.take(tags@.len() as int) =~= tags@);
    }
    m.image = if has_embedded_art {
        embedded_art
    } else if cover_jpg.is_some() {
        cover_jpg
    } else {
        cover_png
    };
    m
}

/// The metadata for a track whose container could not be probed: the
/// placeholders, with the track's file name as its title when one is known.
pub fn fallback_metadata(file_name: Option<String>) -> (m: TrackMetaData)
    ensures
        m.name@ == (match file_name {
            Some(f) => f@,
            None => "No name"@,
        }),
        m.artist@ == "No artist"@,
        m.album@ == "No album"@,
        m.duration_ms is None,
        m.image is None,
{
    let mut m = TrackMetaData::default();
    match file_name {
        Some(f) => {
            m.name = f;
        },
        None => {},
    }
    m
}

/// One finished load: the probed metadata when the container was readable,
/// the file-name fallback when it was not, and in either case the duration
/// the decoder reported.
pub fn finish_load(
    probed: Option<TrackMetaData>,
    file_name: Option<String>,
    duration_ms: Option<u64>,
) -> (m: TrackMetaData)
    ensures
        m.duration_ms == duration_ms,
        match probed {
            Some(p) => {
                &&& m.name@ == p.name@
                &&& m.artist@ == p.artist@
                &&& m.album@ == p.album@
                &&& m.image == p.image
            },
            None => {
                &&& m.name@ == (match file_name {
                    Some(f) => f@,
                    None => "No name"@,
                })
                &&& m.artist@ == "No artist"@
                &&& m.album@ == "No album"@
                &&& m.image is None
            },
        },
{
    let mut m = match probed {
        Some(p) => p,
        None => fallback_metadata(file_name),
    };
    m.duration_ms = duration_ms;
    m
}

} // verus!
