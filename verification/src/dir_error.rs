//! The errors that building a music directory tree can report, and the
//! human-readable message shown for each kind.

use vstd::prelude::*;

verus! {

/// Why a music directory tree could not be built from a root path.
#[derive(Debug, Clone, Copy, Eq, PartialEq, Structural)]
pub enum MusicDirCreationError {
    /// The root path does not exist.
    NotFound,
    /// The root path exists but is not a directory.
    NotDir,
    /// The directory holds no eligible track and no non-empty subdirectory.
    Empty,
    /// The directory exists but its name could not be read.
    Unknown,
}

impl MusicDirCreationError {
    /// The message shown to the user for this error kind.
    pub fn message(&self) -> (r: String)
        ensures
            r@ == spec_error_message(*self),
    {
        match self {
            MusicDirCreationError::NotFound => "Error: path not found".to_owned(),
            MusicDirCreationError::NotDir => "Error: selected path is not a folder".to_owned(),
            MusicDirCreationError::Empty => "Error: no .mp3 files found inside the selected folder and its relative sub-folders".to_owned(),
            MusicDirCreationError::Unknown => "An unknown error occurred".to_owned(),
        }
    }
}

/// The message text chosen for each error kind.
pub open spec fn spec_error_message(e: MusicDirCreationError) -> Seq<char> {
    match e {
        MusicDirCreationError::NotFound => "Error: path not found"@,
        MusicDirCreationError::NotDir => "Error: selected path is not a folder"@,
        MusicDirCreationError::Empty => "Error: no .mp3 files found inside the selected folder and its relative sub-folders"@,
        MusicDirCreationError::Unknown => "An unknown error occurred"@,
    }
}

} // verus!
