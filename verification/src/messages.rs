//! The message vocabulary between the outside world and the orchestrator.
//! Requests are commands coming in; events are observations going out to the
//! presentation layer. Each message owns its payload.

use vstd::prelude::*;

use crate::dir_error::MusicDirCreationError;
use crate::fraction::UnitFraction;
use crate::settings::Settings;
use crate::track_metadata::TrackMetaData;

verus! {

/// A command for the orchestrator. The repaint handle itself stays with the
/// caller; the orchestrator only records that one was provided.
#[derive(Debug)]
pub enum Request {
    ChangeRoot(String),
    Play,
    Pause,
    JumpToFraction(UnitFraction),
    Skip,
    SetVolume(UnitFraction),
    ProvideRepaintHandle,
}

/// What the orchestrator reports outward. Positions and durations are in
/// milliseconds.
#[derive(Debug)]
pub enum Event {
    NewTrackPlaying(Option<TrackMetaData>),
    NowPlaying,
    NowPaused,
    ProgressUpdate(u64),
    JumpedTo(u64),
    NewSettings(Settings),
    DirError(MusicDirCreationError),
}

} // verus!
