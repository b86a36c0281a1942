//! The presentation layer's state machine: what the window shows (an empty
//! prompt, a loading notice, or the playing track), how each reported event
//! moves it, and how raw positions are rounded for display. Drawing itself
//! stays with the caller; this state decides what is drawn.

use vstd::prelude::*;

use crate::dir_error::MusicDirCreationError;
use crate::fraction::UnitFraction;
use crate::messages::{Event, Request};
use crate::track_metadata::TrackMetaData;

verus! {

/// What the empty window explains.
#[derive(Debug, Clone, Copy, PartialEq, Eq, Structural)]
pub enum EmptyDisplayMessage {
    /// No folder was chosen yet.
    SelectFolder,
    /// The chosen folder could not become a music tree.
    Error(MusicDirCreationError),
}

/// Whether the progress bar tracks reported positions or waits for the
/// answer to a seek it sent.
#[derive(Debug, Clone, Copy, PartialEq, Eq, Structural)]
pub enum ProgressBarState {
    Active,
    WaitingForJump,
}

/// Whether the pause button accepts clicks or waits for the answer to one.
#[derive(Debug, Clone, Copy, PartialEq, Eq, Structural)]
pub enum PauseButtonState {
    Active,
    WaitingForEvent,
}

/// What a click of the pause button would request next.
#[derive(Debug, Clone, Copy, PartialEq, Eq, Structural)]
pub enum PauseButtonAction {
    Pause,
    Play,
}

/// The window's mode.
#[derive(Debug, Clone, Copy, PartialEq, Eq, Structural)]
pub enum AppState {
    Empty(EmptyDisplayMessage),
    LoadingNewMusicDir,
    Playing(ProgressBarState, PauseButtonState, PauseButtonAction),
}

/// A displayed position: above a minute rounded to the second, below it to
/// the half second.
pub open spec fn spec_rounded_ms(ms: int) -> int {
    if ms > 60000 {
        (ms + 500) / 1000 * 1000
    } else {
        (ms + 250) / 500 * 500
    }
}

/// Rounds a position for display; a position beyond the representable range
/// (never reached by real playback) is clamped.
pub fn rounded_progress_ms(ms: u64) -> (r: u64)
    ensures
        spec_rounded_ms(ms as int) <= u64::MAX ==> r == spec_rounded_ms(ms as int),
        spec_rounded_ms(ms as int) > u64::MAX ==> r == u64::MAX,
{
    let wide: u128 = ms as u128;
    let rounded: u128 = if ms > 60000 {
        (wide + 500) / 1000 * 1000
    } else {
        (wide + 250) / 500 * 500
    };
    if rounded > u64::MAX as u128 {
        u64::MAX
    } else {
        rounded as u64
    }
}

/// What the presentation layer remembers between repaints. The textures
/// drawn from the cover art live with the caller.
pub struct UiState {
    pub state: AppState,
    pub progress_ms: u64,
    pub volume_input: UnitFraction,
    pub root_music_path_input: String,
    pub current_track_metadata: Option<TrackMetaData>,
}

impl UiState {
    /// The state when the window opens: an empty prompt, the persisted path
    /// and volume in the inputs, position zero, nothing playing.
    pub fn new(root_music_path: String, volume: UnitFraction) -> (r: UiState)
        ensures
            r.state == AppState::Empty(EmptyDisplayMessage::SelectFolder),
            r.progress_ms == 0,
            r.volume_input == volume,
            r.root_music_path_input == root_music_path,
            r.current_track_metadata is None,
    {
        UiState {
            state: AppState::Empty(EmptyDisplayMessage::SelectFolder),
            progress_ms: 0,
            volume_input: volume,
            root_music_path_input: root_music_path,
            current_track_metadata: None,
        }
    }

    /// The duration shown on the right of the progress bar, when the playing
    /// track's container reported one.
    pub fn get_current_track_duration(&self) -> (r: Option<u64>)
        ensures
            r == (match self.current_track_metadata {
                Some(m) => m.duration_ms,
                None => None::<u64>,
            }),
    {
        match &self.current_track_metadata {
            Some(m) => m.duration_ms,
            None => None,
        }
    }

    /// The seek slider was released: the bar stops following reported
    /// positions until the jump it caused is answered (the answer itself
    /// releases it, in `handle_event`). Outside playing mode the slider is
    /// not shown, so nothing moves.
    pub fn seek_sent(&mut self)
        ensures
            final(self).progress_ms == old(self).progress_ms,
            final(self).volume_input == old(self).volume_input,
            final(self).root_music_path_input == old(self).root_music_path_input,
            final(self).current_track_metadata == old(self).current_track_metadata,
            final(self).state == (match old(self).state {
                AppState::Playing(_, x, y) => AppState::Playing(
                    ProgressBarState::WaitingForJump,
                    x,
                    y,
                ),
                s => s,
            }),
    {
        match self.state {
            AppState::Playing(_, x, y) => {
                self.state = AppState::Playing(ProgressBarState::WaitingForJump, x, y);
            },
            _ => {},
        }
    }

    /// The pause button was clicked: returns the transport request to send —
    /// pause while playing, play while paused — and disarms the button until
    /// the player answers. Outside playing mode the button is not shown, so
    /// there is nothing to send.
    pub fn pause_clicked(&mut self) -> (r: Option<Request>)
        ensures
            final(self).progress_ms == old(self).progress_ms,
            final(self).volume_input == old(self).volume_input,
            final(self).root_music_path_input == old(self).root_music_path_input,
            final(self).current_track_metadata == old(self).current_track_metadata,
            match old(self).state {
                AppState::Playing(x, _, pba) => {
                    &&& final(self).state == AppState::Playing(
                        x,
                        PauseButtonState::WaitingForEvent,
                        pba,
                    )
                    &&& r == Some(
                        match pba {
                            PauseButtonAction::Pause => Request::Pause,
                            PauseButtonAction::Play => Request::Play,
                        },
                    )
                },
                s => final(self).state == s && r is None,
            },
    {
        match self.state {
            AppState::Playing(x, _, pba) => {
                self.state = AppState::Playing(x, PauseButtonState::WaitingForEvent, pba);
                match pba {
                    PauseButtonAction::Pause => Some(Request::Pause),
                    PauseButtonAction::Play => Some(Request::Play),
                }
            },
            _ => None,
        }
    }

    /// The root button was clicked: the window waits for the new tree and
    /// the change-root command, carrying the typed path, goes out. While a
    /// root change is already under way the button is disabled, so there is
    /// nothing to send.
    pub fn root_submitted(&mut self) -> (r: Option<Request>)
        ensures
            final(self).progress_ms == old(self).progress_ms,
            final(self).volume_input == old(self).volume_input,
            final(self).root_music_path_input == old(self).root_music_path_input,
            final(self).current_track_metadata == old(self).current_track_metadata,
            match old(self).state {
                AppState::LoadingNewMusicDir => final(self).state == old(self).state && r is None,
                _ => {
                    &&& final(self).state == AppState::LoadingNewMusicDir
                    &&& (r matches Some(req) && (req matches Request::ChangeRoot(p) && p@ == old(
                        self,
                    ).root_music_path_input@))
                },
            },
    {
        match self.state {
            AppState::LoadingNewMusicDir => None,
            _ => {
                self.state = AppState::LoadingNewMusicDir;
                Some(Request::ChangeRoot(self.root_music_path_input.clone()))
            },
        }
    }

    /// Moves the display for one reported event: a new track replaces the
    /// shown metadata and puts the window into (or back into) playing mode;
    /// positions move the bar unless it waits for a seek answer, which its
    /// own answer releases; play and pause answers re-arm the pause button;
    /// new settings refill the inputs; a directory error empties the window
    /// and shows the message. Reports that cannot concern the current mode
    /// leave it unchanged.
    pub fn handle_event(&mut self, event: Event)
        ensures
            match event {
                Event::NewTrackPlaying(meta) => {
                    &&& final(self).current_track_metadata == meta
                    &&& final(self).progress_ms == old(self).progress_ms
                    &&& final(self).volume_input == old(self).volume_input
                    &&& final(self).root_music_path_input == old(self).root_music_path_input
                    &&& final(self).state == (match old(self).state {
                        AppState::Empty(msg) => AppState::Empty(msg),
                        AppState::LoadingNewMusicDir => {
                            if meta is Some {
                                AppState::Playing(
                                    ProgressBarState::Active,
                                    PauseButtonState::Active,
                                    PauseButtonAction::Pause,
                                )
                            } else {
                                AppState::LoadingNewMusicDir
                            }
                        },
                        AppState::Playing(_, _, _) => AppState::Playing(
                            ProgressBarState::Active,
                            PauseButtonState::Active,
                            PauseButtonAction::Pause,
                        ),
                    })
                },
                Event::ProgressUpdate(d) => {
                    &&& final(self).state == old(self).state
                    &&& final(self).current_track_metadata == old(self).current_track_metadata
                    &&& final(self).volume_input == old(self).volume_input
                    &&& final(self).root_music_path_input == old(self).root_music_path_input
                    &&& final(self).progress_ms == (match old(self).state {
                        AppState::Playing(ProgressBarState::Active, _, _) => {
                            if spec_rounded_ms(d as int) <= u64::MAX {
                                spec_rounded_ms(d as int) as u64
                            } else {
                                u64::MAX
                            }
                        },
                        _ => old(self).progress_ms,
                    })
                },
                Event::JumpedTo(d) => {
                    &&& final(self).current_track_metadata == old(self).current_track_metadata
                    &&& final(self).volume_input == old(self).volume_input
                    &&& final(self).root_music_path_input == old(self).root_music_path_input
                    &&& match old(self).state {
                        AppState::Playing(pbs, x, y) => {
                            &&& final(self).progress_ms == (if spec_rounded_ms(d as int)
                                <= u64::MAX {
                                spec_rounded_ms(d as int) as u64
                            } else {
                                u64::MAX
                            })
                            &&& final(self).state == AppState::Playing(
                                ProgressBarState::Active,
                                x,
                                y,
                            )
                        },
                        _ => final(self).state == old(self).state && final(self).progress_ms
                            == old(self).progress_ms,
                    }
                },
                Event::NowPlaying => {
                    &&& final(self).current_track_metadata == old(self).current_track_metadata
                    &&& final(self).progress_ms == old(self).progress_ms
                    &&& final(self).volume_input == old(self).volume_input
                    &&& final(self).root_music_path_input == old(self).root_music_path_input
                    &&& final(self).state == (match old(self).state {
                        AppState::Playing(x, _, _) => AppState::Playing(
                            x,
                            PauseButtonState::Active,
                            PauseButtonAction::Pause,
                        ),
                        s => s,
                    })
                },
                Event::NowPaused => {
                    &&& final(self).current_track_metadata == old(self).current_track_metadata
                    &&& final(self).progress_ms == old(self).progress_ms
                    &&& final(self).volume_input == old(self).volume_input
                    &&& final(self).root_music_path_input == old(self).root_music_path_input
                    &&& final(self).state == (match old(self).state {
                        AppState::Playing(x, _, _) => AppState::Playing(
                            x,
                            PauseButtonState::Active,
                            PauseButtonAction::Play,
                        ),
                        s => s,
                    })
                },
                Event::NewSettings(s) => {
                    &&& final(self).state == old(self).state
                    &&& final(self).progress_ms == old(self).progress_ms
                    &&& final(self).current_track_metadata == old(self).current_track_metadata
                    &&& final(self).volume_input == s.volume
                    &&& final(self).root_music_path_input == s.root_music_path
                },
                Event::DirError(e) => {
                    &&& final(self).state == AppState::Empty(EmptyDisplayMessage::Error(e))
                    &&& final(self).progress_ms == old(self).progress_ms
                    &&& final(self).current_track_metadata == old(self).current_track_metadata
                    &&& final(self).volume_input == old(self).volume_input
                    &&& final(self).root_music_path_input == old(self).root_music_path_input
                },
            },
    {
        match event {
            Event::NewTrackPlaying(meta) => {
                let was_some = meta.is_some();
                self.current_track_metadata = meta;
                match self.state {
                    AppState::Empty(_) => {},
                    AppState::LoadingNewMusicDir => {
                        if was_some {
                            self.state = AppState::Playing(
                                ProgressBarState::Active,
                                PauseButtonState::Active,
                                PauseButtonAction::Pause,
                            );
                        }
                    },
                    AppState::Playing(_, _, _) => {
                        self.state = AppState::Playing(
                            ProgressBarState::Active,
                            PauseButtonState::Active,
                            PauseButtonAction::Pause,
                        );
                    },
                }
            },
            Event::ProgressUpdate(d) => {
                match self.state {
                    AppState::Playing(ProgressBarState::Active, _, _) => {
                        self.progress_ms = rounded_progress_ms(d);
                    },
                    _ => {},
                }
            },
            Event::JumpedTo(d) => {
                match self.state {
                    AppState::Playing(_, x, y) => {
                        self.progress_ms = rounded_progress_ms(d);
                        self.state = AppState::Playing(ProgressBarState::Active, x, y);
                    },
                    _ => {},
                }
            },
            Event::NowPlaying => {
                match self.state {
                    AppState::Playing(x, _, _) => {
                        self.state = AppState::Playing(
                            x,
                            PauseButtonState::Active,
                            PauseButtonAction::Pause,
                        );
                    },
                    _ => {},
                }
            },
            Event::NowPaused => {
                match self.state {
                    AppState::Playing(x, _, _) => {
                        self.state = AppState::Playing(
                            x,
                            PauseButtonState::Active,
                            PauseButtonAction::Play,
                        );
                    },
                    _ => {},
                }
            },
            Event::NewSettings(s) => {
                self.volume_input = s.volume;
                self.root_music_path_input = s.root_music_path;
            },
            Event::DirError(e) => {
                self.state = AppState::Empty(EmptyDisplayMessage::Error(e));
            },
        }
    }
}

} // verus!
