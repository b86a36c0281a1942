//! Continuous-playback audio engine: a fair directory selector over a tree of
//! tracks, a track loader's metadata assembly, a player engine's queue and
//! transport state machine, and the orchestrator that keeps a bounded
//! look-ahead queue filled.

pub mod dir_error;
pub mod fraction;
pub mod loader;
pub mod messages;
pub mod music_dir;
pub mod orchestrator;
pub mod player;
pub mod settings;
pub mod time_format;
pub mod track;
pub mod track_metadata;
pub mod ui_state;
