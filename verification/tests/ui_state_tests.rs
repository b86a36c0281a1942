use rustify::dir_error::MusicDirCreationError;
use rustify::fraction::UnitFraction;
use rustify::messages::{Event, Request};
use rustify::settings::Settings;
use rustify::track_metadata::TrackMetaData;
use rustify::ui_state::{
    rounded_progress_ms, AppState, EmptyDisplayMessage, PauseButtonAction, PauseButtonState,
    ProgressBarState, UiState,
};

fn ui_meta(name: &str) -> TrackMetaData {
    TrackMetaData {
        name: name.to_string(),
        artist: "No artist".to_string(),
        album: "No album".to_string(),
        duration_ms: Some(10_000),
        image: None,
    }
}

fn fresh() -> UiState {
    UiState::new("music".to_string(), UnitFraction::new(500))
}

#[test]
fn long_positions_round_to_seconds() {
    assert_eq!(rounded_progress_ms(61_400), 61_000);
    assert_eq!(rounded_progress_ms(61_500), 62_000);
}

#[test]
fn short_positions_round_to_half_seconds() {
    assert_eq!(rounded_progress_ms(30_240), 30_000);
    assert_eq!(rounded_progress_ms(30_250), 30_500);
    assert_eq!(rounded_progress_ms(0), 0);
}

#[test]
fn a_new_track_while_loading_starts_playing_mode() {
    let mut ui = fresh();
    ui.state = AppState::LoadingNewMusicDir;
    ui.handle_event(Event::NewTrackPlaying(Some(ui_meta("t"))));
    assert_eq!(
        ui.state,
        AppState::Playing(
            ProgressBarState::Active,
            PauseButtonState::Active,
            PauseButtonAction::Pause
        )
    );
    assert_eq!(ui.current_track_metadata.as_ref().unwrap().name, "t");
}

#[test]
fn an_empty_track_report_while_loading_keeps_waiting() {
    let mut ui = fresh();
    ui.state = AppState::LoadingNewMusicDir;
    ui.handle_event(Event::NewTrackPlaying(None));
    assert_eq!(ui.state, AppState::LoadingNewMusicDir);
    assert!(ui.current_track_metadata.is_none());
}

#[test]
fn progress_reports_move_the_active_bar_only() {
    let mut ui = fresh();
    ui.state = AppState::Playing(
        ProgressBarState::Active,
        PauseButtonState::Active,
        PauseButtonAction::Pause,
    );
    ui.handle_event(Event::ProgressUpdate(30_250));
    assert_eq!(ui.progress_ms, 30_500);

    ui.state = AppState::Playing(
        ProgressBarState::WaitingForJump,
        PauseButtonState::Active,
        PauseButtonAction::Pause,
    );
    ui.handle_event(Event::ProgressUpdate(45_000));
    assert_eq!(ui.progress_ms, 30_500);
}

#[test]
fn a_jump_answer_releases_the_waiting_bar() {
    let mut ui = fresh();
    ui.state = AppState::Playing(
        ProgressBarState::WaitingForJump,
        PauseButtonState::WaitingForEvent,
        PauseButtonAction::Play,
    );
    ui.handle_event(Event::JumpedTo(5_000));
    assert_eq!(ui.progress_ms, 5_000);
    assert_eq!(
        ui.state,
        AppState::Playing(
            ProgressBarState::Active,
            PauseButtonState::WaitingForEvent,
            PauseButtonAction::Play
        )
    );
}

#[test]
fn play_and_pause_answers_rearm_the_button() {
    let mut ui = fresh();
    ui.state = AppState::Playing(
        ProgressBarState::Active,
        PauseButtonState::WaitingForEvent,
        PauseButtonAction::Pause,
    );
    ui.handle_event(Event::NowPaused);
    assert_eq!(
        ui.state,
        AppState::Playing(
            ProgressBarState::Active,
            PauseButtonState::Active,
            PauseButtonAction::Play
        )
    );
    ui.handle_event(Event::NowPlaying);
    assert_eq!(
        ui.state,
        AppState::Playing(
            ProgressBarState::Active,
            PauseButtonState::Active,
            PauseButtonAction::Pause
        )
    );
}

#[test]
fn new_settings_refill_the_inputs() {
    let mut ui = fresh();
    ui.handle_event(Event::NewSettings(Settings {
        root_music_path: "elsewhere".to_string(),
        volume: UnitFraction::new(800),
    }));
    assert_eq!(ui.root_music_path_input, "elsewhere");
    assert_eq!(ui.volume_input.permille, 800);
}

#[test]
fn a_directory_error_empties_the_window_with_its_message() {
    let mut ui = fresh();
    ui.state = AppState::LoadingNewMusicDir;
    ui.handle_event(Event::DirError(MusicDirCreationError::NotDir));
    assert_eq!(
        ui.state,
        AppState::Empty(EmptyDisplayMessage::Error(MusicDirCreationError::NotDir))
    );
}

#[test]
fn releasing_the_slider_parks_the_bar_until_the_answer() {
    let mut ui = fresh();
    ui.root_submitted();
    ui.handle_event(Event::NewTrackPlaying(Some(ui_meta("t"))));
    ui.handle_event(Event::ProgressUpdate(1_000));
    assert_eq!(ui.progress_ms, 1_000);
    ui.seek_sent();
    ui.handle_event(Event::ProgressUpdate(9_000));
    assert_eq!(ui.progress_ms, 1_000);
    ui.handle_event(Event::JumpedTo(5_000));
    assert_eq!(ui.progress_ms, 5_000);
    ui.handle_event(Event::ProgressUpdate(6_000));
    assert_eq!(ui.progress_ms, 6_000);
}

#[test]
fn seek_outside_playing_does_nothing() {
    let mut ui = fresh();
    ui.seek_sent();
    assert_eq!(ui.state, AppState::Empty(EmptyDisplayMessage::SelectFolder));
}

#[test]
fn pause_clicks_toggle_and_disarm_until_answered() {
    let mut ui = fresh();
    ui.root_submitted();
    ui.handle_event(Event::NewTrackPlaying(Some(ui_meta("t"))));
    let r = ui.pause_clicked();
    assert!(matches!(r, Some(Request::Pause)));
    assert_eq!(
        ui.state,
        AppState::Playing(
            ProgressBarState::Active,
            PauseButtonState::WaitingForEvent,
            PauseButtonAction::Pause
        )
    );
    ui.handle_event(Event::NowPaused);
    let r = ui.pause_clicked();
    assert!(matches!(r, Some(Request::Play)));
}

#[test]
fn pause_click_outside_playing_sends_nothing() {
    let mut ui = fresh();
    assert!(ui.pause_clicked().is_none());
    assert_eq!(ui.state, AppState::Empty(EmptyDisplayMessage::SelectFolder));
}

#[test]
fn submitting_a_root_waits_and_disables_resubmission() {
    let mut ui = fresh();
    let r = ui.root_submitted();
    match r {
        Some(Request::ChangeRoot(p)) => assert_eq!(p, "music"),
        _ => panic!("the typed path must go out"),
    }
    assert_eq!(ui.state, AppState::LoadingNewMusicDir);
    assert!(ui.root_submitted().is_none());
}

#[test]
fn the_shown_duration_comes_from_the_playing_track() {
    let mut ui = fresh();
    assert!(ui.get_current_track_duration().is_none());
    ui.handle_event(Event::NewTrackPlaying(Some(ui_meta("t"))));
    assert_eq!(ui.get_current_track_duration(), Some(10_000));
}
