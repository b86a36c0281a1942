use rustify::dir_error::MusicDirCreationError;
use rustify::fraction::UnitFraction;
use rustify::messages::{Event, Request};
use rustify::music_dir::DirListing;
use rustify::orchestrator::{Action, Orchestrator, TRACK_QUEUE_FILL_UNTIL};
use rustify::player::{PlayerEvent, PlayerRequest};
use rustify::settings::Settings;
use rustify::track_metadata::TrackMetaData;

fn settings() -> Settings {
    Settings { root_music_path: "music".to_string(), volume: UnitFraction::new(500) }
}

fn orch_meta(name: &str) -> TrackMetaData {
    TrackMetaData {
        name: name.to_string(),
        artist: "No artist".to_string(),
        album: "No album".to_string(),
        duration_ms: None,
        image: None,
    }
}

fn two_track_listing() -> DirListing {
    DirListing {
        name: "root".to_string(),
        file_names: vec!["a.mp3".to_string(), "b.mp3".to_string()],
        sub_dirs: Vec::new(),
    }
}

#[test]
fn startup_announces_settings_and_sets_volume() {
    let orch = Orchestrator::new(settings());
    let actions = orch.startup();
    assert_eq!(actions.len(), 2);
    match &actions[0] {
        Action::Emit(Event::NewSettings(s)) => {
            assert_eq!(s.root_music_path, "music");
            assert_eq!(s.volume.permille, 500);
        }
        _ => panic!("the settings must be announced first"),
    }
    assert!(matches!(
        actions[1],
        Action::SendPlayer(PlayerRequest::SetVolume(UnitFraction { permille: 500 }))
    ));
}

#[test]
fn change_root_clears_and_walks() {
    let mut orch = Orchestrator::new(settings());
    let actions = orch.handle_request(Request::ChangeRoot("elsewhere".to_string()));
    assert_eq!(actions.len(), 2);
    assert!(matches!(actions[0], Action::SendPlayer(PlayerRequest::Clear)));
    match &actions[1] {
        Action::WalkRoot(p) => assert_eq!(p, "elsewhere"),
        _ => panic!("the new root must be walked"),
    }
    assert_eq!(orch.queued_tracks, 0);
}

#[test]
fn transport_requests_forward_to_the_player() {
    let mut orch = Orchestrator::new(settings());
    let actions = orch.handle_request(Request::Play);
    assert_eq!(actions.len(), 1);
    assert!(matches!(actions[0], Action::SendPlayer(PlayerRequest::Play)));
    let actions = orch.handle_request(Request::Pause);
    assert!(matches!(actions[0], Action::SendPlayer(PlayerRequest::Pause)));
    let actions = orch.handle_request(Request::Skip);
    assert!(matches!(actions[0], Action::SendPlayer(PlayerRequest::Skip)));
}

#[test]
fn volume_change_is_persisted() {
    let mut orch = Orchestrator::new(settings());
    let actions = orch.handle_request(Request::SetVolume(UnitFraction::new(800)));
    assert_eq!(actions.len(), 2);
    assert!(matches!(
        actions[0],
        Action::SendPlayer(PlayerRequest::SetVolume(UnitFraction { permille: 800 }))
    ));
    match &actions[1] {
        Action::WriteSettings(s) => {
            assert_eq!(s.volume.permille, 800);
            assert_eq!(s.root_music_path, "music");
        }
        _ => panic!("the changed volume must be written back"),
    }
}

#[test]
fn successful_root_listing_fills_the_look_ahead() {
    let mut orch = Orchestrator::new(settings());
    orch.handle_request(Request::ChangeRoot("newroot".to_string()));
    let actions = orch.handle_root_listing("newroot".to_string(), Ok(two_track_listing()));
    let target = TRACK_QUEUE_FILL_UNTIL as usize;
    assert_eq!(actions.len(), target + 2);
    for k in 0..target {
        match &actions[k] {
            Action::LoadTrack(path) => {
                assert_eq!(path[0], "root");
                assert!(path[1] == "a.mp3" || path[1] == "b.mp3");
            }
            _ => panic!("the first actions must be load requests"),
        }
    }
    match &actions[target] {
        Action::WriteSettings(s) => assert_eq!(s.root_music_path, "newroot"),
        _ => panic!("the new root must be persisted"),
    }
    assert!(matches!(actions[target + 1], Action::SendPlayer(PlayerRequest::Play)));
    assert_eq!(orch.loading_tracks, TRACK_QUEUE_FILL_UNTIL);
    assert_eq!(orch.queued_tracks, 0);
}

#[test]
fn failed_walk_reports_the_error_and_stays_idle() {
    let mut orch = Orchestrator::new(settings());
    let actions =
        orch.handle_root_listing("bad".to_string(), Err(MusicDirCreationError::NotFound));
    assert_eq!(actions.len(), 2);
    assert!(matches!(actions[0], Action::SendPlayer(PlayerRequest::Clear)));
    assert!(matches!(
        actions[1],
        Action::Emit(Event::DirError(MusicDirCreationError::NotFound))
    ));
    assert_eq!(orch.loading_tracks, 0);
    assert_eq!(orch.settings.root_music_path, "music");
}

#[test]
fn empty_listing_reports_the_empty_error() {
    let mut orch = Orchestrator::new(settings());
    let empty = DirListing {
        name: "root".to_string(),
        file_names: Vec::new(),
        sub_dirs: Vec::new(),
    };
    let actions = orch.handle_root_listing("root".to_string(), Ok(empty));
    assert!(matches!(
        actions[1],
        Action::Emit(Event::DirError(MusicDirCreationError::Empty))
    ));
    assert_eq!(orch.loading_tracks, 0);
}

#[test]
fn look_ahead_never_exceeds_the_target_depth() {
    let mut orch = Orchestrator::new(settings());
    orch.handle_root_listing("music".to_string(), Ok(two_track_listing()));
    assert_eq!(orch.queued_tracks + orch.loading_tracks, TRACK_QUEUE_FILL_UNTIL);

    // Every load that arrives becomes one queued track.
    for i in 0..TRACK_QUEUE_FILL_UNTIL {
        orch.handle_load_response(orch_meta(&format!("t{i}")));
        assert!(orch.queued_tracks + orch.loading_tracks <= TRACK_QUEUE_FILL_UNTIL);
    }
    assert_eq!(orch.queued_tracks, TRACK_QUEUE_FILL_UNTIL);
    assert_eq!(orch.loading_tracks, 0);

    // A full look-ahead is not refilled further.
    let actions = orch.handle_player_event(PlayerEvent::NewTrackPlaying(Some(orch_meta("t0"))));
    assert_eq!(actions.len(), 1);
    assert!(matches!(actions[0], Action::Emit(Event::NewTrackPlaying(Some(_)))));
    assert_eq!(orch.queued_tracks + orch.loading_tracks, TRACK_QUEUE_FILL_UNTIL);
}

#[test]
fn a_finished_track_frees_one_slot_and_the_next_report_refills_it() {
    let mut orch = Orchestrator::new(settings());
    orch.handle_root_listing("music".to_string(), Ok(two_track_listing()));
    for i in 0..TRACK_QUEUE_FILL_UNTIL {
        orch.handle_load_response(orch_meta(&format!("t{i}")));
    }
    let actions = orch.handle_player_event(PlayerEvent::TrackFinished);
    assert!(actions.is_empty());
    assert_eq!(orch.queued_tracks, TRACK_QUEUE_FILL_UNTIL - 1);

    let actions = orch.handle_player_event(PlayerEvent::NewTrackPlaying(Some(orch_meta("t1"))));
    assert_eq!(actions.len(), 2);
    assert!(matches!(actions[0], Action::Emit(Event::NewTrackPlaying(Some(_)))));
    assert!(matches!(actions[1], Action::LoadTrack(_)));
    assert_eq!(orch.queued_tracks + orch.loading_tracks, TRACK_QUEUE_FILL_UNTIL);
}

#[test]
fn a_failed_load_frees_its_slot() {
    let mut orch = Orchestrator::new(settings());
    orch.handle_root_listing("music".to_string(), Ok(two_track_listing()));
    let before = orch.loading_tracks;
    let actions = orch.handle_load_failed();
    assert!(actions.is_empty());
    assert_eq!(orch.loading_tracks, before - 1);
}

#[test]
fn spurious_finish_reports_are_tolerated() {
    let mut orch = Orchestrator::new(settings());
    let actions = orch.handle_player_event(PlayerEvent::TrackFinished);
    assert!(actions.is_empty());
    assert_eq!(orch.queued_tracks, 0);
}

#[test]
fn player_reports_pass_through_with_a_repaint_once_handled() {
    let mut orch = Orchestrator::new(settings());
    let actions = orch.handle_player_event(PlayerEvent::ProgressUpdate(1234));
    assert_eq!(actions.len(), 1);
    assert!(matches!(actions[0], Action::Emit(Event::ProgressUpdate(1234))));

    orch.handle_request(Request::ProvideRepaintHandle);
    let actions = orch.handle_player_event(PlayerEvent::ProgressUpdate(1234));
    assert_eq!(actions.len(), 2);
    assert!(matches!(actions[1], Action::RequestRepaint));

    let actions = orch.handle_player_event(PlayerEvent::JumpedTo(500));
    assert!(matches!(actions[0], Action::Emit(Event::JumpedTo(500))));
    let actions = orch.handle_player_event(PlayerEvent::NowPlaying);
    assert!(matches!(actions[0], Action::Emit(Event::NowPlaying)));
    let actions = orch.handle_player_event(PlayerEvent::NowPaused);
    assert!(matches!(actions[0], Action::Emit(Event::NowPaused)));
}
