use rustify::fraction::UnitFraction;
use rustify::player::{PlayerEngine, PlayerEvent, SeekError, SinkCommand};
use rustify::track_metadata::TrackMetaData;

fn meta(name: &str, duration_ms: Option<u64>) -> TrackMetaData {
    TrackMetaData {
        name: name.to_string(),
        artist: "No artist".to_string(),
        album: "No album".to_string(),
        duration_ms,
        image: None,
    }
}

#[test]
fn enqueue_on_empty_reports_the_new_track_and_front_returns_it() {
    let mut p = PlayerEngine::new();
    let (commands, events) = p.enqueue(meta("first", None));
    assert_eq!(commands.len(), 1);
    assert!(matches!(commands[0], SinkCommand::AppendSource));
    assert_eq!(events.len(), 1);
    match &events[0] {
        PlayerEvent::NewTrackPlaying(Some(m)) => assert_eq!(m.name, "first"),
        _ => panic!("the just-enqueued track must be reported as playing"),
    }
    let front = p.get_front_metadata().unwrap();
    assert_eq!(front.name, "first");
}

#[test]
fn enqueue_on_busy_queue_reports_nothing() {
    let mut p = PlayerEngine::new();
    p.enqueue(meta("first", None));
    let (_, events) = p.enqueue(meta("second", None));
    assert!(events.is_empty());
    assert_eq!(p.get_front_metadata().unwrap().name, "first");
}

#[test]
fn clear_reports_exactly_one_empty_track_no_queued_zero() {
    let mut p = PlayerEngine::new();
    let (commands, events) = p.clear();
    assert!(matches!(commands[0], SinkCommand::Clear));
    assert_eq!(events.len(), 1);
    assert!(matches!(events[0], PlayerEvent::NewTrackPlaying(None)));
    assert_eq!(p.queue.len(), 0);
}

#[test]
fn clear_reports_exactly_one_empty_track_with_queued_tracks() {
    for n in [1usize, 5] {
        let mut p = PlayerEngine::new();
        for i in 0..n {
            p.enqueue(meta(&format!("t{i}"), None));
        }
        let (_, events) = p.clear();
        assert_eq!(events.len(), 1);
        assert!(matches!(events[0], PlayerEvent::NewTrackPlaying(None)));
        assert_eq!(p.queue.len(), 0);
        assert!(p.get_front_metadata().is_none());
    }
}

#[test]
fn finished_track_moves_to_the_next_entry() {
    let mut p = PlayerEngine::new();
    p.enqueue(meta("first", None));
    p.enqueue(meta("second", None));
    let events = p.handle_track_finished();
    assert_eq!(events.len(), 2);
    assert!(matches!(events[0], PlayerEvent::TrackFinished));
    match &events[1] {
        PlayerEvent::NewTrackPlaying(Some(m)) => {
            assert_eq!(m.name, "second");
            assert_ne!(m.name, "first");
        }
        _ => panic!("the entry behind the finished one must be reported"),
    }
    assert_eq!(p.queue.len(), 1);
}

#[test]
fn finishing_the_last_track_reports_nothing_playing() {
    let mut p = PlayerEngine::new();
    p.enqueue(meta("only", None));
    let events = p.handle_track_finished();
    assert!(matches!(events[0], PlayerEvent::TrackFinished));
    assert!(matches!(events[1], PlayerEvent::NewTrackPlaying(None)));
    assert_eq!(p.queue.len(), 0);
}

#[test]
fn spurious_finish_on_empty_queue_stays_empty() {
    let mut p = PlayerEngine::new();
    let events = p.handle_track_finished();
    assert_eq!(events.len(), 2);
    assert!(matches!(events[1], PlayerEvent::NewTrackPlaying(None)));
}

#[test]
fn jump_to_half_targets_half_the_duration() {
    let mut p = PlayerEngine::new();
    p.enqueue(meta("timed", Some(60_000)));
    let (commands, events) = p.jump_to_fraction(UnitFraction::half()).unwrap();
    assert!(matches!(commands[0], SinkCommand::SeekTo(30_000)));
    assert!(matches!(events[0], PlayerEvent::JumpedTo(30_000)));
}

#[test]
fn jump_rounds_down_to_the_millisecond() {
    let mut p = PlayerEngine::new();
    p.enqueue(meta("timed", Some(1001)));
    let (commands, _) = p.jump_to_fraction(UnitFraction::half()).unwrap();
    assert!(matches!(commands[0], SinkCommand::SeekTo(500)));
}

#[test]
fn jump_fails_on_empty_queue() {
    let mut p = PlayerEngine::new();
    assert_eq!(p.jump_to_fraction(UnitFraction::half()).unwrap_err(), SeekError::EmptyQueue);
}

#[test]
fn jump_fails_without_a_known_duration() {
    let mut p = PlayerEngine::new();
    p.enqueue(meta("untimed", None));
    assert_eq!(
        p.jump_to_fraction(UnitFraction::half()).unwrap_err(),
        SeekError::UnknownDuration
    );
}

#[test]
fn play_and_pause_report_unconditionally() {
    let mut p = PlayerEngine::new();
    let (_, events) = p.play();
    assert!(matches!(events[0], PlayerEvent::NowPlaying));
    assert!(!p.get_paused());
    let (_, events) = p.pause();
    assert!(matches!(events[0], PlayerEvent::NowPaused));
    assert!(p.get_paused());
    // Pausing again still reports.
    let (_, events) = p.pause();
    assert_eq!(events.len(), 1);
    assert!(matches!(events[0], PlayerEvent::NowPaused));
}

#[test]
fn volume_uses_the_squared_curve() {
    let mut p = PlayerEngine::new();
    let (commands, events) = p.set_volume(UnitFraction::new(500));
    assert!(matches!(commands[0], SinkCommand::SetVolumeGain(250_000)));
    assert!(events.is_empty());
}

#[test]
fn skip_only_drops_the_sink_entry() {
    let mut p = PlayerEngine::new();
    p.enqueue(meta("first", None));
    let (commands, events) = p.skip();
    assert!(matches!(commands[0], SinkCommand::SkipOne));
    assert!(events.is_empty());
    // The metadata queue moves when the completion marker fires, not before.
    assert_eq!(p.queue.len(), 1);
}
