//! The player engine's decision core: the metadata queue that mirrors the
//! audio sink's play order, and the transport handling that turns requests
//! into sink commands and reported events. The caller owns the actual sink;
//! it executes every returned command on it, in order, and forwards every
//! returned event.

use vstd::prelude::*;

use crate::fraction::UnitFraction;
use crate::track_metadata::TrackMetaData;

verus! {

/// A transport request for the player engine. The decoded audio source that
/// accompanies an enqueue stays with the caller, which appends it to the sink
/// when told to.
#[derive(Debug)]
pub enum PlayerRequest {
    Enqueue(TrackMetaData),
    Play,
    Pause,
    JumpToFraction(UnitFraction),
    Skip,
    Clear,
    SetVolume(UnitFraction),
}

/// What the engine observes and reports. Positions are milliseconds.
#[derive(Debug)]
pub enum PlayerEvent {
    ProgressUpdate(u64),
    NowPlaying,
    NowPaused,
    JumpedTo(u64),
    NewTrackPlaying(Option<TrackMetaData>),
    TrackFinished,
}

/// What the engine asks the audio sink to do. `AppendSource` appends the
/// pending decoded source followed by its completion marker; `SeekTo` is in
/// milliseconds; `SetVolumeGain` is the output gain in millionths.
#[derive(Debug)]
pub enum SinkCommand {
    AppendSource,
    Play,
    Pause,
    SeekTo(u64),
    SkipOne,
    Clear,
    SetVolumeGain(u32),
}

/// Why a seek request cannot be resolved to an absolute position.
#[derive(Debug, Clone, Copy, PartialEq, Eq, Structural)]
pub enum SeekError {
    /// Nothing is queued to seek in.
    EmptyQueue,
    /// The front track's container reported no duration.
    UnknownDuration,
}

/// The event reports that this track (pixel for pixel the same metadata) now
/// plays.
pub open spec fn reports_now_playing(e: PlayerEvent, m: TrackMetaData) -> bool {
    e matches PlayerEvent::NewTrackPlaying(Some(em)) && em.eq_meta(m)
}

/// The engine's own state: the metadata queue in sink order (front first),
/// whether the sink was last told to pause, and the last volume set.
pub struct PlayerEngine {
    pub queue: Vec<TrackMetaData>,
    pub paused: bool,
    pub volume: UnitFraction,
}

impl PlayerEngine {
    /// A fresh engine: nothing queued, not paused, full volume.
    pub fn new() -> (r: PlayerEngine)
        ensures
            r.queue@.len() == 0,
            !r.paused,
            r.volume.permille == 1000,
    {
        PlayerEngine { queue: Vec::new(), paused: false, volume: UnitFraction { permille: 1000 } }
    }

    /// Appends a track behind the queue; the caller appends the decoded
    /// source and its completion marker to the sink. When the queue was
    /// empty the new entry starts playing at once, so exactly that is
    /// reported.
    pub fn enqueue(&mut self, metadata: TrackMetaData) -> (r: (
        Vec<SinkCommand>,
        Vec<PlayerEvent>,
    ))
        ensures
            final(self).queue@ == old(self).queue@.push(metadata),
            final(self).paused == old(self).paused,
            final(self).volume == old(self).volume,
            r.0@ == seq![SinkCommand::AppendSource],
            old(self).queue@.len() == 0 ==> r.1@.len() == 1 && reports_now_playing(
                r.1@[0],
                metadata,
            ),
            old(self).queue@.len() > 0 ==> r.1@.len() == 0,
    {
        let mut events: Vec<PlayerEvent> = Vec::new();
        if self.queue.len() == 0 {
            events.push(PlayerEvent::NewTrackPlaying(Some(metadata.duplicate())));
        }
        self.queue.push(metadata);
        let mut commands: Vec<SinkCommand> = Vec::new();
        commands.push(SinkCommand::AppendSource);
        proof {
            assert(commands@ =~= seq![SinkCommand::AppendSource]);
        }
        (commands, events)
    }

    /// Resumes the sink; reports that playback runs, also when it already
    /// did.
    pub fn play(&mut self) -> (r: (Vec<SinkCommand>, Vec<PlayerEvent>))
        ensures
            final(self).queue@ == old(self).queue@,
            !final(self).paused,
            final(self).volume == old(self).volume,
            r.0@ == seq![SinkCommand::Play],
            r.1@ == seq![PlayerEvent::NowPlaying],
    {
        self.paused = false;
        let mut commands: Vec<SinkCommand> = Vec::new();
        commands.push(SinkCommand::Play);
        let mut events: Vec<PlayerEvent> = Vec::new();
        events.push(PlayerEvent::NowPlaying);
        proof {
            assert(commands@ =~= seq![SinkCommand::Play]);
            assert(events@ =~= seq![PlayerEvent::NowPlaying]);
        }
        (commands, events)
    }

    /// Suspends the sink; reports the pause, also when already paused.
    pub fn pause(&mut self) -> (r: (Vec<SinkCommand>, Vec<PlayerEvent>))
        ensures
            final(self).queue@ == old(self).queue@,
            final(self).paused,
            final(self).volume == old(self).volume,
            r.0@ == seq![SinkCommand::Pause],
            r.1@ == seq![PlayerEvent::NowPaused],
    {
        self.paused = true;
        let mut commands: Vec<SinkCommand> = Vec::new();
        commands.push(SinkCommand::Pause);
        let mut events: Vec<PlayerEvent> = Vec::new();
        events.push(PlayerEvent::NowPaused);
        proof {
            assert(commands@ =~= seq![SinkCommand::Pause]);
            assert(events@ =~= seq![PlayerEvent::NowPaused]);
        }
        (commands, events)
    }

    /// Whether the sink was last told to pause.
    pub fn get_paused(&self) -> (b: bool)
        ensures
            b == self.paused,
    {
        self.paused
    }

    /// The metadata of the front-of-queue track, the one the sink plays
    /// first.
    pub fn get_front_metadata(&self) -> (r: Option<TrackMetaData>)
        ensures
            match r {
                Some(m) => self.queue@.len() > 0 && m.eq_meta(self.queue@[0]),
                None => self.queue@.len() == 0,
            },
    {
        if self.queue.len() > 0 {
            let front = &self.queue[0];
            Some(front.duplicate())
        } else {
            None
        }
    }

    /// Resolves a seek slider position against the front track's duration
    /// and seeks there: the target is the given fraction of the duration,
    /// rounded down to the millisecond. Fails exactly when nothing is queued
    /// or the front track's duration is unknown.
    pub fn jump_to_fraction(&mut self, f: UnitFraction) -> (r: Result<
        (Vec<SinkCommand>, Vec<PlayerEvent>),
        SeekError,
    >)
        requires
            f.wf(),
        ensures
            final(self).queue@ == old(self).queue@,
            final(self).paused == old(self).paused,
            final(self).volume == old(self).volume,
            match r {
                Ok(ce) => {
                    &&& old(self).queue@.len() > 0
                    &&& old(self).queue@[0].duration_ms is Some
                    &&& ce.0@ == seq![
                        SinkCommand::SeekTo(
                            (old(self).queue@[0].duration_ms->0 * f.permille / 1000) as u64,
                        ),
                    ]
                    &&& ce.1@ == seq![
                        PlayerEvent::JumpedTo(
                            (old(self).queue@[0].duration_ms->0 * f.permille / 1000) as u64,
                        ),
                    ]
                },
                Err(e) => match e {
                    SeekError::EmptyQueue => old(self).queue@.len() == 0,
                    SeekError::UnknownDuration => old(self).queue@.len() > 0 && old(
                        self,
                    ).queue@[0].duration_ms is None,
                },
            },
    {
        if self.queue.len() == 0 {
            return Err(SeekError::EmptyQueue);
        }
        let front = &self.queue[0];
        match front.duration_ms {
            None => Err(SeekError::UnknownDuration),
            Some(dur) => {
                let target = f.scale_ms(dur);
                let mut commands: Vec<SinkCommand> = Vec::new();
                commands.push(SinkCommand::SeekTo(target));
                let mut events: Vec<PlayerEvent> = Vec::new();
                events.push(PlayerEvent::JumpedTo(target));
                proof {
                    assert(commands@ =~= seq![SinkCommand::SeekTo(target)]);
                    assert(events@ =~= seq![PlayerEvent::JumpedTo(target)]);
                }
                Ok((commands, events))
            },
        }
    }

    /// Drops the playing entry; the completion marker the sink then reaches
    /// raises the track-finished signal, so nothing is reported yet.
    pub fn skip(&mut self) -> (r: (Vec<SinkCommand>, Vec<PlayerEvent>))
        ensures
            final(self).queue@ == old(self).queue@,
            final(self).paused == old(self).paused,
            final(self).volume == old(self).volume,
            r.0@ == seq![SinkCommand::SkipOne],
            r.1@ == Seq::<PlayerEvent>::empty(),
    {
        let mut commands: Vec<SinkCommand> = Vec::new();
        commands.push(SinkCommand::SkipOne);
        proof {
            assert(commands@ =~= seq![SinkCommand::SkipOne]);
        }
        (commands, Vec::new())
    }

    /// Empties the sink and the queue together and reports, exactly once,
    /// that nothing is playing — whatever was queued before.
    pub fn clear(&mut self) -> (r: (Vec<SinkCommand>, Vec<PlayerEvent>))
        ensures
            final(self).queue@.len() == 0,
            final(self).paused == old(self).paused,
            final(self).volume == old(self).volume,
            r.0@ == seq![SinkCommand::Clear],
            r.1@ == seq![PlayerEvent::NewTrackPlaying(None)],
    {
        self.queue = Vec::new();
        let mut commands: Vec<SinkCommand> = Vec::new();
        commands.push(SinkCommand::Clear);
        let mut events: Vec<PlayerEvent> = Vec::new();
        events.push(PlayerEvent::NewTrackPlaying(None));
        proof {
            assert(commands@ =~= seq![SinkCommand::Clear]);
            assert(events@ =~= seq![PlayerEvent::NewTrackPlaying(None)]);
        }
        (commands, events)
    }

    /// Remembers the slider position and sets the sink's gain to its square,
    /// so that perceived loudness follows the slider about linearly.
    pub fn set_volume(&mut self, v: UnitFraction) -> (r: (Vec<SinkCommand>, Vec<PlayerEvent>))
        requires
            v.wf(),
        ensures
            final(self).queue@ == old(self).queue@,
            final(self).paused == old(self).paused,
            final(self).volume == v,
            r.0@ == seq![SinkCommand::SetVolumeGain((v.permille * v.permille) as u32)],
            r.1@ == Seq::<PlayerEvent>::empty(),
    {
        self.volume = v;
        let gain = v.gain_millionths();
        let mut commands: Vec<SinkCommand> = Vec::new();
        commands.push(SinkCommand::SetVolumeGain(gain));
        proof {
            assert(commands@ =~= seq![SinkCommand::SetVolumeGain(gain)]);
        }
        (commands, Vec::new())
    }

    /// Handles the completion marker of the entry that just finished: the
    /// finish is reported, the entry leaves the queue, and whatever is next
    /// (or nothing) is reported as now playing.
    pub fn handle_track_finished(&mut self) -> (events: Vec<PlayerEvent>)
        ensures
            old(self).queue@.len() > 0 ==> final(self).queue@ == old(self).queue@.drop_first(),
            old(self).queue@.len() == 0 ==> final(self).queue@ == old(self).queue@,
            final(self).paused == old(self).paused,
            final(self).volume == old(self).volume,
            events@.len() == 2,
            events@[0] == PlayerEvent::TrackFinished,
            final(self).queue@.len() > 0 ==> reports_now_playing(
                events@[1],
                final(self).queue@[0],
            ),
            final(self).queue@.len() == 0 ==> events@[1] == PlayerEvent::NewTrackPlaying(None),
    {
        let mut events: Vec<PlayerEvent> = Vec::new();
        events.push(PlayerEvent::TrackFinished);
        if self.queue.len() > 0 {
            self.queue.remove(0);
            proof {
                assert(self.queue@ =~= old(self).queue@.drop_first());
            }
        }
        if self.queue.len() > 0 {
            let front = &self.queue[0];
            events.push(PlayerEvent::NewTrackPlaying(Some(front.duplicate())));
        } else {
            events.push(PlayerEvent::NewTrackPlaying(None));
        }
        events
    }
}

/// Law: a seek to one half on a track of known duration targets exactly half
/// the duration, rounded down to the millisecond — what `jump_to_fraction`
/// computes for the half fraction.
pub proof fn lemma_jump_half_targets_midpoint(dur_ms: u64)
    ensures
        dur_ms * 500 / 1000 == dur_ms / 2,
{
    crate::fraction::lemma_half_scale(dur_ms as int);
}

/// Law: enqueueing onto an empty queue makes exactly the new entry the
/// front, so reading the front metadata right after returns what was just
/// enqueued.
pub proof fn lemma_enqueue_then_front(pre: PlayerEngine, post: PlayerEngine, m: TrackMetaData)
    requires
        pre.queue@.len() == 0,
        post.queue@ == pre.queue@.push(m),
    ensures
        post.queue@.len() == 1,
        post.queue@[0] == m,
{
}

/// Law: when more than one track is queued, finishing the front entry makes
/// the entry behind it — a different queue entry — the one reported as now
/// playing; the reported metadata differs from the finished entry's whenever
/// the two entries' metadata differ.
pub proof fn lemma_finished_reports_next_entry(
    pre: PlayerEngine,
    post: PlayerEngine,
    events: Seq<PlayerEvent>,
)
    requires
        pre.queue@.len() > 1,
        post.queue@ == pre.queue@.drop_first(),
        events.len() == 2,
        post.queue@.len() > 0 ==> reports_now_playing(events[1], post.queue@[0]),
    ensures
        reports_now_playing(events[1], pre.queue@[1]),
        !pre.queue@[0].eq_meta(pre.queue@[1]) ==> !reports_now_playing(events[1], pre.queue@[0]),
{
    assert(post.queue@[0] == pre.queue@[1]);
}

} // verus!
