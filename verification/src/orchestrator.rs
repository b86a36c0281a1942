//! The orchestrator: the single owner of the directory tree and the queue
//! accounting. It decides; its caller performs. Every handler turns one
//! incoming message into the next state and a list of actions, and the event
//! loop around it executes the actions in order: sending player requests,
//! issuing load requests, walking a directory tree, writing settings,
//! emitting events, requesting a repaint.

use vstd::prelude::*;

use crate::dir_error::MusicDirCreationError;
use crate::messages::{Event, Request};
use crate::music_dir::{
    builds_to, fair_selection, fair_selection_chain, fair_selection_steps, listing_track_count,
    local_tracks_of, DirListing, MusicDir,
};
use crate::player::{PlayerEvent, PlayerRequest};
use crate::settings::Settings;
use crate::track_metadata::TrackMetaData;

verus! {

/// The look-ahead depth: how many tracks are kept queued or loading ahead.
pub const TRACK_QUEUE_FILL_UNTIL: u8 = 3;

/// What the orchestrator asks its surroundings to do, in order.
#[derive(Debug)]
pub enum Action {
    /// Send this request to the player engine.
    SendPlayer(PlayerRequest),
    /// Ask the loader for this track; the path components run from the root
    /// directory's name down to the track's file name.
    LoadTrack(Vec<String>),
    /// Read the directory tree under this path and hand the listing back.
    WalkRoot(String),
    /// Persist these settings.
    WriteSettings(Settings),
    /// Report this to the presentation layer.
    Emit(Event),
    /// Ask the presentation layer to repaint.
    RequestRepaint,
}

/// The action holds a load request for exactly this track path.
pub open spec fn is_load_of(a: Action, path: Seq<String>) -> bool {
    a matches Action::LoadTrack(p) && p@ == path
}

/// The actions from `start` on are load requests whose paths lead the tree
/// from `pre` to `post` by one fair selection each: what a refill leaves
/// behind.
pub open spec fn loads_fair_chain(
    pre: MusicDir,
    post: MusicDir,
    actions: Seq<Action>,
    start: int,
    paths: Seq<Seq<String>>,
) -> bool {
    &&& 0 <= start <= actions.len()
    &&& paths.len() == actions.len() - start
    &&& forall|k: int| 0 <= k < paths.len() ==> is_load_of(#[trigger] actions[start + k], paths[k])
    &&& crate::music_dir::fair_selection_chain(pre, post, paths)
}

/// The given actions, followed by a repaint request when a repaint handle
/// was provided.
pub open spec fn with_repaint(base: Seq<Action>, has_handle: bool) -> Seq<Action> {
    if has_handle {
        base.push(Action::RequestRepaint)
    } else {
        base
    }
}

/// Law: wherever the queue invariant holds — every handler both assumes and
/// re-establishes it — the tracks queued plus the loads in flight never
/// exceed the target look-ahead depth.
pub proof fn lemma_look_ahead_bounded(o: Orchestrator)
    requires
        o.queue_inv(),
    ensures
        o.queued_tracks + o.loading_tracks <= TRACK_QUEUE_FILL_UNTIL,
{
}

/// The orchestrator's state: the current tree, the queue accounting, and the
/// settings as last written.
pub struct Orchestrator {
    pub settings: Settings,
    pub root_music_dir: Option<MusicDir>,
    pub queued_tracks: u8,
    pub loading_tracks: u8,
    pub has_repaint_handle: bool,
}

impl Orchestrator {
    /// Tracks queued in the player plus loads in flight.
    pub open spec fn depth_used(self) -> int {
        self.queued_tracks + self.loading_tracks
    }

    /// The queue invariant: the look-ahead never exceeds the target depth,
    /// the tree (when present) is well-formed, and the settings are valid.
    pub open spec fn queue_inv(self) -> bool {
        &&& self.depth_used() <= TRACK_QUEUE_FILL_UNTIL
        &&& match self.root_music_dir {
            Some(d) => d.wf(),
            None => true,
        }
        &&& self.settings.wf()
    }

    /// A fresh orchestrator: no tree, nothing queued or loading.
    pub fn new(settings: Settings) -> (r: Orchestrator)
        requires
            settings.wf(),
        ensures
            r.queue_inv(),
            r.settings == settings,
            r.root_music_dir is None,
            r.queued_tracks == 0,
            r.loading_tracks == 0,
            !r.has_repaint_handle,
    {
        Orchestrator {
            settings,
            root_music_dir: None,
            queued_tracks: 0,
            loading_tracks: 0,
            has_repaint_handle: false,
        }
    }

    /// What happens right after start: the settings just read are announced
    /// and the player gets the persisted volume.
    pub fn startup(&self) -> (actions: Vec<Action>)
        requires
            self.queue_inv(),
        ensures
            actions@ == seq![
                Action::Emit(Event::NewSettings(self.settings)),
                Action::SendPlayer(PlayerRequest::SetVolume(self.settings.volume)),
            ],
    {
        let mut actions: Vec<Action> = Vec::new();
        actions.push(Action::Emit(Event::NewSettings(self.settings.duplicate())));
        actions.push(Action::SendPlayer(PlayerRequest::SetVolume(self.settings.volume)));
        proof {
            assert(actions@ =~= seq![
                Action::Emit(Event::NewSettings(self.settings)),
                Action::SendPlayer(PlayerRequest::SetVolume(self.settings.volume)),
            ]);
        }
        actions
    }

    /// Routes one external command. Changing the root clears the player,
    /// resets the queued count and asks for a walk of the new path; the walk
    /// result comes back through `handle_root_listing`. Transport commands
    /// are forwarded to the player; a volume change is also persisted.
    pub fn handle_request(&mut self, req: Request) -> (actions: Vec<Action>)
        requires
            old(self).queue_inv(),
            req matches Request::JumpToFraction(f) ==> f.wf(),
            req matches Request::SetVolume(v) ==> v.wf(),
        ensures
            final(self).queue_inv(),
            final(self).root_music_dir == old(self).root_music_dir,
            final(self).loading_tracks == old(self).loading_tracks,
            final(self).has_repaint_handle == old(self).has_repaint_handle || (
            req matches Request::ProvideRepaintHandle),
            match req {
                Request::ChangeRoot(path) => {
                    &&& final(self).queued_tracks == 0
                    &&& final(self).settings == old(self).settings
                    &&& actions@ == seq![
                        Action::SendPlayer(PlayerRequest::Clear),
                        Action::WalkRoot(path),
                    ]
                },
                Request::Play => {
                    &&& *final(self) == *old(self)
                    &&& actions@ == seq![Action::SendPlayer(PlayerRequest::Play)]
                },
                Request::Pause => {
                    &&& *final(self) == *old(self)
                    &&& actions@ == seq![Action::SendPlayer(PlayerRequest::Pause)]
                },
                Request::JumpToFraction(f) => {
                    &&& final(self).queued_tracks == old(self).queued_tracks
                    &&& final(self).settings == old(self).settings
                    &&& actions@ == seq![Action::SendPlayer(PlayerRequest::JumpToFraction(f))]
                },
                Request::Skip => {
                    &&& *final(self) == *old(self)
                    &&& actions@ == seq![Action::SendPlayer(PlayerRequest::Skip)]
                },
                Request::SetVolume(v) => {
                    &&& final(self).queued_tracks == old(self).queued_tracks
                    &&& final(self).settings.volume == v
                    &&& final(self).settings.root_music_path == old(
                        self,
                    ).settings.root_music_path
                    &&& actions@ == seq![
                        Action::SendPlayer(PlayerRequest::SetVolume(v)),
                        Action::WriteSettings(final(self).settings),
                    ]
                },
                Request::ProvideRepaintHandle => {
                    &&& final(self).queued_tracks == old(self).queued_tracks
                    &&& final(self).settings == old(self).settings
                    &&& final(self).has_repaint_handle
                    &&& actions@ == Seq::<Action>::empty()
                },
            },
    {
        let mut actions: Vec<Action> = Vec::new();
        match req {
            Request::ChangeRoot(path) => {
                actions.push(Action::SendPlayer(PlayerRequest::Clear));
                self.queued_tracks = 0;
                actions.push(Action::WalkRoot(path));
                proof {
                    assert(actions@ =~= seq![
                        Action::SendPlayer(PlayerRequest::Clear),
                        actions@[1],
                    ]);
                }
            },
            Request::Play => {
                actions.push(Action::SendPlayer(PlayerRequest::Play));
                proof {
                    assert(actions@ =~= seq![Action::SendPlayer(PlayerRequest::Play)]);
                }
            },
            Request::Pause => {
                actions.push(Action::SendPlayer(PlayerRequest::Pause));
                proof {
                    assert(actions@ =~= seq![Action::SendPlayer(PlayerRequest::Pause)]);
                }
            },
            Request::JumpToFraction(f) => {
                actions.push(Action::SendPlayer(PlayerRequest::JumpToFraction(f)));
                proof {
                    assert(actions@ =~= seq![
                        Action::SendPlayer(PlayerRequest::JumpToFraction(f)),
                    ]);
                }
            },
            Request::Skip => {
                actions.push(Action::SendPlayer(PlayerRequest::Skip));
                proof {
                    assert(actions@ =~= seq![Action::SendPlayer(PlayerRequest::Skip)]);
                }
            },
            Request::SetVolume(v) => {
                self.settings.volume = v;
                actions.push(Action::SendPlayer(PlayerRequest::SetVolume(v)));
                actions.push(Action::WriteSettings(self.settings.duplicate()));
                proof {
                    assert(actions@ =~= seq![
                        Action::SendPlayer(PlayerRequest::SetVolume(v)),
                        Action::WriteSettings(self.settings),
                    ]);
                }
            },
            Request::ProvideRepaintHandle => {
                self.has_repaint_handle = true;
            },
        }
        actions
    }

    /// Takes a loaded track in: it goes to the player's queue, so one load in
    /// flight becomes one queued track. The caller pairs the returned enqueue
    /// request with the decoded source it kept.
    pub fn handle_load_response(&mut self, metadata: TrackMetaData) -> (actions: Vec<Action>)
        requires
            old(self).queue_inv(),
            old(self).loading_tracks > 0,
        ensures
            final(self).queue_inv(),
            final(self).queued_tracks == old(self).queued_tracks + 1,
            final(self).loading_tracks == old(self).loading_tracks - 1,
            final(self).depth_used() == old(self).depth_used(),
            final(self).root_music_dir == old(self).root_music_dir,
            final(self).settings == old(self).settings,
            final(self).has_repaint_handle == old(self).has_repaint_handle,
            actions@ == seq![Action::SendPlayer(PlayerRequest::Enqueue(metadata))],
    {
        self.queued_tracks = self.queued_tracks + 1;
        self.loading_tracks = self.loading_tracks - 1;
        let mut actions: Vec<Action> = Vec::new();
        let ghost me = metadata;
        actions.push(Action::SendPlayer(PlayerRequest::Enqueue(metadata)));
        proof {
            assert(actions@ =~= seq![Action::SendPlayer(PlayerRequest::Enqueue(me))]);
        }
        actions
    }

    /// Takes a failed load in: the load is skipped, so its slot in the
    /// look-ahead frees up; playback of what is already queued goes on
    /// untouched.
    pub fn handle_load_failed(&mut self) -> (actions: Vec<Action>)
        requires
            old(self).queue_inv(),
            old(self).loading_tracks > 0,
        ensures
            final(self).queue_inv(),
            final(self).queued_tracks == old(self).queued_tracks,
            final(self).loading_tracks == old(self).loading_tracks - 1,
            final(self).root_music_dir == old(self).root_music_dir,
            final(self).settings == old(self).settings,
            final(self).has_repaint_handle == old(self).has_repaint_handle,
            actions@ == Seq::<Action>::empty(),
    {
        self.loading_tracks = self.loading_tracks - 1;
        Vec::new()
    }

    /// Issues `amount` load requests, selecting each track fairly from the
    /// tree, and counts them as in flight. In the out-of-this-world case
    /// that the play counters would overflow, no load is issued at all.
    fn load_random_tracks(&mut self, amount: u8, actions: &mut Vec<Action>)
        requires
            old(self).queue_inv(),
            old(self).root_music_dir is Some,
            old(self).depth_used() + amount <= TRACK_QUEUE_FILL_UNTIL,
        ensures
            final(self).queue_inv(),
            final(self).queued_tracks == old(self).queued_tracks,
            final(self).settings == old(self).settings,
            final(self).has_repaint_handle == old(self).has_repaint_handle,
            final(self).loading_tracks == old(self).loading_tracks + final(actions)@.len()
                - old(actions)@.len(),
            final(actions)@.len() >= old(actions)@.len(),
            forall|k: int|
                0 <= k < old(actions)@.len() ==> final(actions)@[k] == old(actions)@[k],
            forall|k: int|
                old(actions)@.len() <= k < final(actions)@.len() ==> ((
                #[trigger] final(actions)@[k]) matches Action::LoadTrack(_)),
            match (old(self).root_music_dir, final(self).root_music_dir) {
                (Some(a), Some(b)) => {
                    &&& b.wf()
                    &&& b.subtree_tracks == a.subtree_tracks
                    &&& b.name == a.name
                    &&& b.local_track_names == a.local_track_names
                    &&& b.plays() == a.plays() + final(actions)@.len() - old(actions)@.len()
                    &&& a.plays() + amount <= u64::MAX ==> final(actions)@.len() == old(
                        actions,
                    )@.len() + amount
                    &&& exists|paths: Seq<Seq<String>>|
                        #[trigger] loads_fair_chain(
                            a,
                            b,
                            final(actions)@,
                            old(actions)@.len() as int,
                            paths,
                        )
                },
                _ => false,
            },
    {
        let ghost start = actions@.len() as int;
        let ghost start_tree = old(self).root_music_dir->0;
        let headroom = match &self.root_music_dir {
            Some(d) => (d.local_plays as u128) + (d.sub_plays as u128) + (amount as u128) <= (
            u64::MAX as u128),
            None => false,
        };
        if !headroom {
            proof {
                assert(fair_selection_steps(seq![start_tree], Seq::<Seq<String>>::empty()));
                assert(fair_selection_chain(start_tree, start_tree, Seq::<Seq<String>>::empty()));
                assert(loads_fair_chain(
                    start_tree,
                    start_tree,
                    actions@,
                    start,
                    Seq::<Seq<String>>::empty(),
                ));
            }
            return ;
        }
        let ghost mut trees: Seq<MusicDir> = seq![start_tree];
        let ghost mut sel_paths: Seq<Seq<String>> = Seq::empty();
        let mut i: u8 = 0;
        while i < amount
            invariant
                i <= amount,
                actions@.len() == start + i,
                start == old(actions)@.len(),
                forall|k: int| 0 <= k < start ==> actions@[k] == old(actions)@[k],
                trees.len() == i + 1,
                sel_paths.len() == i as int,
                trees[0] == start_tree,
                start_tree == old(self).root_music_dir->0,
                forall|k: int|
                    0 <= k < i as int ==> fair_selection(
                        trees[k],
                        trees[k + 1],
                        #[trigger] sel_paths[k],
                    ),
                forall|k: int|
                    0 <= k < i as int ==> is_load_of(#[trigger] actions@[start + k], sel_paths[k]),
                self.queued_tracks == old(self).queued_tracks,
                self.loading_tracks == old(self).loading_tracks,
                self.settings == old(self).settings,
                self.has_repaint_handle == old(self).has_repaint_handle,
                match (old(self).root_music_dir, self.root_music_dir) {
                    (Some(a), Some(b)) => {
                        &&& b.wf()
                        &&& b.subtree_tracks == a.subtree_tracks
                        &&& b.name == a.name
                        &&& b.local_track_names == a.local_track_names
                        &&& b.plays() == a.plays() + i
                        &&& a.plays() + amount <= u64::MAX
                        &&& trees.last() == b
                    },
                    _ => false,
                },
            decreases amount - i,
        {
            let path = match &mut self.root_music_dir {
                Some(d) => d.next_track(),
                None => vstd::pervasive::unreached(),
            };
            proof {
                trees = trees.push(self.root_music_dir->0);
                sel_paths = sel_paths.push(path@);
            }
            actions.push(Action::LoadTrack(path));
            i = i + 1;
        }
        proof {
            assert(fair_selection_steps(trees, sel_paths));
            assert(fair_selection_chain(trees[0], trees.last(), sel_paths));
            assert(loads_fair_chain(start_tree, trees.last(), actions@, start, sel_paths));
            assert forall|k: int| start <= k < actions@.len() implies ((#[trigger] actions@[k])
                matches Action::LoadTrack(_)) by {
                let k2 = k - start;
                assert(is_load_of(actions@[start + k2], sel_paths[k2]));
            }
        }
        self.loading_tracks = self.loading_tracks + amount;
    }

    /// Takes the walked directory listing for a root change in. When the
    /// listing holds tracks, the tree is built, look-ahead loads up to the
    /// target depth are issued at once, the new root path is persisted, and
    /// the player is told to play. When the walk failed, the listing was
    /// empty, or (out of this world) its track count overflows, the tree is
    /// dropped, the player cleared, and the error reported, so the system
    /// stays idle.
    pub fn handle_root_listing(&mut self, path: String, listing: Result<
        DirListing,
        MusicDirCreationError,
    >) -> (actions: Vec<Action>)
        requires
            old(self).queue_inv(),
        ensures
            final(self).queue_inv(),
            final(self).queued_tracks == old(self).queued_tracks,
            final(self).has_repaint_handle == old(self).has_repaint_handle,
            final(self).settings.volume == old(self).settings.volume,
            match listing {
                Err(e) => {
                    &&& final(self).root_music_dir is None
                    &&& final(self).loading_tracks == old(self).loading_tracks
                    &&& final(self).settings == old(self).settings
                    &&& actions@ == seq![
                        Action::SendPlayer(PlayerRequest::Clear),
                        Action::Emit(Event::DirError(e)),
                    ]
                },
                Ok(l) => {
                    &&& listing_track_count(l) == 0 ==> {
                        &&& final(self).root_music_dir is None
                        &&& final(self).loading_tracks == old(self).loading_tracks
                        &&& final(self).settings == old(self).settings
                        &&& actions@ == seq![
                            Action::SendPlayer(PlayerRequest::Clear),
                            Action::Emit(Event::DirError(MusicDirCreationError::Empty)),
                        ]
                    }
                    &&& listing_track_count(l) > u64::MAX ==> {
                        &&& final(self).root_music_dir is None
                        &&& final(self).loading_tracks == old(self).loading_tracks
                        &&& final(self).settings == old(self).settings
                        &&& actions@ == seq![
                            Action::SendPlayer(PlayerRequest::Clear),
                            Action::Emit(Event::DirError(MusicDirCreationError::Unknown)),
                        ]
                    }
                    &&& (0 < listing_track_count(l) <= u64::MAX) ==> {
                        let loads = TRACK_QUEUE_FILL_UNTIL - old(self).depth_used();
                        &&& final(self).settings.root_music_path == path
                        &&& final(self).depth_used() == TRACK_QUEUE_FILL_UNTIL
                        &&& final(self).loading_tracks == old(self).loading_tracks + loads
                        &&& match final(self).root_music_dir {
                            Some(b) => {
                                &&& b.wf()
                                &&& b.name == l.name
                                &&& b.local_track_names@ == local_tracks_of(l.file_names@)
                                &&& b.subtree_tracks == listing_track_count(l)
                                &&& b.plays() == loads
                                &&& exists|m0: MusicDir, paths: Seq<Seq<String>>|
                                    builds_to(l, m0) && #[trigger] loads_fair_chain(
                                        m0,
                                        b,
                                        actions@.take(loads),
                                        0,
                                        paths,
                                    )
                            },
                            None => false,
                        }
                        &&& actions@.len() == loads + 2
                        &&& forall|k: int|
                            0 <= k < loads ==> ((#[trigger] actions@[k]) matches Action::LoadTrack(
                                _,
                            ))
                        &&& actions@[loads] == Action::WriteSettings(final(self).settings)
                        &&& actions@[loads + 1] == Action::SendPlayer(PlayerRequest::Play)
                    }
                },
            },
    {
        let mut actions: Vec<Action> = Vec::new();
        match listing {
            Err(e) => {
                self.root_music_dir = None;
                actions.push(Action::SendPlayer(PlayerRequest::Clear));
                actions.push(Action::Emit(Event::DirError(e)));
                proof {
                    assert(actions@ =~= seq![
                        Action::SendPlayer(PlayerRequest::Clear),
                        Action::Emit(Event::DirError(e)),
                    ]);
                }
            },
            Ok(l) => {
                match MusicDir::build(&l) {
                    Ok(md) => {
                        let ghost m0 = md;
                        proof {
                            assert(md.plays() == 0);
                        }
                        self.root_music_dir = Some(md);
                        let used = self.queued_tracks + self.loading_tracks;
                        let amount = TRACK_QUEUE_FILL_UNTIL - used;
                        self.load_random_tracks(amount, &mut actions);
                        let ghost after_loads = actions@;
                        self.settings.root_music_path = path;
                        actions.push(Action::WriteSettings(self.settings.duplicate()));
                        actions.push(Action::SendPlayer(PlayerRequest::Play));
                        proof {
                            let b = self.root_music_dir->0;
                            let paths = choose|p: Seq<Seq<String>>|
                                #[trigger] loads_fair_chain(m0, b, after_loads, 0, p);
                            assert(actions@.take(after_loads.len() as int) =~= after_loads);
                            assert(loads_fair_chain(
                                m0,
                                b,
                                actions@.take(after_loads.len() as int),
                                0,
                                paths,
                            ));
                        }
                    },
                    Err(e) => {
                        self.root_music_dir = None;
                        actions.push(Action::SendPlayer(PlayerRequest::Clear));
                        actions.push(Action::Emit(Event::DirError(e)));
                        proof {
                            assert(actions@ =~= seq![
                                Action::SendPlayer(PlayerRequest::Clear),
                                Action::Emit(Event::DirError(e)),
                            ]);
                        }
                    },
                }
            },
        }
        actions
    }

    /// Takes one player report in. Progress, jump, play and pause reports
    /// are passed to the presentation layer; a finished track frees its
    /// queue slot (and is ignored when nothing was counted queued); a new
    /// track starting is reported and the look-ahead is refilled with
    /// fairly selected tracks up to the target depth — so whenever the
    /// look-ahead is below target and a tree is present, the missing load
    /// requests are issued here and now. After every report the presentation
    /// layer is asked to repaint, once a repaint handle was provided.
    pub fn handle_player_event(&mut self, event: PlayerEvent) -> (actions: Vec<Action>)
        requires
            old(self).queue_inv(),
        ensures
            final(self).queue_inv(),
            final(self).settings == old(self).settings,
            final(self).has_repaint_handle == old(self).has_repaint_handle,
            match event {
                PlayerEvent::ProgressUpdate(d) => *final(self) == *old(self) && actions@
                    == with_repaint(
                    seq![Action::Emit(Event::ProgressUpdate(d))],
                    old(self).has_repaint_handle,
                ),
                PlayerEvent::NowPlaying => *final(self) == *old(self) && actions@ == with_repaint(
                    seq![Action::Emit(Event::NowPlaying)],
                    old(self).has_repaint_handle,
                ),
                PlayerEvent::NowPaused => *final(self) == *old(self) && actions@ == with_repaint(
                    seq![Action::Emit(Event::NowPaused)],
                    old(self).has_repaint_handle,
                ),
                PlayerEvent::JumpedTo(d) => *final(self) == *old(self) && actions@ == with_repaint(
                    seq![Action::Emit(Event::JumpedTo(d))],
                    old(self).has_repaint_handle,
                ),
                PlayerEvent::TrackFinished => {
                    &&& final(self).queued_tracks == (if old(self).queued_tracks > 0 {
                        old(self).queued_tracks - 1
                    } else {
                        0
                    })
                    &&& final(self).loading_tracks == old(self).loading_tracks
                    &&& final(self).root_music_dir == old(self).root_music_dir
                    &&& actions@ == with_repaint(
                        Seq::<Action>::empty(),
                        old(self).has_repaint_handle,
                    )
                },
                PlayerEvent::NewTrackPlaying(opt) => match opt {
                    None => *final(self) == *old(self) && actions@ == with_repaint(
                        Seq::<Action>::empty(),
                        old(self).has_repaint_handle,
                    ),
                    Some(m) => {
                        &&& final(self).queued_tracks == old(self).queued_tracks
                        &&& final(self).loading_tracks >= old(self).loading_tracks
                        &&& actions@.len() == 1 + (final(self).loading_tracks - old(
                            self,
                        ).loading_tracks) + (if old(self).has_repaint_handle {
                            1int
                        } else {
                            0int
                        })
                        &&& actions@[0] == Action::Emit(Event::NewTrackPlaying(Some(m)))
                        &&& forall|k: int|
                            1 <= k < 1 + (final(self).loading_tracks - old(self).loading_tracks)
                                ==> ((#[trigger] actions@[k]) matches Action::LoadTrack(_))
                        &&& old(self).has_repaint_handle ==> actions@.last()
                            == Action::RequestRepaint
                        &&& match (old(self).root_music_dir, final(self).root_music_dir) {
                            (Some(a), Some(b)) => {
                                &&& b.wf()
                                &&& b.subtree_tracks == a.subtree_tracks
                                &&& b.plays() == a.plays() + final(self).loading_tracks - old(
                                    self,
                                ).loading_tracks
                                &&& a.plays() + TRACK_QUEUE_FILL_UNTIL - old(self).depth_used()
                                    <= u64::MAX ==> final(self).depth_used()
                                    == TRACK_QUEUE_FILL_UNTIL
                                &&& exists|paths: Seq<Seq<String>>|
                                    #[trigger] loads_fair_chain(
                                        a,
                                        b,
                                        actions@.take(
                                            1 + final(self).loading_tracks - old(
                                                self,
                                            ).loading_tracks,
                                        ),
                                        1,
                                        paths,
                                    )
                            },
                            (None, None) => final(self).loading_tracks == old(
                                self,
                            ).loading_tracks,
                            _ => false,
                        }
                    },
                },
            },
    {
        let ghost ev = event;
        let ghost mut after_loads: Seq<Action> = Seq::empty();
        let mut actions: Vec<Action> = Vec::new();
        match event {
            PlayerEvent::ProgressUpdate(d) => {
                actions.push(Action::Emit(Event::ProgressUpdate(d)));
            },
            PlayerEvent::NowPlaying => {
                actions.push(Action::Emit(Event::NowPlaying));
            },
            PlayerEvent::NowPaused => {
                actions.push(Action::Emit(Event::NowPaused));
            },
            PlayerEvent::JumpedTo(d) => {
                actions.push(Action::Emit(Event::JumpedTo(d)));
            },
            PlayerEvent::TrackFinished => {
                if self.queued_tracks > 0 {
                    self.queued_tracks = self.queued_tracks - 1;
                }
            },
            PlayerEvent::NewTrackPlaying(opt) => {
                match opt {
                    None => {},
                    Some(m) => {
                        actions.push(Action::Emit(Event::NewTrackPlaying(Some(m))));
                        let used = self.queued_tracks + self.loading_tracks;
                        if used < TRACK_QUEUE_FILL_UNTIL && self.root_music_dir.is_some() {
                            let amount = TRACK_QUEUE_FILL_UNTIL - used;
                            self.load_random_tracks(amount, &mut actions);
                        }
                        proof {
                            after_loads = actions@;
                        }
                    },
                }
            },
        }
        if self.has_repaint_handle {
            actions.push(Action::RequestRepaint);
        }
        proof {
            match ev {
                PlayerEvent::ProgressUpdate(d) => {
                    assert(actions@ =~= with_repaint(
                        seq![Action::Emit(Event::ProgressUpdate(d))],
                        old(self).has_repaint_handle,
                    ));
                },
                PlayerEvent::NowPlaying => {
                    assert(actions@ =~= with_repaint(
                        seq![Action::Emit(Event::NowPlaying)],
                        old(self).has_repaint_handle,
                    ));
                },
                PlayerEvent::NowPaused => {
                    assert(actions@ =~= with_repaint(
                        seq![Action::Emit(Event::NowPaused)],
                        old(self).has_repaint_handle,
                    ));
                },
                PlayerEvent::JumpedTo(d) => {
                    assert(actions@ =~= with_repaint(
                        seq![Action::Emit(Event::JumpedTo(d))],
                        old(self).has_repaint_handle,
                    ));
                },
                PlayerEvent::TrackFinished => {
                    assert(actions@ =~= with_repaint(
                        Seq::<Action>::empty(),
                        old(self).has_repaint_handle,
                    ));
                },
                PlayerEvent::NewTrackPlaying(opt) => {
                    if opt is None {
                        assert(actions@ =~= with_repaint(
                            Seq::<Action>::empty(),
                            old(self).has_repaint_handle,
                        ));
                    } else {
                        let post = *self;
                        match (old(self).root_music_dir, post.root_music_dir) {
                            (Some(a), Some(b)) => {
                                assert(actions@.take(
                                    1 + post.loading_tracks - old(self).loading_tracks,
                                ) =~= after_loads);
                                if old(self).depth_used() < TRACK_QUEUE_FILL_UNTIL {
                                    let paths = choose|p: Seq<Seq<String>>|
                                        #[trigger] loads_fair_chain(a, b, after_loads, 1, p);
                                    assert(loads_fair_chain(
                                        a,
                                        b,
                                        actions@.take(
                                            1 + post.loading_tracks - old(self).loading_tracks,
                                        ),
                                        1,
                                        paths,
                                    ));
                                } else {
                                    assert(b == a);
                                    assert(fair_selection_steps(
                                        seq![a],
                                        Seq::<Seq<String>>::empty(),
                                    ));
                                    assert(fair_selection_chain(
                                        a,
                                        a,
                                        Seq::<Seq<String>>::empty(),
                                    ));
                                    assert(loads_fair_chain(
                                        a,
                                        b,
                                        actions@.take(
                                            1 + post.loading_tracks - old(self).loading_tracks,
                                        ),
                                        1,
                                        Seq::<Seq<String>>::empty(),
                                    ));
                                }
                            },
                            _ => {},
                        }
                    }
                },
            }
        }
        actions
    }
}

} // verus!
