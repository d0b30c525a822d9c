//! The playback state machine. The engine worker that owns the audio device
//! feeds each received event through `handle_event` and then performs the
//! returned sink action; all decisions are made here, all device I/O stays
//! with the worker.

use vstd::prelude::*;
use crate::track::Track;
use crate::track::TrackView;
use crate::track::opt_track_view;

verus! {

/// The playback mode.
#[derive(PartialEq, Eq, Structural, Clone, Copy, Debug)]
pub enum PlayState {
    Playing,
    Paused,
    Stopped,
}

/// One playback command, consumed by the engine in arrival order.
pub enum PlayerEvent {
    Play,
    Pause,
    Stop,
    NewTrack(Track),
    UpdateProgress,
}

/// The side effect the engine worker performs on the sink after a
/// transition.
pub enum SinkAction {
    /// Nothing to do.
    Stay,
    /// Resume the sink.
    Resume,
    /// Pause the sink.
    Suspend,
    /// Stop the sink and drop whatever was queued.
    Silence,
    /// Decode the file at this path, queue it, and play it from the start.
    /// When that fails the worker reports it through `on_load_failure`.
    Load(String),
    /// Read the sink position and report it through `set_progress`.
    Query,
}

/// The playback state visible to callers: mode, an owned copy of the current
/// track (it survives library rescans), and the last reported progress in
/// milliseconds.
pub struct PlayerState {
    pub play_state: PlayState,
    pub current_track: Option<Track>,
    pub progress: u64,
}

/// Mathematical model of `PlayerState`.
#[verifier::ext_equal]
pub struct PlayerStateView {
    pub play_state: PlayState,
    pub current_track: Option<TrackView>,
    pub progress: u64,
}

impl View for PlayerState {
    type V = PlayerStateView;

    open spec fn view(&self) -> PlayerStateView {
        PlayerStateView {
            play_state: self.play_state,
            current_track: opt_track_view(self.current_track),
            progress: self.progress,
        }
    }
}

/// The state invariant: the player is stopped exactly when it holds no
/// current track.
pub open spec fn wf_state(s: PlayerStateView) -> bool {
    s.play_state == PlayState::Stopped <==> s.current_track is None
}

impl PlayerState {
    pub open spec fn wf(&self) -> bool {
        wf_state(self@)
    }

    /// The initial state: stopped, no current track, progress zero.
    pub fn new() -> (r: PlayerState)
        ensures
            r@ == (PlayerStateView {
                play_state: PlayState::Stopped,
                current_track: Option::None,
                progress: 0,
            }),
            r.wf(),
    {
        PlayerState { play_state: PlayState::Stopped, current_track: Option::None, progress: 0 }
    }

    /// One step of the engine: consume an event, move to the next state, and
    /// say what the worker must do to the sink.
    ///
    /// `Play` with no current track and `Pause` outside of playing are no-ops;
    /// `Stop` clears the current track; `NewTrack` always starts playing the
    /// new track, whatever the previous mode; `UpdateProgress` only asks the
    /// worker to report the device position.
    pub fn handle_event(&mut self, event: PlayerEvent) -> (action: SinkAction)
        requires
            old(self).wf(),
        ensures
            final(self).wf(),
            (match event {
                PlayerEvent::Play => if old(self)@.current_track is None {
                    final(self)@ == old(self)@ && action is Stay
                } else {
                    action is Resume && final(self)@ == (PlayerStateView {
                        play_state: PlayState::Playing,
                        ..old(self)@
                    })
                },
                PlayerEvent::Pause => if old(self)@.play_state == PlayState::Playing {
                    action is Suspend && final(self)@ == (PlayerStateView {
                        play_state: PlayState::Paused,
                        ..old(self)@
                    })
                } else {
                    final(self)@ == old(self)@ && action is Stay
                },
                PlayerEvent::Stop => action is Silence && final(self)@ == (PlayerStateView {
                    play_state: PlayState::Stopped,
                    current_track: Option::None,
                    progress: old(self)@.progress,
                }),
                PlayerEvent::NewTrack(t) => (action matches SinkAction::Load(p) && p@ == t@.path)
                    && final(self)@ == (PlayerStateView {
                    play_state: PlayState::Playing,
                    current_track: Option::Some(t@),
                    progress: old(self)@.progress,
                }),
                PlayerEvent::UpdateProgress => final(self)@ == old(self)@ && action is Query,
            }),
    {
        match event {
            PlayerEvent::Play => {
                match &self.current_track {
                    Option::None => SinkAction::Stay,
                    Option::Some(_) => {
                        self.play_state = PlayState::Playing;
                        SinkAction::Resume
                    },
                }
            },
            PlayerEvent::Pause => {
                match self.play_state {
                    PlayState::Playing => {
                        self.play_state = PlayState::Paused;
                        SinkAction::Suspend
                    },
                    _ => SinkAction::Stay,
                }
            },
            PlayerEvent::Stop => {
                self.play_state = PlayState::Stopped;
                self.current_track = Option::None;
                SinkAction::Silence
            },
            PlayerEvent::NewTrack(t) => {
                let path = t.path.clone();
                self.play_state = PlayState::Playing;
                self.current_track = Option::Some(t);
                SinkAction::Load(path)
            },
            PlayerEvent::UpdateProgress => SinkAction::Query,
        }
    }

    /// Record the device position read by the worker after a `Query` action.
    pub fn set_progress(&mut self, ms: u64)
        ensures
            final(self)@ == (PlayerStateView { progress: ms, ..old(self)@ }),
    {
        self.progress = ms;
    }

    /// The documented recovery when the worker cannot open or decode the file
    /// of a `Load` action: the device falls silent and the player reads as
    /// stopped; the engine keeps serving later events.
    pub fn on_load_failure(&mut self)
        ensures
            final(self)@ == (PlayerStateView {
                play_state: PlayState::Stopped,
                current_track: Option::None,
                progress: old(self)@.progress,
            }),
            final(self).wf(),
    {
        self.play_state = PlayState::Stopped;
        self.current_track = Option::None;
    }
}

} // verus!
