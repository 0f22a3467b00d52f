//! The state of one player.

use vstd::prelude::*;
use vstd::string::*;
use crate::data::common::{MuteState, Volume};
use crate::data::event::PlayerNowPlayingProgress;
use crate::data::player::{PlayMode, PlayState, PlayerInfo, PlayerInfoView, RepeatMode, ShuffleMode};
use crate::data::queue::{
    clone_tracks,
    NowPlayingInfo,
    NowPlayingInfoView,
    QueuedTrackInfo,
    TrackView,
};
use crate::views::views;

verus! {

/// How far a player has come in its track.
///
/// The system reports progress every second or so. Between two reports the
/// library counts on by itself while the player plays: `baseline` is the
/// time at which `elapsed` was true. All times are in milliseconds; the
/// times of day are readings of one clock that never runs backwards, which
/// the caller supplies.
#[derive(Clone, Copy, Debug, PartialEq, Eq, Structural)]
pub struct NowPlayingProgress {
    /// How much of the track had played at the last report.
    pub elapsed: u64,
    /// How long the track is.
    pub duration: u64,
    /// The time at which `elapsed` was true, while the player plays.
    pub baseline: Option<u64>,
}

impl NowPlayingProgress {
    /// How much of the track has played at the time `now`: what was
    /// reported, plus the time since then while the player plays, and never
    /// more than the track is long.
    pub open spec fn interpolated(self, now: u64) -> int {
        let counted = match self.baseline {
            Some(since) => if now >= since {
                self.elapsed + (now - since)
            } else {
                self.elapsed as int
            },
            None => self.elapsed as int,
        };
        if counted <= self.duration {
            counted
        } else {
            self.duration as int
        }
    }

    /// Progress of a track of the given length that has not played yet and
    /// does not play.
    pub fn new(duration: u64) -> (r: Self)
        ensures
            r.elapsed == 0,
            r.duration == duration,
            r.baseline is None,
    {
        NowPlayingProgress { elapsed: 0, duration, baseline: None }
    }

    /// How much of the track has played at the time `now`.
    pub fn interpolated_elapsed(&self, now: u64) -> (r: u64)
        ensures
            r == self.interpolated(now),
            r <= self.duration,
    {
        let counted = match self.baseline {
            Some(since) => if now >= since {
                self.elapsed.saturating_add(now - since)
            } else {
                self.elapsed
            },
            None => self.elapsed,
        };
        if counted <= self.duration {
            counted
        } else {
            self.duration
        }
    }

    /// The progress after the player changed to `state` at the time `now`.
    /// A player that starts to play counts from now on, unless it counts
    /// already. A player that pauses or stops keeps what has played so far
    /// and counts no more.
    pub open spec fn after_play_state(self, state: PlayState, now: u64) -> Self {
        match state {
            PlayState::Play => if self.baseline is None {
                NowPlayingProgress { baseline: Some(now), ..self }
            } else {
                self
            },
            _ => NowPlayingProgress {
                elapsed: self.interpolated(now) as u64,
                duration: self.duration,
                baseline: None,
            },
        }
    }

    /// The progress after a report of the system at the time `now`: what
    /// the report says, counting on from now where the player plays; where
    /// it does not, the baseline stays as it was.
    pub open spec fn after_report(
        self,
        elapsed: u64,
        duration: u64,
        playing: bool,
        now: u64,
    ) -> Self {
        NowPlayingProgress {
            elapsed,
            duration,
            baseline: if playing {
                Some(now)
            } else {
                self.baseline
            },
        }
    }

    /// Progress of a track that has just begun at the time `now`: nothing
    /// has played, the length is not known yet, and the count runs where
    /// the player plays.
    pub open spec fn restarted(playing: bool, now: u64) -> Self {
        NowPlayingProgress {
            elapsed: 0,
            duration: 0,
            baseline: if playing {
                Some(now)
            } else {
                None
            },
        }
    }

    /// Takes a change of play state at the time `now`.
    pub fn update_play_state(&mut self, state: PlayState, now: u64)
        ensures
            *final(self) == old(self).after_play_state(state, now),
    {
        match state {
            PlayState::Play => {
                if self.baseline.is_none() {
                    self.baseline = Some(now);
                }
            },
            _ => {
                self.elapsed = self.interpolated_elapsed(now);
                self.baseline = None;
            },
        }
    }

    /// Takes a progress report at the time `now`.
    pub fn update(&mut self, elapsed: u64, duration: u64, playing: bool, now: u64)
        ensures
            *final(self) == old(self).after_report(elapsed, duration, playing, now),
    {
        self.elapsed = elapsed;
        self.duration = duration;
        if playing {
            self.baseline = Some(now);
        }
    }

    /// Progress of a track that has just begun at the time `now`.
    pub fn restart(playing: bool, now: u64) -> (r: Self)
        ensures
            r == Self::restarted(playing, now),
    {
        NowPlayingProgress {
            elapsed: 0,
            duration: 0,
            baseline: if playing {
                Some(now)
            } else {
                None
            },
        }
    }
}

/// What is never exceeded: at no time has more of a track played than the
/// track is long.
pub proof fn lemma_interpolated_bounded(p: NowPlayingProgress, now: u64)
    ensures
        0 <= p.interpolated(now) <= p.duration,
{
}

/// While the player plays, the count advances with the clock until the end
/// of the track: after `later - since` more milliseconds, that much more
/// has played.
pub proof fn lemma_interpolation_advances(p: NowPlayingProgress, since: u64, later: u64)
    requires
        p.baseline == Some(since),
        since <= later,
        p.elapsed + (later - since) <= p.duration,
    ensures
        p.interpolated(later) == p.elapsed + (later - since),
{
}

/// After a pause or stop the count stands still: at any later time, as
/// much has played as at the time of the pause.
pub proof fn lemma_pause_freezes(p: NowPlayingProgress, state: PlayState, at: u64, later: u64)
    requires
        state != PlayState::Play,
    ensures
        p.after_play_state(state, at).interpolated(later) == p.interpolated(at),
{
}

/// What a player plays, and how far it has come.
#[derive(Debug)]
pub struct NowPlaying {
    /// The track.
    pub info: NowPlayingInfo,
    /// How far the player has come in it.
    pub progress: NowPlayingProgress,
}

/// A `NowPlaying` as plain values.
pub ghost struct NowPlayingView {
    pub info: NowPlayingInfoView,
    pub progress: NowPlayingProgress,
}

impl View for NowPlaying {
    type V = NowPlayingView;

    open spec fn view(&self) -> NowPlayingView {
        NowPlayingView { info: self.info@, progress: self.progress }
    }
}

impl Clone for NowPlaying {
    fn clone(&self) -> (r: Self)
        ensures
            r@ == self@,
    {
        NowPlaying { info: self.info.clone(), progress: self.progress }
    }
}

/// Everything that is known of a player at one moment.
#[derive(Debug)]
pub struct PlayerSnapshot {
    /// What does not change: name, model, address.
    pub info: PlayerInfo,
    /// What the player plays.
    pub now_playing: NowPlaying,
    /// The tracks that come next.
    pub queue: Vec<QueuedTrackInfo>,
    /// Whether the player plays.
    pub play_state: PlayState,
    /// The volume.
    pub volume: Volume,
    /// Whether the player is muted.
    pub mute: MuteState,
    /// What is repeated.
    pub repeat: RepeatMode,
    /// Whether the queue is shuffled.
    pub shuffle: ShuffleMode,
}

/// A `PlayerSnapshot` as plain values.
pub ghost struct PlayerSnapshotView {
    pub info: PlayerInfoView,
    pub now_playing: NowPlayingView,
    pub queue: Seq<TrackView>,
    pub play_state: PlayState,
    pub volume: int,
    pub mute: MuteState,
    pub repeat: RepeatMode,
    pub shuffle: ShuffleMode,
}

impl View for PlayerSnapshot {
    type V = PlayerSnapshotView;

    open spec fn view(&self) -> PlayerSnapshotView {
        PlayerSnapshotView {
            info: self.info@,
            now_playing: self.now_playing@,
            queue: views(self.queue@),
            play_state: self.play_state,
            volume: self.volume@,
            mute: self.mute,
            repeat: self.repeat,
            shuffle: self.shuffle,
        }
    }
}

impl Clone for PlayerSnapshot {
    fn clone(&self) -> (r: Self)
        ensures
            r@ == self@,
    {
        PlayerSnapshot {
            info: self.info.clone(),
            now_playing: self.now_playing.clone(),
            queue: clone_tracks(&self.queue),
            play_state: self.play_state,
            volume: self.volume,
            mute: self.mute,
            repeat: self.repeat,
            shuffle: self.shuffle,
        }
    }
}

impl PlayerSnapshot {
    /// The state of a player as a system reports it when asked: its
    /// description, what it plays, its queue, play state, volume, mute and
    /// play mode. Nothing is known yet of the progress within the track.
    pub fn assemble(
        info: PlayerInfo,
        now_playing: NowPlayingInfo,
        queue: Vec<QueuedTrackInfo>,
        play_state: PlayState,
        volume: Volume,
        mute: MuteState,
        play_mode: PlayMode,
    ) -> (r: Self)
        ensures
            r.info == info,
            r.now_playing.info == now_playing,
            r.now_playing.progress == (NowPlayingProgress {
                elapsed: 0,
                duration: 0,
                baseline: None,
            }),
            r.queue == queue,
            r.play_state == play_state,
            r.volume == volume,
            r.mute == mute,
            r.repeat == play_mode.repeat,
            r.shuffle == play_mode.shuffle,
    {
        PlayerSnapshot {
            info,
            now_playing: NowPlaying { info: now_playing, progress: NowPlayingProgress::new(0) },
            queue,
            play_state,
            volume,
            mute,
            repeat: play_mode.repeat,
            shuffle: play_mode.shuffle,
        }
    }

    /// Takes a change of play state at the time `now`: the new state, and
    /// the progress adjusted to it.
    pub fn update_play_state(&mut self, state: PlayState, now: u64)
        ensures
            *final(self) == (PlayerSnapshot {
                play_state: state,
                now_playing: NowPlaying {
                    progress: old(self).now_playing.progress.after_play_state(state, now),
                    ..old(self).now_playing
                },
                ..*old(self)
            }),
    {
        self.play_state = state;
        self.now_playing.progress.update_play_state(state, now);
    }

    /// Takes a new track at the time `now`: the progress starts over, and
    /// counts where the player plays.
    pub fn update_now_playing(&mut self, info: NowPlayingInfo, now: u64)
        ensures
            *final(self) == (PlayerSnapshot {
                now_playing: NowPlaying {
                    info,
                    progress: NowPlayingProgress::restarted(
                        old(self).play_state == PlayState::Play,
                        now,
                    ),
                },
                ..*old(self)
            }),
    {
        let playing = self.play_state == PlayState::Play;
        self.now_playing = NowPlaying { info, progress: NowPlayingProgress::restart(playing, now) };
    }

    /// Takes a progress report at the time `now`.
    pub fn update_now_playing_progress(&mut self, event: &PlayerNowPlayingProgress, now: u64)
        ensures
            *final(self) == (PlayerSnapshot {
                now_playing: NowPlaying {
                    progress: old(self).now_playing.progress.after_report(
                        event.elapsed,
                        event.duration,
                        old(self).play_state == PlayState::Play,
                        now,
                    ),
                    ..old(self).now_playing
                },
                ..*old(self)
            }),
    {
        let playing = self.play_state == PlayState::Play;
        self.now_playing.progress.update(event.elapsed, event.duration, playing, now);
    }
}

} // verus!
