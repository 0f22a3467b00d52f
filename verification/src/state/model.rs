//! The model as a whole, and what events do to it.

use vstd::prelude::*;
use vstd::string::*;
use crate::data::common::{MuteState, Volume};
use crate::data::event::{Event, EventView, PlayerNowPlayingProgress};
use crate::data::group::GroupId;
use crate::data::player::{PlayState, PlayerId, RepeatMode, ShuffleMode};
use crate::data::queue::{NowPlayingInfo, NowPlayingInfoView, QueuedTrackInfo};
use crate::data::source::{SourceId, SourceInfoView};
use crate::data::system::{AccountStatus, AccountStatusView};
use crate::state::group::{GroupSnapshot, GroupSnapshotView};
use crate::state::player::{
    NowPlaying,
    NowPlayingProgress,
    NowPlayingView,
    PlayerSnapshot,
    PlayerSnapshotView,
};
use crate::state::source::SourceData;
use crate::views::{first_where, lemma_first_where, lemma_first_where_at, views};

verus! {

/// What is known of a system.
#[derive(Debug)]
pub struct State {
    /// Who is signed in.
    pub account: AccountStatus,
    /// The sources.
    pub sources: Vec<SourceData>,
    /// The players.
    pub players: Vec<PlayerSnapshot>,
    /// The groups.
    pub groups: Vec<GroupSnapshot>,
}

/// A `State` as plain values.
pub ghost struct StateView {
    pub account: AccountStatusView,
    pub sources: Seq<SourceInfoView>,
    pub players: Seq<PlayerSnapshotView>,
    pub groups: Seq<GroupSnapshotView>,
}

impl View for State {
    type V = StateView;

    open spec fn view(&self) -> StateView {
        StateView {
            account: self.account@,
            sources: views(self.sources@),
            players: views(self.players@),
            groups: views(self.groups@),
        }
    }
}

/// What the owner of the model has to ask the system for.
#[derive(Clone, Copy, Debug, PartialEq, Eq, Structural)]
pub enum Refresh {
    /// All sources.
    Sources,
    /// All players, and the state of each.
    Players,
    /// All groups, and the state of each.
    Groups,
    /// What a player plays now.
    NowPlaying(PlayerId),
    /// The queue of a player.
    Queue(PlayerId),
}

/// What is left to do for an event after the model has taken it.
#[derive(Debug)]
pub enum Step {
    /// Nothing: the model is up to date, and the event can be passed on to
    /// whoever listens.
    Publish,
    /// The event only says that something has changed. Ask the system for
    /// it, hand the answer to the model, and pass the event on after that.
    Fetch(Refresh),
    /// A player could not play something. Log the text, and pass the event
    /// on.
    Report(String),
}

/// A `Step` as plain values.
pub ghost enum StepView {
    Publish,
    Fetch(Refresh),
    Report(Seq<char>),
}

impl View for Step {
    type V = StepView;

    open spec fn view(&self) -> StepView {
        match self {
            Step::Publish => StepView::Publish,
            Step::Fetch(r) => StepView::Fetch(*r),
            Step::Report(t) => StepView::Report(t@),
        }
    }
}

/// Whether a player has the identifier `id`.
pub open spec fn is_player(id: PlayerId) -> spec_fn(PlayerSnapshotView) -> bool {
    |p: PlayerSnapshotView| p.info.player_id == id
}

/// Whether a group has the identifier `id`.
pub open spec fn is_group(id: GroupId) -> spec_fn(GroupSnapshotView) -> bool {
    |g: GroupSnapshotView| g.info.group_id == id
}

/// Whether a source has the identifier `id`.
pub open spec fn is_source(id: SourceId) -> spec_fn(SourceInfoView) -> bool {
    |s: SourceInfoView| s.source_id == id
}

/// The model with the player `id` changed by `change`; a model that does
/// not know the player stays as it is.
pub open spec fn with_player(
    s: StateView,
    id: PlayerId,
    change: spec_fn(PlayerSnapshotView) -> PlayerSnapshotView,
) -> StateView {
    match first_where(s.players, is_player(id)) {
        Some(i) => StateView { players: s.players.update(i, change(s.players[i])), ..s },
        None => s,
    }
}

/// The model with the group `id` changed by `change`; a model that does
/// not know the group stays as it is.
pub open spec fn with_group(
    s: StateView,
    id: GroupId,
    change: spec_fn(GroupSnapshotView) -> GroupSnapshotView,
) -> StateView {
    match first_where(s.groups, is_group(id)) {
        Some(i) => StateView { groups: s.groups.update(i, change(s.groups[i])), ..s },
        None => s,
    }
}

/// A player after a change of play state at the time `now`.
pub open spec fn played(p: PlayerSnapshotView, state: PlayState, now: u64) -> PlayerSnapshotView {
    PlayerSnapshotView {
        play_state: state,
        now_playing: NowPlayingView {
            progress: p.now_playing.progress.after_play_state(state, now),
            ..p.now_playing
        },
        ..p
    }
}

/// A player after a progress report at the time `now`.
pub open spec fn progressed(
    p: PlayerSnapshotView,
    elapsed: u64,
    duration: u64,
    now: u64,
) -> PlayerSnapshotView {
    PlayerSnapshotView {
        now_playing: NowPlayingView {
            progress: p.now_playing.progress.after_report(
                elapsed,
                duration,
                p.play_state == PlayState::Play,
                now,
            ),
            ..p.now_playing
        },
        ..p
    }
}

/// A player after it began to play `info` at the time `now`.
pub open spec fn retuned(
    p: PlayerSnapshotView,
    info: NowPlayingInfoView,
    now: u64,
) -> PlayerSnapshotView {
    PlayerSnapshotView {
        now_playing: NowPlayingView {
            info,
            progress: NowPlayingProgress::restarted(p.play_state == PlayState::Play, now),
        },
        ..p
    }
}

/// The model after an event at the time `now`, and what is left to do.
///
/// Events that carry the new value write it into the model. Events that
/// only say that something changed leave the model as it is and ask for a
/// fetch. A playback error changes nothing.
pub open spec fn after_event(s: StateView, e: EventView, now: u64) -> (StateView, StepView) {
    match e {
        EventView::SourcesChanged => (s, StepView::Fetch(Refresh::Sources)),
        EventView::PlayersChanged => (s, StepView::Fetch(Refresh::Players)),
        EventView::GroupsChanged => (s, StepView::Fetch(Refresh::Groups)),
        EventView::PlayerStateChanged(e) => (
            with_player(s, e.player_id, |p: PlayerSnapshotView| played(p, e.state, now)),
            StepView::Publish,
        ),
        EventView::PlayerNowPlayingChanged(e) => (
            s,
            StepView::Fetch(Refresh::NowPlaying(e.player_id)),
        ),
        EventView::PlayerNowPlayingProgress(e) => (
            with_player(
                s,
                e.player_id,
                |p: PlayerSnapshotView| progressed(p, e.elapsed, e.duration, now),
            ),
            StepView::Publish,
        ),
        EventView::PlayerPlaybackError { player_id, error } => (s, StepView::Report(error)),
        EventView::PlayerQueueChanged(e) => (s, StepView::Fetch(Refresh::Queue(e.player_id))),
        EventView::PlayerVolumeChanged { player_id, level, mute } => (
            with_player(
                s,
                player_id,
                |p: PlayerSnapshotView| PlayerSnapshotView { volume: level, mute, ..p },
            ),
            StepView::Publish,
        ),
        EventView::PlayerRepeatModeChanged(e) => (
            with_player(
                s,
                e.player_id,
                |p: PlayerSnapshotView| PlayerSnapshotView { repeat: e.repeat, ..p },
            ),
            StepView::Publish,
        ),
        EventView::PlayerShuffleModeChanged(e) => (
            with_player(
                s,
                e.player_id,
                |p: PlayerSnapshotView| PlayerSnapshotView { shuffle: e.shuffle, ..p },
            ),
            StepView::Publish,
        ),
        EventView::GroupVolumeChanged { group_id, level, mute } => (
            with_group(
                s,
                group_id,
                |g: GroupSnapshotView| GroupSnapshotView { volume: level, mute, ..g },
            ),
            StepView::Publish,
        ),
        EventView::UserChanged(account) => (StateView { account, ..s }, StepView::Publish),
    }
}

impl State {
    /// A model that knows the account and nothing else yet.
    pub fn init(account: AccountStatus) -> (r: Self)
        ensures
            r@ == (StateView {
                account: account@,
                sources: Seq::empty(),
                players: Seq::empty(),
                groups: Seq::empty(),
            }),
    {
        let r = State { account, sources: Vec::new(), players: Vec::new(), groups: Vec::new() };
        proof {
            assert(r@.sources =~= Seq::empty());
            assert(r@.players =~= Seq::empty());
            assert(r@.groups =~= Seq::empty());
        }
        r
    }

    /// Who is signed in.
    pub fn account(&self) -> (r: AccountStatus)
        ensures
            r@ == self@.account,
    {
        self.account.clone()
    }

    /// Where the player `id` stands.
    pub fn find_player(&self, id: PlayerId) -> (r: Option<usize>)
        ensures
            match r {
                Some(i) => first_where(self@.players, is_player(id)) == Some(i as int) && i
                    < self.players.len(),
                None => first_where(self@.players, is_player(id)) is None,
            },
    {
        let mut i: usize = 0;
        while i < self.players.len()
            invariant
                i <= self.players.len(),
                forall|j: int| 0 <= j < i ==> !is_player(id)(views(self.players@)[j]),
            decreases self.players.len() - i,
        {
            if self.players[i].info.player_id == id {
                proof {
                    lemma_first_where_at(views(self.players@), is_player(id), i as int);
                }
                return Some(i);
            }
            i += 1;
        }
        proof {
            lemma_first_where_at(views(self.players@), is_player(id), i as int);
        }
        None
    }

    /// Where the group `id` stands.
    pub fn find_group(&self, id: GroupId) -> (r: Option<usize>)
        ensures
            match r {
                Some(i) => first_where(self@.groups, is_group(id)) == Some(i as int) && i
                    < self.groups.len(),
                None => first_where(self@.groups, is_group(id)) is None,
            },
    {
        let mut i: usize = 0;
        while i < self.groups.len()
            invariant
                i <= self.groups.len(),
                forall|j: int| 0 <= j < i ==> !is_group(id)(views(self.groups@)[j]),
            decreases self.groups.len() - i,
        {
            if self.groups[i].info.group_id == id {
                proof {
                    lemma_first_where_at(views(self.groups@), is_group(id), i as int);
                }
                return Some(i);
            }
            i += 1;
        }
        proof {
            lemma_first_where_at(views(self.groups@), is_group(id), i as int);
        }
        None
    }

    /// Where the source `id` stands.
    pub fn find_source(&self, id: SourceId) -> (r: Option<usize>)
        ensures
            match r {
                Some(i) => first_where(self@.sources, is_source(id)) == Some(i as int) && i
                    < self.sources.len(),
                None => first_where(self@.sources, is_source(id)) is None,
            },
    {
        let mut i: usize = 0;
        while i < self.sources.len()
            invariant
                i <= self.sources.len(),
                forall|j: int| 0 <= j < i ==> !is_source(id)(views(self.sources@)[j]),
            decreases self.sources.len() - i,
        {
            if self.sources[i].info.source_id == id {
                proof {
                    lemma_first_where_at(views(self.sources@), is_source(id), i as int);
                }
                return Some(i);
            }
            i += 1;
        }
        proof {
            lemma_first_where_at(views(self.sources@), is_source(id), i as int);
        }
        None
    }

    /// The player `id`, if the model knows it.
    pub fn player(&self, id: PlayerId) -> (r: Option<&PlayerSnapshot>)
        ensures
            match r {
                Some(p) => first_where(self@.players, is_player(id)) matches Some(i)
                    && self@.players[i] == p@,
                None => first_where(self@.players, is_player(id)) is None,
            },
    {
        match self.find_player(id) {
            Some(i) => Some(&self.players[i]),
            None => None,
        }
    }

    /// The group `id`, if the model knows it.
    pub fn group(&self, id: GroupId) -> (r: Option<&GroupSnapshot>)
        ensures
            match r {
                Some(g) => first_where(self@.groups, is_group(id)) matches Some(i)
                    && self@.groups[i] == g@,
                None => first_where(self@.groups, is_group(id)) is None,
            },
    {
        match self.find_group(id) {
            Some(i) => Some(&self.groups[i]),
            None => None,
        }
    }

    /// The source `id`, if the model knows it.
    pub fn source(&self, id: SourceId) -> (r: Option<&SourceData>)
        ensures
            match r {
                Some(s) => first_where(self@.sources, is_source(id)) matches Some(i)
                    && self@.sources[i] == s@,
                None => first_where(self@.sources, is_source(id)) is None,
            },
    {
        match self.find_source(id) {
            Some(i) => Some(&self.sources[i]),
            None => None,
        }
    }

    /// Replaces the table of sources by what the system has just listed.
    /// The table changes in one step: no reader sees a part of the old
    /// table beside a part of the new one.
    pub fn update_sources(&mut self, sources: Vec<SourceData>)
        ensures
            final(self)@ == (StateView { sources: views(sources@), ..old(self)@ }),
    {
        self.sources = sources;
    }

    /// Replaces the table of players by what the system has just listed.
    /// The table changes in one step.
    pub fn update_players(&mut self, players: Vec<PlayerSnapshot>)
        ensures
            final(self)@ == (StateView { players: views(players@), ..old(self)@ }),
    {
        self.players = players;
    }

    /// Replaces the table of groups by what the system has just listed.
    /// The table changes in one step.
    pub fn update_groups(&mut self, groups: Vec<GroupSnapshot>)
        ensures
            final(self)@ == (StateView { groups: views(groups@), ..old(self)@ }),
    {
        self.groups = groups;
    }

    /// Takes what a player plays now, as the system has just told it, at
    /// the time `now`.
    pub fn update_now_playing(&mut self, id: PlayerId, info: NowPlayingInfo, now: u64)
        ensures
            final(self)@ == with_player(
                old(self)@,
                id,
                |p: PlayerSnapshotView| retuned(p, info@, now),
            ),
    {
        match self.find_player(id) {
            Some(i) => {
                self.players[i].update_now_playing(info, now);
                proof {
                    assert(self@.players =~= old(self)@.players.update(
                        i as int,
                        self.players@[i as int]@,
                    ));
                }
            },
            None => {},
        }
    }

    /// Takes the queue of a player, as the system has just told it.
    pub fn update_queue(&mut self, id: PlayerId, queue: Vec<QueuedTrackInfo>)
        ensures
            final(self)@ == with_player(
                old(self)@,
                id,
                |p: PlayerSnapshotView| PlayerSnapshotView { queue: views(queue@), ..p },
            ),
    {
        match self.find_player(id) {
            Some(i) => {
                self.players[i].queue = queue;
                proof {
                    assert(self@.players =~= old(self)@.players.update(
                        i as int,
                        self.players@[i as int]@,
                    ));
                }
            },
            None => {},
        }
    }

    /// Takes a change of play state of a player at the time `now`.
    pub fn update_play_state(&mut self, id: PlayerId, state: PlayState, now: u64)
        ensures
            final(self)@ == with_player(
                old(self)@,
                id,
                |p: PlayerSnapshotView| played(p, state, now),
            ),
    {
        match self.find_player(id) {
            Some(i) => {
                self.players[i].update_play_state(state, now);
                proof {
                    assert(self@.players =~= old(self)@.players.update(
                        i as int,
                        self.players@[i as int]@,
                    ));
                }
            },
            None => {},
        }
    }

    /// Takes a progress report of a player at the time `now`.
    pub fn update_now_playing_progress(&mut self, event: &PlayerNowPlayingProgress, now: u64)
        ensures
            final(self)@ == with_player(
                old(self)@,
                event.player_id,
                |p: PlayerSnapshotView| progressed(p, event.elapsed, event.duration, now),
            ),
    {
        match self.find_player(event.player_id) {
            Some(i) => {
                self.players[i].update_now_playing_progress(event, now);
                proof {
                    assert(self@.players =~= old(self)@.players.update(
                        i as int,
                        self.players@[i as int]@,
                    ));
                }
            },
            None => {},
        }
    }

    /// Takes the new volume and mute state of a player.
    pub fn update_player_volume(&mut self, id: PlayerId, level: Volume, mute: MuteState)
        ensures
            final(self)@ == with_player(
                old(self)@,
                id,
                |p: PlayerSnapshotView| PlayerSnapshotView { volume: level@, mute, ..p },
            ),
    {
        match self.find_player(id) {
            Some(i) => {
                self.players[i].volume = level;
                self.players[i].mute = mute;
                proof {
                    assert(self@.players =~= old(self)@.players.update(
                        i as int,
                        self.players@[i as int]@,
                    ));
                }
            },
            None => {},
        }
    }

    /// Takes the new repeat mode of a player.
    pub fn update_repeat(&mut self, id: PlayerId, repeat: RepeatMode)
        ensures
            final(self)@ == with_player(
                old(self)@,
                id,
                |p: PlayerSnapshotView| PlayerSnapshotView { repeat, ..p },
            ),
    {
        match self.find_player(id) {
            Some(i) => {
                self.players[i].repeat = repeat;
                proof {
                    assert(self@.players =~= old(self)@.players.update(
                        i as int,
                        self.players@[i as int]@,
                    ));
                }
            },
            None => {},
        }
    }

    /// Takes the new shuffle mode of a player.
    pub fn update_shuffle(&mut self, id: PlayerId, shuffle: ShuffleMode)
        ensures
            final(self)@ == with_player(
                old(self)@,
                id,
                |p: PlayerSnapshotView| PlayerSnapshotView { shuffle, ..p },
            ),
    {
        match self.find_player(id) {
            Some(i) => {
                self.players[i].shuffle = shuffle;
                proof {
                    assert(self@.players =~= old(self)@.players.update(
                        i as int,
                        self.players@[i as int]@,
                    ));
                }
            },
            None => {},
        }
    }

    /// Takes the new volume and mute state of a group.
    pub fn update_group_volume(&mut self, id: GroupId, level: Volume, mute: MuteState)
        ensures
            final(self)@ == with_group(
                old(self)@,
                id,
                |g: GroupSnapshotView| GroupSnapshotView { volume: level@, mute, ..g },
            ),
    {
        match self.find_group(id) {
            Some(i) => {
                self.groups[i].volume = level;
                self.groups[i].mute = mute;
                proof {
                    assert(self@.groups =~= old(self)@.groups.update(
                        i as int,
                        self.groups@[i as int]@,
                    ));
                }
            },
            None => {},
        }
    }

    /// Takes an event at the time `now`, and says what is left to do for
    /// it.
    pub fn handle_event(&mut self, event: &Event, now: u64) -> (step: Step)
        ensures
            (final(self)@, step@) == after_event(old(self)@, event@, now),
    {
        match event {
            Event::SourcesChanged => Step::Fetch(Refresh::Sources),
            Event::PlayersChanged => Step::Fetch(Refresh::Players),
            Event::GroupsChanged => Step::Fetch(Refresh::Groups),
            Event::PlayerStateChanged(e) => {
                self.update_play_state(e.player_id, e.state, now);
                Step::Publish
            },
            Event::PlayerNowPlayingChanged(e) => Step::Fetch(Refresh::NowPlaying(e.player_id)),
            Event::PlayerNowPlayingProgress(e) => {
                self.update_now_playing_progress(e, now);
                Step::Publish
            },
            Event::PlayerPlaybackError(e) => Step::Report(e.error.clone()),
            Event::PlayerQueueChanged(e) => Step::Fetch(Refresh::Queue(e.player_id)),
            Event::PlayerVolumeChanged(e) => {
                self.update_player_volume(e.player_id, e.level, e.mute);
                Step::Publish
            },
            Event::PlayerRepeatModeChanged(e) => {
                self.update_repeat(e.player_id, e.repeat);
                Step::Publish
            },
            Event::PlayerShuffleModeChanged(e) => {
                self.update_shuffle(e.player_id, e.shuffle);
                Step::Publish
            },
            Event::GroupVolumeChanged(e) => {
                self.update_group_volume(e.group_id, e.level, e.mute);
                Step::Publish
            },
            Event::UserChanged(e) => {
                self.account = e.account.clone();
                Step::Publish
            },
        }
    }
}

/// Event ordering. When the model says that an event can be passed on, a
/// reader of the model finds what the event tells: the new play state,
/// volume, mute state, repeat or shuffle mode of a player that the model
/// knows, the new volume and mute state of a group that it knows, or the
/// new account.
pub proof fn lemma_event_is_visible(s: StateView, e: EventView, now: u64)
    ensures
        ({
            let after = after_event(s, e, now).0;
            &&& e matches EventView::PlayerStateChanged(c) ==> (first_where(
                s.players,
                is_player(c.player_id),
            ) matches Some(i) ==> after.players[i].play_state == c.state)
            &&& e matches EventView::PlayerVolumeChanged { player_id, level, mute }
                ==> (first_where(s.players, is_player(player_id)) matches Some(i)
                ==> after.players[i].volume == level && after.players[i].mute == mute)
            &&& e matches EventView::PlayerRepeatModeChanged(c) ==> (first_where(
                s.players,
                is_player(c.player_id),
            ) matches Some(i) ==> after.players[i].repeat == c.repeat)
            &&& e matches EventView::PlayerShuffleModeChanged(c) ==> (first_where(
                s.players,
                is_player(c.player_id),
            ) matches Some(i) ==> after.players[i].shuffle == c.shuffle)
            &&& e matches EventView::PlayerNowPlayingProgress(c) ==> (first_where(
                s.players,
                is_player(c.player_id),
            ) matches Some(i) ==> after.players[i].now_playing.progress.elapsed == c.elapsed
                && after.players[i].now_playing.progress.duration == c.duration)
            &&& e matches EventView::GroupVolumeChanged { group_id, level, mute }
                ==> (first_where(s.groups, is_group(group_id)) matches Some(i)
                ==> after.groups[i].volume == level && after.groups[i].mute == mute)
            &&& e matches EventView::UserChanged(account) ==> after.account == account
            &&& after_event(s, e, now).1 is Fetch ==> after == s
        }),
{
    match e {
        EventView::PlayerStateChanged(c) => {
            lemma_first_where(s.players, is_player(c.player_id));
        },
        EventView::PlayerVolumeChanged { player_id, level, mute } => {
            lemma_first_where(s.players, is_player(player_id));
        },
        EventView::PlayerRepeatModeChanged(c) => {
            lemma_first_where(s.players, is_player(c.player_id));
        },
        EventView::PlayerShuffleModeChanged(c) => {
            lemma_first_where(s.players, is_player(c.player_id));
        },
        EventView::PlayerNowPlayingProgress(c) => {
            lemma_first_where(s.players, is_player(c.player_id));
        },
        EventView::GroupVolumeChanged { group_id, level, mute } => {
            lemma_first_where(s.groups, is_group(group_id));
        },
        _ => {},
    }
}

/// The model after a run of events that all come at the time `now`, and
/// what is left to do for each.
pub open spec fn after_events(s: StateView, events: Seq<EventView>, now: u64) -> (
    StateView,
    Seq<StepView>,
)
    decreases events.len(),
{
    if events.len() == 0 {
        (s, Seq::empty())
    } else {
        let (before, steps) = after_events(s, events.drop_last(), now);
        let (after, step) = after_event(before, events.last(), now);
        (after, steps.push(step))
    }
}

/// A burst of changes. However many events in a row say that the players
/// have changed, the model stays as it is, and there is one table to fetch
/// for each event and no more. (The table that comes back replaces the old
/// one as a whole: see `State::update_players`.)
pub proof fn lemma_burst_of_changes(s: StateView, events: Seq<EventView>, now: u64)
    requires
        forall|i: int| 0 <= i < events.len() ==> events[i] == EventView::PlayersChanged,
    ensures
        after_events(s, events, now).0 == s,
        after_events(s, events, now).1.len() == events.len(),
        forall|i: int|
            0 <= i < events.len() ==> #[trigger] after_events(s, events, now).1[i]
                == StepView::Fetch(Refresh::Players),
    decreases events.len(),
{
    if events.len() > 0 {
        let front = events.drop_last();
        assert forall|i: int| 0 <= i < front.len() implies front[i]
            == EventView::PlayersChanged by {
            assert(front[i] == events[i]);
        }
        lemma_burst_of_changes(s, front, now);
        assert(events.last() == events[events.len() - 1]);
    }
}

} // verus!
