//! Playables: what can be steered like a player, be it a player or a
//! group.

use vstd::prelude::*;
use vstd::string::*;
use crate::data::common::{MuteState, Volume};
use crate::data::group::{GroupId, GroupInfo, GroupInfoView};
use crate::data::player::{PlayState, PlayerId, PlayerInfo, PlayerInfoView, RepeatMode, ShuffleMode};
use crate::data::queue::{clone_tracks, QueuedTrackInfo, TrackView};
use crate::state::group::GroupSnapshotView;
use crate::state::model::{is_group, is_player, State, StateView};
use crate::state::player::{NowPlaying, NowPlayingView, PlayerSnapshotView};
use crate::text::{i64_to_string, int_text};
use crate::views::{first_where, views};

verus! {

/// The identifier of a playable.
#[derive(Clone, Copy, Debug, PartialEq, Eq, Hash, Structural)]
pub enum PlayableId {
    /// A player by itself.
    Player(PlayerId),
    /// A group.
    Group(GroupId),
}

impl PlayableId {
    /// The identifier as decimal text.
    pub fn to_string(&self) -> (s: String)
        ensures
            s@ == match self {
                PlayableId::Player(id) => int_text(id.0 as int),
                PlayableId::Group(id) => int_text(id.0 as int),
            },
    {
        match self {
            PlayableId::Player(id) => i64_to_string(id.0),
            PlayableId::Group(id) => i64_to_string(id.0),
        }
    }
}

/// The description of a playable.
#[derive(Debug)]
pub enum PlayableInfo {
    /// The description of a player.
    Player(PlayerInfo),
    /// The description of a group.
    Group(GroupInfo),
}

/// A `PlayableInfo` as plain values.
pub ghost enum PlayableInfoView {
    Player(PlayerInfoView),
    Group(GroupInfoView),
}

impl View for PlayableInfo {
    type V = PlayableInfoView;

    open spec fn view(&self) -> PlayableInfoView {
        match self {
            PlayableInfo::Player(info) => PlayableInfoView::Player(info@),
            PlayableInfo::Group(info) => PlayableInfoView::Group(info@),
        }
    }
}

/// Everything that is known of a playable at one moment.
#[derive(Debug)]
pub struct PlayableSnapshot {
    /// The identifier of the playable.
    pub id: PlayableId,
    /// Its description.
    pub info: PlayableInfo,
    /// What it plays.
    pub now_playing: NowPlaying,
    /// The tracks that come next.
    pub queue: Vec<QueuedTrackInfo>,
    /// Whether it plays.
    pub play_state: PlayState,
    /// The volume.
    pub volume: Volume,
    /// Whether it is muted.
    pub mute: MuteState,
    /// What is repeated.
    pub repeat: RepeatMode,
    /// Whether the queue is shuffled.
    pub shuffle: ShuffleMode,
}

/// A `PlayableSnapshot` as plain values.
pub ghost struct PlayableSnapshotView {
    pub id: PlayableId,
    pub info: PlayableInfoView,
    pub now_playing: NowPlayingView,
    pub queue: Seq<TrackView>,
    pub play_state: PlayState,
    pub volume: int,
    pub mute: MuteState,
    pub repeat: RepeatMode,
    pub shuffle: ShuffleMode,
}

impl View for PlayableSnapshot {
    type V = PlayableSnapshotView;

    open spec fn view(&self) -> PlayableSnapshotView {
        PlayableSnapshotView {
            id: self.id,
            info: self.info@,
            now_playing: self.now_playing@,
            queue: views(self.queue@),
            play_state: self.play_state,
            volume: self.volume@,
            mute: self.mute,
            repeat: self.repeat,
            shuffle: self.shuffle,
        }
    }
}

/// A playable: a player by itself, or a group with the player that leads
/// it.
#[derive(Clone, Copy, Debug, PartialEq, Eq, Structural)]
pub enum Playable {
    /// A player by itself.
    Player(PlayerId),
    /// A group.
    Group {
        /// The group.
        group_id: GroupId,
        /// The player that leads the group.
        leader_id: PlayerId,
    },
}

impl Playable {
    /// The identifier of the playable.
    pub open spec fn spec_id(self) -> PlayableId {
        match self {
            Playable::Player(id) => PlayableId::Player(id),
            Playable::Group { group_id, .. } => PlayableId::Group(group_id),
        }
    }

    /// The player that plays for the playable: the player itself, or the
    /// leader of the group.
    pub open spec fn spec_player_id(self) -> PlayerId {
        match self {
            Playable::Player(id) => id,
            Playable::Group { leader_id, .. } => leader_id,
        }
    }

    /// The identifier of the playable.
    pub fn id(&self) -> (r: PlayableId)
        ensures
            r == self.spec_id(),
    {
        match self {
            Playable::Player(id) => PlayableId::Player(*id),
            Playable::Group { group_id, .. } => PlayableId::Group(*group_id),
        }
    }

    /// The player that plays for the playable.
    pub fn player_id(&self) -> (r: PlayerId)
        ensures
            r == self.spec_player_id(),
    {
        match self {
            Playable::Player(id) => *id,
            Playable::Group { leader_id, .. } => *leader_id,
        }
    }

    /// Makes a playable of a group and the player that leads it.
    pub fn from_group(group_id: GroupId, leader_id: PlayerId) -> (r: Self)
        ensures
            r == (Playable::Group { group_id, leader_id }),
    {
        Playable::Group { group_id, leader_id }
    }
}

/// The playable that `id` names in a model: a player that the model knows,
/// or a group that it knows and whose leader it knows.
pub open spec fn playable_of(s: StateView, id: PlayableId) -> Option<Playable> {
    match id {
        PlayableId::Player(player_id) => match first_where(s.players, is_player(player_id)) {
            Some(i) => Some(Playable::Player(player_id)),
            None => None,
        },
        PlayableId::Group(group_id) => match first_where(s.groups, is_group(group_id)) {
            None => None,
            Some(g) => match first_where(s.players, is_player(s.groups[g].leader_id)) {
                Some(i) => Some(
                    Playable::Group { group_id, leader_id: s.groups[g].leader_id },
                ),
                None => None,
            },
        },
    }
}

/// What is known of a playable, where the model knows its player and, for
/// a group, the group. Playback, queue and play mode are those of the
/// player, for a group those of its leader; volume and mute are those of
/// the group where there is one.
pub open spec fn playable_snapshot(s: StateView, p: Playable) -> Option<PlayableSnapshotView> {
    match first_where(s.players, is_player(p.spec_player_id())) {
        None => None,
        Some(i) => {
            let player = s.players[i];
            match p {
                Playable::Player(id) => Some(
                    PlayableSnapshotView {
                        id: p.spec_id(),
                        info: PlayableInfoView::Player(player.info),
                        now_playing: player.now_playing,
                        queue: player.queue,
                        play_state: player.play_state,
                        volume: player.volume,
                        mute: player.mute,
                        repeat: player.repeat,
                        shuffle: player.shuffle,
                    },
                ),
                Playable::Group { group_id, leader_id } => match first_where(
                    s.groups,
                    is_group(group_id),
                ) {
                    None => None,
                    Some(g) => Some(
                        PlayableSnapshotView {
                            id: p.spec_id(),
                            info: PlayableInfoView::Group(s.groups[g].info),
                            now_playing: player.now_playing,
                            queue: player.queue,
                            play_state: player.play_state,
                            volume: s.groups[g].volume,
                            mute: s.groups[g].mute,
                            repeat: player.repeat,
                            shuffle: player.shuffle,
                        },
                    ),
                },
            }
        },
    }
}

/// The view of an optional snapshot.
pub open spec fn opt_snapshot(s: Option<PlayableSnapshot>) -> Option<PlayableSnapshotView> {
    match s {
        Some(v) => Some(v@),
        None => None,
    }
}

impl State {
    /// The playable that `id` names.
    pub fn playable(&self, id: PlayableId) -> (r: Option<Playable>)
        ensures
            r == playable_of(self@, id),
    {
        match id {
            PlayableId::Player(player_id) => match self.find_player(player_id) {
                Some(_) => Some(Playable::Player(player_id)),
                None => None,
            },
            PlayableId::Group(group_id) => match self.find_group(group_id) {
                None => None,
                Some(g) => {
                    let leader_id = self.groups[g].leader_id;
                    match self.find_player(leader_id) {
                        Some(_) => Some(Playable::Group { group_id, leader_id }),
                        None => None,
                    }
                },
            },
        }
    }

    /// What is known of a playable.
    pub fn playable_snapshot(&self, p: &Playable) -> (r: Option<PlayableSnapshot>)
        ensures
            opt_snapshot(r) == playable_snapshot(self@, *p),
    {
        let i = match self.find_player(p.player_id()) {
            Some(i) => i,
            None => return None,
        };
        let player = &self.players[i];
        match p {
            Playable::Player(_) => Some(
                PlayableSnapshot {
                    id: p.id(),
                    info: PlayableInfo::Player(player.info.clone()),
                    now_playing: player.now_playing.clone(),
                    queue: clone_tracks(&player.queue),
                    play_state: player.play_state,
                    volume: player.volume,
                    mute: player.mute,
                    repeat: player.repeat,
                    shuffle: player.shuffle,
                },
            ),
            Playable::Group { group_id, .. } => match self.find_group(*group_id) {
                None => None,
                Some(g) => Some(
                    PlayableSnapshot {
                        id: p.id(),
                        info: PlayableInfo::Group(self.groups[g].info.clone()),
                        now_playing: player.now_playing.clone(),
                        queue: clone_tracks(&player.queue),
                        play_state: player.play_state,
                        volume: self.groups[g].volume,
                        mute: self.groups[g].mute,
                        repeat: player.repeat,
                        shuffle: player.shuffle,
                    },
                ),
            },
        }
    }
}

/// The groups among `groups` whose leader the model knows, as playables,
/// in order.
pub open spec fn group_playables(s: StateView, groups: Seq<GroupSnapshotView>) -> Seq<Playable>
    decreases groups.len(),
{
    if groups.len() == 0 {
        Seq::empty()
    } else {
        let front = group_playables(s, groups.drop_last());
        let g = groups.last();
        if first_where(s.players, is_player(g.leader_id)) is Some {
            front.push(Playable::Group { group_id: g.info.group_id, leader_id: g.leader_id })
        } else {
            front
        }
    }
}

/// Whether the player `id` belongs to one of `groups` whose leader the
/// model knows.
pub open spec fn in_listed_group(
    s: StateView,
    groups: Seq<GroupSnapshotView>,
    id: PlayerId,
) -> bool {
    exists|g: int, k: int|
        0 <= g < groups.len() && 0 <= k < groups[g].info.players.len() && first_where(
            s.players,
            is_player(groups[g].leader_id),
        ) is Some && (#[trigger] groups[g].info.players[k]).player_id == id
}

/// The players among `players` that belong to no listed group, as
/// playables, in order.
pub open spec fn single_playables(s: StateView, players: Seq<PlayerSnapshotView>) -> Seq<Playable>
    decreases players.len(),
{
    if players.len() == 0 {
        Seq::empty()
    } else {
        let front = single_playables(s, players.drop_last());
        let id = players.last().info.player_id;
        if in_listed_group(s, s.groups, id) {
            front
        } else {
            front.push(Playable::Player(id))
        }
    }
}

/// All playables of a model: first the groups whose leader is known, then
/// the players that belong to none of them.
pub open spec fn playables_of(s: StateView) -> Seq<Playable> {
    group_playables(s, s.groups) + single_playables(s, s.players)
}

impl State {
    /// Whether the player `id` belongs to a group whose leader is known.
    pub fn is_grouped(&self, id: PlayerId) -> (r: bool)
        ensures
            r == in_listed_group(self@, self@.groups, id),
    {
        let mut g: usize = 0;
        while g < self.groups.len()
            invariant
                g <= self.groups.len(),
                !in_listed_group(self@, self@.groups.take(g as int), id),
            decreases self.groups.len() - g,
        {
            if self.find_player(self.groups[g].leader_id).is_some() {
                let members = &self.groups[g].info.players;
                let mut k: usize = 0;
                while k < members.len()
                    invariant
                        k <= members.len(),
                        g < self.groups.len(),
                        *members == self.groups@[g as int].info.players,
                        first_where(
                            self@.players,
                            is_player(self@.groups[g as int].leader_id),
                        ) is Some,
                        forall|j: int| 0 <= j < k ==> members@[j].player_id != id,
                    decreases members.len() - k,
                {
                    if members[k].player_id == id {
                        proof {
                            assert(self@.groups[g as int].info.players[k as int].player_id == id);
                        }
                        return true;
                    }
                    k += 1;
                }
            }
            proof {
                let before = self@.groups.take(g as int);
                let after = self@.groups.take(g + 1);
                if in_listed_group(self@, after, id) {
                    let (a, b) = choose|a: int, b: int|
                        0 <= a < after.len() && 0 <= b < after[a].info.players.len() && first_where(
                            self@.players,
                            is_player(after[a].leader_id),
                        ) is Some && (#[trigger] after[a].info.players[b]).player_id == id;
                    if a < g {
                        assert(before[a] == after[a]);
                        assert(before[a].info.players[b].player_id == id);
                    } else {
                        assert(after[a] == self@.groups[g as int]);
                        assert(self.groups@[g as int].info.players@[b]@.player_id == id);
                    }
                }
            }
            g += 1;
        }
        proof {
            assert(self@.groups.take(g as int) =~= self@.groups);
        }
        false
    }

    /// All playables.
    pub fn playables(&self) -> (r: Vec<Playable>)
        ensures
            r@ == playables_of(self@),
    {
        let mut r: Vec<Playable> = Vec::new();
        let mut g: usize = 0;
        assert(self@.groups.take(0) =~= Seq::empty());
        while g < self.groups.len()
            invariant
                g <= self.groups.len(),
                r@ == group_playables(self@, self@.groups.take(g as int)),
            decreases self.groups.len() - g,
        {
            proof {
                assert(self@.groups.take(g + 1).drop_last() =~= self@.groups.take(g as int));
            }
            let leader_id = self.groups[g].leader_id;
            if self.find_player(leader_id).is_some() {
                r.push(Playable::Group { group_id: self.groups[g].info.group_id, leader_id });
            }
            g += 1;
        }
        let ghost listed = r@;
        let mut i: usize = 0;
        proof {
            assert(self@.groups.take(g as int) =~= self@.groups);
            assert(self@.players.take(0) =~= Seq::empty());
            assert(r@ =~= listed + single_playables(self@, self@.players.take(0)));
        }
        while i < self.players.len()
            invariant
                i <= self.players.len(),
                listed == group_playables(self@, self@.groups),
                r@ == listed + single_playables(self@, self@.players.take(i as int)),
            decreases self.players.len() - i,
        {
            proof {
                assert(self@.players.take(i + 1).drop_last() =~= self@.players.take(i as int));
            }
            let id = self.players[i].info.player_id;
            if !self.is_grouped(id) {
                r.push(Playable::Player(id));
                proof {
                    assert(r@ =~= listed + single_playables(self@, self@.players.take(i + 1)));
                }
            }
            i += 1;
        }
        proof {
            assert(self@.players.take(i as int) =~= self@.players);
        }
        r
    }
}

} // verus!
