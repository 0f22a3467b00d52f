//! Steering: the commands that players, groups, queues and playables
//! send, and what the controls of a front end ask for.

use vstd::prelude::*;
use vstd::string::*;
use crate::command::browse::{AddToQueue, PlayInputSource, PlayPreset, PlayStation, PlayUrl};
use crate::command::error::{CommandError, CommandErrorView};
use crate::command::group::{
    GroupVolumeDown,
    GroupVolumeUp,
    SetGroup,
    SetGroupMute,
    SetGroupVolume,
    ToggleGroupMute,
};
use crate::command::player::{
    ClearQueue,
    PlayNext,
    PlayPrevious,
    PlayQueueItem,
    RemoveFromQueue,
    SaveQueue,
    SetMute,
    SetPlayMode,
    SetPlayState,
    SetVolume,
    ToggleMute,
    VolumeDown,
    VolumeUp,
};
use crate::command::raw::RawCommand;
use crate::command::typed::Command;
use crate::data::common::{MuteState, Volume, VolumeStep};
use crate::data::group::{GroupPlayerView, GroupRole};
use crate::data::player::{AddToQueueType, PlayState, PlayerId, RepeatMode, ShuffleMode};
use crate::data::queue::{QueueId, QueuedTrackInfo};
use crate::data::source::SourceId;
use crate::state::group::{GroupSnapshot, GroupSnapshotView};
use crate::state::playable::{Playable, PlayableSnapshot};
use crate::state::player::PlayerSnapshot;
use crate::text::opt_text;
use crate::views::views;

verus! {

impl PlayerSnapshot {
    /// The command that makes the player play, pause or stop.
    pub fn set_play_state(&self, state: PlayState) -> (c: SetPlayState)
        ensures
            c.player_id == self.info.player_id,
            c.state == state,
    {
        SetPlayState { player_id: self.info.player_id, state }
    }

    /// The command that sets the volume of the player.
    pub fn set_volume(&self, level: Volume) -> (c: SetVolume)
        ensures
            c.player_id == self.info.player_id,
            c.level == level,
    {
        SetVolume { player_id: self.info.player_id, level }
    }

    /// The command that raises the volume of the player.
    pub fn volume_up(&self, step: Option<VolumeStep>) -> (c: VolumeUp)
        ensures
            c.player_id == self.info.player_id,
            c.step == step,
    {
        VolumeUp { player_id: self.info.player_id, step }
    }

    /// The command that lowers the volume of the player.
    pub fn volume_down(&self, step: Option<VolumeStep>) -> (c: VolumeDown)
        ensures
            c.player_id == self.info.player_id,
            c.step == step,
    {
        VolumeDown { player_id: self.info.player_id, step }
    }

    /// The command that mutes the player or ends its mute.
    pub fn set_mute(&self, state: MuteState) -> (c: SetMute)
        ensures
            c.player_id == self.info.player_id,
            c.state == state,
    {
        SetMute { player_id: self.info.player_id, state }
    }

    /// The command that turns the mute of the player around.
    pub fn toggle_mute(&self) -> (c: ToggleMute)
        ensures
            c.player_id == self.info.player_id,
    {
        ToggleMute { player_id: self.info.player_id }
    }

    /// The command that sets the repeat mode, the shuffle mode or both.
    pub fn set_play_mode(
        &self,
        repeat: Option<RepeatMode>,
        shuffle: Option<ShuffleMode>,
    ) -> (c: SetPlayMode)
        ensures
            c.player_id == self.info.player_id,
            c.repeat == repeat,
            c.shuffle == shuffle,
    {
        SetPlayMode { player_id: self.info.player_id, repeat, shuffle }
    }

    /// The command that plays the next track of the queue.
    pub fn play_next(&self) -> (c: PlayNext)
        ensures
            c.player_id == self.info.player_id,
    {
        PlayNext { player_id: self.info.player_id }
    }

    /// The command that plays the track that played before.
    pub fn play_previous(&self) -> (c: PlayPrevious)
        ensures
            c.player_id == self.info.player_id,
    {
        PlayPrevious { player_id: self.info.player_id }
    }

    /// The command that plays a station on the player.
    pub fn play_station(
        &self,
        source_id: SourceId,
        container_id: Option<String>,
        media_id: &str,
        name: &str,
    ) -> (c: PlayStation)
        ensures
            c.player_id == self.info.player_id,
            c.source_id == source_id,
            opt_text(c.container_id) == opt_text(container_id),
            c.media_id@ == media_id@,
            c.name@ == name@,
    {
        PlayStation {
            player_id: self.info.player_id,
            source_id,
            container_id,
            media_id: String::from_str(media_id),
            name: String::from_str(name),
        }
    }

    /// The command that plays a favourite on the player.
    pub fn play_preset(&self, preset: usize) -> (c: PlayPreset)
        ensures
            c.player_id == self.info.player_id,
            c.preset == preset,
    {
        PlayPreset { player_id: self.info.player_id, preset }
    }

    /// The command that plays an input on the player.
    pub fn play_input_source(
        &self,
        src_player_id: Option<PlayerId>,
        input: &str,
    ) -> (c: PlayInputSource)
        ensures
            c.player_id == self.info.player_id,
            c.src_player_id == src_player_id,
            c.input@ == input@,
    {
        PlayInputSource {
            player_id: self.info.player_id,
            src_player_id,
            input: String::from_str(input),
        }
    }

    /// The command that plays a stream from an address on the player.
    pub fn play_url(&self, url: &str) -> (c: PlayUrl)
        ensures
            c.player_id == self.info.player_id,
            c.url@ == url@,
    {
        PlayUrl { player_id: self.info.player_id, url: String::from_str(url) }
    }

    /// The command that adds media to the queue of the player.
    pub fn add_to_queue(
        &self,
        source_id: SourceId,
        container_id: Option<String>,
        media_id: &str,
        add_to_queue_type: AddToQueueType,
    ) -> (c: AddToQueue)
        ensures
            c.player_id == self.info.player_id,
            c.source_id == source_id,
            opt_text(c.container_id) == opt_text(container_id),
            c.media_id@ == media_id@,
            c.add_to_queue_type == add_to_queue_type,
    {
        AddToQueue {
            player_id: self.info.player_id,
            source_id,
            container_id,
            media_id: String::from_str(media_id),
            add_to_queue_type,
        }
    }

    /// The command that saves the queue of the player as a playlist.
    pub fn save_queue(&self, name: &str) -> (c: SaveQueue)
        ensures
            c.player_id == self.info.player_id,
            c.name@ == name@,
    {
        SaveQueue { player_id: self.info.player_id, name: String::from_str(name) }
    }

    /// The command that empties the queue of the player.
    pub fn clear_queue(&self) -> (c: ClearQueue)
        ensures
            c.player_id == self.info.player_id,
    {
        ClearQueue { player_id: self.info.player_id }
    }

    /// The command that plays the track at the position `idx` of the queue,
    /// counted from 0: it names the place that the track has. An error for
    /// a position outside the queue.
    pub fn play_queue_item(&self, idx: usize) -> (r: Result<PlayQueueItem, CommandError>)
        ensures
            match r {
                Ok(c) => idx < self.queue.len() && c.player_id == self.info.player_id && c.queue_id
                    == self.queue@[idx as int].queue_id,
                Err(e) => idx >= self.queue.len() && e@ == CommandErrorView::ParamOutOfRange,
            },
    {
        if idx < self.queue.len() {
            Ok(PlayQueueItem { player_id: self.info.player_id, queue_id: self.queue[idx].queue_id })
        } else {
            Err(CommandError::ParamOutOfRange)
        }
    }

    /// The command that takes the track at the position `idx` out of the
    /// queue, counted from 0. An error for a position outside the queue.
    pub fn remove_from_queue(&self, idx: usize) -> (r: Result<RemoveFromQueue, CommandError>)
        ensures
            match r {
                Ok(c) => idx < self.queue.len() && c.player_id == self.info.player_id
                    && c.queue_ids@ == seq![self.queue@[idx as int].queue_id],
                Err(e) => idx >= self.queue.len() && e@ == CommandErrorView::ParamOutOfRange,
            },
    {
        if idx < self.queue.len() {
            let mut queue_ids: Vec<QueueId> = Vec::new();
            queue_ids.push(self.queue[idx].queue_id);
            Ok(RemoveFromQueue { player_id: self.info.player_id, queue_ids })
        } else {
            Err(CommandError::ParamOutOfRange)
        }
    }
}

impl GroupSnapshot {
    /// The command that sets the volume of the group.
    pub fn set_volume(&self, level: Volume) -> (c: SetGroupVolume)
        ensures
            c.group_id == self.info.group_id,
            c.level == level,
    {
        SetGroupVolume { group_id: self.info.group_id, level }
    }

    /// The command that raises the volume of the group.
    pub fn volume_up(&self, step: Option<VolumeStep>) -> (c: GroupVolumeUp)
        ensures
            c.group_id == self.info.group_id,
            c.step == step,
    {
        GroupVolumeUp { group_id: self.info.group_id, step }
    }

    /// The command that lowers the volume of the group.
    pub fn volume_down(&self, step: Option<VolumeStep>) -> (c: GroupVolumeDown)
        ensures
            c.group_id == self.info.group_id,
            c.step == step,
    {
        GroupVolumeDown { group_id: self.info.group_id, step }
    }

    /// The command that mutes the group or ends its mute.
    pub fn set_mute(&self, state: MuteState) -> (c: SetGroupMute)
        ensures
            c.group_id == self.info.group_id,
            c.state == state,
    {
        SetGroupMute { group_id: self.info.group_id, state }
    }

    /// The command that turns the mute of the group around.
    pub fn toggle_mute(&self) -> (c: ToggleGroupMute)
        ensures
            c.group_id == self.info.group_id,
    {
        ToggleGroupMute { group_id: self.info.group_id }
    }
}

impl Playable {
    /// The command that makes the playable play, pause or stop: it goes to the
    /// player, for a group to its leader.
    pub fn set_play_state(&self, state: PlayState) -> (c: SetPlayState)
        ensures
            c.player_id == self.spec_player_id(),
            c.state == state,
    {
        SetPlayState { player_id: self.player_id(), state }
    }

    /// The command that sets the repeat mode, the shuffle mode or both: it goes to
    /// the player, for a group to its leader.
    pub fn set_play_mode(
        &self,
        repeat: Option<RepeatMode>,
        shuffle: Option<ShuffleMode>,
    ) -> (c: SetPlayMode)
        ensures
            c.player_id == self.spec_player_id(),
            c.repeat == repeat,
            c.shuffle == shuffle,
    {
        SetPlayMode { player_id: self.player_id(), repeat, shuffle }
    }

    /// The command that plays the next track of the queue: it goes to the player,
    /// for a group to its leader.
    pub fn play_next(&self) -> (c: PlayNext)
        ensures
            c.player_id == self.spec_player_id(),
    {
        PlayNext { player_id: self.player_id() }
    }

    /// The command that plays the track that played before: it goes to the player,
    /// for a group to its leader.
    pub fn play_previous(&self) -> (c: PlayPrevious)
        ensures
            c.player_id == self.spec_player_id(),
    {
        PlayPrevious { player_id: self.player_id() }
    }

    /// The command that plays a station on the playable: it goes to the player, for
    /// a group to its leader.
    pub fn play_station(
        &self,
        source_id: SourceId,
        container_id: Option<String>,
        media_id: &str,
        name: &str,
    ) -> (c: PlayStation)
        ensures
            c.player_id == self.spec_player_id(),
            c.source_id == source_id,
            opt_text(c.container_id) == opt_text(container_id),
            c.media_id@ == media_id@,
            c.name@ == name@,
    {
        PlayStation {
            player_id: self.player_id(),
            source_id,
            container_id,
            media_id: String::from_str(media_id),
            name: String::from_str(name),
        }
    }

    /// The command that plays a favourite on the playable: it goes to the player,
    /// for a group to its leader.
    pub fn play_preset(&self, preset: usize) -> (c: PlayPreset)
        ensures
            c.player_id == self.spec_player_id(),
            c.preset == preset,
    {
        PlayPreset { player_id: self.player_id(), preset }
    }

    /// The command that plays an input on the playable: it goes to the player, for
    /// a group to its leader.
    pub fn play_input_source(
        &self,
        src_player_id: Option<PlayerId>,
        input: &str,
    ) -> (c: PlayInputSource)
        ensures
            c.player_id == self.spec_player_id(),
            c.src_player_id == src_player_id,
            c.input@ == input@,
    {
        PlayInputSource {
            player_id: self.player_id(),
            src_player_id,
            input: String::from_str(input),
        }
    }

    /// The command that plays a stream from an address on the playable: it goes to
    /// the player, for a group to its leader.
    pub fn play_url(&self, url: &str) -> (c: PlayUrl)
        ensures
            c.player_id == self.spec_player_id(),
            c.url@ == url@,
    {
        PlayUrl { player_id: self.player_id(), url: String::from_str(url) }
    }

    /// The command that adds media to the queue of the playable: it goes to the
    /// player, for a group to its leader.
    pub fn add_to_queue(
        &self,
        source_id: SourceId,
        container_id: Option<String>,
        media_id: &str,
        add_to_queue_type: AddToQueueType,
    ) -> (c: AddToQueue)
        ensures
            c.player_id == self.spec_player_id(),
            c.source_id == source_id,
            opt_text(c.container_id) == opt_text(container_id),
            c.media_id@ == media_id@,
            c.add_to_queue_type == add_to_queue_type,
    {
        AddToQueue {
            player_id: self.player_id(),
            source_id,
            container_id,
            media_id: String::from_str(media_id),
            add_to_queue_type,
        }
    }

    /// The command that sets the volume of the playable: it goes to the group
    /// where there is one, else to the player.
    pub fn set_volume(&self, level: Volume) -> (c: RawCommand)
        ensures
            c.wf(),
            c@ == match *self {
                Playable::Player(player_id) => (SetVolume { player_id, level }).raw(),
                Playable::Group { group_id, .. } => (SetGroupVolume { group_id, level }).raw(),
            },
    {
        match *self {
            Playable::Player(player_id) => (SetVolume { player_id, level }).to_raw(),
            Playable::Group { group_id, .. } => (SetGroupVolume { group_id, level }).to_raw(),
        }
    }

    /// The command that raises the volume of the playable: it goes to the group
    /// where there is one, else to the player.
    pub fn volume_up(&self, step: Option<VolumeStep>) -> (c: RawCommand)
        ensures
            c.wf(),
            c@ == match *self {
                Playable::Player(player_id) => (VolumeUp { player_id, step }).raw(),
                Playable::Group { group_id, .. } => (GroupVolumeUp { group_id, step }).raw(),
            },
    {
        match *self {
            Playable::Player(player_id) => (VolumeUp { player_id, step }).to_raw(),
            Playable::Group { group_id, .. } => (GroupVolumeUp { group_id, step }).to_raw(),
        }
    }

    /// The command that lowers the volume of the playable: it goes to the group
    /// where there is one, else to the player.
    pub fn volume_down(&self, step: Option<VolumeStep>) -> (c: RawCommand)
        ensures
            c.wf(),
            c@ == match *self {
                Playable::Player(player_id) => (VolumeDown { player_id, step }).raw(),
                Playable::Group { group_id, .. } => (GroupVolumeDown { group_id, step }).raw(),
            },
    {
        match *self {
            Playable::Player(player_id) => (VolumeDown { player_id, step }).to_raw(),
            Playable::Group { group_id, .. } => (GroupVolumeDown { group_id, step }).to_raw(),
        }
    }

    /// The command that sets the mute state of the playable: it goes to the group
    /// where there is one, else to the player.
    pub fn set_mute(&self, state: MuteState) -> (c: RawCommand)
        ensures
            c.wf(),
            c@ == match *self {
                Playable::Player(player_id) => (SetMute { player_id, state }).raw(),
                Playable::Group { group_id, .. } => (SetGroupMute { group_id, state }).raw(),
            },
    {
        match *self {
            Playable::Player(player_id) => (SetMute { player_id, state }).to_raw(),
            Playable::Group { group_id, .. } => (SetGroupMute { group_id, state }).to_raw(),
        }
    }

    /// The command that turns the mute around of the playable: it goes to the group
    /// where there is one, else to the player.
    pub fn toggle_mute(&self) -> (c: RawCommand)
        ensures
            c.wf(),
            c@ == match *self {
                Playable::Player(player_id) => (ToggleMute { player_id }).raw(),
                Playable::Group { group_id, .. } => (ToggleGroupMute { group_id }).raw(),
            },
    {
        match *self {
            Playable::Player(player_id) => (ToggleMute { player_id }).to_raw(),
            Playable::Group { group_id, .. } => (ToggleGroupMute { group_id }).to_raw(),
        }
    }

}


/// The controls of a front end.
#[derive(Clone, Copy, Debug, PartialEq, Eq, Structural)]
pub enum ControlButton {
    /// Play where the playable rests, pause where it plays.
    PlayPause,
    /// The next track.
    Next,
    /// The track before.
    Prev,
    /// Shuffle on or off.
    Shuffle,
    /// The next repeat mode.
    Repeat,
}

/// What a control asks of a playable.
#[derive(Clone, Copy, Debug)]
pub enum MediaControl {
    /// To change the play state.
    PlayState(SetPlayState),
    /// To play the next track.
    Next(PlayNext),
    /// To play the track before.
    Previous(PlayPrevious),
    /// To change the play mode.
    PlayMode(SetPlayMode),
}

/// The play state that the play-pause control asks for: pause for a
/// playable that plays, play for one that rests.
pub open spec fn play_pause(state: PlayState) -> PlayState {
    match state {
        PlayState::Play => PlayState::Pause,
        _ => PlayState::Play,
    }
}

/// The repeat mode that follows: off, one, all, and off again.
pub open spec fn next_repeat(mode: RepeatMode) -> RepeatMode {
    match mode {
        RepeatMode::Off => RepeatMode::One,
        RepeatMode::One => RepeatMode::All,
        RepeatMode::All => RepeatMode::Off,
    }
}

/// The other shuffle mode.
pub open spec fn other_shuffle(mode: ShuffleMode) -> ShuffleMode {
    match mode {
        ShuffleMode::Off => ShuffleMode::On,
        ShuffleMode::On => ShuffleMode::Off,
    }
}

impl Playable {
    /// What the control `button` asks of the playable, given what is known
    /// of it.
    pub fn media_control(
        &self,
        snapshot: &PlayableSnapshot,
        button: ControlButton,
    ) -> (r: MediaControl)
        ensures
            match button {
                ControlButton::PlayPause => r matches MediaControl::PlayState(c) && c.player_id
                    == self.spec_player_id() && c.state == play_pause(snapshot.play_state),
                ControlButton::Next => r matches MediaControl::Next(c) && c.player_id
                    == self.spec_player_id(),
                ControlButton::Prev => r matches MediaControl::Previous(c) && c.player_id
                    == self.spec_player_id(),
                ControlButton::Repeat => r matches MediaControl::PlayMode(c) && c.player_id
                    == self.spec_player_id() && c.repeat == Some(next_repeat(snapshot.repeat))
                    && c.shuffle is None,
                ControlButton::Shuffle => r matches MediaControl::PlayMode(c) && c.player_id
                    == self.spec_player_id() && c.repeat is None && c.shuffle == Some(
                    other_shuffle(snapshot.shuffle),
                ),
            },
    {
        match button {
            ControlButton::PlayPause => MediaControl::PlayState(
                self.set_play_state(
                    match snapshot.play_state {
                        PlayState::Play => PlayState::Pause,
                        _ => PlayState::Play,
                    },
                ),
            ),
            ControlButton::Next => MediaControl::Next(self.play_next()),
            ControlButton::Prev => MediaControl::Previous(self.play_previous()),
            ControlButton::Repeat => MediaControl::PlayMode(
                self.set_play_mode(
                    Some(
                        match snapshot.repeat {
                            RepeatMode::Off => RepeatMode::One,
                            RepeatMode::One => RepeatMode::All,
                            RepeatMode::All => RepeatMode::Off,
                        },
                    ),
                    None,
                ),
            ),
            ControlButton::Shuffle => MediaControl::PlayMode(
                self.set_play_mode(
                    None,
                    Some(
                        match snapshot.shuffle {
                            ShuffleMode::Off => ShuffleMode::On,
                            ShuffleMode::On => ShuffleMode::Off,
                        },
                    ),
                ),
            ),
        }
    }
}

/// The players of a group but its leaders and the player `without`, in
/// order.
pub open spec fn other_members(players: Seq<GroupPlayerView>, without: PlayerId) -> Seq<PlayerId>
    decreases players.len(),
{
    if players.len() == 0 {
        Seq::empty()
    } else {
        let front = other_members(players.drop_last(), without);
        let last = players.last();
        if last.role != GroupRole::Leader && last.player_id != without {
            front.push(last.player_id)
        } else {
            front
        }
    }
}

/// Where the player `id` stands among the players of a group.
pub open spec fn is_member(id: PlayerId) -> spec_fn(GroupPlayerView) -> bool {
    |p: GroupPlayerView| p.player_id == id
}

/// The players to regroup once `player` has left `group`, the leader
/// first: nothing where the player is no player of the group; for a member,
/// the leader and the other members; for the leader, the other members
/// alone, where there is more than one of them, so that the first of them
/// leads what is left.
pub open spec fn regrouped(group: GroupSnapshotView, player: PlayerId) -> Option<Seq<PlayerId>> {
    match crate::views::first_where(group.info.players, is_member(player)) {
        None => None,
        Some(k) => if group.info.players[k].role == GroupRole::Leader {
            let rest = other_members(group.info.players, player);
            if rest.len() > 1 {
                Some(rest)
            } else {
                None
            }
        } else {
            Some(seq![group.leader_id] + other_members(group.info.players, player))
        },
    }
}

/// Whether a group has to be dissolved before `player` can leave it: where
/// the player leads it.
pub open spec fn dissolved(group: GroupSnapshotView, player: PlayerId) -> bool {
    match crate::views::first_where(group.info.players, is_member(player)) {
        Some(k) => group.info.players[k].role == GroupRole::Leader,
        None => false,
    }
}

/// The lists of players that a run of group commands names.
pub open spec fn player_lists(commands: Seq<SetGroup>) -> Seq<Seq<PlayerId>> {
    commands.map_values(|c: SetGroup| c.player_ids@)
}

/// The lists of players to set, one after the other, so that `player`
/// leaves `group`: where the player leads the group, it alone, which
/// dissolves the group; then what is to be regrouped, if anything.
pub open spec fn group_removal(group: GroupSnapshotView, player: PlayerId) -> Seq<Seq<PlayerId>> {
    (if dissolved(group, player) {
        seq![seq![player]]
    } else {
        Seq::empty()
    }) + (match regrouped(group, player) {
        Some(ids) => seq![ids],
        None => Seq::empty(),
    })
}

/// The lists of players to set, one after the other, so that `player`
/// leaves every group of `groups`.
pub open spec fn removal(groups: Seq<GroupSnapshotView>, player: PlayerId) -> Seq<Seq<PlayerId>>
    decreases groups.len(),
{
    if groups.len() == 0 {
        Seq::empty()
    } else {
        removal(groups.drop_last(), player) + group_removal(groups.last(), player)
    }
}

impl crate::state::model::State {
    /// The commands that take `player` out of every group that it is in,
    /// in the order in which to send them.
    pub fn remove_from_any_group(&self, player: PlayerId) -> (r: Vec<SetGroup>)
        ensures
            player_lists(r@) == removal(self@.groups, player),
    {
        let mut r: Vec<SetGroup> = Vec::new();
        let mut g: usize = 0;
        assert(self@.groups.take(0) =~= Seq::empty());
        assert(player_lists(r@) =~= Seq::empty());
        while g < self.groups.len()
            invariant
                g <= self.groups.len(),
                player_lists(r@) == removal(self@.groups.take(g as int), player),
            decreases self.groups.len() - g,
        {
            let ghost before = r@;
            let mut more = self.groups[g].remove_player(player);
            proof {
                assert(self@.groups.take(g + 1).drop_last() =~= self@.groups.take(g as int));
                assert(player_lists(before + more@) =~= player_lists(before) + player_lists(more@));
            }
            r.append(&mut more);
            g += 1;
        }
        assert(self@.groups.take(g as int) =~= self@.groups);
        r
    }

    /// The command that adds the player `new_player` to the playable
    /// `target`: for a group, see `GroupSnapshot::add_player`; for a
    /// player, the command that makes a group of it and the new player,
    /// which it leads. Nothing for a group that the model does not know.
    pub fn add_to_group(&self, target: &Playable, new_player: PlayerId) -> (r: Option<SetGroup>)
        ensures
            match *target {
                Playable::Player(id) => r matches Some(c) && c.player_ids@ == seq![id, new_player],
                Playable::Group { group_id, .. } => match crate::views::first_where(
                    self@.groups,
                    crate::state::model::is_group(group_id),
                ) {
                    None => r is None,
                    Some(g) => match r {
                        None => crate::views::first_where(
                            self@.groups[g].info.players,
                            is_member(new_player),
                        ) is Some,
                        Some(c) => crate::views::first_where(
                            self@.groups[g].info.players,
                            is_member(new_player),
                        ) is None && c.player_ids@ == (seq![self@.groups[g].leader_id]
                            + other_members(self@.groups[g].info.players, new_player)).push(
                            new_player,
                        ),
                    },
                },
            },
    {
        match *target {
            Playable::Player(id) => {
                let mut ids: Vec<PlayerId> = Vec::new();
                ids.push(id);
                ids.push(new_player);
                Some(SetGroup { player_ids: ids })
            },
            Playable::Group { group_id, .. } => match self.find_group(group_id) {
                None => None,
                Some(g) => self.groups[g].add_player(new_player),
            },
        }
    }
}

impl GroupSnapshot {
    /// The players of the group but its leaders and the player `without`.
    pub fn other_members(&self, without: PlayerId) -> (r: Vec<PlayerId>)
        ensures
            r@ == other_members(self@.info.players, without),
    {
        let mut r: Vec<PlayerId> = Vec::new();
        let mut i: usize = 0;
        let ghost all = self@.info.players;
        assert(all.take(0) =~= Seq::empty());
        while i < self.info.players.len()
            invariant
                i <= self.info.players.len(),
                all == self@.info.players,
                r@ == other_members(all.take(i as int), without),
            decreases self.info.players.len() - i,
        {
            proof {
                assert(all.take(i + 1).drop_last() =~= all.take(i as int));
                assert(all.take(i + 1).last() == self.info.players@[i as int]@);
            }
            let p = &self.info.players[i];
            if p.role != GroupRole::Leader && p.player_id != without {
                r.push(p.player_id);
            }
            i += 1;
        }
        assert(all.take(i as int) =~= all);
        r
    }

    /// The role that the player `id` has in the group, if it is one of its
    /// players.
    pub fn role_of(&self, id: PlayerId) -> (r: Option<GroupRole>)
        ensures
            r == match crate::views::first_where(self@.info.players, is_member(id)) {
                Some(k) => Some(self@.info.players[k].role),
                None => None,
            },
    {
        let mut i: usize = 0;
        while i < self.info.players.len()
            invariant
                i <= self.info.players.len(),
                forall|j: int| 0 <= j < i ==> !is_member(id)(self@.info.players[j]),
            decreases self.info.players.len() - i,
        {
            if self.info.players[i].player_id == id {
                proof {
                    crate::views::lemma_first_where_at(self@.info.players, is_member(id), i as int);
                }
                return Some(self.info.players[i].role);
            }
            i += 1;
        }
        proof {
            crate::views::lemma_first_where_at(self@.info.players, is_member(id), i as int);
        }
        None
    }

    /// The commands that take `player` out of the group, in the order in
    /// which to send them: for the leader, first the one that dissolves
    /// the group, then the one that groups what is left; for a member, the
    /// one that sets the group without it.
    pub fn remove_player(&self, player: PlayerId) -> (r: Vec<SetGroup>)
        ensures
            player_lists(r@) == group_removal(self@, player),
    {
        let mut r: Vec<SetGroup> = Vec::new();
        match self.role_of(player) {
            None => {},
            Some(GroupRole::Leader) => {
                let rest = self.other_members(player);
                let mut alone: Vec<PlayerId> = Vec::new();
                alone.push(player);
                r.push(SetGroup { player_ids: alone });
                if rest.len() > 1 {
                    r.push(SetGroup { player_ids: rest });
                }
            },
            Some(GroupRole::Member) => {
                let mut ids: Vec<PlayerId> = Vec::new();
                ids.push(self.leader_id);
                let mut rest = self.other_members(player);
                ids.append(&mut rest);
                r.push(SetGroup { player_ids: ids });
            },
        }
        assert(player_lists(r@) =~= group_removal(self@, player));
        r
    }

    /// The command that adds `player` to the group: it sets the group to
    /// its leader, its members and the new player. Nothing for a player
    /// that is in the group already.
    pub fn add_player(&self, player: PlayerId) -> (r: Option<SetGroup>)
        ensures
            match r {
                None => crate::views::first_where(self@.info.players, is_member(player)) is Some,
                Some(c) => crate::views::first_where(self@.info.players, is_member(player)) is None
                    && c.player_ids@ == (seq![self.leader_id] + other_members(
                    self@.info.players,
                    player,
                )).push(player),
            },
    {
        match self.role_of(player) {
            Some(_) => None,
            None => {
                let mut ids: Vec<PlayerId> = Vec::new();
                ids.push(self.leader_id);
                let mut rest = self.other_members(player);
                ids.append(&mut rest);
                ids.push(player);
                Some(SetGroup { player_ids: ids })
            },
        }
    }
}

/// The places to name when the track at the position `from` of a queue is
/// dragged to the position `to`: the place of the track, and the
/// destination. For a track dragged downwards the destination is the
/// place before that of the track at `to`; for a track dragged behind the
/// last track it is the length of the queue.
pub open spec fn drag_places(queue: Seq<QueueId>, from: int, to: int) -> (QueueId, QueueId) {
    (
        queue[from],
        if to < queue.len() {
            if to > from {
                QueueId((queue[to].0 - 1) as u64)
            } else {
                queue[to]
            }
        } else {
            QueueId(queue.len() as u64)
        },
    )
}

/// The places to name when the track at the position `from` of `queue` is
/// dragged to the position `to`. `None` where `from` is no position of the
/// queue, or where the track at `to` has the place 0 and so no place
/// before it.
pub fn drag_target(queue: &Vec<QueuedTrackInfo>, from: usize, to: usize) -> (r: Option<
    (QueueId, QueueId),
>)
    ensures
        match r {
            Some(places) => from < queue.len() && places == drag_places(
                views(queue@).map_values(|t: crate::data::queue::TrackView| t.queue_id),
                from as int,
                to as int,
            ),
            None => from >= queue.len() || (from < to < queue.len() && queue@[to as int].queue_id.0
                == 0),
        },
{
    if from >= queue.len() {
        return None;
    }
    let source = queue[from].queue_id;
    let target = if to < queue.len() {
        if to > from {
            queue[to].queue_id.0.checked_sub(1)
        } else {
            Some(queue[to].queue_id.0)
        }
    } else {
        Some(queue.len() as u64)
    };
    match target {
        Some(place) => Some((source, QueueId(place))),
        None => None,
    }
}

} // verus!
