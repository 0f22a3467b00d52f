//! What the group commands do to a mock system.

use vstd::prelude::*;
use vstd::string::*;
use crate::command::raw::{RawCommand, RawCommandView};
use crate::data::codec::{group_info_json, group_info_list_json, group_info_list_to_json};
use crate::data::common::{MuteState, Volume};
use crate::data::group::{
    leader_count,
    GroupId,
    GroupInfo,
    GroupInfoView,
    GroupPlayer,
    GroupPlayerView,
    GroupRole,
};
use crate::data::player::PlayerId;
use crate::data::response::{RawResponse, RawResponseView};
use crate::mock::args::{
    list_arg,
    parse_command_argument,
    parse_command_argument_list,
    typed_arg,
};
use crate::mock::player::{lowered, parse_step, raised, step_of, toggled};
use crate::mock::reply::{
    invalid_id,
    invalid_id_error,
    payload_success,
    plain_success,
    success,
    success_response,
    value_success,
};
use crate::mock::system::{
    first_leader,
    group_index,
    is_leader,
    led_group_index,
    player_index,
    MockGroup,
    MockHeosSystem,
    MockPlayerView,
    MockView,
};
use crate::state::group::{GroupSnapshot, GroupSnapshotView};
use crate::text::int_text;
use crate::views::{
    lemma_first_where,
    lemma_first_where_at,
    lemma_views_push,
    lemma_views_remove,
    lemma_views_take_next,
    lemma_views_update,
    views,
};

verus! {

/// The group that a command names with its `gid`: where it stands, or the
/// reply for a `gid` that is missing, unreadable or unknown.
pub open spec fn group_for(s: MockView, c: RawCommandView) -> Result<int, RawResponseView> {
    match typed_arg::<GroupId>(c, "gid"@) {
        Err(r) => Err(r),
        Ok(id) => match group_index(s.groups, id) {
            Some(i) => Ok(i),
            None => Err(invalid_id(c, "gid"@, int_text(id.0 as int))),
        },
    }
}

/// The system with the group at `i` replaced.
pub open spec fn with_group_at(s: MockView, i: int, group: GroupSnapshotView) -> MockView {
    MockView { groups: s.groups.update(i, group), ..s }
}

/// The descriptions of all groups, in the order of the table.
pub open spec fn group_infos(groups: Seq<GroupSnapshotView>) -> Seq<GroupInfoView> {
    groups.map_values(|g: GroupSnapshotView| g.info)
}

/// Answers `group/get_groups`: the descriptions of all groups, as payload.
pub open spec fn get_groups_answer(s: MockView, c: RawCommandView) -> (MockView, RawResponseView) {
    (s, success(c, Seq::empty(), Some(group_info_list_json(group_infos(s.groups)))))
}

/// Answers `group/get_group_info`: the description of the group, as
/// payload.
pub open spec fn get_group_info_answer(
    s: MockView,
    c: RawCommandView,
) -> (MockView, RawResponseView) {
    match group_for(s, c) {
        Err(r) => (s, r),
        Ok(i) => (s, success(c, Seq::empty(), Some(group_info_json(s.groups[i].info)))),
    }
}

/// Answers `group/get_volume`: the volume of the group, under `level`.
pub open spec fn get_group_volume_answer(s: MockView, c: RawCommandView) -> (
    MockView,
    RawResponseView,
) {
    match group_for(s, c) {
        Err(r) => (s, r),
        Ok(i) => (s, success(c, seq![("level"@, int_text(s.groups[i].volume))], None)),
    }
}

/// Answers `group/set_volume`: the group takes the volume under `level`.
pub open spec fn set_group_volume_answer(s: MockView, c: RawCommandView) -> (
    MockView,
    RawResponseView,
) {
    match group_for(s, c) {
        Err(r) => (s, r),
        Ok(i) => match typed_arg::<Volume>(c, "level"@) {
            Err(r) => (s, r),
            Ok(value) => (
                with_group_at(s, i, GroupSnapshotView { volume: value@, ..s.groups[i] }),
                success(c, Seq::empty(), None),
            ),
        },
    }
}

/// Answers `group/volume_up`: the volume of the group rises by the step.
pub open spec fn group_volume_up_answer(s: MockView, c: RawCommandView) -> (
    MockView,
    RawResponseView,
) {
    match group_for(s, c) {
        Err(r) => (s, r),
        Ok(i) => match step_of(c) {
            Err(r) => (s, r),
            Ok(step) => (
                with_group_at(
                    s,
                    i,
                    GroupSnapshotView { volume: raised(s.groups[i].volume, step), ..s.groups[i] },
                ),
                success(c, Seq::empty(), None),
            ),
        },
    }
}

/// Answers `group/volume_down`: the volume of the group falls by the step.
pub open spec fn group_volume_down_answer(s: MockView, c: RawCommandView) -> (
    MockView,
    RawResponseView,
) {
    match group_for(s, c) {
        Err(r) => (s, r),
        Ok(i) => match step_of(c) {
            Err(r) => (s, r),
            Ok(step) => (
                with_group_at(
                    s,
                    i,
                    GroupSnapshotView { volume: lowered(s.groups[i].volume, step), ..s.groups[i] },
                ),
                success(c, Seq::empty(), None),
            ),
        },
    }
}

/// Answers `group/get_mute`: the mute state of the group, under `state`.
pub open spec fn get_group_mute_answer(
    s: MockView,
    c: RawCommandView,
) -> (MockView, RawResponseView) {
    match group_for(s, c) {
        Err(r) => (s, r),
        Ok(i) => (s, success(c, seq![("state"@, s.groups[i].mute.wire())], None)),
    }
}

/// Answers `group/set_mute`: the group takes the mute state under `state`.
pub open spec fn set_group_mute_answer(
    s: MockView,
    c: RawCommandView,
) -> (MockView, RawResponseView) {
    match group_for(s, c) {
        Err(r) => (s, r),
        Ok(i) => match typed_arg::<MuteState>(c, "state"@) {
            Err(r) => (s, r),
            Ok(value) => (
                with_group_at(s, i, GroupSnapshotView { mute: value, ..s.groups[i] }),
                success(c, Seq::empty(), None),
            ),
        },
    }
}

/// Answers `group/toggle_mute`: the mute of the group turns around.
pub open spec fn toggle_group_mute_answer(s: MockView, c: RawCommandView) -> (
    MockView,
    RawResponseView,
) {
    match group_for(s, c) {
        Err(r) => (s, r),
        Ok(i) => (
            with_group_at(
                s,
                i,
                GroupSnapshotView { mute: toggled(s.groups[i].mute), ..s.groups[i] },
            ),
            success(c, Seq::empty(), None),
        ),
    }
}

/// A list without its repeats: each element stays where it stands first.
pub open spec fn without_repeats(ids: Seq<PlayerId>) -> Seq<PlayerId>
    decreases ids.len(),
{
    if ids.len() == 0 {
        Seq::empty()
    } else {
        let front = without_repeats(ids.drop_last());
        if front.contains(ids.last()) {
            front
        } else {
            front.push(ids.last())
        }
    }
}

/// The first of `ids` that names no player.
pub open spec fn first_unknown(players: Seq<MockPlayerView>, ids: Seq<PlayerId>) -> Option<PlayerId>
    decreases ids.len(),
{
    if ids.len() == 0 {
        None
    } else {
        match first_unknown(players, ids.drop_last()) {
            Some(id) => Some(id),
            None => if player_index(players, ids.last()) is Some {
                None
            } else {
                Some(ids.last())
            },
        }
    }
}

/// The player `id` as a player of a group, in the given role.
pub open spec fn group_player(
    players: Seq<MockPlayerView>,
    id: PlayerId,
    role: GroupRole,
) -> GroupPlayerView {
    GroupPlayerView {
        name: players[player_index(players, id)->0].snapshot.info.name,
        player_id: id,
        role,
    }
}

/// The players of the group that `leader` leads with the given members.
pub open spec fn group_players(
    players: Seq<MockPlayerView>,
    leader: PlayerId,
    members: Seq<PlayerId>,
) -> Seq<GroupPlayerView> {
    seq![group_player(players, leader, GroupRole::Leader)] + members.map_values(
        |id: PlayerId| group_player(players, id, GroupRole::Member),
    )
}

/// The names of the players of a group with plus signs between them.
pub open spec fn group_name(players: Seq<GroupPlayerView>) -> Seq<char>
    decreases players.len(),
{
    if players.len() == 0 {
        Seq::empty()
    } else if players.len() == 1 {
        players.last().name
    } else {
        group_name(players.drop_last()).push('+') + players.last().name
    }
}

/// The groups with `group` put in: in place of the group with the same
/// identifier, or at the end.
pub open spec fn with_group(groups: Seq<GroupSnapshotView>, group: GroupSnapshotView) -> Seq<
    GroupSnapshotView,
> {
    match group_index(groups, group.info.group_id) {
        Some(i) => groups.update(i, group),
        None => groups.push(group),
    }
}

/// Answers `group/set_group`. The first player under `pid` is the leader.
///
/// With the leader alone, the group that it leads is dissolved; where it
/// leads none, the command fails. With more players, each of them must be
/// known. The group that the leader leads then gets these players and a
/// name made of theirs; where the leader leads none, a group is made with
/// the identifier of the leader, at full volume and not muted. The reply
/// tells the identifier and the name of the group.
pub open spec fn set_group_answer(s: MockView, c: RawCommandView) -> (MockView, RawResponseView) {
    match list_arg::<PlayerId>(c, "pid"@) {
        Err(r) => (s, r),
        Ok(ids) => {
            let leader = ids[0];
            let led = led_group_index(s.groups, leader);
            if ids.len() == 1 {
                match led {
                    Some(g) => (
                        MockView { groups: s.groups.remove(g), ..s },
                        success(c, Seq::empty(), None),
                    ),
                    None => (s, invalid_id(c, "pid"@, int_text(leader.0 as int))),
                }
            } else if player_index(s.players, leader) is None {
                (s, invalid_id(c, "pid"@, int_text(leader.0 as int)))
            } else {
                let members = without_repeats(ids.skip(1));
                match first_unknown(s.players, members) {
                    Some(id) => (s, invalid_id(c, "pid"@, int_text(id.0 as int))),
                    None => {
                        let players = group_players(s.players, leader, members);
                        let name = group_name(players);
                        let group = match led {
                            Some(g) => GroupSnapshotView {
                                info: GroupInfoView { name, players, ..s.groups[g].info },
                                ..s.groups[g]
                            },
                            None => GroupSnapshotView {
                                info: GroupInfoView { name, group_id: GroupId(leader.0), players },
                                leader_id: leader,
                                volume: 100,
                                mute: MuteState::Off,
                            },
                        };
                        (
                            MockView {
                                groups: match led {
                                    Some(g) => s.groups.update(g, group),
                                    None => with_group(s.groups, group),
                                },
                                ..s
                            },
                            success(
                                c,
                                seq![
                                    ("gid"@, int_text(group.info.group_id.0 as int)),
                                    ("name"@, name),
                                ],
                                None,
                            ),
                        )
                    },
                }
            }
        },
    }
}

/// Whether `id` is one of `ids`.
pub fn contains_player(ids: &Vec<PlayerId>, id: PlayerId) -> (r: bool)
    ensures
        r == ids@.contains(id),
{
    let mut i: usize = 0;
    while i < ids.len()
        invariant
            i <= ids.len(),
            forall|k: int| 0 <= k < i ==> ids@[k] != id,
        decreases ids.len() - i,
    {
        if ids[i] == id {
            return true;
        }
        i += 1;
    }
    false
}

/// The names of the players of a group with plus signs between them.
pub fn join_names(players: &Vec<GroupPlayer>) -> (name: String)
    ensures
        name@ == group_name(views(players@)),
{
    let mut name = String::new();
    let mut i: usize = 0;
    assert(views(players@.take(0)) =~= Seq::empty());
    while i < players.len()
        invariant
            i <= players.len(),
            name@ == group_name(views(players@.take(i as int))),
        decreases players.len() - i,
    {
        proof {
            lemma_views_take_next(players@, i as int);
            assert(views(players@.take(i + 1)).drop_last() =~= views(players@.take(i as int)));
        }
        if i > 0 {
            name.push('+');
        }
        name.append(players[i].name.as_str());
        proof {
            if i == 0 {
                assert(name@ =~= players@[0]@.name);
            }
        }
        i += 1;
    }
    assert(players@.take(i as int) =~= players@);
    name
}

impl MockHeosSystem {
    /// Finds the group that a command names with its `gid`.
    pub fn group_for_command(&self, command: &RawCommand) -> (r: Result<usize, RawResponse>)
        ensures
            match r {
                Ok(i) => group_for(self@, command@) == Ok::<int, RawResponseView>(i as int) && i
                    < self.groups.len(),
                Err(e) => group_for(self@, command@) == Err::<int, RawResponseView>(e@),
            },
    {
        let id = match parse_command_argument::<GroupId>(command, "gid") {
            Ok(id) => id,
            Err(r) => return Err(r),
        };
        match self.find_group(id) {
            Some(i) => Ok(i),
            None => Err(invalid_id_error(command, "gid", id.to_string().as_str())),
        }
    }

    /// Answers `group/get_groups`.
    pub fn get_groups(&mut self, command: &RawCommand) -> (r: RawResponse)
        requires
            command.wf(),
        ensures
            (final(self)@, r@) == get_groups_answer(old(self)@, command@),
    {
        let mut infos: Vec<GroupInfo> = Vec::new();
        let mut i: usize = 0;
        assert(views(infos@) =~= group_infos(views(self.groups@.take(0))));
        while i < self.groups.len()
            invariant
                i <= self.groups.len(),
                views(infos@) == group_infos(views(self.groups@.take(i as int))),
            decreases self.groups.len() - i,
        {
            let info = self.groups[i].snapshot.info.clone();
            proof {
                lemma_views_push(infos@, info);
                lemma_views_take_next(self.groups@, i as int);
                assert(group_infos(views(self.groups@.take(i + 1))) =~= group_infos(
                    views(self.groups@.take(i as int)),
                ).push(info@));
            }
            infos.push(info);
            i += 1;
        }
        assert(self.groups@.take(i as int) =~= self.groups@);
        payload_success(command, group_info_list_to_json(&infos))
    }

    /// Answers `group/get_group_info`.
    pub fn get_group_info(&mut self, command: &RawCommand) -> (r: RawResponse)
        requires
            command.wf(),
        ensures
            (final(self)@, r@) == get_group_info_answer(old(self)@, command@),
    {
        match self.group_for_command(command) {
            Ok(i) => payload_success(command, self.groups[i].snapshot.info.to_json()),
            Err(r) => r,
        }
    }

    /// Answers `group/get_volume`.
    pub fn get_group_volume(&mut self, command: &RawCommand) -> (r: RawResponse)
        requires
            command.wf(),
        ensures
            (final(self)@, r@) == get_group_volume_answer(old(self)@, command@),
    {
        match self.group_for_command(command) {
            Ok(i) => value_success(
                command,
                "level",
                self.groups[i].snapshot.volume.to_string().as_str(),
            ),
            Err(r) => r,
        }
    }

    /// Answers `group/set_volume`.
    pub fn set_group_volume(&mut self, command: &RawCommand) -> (r: RawResponse)
        requires
            command.wf(),
        ensures
            (final(self)@, r@) == set_group_volume_answer(old(self)@, command@),
    {
        let i = match self.group_for_command(command) {
            Ok(i) => i,
            Err(r) => return r,
        };
        let value = match parse_command_argument::<Volume>(command, "level") {
            Ok(value) => value,
            Err(r) => return r,
        };
        self.groups[i].snapshot.volume = value;
        proof {
            assert(self@.groups =~= old(self)@.groups.update(i as int, self.groups@[i as int]@));
        }
        plain_success(command)
    }

    /// Answers `group/volume_up`.
    pub fn group_volume_up(&mut self, command: &RawCommand) -> (r: RawResponse)
        requires
            command.wf(),
        ensures
            (final(self)@, r@) == group_volume_up_answer(old(self)@, command@),
    {
        let i = match self.group_for_command(command) {
            Ok(i) => i,
            Err(r) => return r,
        };
        let step = match parse_step(command) {
            Ok(step) => step,
            Err(r) => return r,
        };
        let volume = self.groups[i].snapshot.volume.saturating_add(step.get());
        self.groups[i].snapshot.volume = volume;
        proof {
            assert(self@.groups =~= old(self)@.groups.update(i as int, self.groups@[i as int]@));
        }
        plain_success(command)
    }

    /// Answers `group/volume_down`.
    pub fn group_volume_down(&mut self, command: &RawCommand) -> (r: RawResponse)
        requires
            command.wf(),
        ensures
            (final(self)@, r@) == group_volume_down_answer(old(self)@, command@),
    {
        let i = match self.group_for_command(command) {
            Ok(i) => i,
            Err(r) => return r,
        };
        let step = match parse_step(command) {
            Ok(step) => step,
            Err(r) => return r,
        };
        let volume = self.groups[i].snapshot.volume.saturating_sub(step.get());
        self.groups[i].snapshot.volume = volume;
        proof {
            assert(self@.groups =~= old(self)@.groups.update(i as int, self.groups@[i as int]@));
        }
        plain_success(command)
    }

    /// Answers `group/get_mute`.
    pub fn get_group_mute(&mut self, command: &RawCommand) -> (r: RawResponse)
        requires
            command.wf(),
        ensures
            (final(self)@, r@) == get_group_mute_answer(old(self)@, command@),
    {
        match self.group_for_command(command) {
            Ok(i) => value_success(command, "state", self.groups[i].snapshot.mute.as_str()),
            Err(r) => r,
        }
    }

    /// Answers `group/set_mute`.
    pub fn set_group_mute(&mut self, command: &RawCommand) -> (r: RawResponse)
        requires
            command.wf(),
        ensures
            (final(self)@, r@) == set_group_mute_answer(old(self)@, command@),
    {
        let i = match self.group_for_command(command) {
            Ok(i) => i,
            Err(r) => return r,
        };
        let value = match parse_command_argument::<MuteState>(command, "state") {
            Ok(value) => value,
            Err(r) => return r,
        };
        self.groups[i].snapshot.mute = value;
        proof {
            assert(self@.groups =~= old(self)@.groups.update(i as int, self.groups@[i as int]@));
        }
        plain_success(command)
    }

    /// Answers `group/toggle_mute`.
    pub fn toggle_group_mute(&mut self, command: &RawCommand) -> (r: RawResponse)
        requires
            command.wf(),
        ensures
            (final(self)@, r@) == toggle_group_mute_answer(old(self)@, command@),
    {
        let i = match self.group_for_command(command) {
            Ok(i) => i,
            Err(r) => return r,
        };
        let mute = match self.groups[i].snapshot.mute {
            MuteState::On => MuteState::Off,
            MuteState::Off => MuteState::On,
        };
        self.groups[i].snapshot.mute = mute;
        proof {
            assert(self@.groups =~= old(self)@.groups.update(i as int, self.groups@[i as int]@));
        }
        plain_success(command)
    }

    /// Puts a group into the table: in place of the group with the same
    /// identifier, or at the end.
    pub fn insert_group(&mut self, group: MockGroup)
        ensures
            final(self)@ == (MockView {
                groups: with_group(old(self)@.groups, group@),
                ..old(self)@
            }),
    {
        match self.find_group(group.snapshot.info.group_id) {
            Some(i) => {
                proof {
                    lemma_views_update(self.groups@, i as int, group);
                }
                self.groups[i] = group;
            },
            None => {
                proof {
                    lemma_views_push(self.groups@, group);
                }
                self.groups.push(group);
            },
        }
    }

    /// The players of a group led by `leader` with the members that follow
    /// it in `ids`, or the first player that is not known.
    fn collect_group_players(&self, ids: &Vec<PlayerId>, leader_at: usize) -> (r: Result<
        Vec<GroupPlayer>,
        PlayerId,
    >)
        requires
            ids.len() >= 1,
            player_index(self@.players, ids@[0]) == Some(leader_at as int),
            leader_at < self.players.len(),
        ensures
            match r {
                Ok(players) => first_unknown(self@.players, without_repeats(ids@.skip(1))) is None
                    && views(players@) == group_players(
                    self@.players,
                    ids@[0],
                    without_repeats(ids@.skip(1)),
                ),
                Err(id) => first_unknown(self@.players, without_repeats(ids@.skip(1))) == Some(id),
            },
    {
        let ghost members = ids@.skip(1);
        let leader = ids[0];
        let mut players: Vec<GroupPlayer> = Vec::new();
        players.push(
            GroupPlayer {
                name: self.players[leader_at].snapshot.info.name.clone(),
                player_id: leader,
                role: GroupRole::Leader,
            },
        );
        let mut seen: Vec<PlayerId> = Vec::new();
        let mut k: usize = 1;
        proof {
            assert(members.take(0) =~= Seq::empty());
            assert(views(players@) =~= group_players(self@.players, leader, Seq::empty()));
        }
        while k < ids.len()
            invariant
                1 <= k <= ids.len(),
                members == ids@.skip(1),
                leader == ids@[0],
                seen@ == without_repeats(members.take(k - 1)),
                first_unknown(self@.players, seen@) is None,
                views(players@) == group_players(self@.players, leader, seen@),
            decreases ids.len() - k,
        {
            let id = ids[k];
            proof {
                assert(members.take(k as int).drop_last() =~= members.take(k - 1));
                assert(members.take(k as int).last() == id);
            }
            if !contains_player(&seen, id) {
                let ghost before = seen@;
                match self.find_player(id) {
                    None => {
                        proof {
                            assert(before.push(id).drop_last() =~= before);
                            lemma_first_unknown_prefix(
                                self@.players,
                                members,
                                k as int,
                            );
                        }
                        return Err(id);
                    },
                    Some(at) => {
                        let member = GroupPlayer {
                            name: self.players[at].snapshot.info.name.clone(),
                            player_id: id,
                            role: GroupRole::Member,
                        };
                        proof {
                            lemma_views_push(players@, member);
                            assert(before.push(id).drop_last() =~= before);
                            assert(group_players(self@.players, leader, before.push(id))
                                =~= group_players(self@.players, leader, before).push(member@));
                        }
                        players.push(member);
                        seen.push(id);
                    },
                }
            }
            k += 1;
        }
        proof {
            assert(members.take(k - 1) =~= members);
        }
        Ok(players)
    }

    /// Answers `group/set_group`.
    pub fn set_group(&mut self, command: &RawCommand) -> (r: RawResponse)
        requires
            command.wf(),
        ensures
            (final(self)@, r@) == set_group_answer(old(self)@, command@),
    {
        let ids = match parse_command_argument_list::<PlayerId>(command, "pid") {
            Ok(ids) => ids,
            Err(r) => return r,
        };
        let leader = ids[0];
        let led = self.find_led_group(leader);
        if ids.len() == 1 {
            return match led {
                Some(g) => {
                    proof {
                        lemma_views_remove(self.groups@, g as int);
                    }
                    self.groups.remove(g);
                    plain_success(command)
                },
                None => invalid_id_error(command, "pid", leader.to_string().as_str()),
            };
        }
        let leader_at = match self.find_player(leader) {
            Some(at) => at,
            None => return invalid_id_error(command, "pid", leader.to_string().as_str()),
        };
        let players = match self.collect_group_players(&ids, leader_at) {
            Ok(players) => players,
            Err(id) => return invalid_id_error(command, "pid", id.to_string().as_str()),
        };
        let name = join_names(&players);
        let group_id = match led {
            Some(g) => {
                self.groups[g].snapshot.info.name = name.clone();
                self.groups[g].snapshot.info.players = players;
                proof {
                    assert(self@.groups =~= old(self)@.groups.update(
                        g as int,
                        self.groups@[g as int]@,
                    ));
                }
                self.groups[g].snapshot.info.group_id
            },
            None => {
                let group_id = GroupId(leader.0);
                let group = MockGroup {
                    snapshot: GroupSnapshot {
                        info: GroupInfo { name: name.clone(), group_id, players },
                        leader_id: leader,
                        volume: Volume::highest(),
                        mute: MuteState::Off,
                    },
                };
                self.insert_group(group);
                group_id
            },
        };
        let mut extra: Vec<(String, String)> = Vec::new();
        extra.push((String::from_str("gid"), group_id.to_string()));
        extra.push((String::from_str("name"), name));
        proof {
            assert(views(extra@) =~= seq![
                ("gid"@, int_text(group_id.0 as int)),
                ("name"@, name@),
            ]);
        }
        success_response(command, &extra, None)
    }
}

/// An unknown player among the first members is the first unknown player
/// of all.
pub proof fn lemma_first_unknown_prefix(
    players: Seq<MockPlayerView>,
    members: Seq<PlayerId>,
    k: int,
)
    requires
        0 <= k <= members.len(),
        first_unknown(players, without_repeats(members.take(k))) is Some,
    ensures
        first_unknown(players, without_repeats(members)) == first_unknown(
            players,
            without_repeats(members.take(k)),
        ),
    decreases members.len(),
{
    if k == members.len() {
        assert(members.take(k) =~= members);
    } else {
        assert(members.drop_last().take(k) =~= members.take(k));
        lemma_first_unknown_prefix(players, members.drop_last(), k);
        let front = without_repeats(members.drop_last());
        if !front.contains(members.last()) {
            assert(front.push(members.last()).drop_last() =~= front);
        }
    }
}

/// A group is sound: exactly one of its players is marked as leader, that
/// player is the one that the group names as its leader, and all of its
/// players are known.
pub open spec fn group_sound(players: Seq<MockPlayerView>, g: GroupSnapshotView) -> bool {
    &&& leader_count(g.info.players) == 1
    &&& first_leader(g.info.players) == Some(g.leader_id)
    &&& forall|k: int|
        0 <= k < g.info.players.len() ==> player_index(
            players,
            (#[trigger] g.info.players[k]).player_id,
        ) is Some
}

/// All groups of a system are sound.
pub open spec fn groups_sound(s: MockView) -> bool {
    forall|i: int| 0 <= i < s.groups.len() ==> group_sound(s.players, #[trigger] s.groups[i])
}

/// All of `ids` are known where none of them is the first unknown.
pub proof fn lemma_all_known(players: Seq<MockPlayerView>, ids: Seq<PlayerId>)
    requires
        first_unknown(players, ids) is None,
    ensures
        forall|k: int| 0 <= k < ids.len() ==> player_index(players, #[trigger] ids[k]) is Some,
    decreases ids.len(),
{
    if ids.len() > 0 {
        lemma_all_known(players, ids.drop_last());
        assert forall|k: int| 0 <= k < ids.len() implies player_index(
            players,
            #[trigger] ids[k],
        ) is Some by {
            if k < ids.len() - 1 {
                assert(ids.drop_last()[k] == ids[k]);
            }
        }
    }
}

/// The players of a group made of a leader and members hold exactly one
/// leader, and it stands first.
pub proof fn lemma_group_players(
    players: Seq<MockPlayerView>,
    leader: PlayerId,
    members: Seq<PlayerId>,
)
    ensures
        leader_count(group_players(players, leader, members)) == 1,
        first_leader(group_players(players, leader, members)) == Some(leader),
        group_players(players, leader, members).len() == members.len() + 1,
    decreases members.len(),
{
    let all = group_players(players, leader, members);
    lemma_first_where_at(all, is_leader(), 0);
    if members.len() == 0 {
        assert(all.drop_last() =~= Seq::empty());
        assert(leader_count(Seq::<GroupPlayerView>::empty()) == 0);
        assert(all.last().role == GroupRole::Leader);
    } else {
        lemma_group_players(players, leader, members.drop_last());
        assert(all.drop_last() =~= group_players(players, leader, members.drop_last()));
        assert(all.last().role == GroupRole::Member);
    }
}

/// Group invariants. Whatever `group/set_group` is asked, afterwards all
/// groups are sound if they were before: every group has exactly one
/// leader, and every player of a group is a known player. And asked with
/// the leader alone, the command removes the group that the leader leads.
pub proof fn lemma_set_group_keeps_groups_sound(s: MockView, c: RawCommandView)
    requires
        groups_sound(s),
    ensures
        groups_sound(set_group_answer(s, c).0),
        set_group_answer(s, c).0.players == s.players,
        (list_arg::<PlayerId>(c, "pid"@) matches Ok(ids) && ids.len() == 1 && led_group_index(
            s.groups,
            ids[0],
        ) matches Some(g)) ==> set_group_answer(s, c).0.groups == s.groups.remove(
            led_group_index(s.groups, list_arg::<PlayerId>(c, "pid"@)->Ok_0[0])->0,
        ) && set_group_answer(s, c).1.result == Some(true),
{
    let after = set_group_answer(s, c).0;
    match list_arg::<PlayerId>(c, "pid"@) {
        Err(r) => {},
        Ok(ids) => {
            let leader = ids[0];
            let led = led_group_index(s.groups, leader);
            lemma_first_where(s.groups, crate::mock::system::is_led_by(leader));
            if ids.len() == 1 {
                match led {
                    Some(g) => {
                        assert forall|i: int| 0 <= i < after.groups.len() implies group_sound(
                            after.players,
                            #[trigger] after.groups[i],
                        ) by {
                            let j = if i < g {
                                i
                            } else {
                                i + 1
                            };
                            assert(after.groups[i] == s.groups[j]);
                        }
                    },
                    None => {},
                }
            } else if player_index(s.players, leader) is None {
            } else {
                let members = without_repeats(ids.skip(1));
                match first_unknown(s.players, members) {
                    Some(id) => {},
                    None => {
                        let players = group_players(s.players, leader, members);
                        lemma_group_players(s.players, leader, members);
                        lemma_all_known(s.players, members);
                        assert forall|k: int| 0 <= k < players.len() implies player_index(
                            s.players,
                            (#[trigger] players[k]).player_id,
                        ) is Some by {
                            if k > 0 {
                                assert(players[k].player_id == members[k - 1]);
                            }
                        }
                        match led {
                            Some(g) => {
                                assert forall|i: int|
                                    0 <= i < after.groups.len() implies group_sound(
                                    after.players,
                                    #[trigger] after.groups[i],
                                ) by {
                                    if i != g {
                                        assert(after.groups[i] == s.groups[i]);
                                    }
                                }
                            },
                            None => {
                                let group = GroupSnapshotView {
                                    info: GroupInfoView {
                                        name: group_name(players),
                                        group_id: GroupId(leader.0),
                                        players,
                                    },
                                    leader_id: leader,
                                    volume: 100,
                                    mute: MuteState::Off,
                                };
                                lemma_first_where(
                                    s.groups,
                                    crate::mock::system::is_group(GroupId(leader.0)),
                                );
                                assert forall|i: int|
                                    0 <= i < after.groups.len() implies group_sound(
                                    after.players,
                                    #[trigger] after.groups[i],
                                ) by {
                                    if after.groups[i] != group {
                                        assert(after.groups[i] == s.groups[i]);
                                    }
                                }
                            },
                        }
                    },
                }
            }
        },
    }
}

} // verus!
