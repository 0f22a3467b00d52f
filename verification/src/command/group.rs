//! Commands that ask about or steer groups of players.

use vstd::prelude::*;
use vstd::string::*;
use crate::command::error::{CommandError, CommandErrorView};
use crate::command::raw::{with_param, RawCommand, RawCommandView};
use crate::command::typed::{told_list, Command};
use crate::data::response::{
    checked,
    message_value,
    payload_of,
    read_message_value,
    tells,
    validated,
    RawResponse,
};
use crate::json::told_view;
use crate::command::ser::{join_player_ids, joined, with_opt_param};
use crate::data::common::{MuteState, Volume, VolumeStep};
use crate::data::codec::{
    group_info_list_from_json,
    group_info_list_of_json,
    group_info_of_json,
};
use crate::data::group::{GroupId, GroupInfo};
use crate::data::player::PlayerId;
use crate::data::response::{message_text, read_message_text};
use crate::data::query::message_field;
use crate::text::int_text;

verus! {

/// What became of a group.
#[derive(Debug)]
pub enum SetGroupResult {
    /// The group was made, or its players were changed.
    CreatedOrModified {
        /// Identifier of the group.
        group_id: GroupId,
        /// Name of the group.
        name: String,
    },
    /// The group was dissolved.
    Deleted,
}

/// A `SetGroupResult` as plain values.
pub ghost enum SetGroupResultView {
    CreatedOrModified { group_id: GroupId, name: Seq<char> },
    Deleted,
}

impl View for SetGroupResult {
    type V = SetGroupResultView;

    open spec fn view(&self) -> SetGroupResultView {
        match self {
            SetGroupResult::CreatedOrModified {
                group_id,
                name,
            } => SetGroupResultView::CreatedOrModified { group_id: *group_id, name: name@ },
            SetGroupResult::Deleted => SetGroupResultView::Deleted,
        }
    }
}

/// What a message tells of a group: a message without `gid` tells that the
/// group was dissolved; else it tells the identifier and, under `name`,
/// the name of the group.
pub open spec fn set_group_result_of_message(message: Seq<char>) -> Result<
    SetGroupResultView,
    CommandErrorView,
> {
    if message_field(message, "gid"@) is None {
        Ok(SetGroupResultView::Deleted)
    } else {
        match message_value::<GroupId>(message, "gid"@) {
            Err(e) => Err(e),
            Ok(group_id) => match message_text(message, "name"@) {
                Err(e) => Err(e),
                Ok(name) => Ok(SetGroupResultView::CreatedOrModified { group_id, name }),
            },
        }
    }
}

impl SetGroupResult {
    /// Reads what became of a group out of the message of a reply.
    pub fn from_message(message: &str) -> (r: Result<Self, CommandError>)
        ensures
            told_view(r, set_group_result_of_message(message@)),
    {
        if crate::data::query::field(message, "gid").is_none() {
            return Ok(SetGroupResult::Deleted);
        }
        let group_id = read_message_value::<GroupId>(message, "gid")?;
        let name = read_message_text(message, "name")?;
        Ok(SetGroupResult::CreatedOrModified { group_id, name })
    }
}

/// Asks for all groups of the system.
#[derive(Clone, Copy, Debug)]
pub struct GetGroups {}

impl Command for GetGroups {
    type Response = Vec<GroupInfo>;

    fn response(raw: &RawResponse) -> (r: Result<Vec<GroupInfo>, CommandError>)
        ensures
            told_list(
                r,
                checked(
                    raw@,
                    match payload_of(raw@) {
                        Ok(p) => group_info_list_of_json(p),
                        Err(e) => Err(e),
                    },
                ),
            ),
    {
        raw.validate_command()?;
        group_info_list_from_json(raw.payload()?)
    }

    open spec fn raw(&self) -> RawCommandView {
        let params = Seq::empty();
        RawCommandView { group: "group"@, command: "get_groups"@, params }
    }

    fn to_raw(&self) -> (r: RawCommand) {
        let r = RawCommand::new("group", "get_groups");
        r
    }
}

/// Asks what is known of one group.
#[derive(Clone, Copy, Debug)]
pub struct GetGroupInfo {
    /// The group that the command is for.
    pub group_id: GroupId,
}

impl Command for GetGroupInfo {
    type Response = GroupInfo;

    fn response(raw: &RawResponse) -> (r: Result<GroupInfo, CommandError>)
        ensures
            told_view(
                r,
                checked(
                    raw@,
                    match payload_of(raw@) {
                        Ok(p) => group_info_of_json(p),
                        Err(e) => Err(e),
                    },
                ),
            ),
    {
        raw.validate_command()?;
        GroupInfo::from_json(raw.payload()?)
    }

    open spec fn raw(&self) -> RawCommandView {
        let params = Seq::empty();
        let params = with_param(params, "gid"@, int_text(self.group_id.0 as int));
        RawCommandView { group: "group"@, command: "get_group_info"@, params }
    }

    fn to_raw(&self) -> (r: RawCommand) {
        let mut r = RawCommand::new("group", "get_group_info");
        r.param("gid", self.group_id.to_string().as_str());
        r
    }
}

/// Makes, changes or dissolves a group. The first player is the leader.
/// With more players, the group of that leader gets exactly these players,
/// and is made where the leader leads none. With the leader alone, the
/// group that it leads is dissolved.
#[derive(Debug)]
pub struct SetGroup {
    /// The leader, and after it the members.
    pub player_ids: Vec<PlayerId>,
}

impl Command for SetGroup {
    type Response = SetGroupResult;

    fn response(raw: &RawResponse) -> (r: Result<SetGroupResult, CommandError>)
        ensures
            told_view(r, checked(raw@, set_group_result_of_message(raw@.message))),
    {
        raw.validate_command()?;
        SetGroupResult::from_message(raw.heos.message.as_str())
    }

    open spec fn raw(&self) -> RawCommandView {
        let params = Seq::empty();
        let params = with_param(
            params,
            "pid"@,
            joined(self.player_ids@.map_values(|id: PlayerId| int_text(id.0 as int))),
        );
        RawCommandView { group: "group"@, command: "set_group"@, params }
    }

    fn to_raw(&self) -> (r: RawCommand) {
        let mut r = RawCommand::new("group", "set_group");
        r.param("pid", join_player_ids(&self.player_ids).as_str());
        r
    }
}

/// Asks for the volume of a group.
#[derive(Clone, Copy, Debug)]
pub struct GetGroupVolume {
    /// The group that the command is for.
    pub group_id: GroupId,
}

impl Command for GetGroupVolume {
    type Response = Volume;

    fn response(raw: &RawResponse) -> (r: Result<Volume, CommandError>)
        ensures
            tells(r, checked(raw@, message_value::<Volume>(raw@.message, "level"@))),
    {
        raw.validate_command()?;
        read_message_value::<Volume>(raw.heos.message.as_str(), "level")
    }

    open spec fn raw(&self) -> RawCommandView {
        let params = Seq::empty();
        let params = with_param(params, "gid"@, int_text(self.group_id.0 as int));
        RawCommandView { group: "group"@, command: "get_volume"@, params }
    }

    fn to_raw(&self) -> (r: RawCommand) {
        let mut r = RawCommand::new("group", "get_volume");
        r.param("gid", self.group_id.to_string().as_str());
        r
    }
}

/// Sets the volume of a group.
#[derive(Clone, Copy, Debug)]
pub struct SetGroupVolume {
    /// The group that the command is for.
    pub group_id: GroupId,
    /// The new volume.
    pub level: Volume,
}

impl Command for SetGroupVolume {
    type Response = ();

    fn response(raw: &RawResponse) -> (r: Result<(), CommandError>)
        ensures
            tells(r, validated(raw@)),
    {
        raw.validate_command()
    }

    open spec fn raw(&self) -> RawCommandView {
        let params = Seq::empty();
        let params = with_param(params, "gid"@, int_text(self.group_id.0 as int));
        let params = with_param(params, "level"@, int_text(self.level@));
        RawCommandView { group: "group"@, command: "set_volume"@, params }
    }

    fn to_raw(&self) -> (r: RawCommand) {
        let mut r = RawCommand::new("group", "set_volume");
        r.param("gid", self.group_id.to_string().as_str());
        r.param("level", self.level.to_string().as_str());
        r
    }
}

/// Raises the volume of a group by a step.
#[derive(Clone, Copy, Debug)]
pub struct GroupVolumeUp {
    /// The group that the command is for.
    pub group_id: GroupId,
    /// How far to raise it; the system takes 5 where none is given.
    pub step: Option<VolumeStep>,
}

impl Command for GroupVolumeUp {
    type Response = ();

    fn response(raw: &RawResponse) -> (r: Result<(), CommandError>)
        ensures
            tells(r, validated(raw@)),
    {
        raw.validate_command()
    }

    open spec fn raw(&self) -> RawCommandView {
        let params = Seq::empty();
        let params = with_param(params, "gid"@, int_text(self.group_id.0 as int));
        let params = with_opt_param(
            params,
            "step"@,
            match self.step {
                Some(v) => Some(int_text(v@)),
                None => None,
            },
        );
        RawCommandView { group: "group"@, command: "volume_up"@, params }
    }

    fn to_raw(&self) -> (r: RawCommand) {
        let mut r = RawCommand::new("group", "volume_up");
        r.param("gid", self.group_id.to_string().as_str());
        match &self.step {
            Some(v) => r.param("step", v.to_string().as_str()),
            None => {},
        }
        r
    }
}

/// Lowers the volume of a group by a step.
#[derive(Clone, Copy, Debug)]
pub struct GroupVolumeDown {
    /// The group that the command is for.
    pub group_id: GroupId,
    /// How far to lower it; the system takes 5 where none is given.
    pub step: Option<VolumeStep>,
}

impl Command for GroupVolumeDown {
    type Response = ();

    fn response(raw: &RawResponse) -> (r: Result<(), CommandError>)
        ensures
            tells(r, validated(raw@)),
    {
        raw.validate_command()
    }

    open spec fn raw(&self) -> RawCommandView {
        let params = Seq::empty();
        let params = with_param(params, "gid"@, int_text(self.group_id.0 as int));
        let params = with_opt_param(
            params,
            "step"@,
            match self.step {
                Some(v) => Some(int_text(v@)),
                None => None,
            },
        );
        RawCommandView { group: "group"@, command: "volume_down"@, params }
    }

    fn to_raw(&self) -> (r: RawCommand) {
        let mut r = RawCommand::new("group", "volume_down");
        r.param("gid", self.group_id.to_string().as_str());
        match &self.step {
            Some(v) => r.param("step", v.to_string().as_str()),
            None => {},
        }
        r
    }
}

/// Asks whether a group is muted.
#[derive(Clone, Copy, Debug)]
pub struct GetGroupMute {
    /// The group that the command is for.
    pub group_id: GroupId,
}

impl Command for GetGroupMute {
    type Response = MuteState;

    fn response(raw: &RawResponse) -> (r: Result<MuteState, CommandError>)
        ensures
            tells(r, checked(raw@, message_value::<MuteState>(raw@.message, "state"@))),
    {
        raw.validate_command()?;
        read_message_value::<MuteState>(raw.heos.message.as_str(), "state")
    }

    open spec fn raw(&self) -> RawCommandView {
        let params = Seq::empty();
        let params = with_param(params, "gid"@, int_text(self.group_id.0 as int));
        RawCommandView { group: "group"@, command: "get_mute"@, params }
    }

    fn to_raw(&self) -> (r: RawCommand) {
        let mut r = RawCommand::new("group", "get_mute");
        r.param("gid", self.group_id.to_string().as_str());
        r
    }
}

/// Mutes a group or ends its mute.
#[derive(Clone, Copy, Debug)]
pub struct SetGroupMute {
    /// The group that the command is for.
    pub group_id: GroupId,
    /// The new mute state.
    pub state: MuteState,
}

impl Command for SetGroupMute {
    type Response = ();

    fn response(raw: &RawResponse) -> (r: Result<(), CommandError>)
        ensures
            tells(r, validated(raw@)),
    {
        raw.validate_command()
    }

    open spec fn raw(&self) -> RawCommandView {
        let params = Seq::empty();
        let params = with_param(params, "gid"@, int_text(self.group_id.0 as int));
        let params = with_param(params, "state"@, self.state.wire());
        RawCommandView { group: "group"@, command: "set_mute"@, params }
    }

    fn to_raw(&self) -> (r: RawCommand) {
        let mut r = RawCommand::new("group", "set_mute");
        r.param("gid", self.group_id.to_string().as_str());
        r.param("state", self.state.as_str());
        r
    }
}

/// Turns the mute of a group around.
#[derive(Clone, Copy, Debug)]
pub struct ToggleGroupMute {
    /// The group that the command is for.
    pub group_id: GroupId,
}

impl Command for ToggleGroupMute {
    type Response = ();

    fn response(raw: &RawResponse) -> (r: Result<(), CommandError>)
        ensures
            tells(r, validated(raw@)),
    {
        raw.validate_command()
    }

    open spec fn raw(&self) -> RawCommandView {
        let params = Seq::empty();
        let params = with_param(params, "gid"@, int_text(self.group_id.0 as int));
        RawCommandView { group: "group"@, command: "toggle_mute"@, params }
    }

    fn to_raw(&self) -> (r: RawCommand) {
        let mut r = RawCommand::new("group", "toggle_mute");
        r.param("gid", self.group_id.to_string().as_str());
        r
    }
}

} // verus!
