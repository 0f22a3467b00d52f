//! Commands that ask about or steer single players.

use vstd::prelude::*;
use vstd::string::*;
use crate::command::error::{CommandError, CommandErrorView};
use crate::command::raw::{with_param, RawCommand, RawCommandView};
use crate::command::typed::{told_list, Command};
use crate::data::response::{
    checked,
    message_value,
    payload_of,
    read_message_value,
    tells,
    validated,
    RawResponse,
    RawResponseView,
};
use crate::json::{told, told_view};
use crate::command::ser::{join_queue_ids, joined, range_text, range_to_string, with_opt_param};
use crate::data::common::{MuteState, Volume, VolumeStep};
use crate::data::codec::{
    now_playing_info_of_json,
    player_info_list_from_json,
    player_info_list_of_json,
    player_info_of_json,
    queued_track_info_list_from_json,
    queued_track_info_list_of_json,
    quick_select_list_from_json,
    quick_select_list_of_json,
    update_payload_of_json,
};
use crate::data::option::{
    options_from_response,
    options_of,
    HasOptions,
    ServiceOptionType,
    WithOptions,
};
use crate::data::player::{
    PlayMode,
    PlayState,
    PlayerId,
    PlayerInfo,
    RepeatMode,
    ShuffleMode,
    UpdatePayload,
};
use crate::data::queue::{NowPlayingInfo, NowPlayingInfoView, QueueId, QueuedTrackInfo};
use crate::data::quickselect::QuickSelect;
use crate::data::quickselect::QuickSelectId;
use crate::text::int_text;

verus! {

/// The play mode that a message tells: the repeat mode under `repeat` and
/// the shuffle mode under `shuffle`.
pub open spec fn play_mode_of_message(message: Seq<char>) -> Result<PlayMode, CommandErrorView> {
    match message_value::<RepeatMode>(message, "repeat"@) {
        Err(e) => Err(e),
        Ok(repeat) => match message_value::<ShuffleMode>(message, "shuffle"@) {
            Err(e) => Err(e),
            Ok(shuffle) => Ok(PlayMode { repeat, shuffle }),
        },
    }
}

/// What a reply tells of what a player plays: the options that the reply
/// lists under `play`, and the track in the payload.
pub open spec fn now_playing_of_response(r: RawResponseView) -> Result<
    (NowPlayingInfoView, Seq<ServiceOptionType>),
    CommandErrorView,
> {
    checked(
        r,
        match options_of(r, "play"@) {
            Err(e) => Err(e),
            Ok(options) => match payload_of(r) {
                Err(e) => Err(e),
                Ok(p) => match now_playing_info_of_json(p) {
                    Err(e) => Err(e),
                    Ok(info) => Ok((info, options)),
                },
            },
        },
    )
}

/// Asks for all players of the system.
#[derive(Clone, Copy, Debug)]
pub struct GetPlayers {}

impl Command for GetPlayers {
    type Response = Vec<PlayerInfo>;

    fn response(raw: &RawResponse) -> (r: Result<Vec<PlayerInfo>, CommandError>)
        ensures
            told_list(
                r,
                checked(
                    raw@,
                    match payload_of(raw@) {
                        Ok(p) => player_info_list_of_json(p),
                        Err(e) => Err(e),
                    },
                ),
            ),
    {
        raw.validate_command()?;
        player_info_list_from_json(raw.payload()?)
    }

    open spec fn raw(&self) -> RawCommandView {
        let params = Seq::empty();
        RawCommandView { group: "player"@, command: "get_players"@, params }
    }

    fn to_raw(&self) -> (r: RawCommand) {
        let r = RawCommand::new("player", "get_players");
        r
    }
}

/// Asks what is known of one player.
#[derive(Clone, Copy, Debug)]
pub struct GetPlayerInfo {
    /// The player that the command is for.
    pub player_id: PlayerId,
}

impl Command for GetPlayerInfo {
    type Response = PlayerInfo;

    fn response(raw: &RawResponse) -> (r: Result<PlayerInfo, CommandError>)
        ensures
            told_view(
                r,
                checked(
                    raw@,
                    match payload_of(raw@) {
                        Ok(p) => player_info_of_json(p),
                        Err(e) => Err(e),
                    },
                ),
            ),
    {
        raw.validate_command()?;
        PlayerInfo::from_json(raw.payload()?)
    }

    open spec fn raw(&self) -> RawCommandView {
        let params = Seq::empty();
        let params = with_param(params, "pid"@, int_text(self.player_id.0 as int));
        RawCommandView { group: "player"@, command: "get_player_info"@, params }
    }

    fn to_raw(&self) -> (r: RawCommand) {
        let mut r = RawCommand::new("player", "get_player_info");
        r.param("pid", self.player_id.to_string().as_str());
        r
    }
}

/// Asks whether a player plays.
#[derive(Clone, Copy, Debug)]
pub struct GetPlayState {
    /// The player that the command is for.
    pub player_id: PlayerId,
}

impl Command for GetPlayState {
    type Response = PlayState;

    fn response(raw: &RawResponse) -> (r: Result<PlayState, CommandError>)
        ensures
            tells(r, checked(raw@, message_value::<PlayState>(raw@.message, "state"@))),
    {
        raw.validate_command()?;
        read_message_value::<PlayState>(raw.heos.message.as_str(), "state")
    }

    open spec fn raw(&self) -> RawCommandView {
        let params = Seq::empty();
        let params = with_param(params, "pid"@, int_text(self.player_id.0 as int));
        RawCommandView { group: "player"@, command: "get_play_state"@, params }
    }

    fn to_raw(&self) -> (r: RawCommand) {
        let mut r = RawCommand::new("player", "get_play_state");
        r.param("pid", self.player_id.to_string().as_str());
        r
    }
}

/// Makes a player play, pause or stop.
#[derive(Clone, Copy, Debug)]
pub struct SetPlayState {
    /// The player that the command is for.
    pub player_id: PlayerId,
    /// The state to put the player in.
    pub state: PlayState,
}

impl Command for SetPlayState {
    type Response = ();

    fn response(raw: &RawResponse) -> (r: Result<(), CommandError>)
        ensures
            tells(r, validated(raw@)),
    {
        raw.validate_command()
    }

    open spec fn raw(&self) -> RawCommandView {
        let params = Seq::empty();
        let params = with_param(params, "pid"@, int_text(self.player_id.0 as int));
        let params = with_param(params, "state"@, self.state.wire());
        RawCommandView { group: "player"@, command: "set_play_state"@, params }
    }

    fn to_raw(&self) -> (r: RawCommand) {
        let mut r = RawCommand::new("player", "set_play_state");
        r.param("pid", self.player_id.to_string().as_str());
        r.param("state", self.state.as_str());
        r
    }
}

/// Asks what a player plays now.
#[derive(Clone, Copy, Debug)]
pub struct GetNowPlayingMedia {
    /// The player that the command is for.
    pub player_id: PlayerId,
}

impl Command for GetNowPlayingMedia {
    type Response = WithOptions<NowPlayingInfo>;

    fn response(raw: &RawResponse) -> (r: Result<WithOptions<NowPlayingInfo>, CommandError>)
        ensures
            match r {
                Ok(w) => now_playing_of_response(raw@) == Ok::<
                    (NowPlayingInfoView, Seq<ServiceOptionType>),
                    CommandErrorView,
                >((w.value@, w.options@)),
                Err(e) => now_playing_of_response(raw@) == Err::<
                    (NowPlayingInfoView, Seq<ServiceOptionType>),
                    CommandErrorView,
                >(e@),
            },
    {
        raw.validate_command()?;
        let options = options_from_response(raw, NowPlayingInfo::option_key())?;
        let value = NowPlayingInfo::from_json(raw.payload()?)?;
        Ok(WithOptions { value, options })
    }

    open spec fn raw(&self) -> RawCommandView {
        let params = Seq::empty();
        let params = with_param(params, "pid"@, int_text(self.player_id.0 as int));
        RawCommandView { group: "player"@, command: "get_now_playing_media"@, params }
    }

    fn to_raw(&self) -> (r: RawCommand) {
        let mut r = RawCommand::new("player", "get_now_playing_media");
        r.param("pid", self.player_id.to_string().as_str());
        r
    }
}

/// Asks for the volume of a player.
#[derive(Clone, Copy, Debug)]
pub struct GetVolume {
    /// The player that the command is for.
    pub player_id: PlayerId,
}

impl Command for GetVolume {
    type Response = Volume;

    fn response(raw: &RawResponse) -> (r: Result<Volume, CommandError>)
        ensures
            tells(r, checked(raw@, message_value::<Volume>(raw@.message, "level"@))),
    {
        raw.validate_command()?;
        read_message_value::<Volume>(raw.heos.message.as_str(), "level")
    }

    open spec fn raw(&self) -> RawCommandView {
        let params = Seq::empty();
        let params = with_param(params, "pid"@, int_text(self.player_id.0 as int));
        RawCommandView { group: "player"@, command: "get_volume"@, params }
    }

    fn to_raw(&self) -> (r: RawCommand) {
        let mut r = RawCommand::new("player", "get_volume");
        r.param("pid", self.player_id.to_string().as_str());
        r
    }
}

/// Sets the volume of a player.
#[derive(Clone, Copy, Debug)]
pub struct SetVolume {
    /// The player that the command is for.
    pub player_id: PlayerId,
    /// The new volume.
    pub level: Volume,
}

impl Command for SetVolume {
    type Response = ();

    fn response(raw: &RawResponse) -> (r: Result<(), CommandError>)
        ensures
            tells(r, validated(raw@)),
    {
        raw.validate_command()
    }

    open spec fn raw(&self) -> RawCommandView {
        let params = Seq::empty();
        let params = with_param(params, "pid"@, int_text(self.player_id.0 as int));
        let params = with_param(params, "level"@, int_text(self.level@));
        RawCommandView { group: "player"@, command: "set_volume"@, params }
    }

    fn to_raw(&self) -> (r: RawCommand) {
        let mut r = RawCommand::new("player", "set_volume");
        r.param("pid", self.player_id.to_string().as_str());
        r.param("level", self.level.to_string().as_str());
        r
    }
}

/// Raises the volume of a player by a step.
#[derive(Clone, Copy, Debug)]
pub struct VolumeUp {
    /// The player that the command is for.
    pub player_id: PlayerId,
    /// How far to raise it; the system takes 5 where none is given.
    pub step: Option<VolumeStep>,
}

impl Command for VolumeUp {
    type Response = ();

    fn response(raw: &RawResponse) -> (r: Result<(), CommandError>)
        ensures
            tells(r, validated(raw@)),
    {
        raw.validate_command()
    }

    open spec fn raw(&self) -> RawCommandView {
        let params = Seq::empty();
        let params = with_param(params, "pid"@, int_text(self.player_id.0 as int));
        let params = with_opt_param(
            params,
            "step"@,
            match self.step {
                Some(v) => Some(int_text(v@)),
                None => None,
            },
        );
        RawCommandView { group: "player"@, command: "volume_up"@, params }
    }

    fn to_raw(&self) -> (r: RawCommand) {
        let mut r = RawCommand::new("player", "volume_up");
        r.param("pid", self.player_id.to_string().as_str());
        match &self.step {
            Some(v) => r.param("step", v.to_string().as_str()),
            None => {},
        }
        r
    }
}

/// Lowers the volume of a player by a step.
#[derive(Clone, Copy, Debug)]
pub struct VolumeDown {
    /// The player that the command is for.
    pub player_id: PlayerId,
    /// How far to lower it; the system takes 5 where none is given.
    pub step: Option<VolumeStep>,
}

impl Command for VolumeDown {
    type Response = ();

    fn response(raw: &RawResponse) -> (r: Result<(), CommandError>)
        ensures
            tells(r, validated(raw@)),
    {
        raw.validate_command()
    }

    open spec fn raw(&self) -> RawCommandView {
        let params = Seq::empty();
        let params = with_param(params, "pid"@, int_text(self.player_id.0 as int));
        let params = with_opt_param(
            params,
            "step"@,
            match self.step {
                Some(v) => Some(int_text(v@)),
                None => None,
            },
        );
        RawCommandView { group: "player"@, command: "volume_down"@, params }
    }

    fn to_raw(&self) -> (r: RawCommand) {
        let mut r = RawCommand::new("player", "volume_down");
        r.param("pid", self.player_id.to_string().as_str());
        match &self.step {
            Some(v) => r.param("step", v.to_string().as_str()),
            None => {},
        }
        r
    }
}

/// Asks whether a player is muted.
#[derive(Clone, Copy, Debug)]
pub struct GetMute {
    /// The player that the command is for.
    pub player_id: PlayerId,
}

impl Command for GetMute {
    type Response = MuteState;

    fn response(raw: &RawResponse) -> (r: Result<MuteState, CommandError>)
        ensures
            tells(r, checked(raw@, message_value::<MuteState>(raw@.message, "state"@))),
    {
        raw.validate_command()?;
        read_message_value::<MuteState>(raw.heos.message.as_str(), "state")
    }

    open spec fn raw(&self) -> RawCommandView {
        let params = Seq::empty();
        let params = with_param(params, "pid"@, int_text(self.player_id.0 as int));
        RawCommandView { group: "player"@, command: "get_mute"@, params }
    }

    fn to_raw(&self) -> (r: RawCommand) {
        let mut r = RawCommand::new("player", "get_mute");
        r.param("pid", self.player_id.to_string().as_str());
        r
    }
}

/// Mutes a player or ends its mute.
#[derive(Clone, Copy, Debug)]
pub struct SetMute {
    /// The player that the command is for.
    pub player_id: PlayerId,
    /// The new mute state.
    pub state: MuteState,
}

impl Command for SetMute {
    type Response = ();

    fn response(raw: &RawResponse) -> (r: Result<(), CommandError>)
        ensures
            tells(r, validated(raw@)),
    {
        raw.validate_command()
    }

    open spec fn raw(&self) -> RawCommandView {
        let params = Seq::empty();
        let params = with_param(params, "pid"@, int_text(self.player_id.0 as int));
        let params = with_param(params, "state"@, self.state.wire());
        RawCommandView { group: "player"@, command: "set_mute"@, params }
    }

    fn to_raw(&self) -> (r: RawCommand) {
        let mut r = RawCommand::new("player", "set_mute");
        r.param("pid", self.player_id.to_string().as_str());
        r.param("state", self.state.as_str());
        r
    }
}

/// Turns the mute of a player around.
#[derive(Clone, Copy, Debug)]
pub struct ToggleMute {
    /// The player that the command is for.
    pub player_id: PlayerId,
}

impl Command for ToggleMute {
    type Response = ();

    fn response(raw: &RawResponse) -> (r: Result<(), CommandError>)
        ensures
            tells(r, validated(raw@)),
    {
        raw.validate_command()
    }

    open spec fn raw(&self) -> RawCommandView {
        let params = Seq::empty();
        let params = with_param(params, "pid"@, int_text(self.player_id.0 as int));
        RawCommandView { group: "player"@, command: "toggle_mute"@, params }
    }

    fn to_raw(&self) -> (r: RawCommand) {
        let mut r = RawCommand::new("player", "toggle_mute");
        r.param("pid", self.player_id.to_string().as_str());
        r
    }
}

/// Asks for the repeat and shuffle mode of a player.
#[derive(Clone, Copy, Debug)]
pub struct GetPlayMode {
    /// The player that the command is for.
    pub player_id: PlayerId,
}

impl Command for GetPlayMode {
    type Response = PlayMode;

    fn response(raw: &RawResponse) -> (r: Result<PlayMode, CommandError>)
        ensures
            tells(r, checked(raw@, play_mode_of_message(raw@.message))),
    {
        raw.validate_command()?;
        let repeat = read_message_value::<RepeatMode>(raw.heos.message.as_str(), "repeat")?;
        let shuffle = read_message_value::<ShuffleMode>(raw.heos.message.as_str(), "shuffle")?;
        Ok(PlayMode { repeat, shuffle })
    }

    open spec fn raw(&self) -> RawCommandView {
        let params = Seq::empty();
        let params = with_param(params, "pid"@, int_text(self.player_id.0 as int));
        RawCommandView { group: "player"@, command: "get_play_mode"@, params }
    }

    fn to_raw(&self) -> (r: RawCommand) {
        let mut r = RawCommand::new("player", "get_play_mode");
        r.param("pid", self.player_id.to_string().as_str());
        r
    }
}

/// Sets the repeat mode, the shuffle mode or both.
#[derive(Clone, Copy, Debug)]
pub struct SetPlayMode {
    /// The player that the command is for.
    pub player_id: PlayerId,
    /// The new repeat mode, if it is to change.
    pub repeat: Option<RepeatMode>,
    /// The new shuffle mode, if it is to change.
    pub shuffle: Option<ShuffleMode>,
}

impl Command for SetPlayMode {
    type Response = ();

    fn response(raw: &RawResponse) -> (r: Result<(), CommandError>)
        ensures
            tells(r, validated(raw@)),
    {
        raw.validate_command()
    }

    open spec fn raw(&self) -> RawCommandView {
        let params = Seq::empty();
        let params = with_param(params, "pid"@, int_text(self.player_id.0 as int));
        let params = with_opt_param(
            params,
            "repeat"@,
            match self.repeat {
                Some(v) => Some(v.wire()),
                None => None,
            },
        );
        let params = with_opt_param(
            params,
            "shuffle"@,
            match self.shuffle {
                Some(v) => Some(v.wire()),
                None => None,
            },
        );
        RawCommandView { group: "player"@, command: "set_play_mode"@, params }
    }

    fn to_raw(&self) -> (r: RawCommand) {
        let mut r = RawCommand::new("player", "set_play_mode");
        r.param("pid", self.player_id.to_string().as_str());
        match &self.repeat {
            Some(v) => r.param("repeat", v.as_str()),
            None => {},
        }
        match &self.shuffle {
            Some(v) => r.param("shuffle", v.as_str()),
            None => {},
        }
        r
    }
}

/// Asks for the queue of a player, or for a part of it.
#[derive(Clone, Copy, Debug)]
pub struct GetQueue {
    /// The player that the command is for.
    pub player_id: PlayerId,
    /// First and last place to return, both included; all where none is
    /// given.
    pub range: Option<(usize, usize)>,
}

impl Command for GetQueue {
    type Response = Vec<QueuedTrackInfo>;

    fn response(raw: &RawResponse) -> (r: Result<Vec<QueuedTrackInfo>, CommandError>)
        ensures
            told_list(
                r,
                checked(
                    raw@,
                    match payload_of(raw@) {
                        Ok(p) => queued_track_info_list_of_json(p),
                        Err(e) => Err(e),
                    },
                ),
            ),
    {
        raw.validate_command()?;
        queued_track_info_list_from_json(raw.payload()?)
    }

    open spec fn raw(&self) -> RawCommandView {
        let params = Seq::empty();
        let params = with_param(params, "pid"@, int_text(self.player_id.0 as int));
        let params = with_opt_param(
            params,
            "range"@,
            match self.range {
                Some(v) => Some(range_text(v)),
                None => None,
            },
        );
        RawCommandView { group: "player"@, command: "get_queue"@, params }
    }

    fn to_raw(&self) -> (r: RawCommand) {
        let mut r = RawCommand::new("player", "get_queue");
        r.param("pid", self.player_id.to_string().as_str());
        match &self.range {
            Some(v) => r.param("range", range_to_string((*v)).as_str()),
            None => {},
        }
        r
    }
}

/// Plays a track of the queue.
#[derive(Clone, Copy, Debug)]
pub struct PlayQueueItem {
    /// The player that the command is for.
    pub player_id: PlayerId,
    /// The place of the track in the queue.
    pub queue_id: QueueId,
}

impl Command for PlayQueueItem {
    type Response = ();

    fn response(raw: &RawResponse) -> (r: Result<(), CommandError>)
        ensures
            tells(r, validated(raw@)),
    {
        raw.validate_command()
    }

    open spec fn raw(&self) -> RawCommandView {
        let params = Seq::empty();
        let params = with_param(params, "pid"@, int_text(self.player_id.0 as int));
        let params = with_param(params, "qid"@, int_text(self.queue_id.0 as int));
        RawCommandView { group: "player"@, command: "play_queue"@, params }
    }

    fn to_raw(&self) -> (r: RawCommand) {
        let mut r = RawCommand::new("player", "play_queue");
        r.param("pid", self.player_id.to_string().as_str());
        r.param("qid", self.queue_id.to_string().as_str());
        r
    }
}

/// Takes tracks out of the queue.
#[derive(Debug)]
pub struct RemoveFromQueue {
    /// The player that the command is for.
    pub player_id: PlayerId,
    /// The places of the tracks to take out.
    pub queue_ids: Vec<QueueId>,
}

impl Command for RemoveFromQueue {
    type Response = ();

    fn response(raw: &RawResponse) -> (r: Result<(), CommandError>)
        ensures
            tells(r, validated(raw@)),
    {
        raw.validate_command()
    }

    open spec fn raw(&self) -> RawCommandView {
        let params = Seq::empty();
        let params = with_param(params, "pid"@, int_text(self.player_id.0 as int));
        let params = with_param(
            params,
            "qid"@,
            joined(self.queue_ids@.map_values(|id: QueueId| int_text(id.0 as int))),
        );
        RawCommandView { group: "player"@, command: "remove_from_queue"@, params }
    }

    fn to_raw(&self) -> (r: RawCommand) {
        let mut r = RawCommand::new("player", "remove_from_queue");
        r.param("pid", self.player_id.to_string().as_str());
        r.param("qid", join_queue_ids(&self.queue_ids).as_str());
        r
    }
}

/// Saves the queue as a playlist.
#[derive(Debug)]
pub struct SaveQueue {
    /// The player that the command is for.
    pub player_id: PlayerId,
    /// Name of the playlist.
    pub name: String,
}

impl Command for SaveQueue {
    type Response = ();

    fn response(raw: &RawResponse) -> (r: Result<(), CommandError>)
        ensures
            tells(r, validated(raw@)),
    {
        raw.validate_command()
    }

    open spec fn raw(&self) -> RawCommandView {
        let params = Seq::empty();
        let params = with_param(params, "pid"@, int_text(self.player_id.0 as int));
        let params = with_param(params, "name"@, self.name@);
        RawCommandView { group: "player"@, command: "save_queue"@, params }
    }

    fn to_raw(&self) -> (r: RawCommand) {
        let mut r = RawCommand::new("player", "save_queue");
        r.param("pid", self.player_id.to_string().as_str());
        r.param("name", self.name.as_str());
        r
    }
}

/// Empties the queue.
#[derive(Clone, Copy, Debug)]
pub struct ClearQueue {
    /// The player that the command is for.
    pub player_id: PlayerId,
}

impl Command for ClearQueue {
    type Response = ();

    fn response(raw: &RawResponse) -> (r: Result<(), CommandError>)
        ensures
            tells(r, validated(raw@)),
    {
        raw.validate_command()
    }

    open spec fn raw(&self) -> RawCommandView {
        let params = Seq::empty();
        let params = with_param(params, "pid"@, int_text(self.player_id.0 as int));
        RawCommandView { group: "player"@, command: "clear_queue"@, params }
    }

    fn to_raw(&self) -> (r: RawCommand) {
        let mut r = RawCommand::new("player", "clear_queue");
        r.param("pid", self.player_id.to_string().as_str());
        r
    }
}

/// Moves tracks within the queue: the tracks named land, as one block, in
/// front of the destination.
#[derive(Debug)]
pub struct MoveQueue {
    /// The player that the command is for.
    pub player_id: PlayerId,
    /// The places of the tracks to move.
    pub src_queue_ids: Vec<QueueId>,
    /// The place in front of which the tracks land.
    pub dst_queue_id: QueueId,
}

impl Command for MoveQueue {
    type Response = ();

    fn response(raw: &RawResponse) -> (r: Result<(), CommandError>)
        ensures
            tells(r, validated(raw@)),
    {
        raw.validate_command()
    }

    open spec fn raw(&self) -> RawCommandView {
        let params = Seq::empty();
        let params = with_param(params, "pid"@, int_text(self.player_id.0 as int));
        let params = with_param(
            params,
            "sqid"@,
            joined(self.src_queue_ids@.map_values(|id: QueueId| int_text(id.0 as int))),
        );
        let params = with_param(params, "dqid"@, int_text(self.dst_queue_id.0 as int));
        RawCommandView { group: "player"@, command: "move_queue_item"@, params }
    }

    fn to_raw(&self) -> (r: RawCommand) {
        let mut r = RawCommand::new("player", "move_queue_item");
        r.param("pid", self.player_id.to_string().as_str());
        r.param("sqid", join_queue_ids(&self.src_queue_ids).as_str());
        r.param("dqid", self.dst_queue_id.to_string().as_str());
        r
    }
}

/// Plays the next track of the queue.
#[derive(Clone, Copy, Debug)]
pub struct PlayNext {
    /// The player that the command is for.
    pub player_id: PlayerId,
}

impl Command for PlayNext {
    type Response = ();

    fn response(raw: &RawResponse) -> (r: Result<(), CommandError>)
        ensures
            tells(r, validated(raw@)),
    {
        raw.validate_command()
    }

    open spec fn raw(&self) -> RawCommandView {
        let params = Seq::empty();
        let params = with_param(params, "pid"@, int_text(self.player_id.0 as int));
        RawCommandView { group: "player"@, command: "play_next"@, params }
    }

    fn to_raw(&self) -> (r: RawCommand) {
        let mut r = RawCommand::new("player", "play_next");
        r.param("pid", self.player_id.to_string().as_str());
        r
    }
}

/// Plays the track that played before.
#[derive(Clone, Copy, Debug)]
pub struct PlayPrevious {
    /// The player that the command is for.
    pub player_id: PlayerId,
}

impl Command for PlayPrevious {
    type Response = ();

    fn response(raw: &RawResponse) -> (r: Result<(), CommandError>)
        ensures
            tells(r, validated(raw@)),
    {
        raw.validate_command()
    }

    open spec fn raw(&self) -> RawCommandView {
        let params = Seq::empty();
        let params = with_param(params, "pid"@, int_text(self.player_id.0 as int));
        RawCommandView { group: "player"@, command: "play_previous"@, params }
    }

    fn to_raw(&self) -> (r: RawCommand) {
        let mut r = RawCommand::new("player", "play_previous");
        r.param("pid", self.player_id.to_string().as_str());
        r
    }
}

/// Stores what plays now in a quick-select slot.
#[derive(Clone, Copy, Debug)]
pub struct SetQuickSelect {
    /// The player that the command is for.
    pub player_id: PlayerId,
    /// The slot.
    pub id: QuickSelectId,
}

impl Command for SetQuickSelect {
    type Response = ();

    fn response(raw: &RawResponse) -> (r: Result<(), CommandError>)
        ensures
            tells(r, validated(raw@)),
    {
        raw.validate_command()
    }

    open spec fn raw(&self) -> RawCommandView {
        let params = Seq::empty();
        let params = with_param(params, "pid"@, int_text(self.player_id.0 as int));
        let params = with_param(params, "id"@, int_text(self.id@));
        RawCommandView { group: "player"@, command: "set_quickselect"@, params }
    }

    fn to_raw(&self) -> (r: RawCommand) {
        let mut r = RawCommand::new("player", "set_quickselect");
        r.param("pid", self.player_id.to_string().as_str());
        r.param("id", self.id.to_string().as_str());
        r
    }
}

/// Plays a quick-select slot.
#[derive(Clone, Copy, Debug)]
pub struct PlayQuickSelect {
    /// The player that the command is for.
    pub player_id: PlayerId,
    /// The slot.
    pub id: QuickSelectId,
}

impl Command for PlayQuickSelect {
    type Response = ();

    fn response(raw: &RawResponse) -> (r: Result<(), CommandError>)
        ensures
            tells(r, validated(raw@)),
    {
        raw.validate_command()
    }

    open spec fn raw(&self) -> RawCommandView {
        let params = Seq::empty();
        let params = with_param(params, "pid"@, int_text(self.player_id.0 as int));
        let params = with_param(params, "id"@, int_text(self.id@));
        RawCommandView { group: "player"@, command: "play_quickselect"@, params }
    }

    fn to_raw(&self) -> (r: RawCommand) {
        let mut r = RawCommand::new("player", "play_quickselect");
        r.param("pid", self.player_id.to_string().as_str());
        r.param("id", self.id.to_string().as_str());
        r
    }
}

/// Asks for the quick-select slots of a player, or for one of them.
#[derive(Clone, Copy, Debug)]
pub struct GetQuickSelects {
    /// The player that the command is for.
    pub player_id: PlayerId,
    /// The slot to return; all where none is given.
    pub id: Option<QuickSelectId>,
}

impl Command for GetQuickSelects {
    type Response = Vec<QuickSelect>;

    fn response(raw: &RawResponse) -> (r: Result<Vec<QuickSelect>, CommandError>)
        ensures
            told_list(
                r,
                checked(
                    raw@,
                    match payload_of(raw@) {
                        Ok(p) => quick_select_list_of_json(p),
                        Err(e) => Err(e),
                    },
                ),
            ),
    {
        raw.validate_command()?;
        quick_select_list_from_json(raw.payload()?)
    }

    open spec fn raw(&self) -> RawCommandView {
        let params = Seq::empty();
        let params = with_param(params, "pid"@, int_text(self.player_id.0 as int));
        let params = with_opt_param(
            params,
            "id"@,
            match self.id {
                Some(v) => Some(int_text(v@)),
                None => None,
            },
        );
        RawCommandView { group: "player"@, command: "get_quickselects"@, params }
    }

    fn to_raw(&self) -> (r: RawCommand) {
        let mut r = RawCommand::new("player", "get_quickselects");
        r.param("pid", self.player_id.to_string().as_str());
        match &self.id {
            Some(v) => r.param("id", v.to_string().as_str()),
            None => {},
        }
        r
    }
}

/// Asks whether new firmware is available for a player.
#[derive(Clone, Copy, Debug)]
pub struct CheckUpdate {
    /// The player that the command is for.
    pub player_id: PlayerId,
}

impl Command for CheckUpdate {
    type Response = UpdatePayload;

    fn response(raw: &RawResponse) -> (r: Result<UpdatePayload, CommandError>)
        ensures
            told(
                r,
                checked(
                    raw@,
                    match payload_of(raw@) {
                        Ok(p) => update_payload_of_json(p),
                        Err(e) => Err(e),
                    },
                ),
            ),
    {
        raw.validate_command()?;
        UpdatePayload::from_json(raw.payload()?)
    }

    open spec fn raw(&self) -> RawCommandView {
        let params = Seq::empty();
        let params = with_param(params, "pid"@, int_text(self.player_id.0 as int));
        RawCommandView { group: "player"@, command: "check_update"@, params }
    }

    fn to_raw(&self) -> (r: RawCommand) {
        let mut r = RawCommand::new("player", "check_update");
        r.param("pid", self.player_id.to_string().as_str());
        r
    }
}

} // verus!
