//! Change events: what a system sends, unasked, when its state changes.

use vstd::prelude::*;
use vstd::string::*;
use crate::command::error::{CommandError, CommandErrorView};
use crate::data::common::{MuteState, Volume};
use crate::data::group::GroupId;
use crate::data::player::{PlayState, PlayerId, RepeatMode, ShuffleMode};
use crate::data::query::{field, message_field};
use crate::data::response::{RawResponse, RawResponseView};
use crate::data::system::{account_of_fields, AccountStatus, AccountStatusView};
use crate::text::{concat3, opt_str, opt_text, parse_u64, text_u64};

verus! {

/// The play state of a player changed.
#[derive(Clone, Copy, Debug, PartialEq, Eq, Structural)]
pub struct PlayerStateChanged {
    /// The player that changed.
    pub player_id: PlayerId,
    /// Its new play state.
    pub state: PlayState,
}

/// The track that a player plays changed.
#[derive(Clone, Copy, Debug, PartialEq, Eq, Structural)]
pub struct PlayerNowPlayingChanged {
    /// The player that changed.
    pub player_id: PlayerId,
}

/// A player has moved on within its track.
#[derive(Clone, Copy, Debug, PartialEq, Eq, Structural)]
pub struct PlayerNowPlayingProgress {
    /// The player that moved on.
    pub player_id: PlayerId,
    /// How much of the track has played, in milliseconds.
    pub elapsed: u64,
    /// How long the track is, in milliseconds.
    pub duration: u64,
}

/// A player could not play something.
#[derive(Debug)]
pub struct PlayerPlaybackError {
    /// The player that failed.
    pub player_id: PlayerId,
    /// What it says about the failure.
    pub error: String,
}

/// The queue of a player changed.
#[derive(Clone, Copy, Debug, PartialEq, Eq, Structural)]
pub struct PlayerQueueChanged {
    /// The player that changed.
    pub player_id: PlayerId,
}

/// The volume of a player changed.
#[derive(Clone, Copy, Debug, PartialEq, Eq, Structural)]
pub struct PlayerVolumeChanged {
    /// The player that changed.
    pub player_id: PlayerId,
    /// Its new volume.
    pub level: Volume,
    /// Its new mute state.
    pub mute: MuteState,
}

/// The repeat mode of a player changed.
#[derive(Clone, Copy, Debug, PartialEq, Eq, Structural)]
pub struct PlayerRepeatModeChanged {
    /// The player that changed.
    pub player_id: PlayerId,
    /// Its new repeat mode.
    pub repeat: RepeatMode,
}

/// The shuffle mode of a player changed.
#[derive(Clone, Copy, Debug, PartialEq, Eq, Structural)]
pub struct PlayerShuffleModeChanged {
    /// The player that changed.
    pub player_id: PlayerId,
    /// Its new shuffle mode.
    pub shuffle: ShuffleMode,
}

/// The volume of a group changed.
#[derive(Clone, Copy, Debug, PartialEq, Eq, Structural)]
pub struct GroupVolumeChanged {
    /// The group that changed.
    pub group_id: GroupId,
    /// Its new volume.
    pub level: Volume,
    /// Its new mute state.
    pub mute: MuteState,
}

/// Another user signed in, or the user signed out.
#[derive(Debug)]
pub struct UserChanged {
    /// The new status of the account.
    pub account: AccountStatus,
}

/// Everything that a system can report.
#[derive(Debug)]
pub enum Event {
    /// The music sources changed: ask for them again.
    SourcesChanged,
    /// The players changed: ask for them again.
    PlayersChanged,
    /// The groups changed: ask for them again.
    GroupsChanged,
    /// The play state of a player changed.
    PlayerStateChanged(PlayerStateChanged),
    /// The track of a player changed: ask for it again.
    PlayerNowPlayingChanged(PlayerNowPlayingChanged),
    /// A player has moved on within its track.
    PlayerNowPlayingProgress(PlayerNowPlayingProgress),
    /// A player could not play something.
    PlayerPlaybackError(PlayerPlaybackError),
    /// The queue of a player changed: ask for it again.
    PlayerQueueChanged(PlayerQueueChanged),
    /// The volume of a player changed.
    PlayerVolumeChanged(PlayerVolumeChanged),
    /// The repeat mode of a player changed.
    PlayerRepeatModeChanged(PlayerRepeatModeChanged),
    /// The shuffle mode of a player changed.
    PlayerShuffleModeChanged(PlayerShuffleModeChanged),
    /// The volume of a group changed.
    GroupVolumeChanged(GroupVolumeChanged),
    /// The signed-in user changed.
    UserChanged(UserChanged),
}

/// An `Event` as plain values.
pub ghost enum EventView {
    SourcesChanged,
    PlayersChanged,
    GroupsChanged,
    PlayerStateChanged(PlayerStateChanged),
    PlayerNowPlayingChanged(PlayerNowPlayingChanged),
    PlayerNowPlayingProgress(PlayerNowPlayingProgress),
    PlayerPlaybackError { player_id: PlayerId, error: Seq<char> },
    PlayerQueueChanged(PlayerQueueChanged),
    PlayerVolumeChanged { player_id: PlayerId, level: int, mute: MuteState },
    PlayerRepeatModeChanged(PlayerRepeatModeChanged),
    PlayerShuffleModeChanged(PlayerShuffleModeChanged),
    GroupVolumeChanged { group_id: GroupId, level: int, mute: MuteState },
    UserChanged(AccountStatusView),
}

impl View for Event {
    type V = EventView;

    open spec fn view(&self) -> EventView {
        match self {
            Event::SourcesChanged => EventView::SourcesChanged,
            Event::PlayersChanged => EventView::PlayersChanged,
            Event::GroupsChanged => EventView::GroupsChanged,
            Event::PlayerStateChanged(e) => EventView::PlayerStateChanged(*e),
            Event::PlayerNowPlayingChanged(e) => EventView::PlayerNowPlayingChanged(*e),
            Event::PlayerNowPlayingProgress(e) => EventView::PlayerNowPlayingProgress(*e),
            Event::PlayerPlaybackError(e) => EventView::PlayerPlaybackError {
                player_id: e.player_id,
                error: e.error@,
            },
            Event::PlayerQueueChanged(e) => EventView::PlayerQueueChanged(*e),
            Event::PlayerVolumeChanged(e) => EventView::PlayerVolumeChanged {
                player_id: e.player_id,
                level: e.level@,
                mute: e.mute,
            },
            Event::PlayerRepeatModeChanged(e) => EventView::PlayerRepeatModeChanged(*e),
            Event::PlayerShuffleModeChanged(e) => EventView::PlayerShuffleModeChanged(*e),
            Event::GroupVolumeChanged(e) => EventView::GroupVolumeChanged {
                group_id: e.group_id,
                level: e.level@,
                mute: e.mute,
            },
            Event::UserChanged(e) => EventView::UserChanged(e.account@),
        }
    }
}

impl Clone for Event {
    fn clone(&self) -> (r: Self)
        ensures
            r@ == self@,
    {
        match self {
            Event::SourcesChanged => Event::SourcesChanged,
            Event::PlayersChanged => Event::PlayersChanged,
            Event::GroupsChanged => Event::GroupsChanged,
            Event::PlayerStateChanged(e) => Event::PlayerStateChanged(*e),
            Event::PlayerNowPlayingChanged(e) => Event::PlayerNowPlayingChanged(*e),
            Event::PlayerNowPlayingProgress(e) => Event::PlayerNowPlayingProgress(*e),
            Event::PlayerPlaybackError(e) => Event::PlayerPlaybackError(
                PlayerPlaybackError { player_id: e.player_id, error: e.error.clone() },
            ),
            Event::PlayerQueueChanged(e) => Event::PlayerQueueChanged(*e),
            Event::PlayerVolumeChanged(e) => Event::PlayerVolumeChanged(*e),
            Event::PlayerRepeatModeChanged(e) => Event::PlayerRepeatModeChanged(*e),
            Event::PlayerShuffleModeChanged(e) => Event::PlayerShuffleModeChanged(*e),
            Event::GroupVolumeChanged(e) => Event::GroupVolumeChanged(*e),
            Event::UserChanged(e) => Event::UserChanged(UserChanged { account: e.account.clone() }),
        }
    }
}

/// Why a frame could not be read as an event.
#[derive(Debug)]
pub enum ParseEventError {
    /// A field of the message is missing or holds a value of the wrong
    /// kind; the text says which.
    DeserializeError(String),
    /// The account status could not be read.
    CommandError(CommandError),
    /// The system sent an event that this library does not know; the text
    /// is the event's path.
    UnknownEvent(String),
}

/// A `ParseEventError` as plain values.
pub ghost enum ParseEventErrorView {
    DeserializeError(Seq<char>),
    CommandError(CommandErrorView),
    UnknownEvent(Seq<char>),
}

impl View for ParseEventError {
    type V = ParseEventErrorView;

    open spec fn view(&self) -> ParseEventErrorView {
        match self {
            ParseEventError::DeserializeError(t) => ParseEventErrorView::DeserializeError(t@),
            ParseEventError::CommandError(e) => ParseEventErrorView::CommandError(e@),
            ParseEventError::UnknownEvent(t) => ParseEventErrorView::UnknownEvent(t@),
        }
    }
}

/// The fields of a message that events are made of, each as `qstring`
/// finds it.
#[derive(Debug)]
pub struct EventFields {
    pub pid: Option<String>,
    pub gid: Option<String>,
    pub state: Option<String>,
    pub cur_pos: Option<String>,
    pub duration: Option<String>,
    pub error: Option<String>,
    pub level: Option<String>,
    pub mute: Option<String>,
    pub repeat: Option<String>,
    pub shuffle: Option<String>,
    pub signed_out: Option<String>,
    pub signed_in: Option<String>,
    pub un: Option<String>,
}

/// `EventFields` as plain values.
pub ghost struct EventFieldsView {
    pub pid: Option<Seq<char>>,
    pub gid: Option<Seq<char>>,
    pub state: Option<Seq<char>>,
    pub cur_pos: Option<Seq<char>>,
    pub duration: Option<Seq<char>>,
    pub error: Option<Seq<char>>,
    pub level: Option<Seq<char>>,
    pub mute: Option<Seq<char>>,
    pub repeat: Option<Seq<char>>,
    pub shuffle: Option<Seq<char>>,
    pub signed_out: Option<Seq<char>>,
    pub signed_in: Option<Seq<char>>,
    pub un: Option<Seq<char>>,
}

impl View for EventFields {
    type V = EventFieldsView;

    open spec fn view(&self) -> EventFieldsView {
        EventFieldsView {
            pid: opt_text(self.pid),
            gid: opt_text(self.gid),
            state: opt_text(self.state),
            cur_pos: opt_text(self.cur_pos),
            duration: opt_text(self.duration),
            error: opt_text(self.error),
            level: opt_text(self.level),
            mute: opt_text(self.mute),
            repeat: opt_text(self.repeat),
            shuffle: opt_text(self.shuffle),
            signed_out: opt_text(self.signed_out),
            signed_in: opt_text(self.signed_in),
            un: opt_text(self.un),
        }
    }
}

/// The event fields of a message.
pub open spec fn fields_of_message(message: Seq<char>) -> EventFieldsView {
    EventFieldsView {
        pid: message_field(message, "pid"@),
        gid: message_field(message, "gid"@),
        state: message_field(message, "state"@),
        cur_pos: message_field(message, "cur_pos"@),
        duration: message_field(message, "duration"@),
        error: message_field(message, "error"@),
        level: message_field(message, "level"@),
        mute: message_field(message, "mute"@),
        repeat: message_field(message, "repeat"@),
        shuffle: message_field(message, "shuffle"@),
        signed_out: message_field(message, "signed_out"@),
        signed_in: message_field(message, "signed_in"@),
        un: message_field(message, "un"@),
    }
}

/// The error for an event that lacks the field `name`.
pub open spec fn missing(name: Seq<char>) -> ParseEventErrorView {
    ParseEventErrorView::DeserializeError("missing field `"@ + name + "`"@)
}

/// The error for an event whose field `name` holds a value of the wrong
/// kind.
pub open spec fn invalid(name: Seq<char>) -> ParseEventErrorView {
    ParseEventErrorView::DeserializeError("invalid value for field `"@ + name + "`"@)
}

/// A field read with `parse`: an error where the field is missing or its
/// text is refused.
pub open spec fn typed<T>(
    value: Option<Seq<char>>,
    name: Seq<char>,
    parse: spec_fn(Seq<char>) -> Option<T>,
) -> Result<T, ParseEventErrorView> {
    match value {
        None => Err(missing(name)),
        Some(t) => match parse(t) {
            Some(v) => Ok(v),
            None => Err(invalid(name)),
        },
    }
}

/// What a volume text stands for: a number in `0..=100`.
pub open spec fn volume_of_text(t: Seq<char>) -> Option<int> {
    match Volume::from_text(t) {
        Ok(v) => Some(v),
        Err(_) => None,
    }
}

/// The event that a path and the fields of a message stand for. The fields
/// are read in the order in which an event's record lists them, and the
/// first that fails decides the error.
pub open spec fn event_of(command: Seq<char>, f: EventFieldsView) -> Result<
    EventView,
    ParseEventErrorView,
> {
    let pid = typed(f.pid, "pid"@, |t: Seq<char>| PlayerId::from_text(t));
    let gid = typed(f.gid, "gid"@, |t: Seq<char>| GroupId::from_text(t));
    if command == "event/sources_changed"@ {
        Ok(EventView::SourcesChanged)
    } else if command == "event/players_changed"@ {
        Ok(EventView::PlayersChanged)
    } else if command == "event/groups_changed"@ {
        Ok(EventView::GroupsChanged)
    } else if command == "event/player_state_changed"@ {
        match pid {
            Err(e) => Err(e),
            Ok(player_id) => match typed(
                f.state,
                "state"@,
                |t: Seq<char>| PlayState::from_wire(t),
            ) {
                Err(e) => Err(e),
                Ok(state) => Ok(
                    EventView::PlayerStateChanged(PlayerStateChanged { player_id, state }),
                ),
            },
        }
    } else if command == "event/player_now_playing_changed"@ {
        match pid {
            Err(e) => Err(e),
            Ok(player_id) => Ok(
                EventView::PlayerNowPlayingChanged(PlayerNowPlayingChanged { player_id }),
            ),
        }
    } else if command == "event/player_now_playing_progress"@ {
        match pid {
            Err(e) => Err(e),
            Ok(player_id) => match typed(f.cur_pos, "cur_pos"@, |t: Seq<char>| text_u64(t)) {
                Err(e) => Err(e),
                Ok(elapsed) => match typed(
                    f.duration,
                    "duration"@,
                    |t: Seq<char>| text_u64(t),
                ) {
                    Err(e) => Err(e),
                    Ok(duration) => Ok(
                        EventView::PlayerNowPlayingProgress(
                            PlayerNowPlayingProgress { player_id, elapsed, duration },
                        ),
                    ),
                },
            },
        }
    } else if command == "event/player_playback_error"@ {
        match pid {
            Err(e) => Err(e),
            Ok(player_id) => match f.error {
                None => Err(missing("error"@)),
                Some(error) => Ok(EventView::PlayerPlaybackError { player_id, error }),
            },
        }
    } else if command == "event/player_queue_changed"@ {
        match pid {
            Err(e) => Err(e),
            Ok(player_id) => Ok(EventView::PlayerQueueChanged(PlayerQueueChanged { player_id })),
        }
    } else if command == "event/player_volume_changed"@ {
        match pid {
            Err(e) => Err(e),
            Ok(player_id) => match typed(f.level, "level"@, |t: Seq<char>| volume_of_text(t)) {
                Err(e) => Err(e),
                Ok(level) => match typed(f.mute, "mute"@, |t: Seq<char>| MuteState::from_wire(t)) {
                    Err(e) => Err(e),
                    Ok(mute) => Ok(EventView::PlayerVolumeChanged { player_id, level, mute }),
                },
            },
        }
    } else if command == "event/repeat_mode_changed"@ {
        match pid {
            Err(e) => Err(e),
            Ok(player_id) => match typed(
                f.repeat,
                "repeat"@,
                |t: Seq<char>| RepeatMode::from_wire(t),
            ) {
                Err(e) => Err(e),
                Ok(repeat) => Ok(
                    EventView::PlayerRepeatModeChanged(
                        PlayerRepeatModeChanged { player_id, repeat },
                    ),
                ),
            },
        }
    } else if command == "event/shuffle_mode_changed"@ {
        match pid {
            Err(e) => Err(e),
            Ok(player_id) => match typed(
                f.shuffle,
                "shuffle"@,
                |t: Seq<char>| ShuffleMode::from_wire(t),
            ) {
                Err(e) => Err(e),
                Ok(shuffle) => Ok(
                    EventView::PlayerShuffleModeChanged(
                        PlayerShuffleModeChanged { player_id, shuffle },
                    ),
                ),
            },
        }
    } else if command == "event/group_volume_changed"@ {
        match gid {
            Err(e) => Err(e),
            Ok(group_id) => match typed(f.level, "level"@, |t: Seq<char>| volume_of_text(t)) {
                Err(e) => Err(e),
                Ok(level) => match typed(f.mute, "mute"@, |t: Seq<char>| MuteState::from_wire(t)) {
                    Err(e) => Err(e),
                    Ok(mute) => Ok(EventView::GroupVolumeChanged { group_id, level, mute }),
                },
            },
        }
    } else if command == "event/user_changed"@ {
        match account_of_fields(f.signed_out, f.signed_in, f.un) {
            Ok(account) => Ok(EventView::UserChanged(account)),
            Err(e) => Err(ParseEventErrorView::CommandError(e)),
        }
    } else {
        Err(ParseEventErrorView::UnknownEvent(command))
    }
}

/// The event that a frame stands for.
pub open spec fn event_of_response(r: RawResponseView) -> Result<EventView, ParseEventErrorView> {
    event_of(r.command, fields_of_message(r.message))
}

/// `r` and `expected` tell the same outcome.
pub open spec fn same_outcome<T: View, E: View>(
    r: Result<T, E>,
    expected: Result<T::V, E::V>,
) -> bool {
    match r {
        Ok(v) => expected == Ok::<T::V, E::V>(v@),
        Err(e) => expected == Err::<T::V, E::V>(e@),
    }
}

fn missing_error(name: &str) -> (e: ParseEventError)
    ensures
        e@ == missing(name@),
{
    ParseEventError::DeserializeError(concat3("missing field `", name, "`"))
}

fn invalid_error(name: &str) -> (e: ParseEventError)
    ensures
        e@ == invalid(name@),
{
    ParseEventError::DeserializeError(concat3("invalid value for field `", name, "`"))
}

fn player_id_field(value: &Option<String>) -> (r: Result<PlayerId, ParseEventError>)
    ensures
        match r {
            Ok(v) => typed(opt_text(*value), "pid"@, |t: Seq<char>| PlayerId::from_text(t)) == Ok::<
                PlayerId,
                ParseEventErrorView,
            >(v),
            Err(e) => typed(opt_text(*value), "pid"@, |t: Seq<char>| PlayerId::from_text(t))
                == Err::<PlayerId, ParseEventErrorView>(e@),
        },
{
    match value {
        None => Err(missing_error("pid")),
        Some(t) => match PlayerId::parse(t.as_str()) {
            Some(v) => Ok(v),
            None => Err(invalid_error("pid")),
        },
    }
}

fn group_id_field(value: &Option<String>) -> (r: Result<GroupId, ParseEventError>)
    ensures
        match r {
            Ok(v) => typed(opt_text(*value), "gid"@, |t: Seq<char>| GroupId::from_text(t)) == Ok::<
                GroupId,
                ParseEventErrorView,
            >(v),
            Err(e) => typed(opt_text(*value), "gid"@, |t: Seq<char>| GroupId::from_text(t))
                == Err::<GroupId, ParseEventErrorView>(e@),
        },
{
    match value {
        None => Err(missing_error("gid")),
        Some(t) => match GroupId::parse(t.as_str()) {
            Some(v) => Ok(v),
            None => Err(invalid_error("gid")),
        },
    }
}

fn millis_field(value: &Option<String>, name: &str) -> (r: Result<u64, ParseEventError>)
    ensures
        match r {
            Ok(v) => typed(opt_text(*value), name@, |t: Seq<char>| text_u64(t)) == Ok::<
                u64,
                ParseEventErrorView,
            >(v),
            Err(e) => typed(opt_text(*value), name@, |t: Seq<char>| text_u64(t)) == Err::<
                u64,
                ParseEventErrorView,
            >(e@),
        },
{
    match value {
        None => Err(missing_error(name)),
        Some(t) => match parse_u64(t.as_str()) {
            Some(v) => Ok(v),
            None => Err(invalid_error(name)),
        },
    }
}

fn volume_field(value: &Option<String>) -> (r: Result<Volume, ParseEventError>)
    ensures
        match r {
            Ok(v) => typed(opt_text(*value), "level"@, |t: Seq<char>| volume_of_text(t)) == Ok::<
                int,
                ParseEventErrorView,
            >(v@),
            Err(e) => typed(opt_text(*value), "level"@, |t: Seq<char>| volume_of_text(t))
                == Err::<int, ParseEventErrorView>(e@),
        },
{
    match value {
        None => Err(missing_error("level")),
        Some(t) => match Volume::parse(t.as_str()) {
            Ok(v) => Ok(v),
            Err(_) => Err(invalid_error("level")),
        },
    }
}

fn mute_field(value: &Option<String>) -> (r: Result<MuteState, ParseEventError>)
    ensures
        match r {
            Ok(v) => typed(opt_text(*value), "mute"@, |t: Seq<char>| MuteState::from_wire(t))
                == Ok::<MuteState, ParseEventErrorView>(v),
            Err(e) => typed(opt_text(*value), "mute"@, |t: Seq<char>| MuteState::from_wire(t))
                == Err::<MuteState, ParseEventErrorView>(e@),
        },
{
    match value {
        None => Err(missing_error("mute")),
        Some(t) => match MuteState::parse(t.as_str()) {
            Some(v) => Ok(v),
            None => Err(invalid_error("mute")),
        },
    }
}

impl EventFields {
    /// Looks up the fields that events are made of.
    pub fn of_message(message: &str) -> (r: Self)
        ensures
            r@ == fields_of_message(message@),
    {
        EventFields {
            pid: field(message, "pid"),
            gid: field(message, "gid"),
            state: field(message, "state"),
            cur_pos: field(message, "cur_pos"),
            duration: field(message, "duration"),
            error: field(message, "error"),
            level: field(message, "level"),
            mute: field(message, "mute"),
            repeat: field(message, "repeat"),
            shuffle: field(message, "shuffle"),
            signed_out: field(message, "signed_out"),
            signed_in: field(message, "signed_in"),
            un: field(message, "un"),
        }
    }
}

impl Event {
    /// The event that a path and the fields of a message stand for.
    pub fn from_fields(command: &str, f: &EventFields) -> (r: Result<Event, ParseEventError>)
        ensures
            same_outcome(r, event_of(command@, f@)),
    {
        if command.eq("event/sources_changed") {
            Ok(Event::SourcesChanged)
        } else if command.eq("event/players_changed") {
            Ok(Event::PlayersChanged)
        } else if command.eq("event/groups_changed") {
            Ok(Event::GroupsChanged)
        } else if command.eq("event/player_state_changed") {
            let player_id = player_id_field(&f.pid)?;
            match &f.state {
                None => Err(missing_error("state")),
                Some(t) => match PlayState::parse(t.as_str()) {
                    Some(state) => Ok(
                        Event::PlayerStateChanged(PlayerStateChanged { player_id, state }),
                    ),
                    None => Err(invalid_error("state")),
                },
            }
        } else if command.eq("event/player_now_playing_changed") {
            let player_id = player_id_field(&f.pid)?;
            Ok(Event::PlayerNowPlayingChanged(PlayerNowPlayingChanged { player_id }))
        } else if command.eq("event/player_now_playing_progress") {
            let player_id = player_id_field(&f.pid)?;
            let elapsed = millis_field(&f.cur_pos, "cur_pos")?;
            let duration = millis_field(&f.duration, "duration")?;
            Ok(
                Event::PlayerNowPlayingProgress(
                    PlayerNowPlayingProgress { player_id, elapsed, duration },
                ),
            )
        } else if command.eq("event/player_playback_error") {
            let player_id = player_id_field(&f.pid)?;
            match &f.error {
                None => Err(missing_error("error")),
                Some(t) => Ok(
                    Event::PlayerPlaybackError(PlayerPlaybackError { player_id, error: t.clone() }),
                ),
            }
        } else if command.eq("event/player_queue_changed") {
            let player_id = player_id_field(&f.pid)?;
            Ok(Event::PlayerQueueChanged(PlayerQueueChanged { player_id }))
        } else if command.eq("event/player_volume_changed") {
            let player_id = player_id_field(&f.pid)?;
            let level = volume_field(&f.level)?;
            let mute = mute_field(&f.mute)?;
            Ok(Event::PlayerVolumeChanged(PlayerVolumeChanged { player_id, level, mute }))
        } else if command.eq("event/repeat_mode_changed") {
            let player_id = player_id_field(&f.pid)?;
            match &f.repeat {
                None => Err(missing_error("repeat")),
                Some(t) => match RepeatMode::parse(t.as_str()) {
                    Some(repeat) => Ok(
                        Event::PlayerRepeatModeChanged(
                            PlayerRepeatModeChanged { player_id, repeat },
                        ),
                    ),
                    None => Err(invalid_error("repeat")),
                },
            }
        } else if command.eq("event/shuffle_mode_changed") {
            let player_id = player_id_field(&f.pid)?;
            match &f.shuffle {
                None => Err(missing_error("shuffle")),
                Some(t) => match ShuffleMode::parse(t.as_str()) {
                    Some(shuffle) => Ok(
                        Event::PlayerShuffleModeChanged(
                            PlayerShuffleModeChanged { player_id, shuffle },
                        ),
                    ),
                    None => Err(invalid_error("shuffle")),
                },
            }
        } else if command.eq("event/group_volume_changed") {
            let group_id = group_id_field(&f.gid)?;
            let level = volume_field(&f.level)?;
            let mute = mute_field(&f.mute)?;
            Ok(Event::GroupVolumeChanged(GroupVolumeChanged { group_id, level, mute }))
        } else if command.eq("event/user_changed") {
            match AccountStatus::from_fields(
                opt_str(&f.signed_out),
                opt_str(&f.signed_in),
                opt_str(&f.un),
            ) {
                Ok(account) => Ok(Event::UserChanged(UserChanged { account })),
                Err(e) => Err(ParseEventError::CommandError(e)),
            }
        } else {
            Err(ParseEventError::UnknownEvent(String::from_str(command)))
        }
    }

    /// Reads a frame as an event.
    pub fn try_from(response: &RawResponse) -> (r: Result<Event, ParseEventError>)
        ensures
            same_outcome(r, event_of_response(response@)),
    {
        let fields = EventFields::of_message(response.heos.message.as_str());
        Self::from_fields(response.heos.command.as_str(), &fields)
    }
}

} // verus!
