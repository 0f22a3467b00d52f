//! The stages of a connection: found, connected, and following the state
//! of the system.
//!
//! ```text
//!  Created --connect--> AdHoc --init_stateful--> Stateful
//! ```
//!
//! A connection holds the books of its channel and, in its last stage, the
//! model. It opens no socket: its owner does, sends what the connection
//! says is to be sent, and hands it what comes back.

use vstd::prelude::*;
use vstd::string::*;
use crate::channel::{after_frame, after_send, ChannelState, ChannelView, Dispatch};
use crate::command::browse::GetSources;
use crate::command::group::{GetGroupMute, GetGroupVolume, GetGroups};
use crate::command::player::{
    GetMute,
    GetNowPlayingMedia,
    GetPlayMode,
    GetPlayState,
    GetPlayers,
    GetQueue,
    GetVolume,
};
use crate::command::raw::{command_path, with_param, RawCommand, RawCommandView};
use crate::command::system::{CheckAccount, RegisterForChangeEvents};
use crate::data::event::Event;
use crate::data::group::GroupId;
use crate::data::player::PlayerId;
use crate::data::response::RawResponse;
use crate::data::system::ChangeEventsEnabled;
use crate::data::url::{address_of_location, host_address, url_host};
use crate::state::model::{after_event, State, Step};
use crate::text::nat_text;

verus! {

/// The port on which a device takes commands.
pub const HEOS_PORT: u16 = 1255;

/// The kind of device to look for when scanning a network.
pub const SEARCH_DOMAIN: &'static str = "schemas-denon-com";

/// The type of device to look for when scanning a network.
pub const SEARCH_DEVICE: &'static str = "ACT-Denon";

/// The version of the device type to look for when scanning a network.
pub const SEARCH_VERSION: u32 = 1;

/// A device that a scan has found and nobody has connected to yet.
#[derive(Debug)]
pub struct Created {
    /// The network address of the device.
    pub ip: String,
}

/// A connection that can send commands and receive replies and events,
/// and keeps no model.
#[derive(Debug)]
pub struct AdHoc {
    /// The books of the channel.
    pub channel: ChannelState,
}

/// A connection that follows the state of the system.
#[derive(Debug)]
pub struct Stateful {
    /// The books of the channel.
    pub channel: ChannelState,
    /// The model.
    pub state: State,
}

/// A connection in one of its stages.
#[derive(Debug)]
pub struct HeosConnection<S> {
    /// What the stage holds.
    pub state: S,
}

/// How long devices may wait before they answer a scan, in seconds, for a
/// scan that lasts `timeout` seconds: as long as the scan, but at least 1
/// and at most 2.
pub open spec fn scan_wait(timeout: u64) -> usize {
    if timeout < 1 {
        1
    } else if timeout > 2 {
        2
    } else {
        timeout as usize
    }
}

/// What to ask the system for when a model is set up, in this order.
#[derive(Clone, Copy, Debug)]
pub struct InitQueries {
    /// Who is signed in.
    pub account: CheckAccount,
    /// The sources.
    pub sources: GetSources,
    /// The players; then, for each of them, `PlayerQueries`.
    pub players: GetPlayers,
    /// The groups; then, for each of them, `GroupQueries`.
    pub groups: GetGroups,
}

/// What to ask the system for to know the state of a player, in this
/// order.
#[derive(Clone, Copy, Debug)]
pub struct PlayerQueries {
    /// What the player plays.
    pub now_playing: GetNowPlayingMedia,
    /// The whole queue.
    pub queue: GetQueue,
    /// Whether the player plays.
    pub play_state: GetPlayState,
    /// The volume.
    pub volume: GetVolume,
    /// Whether the player is muted.
    pub mute: GetMute,
    /// Repeat and shuffle mode.
    pub play_mode: GetPlayMode,
}

/// What to ask the system for to know the state of a group, in this order.
#[derive(Clone, Copy, Debug)]
pub struct GroupQueries {
    /// The volume.
    pub volume: GetGroupVolume,
    /// Whether the group is muted.
    pub mute: GetGroupMute,
}

impl PlayerQueries {
    /// The questions for the player `player_id`.
    pub fn new(player_id: PlayerId) -> (r: Self)
        ensures
            r.now_playing.player_id == player_id,
            r.queue.player_id == player_id,
            r.queue.range is None,
            r.play_state.player_id == player_id,
            r.volume.player_id == player_id,
            r.mute.player_id == player_id,
            r.play_mode.player_id == player_id,
    {
        PlayerQueries {
            now_playing: GetNowPlayingMedia { player_id },
            queue: GetQueue { player_id, range: None },
            play_state: GetPlayState { player_id },
            volume: GetVolume { player_id },
            mute: GetMute { player_id },
            play_mode: GetPlayMode { player_id },
        }
    }
}

impl GroupQueries {
    /// The questions for the group `group_id`.
    pub fn new(group_id: GroupId) -> (r: Self)
        ensures
            r.volume.group_id == group_id,
            r.mute.group_id == group_id,
    {
        GroupQueries { volume: GetGroupVolume { group_id }, mute: GetGroupMute { group_id } }
    }
}

impl HeosConnection<Created> {
    /// A device at the network address `ip`.
    pub fn new(ip: String) -> (r: Self)
        ensures
            r.state.ip == ip,
    {
        HeosConnection { state: Created { ip } }
    }

    /// How long devices may wait before they answer a scan that lasts
    /// `timeout` seconds.
    pub fn scan_wait(timeout: u64) -> (r: usize)
        ensures
            r == scan_wait(timeout),
            1 <= r <= 2,
    {
        if timeout < 1 {
            1
        } else if timeout > 2 {
            2
        } else {
            timeout as usize
        }
    }

    /// The device that answered a scan with the address `location`, where
    /// that address names the device by number. Other answers are passed
    /// over.
    pub fn from_location(location: &str) -> (r: Option<Self>)
        ensures
            match r {
                Some(c) => host_address(url_host(location@)) == Some(c.state.ip@),
                None => host_address(url_host(location@)) is None,
            },
    {
        match address_of_location(location) {
            Some(ip) => Some(HeosConnection { state: Created { ip } }),
            None => None,
        }
    }

    /// The network address of the device.
    pub fn ip(&self) -> (r: &str)
        ensures
            r@ == self.state.ip@,
    {
        self.state.ip.as_str()
    }

    /// The port to connect to.
    pub fn port(&self) -> (r: u16)
        ensures
            r == HEOS_PORT,
    {
        HEOS_PORT
    }

    /// Moves on to a connection with a fresh channel, once the socket is
    /// open. The command returned turns change events off; it is the first
    /// to send.
    pub fn connect(self) -> (r: (HeosConnection<AdHoc>, RegisterForChangeEvents))
        ensures
            r.0.state.channel.wf(),
            r.0.state.channel@ == (ChannelView { next: 0, caches: Map::empty() }),
            r.1.enable == ChangeEventsEnabled::Off,
    {
        HeosConnection::<AdHoc>::from_channel(ChannelState::new())
    }
}

impl HeosConnection<AdHoc> {
    /// A connection over a channel that is open already. The command
    /// returned turns change events off; it is the first to send.
    pub fn from_channel(channel: ChannelState) -> (r: (Self, RegisterForChangeEvents))
        ensures
            r.0.state.channel == channel,
            r.1.enable == ChangeEventsEnabled::Off,
    {
        (
            HeosConnection { state: AdHoc { channel } },
            RegisterForChangeEvents { enable: ChangeEventsEnabled::Off },
        )
    }

    /// What to ask the system for before a model can be set up.
    pub fn init_queries(&self) -> (r: InitQueries)
        ensures
            r == (InitQueries {
                account: CheckAccount {  },
                sources: GetSources {  },
                players: GetPlayers {  },
                groups: GetGroups {  },
            }),
    {
        InitQueries {
            account: CheckAccount {  },
            sources: GetSources {  },
            players: GetPlayers {  },
            groups: GetGroups {  },
        }
    }

    /// Registers a send. See `ChannelState::begin_send`.
    pub fn raw_command(&mut self, command: &mut RawCommand) -> (ticket: u64)
        requires
            old(self).state.channel.wf(),
            old(command).wf(),
        ensures
            final(self).state.channel.wf(),
            final(command).wf(),
            ticket == old(self).state.channel@.next,
            final(command)@ == (RawCommandView {
                params: with_param(old(command)@.params, "SEQUENCE"@, nat_text(ticket as nat)),
                ..old(command)@
            }),
            final(self).state.channel@ == after_send(
                old(self).state.channel@,
                command_path(old(command)@.group, old(command)@.command),
            ),
    {
        self.state.channel.begin_send(command)
    }

    /// Takes a frame off the wire. See `ChannelState::handle_response`.
    pub fn handle_response(&mut self, response: RawResponse) -> (d: Dispatch)
        requires
            old(self).state.channel.wf(),
        ensures
            final(self).state.channel.wf(),
            (final(self).state.channel@, d@) == after_frame(old(self).state.channel@, response@),
    {
        self.state.channel.handle_response(response)
    }

    /// Moves on to a connection that follows the state of the system, once
    /// the model is set up. The command returned turns change events on;
    /// it is to be sent when whoever drains the events is ready.
    pub fn init_stateful(
        self,
        state: State,
    ) -> (r: (HeosConnection<Stateful>, RegisterForChangeEvents))
        ensures
            r.0.state.channel == self.state.channel,
            r.0.state.state == state,
            r.1.enable == ChangeEventsEnabled::On,
    {
        (
            HeosConnection { state: Stateful { channel: self.state.channel, state } },
            RegisterForChangeEvents { enable: ChangeEventsEnabled::On },
        )
    }
}

impl HeosConnection<Stateful> {
    /// The model.
    pub fn state(&self) -> (r: &State)
        ensures
            *r == self.state.state,
    {
        &self.state.state
    }

    /// Registers a send. See `ChannelState::begin_send`.
    pub fn raw_command(&mut self, command: &mut RawCommand) -> (ticket: u64)
        requires
            old(self).state.channel.wf(),
            old(command).wf(),
        ensures
            final(self).state.channel.wf(),
            final(self).state.state == old(self).state.state,
            final(command).wf(),
            ticket == old(self).state.channel@.next,
            final(command)@ == (RawCommandView {
                params: with_param(old(command)@.params, "SEQUENCE"@, nat_text(ticket as nat)),
                ..old(command)@
            }),
            final(self).state.channel@ == after_send(
                old(self).state.channel@,
                command_path(old(command)@.group, old(command)@.command),
            ),
    {
        self.state.channel.begin_send(command)
    }

    /// Takes a frame off the wire. See `ChannelState::handle_response`. An
    /// event that comes out is to be handed to `handle_event` before it is
    /// passed on.
    pub fn handle_response(&mut self, response: RawResponse) -> (d: Dispatch)
        requires
            old(self).state.channel.wf(),
        ensures
            final(self).state.channel.wf(),
            final(self).state.state == old(self).state.state,
            (final(self).state.channel@, d@) == after_frame(old(self).state.channel@, response@),
    {
        self.state.channel.handle_response(response)
    }

    /// Takes an event at the time `now`. See `State::handle_event`.
    pub fn handle_event(&mut self, event: &Event, now: u64) -> (step: Step)
        ensures
            final(self).state.channel == old(self).state.channel,
            (final(self).state.state@, step@) == after_event(old(self).state.state@, event@, now),
    {
        self.state.state.handle_event(event, now)
    }
}

} // verus!
