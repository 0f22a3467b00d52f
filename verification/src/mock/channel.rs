//! The mock system as the far end of a channel.

use vstd::prelude::*;
use vstd::string::*;
use crate::channel::{after_frame, ChannelState, Dispatch};
use crate::command::raw::{RawCommand, RawCommandView};
use crate::data::response::{RawResponse, RawResponseView};
use crate::mock::account::{
    check_account_answer,
    idle_answer,
    register_for_change_events_answer,
    sign_in_answer,
    sign_out_answer,
};
use crate::mock::browse::{
    add_to_queue_answer,
    delete_playlist_answer,
    get_music_sources_answer,
    get_search_criteria_answer,
    get_source_info_answer,
    rename_playlist_answer,
};
use crate::mock::group::{
    get_group_info_answer,
    get_group_mute_answer,
    get_group_volume_answer,
    get_groups_answer,
    group_volume_down_answer,
    group_volume_up_answer,
    set_group_answer,
    set_group_mute_answer,
    set_group_volume_answer,
    toggle_group_mute_answer,
};
use crate::mock::player::{
    check_update_answer,
    clear_queue_answer,
    get_mute_answer,
    get_now_playing_media_answer,
    get_play_mode_answer,
    get_play_state_answer,
    get_player_info_answer,
    get_players_answer,
    get_queue_answer,
    get_quickselects_answer,
    get_volume_answer,
    move_queue_item_answer,
    play_next_answer,
    play_previous_answer,
    play_queue_answer,
    quickselect_answer,
    remove_from_queue_answer,
    save_queue_answer,
    set_mute_answer,
    set_play_mode_answer,
    set_play_state_answer,
    set_volume_answer,
    toggle_mute_answer,
    volume_down_answer,
    volume_up_answer,
};
use crate::mock::reply::{unrecognized, unrecognized_error};
use crate::mock::system::{MockHeosSystem, MockView};

verus! {

/// What a mock system does with a command of the group `system`, and what it
/// answers.
pub open spec fn system_answer(s: MockView, c: RawCommandView) -> (MockView, RawResponseView) {
    if c.command == "register_for_change_events"@ {
        register_for_change_events_answer(s, c)
    } else if c.command == "check_account"@ {
        check_account_answer(s, c)
    } else if c.command == "sign_in"@ {
        sign_in_answer(s, c)
    } else if c.command == "sign_out"@ {
        sign_out_answer(s, c)
    } else if c.command == "heart_beat"@ {
        idle_answer(s, c)
    } else if c.command == "reboot"@ {
        idle_answer(s, c)
    } else {
        (s, unrecognized(c))
    }
}

/// What a mock system does with a command of the group `player`, and what it
/// answers.
pub open spec fn player_answer(s: MockView, c: RawCommandView) -> (MockView, RawResponseView) {
    if c.command == "get_players"@ {
        get_players_answer(s, c)
    } else if c.command == "get_player_info"@ {
        get_player_info_answer(s, c)
    } else if c.command == "get_play_state"@ {
        get_play_state_answer(s, c)
    } else if c.command == "set_play_state"@ {
        set_play_state_answer(s, c)
    } else if c.command == "get_now_playing_media"@ {
        get_now_playing_media_answer(s, c)
    } else if c.command == "get_volume"@ {
        get_volume_answer(s, c)
    } else if c.command == "set_volume"@ {
        set_volume_answer(s, c)
    } else if c.command == "volume_up"@ {
        volume_up_answer(s, c)
    } else if c.command == "volume_down"@ {
        volume_down_answer(s, c)
    } else if c.command == "get_mute"@ {
        get_mute_answer(s, c)
    } else if c.command == "set_mute"@ {
        set_mute_answer(s, c)
    } else if c.command == "toggle_mute"@ {
        toggle_mute_answer(s, c)
    } else if c.command == "get_play_mode"@ {
        get_play_mode_answer(s, c)
    } else if c.command == "set_play_mode"@ {
        set_play_mode_answer(s, c)
    } else if c.command == "get_queue"@ {
        get_queue_answer(s, c)
    } else if c.command == "play_queue"@ {
        play_queue_answer(s, c)
    } else if c.command == "remove_from_queue"@ {
        remove_from_queue_answer(s, c)
    } else if c.command == "save_queue"@ {
        save_queue_answer(s, c)
    } else if c.command == "clear_queue"@ {
        clear_queue_answer(s, c)
    } else if c.command == "move_queue_item"@ {
        move_queue_item_answer(s, c)
    } else if c.command == "play_next"@ {
        play_next_answer(s, c)
    } else if c.command == "play_previous"@ {
        play_previous_answer(s, c)
    } else if c.command == "set_quickselect"@ {
        quickselect_answer(s, c)
    } else if c.command == "play_quickselect"@ {
        quickselect_answer(s, c)
    } else if c.command == "get_quickselects"@ {
        get_quickselects_answer(s, c)
    } else if c.command == "check_update"@ {
        check_update_answer(s, c)
    } else {
        (s, unrecognized(c))
    }
}

/// What a mock system does with a command of the group `group`, and what it
/// answers.
pub open spec fn group_answer(s: MockView, c: RawCommandView) -> (MockView, RawResponseView) {
    if c.command == "get_groups"@ {
        get_groups_answer(s, c)
    } else if c.command == "get_group_info"@ {
        get_group_info_answer(s, c)
    } else if c.command == "set_group"@ {
        set_group_answer(s, c)
    } else if c.command == "get_volume"@ {
        get_group_volume_answer(s, c)
    } else if c.command == "set_volume"@ {
        set_group_volume_answer(s, c)
    } else if c.command == "volume_up"@ {
        group_volume_up_answer(s, c)
    } else if c.command == "volume_down"@ {
        group_volume_down_answer(s, c)
    } else if c.command == "get_mute"@ {
        get_group_mute_answer(s, c)
    } else if c.command == "set_mute"@ {
        set_group_mute_answer(s, c)
    } else if c.command == "toggle_mute"@ {
        toggle_group_mute_answer(s, c)
    } else {
        (s, unrecognized(c))
    }
}

/// What a mock system does with a command of the group `browse`, and what it
/// answers.
pub open spec fn browse_answer(s: MockView, c: RawCommandView) -> (MockView, RawResponseView) {
    if c.command == "get_music_sources"@ {
        get_music_sources_answer(s, c)
    } else if c.command == "get_source_info"@ {
        get_source_info_answer(s, c)
    } else if c.command == "get_search_criteria"@ {
        get_search_criteria_answer(s, c)
    } else if c.command == "add_to_queue"@ {
        add_to_queue_answer(s, c)
    } else if c.command == "rename_playlist"@ {
        rename_playlist_answer(s, c)
    } else if c.command == "delete_playlist"@ {
        delete_playlist_answer(s, c)
    } else {
        (s, unrecognized(c))
    }
}

/// What a mock system does with a command, and what it answers: the group
/// and the name of the command decide. A command that the mock does not
/// know changes nothing and fails with error 1.
pub open spec fn answer(s: MockView, c: RawCommandView) -> (MockView, RawResponseView) {
    if c.group == "system"@ {
        system_answer(s, c)
    } else if c.group == "player"@ {
        player_answer(s, c)
    } else if c.group == "group"@ {
        group_answer(s, c)
    } else if c.group == "browse"@ {
        browse_answer(s, c)
    } else {
        (s, unrecognized(c))
    }
}

impl MockHeosSystem {
    fn system_command(&mut self, command: &RawCommand) -> (r: RawResponse)
        requires
            command.wf(),
        ensures
            (final(self)@, r@) == system_answer(old(self)@, command@),
    {
        let name = command.name();
        if name.eq("register_for_change_events") {
            self.register_for_change_events(command)
        } else if name.eq("check_account") {
            self.check_account(command)
        } else if name.eq("sign_in") {
            self.sign_in(command)
        } else if name.eq("sign_out") {
            self.sign_out(command)
        } else if name.eq("heart_beat") {
            self.idle(command)
        } else if name.eq("reboot") {
            self.idle(command)
        } else {
            unrecognized_error(command)
        }
    }

    fn player_command(&mut self, command: &RawCommand) -> (r: RawResponse)
        requires
            command.wf(),
        ensures
            (final(self)@, r@) == player_answer(old(self)@, command@),
    {
        let name = command.name();
        if name.eq("get_players") {
            self.get_players(command)
        } else if name.eq("get_player_info") {
            self.get_player_info(command)
        } else if name.eq("get_play_state") {
            self.get_play_state(command)
        } else if name.eq("set_play_state") {
            self.set_play_state(command)
        } else if name.eq("get_now_playing_media") {
            self.get_now_playing_media(command)
        } else if name.eq("get_volume") {
            self.get_volume(command)
        } else if name.eq("set_volume") {
            self.set_volume(command)
        } else if name.eq("volume_up") {
            self.volume_up(command)
        } else if name.eq("volume_down") {
            self.volume_down(command)
        } else if name.eq("get_mute") {
            self.get_mute(command)
        } else if name.eq("set_mute") {
            self.set_mute(command)
        } else if name.eq("toggle_mute") {
            self.toggle_mute(command)
        } else if name.eq("get_play_mode") {
            self.get_play_mode(command)
        } else if name.eq("set_play_mode") {
            self.set_play_mode(command)
        } else if name.eq("get_queue") {
            self.get_queue(command)
        } else if name.eq("play_queue") {
            self.play_queue(command)
        } else if name.eq("remove_from_queue") {
            self.remove_from_queue(command)
        } else if name.eq("save_queue") {
            self.save_queue(command)
        } else if name.eq("clear_queue") {
            self.clear_queue(command)
        } else if name.eq("move_queue_item") {
            self.move_queue_item(command)
        } else if name.eq("play_next") {
            self.play_next(command)
        } else if name.eq("play_previous") {
            self.play_previous(command)
        } else if name.eq("set_quickselect") {
            self.quickselect(command)
        } else if name.eq("play_quickselect") {
            self.quickselect(command)
        } else if name.eq("get_quickselects") {
            self.get_quickselects(command)
        } else if name.eq("check_update") {
            self.check_update(command)
        } else {
            unrecognized_error(command)
        }
    }

    fn group_command(&mut self, command: &RawCommand) -> (r: RawResponse)
        requires
            command.wf(),
        ensures
            (final(self)@, r@) == group_answer(old(self)@, command@),
    {
        let name = command.name();
        if name.eq("get_groups") {
            self.get_groups(command)
        } else if name.eq("get_group_info") {
            self.get_group_info(command)
        } else if name.eq("set_group") {
            self.set_group(command)
        } else if name.eq("get_volume") {
            self.get_group_volume(command)
        } else if name.eq("set_volume") {
            self.set_group_volume(command)
        } else if name.eq("volume_up") {
            self.group_volume_up(command)
        } else if name.eq("volume_down") {
            self.group_volume_down(command)
        } else if name.eq("get_mute") {
            self.get_group_mute(command)
        } else if name.eq("set_mute") {
            self.set_group_mute(command)
        } else if name.eq("toggle_mute") {
            self.toggle_group_mute(command)
        } else {
            unrecognized_error(command)
        }
    }

    fn browse_command(&mut self, command: &RawCommand) -> (r: RawResponse)
        requires
            command.wf(),
        ensures
            (final(self)@, r@) == browse_answer(old(self)@, command@),
    {
        let name = command.name();
        if name.eq("get_music_sources") {
            self.get_music_sources(command)
        } else if name.eq("get_source_info") {
            self.get_source_info(command)
        } else if name.eq("get_search_criteria") {
            self.get_search_criteria(command)
        } else if name.eq("add_to_queue") {
            self.add_to_queue(command)
        } else if name.eq("rename_playlist") {
            self.rename_playlist(command)
        } else if name.eq("delete_playlist") {
            self.delete_playlist(command)
        } else {
            unrecognized_error(command)
        }
    }

    /// Answers a command, and changes as the command asks.
    pub fn respond(&mut self, command: &RawCommand) -> (r: RawResponse)
        requires
            command.wf(),
        ensures
            (final(self)@, r@) == answer(old(self)@, command@),
    {
        let group = command.group();
        if group.eq("system") {
            self.system_command(command)
        } else if group.eq("player") {
            self.player_command(command)
        } else if group.eq("group") {
            self.group_command(command)
        } else if group.eq("browse") {
            self.browse_command(command)
        } else {
            unrecognized_error(command)
        }
    }
}

/// A channel whose far end is a mock system: what is sent is answered at
/// once.
#[derive(Debug)]
pub struct MockChannel {
    /// The system at the far end.
    pub system: MockHeosSystem,
}

impl MockChannel {
    /// A channel to `system`.
    pub fn new(system: MockHeosSystem) -> (r: Self)
        ensures
            r.system == system,
    {
        MockChannel { system }
    }

    /// The reply of the system to `command`.
    pub fn response_for_command(&mut self, command: &RawCommand) -> (r: RawResponse)
        requires
            command.wf(),
        ensures
            (final(self).system@, r@) == answer(old(self).system@, command@),
    {
        self.system.respond(command)
    }

    /// Sends `command` to the system and hands its reply to the books of
    /// the channel, as a frame that has just come in.
    pub fn send(&mut self, state: &mut ChannelState, command: &RawCommand) -> (d: Dispatch)
        requires
            command.wf(),
            old(state).wf(),
        ensures
            final(state).wf(),
            final(self).system@ == answer(old(self).system@, command@).0,
            (final(state)@, d@) == after_frame(
                old(state)@,
                answer(old(self).system@, command@).1,
            ),
    {
        let response = self.response_for_command(command);
        state.handle_response(response)
    }
}

} // verus!
