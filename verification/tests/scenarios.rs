use heos::channel::{ChannelState, Delivery, Dispatch};
use heos::command::group::{GetGroupInfo, SetGroup, SetGroupResult};
use heos::command::player::{GetVolume, MoveQueue, SetPlayState, SetVolume};
use heos::command::typed::Command;
use heos::data::common::Volume;
use heos::data::group::{GroupId, GroupRole};
use heos::data::player::{LineOutType, NetworkType, PlayState, PlayerId, PlayerInfo};
use heos::data::queue::{QueueId, QueuedTrackInfo};
use heos::data::response::{RawResponse, RawResponseHeos};
use heos::mock::channel::MockChannel;
use heos::mock::system::{MockHeosSystem, MockPlayer};

fn player(id: i64) -> MockPlayer {
    MockPlayer::new(PlayerInfo {
        name: format!("Player{id}"),
        player_id: PlayerId(id),
        group_id: None,
        model: "BasicPlayer".to_string(),
        version: "1".to_string(),
        ip: "192.168.0.1".to_string(),
        network: NetworkType::Wired,
        line_out: LineOutType::Unavailable,
        line_out_control: None,
        serial: None,
    })
}

fn track(name: &str, place: u64) -> QueuedTrackInfo {
    QueuedTrackInfo {
        song: name.to_string(),
        album: String::new(),
        artist: String::new(),
        image_url: None,
        media_id: name.to_string(),
        queue_id: QueueId(place),
        album_id: None,
    }
}

fn system_with_players(ids: &[i64]) -> MockHeosSystem {
    let mut system = MockHeosSystem::empty();
    for id in ids {
        system.players.push(player(*id));
    }
    system
}

fn reply(dispatch: Dispatch) -> (u64, Delivery, RawResponse) {
    match dispatch {
        Dispatch::Reply { ticket, how, response } => (ticket, how, response),
        other => panic!("no reply: {other:?}"),
    }
}

#[test]
fn volume_round_trip() {
    let mut channel = MockChannel::new(system_with_players(&[42]));
    let mut state = ChannelState::new();

    let set = SetVolume { player_id: PlayerId(42), level: Volume::new(50).unwrap() };
    let mut raw = set.to_raw();
    let ticket = state.begin_send(&mut raw);
    assert_eq!(ticket, 0);
    assert_eq!(raw.to_string(), "heos://player/set_volume?pid=42&level=50&SEQUENCE=0");
    let (to, how, response) = reply(channel.send(&mut state, &raw));
    assert_eq!(to, 0);
    assert_eq!(how, Delivery::Immediate);
    assert_eq!(response.heos.result, Some(true));
    assert_eq!(response.heos.message, "pid=42&level=50&SEQUENCE=0");
    assert!(SetVolume::response(&response).is_ok());

    let get = GetVolume { player_id: PlayerId(42) };
    let mut raw = get.to_raw();
    let ticket = state.begin_send(&mut raw);
    assert_eq!(ticket, 1);
    let (to, _, response) = reply(channel.send(&mut state, &raw));
    assert_eq!(to, 1);
    assert_eq!(GetVolume::response(&response).unwrap().get(), 50);
}

fn volume_reply(sequence: Option<u64>, level: u16) -> RawResponse {
    let message = match sequence {
        Some(n) => format!("pid=1&level={level}&SEQUENCE={n}"),
        None => format!("pid=1&level={level}"),
    };
    RawResponse {
        heos: RawResponseHeos {
            command: "player/get_volume".to_string(),
            result: Some(true),
            message,
        },
        payload: None,
        options: None,
    }
}

#[test]
fn two_caller_interleave() {
    let mut state = ChannelState::new();
    let mut a = GetVolume { player_id: PlayerId(1) }.to_raw();
    let mut b = GetVolume { player_id: PlayerId(1) }.to_raw();
    let ticket_a = state.begin_send(&mut a);
    let ticket_b = state.begin_send(&mut b);
    assert_ne!(ticket_a, ticket_b);

    let (to, how, response) = reply(state.handle_response(volume_reply(Some(ticket_b), 20)));
    assert_eq!(to, ticket_b);
    assert_eq!(how, Delivery::Immediate);
    assert_eq!(GetVolume::response(&response).unwrap().get(), 20);

    let (to, how, response) = reply(state.handle_response(volume_reply(Some(ticket_a), 10)));
    assert_eq!(to, ticket_a);
    assert_eq!(how, Delivery::Matched);
    assert_eq!(GetVolume::response(&response).unwrap().get(), 10);
    assert!(!state.is_pending("player/get_volume", ticket_a));
    assert!(!state.is_pending("player/get_volume", ticket_b));
}

#[test]
fn delay_then_reply() {
    let mut state = ChannelState::new();
    let mut raw = SetPlayState { player_id: PlayerId(1), state: PlayState::Play }.to_raw();
    let ticket = state.begin_send(&mut raw);

    let ack = RawResponse {
        heos: RawResponseHeos {
            command: "player/set_play_state".to_string(),
            result: None,
            message: "command under process&pid=1&state=play".to_string(),
        },
        payload: None,
        options: None,
    };
    match state.handle_response(ack) {
        Dispatch::DelayAck { waiter } => assert_eq!(waiter, Some(ticket)),
        other => panic!("no delay acknowledgement: {other:?}"),
    }
    assert!(state.is_pending("player/set_play_state", ticket));

    let done = RawResponse {
        heos: RawResponseHeos {
            command: "player/set_play_state".to_string(),
            result: Some(true),
            message: format!("pid=1&state=play&SEQUENCE={ticket}"),
        },
        payload: None,
        options: None,
    };
    let (to, how, response) = reply(state.handle_response(done));
    assert_eq!(to, ticket);
    assert_eq!(how, Delivery::Matched);
    assert!(SetPlayState::response(&response).is_ok());
    assert!(!state.is_pending("player/set_play_state", ticket));
}

#[test]
fn reply_without_sequence_goes_to_latest_send() {
    let mut state = ChannelState::new();
    let mut first = GetVolume { player_id: PlayerId(1) }.to_raw();
    let mut second = GetVolume { player_id: PlayerId(1) }.to_raw();
    state.begin_send(&mut first);
    let latest = state.begin_send(&mut second);
    let ack = RawResponse {
        heos: RawResponseHeos {
            command: "player/get_volume".to_string(),
            result: None,
            message: "command under process".to_string(),
        },
        payload: None,
        options: None,
    };
    state.handle_response(ack);
    let (to, how, _) = reply(state.handle_response(volume_reply(None, 30)));
    assert_eq!(to, latest);
    assert_eq!(how, Delivery::Fallback);
}

#[test]
fn unmatched_and_unexpected_replies_are_dropped() {
    let mut state = ChannelState::new();
    assert!(matches!(
        state.handle_response(volume_reply(Some(7), 30)),
        Dispatch::Unexpected(_)
    ));
    let mut raw = GetVolume { player_id: PlayerId(1) }.to_raw();
    let ticket = state.begin_send(&mut raw);
    reply(state.handle_response(volume_reply(Some(ticket), 30)));
    assert!(matches!(
        state.handle_response(volume_reply(Some(99), 30)),
        Dispatch::Unmatched { sequence: 99, .. }
    ));
    assert!(matches!(state.handle_response(volume_reply(None, 30)), Dispatch::Unclaimed(_)));
}

#[test]
fn group_creation() {
    let mut channel = MockChannel::new(system_with_players(&[42, 43]));

    let raw = SetGroup { player_ids: vec![PlayerId(42), PlayerId(43)] }.to_raw();
    assert_eq!(raw.to_string(), "heos://group/set_group?pid=42,43");
    let response = channel.response_for_command(&raw);
    match SetGroup::response(&response).unwrap() {
        SetGroupResult::CreatedOrModified { group_id, name } => {
            assert_eq!(group_id, GroupId(42));
            assert_eq!(name, "Player42+Player43");
        }
        other => panic!("not created: {other:?}"),
    }

    let raw = GetGroupInfo { group_id: GroupId(42) }.to_raw();
    let response = channel.response_for_command(&raw);
    let info = GetGroupInfo::response(&response).unwrap();
    assert_eq!(info.players.len(), 2);
    assert_eq!(info.players[0].player_id, PlayerId(42));
    assert_eq!(info.players[0].role, GroupRole::Leader);
    assert_eq!(info.players[0].name, "Player42");
    assert_eq!(info.players[1].player_id, PlayerId(43));
    assert_eq!(info.players[1].role, GroupRole::Member);

    let raw = SetGroup { player_ids: vec![PlayerId(42)] }.to_raw();
    let response = channel.response_for_command(&raw);
    assert!(matches!(SetGroup::response(&response).unwrap(), SetGroupResult::Deleted));
    assert!(channel.system.groups.is_empty());

    let response = channel.response_for_command(&raw);
    assert!(matches!(
        SetGroup::response(&response),
        Err(heos::command::CommandError::InvalidId)
    ));
}

#[test]
fn queue_move() {
    let mut system = system_with_players(&[1]);
    for (i, name) in ["a", "b", "c", "d"].iter().enumerate() {
        system.players[0].snapshot.queue.push(track(name, i as u64 + 1));
    }
    let mut channel = MockChannel::new(system);
    let raw = MoveQueue {
        player_id: PlayerId(1),
        src_queue_ids: vec![QueueId(3), QueueId(4)],
        dst_queue_id: QueueId(2),
    }
    .to_raw();
    assert_eq!(raw.to_string(), "heos://player/move_queue_item?pid=1&sqid=3,4&dqid=2");
    let response = channel.response_for_command(&raw);
    assert!(MoveQueue::response(&response).is_ok());
    let queue = &channel.system.players[0].snapshot.queue;
    let names: Vec<&str> = queue.iter().map(|t| t.song.as_str()).collect();
    assert_eq!(names, vec!["a", "c", "d", "b"]);
    let places: Vec<u64> = queue.iter().map(|t| t.queue_id.0).collect();
    assert_eq!(places, vec![1, 2, 3, 4]);
    assert_eq!(channel.system.players[0].snapshot.now_playing.info.info().queue_id, QueueId(0));
}

fn frame(command: &str, result: Option<bool>, message: String) -> RawResponse {
    RawResponse {
        heos: RawResponseHeos { command: command.to_string(), result, message },
        payload: None,
        options: None,
    }
}

#[test]
fn replies_in_any_order_find_their_sends() {
    let mut state = ChannelState::new();
    let commands = ["player/get_volume", "player/get_mute", "player/get_volume", "group/get_volume"];
    let mut tickets = vec![];
    for command in commands {
        let (group, name) = command.split_once('/').unwrap();
        let mut raw = heos::command::raw::RawCommand::new(group, name);
        let ticket = state.begin_send(&mut raw);
        assert_eq!(raw.get("SEQUENCE").map(|s| s.as_str()), Some(ticket.to_string().as_str()));
        match state.handle_response(frame(command, None, "command under process".to_string())) {
            Dispatch::DelayAck { waiter } => assert_eq!(waiter, Some(ticket)),
            other => panic!("no delay acknowledgement: {other:?}"),
        }
        tickets.push(ticket);
    }
    assert_eq!(tickets, vec![0, 1, 2, 3]);
    let mut answered = vec![];
    for i in [2usize, 3, 0, 1] {
        let message = format!("level={i}&SEQUENCE={}", tickets[i]);
        let (to, how, response) =
            reply(state.handle_response(frame(commands[i], Some(true), message.clone())));
        assert_eq!(to, tickets[i]);
        assert_eq!(how, Delivery::Matched);
        assert_eq!(response.heos.message, message);
        answered.push(i);
        for j in 0..4 {
            assert_eq!(state.is_pending(commands[j], tickets[j]), !answered.contains(&j));
        }
    }
}

#[test]
fn a_lost_connection_fails_every_send_that_waits() {
    let mut state = ChannelState::new();
    let mut first = GetVolume { player_id: PlayerId(1) }.to_raw();
    let mut second = SetPlayState { player_id: PlayerId(1), state: PlayState::Play }.to_raw();
    let a = state.begin_send(&mut first);
    let b = state.begin_send(&mut second);
    assert!(state.is_pending("player/get_volume", a));
    assert!(state.is_pending("player/set_play_state", b));
    state.close();
    assert!(!state.is_pending("player/get_volume", a));
    assert!(!state.is_pending("player/set_play_state", b));
    assert!(matches!(
        state.handle_response(volume_reply(Some(a), 10)),
        Dispatch::Unexpected(_)
    ));
    let mut third = GetVolume { player_id: PlayerId(1) }.to_raw();
    assert_eq!(state.begin_send(&mut third), 2);
}
