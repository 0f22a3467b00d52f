use heos::command::error::CommandError;
use heos::data::common::MuteState;
use heos::data::event::{Event, EventFields, ParseEventError};
use heos::data::group::GroupId;
use heos::data::player::{PlayState, PlayerId, RepeatMode, ShuffleMode};
use heos::data::response::{RawResponse, RawResponseHeos};
use heos::data::system::AccountStatus;

fn event(path: &str, message: &str) -> Result<Event, ParseEventError> {
    Event::try_from(&RawResponse {
        heos: RawResponseHeos {
            command: path.to_string(),
            result: None,
            message: message.to_string(),
        },
        payload: None,
        options: None,
    })
}

#[test]
fn events_without_data() {
    assert!(matches!(event("event/sources_changed", ""), Ok(Event::SourcesChanged)));
    assert!(matches!(event("event/players_changed", ""), Ok(Event::PlayersChanged)));
    assert!(matches!(event("event/groups_changed", "x=y"), Ok(Event::GroupsChanged)));
}

#[test]
fn events_of_players() {
    match event("event/player_state_changed", "pid=5&state=pause").unwrap() {
        Event::PlayerStateChanged(e) => {
            assert_eq!(e.player_id, PlayerId(5));
            assert_eq!(e.state, PlayState::Pause);
        }
        other => panic!("{other:?}"),
    }
    match event("event/player_now_playing_changed", "pid=-5").unwrap() {
        Event::PlayerNowPlayingChanged(e) => assert_eq!(e.player_id, PlayerId(-5)),
        other => panic!("{other:?}"),
    }
    match event("event/player_now_playing_progress", "pid=5&cur_pos=30000&duration=200000").unwrap() {
        Event::PlayerNowPlayingProgress(e) => {
            assert_eq!((e.player_id, e.elapsed, e.duration), (PlayerId(5), 30_000, 200_000));
        }
        other => panic!("{other:?}"),
    }
    match event("event/player_playback_error", "pid=5&error=Could%20Not%20Download").unwrap() {
        Event::PlayerPlaybackError(e) => {
            assert_eq!(e.player_id, PlayerId(5));
            assert_eq!(e.error, "Could Not Download");
        }
        other => panic!("{other:?}"),
    }
    match event("event/player_queue_changed", "pid=5").unwrap() {
        Event::PlayerQueueChanged(e) => assert_eq!(e.player_id, PlayerId(5)),
        other => panic!("{other:?}"),
    }
    match event("event/player_volume_changed", "pid=5&level=33&mute=on").unwrap() {
        Event::PlayerVolumeChanged(e) => {
            assert_eq!(e.player_id, PlayerId(5));
            assert_eq!(e.level.get(), 33);
            assert_eq!(e.mute, MuteState::On);
        }
        other => panic!("{other:?}"),
    }
    match event("event/repeat_mode_changed", "pid=5&repeat=on_all").unwrap() {
        Event::PlayerRepeatModeChanged(e) => assert_eq!(e.repeat, RepeatMode::All),
        other => panic!("{other:?}"),
    }
    match event("event/shuffle_mode_changed", "pid=5&shuffle=off").unwrap() {
        Event::PlayerShuffleModeChanged(e) => assert_eq!(e.shuffle, ShuffleMode::Off),
        other => panic!("{other:?}"),
    }
}

#[test]
fn events_of_groups_and_users() {
    match event("event/group_volume_changed", "gid=9&level=0&mute=off").unwrap() {
        Event::GroupVolumeChanged(e) => {
            assert_eq!(e.group_id, GroupId(9));
            assert_eq!(e.level.get(), 0);
            assert_eq!(e.mute, MuteState::Off);
        }
        other => panic!("{other:?}"),
    }
    match event("event/user_changed", "signed_out").unwrap() {
        Event::UserChanged(e) => assert!(matches!(e.account, AccountStatus::SignedOut)),
        other => panic!("{other:?}"),
    }
    match event("event/user_changed", "signed_in&un=me@example.com").unwrap() {
        Event::UserChanged(e) => match e.account {
            AccountStatus::SignedIn(name) => assert_eq!(name, "me@example.com"),
            other => panic!("{other:?}"),
        },
        other => panic!("{other:?}"),
    }
}

#[test]
fn unknown_events_are_named_in_the_error() {
    match event("event/something_else", "pid=1") {
        Err(ParseEventError::UnknownEvent(path)) => assert_eq!(path, "event/something_else"),
        other => panic!("{other:?}"),
    }
    assert!(matches!(event("player/get_volume", ""), Err(ParseEventError::UnknownEvent(_))));
}

#[test]
fn events_with_missing_or_wrong_fields() {
    match event("event/player_state_changed", "state=play") {
        Err(ParseEventError::DeserializeError(text)) => assert_eq!(text, "missing field `pid`"),
        other => panic!("{other:?}"),
    }
    match event("event/player_state_changed", "pid=x&state=play") {
        Err(ParseEventError::DeserializeError(text)) => {
            assert_eq!(text, "invalid value for field `pid`")
        }
        other => panic!("{other:?}"),
    }
    match event("event/player_state_changed", "pid=1") {
        Err(ParseEventError::DeserializeError(text)) => assert_eq!(text, "missing field `state`"),
        other => panic!("{other:?}"),
    }
    match event("event/player_state_changed", "pid=1&state=playing") {
        Err(ParseEventError::DeserializeError(text)) => {
            assert_eq!(text, "invalid value for field `state`")
        }
        other => panic!("{other:?}"),
    }
    assert!(event("event/player_now_playing_progress", "pid=1&cur_pos=1").is_err());
    assert!(event("event/player_now_playing_progress", "pid=1&cur_pos=-1&duration=5").is_err());
    assert!(event("event/player_playback_error", "pid=1").is_err());
    assert!(event("event/player_volume_changed", "pid=1&level=101&mute=on").is_err());
    assert!(event("event/player_volume_changed", "pid=1&level=10&mute=yes").is_err());
    assert!(event("event/player_volume_changed", "pid=1&mute=on").is_err());
    assert!(event("event/repeat_mode_changed", "pid=1&repeat=on").is_err());
    assert!(event("event/shuffle_mode_changed", "pid=1").is_err());
    assert!(event("event/group_volume_changed", "pid=1&level=1&mute=on").is_err());
    match event("event/user_changed", "signed_in") {
        Err(ParseEventError::CommandError(CommandError::MalformedResponse(text))) => {
            assert_eq!(text, "Missing field 'message.un'")
        }
        other => panic!("{other:?}"),
    }
    match event("event/user_changed", "") {
        Err(ParseEventError::CommandError(CommandError::MalformedResponse(text))) => {
            assert_eq!(text, "Missing field 'message.signed_out/signed_in'")
        }
        other => panic!("{other:?}"),
    }
}

#[test]
fn events_from_fields_that_were_looked_up_before() {
    let fields = EventFields::of_message("pid=3&level=12&mute=off");
    assert_eq!(fields.pid.as_deref(), Some("3"));
    assert_eq!(fields.level.as_deref(), Some("12"));
    assert_eq!(fields.gid, None);
    match Event::from_fields("event/player_volume_changed", &fields).unwrap() {
        Event::PlayerVolumeChanged(e) => assert_eq!(e.level.get(), 12),
        other => panic!("{other:?}"),
    }
    assert!(Event::from_fields("event/group_volume_changed", &fields).is_err());
}

#[test]
fn account_status_from_messages() {
    assert!(matches!(AccountStatus::from_message("signed_out"), Ok(AccountStatus::SignedOut)));
    assert!(matches!(
        AccountStatus::from_message("signed_out&signed_in&un=x"),
        Ok(AccountStatus::SignedOut)
    ));
    match AccountStatus::from_message("signed_in&un=someone") {
        Ok(AccountStatus::SignedIn(name)) => assert_eq!(name, "someone"),
        other => panic!("{other:?}"),
    }
    assert!(AccountStatus::from_message("un=someone").is_err());
}
