use heos::command::browse::{
    AddToQueue, DeletePlaylist, GetSearchCriteria, GetSourceInfo, GetSources, RenamePlaylist,
};
use heos::command::error::CommandError;
use heos::command::group::{
    GetGroupMute, GetGroupVolume, GetGroups, GroupVolumeDown, GroupVolumeUp, SetGroup,
    SetGroupMute, SetGroupResult, SetGroupVolume, ToggleGroupMute,
};
use heos::command::player::{
    CheckUpdate, ClearQueue, GetMute, GetNowPlayingMedia, GetPlayMode, GetPlayState,
    GetPlayerInfo, GetPlayers, GetQueue, GetQuickSelects, GetVolume, PlayNext, PlayPrevious,
    PlayQueueItem, PlayQuickSelect, RemoveFromQueue, SaveQueue, SetMute, SetPlayMode,
    SetPlayState, SetQuickSelect, SetVolume, ToggleMute, VolumeDown, VolumeUp,
};
use heos::command::raw::RawCommand;
use heos::command::system::{
    CheckAccount, HeartBeat, Reboot, RegisterForChangeEvents, SignIn, SignOut,
};
use heos::command::typed::Command;
use heos::data::common::{MuteState, Volume, VolumeStep};
use heos::data::group::{GroupId, GroupInfo, GroupPlayer, GroupRole};
use heos::data::player::{
    AddToQueueType, PlayState, PlayerId, RepeatMode, ShuffleMode, UpdateAvailable,
};
use heos::data::queue::{NowPlayingInfo, QueueId};
use heos::data::quickselect::QuickSelectId;
use heos::data::response::RawResponse;
use heos::data::source::{CriteriaId, SourceAvailable, SourceId, SourceType};
use heos::data::system::{AccountStatus, ChangeEventsEnabled};
use heos::mock::channel::MockChannel;
use heos::mock::defaults::get_default_sources;
use heos::mock::demo::create_doctest_channel;
use heos::mock::system::{MockGroup, MockHeosSystem, MockItem, MockPlayer, MockPlaylist, MockTrack};

fn ask<C: Command>(channel: &mut MockChannel, command: C) -> Result<C::Response, CommandError> {
    C::response(&channel.response_for_command(&command.to_raw()))
}

fn raw(channel: &mut MockChannel, text: &str) -> RawResponse {
    channel.response_for_command(&RawCommand::parse(text).unwrap())
}

fn places(channel: &MockChannel, player: usize) -> Vec<u64> {
    channel.system.players[player].snapshot.queue.iter().map(|t| t.queue_id.0).collect()
}

fn songs(channel: &MockChannel, player: usize) -> Vec<String> {
    channel.system.players[player].snapshot.queue.iter().map(|t| t.song.clone()).collect()
}

const PLAYER_42: usize = 3;

#[test]
fn the_example_system() {
    let channel = create_doctest_channel();
    let ids: Vec<i64> = channel.system.players.iter().map(|p| p.id().0).collect();
    assert_eq!(ids, vec![1, 2, 3, 42, 43]);
    assert_eq!(channel.system.groups.len(), 1);
    assert_eq!(channel.system.groups[0].id(), GroupId(1));
    assert_eq!(channel.system.groups[0].snapshot.leader_id, PlayerId(1));
    assert_eq!(songs(&channel, PLAYER_42), vec!["Song1", "Song2", "Song3", "Song4"]);
    assert_eq!(places(&channel, PLAYER_42), vec![1, 2, 3, 4]);
    assert_eq!(channel.system.players[PLAYER_42].snapshot.now_playing.progress.duration, 9_001_000);
    assert_eq!(channel.system.playlists.len(), 1);
    assert_eq!(channel.system.playlists[0].id(), "playlist-id");
    assert_eq!(channel.system.sources.len(), 19);
    let local = channel.system.find_source(SourceId::LocalUsbOrDlna).unwrap();
    assert_eq!(channel.system.sources[local].catalogue.len(), 1);
    assert_eq!(channel.system.sources[local].catalogue[0].id(), "new-song-id");
    assert_eq!(channel.system.sources[local].catalogue[0].duration, 123_000);
    assert!(channel.system.username.is_none());
}

#[test]
fn the_sources_of_every_system() {
    let sources = get_default_sources();
    let ids: Vec<i64> = sources.iter().map(|s| s.id().to_code()).collect();
    assert_eq!(
        ids,
        vec![1, 2, 3, 4, 5, 6, 7, 8, 9, 10, 13, 15, 18, 30, 1024, 1025, 1026, 1027, 1028]
    );
    let pandora = &sources[0];
    assert_eq!(pandora.info.name, "Pandora");
    assert_eq!(
        pandora.info.image_url,
        "https://production.ws.skyegloup.com/media/images/service/logos/pandora.png"
    );
    assert_eq!(pandora.info.source_type, SourceType::MusicService);
    assert_eq!(pandora.info.available, SourceAvailable::False);
    assert!(pandora.search_criteria.is_empty());
    let rhapsody = &sources[1];
    assert_eq!(rhapsody.search_criteria.len(), 3);
    assert_eq!(rhapsody.search_criteria[2].name, "Track");
    assert_eq!(rhapsody.search_criteria[2].criteria, CriteriaId::Track);
    assert!(rhapsody.search_criteria[2].playable);
    assert!(!rhapsody.search_criteria[2].wildcard);
    assert_eq!(rhapsody.search_criteria[2].search_prefix.as_deref(), Some("SEARCHED_TRACKS-"));
    assert_eq!(sources[3].info.image_url, "data:text/NoImageUrlHasBeenSet");
    assert_eq!(sources[7].info.name, "Sirius XM");
    assert_eq!(
        sources[7].info.image_url,
        "https://production.ws.skyegloup.com/media/images/service/logos/siriusxm.png"
    );
    assert_eq!(sources[9].search_criteria.len(), 4);
    assert_eq!(sources[14].info.name, "Local Music");
    assert_eq!(sources[14].info.source_type, SourceType::HeosServer);
    assert_eq!(sources[14].info.available, SourceAvailable::True);
    assert_eq!(sources[18].info.name, "HEOS Favorites");
    let system = MockHeosSystem::default();
    assert_eq!(system.sources.len(), 19);
    assert!(system.players.is_empty() && system.groups.is_empty() && system.playlists.is_empty());
    assert_eq!(system.next_playlist_num, 0);
}

#[test]
fn a_new_player() {
    let channel = create_doctest_channel();
    let p = &channel.system.players[4];
    assert_eq!(p.snapshot.info.name, "Player43");
    assert!(p.snapshot.queue.is_empty());
    assert_eq!(p.snapshot.play_state, PlayState::Stop);
    assert_eq!(p.snapshot.volume.get(), 100);
    assert_eq!(p.snapshot.mute, MuteState::Off);
    assert_eq!(p.snapshot.repeat, RepeatMode::Off);
    assert_eq!(p.snapshot.shuffle, ShuffleMode::Off);
    match &p.snapshot.now_playing.info {
        NowPlayingInfo::Song { info, source_id } => {
            assert_eq!(info.song, "");
            assert_eq!(info.queue_id, QueueId(0));
            assert_eq!(*source_id, SourceId::HeosAuxInputs);
        }
        other => panic!("{other:?}"),
    }
    let names: Vec<&str> = p.quickselects.iter().map(|q| q.name.as_str()).collect();
    assert_eq!(
        names,
        vec!["QuickSelect1", "QuickSelect2", "QuickSelect3", "QuickSelect4", "QuickSelect5", "QuickSelect6"]
    );
    let ids: Vec<i64> = p.quickselects.iter().map(|q| q.id.get()).collect();
    assert_eq!(ids, vec![1, 2, 3, 4, 5, 6]);
}

#[test]
fn a_group_is_led_by_its_first_leader() {
    let member = |id: i64, role| GroupPlayer { name: format!("P{id}"), player_id: PlayerId(id), role };
    let info = GroupInfo {
        name: "g".to_string(),
        group_id: GroupId(3),
        players: vec![
            member(1, GroupRole::Member),
            member(2, GroupRole::Leader),
            member(3, GroupRole::Leader),
        ],
    };
    let group = MockGroup::new(info);
    assert_eq!(group.snapshot.leader_id, PlayerId(2));
    assert_eq!(group.snapshot.volume.get(), 100);
    assert_eq!(group.snapshot.mute, MuteState::Off);
    let none = GroupInfo {
        name: "g".to_string(),
        group_id: GroupId(3),
        players: vec![member(1, GroupRole::Member)],
    };
    assert!(MockGroup::try_new(none).is_none());
    let some = GroupInfo {
        name: "g".to_string(),
        group_id: GroupId(3),
        players: vec![member(9, GroupRole::Leader)],
    };
    assert_eq!(MockGroup::try_new(some).unwrap().snapshot.leader_id, PlayerId(9));
}

#[test]
fn system_commands() {
    let mut channel = create_doctest_channel();
    assert!(ask(&mut channel, RegisterForChangeEvents { enable: ChangeEventsEnabled::On }).is_ok());
    assert!(ask(&mut channel, HeartBeat {}).is_ok());
    assert!(ask(&mut channel, Reboot {}).is_ok());
    assert!(matches!(ask(&mut channel, CheckAccount {}), Ok(AccountStatus::SignedOut)));
    assert!(ask(&mut channel, SignIn { username: "me".to_string(), password: "pw".to_string() }).is_ok());
    assert_eq!(channel.system.username.as_deref(), Some("me"));
    match ask(&mut channel, CheckAccount {}) {
        Ok(AccountStatus::SignedIn(name)) => assert_eq!(name, "me"),
        other => panic!("{other:?}"),
    }
    assert!(ask(&mut channel, SignOut {}).is_ok());
    assert!(channel.system.username.is_none());
    let reply = raw(&mut channel, "heos://system/register_for_change_events");
    assert_eq!(reply.heos.result, Some(false));
    assert_eq!(reply.heos.message, "eid=3&text=Missing 'enable' argument");
    let reply = raw(&mut channel, "heos://system/register_for_change_events?enable=yes");
    assert_eq!(reply.heos.message, "eid=3&text=Invalid 'enable' argument: yes");
    let reply = raw(&mut channel, "heos://system/sign_in?username=me");
    assert_eq!(reply.heos.message, "eid=3&text=Missing 'password' argument");
    assert!(channel.system.username.is_none());
}

#[test]
fn unknown_commands_fail_with_error_one() {
    let mut channel = create_doctest_channel();
    for text in ["heos://system/shutdown", "heos://player/dance?pid=1", "heos://group/x",
        "heos://browse/browse?sid=1", "heos://other/get_players", "heos:///"]
    {
        let reply = raw(&mut channel, text);
        assert_eq!(reply.heos.result, Some(false));
        assert!(reply.heos.message.starts_with("eid=1&text=Unrecognized command "), "{text}");
        assert!(matches!(reply.validate_command(), Err(CommandError::UnrecognizedCommand)));
    }
    let reply = raw(&mut channel, "heos://player/dance");
    assert_eq!(reply.heos.command, "player/dance");
    assert_eq!(reply.heos.message, "eid=1&text=Unrecognized command player/dance");
}

#[test]
fn commands_for_unknown_players_fail() {
    let mut channel = create_doctest_channel();
    assert!(matches!(ask(&mut channel, GetVolume { player_id: PlayerId(7) }), Err(CommandError::InvalidId)));
    let reply = raw(&mut channel, "heos://player/get_volume?pid=7");
    assert_eq!(reply.heos.message, "eid=2&text=Invalid pid '7'");
    let reply = raw(&mut channel, "heos://player/get_volume");
    assert_eq!(reply.heos.message, "eid=3&text=Missing 'pid' argument");
    let reply = raw(&mut channel, "heos://player/get_volume?pid=seven");
    assert_eq!(reply.heos.message, "eid=3&text=Invalid 'pid' argument: seven");
    assert!(matches!(reply.validate_command(), Err(CommandError::InvalidArguments)));
}

#[test]
fn player_descriptions_come_as_payload() {
    let mut channel = create_doctest_channel();
    let players = ask(&mut channel, GetPlayers {}).unwrap();
    let names: Vec<&str> = players.iter().map(|p| p.name.as_str()).collect();
    assert_eq!(names, vec!["Player1", "Player2", "Player3", "Player42", "Player43"]);
    assert_eq!(players[0].group_id, Some(GroupId(1)));
    assert_eq!(players[3].group_id, None);
    assert_eq!(players[1].ip, "192.168.0.2");
    let info = ask(&mut channel, GetPlayerInfo { player_id: PlayerId(2) }).unwrap();
    assert_eq!(info.name, "Player2");
    assert_eq!(info.model, "BasicPlayer");
    match ask(&mut channel, CheckUpdate { player_id: PlayerId(2) }) {
        Ok(payload) => assert_eq!(payload.update, UpdateAvailable::Current),
        other => panic!("{other:?}"),
    }
}

#[test]
fn play_state_volume_and_mute_of_a_player() {
    let mut channel = create_doctest_channel();
    let pid = PlayerId(42);
    assert_eq!(ask(&mut channel, GetPlayState { player_id: pid }).unwrap(), PlayState::Stop);
    ask(&mut channel, SetPlayState { player_id: pid, state: PlayState::Play }).unwrap();
    assert_eq!(ask(&mut channel, GetPlayState { player_id: pid }).unwrap(), PlayState::Play);
    assert_eq!(ask(&mut channel, GetVolume { player_id: pid }).unwrap().get(), 100);
    ask(&mut channel, SetVolume { player_id: pid, level: Volume::new(50).unwrap() }).unwrap();
    assert_eq!(ask(&mut channel, GetVolume { player_id: pid }).unwrap().get(), 50);
    ask(&mut channel, VolumeUp { player_id: pid, step: None }).unwrap();
    assert_eq!(ask(&mut channel, GetVolume { player_id: pid }).unwrap().get(), 55);
    ask(&mut channel, VolumeUp { player_id: pid, step: Some(VolumeStep::new(10).unwrap()) }).unwrap();
    assert_eq!(ask(&mut channel, GetVolume { player_id: pid }).unwrap().get(), 65);
    ask(&mut channel, VolumeDown { player_id: pid, step: Some(VolumeStep::new(1).unwrap()) }).unwrap();
    assert_eq!(ask(&mut channel, GetVolume { player_id: pid }).unwrap().get(), 64);
    ask(&mut channel, SetVolume { player_id: pid, level: Volume::new(98).unwrap() }).unwrap();
    ask(&mut channel, VolumeUp { player_id: pid, step: None }).unwrap();
    assert_eq!(ask(&mut channel, GetVolume { player_id: pid }).unwrap().get(), 100);
    ask(&mut channel, SetVolume { player_id: pid, level: Volume::new(3).unwrap() }).unwrap();
    ask(&mut channel, VolumeDown { player_id: pid, step: None }).unwrap();
    assert_eq!(ask(&mut channel, GetVolume { player_id: pid }).unwrap().get(), 0);
    assert_eq!(ask(&mut channel, GetMute { player_id: pid }).unwrap(), MuteState::Off);
    ask(&mut channel, ToggleMute { player_id: pid }).unwrap();
    assert_eq!(ask(&mut channel, GetMute { player_id: pid }).unwrap(), MuteState::On);
    ask(&mut channel, SetMute { player_id: pid, state: MuteState::Off }).unwrap();
    assert_eq!(ask(&mut channel, GetMute { player_id: pid }).unwrap(), MuteState::Off);
    let reply = raw(&mut channel, "heos://player/set_volume?pid=42&level=101");
    assert_eq!(reply.heos.message, "eid=3&text=Invalid 'level' argument: 101");
    let reply = raw(&mut channel, "heos://player/volume_up?pid=42&step=11");
    assert_eq!(reply.heos.message, "eid=3&text=Invalid 'step' argument: 11");
    assert_eq!(channel.system.players[PLAYER_42].snapshot.volume.get(), 0);
    let reply = raw(&mut channel, "heos://player/get_volume?pid=42");
    assert_eq!(reply.heos.message, "pid=42&level=0");
}

#[test]
fn play_mode_of_a_player() {
    let mut channel = create_doctest_channel();
    let pid = PlayerId(42);
    let mode = ask(&mut channel, GetPlayMode { player_id: pid }).unwrap();
    assert_eq!((mode.repeat, mode.shuffle), (RepeatMode::Off, ShuffleMode::Off));
    ask(&mut channel, SetPlayMode { player_id: pid, repeat: Some(RepeatMode::All), shuffle: None }).unwrap();
    let mode = ask(&mut channel, GetPlayMode { player_id: pid }).unwrap();
    assert_eq!((mode.repeat, mode.shuffle), (RepeatMode::All, ShuffleMode::Off));
    ask(&mut channel, SetPlayMode { player_id: pid, repeat: None, shuffle: Some(ShuffleMode::On) }).unwrap();
    let mode = ask(&mut channel, GetPlayMode { player_id: pid }).unwrap();
    assert_eq!((mode.repeat, mode.shuffle), (RepeatMode::All, ShuffleMode::On));
    let reply = raw(&mut channel, "heos://player/set_play_mode?pid=42&repeat=off&shuffle=maybe");
    assert_eq!(reply.heos.result, Some(false));
    assert_eq!(channel.system.players[PLAYER_42].snapshot.repeat, RepeatMode::All);
    let reply = raw(&mut channel, "heos://player/get_play_mode?pid=42");
    assert_eq!(reply.heos.message, "pid=42&repeat=on_all&shuffle=on");
}

#[test]
fn the_queue_as_payload() {
    let mut channel = create_doctest_channel();
    let pid = PlayerId(42);
    let queue = ask(&mut channel, GetQueue { player_id: pid, range: None }).unwrap();
    let names: Vec<&str> = queue.iter().map(|t| t.song.as_str()).collect();
    assert_eq!(names, vec!["Song1", "Song2", "Song3", "Song4"]);
    assert_eq!(queue[0].album_id.as_deref(), Some("queued-album-id"));
    assert_eq!(queue[0].image_url, None);
    assert_eq!(queue[2].queue_id, QueueId(3));
    let part = ask(&mut channel, GetQueue { player_id: pid, range: Some((1, 2)) }).unwrap();
    let names: Vec<&str> = part.iter().map(|t| t.song.as_str()).collect();
    assert_eq!(names, vec!["Song2", "Song3"]);
    let part = ask(&mut channel, GetQueue { player_id: pid, range: Some((3, 3)) }).unwrap();
    assert_eq!(part.len(), 1);
    let part = ask(&mut channel, GetQueue { player_id: pid, range: Some((4, 3)) }).unwrap();
    assert_eq!(part.len(), 0);
    assert!(matches!(
        ask(&mut channel, GetQueue { player_id: pid, range: Some((0, 4)) }),
        Err(CommandError::ParamOutOfRange)
    ));
    assert!(matches!(
        ask(&mut channel, GetQueue { player_id: pid, range: Some((5, 3)) }),
        Err(CommandError::ParamOutOfRange)
    ));
    let reply = raw(&mut channel, "heos://player/get_queue?pid=42&range=2,9");
    assert_eq!(reply.heos.message, "eid=9&text=Index (2,9) out of range: 0..4");
    let reply = raw(&mut channel, "heos://player/get_queue?pid=42&range=2");
    assert_eq!(reply.heos.message, "eid=3&text=Invalid 'range' argument: 2");
    let empty = ask(&mut channel, GetQueue { player_id: PlayerId(43), range: None }).unwrap();
    assert!(empty.is_empty());
}

#[test]
fn playing_a_track_of_the_queue_drops_what_stands_before_it() {
    let mut channel = create_doctest_channel();
    let pid = PlayerId(42);
    ask(&mut channel, PlayQueueItem { player_id: pid, queue_id: QueueId(0) }).unwrap();
    assert_eq!(songs(&channel, PLAYER_42), vec!["Song1", "Song2", "Song3", "Song4"]);
    ask(&mut channel, PlayQueueItem { player_id: pid, queue_id: QueueId(3) }).unwrap();
    assert_eq!(songs(&channel, PLAYER_42), vec!["Song3", "Song4"]);
    assert_eq!(places(&channel, PLAYER_42), vec![1, 2]);
    assert!(matches!(
        ask(&mut channel, PlayQueueItem { player_id: pid, queue_id: QueueId(3) }),
        Err(CommandError::ParamOutOfRange)
    ));
    let reply = raw(&mut channel, "heos://player/play_queue?pid=42&qid=3");
    assert_eq!(reply.heos.message, "eid=9&text=Index (3) out of range: 1..=2");
    ask(&mut channel, PlayQueueItem { player_id: pid, queue_id: QueueId(2) }).unwrap();
    assert_eq!(songs(&channel, PLAYER_42), vec!["Song4"]);
    assert_eq!(places(&channel, PLAYER_42), vec![1]);
}

#[test]
fn removing_tracks_renumbers_the_rest() {
    let mut channel = create_doctest_channel();
    let pid = PlayerId(42);
    ask(&mut channel, RemoveFromQueue { player_id: pid, queue_ids: vec![QueueId(3), QueueId(1)] }).unwrap();
    assert_eq!(songs(&channel, PLAYER_42), vec!["Song2", "Song4"]);
    assert_eq!(places(&channel, PLAYER_42), vec![1, 2]);
    assert!(matches!(
        ask(&mut channel, RemoveFromQueue { player_id: pid, queue_ids: vec![QueueId(1), QueueId(3)] }),
        Err(CommandError::ParamOutOfRange)
    ));
    assert_eq!(songs(&channel, PLAYER_42), vec!["Song2", "Song4"]);
    assert!(ask(&mut channel, RemoveFromQueue { player_id: pid, queue_ids: vec![QueueId(0)] }).is_err());
    ask(&mut channel, RemoveFromQueue { player_id: pid, queue_ids: vec![QueueId(2), QueueId(2)] }).unwrap();
    assert_eq!(songs(&channel, PLAYER_42), vec!["Song2"]);
    let reply = raw(&mut channel, "heos://player/remove_from_queue?pid=42&qid=");
    assert_eq!(reply.heos.message, "eid=3&text=Invalid 'qid' argument: ");
    ask(&mut channel, ClearQueue { player_id: pid }).unwrap();
    assert!(songs(&channel, PLAYER_42).is_empty());
    ask(&mut channel, ClearQueue { player_id: pid }).unwrap();
}

#[test]
fn moving_tracks_keeps_the_order_of_what_moves_and_of_what_stays() {
    let moves: Vec<(Vec<u64>, u64, Vec<&str>)> = vec![
        (vec![3, 4], 2, vec!["Song1", "Song3", "Song4", "Song2"]),
        (vec![4, 3], 2, vec!["Song1", "Song3", "Song4", "Song2"]),
        (vec![1], 4, vec!["Song2", "Song3", "Song1", "Song4"]),
        (vec![1], 1, vec!["Song1", "Song2", "Song3", "Song4"]),
        (vec![4], 1, vec!["Song4", "Song1", "Song2", "Song3"]),
        (vec![2], 9, vec!["Song1", "Song3", "Song4", "Song2"]),
        (vec![1, 3], 2, vec!["Song1", "Song3", "Song2", "Song4"]),
        (vec![2, 3], 3, vec!["Song1", "Song2", "Song3", "Song4"]),
        (vec![9], 2, vec!["Song1", "Song2", "Song3", "Song4"]),
        (vec![1, 2, 3, 4], 3, vec!["Song1", "Song2", "Song3", "Song4"]),
    ];
    for (src, dst, expected) in moves {
        let mut channel = create_doctest_channel();
        let command = heos::command::player::MoveQueue {
            player_id: PlayerId(42),
            src_queue_ids: src.iter().map(|n| QueueId(*n)).collect(),
            dst_queue_id: QueueId(dst),
        };
        ask(&mut channel, command).unwrap();
        assert_eq!(songs(&channel, PLAYER_42), expected, "{src:?} -> {dst}");
        assert_eq!(places(&channel, PLAYER_42), vec![1, 2, 3, 4]);
        assert_eq!(channel.system.players[PLAYER_42].snapshot.now_playing.info.info().queue_id, QueueId(0));
    }
    let mut channel = create_doctest_channel();
    let reply = raw(&mut channel, "heos://player/move_queue_item?pid=42&sqid=1");
    assert_eq!(reply.heos.message, "eid=3&text=Missing 'dqid' argument");
    let reply = raw(&mut channel, "heos://player/move_queue_item?pid=42&sqid=a&dqid=1");
    assert_eq!(reply.heos.message, "eid=3&text=Invalid 'sqid' argument: a");
}

#[test]
fn the_next_track_leaves_the_queue_and_plays() {
    let mut channel = create_doctest_channel();
    let pid = PlayerId(42);
    ask(&mut channel, PlayNext { player_id: pid }).unwrap();
    assert_eq!(songs(&channel, PLAYER_42), vec!["Song2", "Song3", "Song4"]);
    assert_eq!(places(&channel, PLAYER_42), vec![1, 2, 3]);
    let now = channel.system.players[PLAYER_42].snapshot.now_playing.info.info();
    assert_eq!(now.song, "Song1");
    assert_eq!(now.queue_id, QueueId(0));
    assert!(ask(&mut channel, PlayPrevious { player_id: pid }).is_ok());
    assert_eq!(songs(&channel, PLAYER_42), vec!["Song2", "Song3", "Song4"]);
    assert!(matches!(
        ask(&mut channel, PlayNext { player_id: PlayerId(43) }),
        Err(CommandError::ParamOutOfRange)
    ));
    let reply = raw(&mut channel, "heos://player/play_next?pid=43");
    assert_eq!(reply.heos.message, "eid=9&text=Index (1) out of range: 1..=0");
    let now_playing = ask(&mut channel, GetNowPlayingMedia { player_id: pid }).unwrap();
    assert!(now_playing.options.is_empty());
    match now_playing.value {
        NowPlayingInfo::Song { info, source_id } => {
            assert_eq!(info.song, "Song1");
            assert_eq!(info.queue_id, QueueId(0));
            assert_eq!(source_id, SourceId::Pandora);
        }
        other => panic!("{other:?}"),
    }
}

#[test]
fn saving_the_queue_makes_a_playlist() {
    let mut channel = create_doctest_channel();
    ask(&mut channel, SaveQueue { player_id: PlayerId(42), name: "Mine".to_string() }).unwrap();
    ask(&mut channel, SaveQueue { player_id: PlayerId(43), name: "Empty".to_string() }).unwrap();
    assert_eq!(channel.system.playlists.len(), 3);
    assert_eq!(channel.system.playlists[1].container_id, "playlist-0");
    assert_eq!(channel.system.playlists[1].name, "Mine");
    assert_eq!(channel.system.playlists[1].tracks.len(), 4);
    assert_eq!(channel.system.playlists[2].container_id, "playlist-1");
    assert!(channel.system.playlists[2].tracks.is_empty());
    assert_eq!(channel.system.next_playlist_num, 2);
    let reply = raw(&mut channel, "heos://player/save_queue?pid=42");
    assert_eq!(reply.heos.message, "eid=3&text=Missing 'name' argument");
    assert_eq!(channel.system.next_playlist_num, 2);
    channel.system.insert_playlist(MockPlaylist::new("playlist-1".to_string(), "Other".to_string()));
    assert_eq!(channel.system.playlists.len(), 3);
    assert_eq!(channel.system.playlists[2].name, "Other");
}

#[test]
fn playlists_are_renamed_and_deleted() {
    let mut channel = create_doctest_channel();
    ask(
        &mut channel,
        RenamePlaylist {
            source_id: SourceId::HeosPlaylists,
            container_id: "playlist-id".to_string(),
            name: "Renamed".to_string(),
        },
    )
    .unwrap();
    assert_eq!(channel.system.playlists[0].name, "Renamed");
    assert!(matches!(
        ask(
            &mut channel,
            RenamePlaylist {
                source_id: SourceId::Tidal,
                container_id: "playlist-id".to_string(),
                name: "x".to_string()
            }
        ),
        Err(CommandError::InvalidArguments)
    ));
    let reply = raw(&mut channel, "heos://browse/rename_playlist?sid=10&cid=playlist-id&name=x");
    assert_eq!(
        reply.heos.message,
        "eid=3&text=Invalid 'sid' argument: Only HeosPlaylists (1025) is currently a valid ID"
    );
    assert!(matches!(
        ask(
            &mut channel,
            DeletePlaylist { source_id: SourceId::HeosPlaylists, container_id: "nope".to_string() }
        ),
        Err(CommandError::InvalidId)
    ));
    ask(
        &mut channel,
        DeletePlaylist { source_id: SourceId::HeosPlaylists, container_id: "playlist-id".to_string() },
    )
    .unwrap();
    assert!(channel.system.playlists.is_empty());
}

#[test]
fn quick_selects_of_a_player() {
    let mut channel = create_doctest_channel();
    let pid = PlayerId(42);
    let all = ask(&mut channel, GetQuickSelects { player_id: pid, id: None }).unwrap();
    assert_eq!(all.len(), 6);
    assert_eq!(all[5].name, "QuickSelect6");
    for n in 1..=6 {
        let id = QuickSelectId::new(n).unwrap();
        let one = ask(&mut channel, GetQuickSelects { player_id: pid, id: Some(id) }).unwrap();
        assert_eq!(one.len(), 1);
        assert_eq!(one[0].id, id);
        assert_eq!(one[0].name, format!("QuickSelect{n}"));
        assert!(ask(&mut channel, SetQuickSelect { player_id: pid, id }).is_ok());
        assert!(ask(&mut channel, PlayQuickSelect { player_id: pid, id }).is_ok());
    }
    let reply = raw(&mut channel, "heos://player/play_quickselect?pid=42&id=7");
    assert_eq!(reply.heos.message, "eid=3&text=Invalid 'id' argument: 7");
    channel.system.players[PLAYER_42].quickselects.truncate(2);
    assert!(matches!(
        ask(&mut channel, GetQuickSelects { player_id: pid, id: Some(QuickSelectId::new(3).unwrap()) }),
        Err(CommandError::ParamOutOfRange)
    ));
}

#[test]
fn volume_and_mute_of_a_group() {
    let mut channel = create_doctest_channel();
    let gid = GroupId(1);
    assert_eq!(ask(&mut channel, GetGroupVolume { group_id: gid }).unwrap().get(), 100);
    ask(&mut channel, SetGroupVolume { group_id: gid, level: Volume::new(20).unwrap() }).unwrap();
    ask(&mut channel, GroupVolumeUp { group_id: gid, step: None }).unwrap();
    assert_eq!(ask(&mut channel, GetGroupVolume { group_id: gid }).unwrap().get(), 25);
    ask(&mut channel, GroupVolumeDown { group_id: gid, step: Some(VolumeStep::new(10).unwrap()) }).unwrap();
    assert_eq!(ask(&mut channel, GetGroupVolume { group_id: gid }).unwrap().get(), 15);
    assert_eq!(ask(&mut channel, GetGroupMute { group_id: gid }).unwrap(), MuteState::Off);
    ask(&mut channel, ToggleGroupMute { group_id: gid }).unwrap();
    assert_eq!(ask(&mut channel, GetGroupMute { group_id: gid }).unwrap(), MuteState::On);
    ask(&mut channel, SetGroupMute { group_id: gid, state: MuteState::Off }).unwrap();
    assert_eq!(ask(&mut channel, GetGroupMute { group_id: gid }).unwrap(), MuteState::Off);
    assert!(matches!(
        ask(&mut channel, GetGroupVolume { group_id: GroupId(2) }),
        Err(CommandError::InvalidId)
    ));
    let reply = raw(&mut channel, "heos://group/get_volume?gid=2");
    assert_eq!(reply.heos.message, "eid=2&text=Invalid gid '2'");
    assert_eq!(channel.system.players[0].snapshot.volume.get(), 100);
    let groups = ask(&mut channel, GetGroups {}).unwrap();
    assert_eq!(groups.len(), 1);
    assert_eq!(groups[0].name, "Group1");
    assert_eq!(groups[0].players.len(), 3);
}

fn roles(channel: &MockChannel, group: usize) -> Vec<(i64, GroupRole)> {
    channel.system.groups[group].snapshot.info.players.iter().map(|p| (p.player_id.0, p.role)).collect()
}

#[test]
fn set_group_changes_the_players_of_an_existing_group() {
    let mut channel = create_doctest_channel();
    let result = ask(&mut channel, SetGroup { player_ids: vec![PlayerId(1), PlayerId(3), PlayerId(43)] }).unwrap();
    match result {
        SetGroupResult::CreatedOrModified { group_id, name } => {
            assert_eq!(group_id, GroupId(1));
            assert_eq!(name, "Player1+Player3+Player43");
        }
        other => panic!("{other:?}"),
    }
    assert_eq!(channel.system.groups.len(), 1);
    assert_eq!(
        roles(&channel, 0),
        vec![(1, GroupRole::Leader), (3, GroupRole::Member), (43, GroupRole::Member)]
    );
    assert_eq!(channel.system.groups[0].snapshot.leader_id, PlayerId(1));
    assert_eq!(channel.system.groups[0].snapshot.info.name, "Player1+Player3+Player43");
}

#[test]
fn set_group_names_each_member_once() {
    let mut channel = create_doctest_channel();
    ask(
        &mut channel,
        SetGroup { player_ids: vec![PlayerId(42), PlayerId(43), PlayerId(43), PlayerId(2), PlayerId(43)] },
    )
    .unwrap();
    assert_eq!(channel.system.groups.len(), 2);
    assert_eq!(
        roles(&channel, 1),
        vec![(42, GroupRole::Leader), (43, GroupRole::Member), (2, GroupRole::Member)]
    );
    assert_eq!(channel.system.groups[1].snapshot.info.group_id, GroupId(42));
    assert_eq!(channel.system.groups[1].snapshot.volume.get(), 100);
}

#[test]
fn set_group_fails_for_unknown_players_and_changes_nothing() {
    let mut channel = create_doctest_channel();
    for ids in [vec![42], vec![7], vec![7, 1], vec![42, 7], vec![1, 2, 7], vec![42, 43, 8, 9]] {
        let player_ids = ids.iter().map(|n| PlayerId(*n)).collect();
        assert!(
            matches!(ask(&mut channel, SetGroup { player_ids }), Err(CommandError::InvalidId)),
            "{ids:?}"
        );
        assert_eq!(channel.system.groups.len(), 1);
        assert_eq!(
            roles(&channel, 0),
            vec![(1, GroupRole::Leader), (2, GroupRole::Member), (3, GroupRole::Member)]
        );
    }
    let reply = raw(&mut channel, "heos://group/set_group?pid=42,43,8,9");
    assert_eq!(reply.heos.message, "eid=2&text=Invalid pid '8'");
    let reply = raw(&mut channel, "heos://group/set_group?pid=");
    assert_eq!(reply.heos.message, "eid=3&text=Invalid 'pid' argument: ");
    let reply = raw(&mut channel, "heos://group/set_group");
    assert_eq!(reply.heos.message, "eid=3&text=Missing 'pid' argument");
}

#[test]
fn after_set_group_every_group_has_one_leader_and_known_players() {
    let mut channel = create_doctest_channel();
    let requests: Vec<Vec<i64>> = vec![
        vec![42, 43], vec![1, 2], vec![43, 42], vec![1], vec![2, 3], vec![42], vec![3, 1],
        vec![2, 3, 42, 43, 1], vec![2], vec![1, 1, 1], vec![9, 1], vec![43],
    ];
    for ids in requests {
        let player_ids = ids.iter().map(|n| PlayerId(*n)).collect();
        let _ = ask(&mut channel, SetGroup { player_ids });
        for group in &channel.system.groups {
            let leaders: Vec<PlayerId> = group
                .snapshot
                .info
                .players
                .iter()
                .filter(|p| p.role == GroupRole::Leader)
                .map(|p| p.player_id)
                .collect();
            assert_eq!(leaders, vec![group.snapshot.leader_id], "{ids:?}");
            for p in &group.snapshot.info.players {
                assert!(channel.system.find_player(p.player_id).is_some());
            }
        }
    }
}

#[test]
fn sources_as_payload() {
    let mut channel = create_doctest_channel();
    let sources = ask(&mut channel, GetSources {}).unwrap();
    assert_eq!(sources.len(), 19);
    assert_eq!(sources[9].name, "Tidal");
    assert_eq!(sources[9].source_id, SourceId::Tidal);
    assert_eq!(sources[9].service_username, None);
    let info = ask(&mut channel, GetSourceInfo { source_id: SourceId::HeosHistory }).unwrap();
    assert_eq!(info.name, "HEOS History");
    assert_eq!(info.source_type, SourceType::HeosService);
    assert_eq!(
        info.image_url,
        "https://production.ws.skyegloup.com/media/images/service/logos/musicsource_logo_history.png"
    );
    let criteria = ask(&mut channel, GetSearchCriteria { source_id: SourceId::Soundcloud }).unwrap();
    assert_eq!(criteria.len(), 2);
    assert_eq!(criteria[0].criteria, CriteriaId::Accounts);
    assert_eq!(criteria[1].search_prefix.as_deref(), Some("SEARCHED_TRACKS-"));
    assert!(criteria[1].playable);
    assert!(ask(&mut channel, GetSearchCriteria { source_id: SourceId::Pandora }).unwrap().is_empty());
    assert!(matches!(
        ask(&mut channel, GetSourceInfo { source_id: SourceId::Unknown(500) }),
        Err(CommandError::InvalidId)
    ));
    let reply = raw(&mut channel, "heos://browse/get_source_info?sid=500");
    assert_eq!(reply.heos.message, "eid=2&text=Invalid sid '500'");
}

fn add(channel: &mut MockChannel, how: AddToQueueType) -> Result<(), CommandError> {
    ask(
        channel,
        AddToQueue {
            player_id: PlayerId(42),
            source_id: SourceId::LocalUsbOrDlna,
            container_id: None,
            media_id: "new-song-id".to_string(),
            add_to_queue_type: how,
        },
    )
}

#[test]
fn adding_to_the_queue_in_its_four_ways() {
    let mut channel = create_doctest_channel();
    add(&mut channel, AddToQueueType::PlayNext).unwrap();
    assert_eq!(songs(&channel, PLAYER_42), vec!["NewSong", "Song1", "Song2", "Song3", "Song4"]);
    assert_eq!(places(&channel, PLAYER_42), vec![1, 2, 3, 4, 5]);
    assert_eq!(channel.system.players[PLAYER_42].snapshot.now_playing.info.info().song, "TheCurrentSong");

    let mut channel = create_doctest_channel();
    add(&mut channel, AddToQueueType::AddToEnd).unwrap();
    assert_eq!(songs(&channel, PLAYER_42), vec!["Song1", "Song2", "Song3", "Song4", "NewSong"]);
    assert_eq!(places(&channel, PLAYER_42), vec![1, 2, 3, 4, 5]);

    let mut channel = create_doctest_channel();
    add(&mut channel, AddToQueueType::PlayNow).unwrap();
    assert_eq!(songs(&channel, PLAYER_42), vec!["Song1", "Song2", "Song3", "Song4"]);
    let now = &channel.system.players[PLAYER_42].snapshot.now_playing;
    assert_eq!(now.info.info().song, "NewSong");
    assert_eq!(now.info.info().queue_id, QueueId(0));
    assert_eq!((now.progress.elapsed, now.progress.duration), (0, 123_000));
    assert!(matches!(now.info, NowPlayingInfo::Song { source_id: SourceId::LocalUsbOrDlna, .. }));

    let mut channel = create_doctest_channel();
    add(&mut channel, AddToQueueType::ReplaceAndPlay).unwrap();
    assert!(songs(&channel, PLAYER_42).is_empty());
    assert_eq!(channel.system.players[PLAYER_42].snapshot.now_playing.info.info().song, "NewSong");
}

#[test]
fn adding_to_the_queue_fails_for_what_is_not_there() {
    let mut channel = create_doctest_channel();
    let reply = raw(&mut channel, "heos://browse/add_to_queue?pid=42&sid=1024&mid=other&aid=3");
    assert_eq!(reply.heos.message, "eid=2&text=Invalid mid 'other'");
    let reply = raw(&mut channel, "heos://browse/add_to_queue?pid=42&sid=10&mid=new-song-id&aid=3");
    assert_eq!(reply.heos.message, "eid=2&text=Invalid mid 'new-song-id'");
    let reply = raw(&mut channel, "heos://browse/add_to_queue?pid=42&sid=1024&mid=new-song-id&aid=5");
    assert_eq!(reply.heos.message, "eid=3&text=Invalid 'aid' argument: 5");
    let reply = raw(&mut channel, "heos://browse/add_to_queue?pid=7&sid=1024&mid=new-song-id&aid=3");
    assert_eq!(reply.heos.message, "eid=2&text=Invalid pid '7'");
    let reply = raw(&mut channel, "heos://browse/add_to_queue?pid=42&sid=1024&aid=3");
    assert_eq!(reply.heos.message, "eid=3&text=Missing 'mid' argument");
    let reply = raw(&mut channel, "heos://browse/add_to_queue?pid=42&mid=x&aid=3");
    assert_eq!(reply.heos.message, "eid=3&text=Missing 'sid' argument");
    assert_eq!(songs(&channel, PLAYER_42), vec!["Song1", "Song2", "Song3", "Song4"]);
}

#[test]
fn replies_reflect_the_parameters_of_their_command() {
    let mut channel = create_doctest_channel();
    let reply = raw(&mut channel, "heos://player/set_mute?pid=42&state=on&SEQUENCE=9");
    assert_eq!(reply.heos.command, "player/set_mute");
    assert_eq!(reply.heos.result, Some(true));
    assert_eq!(reply.heos.message, "pid=42&state=on&SEQUENCE=9");
    assert_eq!(reply.try_msg_id().unwrap(), Some(9));
    let reply = raw(&mut channel, "heos://player/get_mute?state=stale&pid=42");
    assert_eq!(reply.heos.message, "state=on&pid=42");
    let reply = raw(&mut channel, "heos://system/check_account?SEQUENCE=3");
    assert_eq!(reply.heos.message, "signed_out");
}

#[test]
fn tables_can_be_filled_by_hand() {
    let mut system = MockHeosSystem::empty();
    assert!(system.sources.is_empty());
    let channel = create_doctest_channel();
    let mut donor = channel.system;
    system.players.push(donor.players.remove(0));
    let track = donor.sources[14].catalogue.remove(0);
    let copy = MockTrack::new(track.info, track.source_id, 5);
    assert_eq!(copy.duration, 5);
    assert_eq!(system.find_player(PlayerId(1)), Some(0));
    assert_eq!(system.find_player(PlayerId(2)), None);
    assert_eq!(system.find_group(GroupId(1)), None);
    assert_eq!(system.find_led_group(PlayerId(1)), None);
    assert_eq!(system.find_playlist("x"), None);
    system.insert_group(donor.groups.remove(0));
    assert_eq!(system.find_group(GroupId(1)), Some(0));
    assert_eq!(system.find_led_group(PlayerId(1)), Some(0));
    let player = MockPlayer::new(system.players[0].snapshot.info.clone());
    assert_eq!(player.id(), PlayerId(1));
}
