use heos::command::browse::{
    AddToQueue, Browse, DeletePlaylist, GetAlbumMetadata, GetSearchCriteria, GetSourceInfo,
    GetSources, PlayInputSource, PlayPreset, PlayStation, PlayUrl, RenamePlaylist, Search,
    SetServiceOption,
};
use heos::command::group::{
    GetGroupInfo, GetGroupMute, GetGroupVolume, GetGroups, GroupVolumeDown, GroupVolumeUp,
    SetGroup, SetGroupMute, SetGroupVolume, ToggleGroupMute,
};
use heos::command::player::{
    CheckUpdate, ClearQueue, GetMute, GetNowPlayingMedia, GetPlayMode, GetPlayState,
    GetPlayerInfo, GetPlayers, GetQueue, GetQuickSelects, GetVolume, MoveQueue, PlayNext,
    PlayPrevious, PlayQueueItem, PlayQuickSelect, RemoveFromQueue, SaveQueue, SetMute,
    SetPlayMode, SetPlayState, SetQuickSelect, SetVolume, ToggleMute, VolumeDown, VolumeUp,
};
use heos::command::system::{
    CheckAccount, HeartBeat, Reboot, RegisterForChangeEvents, SignIn, SignOut,
};
use heos::command::typed::Command;
use heos::data::common::{MuteState, Volume, VolumeStep};
use heos::data::group::GroupId;
use heos::data::option::{AddToHeosFavorites, ServiceOption};
use heos::data::player::{AddToQueueType, PlayState, PlayerId, RepeatMode, ShuffleMode};
use heos::data::queue::QueueId;
use heos::data::quickselect::QuickSelectId;
use heos::data::source::SourceId;
use heos::data::system::ChangeEventsEnabled;

fn text<C: Command>(command: C) -> String {
    command.to_raw().to_string()
}

#[test]
fn system_commands_in_text() {
    assert_eq!(
        text(RegisterForChangeEvents { enable: ChangeEventsEnabled::On }),
        "heos://system/register_for_change_events?enable=on"
    );
    assert_eq!(
        text(RegisterForChangeEvents { enable: ChangeEventsEnabled::Off }),
        "heos://system/register_for_change_events?enable=off"
    );
    assert_eq!(text(CheckAccount {}), "heos://system/check_account");
    assert_eq!(
        text(SignIn { username: "me".to_string(), password: "secret".to_string() }),
        "heos://system/sign_in?username=me&password=secret"
    );
    assert_eq!(text(SignOut {}), "heos://system/sign_out");
    assert_eq!(text(HeartBeat {}), "heos://system/heart_beat");
    assert_eq!(text(Reboot {}), "heos://system/reboot");
}

#[test]
fn player_commands_in_text() {
    let pid = PlayerId(-7);
    assert_eq!(text(GetPlayers {}), "heos://player/get_players");
    assert_eq!(text(GetPlayerInfo { player_id: pid }), "heos://player/get_player_info?pid=-7");
    assert_eq!(text(GetPlayState { player_id: pid }), "heos://player/get_play_state?pid=-7");
    assert_eq!(
        text(SetPlayState { player_id: pid, state: PlayState::Pause }),
        "heos://player/set_play_state?pid=-7&state=pause"
    );
    assert_eq!(
        text(GetNowPlayingMedia { player_id: pid }),
        "heos://player/get_now_playing_media?pid=-7"
    );
    assert_eq!(text(GetVolume { player_id: pid }), "heos://player/get_volume?pid=-7");
    assert_eq!(
        text(SetVolume { player_id: pid, level: Volume::new(0).unwrap() }),
        "heos://player/set_volume?pid=-7&level=0"
    );
    assert_eq!(text(GetMute { player_id: pid }), "heos://player/get_mute?pid=-7");
    assert_eq!(
        text(SetMute { player_id: pid, state: MuteState::On }),
        "heos://player/set_mute?pid=-7&state=on"
    );
    assert_eq!(text(ToggleMute { player_id: pid }), "heos://player/toggle_mute?pid=-7");
    assert_eq!(text(GetPlayMode { player_id: pid }), "heos://player/get_play_mode?pid=-7");
    assert_eq!(text(ClearQueue { player_id: pid }), "heos://player/clear_queue?pid=-7");
    assert_eq!(text(PlayNext { player_id: pid }), "heos://player/play_next?pid=-7");
    assert_eq!(text(PlayPrevious { player_id: pid }), "heos://player/play_previous?pid=-7");
    assert_eq!(text(CheckUpdate { player_id: pid }), "heos://player/check_update?pid=-7");
    assert_eq!(
        text(PlayQueueItem { player_id: pid, queue_id: QueueId(3) }),
        "heos://player/play_queue?pid=-7&qid=3"
    );
    assert_eq!(
        text(SaveQueue { player_id: pid, name: "Evening".to_string() }),
        "heos://player/save_queue?pid=-7&name=Evening"
    );
    assert_eq!(
        text(SetQuickSelect { player_id: pid, id: QuickSelectId::new(6).unwrap() }),
        "heos://player/set_quickselect?pid=-7&id=6"
    );
    assert_eq!(
        text(PlayQuickSelect { player_id: pid, id: QuickSelectId::new(1).unwrap() }),
        "heos://player/play_quickselect?pid=-7&id=1"
    );
}

#[test]
fn absent_values_leave_no_parameter() {
    let pid = PlayerId(1);
    assert_eq!(text(VolumeUp { player_id: pid, step: None }), "heos://player/volume_up?pid=1");
    assert_eq!(
        text(VolumeUp { player_id: pid, step: Some(VolumeStep::new(3).unwrap()) }),
        "heos://player/volume_up?pid=1&step=3"
    );
    assert_eq!(
        text(VolumeDown { player_id: pid, step: Some(VolumeStep::default()) }),
        "heos://player/volume_down?pid=1&step=5"
    );
    assert_eq!(
        text(SetPlayMode { player_id: pid, repeat: None, shuffle: None }),
        "heos://player/set_play_mode?pid=1"
    );
    assert_eq!(
        text(SetPlayMode { player_id: pid, repeat: Some(RepeatMode::All), shuffle: None }),
        "heos://player/set_play_mode?pid=1&repeat=on_all"
    );
    assert_eq!(
        text(SetPlayMode {
            player_id: pid,
            repeat: Some(RepeatMode::One),
            shuffle: Some(ShuffleMode::On)
        }),
        "heos://player/set_play_mode?pid=1&repeat=on_one&shuffle=on"
    );
    assert_eq!(
        text(GetQuickSelects { player_id: pid, id: None }),
        "heos://player/get_quickselects?pid=1"
    );
    assert_eq!(
        text(GetQuickSelects { player_id: pid, id: Some(QuickSelectId::new(2).unwrap()) }),
        "heos://player/get_quickselects?pid=1&id=2"
    );
}

#[test]
fn ranges_and_lists_are_joined_with_commas() {
    let pid = PlayerId(1);
    assert_eq!(text(GetQueue { player_id: pid, range: None }), "heos://player/get_queue?pid=1");
    assert_eq!(
        text(GetQueue { player_id: pid, range: Some((0, 99)) }),
        "heos://player/get_queue?pid=1&range=0,99"
    );
    assert_eq!(
        text(RemoveFromQueue { player_id: pid, queue_ids: vec![QueueId(4)] }),
        "heos://player/remove_from_queue?pid=1&qid=4"
    );
    assert_eq!(
        text(RemoveFromQueue {
            player_id: pid,
            queue_ids: vec![QueueId(4), QueueId(2), QueueId(9)]
        }),
        "heos://player/remove_from_queue?pid=1&qid=4,2,9"
    );
    assert_eq!(
        text(MoveQueue {
            player_id: pid,
            src_queue_ids: vec![QueueId(2), QueueId(3)],
            dst_queue_id: QueueId(1)
        }),
        "heos://player/move_queue_item?pid=1&sqid=2,3&dqid=1"
    );
    assert_eq!(
        text(SetGroup { player_ids: vec![PlayerId(1), PlayerId(2), PlayerId(3)] }),
        "heos://group/set_group?pid=1,2,3"
    );
    assert_eq!(text(SetGroup { player_ids: vec![] }), "heos://group/set_group?pid=");
}

#[test]
fn group_commands_in_text() {
    let gid = GroupId(5);
    assert_eq!(text(GetGroups {}), "heos://group/get_groups");
    assert_eq!(text(GetGroupInfo { group_id: gid }), "heos://group/get_group_info?gid=5");
    assert_eq!(text(GetGroupVolume { group_id: gid }), "heos://group/get_volume?gid=5");
    assert_eq!(
        text(SetGroupVolume { group_id: gid, level: Volume::new(100).unwrap() }),
        "heos://group/set_volume?gid=5&level=100"
    );
    assert_eq!(text(GroupVolumeUp { group_id: gid, step: None }), "heos://group/volume_up?gid=5");
    assert_eq!(
        text(GroupVolumeDown { group_id: gid, step: Some(VolumeStep::new(10).unwrap()) }),
        "heos://group/volume_down?gid=5&step=10"
    );
    assert_eq!(text(GetGroupMute { group_id: gid }), "heos://group/get_mute?gid=5");
    assert_eq!(
        text(SetGroupMute { group_id: gid, state: MuteState::Off }),
        "heos://group/set_mute?gid=5&state=off"
    );
    assert_eq!(text(ToggleGroupMute { group_id: gid }), "heos://group/toggle_mute?gid=5");
}

#[test]
fn browse_commands_in_text() {
    let sid = SourceId::Tidal;
    let pid = PlayerId(9);
    assert_eq!(text(GetSources {}), "heos://browse/get_music_sources");
    assert_eq!(text(GetSourceInfo { source_id: sid }), "heos://browse/get_source_info?sid=10");
    assert_eq!(
        text(Browse { source_id: SourceId::Unknown(77), container_id: None, range: None }),
        "heos://browse/browse?sid=77"
    );
    assert_eq!(
        text(Browse { source_id: sid, container_id: Some("Albums".to_string()), range: Some((10, 19)) }),
        "heos://browse/browse?sid=10&cid=Albums&range=10,19"
    );
    assert_eq!(
        text(GetSearchCriteria { source_id: sid }),
        "heos://browse/get_search_criteria?sid=10"
    );
    assert_eq!(
        text(Search {
            source_id: sid,
            search: "blue".to_string(),
            criteria: "3".to_string(),
            range: None
        }),
        "heos://browse/search?sid=10&search=blue&scid=3"
    );
    assert_eq!(
        text(PlayStation {
            player_id: pid,
            source_id: SourceId::TuneIn,
            container_id: None,
            media_id: "s1".to_string(),
            name: "One".to_string()
        }),
        "heos://browse/play_stream?pid=9&sid=3&mid=s1&name=One"
    );
    assert_eq!(
        text(PlayPreset { player_id: pid, preset: 2 }),
        "heos://browse/play_preset?pid=9&preset=2"
    );
    assert_eq!(
        text(PlayInputSource {
            player_id: pid,
            src_player_id: Some(PlayerId(8)),
            input: "inputs/aux_in_1".to_string()
        }),
        "heos://browse/play_input?pid=9&spid=8&input=inputs/aux_in_1"
    );
    assert_eq!(
        text(PlayInputSource { player_id: pid, src_player_id: None, input: "x".to_string() }),
        "heos://browse/play_input?pid=9&input=x"
    );
    assert_eq!(
        text(PlayUrl { player_id: pid, url: "http://radio.example/a.mp3".to_string() }),
        "heos://browse/play_stream?pid=9&url=http://radio.example/a.mp3"
    );
    assert_eq!(
        text(AddToQueue {
            player_id: pid,
            source_id: SourceId::LocalUsbOrDlna,
            container_id: Some("c".to_string()),
            media_id: "m".to_string(),
            add_to_queue_type: AddToQueueType::ReplaceAndPlay
        }),
        "heos://browse/add_to_queue?pid=9&sid=1024&cid=c&mid=m&aid=4"
    );
    assert_eq!(
        text(RenamePlaylist {
            source_id: SourceId::HeosPlaylists,
            container_id: "p1".to_string(),
            name: "New".to_string()
        }),
        "heos://browse/rename_playlist?sid=1025&cid=p1&name=New"
    );
    assert_eq!(
        text(DeletePlaylist { source_id: SourceId::HeosPlaylists, container_id: "p1".to_string() }),
        "heos://browse/delete_playlist?sid=1025&cid=p1"
    );
    assert_eq!(
        text(GetAlbumMetadata { source_id: sid, container_id: "a1".to_string() }),
        "heos://browse/retrieve_metadata?sid=10&cid=a1"
    );
}

#[test]
fn service_options_name_their_number_and_their_subject() {
    let set = |option| text(SetServiceOption { source_id: SourceId::Pandora, option });
    assert_eq!(
        set(ServiceOption::AddTrackToLibrary { media_id: "m".to_string() }),
        "heos://browse/set_service_option?sid=1&option=1&mid=m"
    );
    assert_eq!(
        set(ServiceOption::AddAlbumToLibrary { container_id: "c".to_string() }),
        "heos://browse/set_service_option?sid=1&option=2&cid=c"
    );
    assert_eq!(
        set(ServiceOption::AddStationToLibrary { media_id: "m".to_string() }),
        "heos://browse/set_service_option?sid=1&option=3&mid=m"
    );
    assert_eq!(
        set(ServiceOption::AddPlaylistToLibrary {
            container_id: "c".to_string(),
            name: "n".to_string()
        }),
        "heos://browse/set_service_option?sid=1&option=4&cid=c&name=n"
    );
    assert_eq!(
        set(ServiceOption::RemoveTrackFromLibrary { media_id: "m".to_string() }),
        "heos://browse/set_service_option?sid=1&option=5&mid=m"
    );
    assert_eq!(
        set(ServiceOption::RemoveAlbumFromLibrary { container_id: "c".to_string() }),
        "heos://browse/set_service_option?sid=1&option=6&cid=c"
    );
    assert_eq!(
        set(ServiceOption::RemoveStationFromLibrary { media_id: "m".to_string() }),
        "heos://browse/set_service_option?sid=1&option=7&mid=m"
    );
    assert_eq!(
        set(ServiceOption::RemovePlaylistFromLibrary { container_id: "c".to_string() }),
        "heos://browse/set_service_option?sid=1&option=8&cid=c"
    );
    assert_eq!(
        set(ServiceOption::ThumbsUp { player_id: PlayerId(4) }),
        "heos://browse/set_service_option?sid=1&option=11&pid=4"
    );
    assert_eq!(
        set(ServiceOption::ThumbsDown { player_id: PlayerId(4) }),
        "heos://browse/set_service_option?sid=1&option=12&pid=4"
    );
    assert_eq!(
        set(ServiceOption::CreateNewStation {
            name: "x".to_string(),
            criteria: None,
            range: None
        }),
        "heos://browse/set_service_option?sid=1&option=13&name=x"
    );
    assert_eq!(
        set(ServiceOption::CreateNewStation {
            name: "x".to_string(),
            criteria: Some("1".to_string()),
            range: Some((0, 9))
        }),
        "heos://browse/set_service_option?sid=1&option=13&name=x&scid=1&range=0,9"
    );
    assert_eq!(
        set(ServiceOption::AddToHeosFavorites(AddToHeosFavorites::NowPlaying {
            player_id: PlayerId(4)
        })),
        "heos://browse/set_service_option?sid=1&option=19&pid=4"
    );
    assert_eq!(
        set(ServiceOption::AddToHeosFavorites(AddToHeosFavorites::Browse {
            media_id: "m".to_string(),
            name: "n".to_string()
        })),
        "heos://browse/set_service_option?sid=1&option=19&mid=m&name=n"
    );
    assert_eq!(
        set(ServiceOption::RemoveFromHeosFavorites { media_id: "m".to_string() }),
        "heos://browse/set_service_option?sid=1&option=20&mid=m"
    );
}

#[test]
fn every_typed_command_reads_back_from_its_text() {
    let raws = vec![
        GetPlayers {}.to_raw(),
        SetVolume { player_id: PlayerId(42), level: Volume::new(50).unwrap() }.to_raw(),
        SetPlayMode { player_id: PlayerId(1), repeat: Some(RepeatMode::Off), shuffle: None }
            .to_raw(),
        MoveQueue {
            player_id: PlayerId(1),
            src_queue_ids: vec![QueueId(3), QueueId(4)],
            dst_queue_id: QueueId(2),
        }
        .to_raw(),
        SetGroup { player_ids: vec![PlayerId(1), PlayerId(-2)] }.to_raw(),
        GetQueue { player_id: PlayerId(1), range: Some((5, 10)) }.to_raw(),
        SignIn { username: "user@example.com".to_string(), password: "p=w".to_string() }.to_raw(),
        Search {
            source_id: SourceId::Deezer,
            search: "a b".to_string(),
            criteria: "2".to_string(),
            range: None,
        }
        .to_raw(),
    ];
    for raw in raws {
        let parsed = heos::command::raw::RawCommand::parse(&raw.to_string()).unwrap();
        assert_eq!(parsed.group(), raw.group());
        assert_eq!(parsed.name(), raw.name());
        assert_eq!(parsed.params(), raw.params());
    }
}

#[test]
fn a_value_with_an_ampersand_does_not_read_back() {
    let raw = SaveQueue { player_id: PlayerId(1), name: "R&B".to_string() }.to_raw();
    let parsed = heos::command::raw::RawCommand::parse(&raw.to_string()).unwrap();
    assert_ne!(parsed.params(), raw.params());
    assert_eq!(parsed.get("name").map(|s| s.as_str()), Some("R"));
    assert_eq!(parsed.get("B").map(|s| s.as_str()), Some(""));
}

#[test]
fn a_typed_command_as_a_raw_command() {
    let command = heos::command::player::SetVolume {
        player_id: heos::data::player::PlayerId(42),
        level: heos::data::common::Volume::new(50).unwrap(),
    };
    let raw = heos::command::raw::RawCommand::from_command(&command).unwrap();
    assert_eq!(raw.to_string(), "heos://player/set_volume?pid=42&level=50");
    assert_eq!(raw.to_string(), command.to_raw().to_string());
}
