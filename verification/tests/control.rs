use heos::command::raw::RawCommand;
use heos::data::common::{MuteState, Volume, VolumeStep};
use heos::data::group::{GroupId, GroupInfo, GroupPlayer, GroupRole};
use heos::data::player::{
    AddToQueueType, LineOutType, NetworkType, PlayMode, PlayState, PlayerId, PlayerInfo,
    RepeatMode, ShuffleMode,
};
use heos::data::queue::{NowPlayingInfo, QueueId, QueuedTrackInfo};
use heos::data::source::SourceId;
use heos::data::system::AccountStatus;
use heos::state::control::{drag_target, ControlButton, MediaControl};
use heos::state::group::GroupSnapshot;
use heos::state::model::State;
use heos::state::playable::{Playable, PlayableId};
use heos::state::player::PlayerSnapshot;
use heos::data::item::SearchResults;
use heos::data::media::media_item_from_track;
use heos::data::option::{ServiceOption, ServiceOptionType, WithOptions};
use heos::state::source::{SearchCollector, SourceData};

fn track(name: &str, place: u64) -> QueuedTrackInfo {
    QueuedTrackInfo {
        song: name.to_string(),
        album: String::new(),
        artist: String::new(),
        image_url: None,
        media_id: name.to_string(),
        queue_id: QueueId(place),
        album_id: None,
    }
}

fn player(id: i64) -> PlayerSnapshot {
    PlayerSnapshot::assemble(
        PlayerInfo {
            name: format!("Player{id}"),
            player_id: PlayerId(id),
            group_id: None,
            model: "m".to_string(),
            version: "v".to_string(),
            ip: "10.0.0.1".to_string(),
            network: NetworkType::Wired,
            line_out: LineOutType::Unavailable,
            line_out_control: None,
            serial: None,
        },
        NowPlayingInfo::Song { info: track("now", 0), source_id: SourceId::Tidal },
        vec![track("a", 1), track("b", 2), track("c", 3)],
        PlayState::Stop,
        Volume::new(40).unwrap(),
        MuteState::Off,
        PlayMode { repeat: RepeatMode::Off, shuffle: ShuffleMode::Off },
    )
}

fn group(id: i64, leader: i64, members: &[i64]) -> GroupSnapshot {
    let mut players = vec![];
    for m in members {
        players.push(GroupPlayer {
            name: format!("Player{m}"),
            player_id: PlayerId(*m),
            role: if *m == leader { GroupRole::Leader } else { GroupRole::Member },
        });
    }
    GroupSnapshot::assemble(
        GroupInfo { name: format!("Group{id}"), group_id: GroupId(id), players },
        Volume::new(60).unwrap(),
        MuteState::On,
    )
    .unwrap()
}

fn lists(commands: Vec<heos::command::group::SetGroup>) -> Vec<Vec<i64>> {
    commands.iter().map(|c| c.player_ids.iter().map(|p| p.0).collect()).collect()
}

#[test]
fn a_player_builds_its_own_commands() {
    let p = player(8);
    assert_eq!(p.set_play_state(PlayState::Play).state, PlayState::Play);
    assert_eq!(p.set_play_state(PlayState::Play).player_id, PlayerId(8));
    assert_eq!(p.set_volume(Volume::new(9).unwrap()).level.get(), 9);
    assert_eq!(p.volume_up(None).step, None);
    assert_eq!(p.volume_down(Some(VolumeStep::default())).step, Some(VolumeStep::default()));
    assert_eq!(p.set_mute(MuteState::On).state, MuteState::On);
    assert_eq!(p.toggle_mute().player_id, PlayerId(8));
    let mode = p.set_play_mode(Some(RepeatMode::One), None);
    assert_eq!((mode.repeat, mode.shuffle), (Some(RepeatMode::One), None));
    assert_eq!(p.play_next().player_id, PlayerId(8));
    assert_eq!(p.play_previous().player_id, PlayerId(8));
    let station = p.play_station(SourceId::TuneIn, Some("c".to_string()), "m", "n");
    assert_eq!(
        (station.source_id, station.container_id.as_deref(), station.media_id.as_str(), station.name.as_str()),
        (SourceId::TuneIn, Some("c"), "m", "n")
    );
    assert_eq!(p.play_preset(3).preset, 3);
    let input = p.play_input_source(Some(PlayerId(2)), "aux");
    assert_eq!((input.src_player_id, input.input.as_str()), (Some(PlayerId(2)), "aux"));
    assert_eq!(p.play_url("http://x/y").url, "http://x/y");
    let add = p.add_to_queue(SourceId::Tidal, None, "m", AddToQueueType::AddToEnd);
    assert_eq!((add.media_id.as_str(), add.add_to_queue_type), ("m", AddToQueueType::AddToEnd));
    assert_eq!(p.save_queue("list").name, "list");
    assert_eq!(p.clear_queue().player_id, PlayerId(8));
}

#[test]
fn queue_commands_name_the_place_of_the_track() {
    let mut p = player(8);
    p.queue[1].queue_id = QueueId(20);
    assert_eq!(p.play_queue_item(1).unwrap().queue_id, QueueId(20));
    assert_eq!(p.play_queue_item(2).unwrap().queue_id, QueueId(3));
    assert!(matches!(
        p.play_queue_item(3),
        Err(heos::command::error::CommandError::ParamOutOfRange)
    ));
    assert_eq!(p.remove_from_queue(0).unwrap().queue_ids, vec![QueueId(1)]);
    assert!(matches!(
        p.remove_from_queue(9),
        Err(heos::command::error::CommandError::ParamOutOfRange)
    ));
}

#[test]
fn a_group_builds_its_own_commands() {
    let g = group(3, 1, &[1, 2]);
    assert_eq!(g.set_volume(Volume::new(9).unwrap()).group_id, GroupId(3));
    assert_eq!(g.volume_up(None).group_id, GroupId(3));
    assert_eq!(g.volume_down(None).group_id, GroupId(3));
    assert_eq!(g.set_mute(MuteState::Off).state, MuteState::Off);
    assert_eq!(g.toggle_mute().group_id, GroupId(3));
}

fn text(c: RawCommand) -> String {
    c.to_string()
}

#[test]
fn a_playable_sends_volume_to_the_group_and_playback_to_the_leader() {
    let single = Playable::Player(PlayerId(4));
    let grouped = Playable::Group { group_id: GroupId(3), leader_id: PlayerId(1) };
    let level = Volume::new(30).unwrap();
    assert_eq!(text(single.set_volume(level)), "heos://player/set_volume?pid=4&level=30");
    assert_eq!(text(grouped.set_volume(level)), "heos://group/set_volume?gid=3&level=30");
    assert_eq!(text(single.volume_up(None)), "heos://player/volume_up?pid=4");
    assert_eq!(text(grouped.volume_up(None)), "heos://group/volume_up?gid=3");
    assert_eq!(
        text(grouped.volume_down(Some(VolumeStep::default()))),
        "heos://group/volume_down?gid=3&step=5"
    );
    assert_eq!(text(single.volume_down(None)), "heos://player/volume_down?pid=4");
    assert_eq!(text(single.set_mute(MuteState::On)), "heos://player/set_mute?pid=4&state=on");
    assert_eq!(text(grouped.set_mute(MuteState::On)), "heos://group/set_mute?gid=3&state=on");
    assert_eq!(text(single.toggle_mute()), "heos://player/toggle_mute?pid=4");
    assert_eq!(text(grouped.toggle_mute()), "heos://group/toggle_mute?gid=3");
    assert_eq!(grouped.set_play_state(PlayState::Play).player_id, PlayerId(1));
    assert_eq!(single.set_play_state(PlayState::Play).player_id, PlayerId(4));
    assert_eq!(grouped.play_next().player_id, PlayerId(1));
    assert_eq!(grouped.play_previous().player_id, PlayerId(1));
    assert_eq!(grouped.set_play_mode(None, None).player_id, PlayerId(1));
    assert_eq!(grouped.play_preset(1).player_id, PlayerId(1));
    assert_eq!(grouped.play_url("u").player_id, PlayerId(1));
    assert_eq!(grouped.play_input_source(None, "i").player_id, PlayerId(1));
    assert_eq!(grouped.play_station(SourceId::TuneIn, None, "m", "n").player_id, PlayerId(1));
    assert_eq!(
        grouped.add_to_queue(SourceId::TuneIn, None, "m", AddToQueueType::PlayNow).player_id,
        PlayerId(1)
    );
}

#[test]
fn what_the_controls_ask_for() {
    let mut state = State::init(AccountStatus::SignedOut);
    state.update_players(vec![player(1), player(2)]);
    state.update_groups(vec![group(3, 1, &[1, 2])]);
    let playable = state.playable(PlayableId::Group(GroupId(3))).unwrap();
    let snapshot = state.playable_snapshot(&playable).unwrap();
    match playable.media_control(&snapshot, ControlButton::PlayPause) {
        MediaControl::PlayState(c) => assert_eq!((c.player_id, c.state), (PlayerId(1), PlayState::Play)),
        other => panic!("{other:?}"),
    }
    assert!(matches!(playable.media_control(&snapshot, ControlButton::Next), MediaControl::Next(c) if c.player_id == PlayerId(1)));
    assert!(matches!(playable.media_control(&snapshot, ControlButton::Prev), MediaControl::Previous(c) if c.player_id == PlayerId(1)));
    match playable.media_control(&snapshot, ControlButton::Repeat) {
        MediaControl::PlayMode(c) => assert_eq!((c.repeat, c.shuffle), (Some(RepeatMode::One), None)),
        other => panic!("{other:?}"),
    }
    match playable.media_control(&snapshot, ControlButton::Shuffle) {
        MediaControl::PlayMode(c) => assert_eq!((c.repeat, c.shuffle), (None, Some(ShuffleMode::On))),
        other => panic!("{other:?}"),
    }
    state.update_play_state(PlayerId(1), PlayState::Play, 0);
    state.update_repeat(PlayerId(1), RepeatMode::One);
    state.update_shuffle(PlayerId(1), ShuffleMode::On);
    let snapshot = state.playable_snapshot(&playable).unwrap();
    assert!(matches!(playable.media_control(&snapshot, ControlButton::PlayPause), MediaControl::PlayState(c) if c.state == PlayState::Pause));
    assert!(matches!(playable.media_control(&snapshot, ControlButton::Repeat), MediaControl::PlayMode(c) if c.repeat == Some(RepeatMode::All)));
    assert!(matches!(playable.media_control(&snapshot, ControlButton::Shuffle), MediaControl::PlayMode(c) if c.shuffle == Some(ShuffleMode::Off)));
    state.update_play_state(PlayerId(1), PlayState::Pause, 0);
    state.update_repeat(PlayerId(1), RepeatMode::All);
    let snapshot = state.playable_snapshot(&playable).unwrap();
    assert!(matches!(playable.media_control(&snapshot, ControlButton::PlayPause), MediaControl::PlayState(c) if c.state == PlayState::Play));
    assert!(matches!(playable.media_control(&snapshot, ControlButton::Repeat), MediaControl::PlayMode(c) if c.repeat == Some(RepeatMode::Off)));
}

#[test]
fn taking_a_player_out_of_its_group() {
    let g = group(9, 1, &[1, 2, 3, 4]);
    assert_eq!(lists(g.remove_player(PlayerId(3))), vec![vec![1, 2, 4]]);
    assert_eq!(lists(g.remove_player(PlayerId(1))), vec![vec![1], vec![2, 3, 4]]);
    assert_eq!(lists(g.remove_player(PlayerId(7))), Vec::<Vec<i64>>::new());
    let pair = group(9, 1, &[1, 2]);
    assert_eq!(lists(pair.remove_player(PlayerId(2))), vec![vec![1]]);
    assert_eq!(lists(pair.remove_player(PlayerId(1))), vec![vec![1]]);
    let three = group(9, 2, &[1, 2, 3]);
    assert_eq!(lists(three.remove_player(PlayerId(2))), vec![vec![2], vec![1, 3]]);
    assert_eq!(lists(three.remove_player(PlayerId(1))), vec![vec![2, 3]]);
    assert_eq!(three.other_members(PlayerId(3)), vec![PlayerId(1)]);
    assert_eq!(three.role_of(PlayerId(2)), Some(GroupRole::Leader));
    assert_eq!(three.role_of(PlayerId(3)), Some(GroupRole::Member));
    assert_eq!(three.role_of(PlayerId(4)), None);
}

#[test]
fn adding_a_player_to_a_group_or_to_a_player() {
    let g = group(9, 2, &[1, 2, 3]);
    assert_eq!(lists(g.add_player(PlayerId(5)).into_iter().collect()), vec![vec![2, 1, 3, 5]]);
    assert!(g.add_player(PlayerId(3)).is_none());
    assert!(g.add_player(PlayerId(2)).is_none());
    let mut state = State::init(AccountStatus::SignedOut);
    state.update_players(vec![player(1), player(2), player(3), player(5), player(6)]);
    state.update_groups(vec![group(9, 2, &[1, 2, 3]), group(10, 5, &[5, 6])]);
    let target = Playable::Group { group_id: GroupId(9), leader_id: PlayerId(2) };
    assert_eq!(
        lists(state.add_to_group(&target, PlayerId(6)).into_iter().collect()),
        vec![vec![2, 1, 3, 6]]
    );
    assert!(state.add_to_group(&target, PlayerId(1)).is_none());
    let gone = Playable::Group { group_id: GroupId(77), leader_id: PlayerId(2) };
    assert!(state.add_to_group(&gone, PlayerId(6)).is_none());
    assert_eq!(
        lists(state.add_to_group(&Playable::Player(PlayerId(3)), PlayerId(6)).into_iter().collect()),
        vec![vec![3, 6]]
    );
    assert_eq!(lists(state.remove_from_any_group(PlayerId(6))), vec![vec![5]]);
    assert_eq!(lists(state.remove_from_any_group(PlayerId(5))), vec![vec![5]]);
    assert_eq!(lists(state.remove_from_any_group(PlayerId(2))), vec![vec![2], vec![1, 3]]);
    assert_eq!(lists(state.remove_from_any_group(PlayerId(42))), Vec::<Vec<i64>>::new());
    state.update_groups(vec![group(9, 2, &[1, 2, 3]), group(10, 5, &[5, 3])]);
    assert_eq!(lists(state.remove_from_any_group(PlayerId(3))), vec![vec![2, 1], vec![5]]);
}

#[test]
fn where_a_dragged_track_goes() {
    let queue = vec![track("a", 1), track("b", 2), track("c", 3), track("d", 4)];
    assert_eq!(drag_target(&queue, 0, 2), Some((QueueId(1), QueueId(2))));
    assert_eq!(drag_target(&queue, 0, 3), Some((QueueId(1), QueueId(3))));
    assert_eq!(drag_target(&queue, 3, 0), Some((QueueId(4), QueueId(1))));
    assert_eq!(drag_target(&queue, 2, 2), Some((QueueId(3), QueueId(3))));
    assert_eq!(drag_target(&queue, 1, 4), Some((QueueId(2), QueueId(4))));
    assert_eq!(drag_target(&queue, 1, 99), Some((QueueId(2), QueueId(4))));
    assert_eq!(drag_target(&queue, 4, 0), None);
    assert_eq!(drag_target(&vec![], 0, 0), None);
    let odd = vec![track("a", 1), track("b", 0)];
    assert_eq!(drag_target(&odd, 0, 1), None);
}

#[test]
fn a_source_builds_its_own_commands() {
    let channel = heos::mock::demo::create_doctest_channel();
    let info = channel
        .system
        .sources
        .iter()
        .find(|s| s.info.source_id == SourceId::Tidal)
        .unwrap()
        .info
        .clone();
    let source = SourceData::get(info);
    assert_eq!(source.info.source_id, SourceId::Tidal);
    let browse = source.browse();
    assert_eq!((browse.source_id, browse.container_id, browse.range), (SourceId::Tidal, None, None));
    let browse = source.browse_container("c", Some((0, 9)));
    assert_eq!((browse.container_id.as_deref(), browse.range), (Some("c"), Some((0, 9))));
    assert_eq!(source.search_criteria().source_id, SourceId::Tidal);
    let search = source.search("blue", "3");
    assert_eq!((search.search.as_str(), search.criteria.as_str(), search.range), ("blue", "3", None));
    let rename = source.rename_playlist("p", "n");
    assert_eq!((rename.container_id.as_str(), rename.name.as_str()), ("p", "n"));
    assert_eq!(source.delete_playlist("p").container_id, "p");
    assert_eq!(source.album_metadata("a").container_id, "a");
    let option = ServiceOption::ThumbsUp { player_id: PlayerId(1) };
    assert_eq!(source.set_service_option(option).source_id, SourceId::Tidal);
}

fn part(count: usize, names: &[&str], options: Vec<ServiceOptionType>) -> WithOptions<SearchResults> {
    let source_items = names.iter().map(|n| media_item_from_track(track(n, 0))).collect();
    WithOptions { value: SearchResults { count, source_items }, options }
}

#[test]
fn a_search_is_put_together_from_its_parts() {
    let mut collector = SearchCollector::new();
    assert!(collector.absorb(part(5, &["a", "b"], vec![])));
    assert!(collector.absorb(part(5, &["c", "d"], vec![ServiceOptionType::ThumbsUp])));
    assert!(!collector.absorb(part(5, &["e"], vec![ServiceOptionType::AddToHeosFavorites])));
    let all = collector.finish();
    assert_eq!(all.value.len(), 5);
    assert_eq!(all.options, vec![ServiceOptionType::ThumbsUp]);

    let mut collector = SearchCollector::new();
    assert!(collector.absorb(part(0, &["a"], vec![])));
    assert!(collector.absorb(part(0, &["b"], vec![])));
    assert!(!collector.absorb(part(0, &[], vec![ServiceOptionType::ThumbsUp])));
    let all = collector.finish();
    assert_eq!(all.value.len(), 2);
    assert_eq!(all.options, vec![ServiceOptionType::ThumbsUp]);

    let mut collector = SearchCollector::new();
    assert!(!collector.absorb(part(1, &["a", "b"], vec![])));
    assert!(!SearchCollector::new().absorb(part(9, &[], vec![])));
}
