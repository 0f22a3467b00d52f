use heos::connection::{GroupQueries, HeosConnection, PlayerQueries, HEOS_PORT};
use heos::data::common::{MuteState, Volume};
use heos::data::event::{
    Event, GroupVolumeChanged, PlayerNowPlayingChanged, PlayerNowPlayingProgress,
    PlayerPlaybackError, PlayerQueueChanged, PlayerRepeatModeChanged, PlayerShuffleModeChanged,
    PlayerStateChanged, PlayerVolumeChanged, UserChanged,
};
use heos::data::group::{GroupId, GroupInfo, GroupPlayer, GroupRole};
use heos::data::player::{
    LineOutType, NetworkType, PlayMode, PlayState, PlayerId, PlayerInfo, RepeatMode, ShuffleMode,
};
use heos::data::queue::{NowPlayingInfo, QueueId, QueuedTrackInfo};
use heos::data::source::SourceId;
use heos::data::system::{AccountStatus, ChangeEventsEnabled};
use heos::state::group::GroupSnapshot;
use heos::state::model::{Refresh, State, Step};
use heos::state::playable::{Playable, PlayableId, PlayableInfo};
use heos::state::player::{NowPlayingProgress, PlayerSnapshot};
use heos::state::refresh::UpdateEntry;

fn track(name: &str, place: u64) -> QueuedTrackInfo {
    QueuedTrackInfo {
        song: name.to_string(),
        album: String::new(),
        artist: String::new(),
        image_url: None,
        media_id: name.to_string(),
        queue_id: QueueId(place),
        album_id: None,
    }
}

fn player(id: i64) -> PlayerSnapshot {
    PlayerSnapshot::assemble(
        PlayerInfo {
            name: format!("Player{id}"),
            player_id: PlayerId(id),
            group_id: None,
            model: "m".to_string(),
            version: "v".to_string(),
            ip: "10.0.0.1".to_string(),
            network: NetworkType::Wired,
            line_out: LineOutType::Unavailable,
            line_out_control: None,
            serial: None,
        },
        NowPlayingInfo::Song { info: track("now", 0), source_id: SourceId::Tidal },
        vec![track("a", 1), track("b", 2)],
        PlayState::Stop,
        Volume::new(40).unwrap(),
        MuteState::Off,
        PlayMode { repeat: RepeatMode::Off, shuffle: ShuffleMode::Off },
    )
}

fn group(id: i64, leader: i64, members: &[i64]) -> GroupSnapshot {
    let mut players = vec![GroupPlayer {
        name: format!("Player{leader}"),
        player_id: PlayerId(leader),
        role: GroupRole::Leader,
    }];
    for m in members {
        players.push(GroupPlayer {
            name: format!("Player{m}"),
            player_id: PlayerId(*m),
            role: GroupRole::Member,
        });
    }
    GroupSnapshot::assemble(
        GroupInfo { name: format!("Group{id}"), group_id: GroupId(id), players },
        Volume::new(60).unwrap(),
        MuteState::On,
    )
    .unwrap()
}

fn model() -> State {
    let mut state = State::init(AccountStatus::SignedOut);
    state.update_players(vec![player(1), player(2), player(3), player(4)]);
    state.update_groups(vec![group(10, 1, &[2])]);
    state
}

#[test]
fn progress_interpolation() {
    let mut progress = NowPlayingProgress::new(0);
    assert_eq!(progress.interpolated_elapsed(123_456), 0);
    progress.update(30_000, 200_000, true, 1_000);
    assert_eq!(progress.interpolated_elapsed(1_000), 30_000);
    let after_two_seconds = progress.interpolated_elapsed(3_000);
    assert!((31_900..=32_100).contains(&after_two_seconds));
    assert_eq!(after_two_seconds, 32_000);
    progress.update_play_state(PlayState::Pause, 3_000);
    assert_eq!(progress.elapsed, 32_000);
    assert_eq!(progress.baseline, None);
    assert_eq!(progress.interpolated_elapsed(3_000), 32_000);
    assert_eq!(progress.interpolated_elapsed(60_000), 32_000);
    assert_eq!(progress.interpolated_elapsed(u64::MAX), 32_000);
}

#[test]
fn interpolated_progress_never_passes_the_end_of_the_track() {
    let mut progress = NowPlayingProgress::new(0);
    progress.update(199_000, 200_000, true, 0);
    assert_eq!(progress.interpolated_elapsed(500), 199_500);
    assert_eq!(progress.interpolated_elapsed(1_000), 200_000);
    assert_eq!(progress.interpolated_elapsed(5_000), 200_000);
    assert_eq!(progress.interpolated_elapsed(u64::MAX), 200_000);
    progress.update(300_000, 200_000, false, 0);
    assert_eq!(progress.interpolated_elapsed(1), 200_000);
    let mut progress = NowPlayingProgress::new(10);
    progress.update(u64::MAX, u64::MAX, true, 0);
    assert_eq!(progress.interpolated_elapsed(u64::MAX), u64::MAX);
}

#[test]
fn a_clock_that_ran_backwards_adds_nothing() {
    let mut progress = NowPlayingProgress::new(0);
    progress.update(1_000, 10_000, true, 5_000);
    assert_eq!(progress.interpolated_elapsed(4_000), 1_000);
}

#[test]
fn play_state_changes_start_and_stop_the_count() {
    let mut progress = NowPlayingProgress::new(100_000);
    progress.update_play_state(PlayState::Play, 1_000);
    assert_eq!(progress.baseline, Some(1_000));
    progress.update_play_state(PlayState::Play, 2_000);
    assert_eq!(progress.baseline, Some(1_000));
    assert_eq!(progress.interpolated_elapsed(4_000), 3_000);
    progress.update_play_state(PlayState::Stop, 4_000);
    assert_eq!((progress.elapsed, progress.baseline), (3_000, None));
    progress.update_play_state(PlayState::Play, 10_000);
    assert_eq!(progress.interpolated_elapsed(10_500), 3_500);
    assert_eq!(NowPlayingProgress::restart(true, 7).baseline, Some(7));
    assert_eq!(NowPlayingProgress::restart(false, 7).baseline, None);
}

#[test]
fn a_progress_report_while_paused_keeps_the_baseline() {
    let mut progress = NowPlayingProgress::new(0);
    progress.update(5, 10, false, 99);
    assert_eq!((progress.elapsed, progress.duration, progress.baseline), (5, 10, None));
}

#[test]
fn events_that_carry_values_write_them() {
    let mut state = model();
    let step = state.handle_event(
        &Event::PlayerVolumeChanged(PlayerVolumeChanged {
            player_id: PlayerId(2),
            level: Volume::new(77).unwrap(),
            mute: MuteState::On,
        }),
        0,
    );
    assert!(matches!(step, Step::Publish));
    let p = state.player(PlayerId(2)).unwrap();
    assert_eq!((p.volume.get(), p.mute), (77, MuteState::On));
    assert_eq!(state.player(PlayerId(1)).unwrap().volume.get(), 40);

    state.handle_event(
        &Event::PlayerRepeatModeChanged(PlayerRepeatModeChanged {
            player_id: PlayerId(3),
            repeat: RepeatMode::One,
        }),
        0,
    );
    assert_eq!(state.player(PlayerId(3)).unwrap().repeat, RepeatMode::One);
    state.handle_event(
        &Event::PlayerShuffleModeChanged(PlayerShuffleModeChanged {
            player_id: PlayerId(3),
            shuffle: ShuffleMode::On,
        }),
        0,
    );
    assert_eq!(state.player(PlayerId(3)).unwrap().shuffle, ShuffleMode::On);
    state.handle_event(
        &Event::GroupVolumeChanged(GroupVolumeChanged {
            group_id: GroupId(10),
            level: Volume::new(5).unwrap(),
            mute: MuteState::Off,
        }),
        0,
    );
    let g = state.group(GroupId(10)).unwrap();
    assert_eq!((g.volume.get(), g.mute), (5, MuteState::Off));
    state.handle_event(
        &Event::UserChanged(UserChanged { account: AccountStatus::SignedIn("me".to_string()) }),
        0,
    );
    assert!(matches!(state.account(), AccountStatus::SignedIn(name) if name == "me"));
}

#[test]
fn play_state_and_progress_events_move_the_baseline() {
    let mut state = model();
    state.handle_event(
        &Event::PlayerStateChanged(PlayerStateChanged {
            player_id: PlayerId(1),
            state: PlayState::Play,
        }),
        1_000,
    );
    let p = state.player(PlayerId(1)).unwrap();
    assert_eq!(p.play_state, PlayState::Play);
    assert_eq!(p.now_playing.progress.baseline, Some(1_000));
    state.handle_event(
        &Event::PlayerNowPlayingProgress(PlayerNowPlayingProgress {
            player_id: PlayerId(1),
            elapsed: 30_000,
            duration: 200_000,
        }),
        5_000,
    );
    let p = state.player(PlayerId(1)).unwrap();
    assert_eq!(p.now_playing.progress.interpolated_elapsed(7_000), 32_000);
    state.handle_event(
        &Event::PlayerStateChanged(PlayerStateChanged {
            player_id: PlayerId(1),
            state: PlayState::Pause,
        }),
        7_000,
    );
    let p = state.player(PlayerId(1)).unwrap();
    assert_eq!(p.now_playing.progress.interpolated_elapsed(100_000), 32_000);
    state.handle_event(
        &Event::PlayerNowPlayingProgress(PlayerNowPlayingProgress {
            player_id: PlayerId(2),
            elapsed: 1,
            duration: 2,
        }),
        5_000,
    );
    assert_eq!(state.player(PlayerId(2)).unwrap().now_playing.progress.baseline, None);
}

#[test]
fn events_that_only_announce_a_change_ask_for_a_fetch() {
    let mut state = model();
    assert!(matches!(state.handle_event(&Event::SourcesChanged, 0), Step::Fetch(Refresh::Sources)));
    assert!(matches!(state.handle_event(&Event::PlayersChanged, 0), Step::Fetch(Refresh::Players)));
    assert!(matches!(state.handle_event(&Event::GroupsChanged, 0), Step::Fetch(Refresh::Groups)));
    assert!(matches!(
        state.handle_event(
            &Event::PlayerNowPlayingChanged(PlayerNowPlayingChanged { player_id: PlayerId(9) }),
            0
        ),
        Step::Fetch(Refresh::NowPlaying(PlayerId(9)))
    ));
    assert!(matches!(
        state.handle_event(
            &Event::PlayerQueueChanged(PlayerQueueChanged { player_id: PlayerId(2) }),
            0
        ),
        Step::Fetch(Refresh::Queue(PlayerId(2)))
    ));
    match state.handle_event(
        &Event::PlayerPlaybackError(PlayerPlaybackError {
            player_id: PlayerId(2),
            error: "no".to_string(),
        }),
        0,
    ) {
        Step::Report(text) => assert_eq!(text, "no"),
        other => panic!("{other:?}"),
    }
    assert_eq!(state.players.len(), 4);
    assert_eq!(state.player(PlayerId(2)).unwrap().queue.len(), 2);
}

#[test]
fn a_burst_of_changes_asks_for_one_table_each_and_changes_nothing() {
    let mut state = model();
    let before = format!("{state:?}");
    for now in 0..5 {
        assert!(matches!(
            state.handle_event(&Event::PlayersChanged, now),
            Step::Fetch(Refresh::Players)
        ));
        assert_eq!(format!("{state:?}"), before);
    }
    state.update_players(vec![player(77)]);
    assert_eq!(state.players.len(), 1);
    assert_eq!(state.players[0].info.player_id, PlayerId(77));
    assert!(state.player(PlayerId(1)).is_none());
}

#[test]
fn events_for_unknown_players_change_nothing() {
    let mut state = model();
    let step = state.handle_event(
        &Event::PlayerVolumeChanged(PlayerVolumeChanged {
            player_id: PlayerId(99),
            level: Volume::new(1).unwrap(),
            mute: MuteState::On,
        }),
        0,
    );
    assert!(matches!(step, Step::Publish));
    for p in &state.players {
        assert_eq!((p.volume.get(), p.mute), (40, MuteState::Off));
    }
}

#[test]
fn fetched_data_replaces_what_was_known() {
    let mut state = model();
    state.update_now_playing(
        PlayerId(1),
        NowPlayingInfo::Station {
            info: track("radio", 0),
            station: "One".to_string(),
            source_id: SourceId::TuneIn,
        },
        500,
    );
    let p = state.player(PlayerId(1)).unwrap();
    assert!(matches!(&p.now_playing.info, NowPlayingInfo::Station { station, .. } if station == "One"));
    assert_eq!(p.now_playing.progress, NowPlayingProgress::restart(false, 500));
    state.update_queue(PlayerId(1), vec![track("x", 1)]);
    assert_eq!(state.player(PlayerId(1)).unwrap().queue.len(), 1);
    state.update_queue(PlayerId(99), vec![]);
    state.update_players(vec![player(7)]);
    assert_eq!(state.players.len(), 1);
    assert!(state.player(PlayerId(1)).is_none());
    assert!(state.player(PlayerId(7)).is_some());
    state.update_groups(vec![]);
    assert!(state.group(GroupId(10)).is_none());
}

#[test]
fn a_new_track_counts_from_now_on_while_the_player_plays() {
    let mut state = model();
    state.update_play_state(PlayerId(1), PlayState::Play, 100);
    state.update_now_playing(
        PlayerId(1),
        NowPlayingInfo::Song { info: track("next", 0), source_id: SourceId::Tidal },
        900,
    );
    let p = state.player(PlayerId(1)).unwrap();
    assert_eq!(p.now_playing.progress, NowPlayingProgress::restart(true, 900));
    assert_eq!(p.now_playing.progress.baseline, Some(900));
}

#[test]
fn playables_are_groups_and_players_outside_them() {
    let state = model();
    assert_eq!(
        state.playables(),
        vec![
            Playable::Group { group_id: GroupId(10), leader_id: PlayerId(1) },
            Playable::Player(PlayerId(3)),
            Playable::Player(PlayerId(4)),
        ]
    );
    assert!(state.is_grouped(PlayerId(1)));
    assert!(state.is_grouped(PlayerId(2)));
    assert!(!state.is_grouped(PlayerId(3)));
    let mut state = state;
    state.update_groups(vec![group(10, 1, &[2]), group(11, 99, &[3])]);
    assert_eq!(
        state.playables(),
        vec![
            Playable::Group { group_id: GroupId(10), leader_id: PlayerId(1) },
            Playable::Player(PlayerId(3)),
            Playable::Player(PlayerId(4)),
        ]
    );
}

#[test]
fn a_playable_takes_volume_from_the_group_and_playback_from_the_leader() {
    let mut state = model();
    state.update_play_state(PlayerId(1), PlayState::Play, 0);
    assert_eq!(
        state.playable(PlayableId::Group(GroupId(10))),
        Some(Playable::Group { group_id: GroupId(10), leader_id: PlayerId(1) })
    );
    assert_eq!(state.playable(PlayableId::Player(PlayerId(3))), Some(Playable::Player(PlayerId(3))));
    assert_eq!(state.playable(PlayableId::Player(PlayerId(33))), None);
    assert_eq!(state.playable(PlayableId::Group(GroupId(33))), None);

    let group = state.playable(PlayableId::Group(GroupId(10))).unwrap();
    let snapshot = state.playable_snapshot(&group).unwrap();
    assert_eq!(snapshot.id, PlayableId::Group(GroupId(10)));
    assert!(matches!(&snapshot.info, PlayableInfo::Group(info) if info.name == "Group10"));
    assert_eq!((snapshot.volume.get(), snapshot.mute), (60, MuteState::On));
    assert_eq!(snapshot.play_state, PlayState::Play);
    assert_eq!(snapshot.queue.len(), 2);

    let single = state.playable(PlayableId::Player(PlayerId(3))).unwrap();
    let snapshot = state.playable_snapshot(&single).unwrap();
    assert!(matches!(&snapshot.info, PlayableInfo::Player(info) if info.name == "Player3"));
    assert_eq!((snapshot.volume.get(), snapshot.mute), (40, MuteState::Off));
    assert_eq!(snapshot.play_state, PlayState::Stop);

    assert!(state.playable_snapshot(&Playable::Player(PlayerId(50))).is_none());
    assert!(state
        .playable_snapshot(&Playable::Group { group_id: GroupId(50), leader_id: PlayerId(1) })
        .is_none());
    assert_eq!(group.id().to_string(), "10");
    assert_eq!(group.player_id(), PlayerId(1));
    assert_eq!(Playable::from_group(GroupId(1), PlayerId(2)).player_id(), PlayerId(2));
}

#[test]
fn a_group_without_leader_cannot_be_assembled() {
    let info = GroupInfo {
        name: "g".to_string(),
        group_id: GroupId(1),
        players: vec![GroupPlayer {
            name: "p".to_string(),
            player_id: PlayerId(1),
            role: GroupRole::Member,
        }],
    };
    assert!(GroupSnapshot::assemble(info, Volume::lowest(), MuteState::Off).is_none());
    assert_eq!(group(1, 5, &[6, 7]).leader_id, PlayerId(5));
}

#[test]
fn refreshes_are_launched_one_at_a_time() {
    let mut entry = UpdateEntry::new();
    assert!(entry.is_active());
    assert!(!entry.check_update(false));
    assert!(!entry.check_queued());
    assert!(entry.check_update(true));
    assert!(entry.pending);
    assert!(!entry.check_update(true));
    assert!(!entry.check_update(true));
    assert!(entry.queued);
    assert!(!entry.check_queued());
    entry.complete();
    assert!(entry.check_queued());
    assert!(entry.pending && !entry.queued);
    assert!(!entry.check_queued());
    entry.complete();
    assert!(!entry.check_queued());
    assert_eq!(entry, UpdateEntry::new());
}

#[test]
fn a_burst_of_events_launches_no_more_refreshes_than_events() {
    for k in 0..20u32 {
        for complete_every in 1..5u32 {
            let mut entry = UpdateEntry::new();
            let mut launched = 0;
            for i in 0..k {
                if entry.check_update(true) {
                    launched += 1;
                }
                if i % complete_every == 0 {
                    entry.complete();
                    if entry.check_queued() {
                        launched += 1;
                    }
                }
            }
            assert!(launched <= k);
            if k > 0 {
                assert!(launched >= 1);
            }
        }
    }
}

#[test]
fn released_data_is_refreshed_no_more() {
    let mut entry = UpdateEntry::new();
    assert!(entry.check_update(true));
    assert!(!entry.check_update(true));
    entry.release();
    assert!(!entry.is_active());
    entry.complete();
    assert!(!entry.check_queued());
    assert!(!entry.queued);
    assert!(!entry.check_update(true));
}

#[test]
fn the_stages_of_a_connection() {
    let found = HeosConnection::from_location("http://10.1.2.3:60006/desc.xml").unwrap();
    assert_eq!(found.ip(), "10.1.2.3");
    assert_eq!(found.port(), 1255);
    assert_eq!(HEOS_PORT, 1255);
    assert!(HeosConnection::from_location("http://device.local/desc.xml").is_none());
    let (mut adhoc, first) = found.connect();
    assert_eq!(first.enable, ChangeEventsEnabled::Off);
    let mut raw = heos::command::typed::Command::to_raw(&first);
    assert_eq!(adhoc.raw_command(&mut raw), 0);
    assert_eq!(raw.to_string(), "heos://system/register_for_change_events?enable=off&SEQUENCE=0");
    let (mut stateful, last) = adhoc.init_stateful(model());
    assert_eq!(last.enable, ChangeEventsEnabled::On);
    assert_eq!(stateful.state().players.len(), 4);
    let mut raw = heos::command::typed::Command::to_raw(&last);
    assert_eq!(stateful.raw_command(&mut raw), 1);
    assert!(matches!(stateful.handle_event(&Event::PlayersChanged, 0), Step::Fetch(Refresh::Players)));
    let created = HeosConnection::new("10.0.0.9".to_string());
    assert_eq!(created.ip(), "10.0.0.9");
}

#[test]
fn how_long_devices_may_wait_to_answer_a_scan() {
    assert_eq!(HeosConnection::scan_wait(0), 1);
    assert_eq!(HeosConnection::scan_wait(1), 1);
    assert_eq!(HeosConnection::scan_wait(2), 2);
    assert_eq!(HeosConnection::scan_wait(3), 2);
    assert_eq!(HeosConnection::scan_wait(10), 2);
    assert_eq!(HeosConnection::scan_wait(u64::MAX), 2);
}

#[test]
fn the_questions_that_describe_a_player_and_a_group() {
    let q = PlayerQueries::new(PlayerId(5));
    assert_eq!(q.now_playing.player_id, PlayerId(5));
    assert_eq!(q.queue.player_id, PlayerId(5));
    assert_eq!(q.queue.range, None);
    assert_eq!(q.play_state.player_id, PlayerId(5));
    assert_eq!(q.volume.player_id, PlayerId(5));
    assert_eq!(q.mute.player_id, PlayerId(5));
    assert_eq!(q.play_mode.player_id, PlayerId(5));
    let q = GroupQueries::new(GroupId(6));
    assert_eq!(q.volume.group_id, GroupId(6));
    assert_eq!(q.mute.group_id, GroupId(6));
}
