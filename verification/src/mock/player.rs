//! What the player commands do to a mock system.

use vstd::prelude::*;
use vstd::string::*;
use crate::command::raw::{RawCommand, RawCommandView};
use crate::data::codec::{
    now_playing_info_json,
    player_info_json,
    player_info_list_json,
    queued_track_info_list_json,
    queued_track_info_list_to_json,
    quick_select_list_json,
    quick_select_list_to_json,
    update_payload_json,
};
use crate::data::common::{MuteState, Volume, VolumeStep};
use crate::data::player::{
    PlayState,
    PlayerId,
    PlayerInfo,
    PlayerInfoView,
    RepeatMode,
    ShuffleMode,
    UpdateAvailable,
    UpdatePayload,
};
use crate::data::queue::{NowPlayingInfo, QueueId, QueuedTrackInfo, TrackView};
use crate::data::quickselect::{QuickSelect, QuickSelectId};
use crate::data::response::{RawResponse, RawResponseView};
use crate::mock::args::{
    list_arg,
    optional_arg,
    parse_command_argument,
    parse_command_argument_list,
    parse_command_argument_option,
    parse_range_argument,
    parse_text_argument,
    range_arg,
    text_arg,
    typed_arg,
};
use crate::mock::queue::{
    drop_front,
    find_invalid_place,
    first_invalid_place,
    left,
    move_items,
    moved,
    numbered,
    remove_places,
    renumber,
    renumbered,
};
use crate::mock::reply::{
    invalid_id,
    invalid_id_error,
    out_of_range,
    out_of_range_error,
    payload_success,
    plain_success,
    success,
    success_response,
    value_success,
};
use crate::mock::system::{
    player_index,
    playlist_index,
    MockHeosSystem,
    MockPlayer,
    MockPlayerView,
    MockPlaylist,
    MockPlaylistView,
    MockView,
};
use crate::state::player::{NowPlayingView, PlayerSnapshotView};
use crate::text::{concat2, int_text, nat_text, u64_to_string};
use crate::views::{
    lemma_views_push,
    lemma_views_take_next,
    lemma_views_update,
    views,
};

verus! {

/// The player that a command names with its `pid`: where it stands, or
/// the reply for a `pid` that is missing, unreadable or unknown.
pub open spec fn player_for(s: MockView, c: RawCommandView) -> Result<int, RawResponseView> {
    match typed_arg::<PlayerId>(c, "pid"@) {
        Err(r) => Err(r),
        Ok(id) => match player_index(s.players, id) {
            Some(i) => Ok(i),
            None => Err(invalid_id(c, "pid"@, int_text(id.0 as int))),
        },
    }
}

/// The system with the state of the player at `i` replaced.
pub open spec fn with_snapshot(s: MockView, i: int, snapshot: PlayerSnapshotView) -> MockView {
    MockView { players: s.players.update(i, MockPlayerView { snapshot, ..s.players[i] }), ..s }
}

/// The state of a player with a new queue, the places counted anew: the
/// queued tracks from 1, the track that plays at 0.
pub open spec fn with_queue(p: PlayerSnapshotView, queue: Seq<TrackView>) -> PlayerSnapshotView {
    PlayerSnapshotView {
        queue: renumbered(queue),
        now_playing: NowPlayingView {
            info: p.now_playing.info.with_track(
                TrackView { queue_id: QueueId(0), ..p.now_playing.info.track() },
            ),
            ..p.now_playing
        },
        ..p
    }
}

/// The queue invariant: the places of the queue are 1, 2, 3 and so on, and
/// the track that plays has place 0.
pub open spec fn queue_in_order(p: PlayerSnapshotView) -> bool {
    numbered(p.queue) && p.now_playing.info.track().queue_id == QueueId(0)
}

/// Queue invariant. Whatever queue a player is given, afterwards the
/// places of its queue are in order and the track that plays has place 0.
pub proof fn lemma_with_queue_in_order(p: PlayerSnapshotView, queue: Seq<TrackView>)
    ensures
        queue_in_order(with_queue(p, queue)),
        with_queue(p, queue).queue.len() == queue.len(),
{
    crate::mock::queue::lemma_renumbered(queue);
}

impl MockPlayer {
    /// Counts the places anew: the queued tracks from 1, the track that
    /// plays gets place 0.
    pub fn adjust_queue_ids(&mut self)
        ensures
            final(self)@ == (MockPlayerView {
                snapshot: with_queue(old(self)@.snapshot, old(self)@.snapshot.queue),
                ..old(self)@
            }),
            queue_in_order(final(self)@.snapshot),
    {
        match &mut self.snapshot.now_playing.info {
            NowPlayingInfo::Song { info, .. } => {
                info.queue_id = QueueId(0);
            },
            NowPlayingInfo::Station { info, .. } => {
                info.queue_id = QueueId(0);
            },
        }
        renumber(&mut self.snapshot.queue);
        proof {
            lemma_with_queue_in_order(old(self)@.snapshot, old(self)@.snapshot.queue);
        }
    }
}

impl MockHeosSystem {
    /// Finds the player that a command names with its `pid`.
    pub fn player_for_command(&self, command: &RawCommand) -> (r: Result<usize, RawResponse>)
        ensures
            match r {
                Ok(i) => player_for(self@, command@) == Ok::<int, RawResponseView>(i as int) && i
                    < self.players.len(),
                Err(e) => player_for(self@, command@) == Err::<int, RawResponseView>(e@),
            },
    {
        let id = match parse_command_argument::<PlayerId>(command, "pid") {
            Ok(id) => id,
            Err(r) => return Err(r),
        };
        match self.find_player(id) {
            Some(i) => Ok(i),
            None => Err(invalid_id_error(command, "pid", id.to_string().as_str())),
        }
    }
}

/// Answers `player/get_play_state`: the play state of the player, under `state`.
pub open spec fn get_play_state_answer(
    s: MockView,
    c: RawCommandView,
) -> (MockView, RawResponseView) {
    match player_for(s, c) {
        Err(r) => (s, r),
        Ok(i) => (s, success(c, seq![("state"@, s.players[i].snapshot.play_state.wire())], None)),
    }
}

/// Answers `player/set_play_state`: the player takes the state under `state`.
pub open spec fn set_play_state_answer(
    s: MockView,
    c: RawCommandView,
) -> (MockView, RawResponseView) {
    match player_for(s, c) {
        Err(r) => (s, r),
        Ok(i) => match typed_arg::<PlayState>(c, "state"@) {
            Err(r) => (s, r),
            Ok(value) => (
                with_snapshot(
                    s,
                    i,
                    PlayerSnapshotView { play_state: value, ..s.players[i].snapshot },
                ),
                success(c, Seq::empty(), None),
            ),
        },
    }
}

/// Answers `player/get_volume`: the volume of the player, under `level`.
pub open spec fn get_volume_answer(s: MockView, c: RawCommandView) -> (MockView, RawResponseView) {
    match player_for(s, c) {
        Err(r) => (s, r),
        Ok(i) => (s, success(c, seq![("level"@, int_text(s.players[i].snapshot.volume))], None)),
    }
}

/// Answers `player/set_volume`: the player takes the volume under `level`.
pub open spec fn set_volume_answer(s: MockView, c: RawCommandView) -> (MockView, RawResponseView) {
    match player_for(s, c) {
        Err(r) => (s, r),
        Ok(i) => match typed_arg::<Volume>(c, "level"@) {
            Err(r) => (s, r),
            Ok(value) => (
                with_snapshot(
                    s,
                    i,
                    PlayerSnapshotView { volume: value@, ..s.players[i].snapshot },
                ),
                success(c, Seq::empty(), None),
            ),
        },
    }
}

/// Answers `player/get_mute`: the mute state of the player, under `state`.
pub open spec fn get_mute_answer(s: MockView, c: RawCommandView) -> (MockView, RawResponseView) {
    match player_for(s, c) {
        Err(r) => (s, r),
        Ok(i) => (s, success(c, seq![("state"@, s.players[i].snapshot.mute.wire())], None)),
    }
}

/// Answers `player/set_mute`: the player takes the mute state under `state`.
pub open spec fn set_mute_answer(s: MockView, c: RawCommandView) -> (MockView, RawResponseView) {
    match player_for(s, c) {
        Err(r) => (s, r),
        Ok(i) => match typed_arg::<MuteState>(c, "state"@) {
            Err(r) => (s, r),
            Ok(value) => (
                with_snapshot(
                    s,
                    i,
                    PlayerSnapshotView { mute: value, ..s.players[i].snapshot },
                ),
                success(c, Seq::empty(), None),
            ),
        },
    }
}

/// The descriptions of all players, in the order of the table.
pub open spec fn player_infos(players: Seq<MockPlayerView>) -> Seq<PlayerInfoView> {
    players.map_values(|p: MockPlayerView| p.snapshot.info)
}

/// Answers `player/get_players`: the descriptions of all players, as
/// payload.
pub open spec fn get_players_answer(s: MockView, c: RawCommandView) -> (MockView, RawResponseView) {
    (s, success(c, Seq::empty(), Some(player_info_list_json(player_infos(s.players)))))
}

/// Answers `player/get_player_info`: the description of the player, as
/// payload.
pub open spec fn get_player_info_answer(
    s: MockView,
    c: RawCommandView,
) -> (MockView, RawResponseView) {
    match player_for(s, c) {
        Err(r) => (s, r),
        Ok(i) => (s, success(c, Seq::empty(), Some(player_info_json(s.players[i].snapshot.info)))),
    }
}

/// Answers `player/get_now_playing_media`: what the player plays, as
/// payload.
pub open spec fn get_now_playing_media_answer(s: MockView, c: RawCommandView) -> (
    MockView,
    RawResponseView,
) {
    match player_for(s, c) {
        Err(r) => (s, r),
        Ok(i) => (
            s,
            success(
                c,
                Seq::empty(),
                Some(now_playing_info_json(s.players[i].snapshot.now_playing.info)),
            ),
        ),
    }
}

/// The step that a command names with its `step`: 5 where it names none.
pub open spec fn step_of(c: RawCommandView) -> Result<int, RawResponseView> {
    match optional_arg::<VolumeStep>(c, "step"@) {
        Err(r) => Err(r),
        Ok(Some(step)) => Ok(step@),
        Ok(None) => Ok(5),
    }
}

/// A volume raised by a step: never above 100.
pub open spec fn raised(volume: int, step: int) -> int {
    if volume + step > 100 {
        100
    } else {
        volume + step
    }
}

/// A volume lowered by a step: never below 0.
pub open spec fn lowered(volume: int, step: int) -> int {
    if volume - step < 0 {
        0
    } else {
        volume - step
    }
}

/// Answers `player/volume_up`: the volume of the player rises by the step.
pub open spec fn volume_up_answer(s: MockView, c: RawCommandView) -> (MockView, RawResponseView) {
    match player_for(s, c) {
        Err(r) => (s, r),
        Ok(i) => match step_of(c) {
            Err(r) => (s, r),
            Ok(step) => (
                with_snapshot(
                    s,
                    i,
                    PlayerSnapshotView {
                        volume: raised(s.players[i].snapshot.volume, step),
                        ..s.players[i].snapshot
                    },
                ),
                success(c, Seq::empty(), None),
            ),
        },
    }
}

/// Answers `player/volume_down`: the volume of the player falls by the
/// step.
pub open spec fn volume_down_answer(s: MockView, c: RawCommandView) -> (MockView, RawResponseView) {
    match player_for(s, c) {
        Err(r) => (s, r),
        Ok(i) => match step_of(c) {
            Err(r) => (s, r),
            Ok(step) => (
                with_snapshot(
                    s,
                    i,
                    PlayerSnapshotView {
                        volume: lowered(s.players[i].snapshot.volume, step),
                        ..s.players[i].snapshot
                    },
                ),
                success(c, Seq::empty(), None),
            ),
        },
    }
}

/// The other mute state.
pub open spec fn toggled(m: MuteState) -> MuteState {
    match m {
        MuteState::On => MuteState::Off,
        MuteState::Off => MuteState::On,
    }
}

/// Answers `player/toggle_mute`: the mute of the player turns around.
pub open spec fn toggle_mute_answer(s: MockView, c: RawCommandView) -> (MockView, RawResponseView) {
    match player_for(s, c) {
        Err(r) => (s, r),
        Ok(i) => (
            with_snapshot(
                s,
                i,
                PlayerSnapshotView {
                    mute: toggled(s.players[i].snapshot.mute),
                    ..s.players[i].snapshot
                },
            ),
            success(c, Seq::empty(), None),
        ),
    }
}

/// Answers `player/get_play_mode`: the repeat and shuffle mode of the
/// player, under `repeat` and `shuffle`.
pub open spec fn get_play_mode_answer(
    s: MockView,
    c: RawCommandView,
) -> (MockView, RawResponseView) {
    match player_for(s, c) {
        Err(r) => (s, r),
        Ok(i) => (
            s,
            success(
                c,
                seq![
                    ("repeat"@, s.players[i].snapshot.repeat.wire()),
                    ("shuffle"@, s.players[i].snapshot.shuffle.wire()),
                ],
                None,
            ),
        ),
    }
}

/// Answers `player/set_play_mode`: the player takes the modes under
/// `repeat` and `shuffle`, and keeps the one that the command does not
/// name.
pub open spec fn set_play_mode_answer(
    s: MockView,
    c: RawCommandView,
) -> (MockView, RawResponseView) {
    match player_for(s, c) {
        Err(r) => (s, r),
        Ok(i) => match optional_arg::<RepeatMode>(c, "repeat"@) {
            Err(r) => (s, r),
            Ok(repeat) => match optional_arg::<ShuffleMode>(c, "shuffle"@) {
                Err(r) => (s, r),
                Ok(shuffle) => (
                    with_snapshot(
                        s,
                        i,
                        PlayerSnapshotView {
                            repeat: match repeat {
                                Some(mode) => mode,
                                None => s.players[i].snapshot.repeat,
                            },
                            shuffle: match shuffle {
                                Some(mode) => mode,
                                None => s.players[i].snapshot.shuffle,
                            },
                            ..s.players[i].snapshot
                        },
                    ),
                    success(c, Seq::empty(), None),
                ),
            },
        },
    }
}

/// The bounds of a list of the given length, counted from 0.
pub open spec fn index_bounds(len: nat) -> Seq<char> {
    "0.."@ + nat_text(len)
}

/// The bounds of a queue of the given length: its places, counted from 1.
pub open spec fn place_bounds(len: nat) -> Seq<char> {
    "1..="@ + nat_text(len)
}

/// Whether a range lies within a list of the given length.
pub open spec fn range_fits(range: (usize, usize), len: nat) -> bool {
    range.1 < len && range.0 <= range.1 + 1
}

/// Answers `player/get_queue`: the queue of the player as payload, or the
/// part of it that `range` names. The range counts from 0 and includes
/// both ends.
pub open spec fn get_queue_answer(s: MockView, c: RawCommandView) -> (MockView, RawResponseView) {
    match player_for(s, c) {
        Err(r) => (s, r),
        Ok(i) => {
            let queue = s.players[i].snapshot.queue;
            match range_arg(c, "range"@) {
                Err(r) => (s, r),
                Ok(None) => (s, success(c, Seq::empty(), Some(queued_track_info_list_json(queue)))),
                Ok(Some(range)) => if range_fits(range, queue.len()) {
                    (
                        s,
                        success(
                            c,
                            Seq::empty(),
                            Some(
                                queued_track_info_list_json(
                                    queue.subrange(range.0 as int, range.1 + 1),
                                ),
                            ),
                        ),
                    )
                } else {
                    (
                        s,
                        out_of_range(
                            c,
                            crate::command::ser::range_text(range),
                            index_bounds(queue.len()),
                        ),
                    )
                },
            }
        },
    }
}

/// Answers `player/play_queue`: the tracks in front of the place `qid`
/// leave the queue. Place 0, the track that plays, leaves the queue as it
/// is.
pub open spec fn play_queue_answer(s: MockView, c: RawCommandView) -> (MockView, RawResponseView) {
    match player_for(s, c) {
        Err(r) => (s, r),
        Ok(i) => {
            let p = s.players[i].snapshot;
            match typed_arg::<QueueId>(c, "qid"@) {
                Err(r) => (s, r),
                Ok(place) => if place.0 <= p.queue.len() {
                    (
                        with_snapshot(
                            s,
                            i,
                            with_queue(
                                p,
                                p.queue.skip(
                                    if place.0 == 0 {
                                        0
                                    } else {
                                        place.0 - 1
                                    },
                                ),
                            ),
                        ),
                        success(c, Seq::empty(), None),
                    )
                } else {
                    (s, out_of_range(c, int_text(place.0 as int), place_bounds(p.queue.len())))
                },
            }
        },
    }
}

/// Answers `player/remove_from_queue`: the tracks at the places under
/// `qid` leave the queue. Where a place names no track, nothing leaves.
pub open spec fn remove_from_queue_answer(s: MockView, c: RawCommandView) -> (
    MockView,
    RawResponseView,
) {
    match player_for(s, c) {
        Err(r) => (s, r),
        Ok(i) => {
            let p = s.players[i].snapshot;
            match list_arg::<QueueId>(c, "qid"@) {
                Err(r) => (s, r),
                Ok(places) => match first_invalid_place(places, p.queue.len()) {
                    Some(place) => (
                        s,
                        out_of_range(c, int_text(place.0 as int), place_bounds(p.queue.len())),
                    ),
                    None => (
                        with_snapshot(s, i, with_queue(p, p.queue.filter(left(places)))),
                        success(c, Seq::empty(), None),
                    ),
                },
            }
        },
    }
}

/// The identifier of the playlist with the number `n`.
pub open spec fn playlist_id(n: u64) -> Seq<char> {
    "playlist-"@ + nat_text(n as nat)
}

/// The playlists with `p` put in: in place of the playlist with the same
/// identifier, or at the end.
pub open spec fn with_playlist(playlists: Seq<MockPlaylistView>, p: MockPlaylistView) -> Seq<
    MockPlaylistView,
> {
    match playlist_index(playlists, p.container_id) {
        Some(i) => playlists.update(i, p),
        None => playlists.push(p),
    }
}

/// The number after `n`, starting over after the largest.
pub open spec fn next_number(n: u64) -> u64 {
    if n == u64::MAX {
        0
    } else {
        (n + 1) as u64
    }
}

/// Answers `player/save_queue`: the queue of the player becomes a playlist
/// with the name under `name`; the playlist gets the next free number.
pub open spec fn save_queue_answer(s: MockView, c: RawCommandView) -> (MockView, RawResponseView) {
    match player_for(s, c) {
        Err(r) => (s, r),
        Ok(i) => match text_arg(c, "name"@) {
            Err(r) => (s, r),
            Ok(name) => (
                MockView {
                    playlists: with_playlist(
                        s.playlists,
                        MockPlaylistView {
                            container_id: playlist_id(s.next_playlist_num),
                            name,
                            tracks: s.players[i].snapshot.queue,
                        },
                    ),
                    next_playlist_num: next_number(s.next_playlist_num),
                    ..s
                },
                success(c, Seq::empty(), None),
            ),
        },
    }
}

/// Answers `player/clear_queue`: the queue of the player is empty.
pub open spec fn clear_queue_answer(s: MockView, c: RawCommandView) -> (MockView, RawResponseView) {
    match player_for(s, c) {
        Err(r) => (s, r),
        Ok(i) => (
            with_snapshot(s, i, with_queue(s.players[i].snapshot, Seq::empty())),
            success(c, Seq::empty(), None),
        ),
    }
}

/// Answers `player/move_queue_item`: the tracks at the places under `sqid`
/// land, as one block, in front of the track at the place under `dqid`.
pub open spec fn move_queue_item_answer(s: MockView, c: RawCommandView) -> (
    MockView,
    RawResponseView,
) {
    match player_for(s, c) {
        Err(r) => (s, r),
        Ok(i) => {
            let p = s.players[i].snapshot;
            match list_arg::<QueueId>(c, "sqid"@) {
                Err(r) => (s, r),
                Ok(src) => match typed_arg::<QueueId>(c, "dqid"@) {
                    Err(r) => (s, r),
                    Ok(dst) => (
                        with_snapshot(s, i, with_queue(p, moved(p.queue, src, dst))),
                        success(c, Seq::empty(), None),
                    ),
                },
            }
        },
    }
}

/// Answers `player/play_next`: the first track of the queue becomes the
/// track that plays and leaves the queue. An empty queue has no next
/// track.
pub open spec fn play_next_answer(s: MockView, c: RawCommandView) -> (MockView, RawResponseView) {
    match player_for(s, c) {
        Err(r) => (s, r),
        Ok(i) => {
            let p = s.players[i].snapshot;
            if p.queue.len() == 0 {
                (s, out_of_range(c, "1"@, place_bounds(0)))
            } else {
                (
                    with_snapshot(
                        s,
                        i,
                        with_queue(
                            PlayerSnapshotView {
                                now_playing: NowPlayingView {
                                    info: p.now_playing.info.with_track(p.queue[0]),
                                    ..p.now_playing
                                },
                                ..p
                            },
                            p.queue.skip(1),
                        ),
                    ),
                    success(c, Seq::empty(), None),
                )
            }
        },
    }
}

/// Answers a command that names a player and changes nothing in the mock:
/// `player/play_previous`.
pub open spec fn play_previous_answer(
    s: MockView,
    c: RawCommandView,
) -> (MockView, RawResponseView) {
    match player_for(s, c) {
        Err(r) => (s, r),
        Ok(i) => (s, success(c, Seq::empty(), None)),
    }
}

/// Answers `player/set_quickselect` and `player/play_quickselect`: the
/// mock checks the player and the slot under `id`, and changes nothing.
pub open spec fn quickselect_answer(s: MockView, c: RawCommandView) -> (MockView, RawResponseView) {
    match player_for(s, c) {
        Err(r) => (s, r),
        Ok(i) => match typed_arg::<QuickSelectId>(c, "id"@) {
            Err(r) => (s, r),
            Ok(slot) => (s, success(c, Seq::empty(), None)),
        },
    }
}

/// Answers `player/get_quickselects`: the quick-select slots of the player
/// as payload, or the one slot that `id` names.
pub open spec fn get_quickselects_answer(s: MockView, c: RawCommandView) -> (
    MockView,
    RawResponseView,
) {
    match player_for(s, c) {
        Err(r) => (s, r),
        Ok(i) => {
            let slots = s.players[i].quickselects;
            match optional_arg::<QuickSelectId>(c, "id"@) {
                Err(r) => (s, r),
                Ok(None) => (s, success(c, Seq::empty(), Some(quick_select_list_json(slots)))),
                Ok(Some(slot)) => if slot@ <= slots.len() {
                    (
                        s,
                        success(
                            c,
                            Seq::empty(),
                            Some(quick_select_list_json(seq![slots[slot@ - 1]])),
                        ),
                    )
                } else {
                    (s, out_of_range(c, int_text(slot@), place_bounds(slots.len())))
                },
            }
        },
    }
}

/// Answers `player/check_update`: the firmware of a mock player is always
/// current.
pub open spec fn check_update_answer(
    s: MockView,
    c: RawCommandView,
) -> (MockView, RawResponseView) {
    match player_for(s, c) {
        Err(r) => (s, r),
        Ok(i) => (
            s,
            success(
                c,
                Seq::empty(),
                Some(update_payload_json(UpdatePayload { update: UpdateAvailable::Current })),
            ),
        ),
    }
}

/// Reads the step of a volume command.
pub fn parse_step(command: &RawCommand) -> (r: Result<VolumeStep, RawResponse>)
    ensures
        match r {
            Ok(step) => step_of(command@) == Ok::<int, RawResponseView>(step@),
            Err(e) => step_of(command@) == Err::<int, RawResponseView>(e@),
        },
{
    match parse_command_argument_option::<VolumeStep>(command, "step") {
        Ok(Some(step)) => Ok(step),
        Ok(None) => Ok(VolumeStep::default()),
        Err(r) => Err(r),
    }
}

impl MockHeosSystem {
    /// Answers `player/get_play_state`: the play state of the player, under `state`.
    pub fn get_play_state(&mut self, command: &RawCommand) -> (r: RawResponse)
        requires
            command.wf(),
        ensures
            (final(self)@, r@) == get_play_state_answer(old(self)@, command@),
    {
        let i = match self.player_for_command(command) {
            Ok(i) => i,
            Err(r) => return r,
        };
        value_success(command, "state", self.players[i].snapshot.play_state.as_str())
    }

    /// Answers `player/set_play_state`: the player takes the state under `state`.
    pub fn set_play_state(&mut self, command: &RawCommand) -> (r: RawResponse)
        requires
            command.wf(),
        ensures
            (final(self)@, r@) == set_play_state_answer(old(self)@, command@),
    {
        let i = match self.player_for_command(command) {
            Ok(i) => i,
            Err(r) => return r,
        };
        let value = match parse_command_argument::<PlayState>(command, "state") {
            Ok(value) => value,
            Err(r) => return r,
        };
        self.players[i].snapshot.play_state = value;
        proof {
            assert(self@.players =~= old(self)@.players.update(i as int, self.players@[i as int]@));
        }
        plain_success(command)
    }

    /// Answers `player/get_volume`: the volume of the player, under `level`.
    pub fn get_volume(&mut self, command: &RawCommand) -> (r: RawResponse)
        requires
            command.wf(),
        ensures
            (final(self)@, r@) == get_volume_answer(old(self)@, command@),
    {
        let i = match self.player_for_command(command) {
            Ok(i) => i,
            Err(r) => return r,
        };
        value_success(command, "level", self.players[i].snapshot.volume.to_string().as_str())
    }

    /// Answers `player/set_volume`: the player takes the volume under `level`.
    pub fn set_volume(&mut self, command: &RawCommand) -> (r: RawResponse)
        requires
            command.wf(),
        ensures
            (final(self)@, r@) == set_volume_answer(old(self)@, command@),
    {
        let i = match self.player_for_command(command) {
            Ok(i) => i,
            Err(r) => return r,
        };
        let value = match parse_command_argument::<Volume>(command, "level") {
            Ok(value) => value,
            Err(r) => return r,
        };
        self.players[i].snapshot.volume = value;
        proof {
            assert(self@.players =~= old(self)@.players.update(i as int, self.players@[i as int]@));
        }
        plain_success(command)
    }

    /// Answers `player/get_mute`: the mute state of the player, under `state`.
    pub fn get_mute(&mut self, command: &RawCommand) -> (r: RawResponse)
        requires
            command.wf(),
        ensures
            (final(self)@, r@) == get_mute_answer(old(self)@, command@),
    {
        let i = match self.player_for_command(command) {
            Ok(i) => i,
            Err(r) => return r,
        };
        value_success(command, "state", self.players[i].snapshot.mute.as_str())
    }

    /// Answers `player/set_mute`: the player takes the mute state under `state`.
    pub fn set_mute(&mut self, command: &RawCommand) -> (r: RawResponse)
        requires
            command.wf(),
        ensures
            (final(self)@, r@) == set_mute_answer(old(self)@, command@),
    {
        let i = match self.player_for_command(command) {
            Ok(i) => i,
            Err(r) => return r,
        };
        let value = match parse_command_argument::<MuteState>(command, "state") {
            Ok(value) => value,
            Err(r) => return r,
        };
        self.players[i].snapshot.mute = value;
        proof {
            assert(self@.players =~= old(self)@.players.update(i as int, self.players@[i as int]@));
        }
        plain_success(command)
    }

    /// Answers `player/get_players`.
    pub fn get_players(&mut self, command: &RawCommand) -> (r: RawResponse)
        requires
            command.wf(),
        ensures
            (final(self)@, r@) == get_players_answer(old(self)@, command@),
    {
        let mut infos: Vec<PlayerInfo> = Vec::new();
        let mut i: usize = 0;
        assert(views(infos@) =~= player_infos(views(self.players@.take(0))));
        while i < self.players.len()
            invariant
                i <= self.players.len(),
                views(infos@) == player_infos(views(self.players@.take(i as int))),
            decreases self.players.len() - i,
        {
            let info = self.players[i].snapshot.info.clone();
            proof {
                lemma_views_push(infos@, info);
                lemma_views_take_next(self.players@, i as int);
                assert(player_infos(views(self.players@.take(i + 1))) =~= player_infos(
                    views(self.players@.take(i as int)),
                ).push(info@));
            }
            infos.push(info);
            i += 1;
        }
        assert(self.players@.take(i as int) =~= self.players@);
        payload_success(command, crate::data::codec::player_info_list_to_json(&infos))
    }

    /// Answers `player/get_player_info`.
    pub fn get_player_info(&mut self, command: &RawCommand) -> (r: RawResponse)
        requires
            command.wf(),
        ensures
            (final(self)@, r@) == get_player_info_answer(old(self)@, command@),
    {
        let i = match self.player_for_command(command) {
            Ok(i) => i,
            Err(r) => return r,
        };
        payload_success(command, self.players[i].snapshot.info.to_json())
    }

    /// Answers `player/get_now_playing_media`.
    pub fn get_now_playing_media(&mut self, command: &RawCommand) -> (r: RawResponse)
        requires
            command.wf(),
        ensures
            (final(self)@, r@) == get_now_playing_media_answer(old(self)@, command@),
    {
        let i = match self.player_for_command(command) {
            Ok(i) => i,
            Err(r) => return r,
        };
        payload_success(command, self.players[i].snapshot.now_playing.info.to_json())
    }

    /// Answers `player/volume_up`.
    pub fn volume_up(&mut self, command: &RawCommand) -> (r: RawResponse)
        requires
            command.wf(),
        ensures
            (final(self)@, r@) == volume_up_answer(old(self)@, command@),
    {
        let i = match self.player_for_command(command) {
            Ok(i) => i,
            Err(r) => return r,
        };
        let step = match parse_step(command) {
            Ok(step) => step,
            Err(r) => return r,
        };
        let volume = self.players[i].snapshot.volume.saturating_add(step.get());
        self.players[i].snapshot.volume = volume;
        proof {
            assert(self@.players =~= old(self)@.players.update(i as int, self.players@[i as int]@));
        }
        plain_success(command)
    }

    /// Answers `player/volume_down`.
    pub fn volume_down(&mut self, command: &RawCommand) -> (r: RawResponse)
        requires
            command.wf(),
        ensures
            (final(self)@, r@) == volume_down_answer(old(self)@, command@),
    {
        let i = match self.player_for_command(command) {
            Ok(i) => i,
            Err(r) => return r,
        };
        let step = match parse_step(command) {
            Ok(step) => step,
            Err(r) => return r,
        };
        let volume = self.players[i].snapshot.volume.saturating_sub(step.get());
        self.players[i].snapshot.volume = volume;
        proof {
            assert(self@.players =~= old(self)@.players.update(i as int, self.players@[i as int]@));
        }
        plain_success(command)
    }

    /// Answers `player/toggle_mute`.
    pub fn toggle_mute(&mut self, command: &RawCommand) -> (r: RawResponse)
        requires
            command.wf(),
        ensures
            (final(self)@, r@) == toggle_mute_answer(old(self)@, command@),
    {
        let i = match self.player_for_command(command) {
            Ok(i) => i,
            Err(r) => return r,
        };
        let mute = match self.players[i].snapshot.mute {
            MuteState::On => MuteState::Off,
            MuteState::Off => MuteState::On,
        };
        self.players[i].snapshot.mute = mute;
        proof {
            assert(self@.players =~= old(self)@.players.update(i as int, self.players@[i as int]@));
        }
        plain_success(command)
    }

    /// Answers `player/get_play_mode`.
    pub fn get_play_mode(&mut self, command: &RawCommand) -> (r: RawResponse)
        requires
            command.wf(),
        ensures
            (final(self)@, r@) == get_play_mode_answer(old(self)@, command@),
    {
        let i = match self.player_for_command(command) {
            Ok(i) => i,
            Err(r) => return r,
        };
        let mut extra: Vec<(String, String)> = Vec::new();
        extra.push((String::from_str("repeat"), self.players[i].snapshot.repeat.to_string()));
        extra.push((String::from_str("shuffle"), self.players[i].snapshot.shuffle.to_string()));
        proof {
            assert(views(extra@) =~= seq![
                ("repeat"@, self@.players[i as int].snapshot.repeat.wire()),
                ("shuffle"@, self@.players[i as int].snapshot.shuffle.wire()),
            ]);
        }
        success_response(command, &extra, None)
    }

    /// Answers `player/set_play_mode`.
    pub fn set_play_mode(&mut self, command: &RawCommand) -> (r: RawResponse)
        requires
            command.wf(),
        ensures
            (final(self)@, r@) == set_play_mode_answer(old(self)@, command@),
    {
        let i = match self.player_for_command(command) {
            Ok(i) => i,
            Err(r) => return r,
        };
        let repeat = match parse_command_argument_option::<RepeatMode>(command, "repeat") {
            Ok(repeat) => repeat,
            Err(r) => return r,
        };
        let shuffle = match parse_command_argument_option::<ShuffleMode>(command, "shuffle") {
            Ok(shuffle) => shuffle,
            Err(r) => return r,
        };
        match repeat {
            Some(mode) => {
                self.players[i].snapshot.repeat = mode;
            },
            None => {},
        }
        match shuffle {
            Some(mode) => {
                self.players[i].snapshot.shuffle = mode;
            },
            None => {},
        }
        proof {
            assert(self@.players =~= old(self)@.players.update(i as int, self.players@[i as int]@));
        }
        plain_success(command)
    }

    /// Answers `player/get_queue`.
    pub fn get_queue(&mut self, command: &RawCommand) -> (r: RawResponse)
        requires
            command.wf(),
        ensures
            (final(self)@, r@) == get_queue_answer(old(self)@, command@),
    {
        let i = match self.player_for_command(command) {
            Ok(i) => i,
            Err(r) => return r,
        };
        let range = match parse_range_argument(command, "range") {
            Ok(range) => range,
            Err(r) => return r,
        };
        let queue = &self.players[i].snapshot.queue;
        match range {
            None => payload_success(command, queued_track_info_list_to_json(queue)),
            Some((first, last)) => {
                if last < queue.len() && first <= last + 1 {
                    let mut part: Vec<QueuedTrackInfo> = Vec::new();
                    let mut k: usize = first;
                    assert(views(part@) =~= views(queue@).subrange(first as int, k as int));
                    while k <= last
                        invariant
                            first <= k <= last + 1,
                            last < queue.len(),
                            views(part@) == views(queue@).subrange(first as int, k as int),
                        decreases last + 1 - k,
                    {
                        let item = queue[k].clone();
                        proof {
                            lemma_views_push(part@, item);
                            assert(views(queue@).subrange(first as int, k + 1) =~= views(
                                queue@,
                            ).subrange(first as int, k as int).push(item@));
                        }
                        part.push(item);
                        k += 1;
                    }
                    payload_success(command, queued_track_info_list_to_json(&part))
                } else {
                    let bounds = concat2("0..", u64_to_string(queue.len() as u64).as_str());
                    out_of_range_error(
                        command,
                        crate::command::ser::range_to_string((first, last)).as_str(),
                        bounds.as_str(),
                    )
                }
            },
        }
    }

    /// Answers `player/play_queue`.
    pub fn play_queue(&mut self, command: &RawCommand) -> (r: RawResponse)
        requires
            command.wf(),
        ensures
            (final(self)@, r@) == play_queue_answer(old(self)@, command@),
    {
        let i = match self.player_for_command(command) {
            Ok(i) => i,
            Err(r) => return r,
        };
        let place = match parse_command_argument::<QueueId>(command, "qid") {
            Ok(place) => place,
            Err(r) => return r,
        };
        let len = self.players[i].snapshot.queue.len();
        if place.0 <= len as u64 {
            let count: usize = if place.0 == 0 {
                0
            } else {
                (place.0 - 1) as usize
            };
            drop_front(&mut self.players[i].snapshot.queue, count);
            self.players[i].adjust_queue_ids();
            proof {
                let p = old(self)@.players[i as int].snapshot;
                crate::mock::queue::lemma_renumbered(p.queue.skip(count as int));
                assert(self@.players =~= old(self)@.players.update(
                    i as int,
                    self.players@[i as int]@,
                ));
            }
            plain_success(command)
        } else {
            let bounds = concat2("1..=", u64_to_string(len as u64).as_str());
            out_of_range_error(command, place.to_string().as_str(), bounds.as_str())
        }
    }

    /// Answers `player/remove_from_queue`.
    pub fn remove_from_queue(&mut self, command: &RawCommand) -> (r: RawResponse)
        requires
            command.wf(),
        ensures
            (final(self)@, r@) == remove_from_queue_answer(old(self)@, command@),
    {
        let i = match self.player_for_command(command) {
            Ok(i) => i,
            Err(r) => return r,
        };
        let places = match parse_command_argument_list::<QueueId>(command, "qid") {
            Ok(places) => places,
            Err(r) => return r,
        };
        let len = self.players[i].snapshot.queue.len();
        match find_invalid_place(&places, len) {
            Some(place) => {
                let bounds = concat2("1..=", u64_to_string(len as u64).as_str());
                out_of_range_error(command, place.to_string().as_str(), bounds.as_str())
            },
            None => {
                remove_places(&mut self.players[i].snapshot.queue, &places);
                self.players[i].adjust_queue_ids();
                proof {
                    let p = old(self)@.players[i as int].snapshot;
                    crate::mock::queue::lemma_renumbered(p.queue.filter(left(places@)));
                    assert(self@.players =~= old(self)@.players.update(
                        i as int,
                        self.players@[i as int]@,
                    ));
                }
                plain_success(command)
            },
        }
    }

    /// Puts a playlist into the table: in place of the playlist with the
    /// same identifier, or at the end.
    pub fn insert_playlist(&mut self, playlist: MockPlaylist)
        ensures
            final(self)@ == (MockView {
                playlists: with_playlist(old(self)@.playlists, playlist@),
                ..old(self)@
            }),
    {
        match self.find_playlist(playlist.container_id.as_str()) {
            Some(i) => {
                proof {
                    lemma_views_update(self.playlists@, i as int, playlist);
                }
                self.playlists[i] = playlist;
            },
            None => {
                proof {
                    lemma_views_push(self.playlists@, playlist);
                }
                self.playlists.push(playlist);
            },
        }
    }

    /// Answers `player/save_queue`.
    pub fn save_queue(&mut self, command: &RawCommand) -> (r: RawResponse)
        requires
            command.wf(),
        ensures
            (final(self)@, r@) == save_queue_answer(old(self)@, command@),
    {
        let i = match self.player_for_command(command) {
            Ok(i) => i,
            Err(r) => return r,
        };
        let name = match parse_text_argument(command, "name") {
            Ok(name) => name.clone(),
            Err(r) => return r,
        };
        let tracks = crate::data::queue::clone_tracks(&self.players[i].snapshot.queue);
        let container_id = concat2("playlist-", u64_to_string(self.next_playlist_num).as_str());
        self.next_playlist_num = if self.next_playlist_num == u64::MAX {
            0
        } else {
            self.next_playlist_num + 1
        };
        self.insert_playlist(MockPlaylist { container_id, name, tracks });
        plain_success(command)
    }

    /// Answers `player/clear_queue`.
    pub fn clear_queue(&mut self, command: &RawCommand) -> (r: RawResponse)
        requires
            command.wf(),
        ensures
            (final(self)@, r@) == clear_queue_answer(old(self)@, command@),
    {
        let i = match self.player_for_command(command) {
            Ok(i) => i,
            Err(r) => return r,
        };
        self.players[i].snapshot.queue.clear();
        self.players[i].adjust_queue_ids();
        proof {
            assert(views(Seq::<QueuedTrackInfo>::empty()) =~= Seq::<TrackView>::empty());
            crate::mock::queue::lemma_renumbered(Seq::<TrackView>::empty());
            assert(self@.players =~= old(self)@.players.update(i as int, self.players@[i as int]@));
        }
        plain_success(command)
    }

    /// Answers `player/move_queue_item`.
    pub fn move_queue_item(&mut self, command: &RawCommand) -> (r: RawResponse)
        requires
            command.wf(),
        ensures
            (final(self)@, r@) == move_queue_item_answer(old(self)@, command@),
    {
        let i = match self.player_for_command(command) {
            Ok(i) => i,
            Err(r) => return r,
        };
        let src = match parse_command_argument_list::<QueueId>(command, "sqid") {
            Ok(src) => src,
            Err(r) => return r,
        };
        let dst = match parse_command_argument::<QueueId>(command, "dqid") {
            Ok(dst) => dst,
            Err(r) => return r,
        };
        move_items(&mut self.players[i].snapshot.queue, &src, dst);
        self.players[i].adjust_queue_ids();
        proof {
            let p = old(self)@.players[i as int].snapshot;
            crate::mock::queue::lemma_renumbered(moved(p.queue, src@, dst));
            assert(self@.players =~= old(self)@.players.update(i as int, self.players@[i as int]@));
        }
        plain_success(command)
    }

    /// Answers `player/play_next`.
    pub fn play_next(&mut self, command: &RawCommand) -> (r: RawResponse)
        requires
            command.wf(),
        ensures
            (final(self)@, r@) == play_next_answer(old(self)@, command@),
    {
        let i = match self.player_for_command(command) {
            Ok(i) => i,
            Err(r) => return r,
        };
        if self.players[i].snapshot.queue.len() == 0 {
            proof {
                reveal_strlit("1");
                reveal_strlit("1..=0");
                reveal_strlit("1..=");
                assert("1..=0"@ =~= place_bounds(0));
            }
            return out_of_range_error(command, "1", "1..=0");
        }
        let song = self.players[i].snapshot.queue.remove(0);
        match &mut self.players[i].snapshot.now_playing.info {
            NowPlayingInfo::Song { info, .. } => {
                *info = song;
            },
            NowPlayingInfo::Station { info, .. } => {
                *info = song;
            },
        }
        self.players[i].adjust_queue_ids();
        proof {
            let p = old(self)@.players[i as int].snapshot;
            assert(views(old(self).players@[i as int].snapshot.queue@.remove(0)) =~= p.queue.skip(
                1,
            ));
            assert(self@.players =~= old(self)@.players.update(i as int, self.players@[i as int]@));
        }
        plain_success(command)
    }

    /// Answers `player/play_previous`.
    pub fn play_previous(&mut self, command: &RawCommand) -> (r: RawResponse)
        requires
            command.wf(),
        ensures
            (final(self)@, r@) == play_previous_answer(old(self)@, command@),
    {
        match self.player_for_command(command) {
            Ok(_) => plain_success(command),
            Err(r) => r,
        }
    }

    /// Answers `player/set_quickselect` and `player/play_quickselect`.
    pub fn quickselect(&mut self, command: &RawCommand) -> (r: RawResponse)
        requires
            command.wf(),
        ensures
            (final(self)@, r@) == quickselect_answer(old(self)@, command@),
    {
        match self.player_for_command(command) {
            Ok(_) => match parse_command_argument::<QuickSelectId>(command, "id") {
                Ok(_) => plain_success(command),
                Err(r) => r,
            },
            Err(r) => r,
        }
    }

    /// Answers `player/get_quickselects`.
    pub fn get_quickselects(&mut self, command: &RawCommand) -> (r: RawResponse)
        requires
            command.wf(),
        ensures
            (final(self)@, r@) == get_quickselects_answer(old(self)@, command@),
    {
        let i = match self.player_for_command(command) {
            Ok(i) => i,
            Err(r) => return r,
        };
        let slot = match parse_command_argument_option::<QuickSelectId>(command, "id") {
            Ok(slot) => slot,
            Err(r) => return r,
        };
        let slots = &self.players[i].quickselects;
        match slot {
            None => payload_success(command, quick_select_list_to_json(slots)),
            Some(slot) => {
                let number = slot.get();
                if number as u64 <= slots.len() as u64 {
                    let mut one: Vec<QuickSelect> = Vec::new();
                    one.push(slots[(number - 1) as usize].clone());
                    proof {
                        assert(views(one@) =~= seq![views(slots@)[number - 1]]);
                    }
                    payload_success(command, quick_select_list_to_json(&one))
                } else {
                    let bounds = concat2("1..=", u64_to_string(slots.len() as u64).as_str());
                    out_of_range_error(command, slot.to_string().as_str(), bounds.as_str())
                }
            },
        }
    }

    /// Answers `player/check_update`.
    pub fn check_update(&mut self, command: &RawCommand) -> (r: RawResponse)
        requires
            command.wf(),
        ensures
            (final(self)@, r@) == check_update_answer(old(self)@, command@),
    {
        match self.player_for_command(command) {
            Ok(_) => payload_success(
                command,
                UpdatePayload { update: UpdateAvailable::Current }.to_json(),
            ),
            Err(r) => r,
        }
    }
}

} // verus!
