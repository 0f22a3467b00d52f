//! What the browse commands do to a mock system.

use vstd::prelude::*;
use vstd::string::*;
use crate::command::raw::{RawCommand, RawCommandView};
use crate::data::codec::{
    search_criteria_list_json,
    search_criteria_list_to_json,
    source_info_json,
    source_info_list_json,
    source_info_list_to_json,
};
use crate::data::player::AddToQueueType;
use crate::data::queue::{NowPlayingInfo, NowPlayingInfoView, TrackView};
use crate::data::response::{RawResponse, RawResponseView};
use crate::data::source::{SourceId, SourceInfo, SourceInfoView};
use crate::mock::args::{parse_command_argument, parse_text_argument, text_arg, typed_arg};
use crate::mock::player::{player_for, queue_in_order, with_queue, with_snapshot};
use crate::mock::reply::{
    invalid_argument,
    invalid_argument_error,
    invalid_id,
    invalid_id_error,
    payload_success,
    plain_success,
    success,
};
use crate::mock::system::{
    playlist_index,
    source_index,
    track_index,
    MockHeosSystem,
    MockPlaylistView,
    MockSourceView,
    MockTrackView,
    MockView,
};
use crate::state::player::{NowPlaying, NowPlayingProgress, NowPlayingView, PlayerSnapshotView};
use crate::text::int_text;
use crate::views::{lemma_views_push, lemma_views_remove, lemma_views_take_next, views};

verus! {

/// The source that a command names with its `sid`: where it stands, or the
/// reply for a `sid` that is missing, unreadable or unknown.
pub open spec fn source_for(s: MockView, c: RawCommandView) -> Result<int, RawResponseView> {
    match typed_arg::<SourceId>(c, "sid"@) {
        Err(r) => Err(r),
        Ok(id) => match source_index(s.sources, id) {
            Some(i) => Ok(i),
            None => Err(invalid_id(c, "sid"@, int_text(id.code() as int))),
        },
    }
}

/// The descriptions of all sources, in the order of the table.
pub open spec fn source_infos(sources: Seq<MockSourceView>) -> Seq<SourceInfoView> {
    sources.map_values(|s: MockSourceView| s.info)
}

/// Answers `browse/get_music_sources`: the descriptions of all sources, as
/// payload.
pub open spec fn get_music_sources_answer(s: MockView, c: RawCommandView) -> (
    MockView,
    RawResponseView,
) {
    (s, success(c, Seq::empty(), Some(source_info_list_json(source_infos(s.sources)))))
}

/// Answers `browse/get_source_info`: the description of the source, as
/// payload.
pub open spec fn get_source_info_answer(
    s: MockView,
    c: RawCommandView,
) -> (MockView, RawResponseView) {
    match source_for(s, c) {
        Err(r) => (s, r),
        Ok(i) => (s, success(c, Seq::empty(), Some(source_info_json(s.sources[i].info)))),
    }
}

/// Answers `browse/get_search_criteria`: the ways in which the source can
/// be searched, as payload.
pub open spec fn get_search_criteria_answer(s: MockView, c: RawCommandView) -> (
    MockView,
    RawResponseView,
) {
    match source_for(s, c) {
        Err(r) => (s, r),
        Ok(i) => (
            s,
            success(
                c,
                Seq::empty(),
                Some(search_criteria_list_json(s.sources[i].search_criteria)),
            ),
        ),
    }
}

/// What a player plays once `track` has begun: the track as a song of its
/// source, nothing played yet, the length known.
pub open spec fn playing(track: MockTrackView) -> NowPlayingView {
    NowPlayingView {
        info: NowPlayingInfoView::Song { info: track.info, source_id: track.source_id },
        progress: NowPlayingProgress { elapsed: 0, duration: track.duration, baseline: None },
    }
}

/// The state of a player after `track` was added in the given way. To play
/// now replaces the track that plays and keeps the queue; to play next
/// puts the track in front of the queue; to add to the end puts it there;
/// to replace and play replaces the track that plays and empties the
/// queue. The places are counted anew in every case.
pub open spec fn after_add(
    p: PlayerSnapshotView,
    track: MockTrackView,
    how: AddToQueueType,
) -> PlayerSnapshotView {
    match how {
        AddToQueueType::PlayNow => with_queue(
            PlayerSnapshotView { now_playing: playing(track), ..p },
            p.queue,
        ),
        AddToQueueType::PlayNext => with_queue(p, seq![track.info] + p.queue),
        AddToQueueType::AddToEnd => with_queue(p, p.queue.push(track.info)),
        AddToQueueType::ReplaceAndPlay => with_queue(
            PlayerSnapshotView { now_playing: playing(track), ..p },
            Seq::empty(),
        ),
    }
}

/// Answers `browse/add_to_queue`: the track under `mid` of the source
/// under `sid` is added to the queue of the player under `pid`, in the way
/// that `aid` names.
pub open spec fn add_to_queue_answer(
    s: MockView,
    c: RawCommandView,
) -> (MockView, RawResponseView) {
    match source_for(s, c) {
        Err(r) => (s, r),
        Ok(at) => match text_arg(c, "mid"@) {
            Err(r) => (s, r),
            Ok(media_id) => match track_index(s.sources[at].catalogue, media_id) {
                None => (s, invalid_id(c, "mid"@, media_id)),
                Some(t) => match player_for(s, c) {
                    Err(r) => (s, r),
                    Ok(i) => match typed_arg::<AddToQueueType>(c, "aid"@) {
                        Err(r) => (s, r),
                        Ok(how) => (
                            with_snapshot(
                                s,
                                i,
                                after_add(s.players[i].snapshot, s.sources[at].catalogue[t], how),
                            ),
                            success(c, Seq::empty(), None),
                        ),
                    },
                },
            },
        },
    }
}

/// What the mock says of a source that holds no playlists.
pub open spec fn only_playlists() -> Seq<char> {
    "Only HeosPlaylists (1025) is currently a valid ID"@
}

/// The playlist that a command names with `sid` and `cid`: the source must
/// be the one that holds the playlists.
pub open spec fn playlist_for(s: MockView, c: RawCommandView) -> Result<int, RawResponseView> {
    match typed_arg::<SourceId>(c, "sid"@) {
        Err(r) => Err(r),
        Ok(id) => if id != SourceId::HeosPlaylists {
            Err(invalid_argument(c, "sid"@, only_playlists()))
        } else {
            match text_arg(c, "cid"@) {
                Err(r) => Err(r),
                Ok(container_id) => match playlist_index(s.playlists, container_id) {
                    Some(i) => Ok(i),
                    None => Err(invalid_id(c, "cid"@, container_id)),
                },
            }
        },
    }
}

/// Answers `browse/rename_playlist`: the playlist takes the name under
/// `name`.
pub open spec fn rename_playlist_answer(
    s: MockView,
    c: RawCommandView,
) -> (MockView, RawResponseView) {
    match playlist_for(s, c) {
        Err(r) => (s, r),
        Ok(i) => match text_arg(c, "name"@) {
            Err(r) => (s, r),
            Ok(name) => (
                MockView {
                    playlists: s.playlists.update(i, MockPlaylistView { name, ..s.playlists[i] }),
                    ..s
                },
                success(c, Seq::empty(), None),
            ),
        },
    }
}

/// Answers `browse/delete_playlist`: the playlist is gone.
pub open spec fn delete_playlist_answer(
    s: MockView,
    c: RawCommandView,
) -> (MockView, RawResponseView) {
    match playlist_for(s, c) {
        Err(r) => (s, r),
        Ok(i) => (MockView { playlists: s.playlists.remove(i), ..s }, success(
            c,
            Seq::empty(),
            None,
        )),
    }
}

impl MockHeosSystem {
    /// Finds the source that a command names with its `sid`.
    pub fn source_for_command(&self, command: &RawCommand) -> (r: Result<usize, RawResponse>)
        ensures
            match r {
                Ok(i) => source_for(self@, command@) == Ok::<int, RawResponseView>(i as int) && i
                    < self.sources.len(),
                Err(e) => source_for(self@, command@) == Err::<int, RawResponseView>(e@),
            },
    {
        let id = match parse_command_argument::<SourceId>(command, "sid") {
            Ok(id) => id,
            Err(r) => return Err(r),
        };
        match self.find_source(id) {
            Some(i) => Ok(i),
            None => Err(invalid_id_error(command, "sid", id.to_string().as_str())),
        }
    }

    /// Finds the playlist that a command names with `sid` and `cid`.
    pub fn playlist_for_command(&self, command: &RawCommand) -> (r: Result<usize, RawResponse>)
        ensures
            match r {
                Ok(i) => playlist_for(self@, command@) == Ok::<int, RawResponseView>(i as int) && i
                    < self.playlists.len(),
                Err(e) => playlist_for(self@, command@) == Err::<int, RawResponseView>(e@),
            },
    {
        let id = match parse_command_argument::<SourceId>(command, "sid") {
            Ok(id) => id,
            Err(r) => return Err(r),
        };
        if id != SourceId::HeosPlaylists {
            return Err(
                invalid_argument_error(
                    command,
                    "sid",
                    "Only HeosPlaylists (1025) is currently a valid ID",
                ),
            );
        }
        let container_id = match parse_text_argument(command, "cid") {
            Ok(container_id) => container_id,
            Err(r) => return Err(r),
        };
        match self.find_playlist(container_id.as_str()) {
            Some(i) => Ok(i),
            None => Err(invalid_id_error(command, "cid", container_id.as_str())),
        }
    }

    /// Answers `browse/get_music_sources`.
    pub fn get_music_sources(&mut self, command: &RawCommand) -> (r: RawResponse)
        requires
            command.wf(),
        ensures
            (final(self)@, r@) == get_music_sources_answer(old(self)@, command@),
    {
        let mut infos: Vec<SourceInfo> = Vec::new();
        let mut i: usize = 0;
        assert(views(infos@) =~= source_infos(views(self.sources@.take(0))));
        while i < self.sources.len()
            invariant
                i <= self.sources.len(),
                views(infos@) == source_infos(views(self.sources@.take(i as int))),
            decreases self.sources.len() - i,
        {
            let info = self.sources[i].info.clone();
            proof {
                lemma_views_push(infos@, info);
                lemma_views_take_next(self.sources@, i as int);
                assert(source_infos(views(self.sources@.take(i + 1))) =~= source_infos(
                    views(self.sources@.take(i as int)),
                ).push(info@));
            }
            infos.push(info);
            i += 1;
        }
        assert(self.sources@.take(i as int) =~= self.sources@);
        payload_success(command, source_info_list_to_json(&infos))
    }

    /// Answers `browse/get_source_info`.
    pub fn get_source_info(&mut self, command: &RawCommand) -> (r: RawResponse)
        requires
            command.wf(),
        ensures
            (final(self)@, r@) == get_source_info_answer(old(self)@, command@),
    {
        match self.source_for_command(command) {
            Ok(i) => payload_success(command, self.sources[i].info.to_json()),
            Err(r) => r,
        }
    }

    /// Answers `browse/get_search_criteria`.
    pub fn get_search_criteria(&mut self, command: &RawCommand) -> (r: RawResponse)
        requires
            command.wf(),
        ensures
            (final(self)@, r@) == get_search_criteria_answer(old(self)@, command@),
    {
        match self.source_for_command(command) {
            Ok(i) => payload_success(
                command,
                search_criteria_list_to_json(&self.sources[i].search_criteria),
            ),
            Err(r) => r,
        }
    }

    /// Answers `browse/add_to_queue`.
    pub fn add_to_queue(&mut self, command: &RawCommand) -> (r: RawResponse)
        requires
            command.wf(),
        ensures
            (final(self)@, r@) == add_to_queue_answer(old(self)@, command@),
    {
        let at = match self.source_for_command(command) {
            Ok(at) => at,
            Err(r) => return r,
        };
        let media_id = match parse_text_argument(command, "mid") {
            Ok(media_id) => media_id,
            Err(r) => return r,
        };
        let t = match self.sources[at].find_track(media_id.as_str()) {
            Some(t) => t,
            None => return invalid_id_error(command, "mid", media_id.as_str()),
        };
        let info = self.sources[at].catalogue[t].info.clone();
        let source_id = self.sources[at].catalogue[t].source_id;
        let duration = self.sources[at].catalogue[t].duration;
        let i = match self.player_for_command(command) {
            Ok(i) => i,
            Err(r) => return r,
        };
        let how = match parse_command_argument::<AddToQueueType>(command, "aid") {
            Ok(how) => how,
            Err(r) => return r,
        };
        let ghost p = old(self)@.players[i as int].snapshot;
        let ghost track = old(self)@.sources[at as int].catalogue[t as int];
        match how {
            AddToQueueType::PlayNow => {
                self.players[i].snapshot.now_playing = NowPlaying {
                    info: NowPlayingInfo::Song { info, source_id },
                    progress: NowPlayingProgress::new(duration),
                };
            },
            AddToQueueType::PlayNext => {
                self.players[i].snapshot.queue.insert(0, info);
                proof {
                    assert(views(self.players@[i as int].snapshot.queue@) =~= seq![track.info]
                        + p.queue);
                }
            },
            AddToQueueType::AddToEnd => {
                self.players[i].snapshot.queue.push(info);
                proof {
                    assert(views(self.players@[i as int].snapshot.queue@) =~= p.queue.push(
                        track.info,
                    ));
                }
            },
            AddToQueueType::ReplaceAndPlay => {
                self.players[i].snapshot.now_playing = NowPlaying {
                    info: NowPlayingInfo::Song { info, source_id },
                    progress: NowPlayingProgress::new(duration),
                };
                self.players[i].snapshot.queue.clear();
                proof {
                    assert(views(self.players@[i as int].snapshot.queue@) =~= Seq::<
                        TrackView,
                    >::empty());
                }
            },
        }
        self.players[i].adjust_queue_ids();
        proof {
            assert(self@.players =~= old(self)@.players.update(i as int, self.players@[i as int]@));
        }
        plain_success(command)
    }

    /// Answers `browse/rename_playlist`.
    pub fn rename_playlist(&mut self, command: &RawCommand) -> (r: RawResponse)
        requires
            command.wf(),
        ensures
            (final(self)@, r@) == rename_playlist_answer(old(self)@, command@),
    {
        let i = match self.playlist_for_command(command) {
            Ok(i) => i,
            Err(r) => return r,
        };
        let name = match parse_text_argument(command, "name") {
            Ok(name) => name.clone(),
            Err(r) => return r,
        };
        self.playlists[i].name = name;
        proof {
            assert(self@.playlists =~= old(self)@.playlists.update(
                i as int,
                self.playlists@[i as int]@,
            ));
        }
        plain_success(command)
    }

    /// Answers `browse/delete_playlist`.
    pub fn delete_playlist(&mut self, command: &RawCommand) -> (r: RawResponse)
        requires
            command.wf(),
        ensures
            (final(self)@, r@) == delete_playlist_answer(old(self)@, command@),
    {
        let i = match self.playlist_for_command(command) {
            Ok(i) => i,
            Err(r) => return r,
        };
        proof {
            lemma_views_remove(self.playlists@, i as int);
        }
        self.playlists.remove(i);
        plain_success(command)
    }
}

/// Queue invariants. After each command that changes a queue and
/// succeeds (to play a track of the queue, to remove tracks, to empty the
/// queue, to move tracks, to play the next track, to add a track), the
/// places of the queue of the player are 1, 2, 3 and so on in order, and
/// the track that plays has place 0.
pub proof fn lemma_queue_commands_keep_order(s: MockView, c: RawCommandView)
    ensures
        forall|i: int|
            player_for(s, c) == Ok::<int, RawResponseView>(i) ==> {
                &&& crate::mock::player::play_queue_answer(s, c).1.result == Some(true)
                    ==> queue_in_order(
                    crate::mock::player::play_queue_answer(s, c).0.players[i].snapshot,
                )
                &&& crate::mock::player::remove_from_queue_answer(s, c).1.result == Some(true)
                    ==> queue_in_order(
                    crate::mock::player::remove_from_queue_answer(s, c).0.players[i].snapshot,
                )
                &&& crate::mock::player::clear_queue_answer(s, c).1.result == Some(true)
                    ==> queue_in_order(
                    crate::mock::player::clear_queue_answer(s, c).0.players[i].snapshot,
                )
                &&& crate::mock::player::move_queue_item_answer(s, c).1.result == Some(true)
                    ==> queue_in_order(
                    crate::mock::player::move_queue_item_answer(s, c).0.players[i].snapshot,
                )
                &&& crate::mock::player::play_next_answer(s, c).1.result == Some(true)
                    ==> queue_in_order(
                    crate::mock::player::play_next_answer(s, c).0.players[i].snapshot,
                )
                &&& add_to_queue_answer(s, c).1.result == Some(true) ==> queue_in_order(
                    add_to_queue_answer(s, c).0.players[i].snapshot,
                )
            },
{
    assert forall|p: PlayerSnapshotView, queue: Seq<TrackView>| queue_in_order(
        #[trigger] with_queue(p, queue),
    ) by {
        crate::mock::player::lemma_with_queue_in_order(p, queue);
    }
    match player_for(s, c) {
        Ok(i) => {
            crate::views::lemma_first_where(
                s.players,
                crate::mock::system::is_player(
                    typed_arg::<crate::data::player::PlayerId>(c, "pid"@)->Ok_0,
                ),
            );
        },
        Err(_) => {},
    }
}

} // verus!
