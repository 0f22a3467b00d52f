//! The state of a mock system.

use vstd::prelude::*;
use vstd::string::*;
use crate::data::common::{MuteState, Volume};
use crate::data::group::{GroupId, GroupInfo, GroupPlayerView, GroupRole};
use crate::data::player::{PlayState, PlayerId, PlayerInfo, RepeatMode, ShuffleMode};
use crate::data::queue::{NowPlayingInfo, QueueId, QueuedTrackInfo, TrackView};
use crate::data::quickselect::{QuickSelect, QuickSelectId, QuickSelectView};
use crate::data::source::{
    SearchCriteria,
    SearchCriteriaView,
    SourceId,
    SourceInfo,
    SourceInfoView,
};
use crate::state::group::{GroupSnapshot, GroupSnapshotView};
use crate::state::player::{NowPlaying, NowPlayingProgress, PlayerSnapshot, PlayerSnapshotView};
use crate::text::{concat2, nat_text, opt_text, u64_to_string};
use crate::views::{first_where, lemma_first_where, lemma_first_where_at, views};

verus! {

/// Something that a mock system keeps under an identifier.
pub trait MockItem {
    /// The kind of identifier.
    type Id;

    /// The identifier of this item.
    spec fn item_id(&self) -> Self::Id;

    /// The identifier of this item.
    fn id(&self) -> (id: Self::Id)
        ensures
            id == self.item_id(),
    ;
}

/// A player of a mock system.
#[derive(Debug)]
pub struct MockPlayer {
    /// The state of the player.
    pub snapshot: PlayerSnapshot,
    /// The quick-select slots of the player: six of them.
    pub quickselects: Vec<QuickSelect>,
}

/// A `MockPlayer` as plain values.
pub ghost struct MockPlayerView {
    pub snapshot: PlayerSnapshotView,
    pub quickselects: Seq<QuickSelectView>,
}

impl View for MockPlayer {
    type V = MockPlayerView;

    open spec fn view(&self) -> MockPlayerView {
        MockPlayerView { snapshot: self.snapshot@, quickselects: views(self.quickselects@) }
    }
}

impl MockItem for MockPlayer {
    type Id = PlayerId;

    open spec fn item_id(&self) -> PlayerId {
        self.snapshot.info.player_id
    }

    fn id(&self) -> (id: PlayerId) {
        self.snapshot.info.player_id
    }
}

/// The name of the quick-select slot `n` of a new player.
pub open spec fn default_slot_name(n: int) -> Seq<char> {
    "QuickSelect"@ + nat_text(n as nat)
}

/// The track of a player that has played nothing yet: all texts empty, at
/// the now-playing place.
pub open spec fn silent_track() -> TrackView {
    TrackView {
        song: Seq::empty(),
        album: Seq::empty(),
        artist: Seq::empty(),
        image_url: None,
        media_id: Seq::empty(),
        queue_id: QueueId(0),
        album_id: None,
    }
}

impl MockPlayer {
    /// A player as it is when it joins a system: it plays nothing, its
    /// queue is empty, it is stopped, at full volume and not muted, it
    /// neither repeats nor shuffles, and its six quick-select slots are
    /// named `QuickSelect1` to `QuickSelect6`.
    pub fn new(info: PlayerInfo) -> (r: Self)
        ensures
            r.snapshot.info == info,
            r@.snapshot.now_playing.info == (crate::data::queue::NowPlayingInfoView::Song {
                info: silent_track(),
                source_id: SourceId::HeosAuxInputs,
            }),
            r.snapshot.now_playing.progress == (NowPlayingProgress {
                elapsed: 0,
                duration: 0,
                baseline: None,
            }),
            r@.snapshot.queue == Seq::<TrackView>::empty(),
            r.snapshot.play_state == PlayState::Stop,
            r.snapshot.volume@ == 100,
            r.snapshot.mute == MuteState::Off,
            r.snapshot.repeat == RepeatMode::Off,
            r.snapshot.shuffle == ShuffleMode::Off,
            r@.quickselects == Seq::new(
                6,
                |i: int| QuickSelectView { id: i + 1, name: default_slot_name(i + 1) },
            ),
    {
        let track = QueuedTrackInfo {
            song: String::new(),
            album: String::new(),
            artist: String::new(),
            image_url: None,
            media_id: String::new(),
            queue_id: QueueId(0),
            album_id: None,
        };
        let snapshot = PlayerSnapshot {
            info,
            now_playing: NowPlaying {
                info: NowPlayingInfo::Song { info: track, source_id: SourceId::HeosAuxInputs },
                progress: NowPlayingProgress::new(0),
            },
            queue: Vec::new(),
            play_state: PlayState::Stop,
            volume: Volume::highest(),
            mute: MuteState::Off,
            repeat: RepeatMode::Off,
            shuffle: ShuffleMode::Off,
        };
        let mut quickselects: Vec<QuickSelect> = Vec::new();
        let mut n: i64 = 1;
        while n <= 6
            invariant
                1 <= n <= 7,
                quickselects.len() == n - 1,
                forall|i: int|
                    0 <= i < n - 1 ==> (#[trigger] quickselects@[i])@ == (QuickSelectView {
                        id: i + 1,
                        name: default_slot_name(i + 1),
                    }),
            decreases 7 - n,
        {
            match QuickSelectId::new(n) {
                Ok(id) => {
                    let name = concat2("QuickSelect", u64_to_string(n as u64).as_str());
                    quickselects.push(QuickSelect { id, name });
                },
                Err(_) => {},
            }
            n += 1;
        }
        let r = MockPlayer { snapshot, quickselects };
        proof {
            assert(r@.quickselects =~= Seq::new(
                6,
                |i: int| QuickSelectView { id: i + 1, name: default_slot_name(i + 1) },
            ));
            assert(r@.snapshot.queue =~= Seq::<TrackView>::empty());
        }
        r
    }
}

/// A group of a mock system.
#[derive(Debug)]
pub struct MockGroup {
    /// The state of the group.
    pub snapshot: GroupSnapshot,
}

impl View for MockGroup {
    type V = GroupSnapshotView;

    open spec fn view(&self) -> GroupSnapshotView {
        self.snapshot@
    }
}

impl MockItem for MockGroup {
    type Id = GroupId;

    open spec fn item_id(&self) -> GroupId {
        self.snapshot.info.group_id
    }

    fn id(&self) -> (id: GroupId) {
        self.snapshot.info.group_id
    }
}

/// Whether a player of a group is its leader.
pub open spec fn is_leader() -> spec_fn(GroupPlayerView) -> bool {
    |p: GroupPlayerView| p.role == GroupRole::Leader
}

/// The first player marked as leader, if there is one.
pub open spec fn first_leader(players: Seq<GroupPlayerView>) -> Option<PlayerId> {
    match first_where(players, is_leader()) {
        Some(i) => Some(players[i].player_id),
        None => None,
    }
}

impl MockGroup {
    /// Whether a group description names a leader.
    pub open spec fn has_leader(info: GroupInfo) -> bool {
        first_leader(info@.players) is Some
    }

    /// A group as it is when it is made: led by the first player that the
    /// description marks as leader, at full volume and not muted. The
    /// description must name a leader.
    pub fn new(info: GroupInfo) -> (r: Self)
        requires
            Self::has_leader(info),
        ensures
            r.snapshot.info == info,
            Some(r.snapshot.leader_id) == first_leader(info@.players),
            r.snapshot.volume@ == 100,
            r.snapshot.mute == MuteState::Off,
    {
        let mut leader_id = PlayerId(0);
        let mut i: usize = 0;
        proof {
            lemma_first_where(views(info.players@), is_leader());
        }
        while i < info.players.len()
            invariant_except_break
                i <= info.players.len(),
                i < info.players.len(),
                Self::has_leader(info),
                forall|j: int| 0 <= j < i ==> !is_leader()(views(info.players@)[j]),
            ensures
                Some(leader_id) == first_leader(info@.players),
            decreases info.players.len() - i,
        {
            if info.players[i].role == GroupRole::Leader {
                leader_id = info.players[i].player_id;
                proof {
                    lemma_first_where_at(views(info.players@), is_leader(), i as int);
                }
                break ;
            }
            i += 1;
            proof {
                if i == info.players.len() {
                    lemma_first_where_at(views(info.players@), is_leader(), i as int);
                }
            }
        }
        MockGroup {
            snapshot: GroupSnapshot {
                info,
                leader_id,
                volume: Volume::highest(),
                mute: MuteState::Off,
            },
        }
    }

    /// Makes a group where the description names a leader.
    pub fn try_new(info: GroupInfo) -> (r: Option<Self>)
        ensures
            match r {
                Some(g) => g.snapshot.info == info && Some(g.snapshot.leader_id) == first_leader(
                    info@.players,
                ) && g.snapshot.volume@ == 100 && g.snapshot.mute == MuteState::Off,
                None => !Self::has_leader(info),
            },
    {
        let mut i: usize = 0;
        while i < info.players.len()
            invariant
                i <= info.players.len(),
                forall|j: int| 0 <= j < i ==> !is_leader()(views(info.players@)[j]),
            decreases info.players.len() - i,
        {
            if info.players[i].role == GroupRole::Leader {
                proof {
                    lemma_first_where_at(views(info.players@), is_leader(), i as int);
                }
                return Some(Self::new(info));
            }
            i += 1;
        }
        proof {
            lemma_first_where_at(views(info.players@), is_leader(), i as int);
        }
        None
    }
}

/// A track in the catalogue of a mock source.
#[derive(Debug)]
pub struct MockTrack {
    /// The track.
    pub info: QueuedTrackInfo,
    /// The source that the track belongs to.
    pub source_id: SourceId,
    /// How long the track is, in milliseconds.
    pub duration: u64,
}

/// A `MockTrack` as plain values.
pub ghost struct MockTrackView {
    pub info: TrackView,
    pub source_id: SourceId,
    pub duration: u64,
}

impl View for MockTrack {
    type V = MockTrackView;

    open spec fn view(&self) -> MockTrackView {
        MockTrackView { info: self.info@, source_id: self.source_id, duration: self.duration }
    }
}

impl MockTrack {
    /// A track for a catalogue.
    pub fn new(info: QueuedTrackInfo, source_id: SourceId, duration: u64) -> (r: Self)
        ensures
            r.info == info,
            r.source_id == source_id,
            r.duration == duration,
    {
        MockTrack { info, source_id, duration }
    }
}

impl MockItem for MockTrack {
    type Id = String;

    open spec fn item_id(&self) -> String {
        self.info.media_id
    }

    fn id(&self) -> (id: String) {
        self.info.media_id.clone()
    }
}

/// A source of a mock system.
#[derive(Debug)]
pub struct MockSource {
    /// The description of the source.
    pub info: SourceInfo,
    /// The ways in which the source can be searched.
    pub search_criteria: Vec<SearchCriteria>,
    /// What the source holds. Empty until a test fills it.
    pub catalogue: Vec<MockTrack>,
}

/// A `MockSource` as plain values.
pub ghost struct MockSourceView {
    pub info: SourceInfoView,
    pub search_criteria: Seq<SearchCriteriaView>,
    pub catalogue: Seq<MockTrackView>,
}

impl View for MockSource {
    type V = MockSourceView;

    open spec fn view(&self) -> MockSourceView {
        MockSourceView {
            info: self.info@,
            search_criteria: views(self.search_criteria@),
            catalogue: views(self.catalogue@),
        }
    }
}

impl MockSource {
    /// A source that cannot be searched and holds nothing.
    pub fn new(info: SourceInfo) -> (r: Self)
        ensures
            r.info == info,
            r@.search_criteria == Seq::<SearchCriteriaView>::empty(),
            r@.catalogue == Seq::<MockTrackView>::empty(),
    {
        let r = MockSource { info, search_criteria: Vec::new(), catalogue: Vec::new() };
        proof {
            assert(r@.search_criteria =~= Seq::<SearchCriteriaView>::empty());
            assert(r@.catalogue =~= Seq::<MockTrackView>::empty());
        }
        r
    }
}

impl MockItem for MockSource {
    type Id = SourceId;

    open spec fn item_id(&self) -> SourceId {
        self.info.source_id
    }

    fn id(&self) -> (id: SourceId) {
        self.info.source_id
    }
}

/// A playlist of a mock system.
#[derive(Debug)]
pub struct MockPlaylist {
    /// Identifier of the playlist.
    pub container_id: String,
    /// Name of the playlist.
    pub name: String,
    /// The tracks of the playlist.
    pub tracks: Vec<QueuedTrackInfo>,
}

/// A `MockPlaylist` as plain values.
pub ghost struct MockPlaylistView {
    pub container_id: Seq<char>,
    pub name: Seq<char>,
    pub tracks: Seq<TrackView>,
}

impl View for MockPlaylist {
    type V = MockPlaylistView;

    open spec fn view(&self) -> MockPlaylistView {
        MockPlaylistView {
            container_id: self.container_id@,
            name: self.name@,
            tracks: views(self.tracks@),
        }
    }
}

impl MockPlaylist {
    /// A playlist without tracks.
    pub fn new(container_id: String, name: String) -> (r: Self)
        ensures
            r.container_id == container_id,
            r.name == name,
            r@.tracks == Seq::<TrackView>::empty(),
    {
        let r = MockPlaylist { container_id, name, tracks: Vec::new() };
        proof {
            assert(r@.tracks =~= Seq::<TrackView>::empty());
        }
        r
    }
}

impl MockItem for MockPlaylist {
    type Id = String;

    open spec fn item_id(&self) -> String {
        self.container_id
    }

    fn id(&self) -> (id: String) {
        self.container_id.clone()
    }
}

/// A mock system: a user account, players, groups, sources and playlists.
#[derive(Debug)]
pub struct MockHeosSystem {
    /// The user that is signed in, if any.
    pub username: Option<String>,
    /// The players.
    pub players: Vec<MockPlayer>,
    /// The groups.
    pub groups: Vec<MockGroup>,
    /// The sources.
    pub sources: Vec<MockSource>,
    /// The playlists.
    pub playlists: Vec<MockPlaylist>,
    /// The number that the next saved playlist gets.
    pub next_playlist_num: u64,
}

/// A `MockHeosSystem` as plain values.
pub ghost struct MockView {
    pub username: Option<Seq<char>>,
    pub players: Seq<MockPlayerView>,
    pub groups: Seq<GroupSnapshotView>,
    pub sources: Seq<MockSourceView>,
    pub playlists: Seq<MockPlaylistView>,
    pub next_playlist_num: u64,
}

impl View for MockHeosSystem {
    type V = MockView;

    open spec fn view(&self) -> MockView {
        MockView {
            username: opt_text(self.username),
            players: views(self.players@),
            groups: views(self.groups@),
            sources: views(self.sources@),
            playlists: views(self.playlists@),
            next_playlist_num: self.next_playlist_num,
        }
    }
}

/// Whether a player has the identifier `id`.
pub open spec fn is_player(id: PlayerId) -> spec_fn(MockPlayerView) -> bool {
    |p: MockPlayerView| p.snapshot.info.player_id == id
}

/// Whether a group has the identifier `id`.
pub open spec fn is_group(id: GroupId) -> spec_fn(GroupSnapshotView) -> bool {
    |g: GroupSnapshotView| g.info.group_id == id
}

/// Whether a group is led by `leader`.
pub open spec fn is_led_by(leader: PlayerId) -> spec_fn(GroupSnapshotView) -> bool {
    |g: GroupSnapshotView| g.leader_id == leader
}

/// Whether a source has the identifier `id`.
pub open spec fn is_source(id: SourceId) -> spec_fn(MockSourceView) -> bool {
    |s: MockSourceView| s.info.source_id == id
}

/// Whether a playlist has the identifier `id`.
pub open spec fn is_playlist(id: Seq<char>) -> spec_fn(MockPlaylistView) -> bool {
    |p: MockPlaylistView| p.container_id == id
}

/// Whether a track has the identifier `id`.
pub open spec fn is_track(id: Seq<char>) -> spec_fn(MockTrackView) -> bool {
    |t: MockTrackView| t.info.media_id == id
}

/// Where the player `id` stands among `players`.
pub open spec fn player_index(players: Seq<MockPlayerView>, id: PlayerId) -> Option<int> {
    first_where(players, is_player(id))
}

/// Where the group `id` stands among `groups`.
pub open spec fn group_index(groups: Seq<GroupSnapshotView>, id: GroupId) -> Option<int> {
    first_where(groups, is_group(id))
}

/// Where the group that `leader` leads stands among `groups`.
pub open spec fn led_group_index(groups: Seq<GroupSnapshotView>, leader: PlayerId) -> Option<int> {
    first_where(groups, is_led_by(leader))
}

/// Where the source `id` stands among `sources`.
pub open spec fn source_index(sources: Seq<MockSourceView>, id: SourceId) -> Option<int> {
    first_where(sources, is_source(id))
}

/// Where the playlist `id` stands among `playlists`.
pub open spec fn playlist_index(playlists: Seq<MockPlaylistView>, id: Seq<char>) -> Option<int> {
    first_where(playlists, is_playlist(id))
}

/// Where the track `id` stands in a catalogue.
pub open spec fn track_index(catalogue: Seq<MockTrackView>, id: Seq<char>) -> Option<int> {
    first_where(catalogue, is_track(id))
}

impl MockHeosSystem {
    /// A system without user, players, groups, sources or playlists.
    pub fn empty() -> (r: Self)
        ensures
            r@ == (MockView {
                username: None,
                players: Seq::empty(),
                groups: Seq::empty(),
                sources: Seq::empty(),
                playlists: Seq::empty(),
                next_playlist_num: 0,
            }),
    {
        let r = MockHeosSystem {
            username: None,
            players: Vec::new(),
            groups: Vec::new(),
            sources: Vec::new(),
            playlists: Vec::new(),
            next_playlist_num: 0,
        };
        proof {
            assert(r@.players =~= Seq::empty());
            assert(r@.groups =~= Seq::empty());
            assert(r@.sources =~= Seq::empty());
            assert(r@.playlists =~= Seq::empty());
        }
        r
    }

    /// Where the player `id` stands.
    pub fn find_player(&self, id: PlayerId) -> (r: Option<usize>)
        ensures
            match r {
                Some(i) => player_index(self@.players, id) == Some(i as int) && i
                    < self.players.len(),
                None => player_index(self@.players, id) is None,
            },
    {
        let mut i: usize = 0;
        while i < self.players.len()
            invariant
                i <= self.players.len(),
                forall|j: int| 0 <= j < i ==> !is_player(id)(views(self.players@)[j]),
            decreases self.players.len() - i,
        {
            if self.players[i].snapshot.info.player_id == id {
                proof {
                    lemma_first_where_at(views(self.players@), is_player(id), i as int);
                }
                return Some(i);
            }
            i += 1;
        }
        proof {
            lemma_first_where_at(views(self.players@), is_player(id), i as int);
        }
        None
    }

    /// Where the group `id` stands.
    pub fn find_group(&self, id: GroupId) -> (r: Option<usize>)
        ensures
            match r {
                Some(i) => group_index(self@.groups, id) == Some(i as int) && i < self.groups.len(),
                None => group_index(self@.groups, id) is None,
            },
    {
        let mut i: usize = 0;
        while i < self.groups.len()
            invariant
                i <= self.groups.len(),
                forall|j: int| 0 <= j < i ==> !is_group(id)(views(self.groups@)[j]),
            decreases self.groups.len() - i,
        {
            if self.groups[i].snapshot.info.group_id == id {
                proof {
                    lemma_first_where_at(views(self.groups@), is_group(id), i as int);
                }
                return Some(i);
            }
            i += 1;
        }
        proof {
            lemma_first_where_at(views(self.groups@), is_group(id), i as int);
        }
        None
    }

    /// Where the group that `leader` leads stands.
    pub fn find_led_group(&self, leader: PlayerId) -> (r: Option<usize>)
        ensures
            match r {
                Some(i) => led_group_index(self@.groups, leader) == Some(i as int) && i
                    < self.groups.len(),
                None => led_group_index(self@.groups, leader) is None,
            },
    {
        let mut i: usize = 0;
        while i < self.groups.len()
            invariant
                i <= self.groups.len(),
                forall|j: int| 0 <= j < i ==> !is_led_by(leader)(views(self.groups@)[j]),
            decreases self.groups.len() - i,
        {
            if self.groups[i].snapshot.leader_id == leader {
                proof {
                    lemma_first_where_at(views(self.groups@), is_led_by(leader), i as int);
                }
                return Some(i);
            }
            i += 1;
        }
        proof {
            lemma_first_where_at(views(self.groups@), is_led_by(leader), i as int);
        }
        None
    }

    /// Where the source `id` stands.
    pub fn find_source(&self, id: SourceId) -> (r: Option<usize>)
        ensures
            match r {
                Some(i) => source_index(self@.sources, id) == Some(i as int) && i
                    < self.sources.len(),
                None => source_index(self@.sources, id) is None,
            },
    {
        let mut i: usize = 0;
        while i < self.sources.len()
            invariant
                i <= self.sources.len(),
                forall|j: int| 0 <= j < i ==> !is_source(id)(views(self.sources@)[j]),
            decreases self.sources.len() - i,
        {
            if self.sources[i].info.source_id == id {
                proof {
                    lemma_first_where_at(views(self.sources@), is_source(id), i as int);
                }
                return Some(i);
            }
            i += 1;
        }
        proof {
            lemma_first_where_at(views(self.sources@), is_source(id), i as int);
        }
        None
    }

    /// Where the playlist `id` stands.
    pub fn find_playlist(&self, id: &str) -> (r: Option<usize>)
        ensures
            match r {
                Some(i) => playlist_index(self@.playlists, id@) == Some(i as int) && i
                    < self.playlists.len(),
                None => playlist_index(self@.playlists, id@) is None,
            },
    {
        let mut i: usize = 0;
        while i < self.playlists.len()
            invariant
                i <= self.playlists.len(),
                forall|j: int| 0 <= j < i ==> !is_playlist(id@)(views(self.playlists@)[j]),
            decreases self.playlists.len() - i,
        {
            if self.playlists[i].container_id.as_str().eq(id) {
                proof {
                    lemma_first_where_at(views(self.playlists@), is_playlist(id@), i as int);
                }
                return Some(i);
            }
            i += 1;
        }
        proof {
            lemma_first_where_at(views(self.playlists@), is_playlist(id@), i as int);
        }
        None
    }
}

impl MockSource {
    /// Where the track `id` stands in the catalogue.
    pub fn find_track(&self, id: &str) -> (r: Option<usize>)
        ensures
            match r {
                Some(i) => track_index(self@.catalogue, id@) == Some(i as int) && i
                    < self.catalogue.len(),
                None => track_index(self@.catalogue, id@) is None,
            },
    {
        let mut i: usize = 0;
        while i < self.catalogue.len()
            invariant
                i <= self.catalogue.len(),
                forall|j: int| 0 <= j < i ==> !is_track(id@)(views(self.catalogue@)[j]),
            decreases self.catalogue.len() - i,
        {
            if self.catalogue[i].info.media_id.as_str().eq(id) {
                proof {
                    lemma_first_where_at(views(self.catalogue@), is_track(id@), i as int);
                }
                return Some(i);
            }
            i += 1;
        }
        proof {
            lemma_first_where_at(views(self.catalogue@), is_track(id@), i as int);
        }
        None
    }
}

} // verus!
