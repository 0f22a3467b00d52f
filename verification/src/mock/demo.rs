//! A small system for examples: three grouped players, two players of
//! their own, a playlist, and a song to add to a queue.

use vstd::prelude::*;
use vstd::string::*;
use crate::data::group::{GroupId, GroupInfo, GroupPlayer, GroupPlayerView, GroupRole};
use crate::data::player::{LineOutControlType, LineOutType, NetworkType, PlayerId, PlayerInfo};
use crate::data::queue::{NowPlayingInfo, QueueId, QueuedTrackInfo, TrackView};
use crate::data::source::SourceId;
use crate::mock::channel::MockChannel;
use crate::mock::player::queue_in_order;
use crate::mock::system::{
    is_leader,
    MockGroup,
    MockHeosSystem,
    MockPlayer,
    MockPlayerView,
    MockPlaylist,
    MockTrack,
};
use crate::state::player::{NowPlaying, NowPlayingProgress};
use crate::text::opt_str_text;
use crate::views::{lemma_first_where_at, views};

verus! {

fn player_info(
    name: &str,
    id: i64,
    group: Option<GroupId>,
    model: &str,
    version: &str,
    ip: &str,
    network: NetworkType,
    line_out: LineOutType,
    line_out_control: Option<LineOutControlType>,
) -> (r: PlayerInfo)
    ensures
        r.player_id == PlayerId(id),
        r.name@ == name@,
        r.group_id == group,
        r.ip@ == ip@,
{
    PlayerInfo {
        name: String::from_str(name),
        player_id: PlayerId(id),
        group_id: group,
        model: String::from_str(model),
        version: String::from_str(version),
        ip: String::from_str(ip),
        network,
        line_out,
        line_out_control,
        serial: None,
    }
}

fn track(
    song: &str,
    album: &str,
    artist: &str,
    media_id: &str,
    place: u64,
    album_id: Option<&str>,
) -> (r: QueuedTrackInfo)
    ensures
        r@ == (TrackView {
            song: song@,
            album: album@,
            artist: artist@,
            image_url: None,
            media_id: media_id@,
            queue_id: QueueId(place),
            album_id: opt_str_text(album_id),
        }),
{
    QueuedTrackInfo {
        song: String::from_str(song),
        album: String::from_str(album),
        artist: String::from_str(artist),
        image_url: None,
        media_id: String::from_str(media_id),
        queue_id: QueueId(place),
        album_id: match album_id {
            Some(id) => Some(String::from_str(id)),
            None => None,
        },
    }
}

fn group_player(name: &str, id: i64, role: GroupRole) -> (r: GroupPlayer)
    ensures
        r@ == (GroupPlayerView { name: name@, player_id: PlayerId(id), role }),
{
    GroupPlayer { name: String::from_str(name), player_id: PlayerId(id), role }
}

/// The identifiers of the players of the example system, in the order of
/// its table.
pub open spec fn doctest_players() -> Seq<PlayerId> {
    seq![PlayerId(1), PlayerId(2), PlayerId(3), PlayerId(42), PlayerId(43)]
}

/// The players of the one group of the example system.
pub open spec fn doctest_group_players() -> Seq<GroupPlayerView> {
    seq![
        GroupPlayerView { name: "Player1"@, player_id: PlayerId(1), role: GroupRole::Leader },
        GroupPlayerView { name: "Player2"@, player_id: PlayerId(2), role: GroupRole::Member },
        GroupPlayerView { name: "Player3"@, player_id: PlayerId(3), role: GroupRole::Member },
    ]
}

/// The queue of the player 42 of the example system.
pub open spec fn doctest_queue() -> Seq<TrackView> {
    Seq::new(
        4,
        |i: int|
            TrackView {
                song: "Song"@ + crate::text::nat_text((i + 1) as nat),
                album: "QueuedSongs"@,
                artist: "QueuedArtist"@,
                image_url: None,
                media_id: "queued-song-"@ + crate::text::nat_text((i + 1) as nat),
                queue_id: QueueId((i + 1) as u64),
                album_id: Some("queued-album-id"@),
            },
    )
}

/// A channel to the example system.
///
/// The system has the sources of every system. Players 1, 2 and 3 form
/// the group 1, which player 1 leads. Players 42 and 43 stand alone.
/// Player 42 plays a song of nine thousand and one seconds and has four
/// songs queued. There is one playlist, `playlist-id`, with one song, and
/// the local music holds one song, `new-song-id`, of 123 seconds.
pub fn create_doctest_channel() -> (r: MockChannel)
    ensures
        r.system@.username is None,
        r.system@.players.map_values(|p: MockPlayerView| p.snapshot.info.player_id)
            == doctest_players(),
        r.system@.groups.len() == 1,
        r.system@.groups[0].info.group_id == GroupId(1),
        r.system@.groups[0].info.name == "Group1"@,
        r.system@.groups[0].info.players == doctest_group_players(),
        r.system@.groups[0].leader_id == PlayerId(1),
        r.system@.players[3].snapshot.queue == doctest_queue(),
        r.system@.players[3].snapshot.now_playing.progress == (NowPlayingProgress {
            elapsed: 0,
            duration: 9_001_000,
            baseline: None,
        }),
        queue_in_order(r.system@.players[3].snapshot),
        r.system@.playlists.len() == 1,
        r.system@.playlists[0].container_id == "playlist-id"@,
        r.system@.playlists[0].name == "My Playlist"@,
        r.system@.playlists[0].tracks.len() == 1,
        r.system@.sources.len() == crate::mock::defaults::default_sources().len(),
{
    let mut system = MockHeosSystem::default();
    proof {
        assert(system.players@.len() == views(system.players@).len());
        assert(system.groups@.len() == views(system.groups@).len());
        assert(system.playlists@.len() == views(system.playlists@).len());
        assert(system.sources@.len() == views(system.sources@).len());
    }
    let group = Some(GroupId(1));
    system.players.push(
        MockPlayer::new(
            player_info(
                "Player1",
                1,
                group,
                "BasicPlayer",
                "1",
                "192.168.0.1",
                NetworkType::Wired,
                LineOutType::Unavailable,
                None,
            ),
        ),
    );
    system.players.push(
        MockPlayer::new(
            player_info(
                "Player2",
                2,
                group,
                "BasicPlayer",
                "1",
                "192.168.0.2",
                NetworkType::WiFi,
                LineOutType::Fixed,
                Some(LineOutControlType::Network),
            ),
        ),
    );
    system.players.push(
        MockPlayer::new(
            player_info(
                "Player3",
                3,
                group,
                "BasicPlayer",
                "1",
                "192.168.0.3",
                NetworkType::Unknown,
                LineOutType::Variable,
                None,
            ),
        ),
    );
    let mut members: Vec<GroupPlayer> = Vec::new();
    members.push(group_player("Player1", 1, GroupRole::Leader));
    members.push(group_player("Player2", 2, GroupRole::Member));
    members.push(group_player("Player3", 3, GroupRole::Member));
    proof {
        assert(views(members@) =~= doctest_group_players());
        lemma_first_where_at(doctest_group_players(), is_leader(), 0);
    }
    let info = GroupInfo {
        name: String::from_str("Group1"),
        group_id: GroupId(1),
        players: members,
    };
    system.groups.push(MockGroup::new(info));

    let mut player = MockPlayer::new(
        player_info(
            "Player42",
            42,
            None,
            "AQuestion",
            "Everything",
            "192.168.0.42",
            NetworkType::Wired,
            LineOutType::Variable,
            None,
        ),
    );
    player.snapshot.now_playing = NowPlaying {
        info: NowPlayingInfo::Song {
            info: track(
                "TheCurrentSong",
                "TheCurrentAlbum",
                "TheCurrentArtist",
                "current-media-id",
                0,
                Some("current-album-id"),
            ),
            source_id: SourceId::Pandora,
        },
        progress: NowPlayingProgress::new(9_001_000),
    };
    assert(player.snapshot.queue@.len() == views(player.snapshot.queue@).len());
    let mut n: u64 = 1;
    while n <= 4
        invariant
            1 <= n <= 5,
            player.snapshot.queue.len() == n - 1,
            forall|i: int|
                0 <= i < n - 1 ==> (#[trigger] player.snapshot.queue@[i])@ == doctest_queue()[i],
            player@.snapshot.now_playing.info.track().queue_id == QueueId(0),
            player.snapshot.now_playing.progress == (NowPlayingProgress {
                elapsed: 0,
                duration: 9_001_000,
                baseline: None,
            }),
            player.snapshot.info.player_id == PlayerId(42),
        decreases 5 - n,
    {
        let number = crate::text::u64_to_string(n);
        let song = crate::text::concat2("Song", number.as_str());
        let media_id = crate::text::concat2("queued-song-", number.as_str());
        player.snapshot.queue.push(
            track(
                song.as_str(),
                "QueuedSongs",
                "QueuedArtist",
                media_id.as_str(),
                n,
                Some("queued-album-id"),
            ),
        );
        n += 1;
    }
    proof {
        assert(views(player.snapshot.queue@) =~= doctest_queue());
    }
    system.players.push(player);
    system.players.push(
        MockPlayer::new(
            player_info(
                "Player43",
                43,
                None,
                "AQuestion",
                "Everything",
                "192.168.0.43",
                NetworkType::WiFi,
                LineOutType::Unavailable,
                None,
            ),
        ),
    );

    let mut playlist = MockPlaylist::new(
        String::from_str("playlist-id"),
        String::from_str("My Playlist"),
    );
    playlist.tracks.push(
        track(
            "PlaylistSong1",
            "PlaylistSongs",
            "PlaylistArtist",
            "playlist-song-1",
            0,
            Some("playlist-album-id"),
        ),
    );
    system.playlists.push(playlist);

    match system.find_source(SourceId::LocalUsbOrDlna) {
        Some(at) => {
            system.sources[at].catalogue.push(
                MockTrack::new(
                    track("NewSong", "", "NewArtist", "new-song-id", 0, None),
                    SourceId::LocalUsbOrDlna,
                    123_000,
                ),
            );
        },
        None => {},
    }
    proof {
        let ids = system@.players.map_values(|p: MockPlayerView| p.snapshot.info.player_id);
        assert(system.players@.len() == 5);
        assert(ids[0] == system.players@[0].snapshot.info.player_id);
        assert(ids[1] == system.players@[1].snapshot.info.player_id);
        assert(ids[2] == system.players@[2].snapshot.info.player_id);
        assert(ids[3] == system.players@[3].snapshot.info.player_id);
        assert(ids[4] == system.players@[4].snapshot.info.player_id);
        assert(ids =~= doctest_players());
    }
    MockChannel::new(system)
}

} // verus!
