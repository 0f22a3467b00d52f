//! The sources that a mock system starts with.

use vstd::prelude::*;
use vstd::string::*;
use crate::data::source::{
    CriteriaId,
    SearchCriteria,
    SearchCriteriaView,
    SourceAvailable,
    SourceId,
    SourceInfo,
    SourceInfoView,
    SourceType,
};
use crate::data::url::{parse_url, url_normal_form};
use crate::mock::system::{MockHeosSystem, MockSource, MockSourceView, MockView};
use crate::views::views;

verus! {

/// An address as a source holds it: in its normal form, or as it was
/// written where it is no address.
pub open spec fn image_address(text: Seq<char>) -> Seq<char> {
    match url_normal_form(text) {
        Some(address) => address,
        None => text,
    }
}

/// A source of the system as it is delivered: nobody is signed in with it,
/// and its catalogue is empty.
pub open spec fn source_view(
    name: Seq<char>,
    image: Seq<char>,
    source_type: SourceType,
    source_id: SourceId,
    available: SourceAvailable,
    search_criteria: Seq<SearchCriteriaView>,
) -> MockSourceView {
    MockSourceView {
        info: SourceInfoView {
            name,
            image_url: image_address(image),
            source_type,
            source_id,
            available,
            service_username: None,
        },
        search_criteria,
        catalogue: Seq::empty(),
    }
}

/// A way to search without wildcards.
pub open spec fn criterion_view(
    name: Seq<char>,
    criteria: CriteriaId,
    playable: bool,
    search_prefix: Option<Seq<char>>,
) -> SearchCriteriaView {
    SearchCriteriaView { name, criteria, wildcard: false, playable, search_prefix }
}

fn criterion(
    name: &str,
    criteria: CriteriaId,
    playable: bool,
    search_prefix: Option<&str>,
) -> (r: SearchCriteria)
    ensures
        r@ == criterion_view(name@, criteria, playable, crate::text::opt_str_text(search_prefix)),
{
    SearchCriteria {
        name: String::from_str(name),
        criteria,
        wildcard: false,
        playable,
        search_prefix: match search_prefix {
            Some(prefix) => Some(String::from_str(prefix)),
            None => None,
        },
    }
}

fn source(
    name: &str,
    image: &str,
    source_type: SourceType,
    source_id: SourceId,
    available: SourceAvailable,
    search_criteria: Vec<SearchCriteria>,
) -> (r: MockSource)
    ensures
        r@ == source_view(
            name@,
            image@,
            source_type,
            source_id,
            available,
            views(search_criteria@),
        ),
{
    let image_url = match parse_url(image) {
        Some(address) => address,
        None => String::from_str(image),
    };
    let r = MockSource {
        info: SourceInfo {
            name: String::from_str(name),
            image_url,
            source_type,
            source_id,
            available,
            service_username: None,
        },
        search_criteria,
        catalogue: Vec::new(),
    };
    proof {
        assert(r@.catalogue =~= Seq::empty());
    }
    r
}

/// The ways to search by artist, album, track.
pub open spec fn artist_album_track_playable_views() -> Seq<SearchCriteriaView> {
    seq![
        criterion_view("Artist"@, CriteriaId::Artist, false, None),
        criterion_view("Album"@, CriteriaId::Album, false, None),
        criterion_view("Track"@, CriteriaId::Track, true, Some("SEARCHED_TRACKS-"@)),
    ]
}

fn artist_album_track_playable() -> (r: Vec<SearchCriteria>)
    ensures
        views(r@) == artist_album_track_playable_views(),
{
    let mut r: Vec<SearchCriteria> = Vec::new();
    r.push(criterion("Artist", CriteriaId::Artist, false, None));
    r.push(criterion("Album", CriteriaId::Album, false, None));
    r.push(criterion("Track", CriteriaId::Track, true, Some("SEARCHED_TRACKS-")));
    assert(views(r@) =~= artist_album_track_playable_views());
    r
}

/// The ways to search by station.
pub open spec fn station_views() -> Seq<SearchCriteriaView> {
    seq![
        criterion_view("Station"@, CriteriaId::Station, false, None),
    ]
}

fn station() -> (r: Vec<SearchCriteria>)
    ensures
        views(r@) == station_views(),
{
    let mut r: Vec<SearchCriteria> = Vec::new();
    r.push(criterion("Station", CriteriaId::Station, false, None));
    assert(views(r@) =~= station_views());
    r
}

/// The ways to search by artist, album, track.
pub open spec fn artist_album_track_views() -> Seq<SearchCriteriaView> {
    seq![
        criterion_view("Artist"@, CriteriaId::Artist, false, None),
        criterion_view("Album"@, CriteriaId::Album, false, None),
        criterion_view("Track"@, CriteriaId::Track, false, None),
    ]
}

fn artist_album_track() -> (r: Vec<SearchCriteria>)
    ensures
        views(r@) == artist_album_track_views(),
{
    let mut r: Vec<SearchCriteria> = Vec::new();
    r.push(criterion("Artist", CriteriaId::Artist, false, None));
    r.push(criterion("Album", CriteriaId::Album, false, None));
    r.push(criterion("Track", CriteriaId::Track, false, None));
    assert(views(r@) =~= artist_album_track_views());
    r
}

/// The ways to search by artist, shows, track.
pub open spec fn artist_shows_track_views() -> Seq<SearchCriteriaView> {
    seq![
        criterion_view("Artist"@, CriteriaId::Artist, false, None),
        criterion_view("Shows"@, CriteriaId::Shows, false, None),
        criterion_view("Track"@, CriteriaId::Track, false, None),
    ]
}

fn artist_shows_track() -> (r: Vec<SearchCriteria>)
    ensures
        views(r@) == artist_shows_track_views(),
{
    let mut r: Vec<SearchCriteria> = Vec::new();
    r.push(criterion("Artist", CriteriaId::Artist, false, None));
    r.push(criterion("Shows", CriteriaId::Shows, false, None));
    r.push(criterion("Track", CriteriaId::Track, false, None));
    assert(views(r@) =~= artist_shows_track_views());
    r
}

/// The ways to search by accounts, track.
pub open spec fn accounts_track_playable_views() -> Seq<SearchCriteriaView> {
    seq![
        criterion_view("Accounts"@, CriteriaId::Accounts, false, None),
        criterion_view("Track"@, CriteriaId::Track, true, Some("SEARCHED_TRACKS-"@)),
    ]
}

fn accounts_track_playable() -> (r: Vec<SearchCriteria>)
    ensures
        views(r@) == accounts_track_playable_views(),
{
    let mut r: Vec<SearchCriteria> = Vec::new();
    r.push(criterion("Accounts", CriteriaId::Accounts, false, None));
    r.push(criterion("Track", CriteriaId::Track, true, Some("SEARCHED_TRACKS-")));
    assert(views(r@) =~= accounts_track_playable_views());
    r
}

/// The ways to search by artist, album, track, playlist.
pub open spec fn artist_album_track_playlist_playable_views() -> Seq<SearchCriteriaView> {
    seq![
        criterion_view("Artist"@, CriteriaId::Artist, false, None),
        criterion_view("Album"@, CriteriaId::Album, false, None),
        criterion_view("Track"@, CriteriaId::Track, true, Some("SEARCHED_TRACKS-"@)),
        criterion_view("Playlist"@, CriteriaId::Playlist, false, None),
    ]
}

fn artist_album_track_playlist_playable() -> (r: Vec<SearchCriteria>)
    ensures
        views(r@) == artist_album_track_playlist_playable_views(),
{
    let mut r: Vec<SearchCriteria> = Vec::new();
    r.push(criterion("Artist", CriteriaId::Artist, false, None));
    r.push(criterion("Album", CriteriaId::Album, false, None));
    r.push(criterion("Track", CriteriaId::Track, true, Some("SEARCHED_TRACKS-")));
    r.push(criterion("Playlist", CriteriaId::Playlist, false, None));
    assert(views(r@) =~= artist_album_track_playlist_playable_views());
    r
}

/// The sources of a system as it is delivered, in the order of their
/// identifiers.
pub open spec fn default_sources() -> Seq<MockSourceView> {
    seq![
        source_view(
            "Pandora"@,
            "https://production.ws.skyegloup.com:443/media/images/service/logos/pandora.png"@,
            SourceType::MusicService,
            SourceId::Pandora,
            SourceAvailable::False,
            Seq::empty(),
        ),
        source_view(
            "Rhapsody"@,
            "https://production.ws.skyegloup.com:443/media/images/service/logos/rhapsody.png"@,
            SourceType::MusicService,
            SourceId::Rhapsody,
            SourceAvailable::False,
            artist_album_track_playable_views(),
        ),
        source_view(
            "TuneIn"@,
            "https://production.ws.skyegloup.com:443/media/images/service/logos/tunein.png"@,
            SourceType::MusicService,
            SourceId::TuneIn,
            SourceAvailable::False,
            station_views(),
        ),
        source_view(
            "Spotify"@,
            "data:text/NoImageUrlHasBeenSet"@,
            SourceType::MusicService,
            SourceId::Spotify,
            SourceAvailable::False,
            Seq::empty(),
        ),
        source_view(
            "Deezer"@,
            "https://production.ws.skyegloup.com:443/media/images/service/logos/deezer.png"@,
            SourceType::MusicService,
            SourceId::Deezer,
            SourceAvailable::False,
            artist_album_track_views(),
        ),
        source_view(
            "Napster"@,
            "data:text/NoImageUrlHasBeenSet"@,
            SourceType::MusicService,
            SourceId::Napster,
            SourceAvailable::False,
            Seq::empty(),
        ),
        source_view(
            "iHeartRadio"@,
            "https://production.ws.skyegloup.com:443/media/images/service/logos/iheartradio.png"@,
            SourceType::MusicService,
            SourceId::IHeartRadio,
            SourceAvailable::False,
            artist_shows_track_views(),
        ),
        source_view(
            "Sirius XM"@,
            "https://production.ws.skyegloup.com:443/media/images/service/logos/siriusxm.png"@,
            SourceType::MusicService,
            SourceId::SiriusXm,
            SourceAvailable::False,
            Seq::empty(),
        ),
        source_view(
            "Soundcloud"@,
            "https://production.ws.skyegloup.com:443/media/images/service/logos/soundcloud.png"@,
            SourceType::MusicService,
            SourceId::Soundcloud,
            SourceAvailable::False,
            accounts_track_playable_views(),
        ),
        source_view(
            "Tidal"@,
            "https://production.ws.skyegloup.com:443/media/images/service/logos/tidal.png"@,
            SourceType::MusicService,
            SourceId::Tidal,
            SourceAvailable::False,
            artist_album_track_playlist_playable_views(),
        ),
        source_view(
            "Amazon Music"@,
            "https://production.ws.skyegloup.com:443/media/images/service/logos/amazon.png"@,
            SourceType::MusicService,
            SourceId::AmazonMusic,
            SourceAvailable::False,
            Seq::empty(),
        ),
        source_view(
            "Moodmix"@,
            "data:text/NoImageUrlHasBeenSet"@,
            SourceType::MusicService,
            SourceId::Moodmix,
            SourceAvailable::False,
            Seq::empty(),
        ),
        source_view(
            "QQMusic"@,
            "data:text/NoImageUrlHasBeenSet"@,
            SourceType::MusicService,
            SourceId::QQMusic,
            SourceAvailable::False,
            Seq::empty(),
        ),
        source_view(
            "Qobuz"@,
            "https://production.ws.skyegloup.com:443/media/images/service/logos/qobuz.png"@,
            SourceType::MusicService,
            SourceId::Qobuz,
            SourceAvailable::False,
            artist_album_track_playlist_playable_views(),
        ),
        source_view(
            "Local Music"@,
            "https://production.ws.skyegloup.com:443/media/images/service/logos/musicsource_logo_servers.png"@,
            SourceType::HeosServer,
            SourceId::LocalUsbOrDlna,
            SourceAvailable::True,
            Seq::empty(),
        ),
        source_view(
            "HEOS Playlists"@,
            "https://production.ws.skyegloup.com:443/media/images/service/logos/musicsource_logo_playlists.png"@,
            SourceType::HeosService,
            SourceId::HeosPlaylists,
            SourceAvailable::True,
            Seq::empty(),
        ),
        source_view(
            "HEOS History"@,
            "https://production.ws.skyegloup.com:443/media/images/service/logos/musicsource_logo_history.png"@,
            SourceType::HeosService,
            SourceId::HeosHistory,
            SourceAvailable::True,
            Seq::empty(),
        ),
        source_view(
            "HEOS AUX Inputs"@,
            "https://production.ws.skyegloup.com:443/media/images/service/logos/musicsource_logo_aux.png"@,
            SourceType::HeosService,
            SourceId::HeosAuxInputs,
            SourceAvailable::True,
            Seq::empty(),
        ),
        source_view(
            "HEOS Favorites"@,
            "https://production.ws.skyegloup.com:443/media/images/service/logos/musicsource_logo_favorites.png"@,
            SourceType::HeosService,
            SourceId::HeosFavorites,
            SourceAvailable::True,
            Seq::empty(),
        ),
    ]
}

fn no_criteria() -> (r: Vec<SearchCriteria>)
    ensures
        views(r@) == Seq::<SearchCriteriaView>::empty(),
{
    let r: Vec<SearchCriteria> = Vec::new();
    assert(views(r@) =~= Seq::<SearchCriteriaView>::empty());
    r
}

/// The sources of a system as it is delivered.
pub fn get_default_sources() -> (r: Vec<MockSource>)
    ensures
        views(r@) == default_sources(),
{
    let mut r: Vec<MockSource> = Vec::new();
    r.push(
        source(
            "Pandora",
            "https://production.ws.skyegloup.com:443/media/images/service/logos/pandora.png",
            SourceType::MusicService,
            SourceId::Pandora,
            SourceAvailable::False,
            no_criteria(),
        ),
    );
    r.push(
        source(
            "Rhapsody",
            "https://production.ws.skyegloup.com:443/media/images/service/logos/rhapsody.png",
            SourceType::MusicService,
            SourceId::Rhapsody,
            SourceAvailable::False,
            artist_album_track_playable(),
        ),
    );
    r.push(
        source(
            "TuneIn",
            "https://production.ws.skyegloup.com:443/media/images/service/logos/tunein.png",
            SourceType::MusicService,
            SourceId::TuneIn,
            SourceAvailable::False,
            station(),
        ),
    );
    r.push(
        source(
            "Spotify",
            "data:text/NoImageUrlHasBeenSet",
            SourceType::MusicService,
            SourceId::Spotify,
            SourceAvailable::False,
            no_criteria(),
        ),
    );
    r.push(
        source(
            "Deezer",
            "https://production.ws.skyegloup.com:443/media/images/service/logos/deezer.png",
            SourceType::MusicService,
            SourceId::Deezer,
            SourceAvailable::False,
            artist_album_track(),
        ),
    );
    r.push(
        source(
            "Napster",
            "data:text/NoImageUrlHasBeenSet",
            SourceType::MusicService,
            SourceId::Napster,
            SourceAvailable::False,
            no_criteria(),
        ),
    );
    r.push(
        source(
            "iHeartRadio",
            "https://production.ws.skyegloup.com:443/media/images/service/logos/iheartradio.png",
            SourceType::MusicService,
            SourceId::IHeartRadio,
            SourceAvailable::False,
            artist_shows_track(),
        ),
    );
    r.push(
        source(
            "Sirius XM",
            "https://production.ws.skyegloup.com:443/media/images/service/logos/siriusxm.png",
            SourceType::MusicService,
            SourceId::SiriusXm,
            SourceAvailable::False,
            no_criteria(),
        ),
    );
    r.push(
        source(
            "Soundcloud",
            "https://production.ws.skyegloup.com:443/media/images/service/logos/soundcloud.png",
            SourceType::MusicService,
            SourceId::Soundcloud,
            SourceAvailable::False,
            accounts_track_playable(),
        ),
    );
    r.push(
        source(
            "Tidal",
            "https://production.ws.skyegloup.com:443/media/images/service/logos/tidal.png",
            SourceType::MusicService,
            SourceId::Tidal,
            SourceAvailable::False,
            artist_album_track_playlist_playable(),
        ),
    );
    r.push(
        source(
            "Amazon Music",
            "https://production.ws.skyegloup.com:443/media/images/service/logos/amazon.png",
            SourceType::MusicService,
            SourceId::AmazonMusic,
            SourceAvailable::False,
            no_criteria(),
        ),
    );
    r.push(
        source(
            "Moodmix",
            "data:text/NoImageUrlHasBeenSet",
            SourceType::MusicService,
            SourceId::Moodmix,
            SourceAvailable::False,
            no_criteria(),
        ),
    );
    r.push(
        source(
            "QQMusic",
            "data:text/NoImageUrlHasBeenSet",
            SourceType::MusicService,
            SourceId::QQMusic,
            SourceAvailable::False,
            no_criteria(),
        ),
    );
    r.push(
        source(
            "Qobuz",
            "https://production.ws.skyegloup.com:443/media/images/service/logos/qobuz.png",
            SourceType::MusicService,
            SourceId::Qobuz,
            SourceAvailable::False,
            artist_album_track_playlist_playable(),
        ),
    );
    r.push(
        source(
            "Local Music",
            "https://production.ws.skyegloup.com:443/media/images/service/logos/musicsource_logo_servers.png",
            SourceType::HeosServer,
            SourceId::LocalUsbOrDlna,
            SourceAvailable::True,
            no_criteria(),
        ),
    );
    r.push(
        source(
            "HEOS Playlists",
            "https://production.ws.skyegloup.com:443/media/images/service/logos/musicsource_logo_playlists.png",
            SourceType::HeosService,
            SourceId::HeosPlaylists,
            SourceAvailable::True,
            no_criteria(),
        ),
    );
    r.push(
        source(
            "HEOS History",
            "https://production.ws.skyegloup.com:443/media/images/service/logos/musicsource_logo_history.png",
            SourceType::HeosService,
            SourceId::HeosHistory,
            SourceAvailable::True,
            no_criteria(),
        ),
    );
    r.push(
        source(
            "HEOS AUX Inputs",
            "https://production.ws.skyegloup.com:443/media/images/service/logos/musicsource_logo_aux.png",
            SourceType::HeosService,
            SourceId::HeosAuxInputs,
            SourceAvailable::True,
            no_criteria(),
        ),
    );
    r.push(
        source(
            "HEOS Favorites",
            "https://production.ws.skyegloup.com:443/media/images/service/logos/musicsource_logo_favorites.png",
            SourceType::HeosService,
            SourceId::HeosFavorites,
            SourceAvailable::True,
            no_criteria(),
        ),
    );
    assert(views(r@) =~= default_sources());
    r
}

impl Default for MockHeosSystem {
    /// A system as it is delivered: nobody is signed in, there are no
    /// players, groups or playlists, and the sources are those that every
    /// system has.
    fn default() -> (r: Self)
        ensures
            r@ == (MockView {
                username: None,
                players: Seq::empty(),
                groups: Seq::empty(),
                sources: default_sources(),
                playlists: Seq::empty(),
                next_playlist_num: 0,
            }),
    {
        let mut r = MockHeosSystem::empty();
        r.sources = get_default_sources();
        r
    }
}

} // verus!
