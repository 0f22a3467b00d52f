//! Service options: what a music service lets a user do with an item
//! beyond playing it.

use vstd::prelude::*;
use vstd::string::*;
use crate::command::error::{CommandError, CommandErrorView};
use crate::command::raw::{with_param, Params, RawCommand, RawCommandView};
use crate::command::ser::{range_text, range_to_string, with_opt_param};
use crate::data::codec::{decode_each, lemma_decode_each_prefix, member_code};
use crate::data::item::{SearchResults, SourceItem};
use crate::data::player::PlayerId;
use crate::data::queue::NowPlayingInfo;
use crate::data::response::{RawResponse, RawResponseView};
use crate::json::{items_of, JsonValue, JsonView};
use crate::text::{int_text, opt_text};

verus! {

/// What to add to the favourites of the system.
#[derive(Debug)]
pub enum AddToHeosFavorites {
    /// The station that a player plays now.
    NowPlaying {
        /// The player.
        player_id: PlayerId,
    },
    /// A station found by browsing.
    Browse {
        /// Identifier of the station.
        media_id: String,
        /// Name of the station.
        name: String,
    },
}

/// A service option with what it applies to.
#[derive(Debug)]
pub enum ServiceOption {
    /// Add a track to the library of the user.
    AddTrackToLibrary { media_id: String },
    /// Add an album to the library of the user.
    AddAlbumToLibrary { container_id: String },
    /// Add a station to the library of the user.
    AddStationToLibrary { media_id: String },
    /// Add a playlist to the library of the user.
    AddPlaylistToLibrary { container_id: String, name: String },
    /// Remove a track from the library of the user.
    RemoveTrackFromLibrary { media_id: String },
    /// Remove an album from the library of the user.
    RemoveAlbumFromLibrary { container_id: String },
    /// Remove a station from the library of the user.
    RemoveStationFromLibrary { media_id: String },
    /// Remove a playlist from the library of the user.
    RemovePlaylistFromLibrary { container_id: String },
    /// Approve of the track that a player plays.
    ThumbsUp { player_id: PlayerId },
    /// Disapprove of the track that a player plays.
    ThumbsDown { player_id: PlayerId },
    /// Make a station from a search.
    CreateNewStation {
        /// The search text.
        name: String,
        /// What was searched for, where the service asks for it.
        criteria: Option<String>,
        /// First and last result to use, both included.
        range: Option<(usize, usize)>,
    },
    /// Add a station to the favourites of the system.
    AddToHeosFavorites(AddToHeosFavorites),
    /// Remove a station from the favourites of the system.
    RemoveFromHeosFavorites { media_id: String },
}

/// A `ServiceOption` as plain values.
pub ghost enum ServiceOptionView {
    AddTrackToLibrary { media_id: Seq<char> },
    AddAlbumToLibrary { container_id: Seq<char> },
    AddStationToLibrary { media_id: Seq<char> },
    AddPlaylistToLibrary { container_id: Seq<char>, name: Seq<char> },
    RemoveTrackFromLibrary { media_id: Seq<char> },
    RemoveAlbumFromLibrary { container_id: Seq<char> },
    RemoveStationFromLibrary { media_id: Seq<char> },
    RemovePlaylistFromLibrary { container_id: Seq<char> },
    ThumbsUp { player_id: PlayerId },
    ThumbsDown { player_id: PlayerId },
    CreateNewStation {
        name: Seq<char>,
        criteria: Option<Seq<char>>,
        range: Option<(usize, usize)>,
    },
    FavoriteNowPlaying { player_id: PlayerId },
    FavoriteBrowsed { media_id: Seq<char>, name: Seq<char> },
    RemoveFromHeosFavorites { media_id: Seq<char> },
}

impl View for ServiceOption {
    type V = ServiceOptionView;

    open spec fn view(&self) -> ServiceOptionView {
        match self {
            ServiceOption::AddTrackToLibrary { media_id } => ServiceOptionView::AddTrackToLibrary {
                media_id: media_id@,
            },
            ServiceOption::AddAlbumToLibrary { container_id } => ServiceOptionView::AddAlbumToLibrary {
                container_id: container_id@,
            },
            ServiceOption::AddStationToLibrary {
                media_id,
            } => ServiceOptionView::AddStationToLibrary { media_id: media_id@ },
            ServiceOption::AddPlaylistToLibrary {
                container_id,
                name,
            } => ServiceOptionView::AddPlaylistToLibrary {
                container_id: container_id@,
                name: name@,
            },
            ServiceOption::RemoveTrackFromLibrary {
                media_id,
            } => ServiceOptionView::RemoveTrackFromLibrary { media_id: media_id@ },
            ServiceOption::RemoveAlbumFromLibrary {
                container_id,
            } => ServiceOptionView::RemoveAlbumFromLibrary { container_id: container_id@ },
            ServiceOption::RemoveStationFromLibrary {
                media_id,
            } => ServiceOptionView::RemoveStationFromLibrary { media_id: media_id@ },
            ServiceOption::RemovePlaylistFromLibrary {
                container_id,
            } => ServiceOptionView::RemovePlaylistFromLibrary { container_id: container_id@ },
            ServiceOption::ThumbsUp { player_id } => ServiceOptionView::ThumbsUp {
                player_id: *player_id,
            },
            ServiceOption::ThumbsDown { player_id } => ServiceOptionView::ThumbsDown {
                player_id: *player_id,
            },
            ServiceOption::CreateNewStation {
                name,
                criteria,
                range,
            } => ServiceOptionView::CreateNewStation {
                name: name@,
                criteria: opt_text(*criteria),
                range: *range,
            },
            ServiceOption::AddToHeosFavorites(
                AddToHeosFavorites::NowPlaying { player_id },
            ) => ServiceOptionView::FavoriteNowPlaying { player_id: *player_id },
            ServiceOption::AddToHeosFavorites(
                AddToHeosFavorites::Browse { media_id, name },
            ) => ServiceOptionView::FavoriteBrowsed { media_id: media_id@, name: name@ },
            ServiceOption::RemoveFromHeosFavorites {
                media_id,
            } => ServiceOptionView::RemoveFromHeosFavorites { media_id: media_id@ },
        }
    }
}

/// The kinds of service option.
#[derive(Clone, Copy, Debug, PartialEq, Eq, Hash, Structural)]
pub enum ServiceOptionType {
    /// See `ServiceOption::AddTrackToLibrary`.
    AddTrackToLibrary,
    /// See `ServiceOption::AddAlbumToLibrary`.
    AddAlbumToLibrary,
    /// See `ServiceOption::AddStationToLibrary`.
    AddStationToLibrary,
    /// See `ServiceOption::AddPlaylistToLibrary`.
    AddPlaylistToLibrary,
    /// See `ServiceOption::RemoveTrackFromLibrary`.
    RemoveTrackFromLibrary,
    /// See `ServiceOption::RemoveAlbumFromLibrary`.
    RemoveAlbumFromLibrary,
    /// See `ServiceOption::RemoveStationFromLibrary`.
    RemoveStationFromLibrary,
    /// See `ServiceOption::RemovePlaylistFromLibrary`.
    RemovePlaylistFromLibrary,
    /// See `ServiceOption::ThumbsUp`.
    ThumbsUp,
    /// See `ServiceOption::ThumbsDown`.
    ThumbsDown,
    /// See `ServiceOption::CreateNewStation`.
    CreateNewStation,
    /// See `ServiceOption::AddToHeosFavorites`.
    AddToHeosFavorites,
    /// See `ServiceOption::RemoveFromHeosFavorites`.
    RemoveFromHeosFavorites,
    /// The container that was browsed can be played as a whole.
    PlayableContainer,
}

impl ServiceOptionType {
    /// The number of this kind of option on the wire.
    pub open spec fn code(self) -> int {
        match self {
            ServiceOptionType::AddTrackToLibrary => 1,
            ServiceOptionType::AddAlbumToLibrary => 2,
            ServiceOptionType::AddStationToLibrary => 3,
            ServiceOptionType::AddPlaylistToLibrary => 4,
            ServiceOptionType::RemoveTrackFromLibrary => 5,
            ServiceOptionType::RemoveAlbumFromLibrary => 6,
            ServiceOptionType::RemoveStationFromLibrary => 7,
            ServiceOptionType::RemovePlaylistFromLibrary => 8,
            ServiceOptionType::ThumbsUp => 11,
            ServiceOptionType::ThumbsDown => 12,
            ServiceOptionType::CreateNewStation => 13,
            ServiceOptionType::AddToHeosFavorites => 19,
            ServiceOptionType::RemoveFromHeosFavorites => 20,
            ServiceOptionType::PlayableContainer => 21,
        }
    }

    /// The kind of option that a wire number stands for.
    pub open spec fn from_code(code: int) -> Option<Self> {
        if code == 1 {
            Some(ServiceOptionType::AddTrackToLibrary)
        } else if code == 2 {
            Some(ServiceOptionType::AddAlbumToLibrary)
        } else if code == 3 {
            Some(ServiceOptionType::AddStationToLibrary)
        } else if code == 4 {
            Some(ServiceOptionType::AddPlaylistToLibrary)
        } else if code == 5 {
            Some(ServiceOptionType::RemoveTrackFromLibrary)
        } else if code == 6 {
            Some(ServiceOptionType::RemoveAlbumFromLibrary)
        } else if code == 7 {
            Some(ServiceOptionType::RemoveStationFromLibrary)
        } else if code == 8 {
            Some(ServiceOptionType::RemovePlaylistFromLibrary)
        } else if code == 11 {
            Some(ServiceOptionType::ThumbsUp)
        } else if code == 12 {
            Some(ServiceOptionType::ThumbsDown)
        } else if code == 13 {
            Some(ServiceOptionType::CreateNewStation)
        } else if code == 19 {
            Some(ServiceOptionType::AddToHeosFavorites)
        } else if code == 20 {
            Some(ServiceOptionType::RemoveFromHeosFavorites)
        } else if code == 21 {
            Some(ServiceOptionType::PlayableContainer)
        } else {
            None
        }
    }

    /// The kind of a service option.
    pub open spec fn of(option: ServiceOptionView) -> Self {
        match option {
            ServiceOptionView::AddTrackToLibrary { .. } => ServiceOptionType::AddTrackToLibrary,
            ServiceOptionView::AddAlbumToLibrary { .. } => ServiceOptionType::AddAlbumToLibrary,
            ServiceOptionView::AddStationToLibrary { .. } => ServiceOptionType::AddStationToLibrary,
            ServiceOptionView::AddPlaylistToLibrary { .. } => ServiceOptionType::AddPlaylistToLibrary,
            ServiceOptionView::RemoveTrackFromLibrary {
                ..
            } => ServiceOptionType::RemoveTrackFromLibrary,
            ServiceOptionView::RemoveAlbumFromLibrary {
                ..
            } => ServiceOptionType::RemoveAlbumFromLibrary,
            ServiceOptionView::RemoveStationFromLibrary {
                ..
            } => ServiceOptionType::RemoveStationFromLibrary,
            ServiceOptionView::RemovePlaylistFromLibrary {
                ..
            } => ServiceOptionType::RemovePlaylistFromLibrary,
            ServiceOptionView::ThumbsUp { .. } => ServiceOptionType::ThumbsUp,
            ServiceOptionView::ThumbsDown { .. } => ServiceOptionType::ThumbsDown,
            ServiceOptionView::CreateNewStation { .. } => ServiceOptionType::CreateNewStation,
            ServiceOptionView::FavoriteNowPlaying { .. } => ServiceOptionType::AddToHeosFavorites,
            ServiceOptionView::FavoriteBrowsed { .. } => ServiceOptionType::AddToHeosFavorites,
            ServiceOptionView::RemoveFromHeosFavorites {
                ..
            } => ServiceOptionType::RemoveFromHeosFavorites,
        }
    }

    /// Reads a wire number.
    pub fn try_from(id: i64) -> (r: Option<Self>)
        ensures
            r == Self::from_code(id as int),
    {
        if id == 1 {
            Some(ServiceOptionType::AddTrackToLibrary)
        } else if id == 2 {
            Some(ServiceOptionType::AddAlbumToLibrary)
        } else if id == 3 {
            Some(ServiceOptionType::AddStationToLibrary)
        } else if id == 4 {
            Some(ServiceOptionType::AddPlaylistToLibrary)
        } else if id == 5 {
            Some(ServiceOptionType::RemoveTrackFromLibrary)
        } else if id == 6 {
            Some(ServiceOptionType::RemoveAlbumFromLibrary)
        } else if id == 7 {
            Some(ServiceOptionType::RemoveStationFromLibrary)
        } else if id == 8 {
            Some(ServiceOptionType::RemovePlaylistFromLibrary)
        } else if id == 11 {
            Some(ServiceOptionType::ThumbsUp)
        } else if id == 12 {
            Some(ServiceOptionType::ThumbsDown)
        } else if id == 13 {
            Some(ServiceOptionType::CreateNewStation)
        } else if id == 19 {
            Some(ServiceOptionType::AddToHeosFavorites)
        } else if id == 20 {
            Some(ServiceOptionType::RemoveFromHeosFavorites)
        } else if id == 21 {
            Some(ServiceOptionType::PlayableContainer)
        } else {
            None
        }
    }

    /// The wire number of this kind of option.
    pub fn to_code(&self) -> (r: i64)
        ensures
            r == self.code(),
            Self::from_code(r as int) == Some(*self),
    {
        match self {
            ServiceOptionType::AddTrackToLibrary => 1,
            ServiceOptionType::AddAlbumToLibrary => 2,
            ServiceOptionType::AddStationToLibrary => 3,
            ServiceOptionType::AddPlaylistToLibrary => 4,
            ServiceOptionType::RemoveTrackFromLibrary => 5,
            ServiceOptionType::RemoveAlbumFromLibrary => 6,
            ServiceOptionType::RemoveStationFromLibrary => 7,
            ServiceOptionType::RemovePlaylistFromLibrary => 8,
            ServiceOptionType::ThumbsUp => 11,
            ServiceOptionType::ThumbsDown => 12,
            ServiceOptionType::CreateNewStation => 13,
            ServiceOptionType::AddToHeosFavorites => 19,
            ServiceOptionType::RemoveFromHeosFavorites => 20,
            ServiceOptionType::PlayableContainer => 21,
        }
    }

    /// The kind of a service option.
    pub fn from(option: &ServiceOption) -> (r: Self)
        ensures
            r == Self::of(option@),
    {
        match option {
            ServiceOption::AddTrackToLibrary { .. } => ServiceOptionType::AddTrackToLibrary,
            ServiceOption::AddAlbumToLibrary { .. } => ServiceOptionType::AddAlbumToLibrary,
            ServiceOption::AddStationToLibrary { .. } => ServiceOptionType::AddStationToLibrary,
            ServiceOption::AddPlaylistToLibrary { .. } => ServiceOptionType::AddPlaylistToLibrary,
            ServiceOption::RemoveTrackFromLibrary { .. } => ServiceOptionType::RemoveTrackFromLibrary,
            ServiceOption::RemoveAlbumFromLibrary { .. } => ServiceOptionType::RemoveAlbumFromLibrary,
            ServiceOption::RemoveStationFromLibrary {
                ..
            } => ServiceOptionType::RemoveStationFromLibrary,
            ServiceOption::RemovePlaylistFromLibrary {
                ..
            } => ServiceOptionType::RemovePlaylistFromLibrary,
            ServiceOption::ThumbsUp { .. } => ServiceOptionType::ThumbsUp,
            ServiceOption::ThumbsDown { .. } => ServiceOptionType::ThumbsDown,
            ServiceOption::CreateNewStation { .. } => ServiceOptionType::CreateNewStation,
            ServiceOption::AddToHeosFavorites(_) => ServiceOptionType::AddToHeosFavorites,
            ServiceOption::RemoveFromHeosFavorites {
                ..
            } => ServiceOptionType::RemoveFromHeosFavorites,
        }
    }
}

/// The parameters that a service option adds to a command: its number
/// under `option`, and what it applies to.
pub open spec fn option_params(params: Params, option: ServiceOptionView) -> Params {
    let params = with_param(params, "option"@, int_text(ServiceOptionType::of(option).code()));
    match option {
        ServiceOptionView::AddTrackToLibrary { media_id } => with_param(params, "mid"@, media_id),
        ServiceOptionView::AddAlbumToLibrary { container_id } => with_param(
            params,
            "cid"@,
            container_id,
        ),
        ServiceOptionView::AddStationToLibrary { media_id } => with_param(params, "mid"@, media_id),
        ServiceOptionView::AddPlaylistToLibrary { container_id, name } => with_param(
            with_param(params, "cid"@, container_id),
            "name"@,
            name,
        ),
        ServiceOptionView::RemoveTrackFromLibrary { media_id } => with_param(
            params,
            "mid"@,
            media_id,
        ),
        ServiceOptionView::RemoveAlbumFromLibrary { container_id } => with_param(
            params,
            "cid"@,
            container_id,
        ),
        ServiceOptionView::RemoveStationFromLibrary { media_id } => with_param(
            params,
            "mid"@,
            media_id,
        ),
        ServiceOptionView::RemovePlaylistFromLibrary { container_id } => with_param(
            params,
            "cid"@,
            container_id,
        ),
        ServiceOptionView::ThumbsUp { player_id } => with_param(
            params,
            "pid"@,
            int_text(player_id.0 as int),
        ),
        ServiceOptionView::ThumbsDown { player_id } => with_param(
            params,
            "pid"@,
            int_text(player_id.0 as int),
        ),
        ServiceOptionView::CreateNewStation { name, criteria, range } => with_opt_param(
            with_opt_param(with_param(params, "name"@, name), "scid"@, criteria),
            "range"@,
            match range {
                Some(r) => Some(range_text(r)),
                None => None,
            },
        ),
        ServiceOptionView::FavoriteNowPlaying { player_id } => with_param(
            params,
            "pid"@,
            int_text(player_id.0 as int),
        ),
        ServiceOptionView::FavoriteBrowsed { media_id, name } => with_param(
            with_param(params, "mid"@, media_id),
            "name"@,
            name,
        ),
        ServiceOptionView::RemoveFromHeosFavorites { media_id } => with_param(
            params,
            "mid"@,
            media_id,
        ),
    }
}

impl ServiceOption {
    /// Writes the option into a command.
    pub fn put_params(&self, command: &mut RawCommand)
        requires
            old(command).wf(),
        ensures
            final(command).wf(),
            final(command)@ == (RawCommandView {
                params: option_params(old(command)@.params, self@),
                ..old(command)@
            }),
    {
        let kind = ServiceOptionType::from(self);
        command.param("option", crate::text::i64_to_string(kind.to_code()).as_str());
        match self {
            ServiceOption::AddTrackToLibrary { media_id } => {
                command.param("mid", media_id.as_str());
            },
            ServiceOption::AddAlbumToLibrary { container_id } => {
                command.param("cid", container_id.as_str());
            },
            ServiceOption::AddStationToLibrary { media_id } => {
                command.param("mid", media_id.as_str());
            },
            ServiceOption::AddPlaylistToLibrary { container_id, name } => {
                command.param("cid", container_id.as_str());
                command.param("name", name.as_str());
            },
            ServiceOption::RemoveTrackFromLibrary { media_id } => {
                command.param("mid", media_id.as_str());
            },
            ServiceOption::RemoveAlbumFromLibrary { container_id } => {
                command.param("cid", container_id.as_str());
            },
            ServiceOption::RemoveStationFromLibrary { media_id } => {
                command.param("mid", media_id.as_str());
            },
            ServiceOption::RemovePlaylistFromLibrary { container_id } => {
                command.param("cid", container_id.as_str());
            },
            ServiceOption::ThumbsUp { player_id } => {
                command.param("pid", player_id.to_string().as_str());
            },
            ServiceOption::ThumbsDown { player_id } => {
                command.param("pid", player_id.to_string().as_str());
            },
            ServiceOption::CreateNewStation { name, criteria, range } => {
                command.param("name", name.as_str());
                match criteria {
                    Some(text) => command.param("scid", text.as_str()),
                    None => {},
                }
                match range {
                    Some(r) => command.param("range", range_to_string(*r).as_str()),
                    None => {},
                }
            },
            ServiceOption::AddToHeosFavorites(AddToHeosFavorites::NowPlaying { player_id }) => {
                command.param("pid", player_id.to_string().as_str());
            },
            ServiceOption::AddToHeosFavorites(AddToHeosFavorites::Browse { media_id, name }) => {
                command.param("mid", media_id.as_str());
                command.param("name", name.as_str());
            },
            ServiceOption::RemoveFromHeosFavorites { media_id } => {
                command.param("mid", media_id.as_str());
            },
        }
    }
}

/// A kind of data that service options can come with.
pub trait HasOptions {
    /// The key under which the options for this kind of data stand in a
    /// reply.
    spec fn spec_option_key() -> Seq<char>;

    /// The key under which the options for this kind of data stand in a
    /// reply.
    fn option_key() -> (key: &'static str)
        ensures
            key@ == Self::spec_option_key(),
    ;
}

impl HasOptions for NowPlayingInfo {
    open spec fn spec_option_key() -> Seq<char> {
        "play"@
    }

    fn option_key() -> (key: &'static str) {
        "play"
    }
}

impl HasOptions for Vec<SourceItem> {
    open spec fn spec_option_key() -> Seq<char> {
        "browse"@
    }

    fn option_key() -> (key: &'static str) {
        "browse"
    }
}

impl HasOptions for SearchResults {
    open spec fn spec_option_key() -> Seq<char> {
        "browse"@
    }

    fn option_key() -> (key: &'static str) {
        "browse"
    }
}

/// Data with the service options that apply to it.
#[derive(Debug)]
pub struct WithOptions<T> {
    /// The data.
    pub value: T,
    /// The kinds of option that apply to the data.
    pub options: Vec<ServiceOptionType>,
}

/// The kind of option that one entry of an option list names.
pub open spec fn option_type_of_json(j: JsonView) -> Result<ServiceOptionType, CommandErrorView> {
    member_code(j, "id"@, "ServiceOptionType"@, |n: i64| ServiceOptionType::from_code(n as int))
}

/// The kinds of option that an option list names.
pub open spec fn option_types_of_json(j: JsonView) -> Result<
    Seq<ServiceOptionType>,
    CommandErrorView,
> {
    match items_of(j, "options"@) {
        Err(e) => Err(e),
        Ok(items) => decode_each(items, |item: JsonView| option_type_of_json(item)),
    }
}

/// The options that the groups `groups` of a reply hold under `key`: the
/// lists of all groups that have the key, one after the other.
pub open spec fn options_in_groups(groups: Seq<JsonView>, key: Seq<char>) -> Result<
    Seq<ServiceOptionType>,
    CommandErrorView,
>
    decreases groups.len(),
{
    if groups.len() == 0 {
        Ok(Seq::empty())
    } else {
        match options_in_groups(groups.drop_last(), key) {
            Err(e) => Err(e),
            Ok(front) => match groups.last().get(key) {
                None => Ok(front),
                Some(list) => match option_types_of_json(list) {
                    Err(e) => Err(e),
                    Ok(found) => Ok(front + found),
                },
            },
        }
    }
}

/// The options of a reply for data whose options stand under `key`. A
/// reply without options, or whose options are no list, has none.
pub open spec fn options_of(r: RawResponseView, key: Seq<char>) -> Result<
    Seq<ServiceOptionType>,
    CommandErrorView,
> {
    match r.options {
        None => Ok(Seq::empty()),
        Some(options) => match options.as_array() {
            None => Ok(Seq::empty()),
            Some(groups) => options_in_groups(groups, key),
        },
    }
}

/// A failure in the first groups is the failure of all groups.
pub proof fn lemma_options_in_groups_prefix(groups: Seq<JsonView>, key: Seq<char>, k: int)
    requires
        0 <= k <= groups.len(),
        options_in_groups(groups.take(k), key) is Err,
    ensures
        options_in_groups(groups, key) == options_in_groups(groups.take(k), key),
    decreases groups.len(),
{
    if k == groups.len() {
        assert(groups.take(k) =~= groups);
    } else {
        assert(groups.drop_last().take(k) =~= groups.take(k));
        lemma_options_in_groups_prefix(groups.drop_last(), key, k);
    }
}

/// Reads the kinds of option that an option list names.
pub fn option_types_from_json(j: &JsonValue) -> (r: Result<Vec<ServiceOptionType>, CommandError>)
    ensures
        match r {
            Ok(v) => option_types_of_json(j@) == Ok::<Seq<ServiceOptionType>, CommandErrorView>(v@),
            Err(e) => option_types_of_json(j@) == Err::<Seq<ServiceOptionType>, CommandErrorView>(
                e@,
            ),
        },
{
    let values = j.items("options")?;
    let ghost all = JsonValue::item_views(values@);
    let mut out: Vec<ServiceOptionType> = Vec::new();
    let mut i: usize = 0;
    assert(all.take(0) =~= Seq::empty());
    while i < values.len()
        invariant
            i <= values.len(),
            all == JsonValue::item_views(values@),
            items_of(j@, "options"@) == Ok::<Seq<JsonView>, CommandErrorView>(all),
            decode_each(all.take(i as int), |item: JsonView| option_type_of_json(item)) == Ok::<
                Seq<ServiceOptionType>,
                CommandErrorView,
            >(out@),
        decreases values.len() - i,
    {
        proof {
            assert(all.take(i + 1).drop_last() =~= all.take(i as int));
            assert(all.take(i + 1).last() == values@[i as int]@);
        }
        let id = match values[i].member_i64("id") {
            Ok(id) => id,
            Err(e) => {
                proof {
                    lemma_decode_each_prefix(
                        all,
                        |item: JsonView| option_type_of_json(item),
                        i + 1,
                    );
                }
                return Err(e);
            },
        };
        match ServiceOptionType::try_from(id) {
            Some(kind) => {
                out.push(kind);
            },
            None => {
                proof {
                    lemma_decode_each_prefix(
                        all,
                        |item: JsonView| option_type_of_json(item),
                        i + 1,
                    );
                }
                return Err(CommandError::response_incorrect_data_type("ServiceOptionType", "id"));
            },
        }
        i += 1;
    }
    assert(all.take(i as int) =~= all);
    Ok(out)
}

/// Reads the options of a reply for data whose options stand under `key`.
pub fn options_from_response(response: &RawResponse, key: &str) -> (r: Result<
    Vec<ServiceOptionType>,
    CommandError,
>)
    ensures
        match r {
            Ok(v) => options_of(response@, key@) == Ok::<Seq<ServiceOptionType>, CommandErrorView>(
                v@,
            ),
            Err(e) => options_of(response@, key@) == Err::<
                Seq<ServiceOptionType>,
                CommandErrorView,
            >(e@),
        },
{
    let mut out: Vec<ServiceOptionType> = Vec::new();
    let options = match &response.options {
        Some(options) => options,
        None => return Ok(out),
    };
    let groups = match options.as_array() {
        Some(groups) => groups,
        None => return Ok(out),
    };
    let ghost all = JsonValue::item_views(groups@);
    let mut i: usize = 0;
    assert(all.take(0) =~= Seq::empty());
    while i < groups.len()
        invariant
            i <= groups.len(),
            all == JsonValue::item_views(groups@),
            response@.options matches Some(o) && o.as_array() == Some(all),
            options_in_groups(all.take(i as int), key@) == Ok::<
                Seq<ServiceOptionType>,
                CommandErrorView,
            >(out@),
        decreases groups.len() - i,
    {
        proof {
            assert(all.take(i + 1).drop_last() =~= all.take(i as int));
            assert(all.take(i + 1).last() == groups@[i as int]@);
        }
        match groups[i].get(key) {
            None => {},
            Some(list) => match option_types_from_json(list) {
                Ok(mut found) => {
                    out.append(&mut found);
                },
                Err(e) => {
                    proof {
                        lemma_options_in_groups_prefix(all, key@, i + 1);
                    }
                    return Err(e);
                },
            },
        }
        i += 1;
    }
    assert(all.take(i as int) =~= all);
    Ok(out)
}

} // verus!
