//! Commands that ask music sources what they hold, and that play it.

use vstd::prelude::*;
use vstd::string::*;
use crate::command::error::{CommandError, CommandErrorView};
use crate::command::raw::{with_param, RawCommand, RawCommandView};
use crate::command::typed::{told_list, Command};
use crate::data::response::{
    checked,
    message_value,
    payload_of,
    read_message_value,
    tells,
    validated,
    RawResponse,
    RawResponseView,
};
use crate::json::told_view;
use crate::views::views;
use crate::command::ser::{range_text, range_to_string, with_opt_param};
use crate::data::codec::{
    search_criteria_list_from_json,
    search_criteria_list_of_json,
    source_info_list_from_json,
    source_info_list_of_json,
    source_info_of_json,
};
use crate::data::item::{
    album_metadata_list_from_json,
    album_metadata_list_of_json,
    source_item_list_from_json,
    source_item_list_of_json,
    AlbumMetadata,
    SearchResults,
    SearchResultsView,
    SourceItem,
    SourceItemView,
};
use crate::data::option::{
    option_params,
    options_from_response,
    options_of,
    HasOptions,
    ServiceOption,
    ServiceOptionType,
    WithOptions,
};
use crate::data::player::{AddToQueueType, PlayerId};
use crate::data::source::{SearchCriteria, SourceId, SourceInfo};
use crate::text::{i64_to_string, int_text, nat_text, u64_to_string};

verus! {

/// What a reply tells of what a source holds: the options that the reply
/// lists under `browse`, and the items in the payload.
pub open spec fn browsed_of_response(r: RawResponseView) -> Result<
    (Seq<SourceItemView>, Seq<ServiceOptionType>),
    CommandErrorView,
> {
    checked(
        r,
        match options_of(r, "browse"@) {
            Err(e) => Err(e),
            Ok(options) => match payload_of(r) {
                Err(e) => Err(e),
                Ok(p) => match source_item_list_of_json(p) {
                    Err(e) => Err(e),
                    Ok(items) => Ok((items, options)),
                },
            },
        },
    )
}

/// What a reply tells of a search: the options that the reply lists under
/// `browse`, the number of items found in all under `count` in the
/// message, and the items in the payload.
pub open spec fn searched_of_response(r: RawResponseView) -> Result<
    (SearchResultsView, Seq<ServiceOptionType>),
    CommandErrorView,
> {
    checked(
        r,
        match options_of(r, "browse"@) {
            Err(e) => Err(e),
            Ok(options) => match message_value::<usize>(r.message, "count"@) {
                Err(e) => Err(e),
                Ok(count) => match payload_of(r) {
                    Err(e) => Err(e),
                    Ok(p) => match source_item_list_of_json(p) {
                        Err(e) => Err(e),
                        Ok(source_items) => Ok(
                            (SearchResultsView { count, source_items }, options),
                        ),
                    },
                },
            },
        },
    )
}

/// Sets an option of a music service for an item.
#[derive(Debug)]
pub struct SetServiceOption {
    /// The source that the command is for.
    pub source_id: SourceId,
    /// The option, with what it applies to.
    pub option: ServiceOption,
}

impl Command for SetServiceOption {
    type Response = ();

    fn response(raw: &RawResponse) -> (r: Result<(), CommandError>)
        ensures
            tells(r, validated(raw@)),
    {
        raw.validate_command()
    }

    open spec fn raw(&self) -> RawCommandView {
        let params = with_param(Seq::empty(), "sid"@, int_text(self.source_id.code() as int));
        RawCommandView {
            group: "browse"@,
            command: "set_service_option"@,
            params: option_params(params, self.option@),
        }
    }

    fn to_raw(&self) -> (r: RawCommand) {
        let mut r = RawCommand::new("browse", "set_service_option");
        r.param("sid", self.source_id.to_string().as_str());
        self.option.put_params(&mut r);
        r
    }
}

/// Asks for all music sources.
#[derive(Clone, Copy, Debug)]
pub struct GetSources {}

impl Command for GetSources {
    type Response = Vec<SourceInfo>;

    fn response(raw: &RawResponse) -> (r: Result<Vec<SourceInfo>, CommandError>)
        ensures
            told_list(
                r,
                checked(
                    raw@,
                    match payload_of(raw@) {
                        Ok(p) => source_info_list_of_json(p),
                        Err(e) => Err(e),
                    },
                ),
            ),
    {
        raw.validate_command()?;
        source_info_list_from_json(raw.payload()?)
    }

    open spec fn raw(&self) -> RawCommandView {
        let params = Seq::empty();
        RawCommandView { group: "browse"@, command: "get_music_sources"@, params }
    }

    fn to_raw(&self) -> (r: RawCommand) {
        let r = RawCommand::new("browse", "get_music_sources");
        r
    }
}

/// Asks what is known of one source.
#[derive(Clone, Copy, Debug)]
pub struct GetSourceInfo {
    /// The source that the command is for.
    pub source_id: SourceId,
}

impl Command for GetSourceInfo {
    type Response = SourceInfo;

    fn response(raw: &RawResponse) -> (r: Result<SourceInfo, CommandError>)
        ensures
            told_view(
                r,
                checked(
                    raw@,
                    match payload_of(raw@) {
                        Ok(p) => source_info_of_json(p),
                        Err(e) => Err(e),
                    },
                ),
            ),
    {
        raw.validate_command()?;
        SourceInfo::from_json(raw.payload()?)
    }

    open spec fn raw(&self) -> RawCommandView {
        let params = Seq::empty();
        let params = with_param(params, "sid"@, int_text(self.source_id.code() as int));
        RawCommandView { group: "browse"@, command: "get_source_info"@, params }
    }

    fn to_raw(&self) -> (r: RawCommand) {
        let mut r = RawCommand::new("browse", "get_source_info");
        r.param("sid", self.source_id.to_string().as_str());
        r
    }
}

/// Lists what a source holds, at its top or inside a container.
#[derive(Debug)]
pub struct Browse {
    /// The source that the command is for.
    pub source_id: SourceId,
    /// The container to look into; the top of the source where none is
    /// given.
    pub container_id: Option<String>,
    /// First and last item to return, both included; the system decides
    /// where none is given.
    pub range: Option<(usize, usize)>,
}

impl Command for Browse {
    type Response = WithOptions<Vec<SourceItem>>;

    fn response(raw: &RawResponse) -> (r: Result<WithOptions<Vec<SourceItem>>, CommandError>)
        ensures
            match r {
                Ok(w) => browsed_of_response(raw@) == Ok::<
                    (Seq<SourceItemView>, Seq<ServiceOptionType>),
                    CommandErrorView,
                >((views(w.value@), w.options@)),
                Err(e) => browsed_of_response(raw@) == Err::<
                    (Seq<SourceItemView>, Seq<ServiceOptionType>),
                    CommandErrorView,
                >(e@),
            },
    {
        raw.validate_command()?;
        let options = options_from_response(raw, Vec::<SourceItem>::option_key())?;
        let value = source_item_list_from_json(raw.payload()?)?;
        Ok(WithOptions { value, options })
    }

    open spec fn raw(&self) -> RawCommandView {
        let params = Seq::empty();
        let params = with_param(params, "sid"@, int_text(self.source_id.code() as int));
        let params = with_opt_param(
            params,
            "cid"@,
            match self.container_id {
                Some(v) => Some(v@),
                None => None,
            },
        );
        let params = with_opt_param(
            params,
            "range"@,
            match self.range {
                Some(v) => Some(range_text(v)),
                None => None,
            },
        );
        RawCommandView { group: "browse"@, command: "browse"@, params }
    }

    fn to_raw(&self) -> (r: RawCommand) {
        let mut r = RawCommand::new("browse", "browse");
        r.param("sid", self.source_id.to_string().as_str());
        match &self.container_id {
            Some(v) => r.param("cid", v.as_str()),
            None => {},
        }
        match &self.range {
            Some(v) => r.param("range", range_to_string((*v)).as_str()),
            None => {},
        }
        r
    }
}

/// Asks in which ways a source can be searched.
#[derive(Clone, Copy, Debug)]
pub struct GetSearchCriteria {
    /// The source that the command is for.
    pub source_id: SourceId,
}

impl Command for GetSearchCriteria {
    type Response = Vec<SearchCriteria>;

    fn response(raw: &RawResponse) -> (r: Result<Vec<SearchCriteria>, CommandError>)
        ensures
            told_list(
                r,
                checked(
                    raw@,
                    match payload_of(raw@) {
                        Ok(p) => search_criteria_list_of_json(p),
                        Err(e) => Err(e),
                    },
                ),
            ),
    {
        raw.validate_command()?;
        search_criteria_list_from_json(raw.payload()?)
    }

    open spec fn raw(&self) -> RawCommandView {
        let params = Seq::empty();
        let params = with_param(params, "sid"@, int_text(self.source_id.code() as int));
        RawCommandView { group: "browse"@, command: "get_search_criteria"@, params }
    }

    fn to_raw(&self) -> (r: RawCommand) {
        let mut r = RawCommand::new("browse", "get_search_criteria");
        r.param("sid", self.source_id.to_string().as_str());
        r
    }
}

/// Searches a source.
#[derive(Debug)]
pub struct Search {
    /// The source that the command is for.
    pub source_id: SourceId,
    /// The text to search for.
    pub search: String,
    /// What to search for: a number that the search criteria of the source
    /// name.
    pub criteria: String,
    /// First and last item to return, both included; the system decides
    /// where none is given.
    pub range: Option<(usize, usize)>,
}

impl Command for Search {
    type Response = WithOptions<SearchResults>;

    fn response(raw: &RawResponse) -> (r: Result<WithOptions<SearchResults>, CommandError>)
        ensures
            match r {
                Ok(w) => searched_of_response(raw@) == Ok::<
                    (SearchResultsView, Seq<ServiceOptionType>),
                    CommandErrorView,
                >((w.value@, w.options@)),
                Err(e) => searched_of_response(raw@) == Err::<
                    (SearchResultsView, Seq<ServiceOptionType>),
                    CommandErrorView,
                >(e@),
            },
    {
        raw.validate_command()?;
        let options = options_from_response(raw, SearchResults::option_key())?;
        let count = read_message_value::<usize>(raw.heos.message.as_str(), "count")?;
        let source_items = source_item_list_from_json(raw.payload()?)?;
        Ok(WithOptions { value: SearchResults { count, source_items }, options })
    }

    open spec fn raw(&self) -> RawCommandView {
        let params = Seq::empty();
        let params = with_param(params, "sid"@, int_text(self.source_id.code() as int));
        let params = with_param(params, "search"@, self.search@);
        let params = with_param(params, "scid"@, self.criteria@);
        let params = with_opt_param(
            params,
            "range"@,
            match self.range {
                Some(v) => Some(range_text(v)),
                None => None,
            },
        );
        RawCommandView { group: "browse"@, command: "search"@, params }
    }

    fn to_raw(&self) -> (r: RawCommand) {
        let mut r = RawCommand::new("browse", "search");
        r.param("sid", self.source_id.to_string().as_str());
        r.param("search", self.search.as_str());
        r.param("scid", self.criteria.as_str());
        match &self.range {
            Some(v) => r.param("range", range_to_string((*v)).as_str()),
            None => {},
        }
        r
    }
}

/// Plays a station on a player.
#[derive(Debug)]
pub struct PlayStation {
    /// The player that the command is for.
    pub player_id: PlayerId,
    /// The source that the command is for.
    pub source_id: SourceId,
    /// The container that holds the station, if any.
    pub container_id: Option<String>,
    /// Identifier of the station.
    pub media_id: String,
    /// Name of the station.
    pub name: String,
}

impl Command for PlayStation {
    type Response = ();

    fn response(raw: &RawResponse) -> (r: Result<(), CommandError>)
        ensures
            tells(r, validated(raw@)),
    {
        raw.validate_command()
    }

    open spec fn raw(&self) -> RawCommandView {
        let params = Seq::empty();
        let params = with_param(params, "pid"@, int_text(self.player_id.0 as int));
        let params = with_param(params, "sid"@, int_text(self.source_id.code() as int));
        let params = with_opt_param(
            params,
            "cid"@,
            match self.container_id {
                Some(v) => Some(v@),
                None => None,
            },
        );
        let params = with_param(params, "mid"@, self.media_id@);
        let params = with_param(params, "name"@, self.name@);
        RawCommandView { group: "browse"@, command: "play_stream"@, params }
    }

    fn to_raw(&self) -> (r: RawCommand) {
        let mut r = RawCommand::new("browse", "play_stream");
        r.param("pid", self.player_id.to_string().as_str());
        r.param("sid", self.source_id.to_string().as_str());
        match &self.container_id {
            Some(v) => r.param("cid", v.as_str()),
            None => {},
        }
        r.param("mid", self.media_id.as_str());
        r.param("name", self.name.as_str());
        r
    }
}

/// Plays a favourite on a player.
#[derive(Clone, Copy, Debug)]
pub struct PlayPreset {
    /// The player that the command is for.
    pub player_id: PlayerId,
    /// Number of the favourite, counting from 1.
    pub preset: usize,
}

impl Command for PlayPreset {
    type Response = ();

    fn response(raw: &RawResponse) -> (r: Result<(), CommandError>)
        ensures
            tells(r, validated(raw@)),
    {
        raw.validate_command()
    }

    open spec fn raw(&self) -> RawCommandView {
        let params = Seq::empty();
        let params = with_param(params, "pid"@, int_text(self.player_id.0 as int));
        let params = with_param(params, "preset"@, nat_text(self.preset as nat));
        RawCommandView { group: "browse"@, command: "play_preset"@, params }
    }

    fn to_raw(&self) -> (r: RawCommand) {
        let mut r = RawCommand::new("browse", "play_preset");
        r.param("pid", self.player_id.to_string().as_str());
        r.param("preset", u64_to_string(self.preset as u64).as_str());
        r
    }
}

/// Plays an input of a player, its own or that of another player.
#[derive(Debug)]
pub struct PlayInputSource {
    /// The player that the command is for.
    pub player_id: PlayerId,
    /// The player whose input is played, where it is another one.
    pub src_player_id: Option<PlayerId>,
    /// Name of the input.
    pub input: String,
}

impl Command for PlayInputSource {
    type Response = ();

    fn response(raw: &RawResponse) -> (r: Result<(), CommandError>)
        ensures
            tells(r, validated(raw@)),
    {
        raw.validate_command()
    }

    open spec fn raw(&self) -> RawCommandView {
        let params = Seq::empty();
        let params = with_param(params, "pid"@, int_text(self.player_id.0 as int));
        let params = with_opt_param(
            params,
            "spid"@,
            match self.src_player_id {
                Some(v) => Some(int_text(v.0 as int)),
                None => None,
            },
        );
        let params = with_param(params, "input"@, self.input@);
        RawCommandView { group: "browse"@, command: "play_input"@, params }
    }

    fn to_raw(&self) -> (r: RawCommand) {
        let mut r = RawCommand::new("browse", "play_input");
        r.param("pid", self.player_id.to_string().as_str());
        match &self.src_player_id {
            Some(v) => r.param("spid", v.to_string().as_str()),
            None => {},
        }
        r.param("input", self.input.as_str());
        r
    }
}

/// Plays a stream from an address on a player.
#[derive(Debug)]
pub struct PlayUrl {
    /// The player that the command is for.
    pub player_id: PlayerId,
    /// Address of the stream.
    pub url: String,
}

impl Command for PlayUrl {
    type Response = ();

    fn response(raw: &RawResponse) -> (r: Result<(), CommandError>)
        ensures
            tells(r, validated(raw@)),
    {
        raw.validate_command()
    }

    open spec fn raw(&self) -> RawCommandView {
        let params = Seq::empty();
        let params = with_param(params, "pid"@, int_text(self.player_id.0 as int));
        let params = with_param(params, "url"@, self.url@);
        RawCommandView { group: "browse"@, command: "play_stream"@, params }
    }

    fn to_raw(&self) -> (r: RawCommand) {
        let mut r = RawCommand::new("browse", "play_stream");
        r.param("pid", self.player_id.to_string().as_str());
        r.param("url", self.url.as_str());
        r
    }
}

/// Adds a track or a container to the queue of a player.
#[derive(Debug)]
pub struct AddToQueue {
    /// The player that the command is for.
    pub player_id: PlayerId,
    /// The source that the command is for.
    pub source_id: SourceId,
    /// The container to add, or the one that holds the track.
    pub container_id: Option<String>,
    /// Identifier of the track.
    pub media_id: String,
    /// Where the media goes.
    pub add_to_queue_type: AddToQueueType,
}

impl Command for AddToQueue {
    type Response = ();

    fn response(raw: &RawResponse) -> (r: Result<(), CommandError>)
        ensures
            tells(r, validated(raw@)),
    {
        raw.validate_command()
    }

    open spec fn raw(&self) -> RawCommandView {
        let params = Seq::empty();
        let params = with_param(params, "pid"@, int_text(self.player_id.0 as int));
        let params = with_param(params, "sid"@, int_text(self.source_id.code() as int));
        let params = with_opt_param(
            params,
            "cid"@,
            match self.container_id {
                Some(v) => Some(v@),
                None => None,
            },
        );
        let params = with_param(params, "mid"@, self.media_id@);
        let params = with_param(params, "aid"@, int_text(self.add_to_queue_type.code()));
        RawCommandView { group: "browse"@, command: "add_to_queue"@, params }
    }

    fn to_raw(&self) -> (r: RawCommand) {
        let mut r = RawCommand::new("browse", "add_to_queue");
        r.param("pid", self.player_id.to_string().as_str());
        r.param("sid", self.source_id.to_string().as_str());
        match &self.container_id {
            Some(v) => r.param("cid", v.as_str()),
            None => {},
        }
        r.param("mid", self.media_id.as_str());
        r.param("aid", i64_to_string(self.add_to_queue_type.to_code()).as_str());
        r
    }
}

/// Gives a playlist another name.
#[derive(Debug)]
pub struct RenamePlaylist {
    /// The source that the command is for.
    pub source_id: SourceId,
    /// Identifier of the playlist.
    pub container_id: String,
    /// The new name.
    pub name: String,
}

impl Command for RenamePlaylist {
    type Response = ();

    fn response(raw: &RawResponse) -> (r: Result<(), CommandError>)
        ensures
            tells(r, validated(raw@)),
    {
        raw.validate_command()
    }

    open spec fn raw(&self) -> RawCommandView {
        let params = Seq::empty();
        let params = with_param(params, "sid"@, int_text(self.source_id.code() as int));
        let params = with_param(params, "cid"@, self.container_id@);
        let params = with_param(params, "name"@, self.name@);
        RawCommandView { group: "browse"@, command: "rename_playlist"@, params }
    }

    fn to_raw(&self) -> (r: RawCommand) {
        let mut r = RawCommand::new("browse", "rename_playlist");
        r.param("sid", self.source_id.to_string().as_str());
        r.param("cid", self.container_id.as_str());
        r.param("name", self.name.as_str());
        r
    }
}

/// Deletes a playlist.
#[derive(Debug)]
pub struct DeletePlaylist {
    /// The source that the command is for.
    pub source_id: SourceId,
    /// Identifier of the playlist.
    pub container_id: String,
}

impl Command for DeletePlaylist {
    type Response = ();

    fn response(raw: &RawResponse) -> (r: Result<(), CommandError>)
        ensures
            tells(r, validated(raw@)),
    {
        raw.validate_command()
    }

    open spec fn raw(&self) -> RawCommandView {
        let params = Seq::empty();
        let params = with_param(params, "sid"@, int_text(self.source_id.code() as int));
        let params = with_param(params, "cid"@, self.container_id@);
        RawCommandView { group: "browse"@, command: "delete_playlist"@, params }
    }

    fn to_raw(&self) -> (r: RawCommand) {
        let mut r = RawCommand::new("browse", "delete_playlist");
        r.param("sid", self.source_id.to_string().as_str());
        r.param("cid", self.container_id.as_str());
        r
    }
}

/// Asks for the album art of an album.
#[derive(Debug)]
pub struct GetAlbumMetadata {
    /// The source that the command is for.
    pub source_id: SourceId,
    /// Identifier of the album.
    pub container_id: String,
}

impl Command for GetAlbumMetadata {
    type Response = Vec<AlbumMetadata>;

    fn response(raw: &RawResponse) -> (r: Result<Vec<AlbumMetadata>, CommandError>)
        ensures
            told_list(
                r,
                checked(
                    raw@,
                    match payload_of(raw@) {
                        Ok(p) => album_metadata_list_of_json(p),
                        Err(e) => Err(e),
                    },
                ),
            ),
    {
        raw.validate_command()?;
        album_metadata_list_from_json(raw.payload()?)
    }

    open spec fn raw(&self) -> RawCommandView {
        let params = Seq::empty();
        let params = with_param(params, "sid"@, int_text(self.source_id.code() as int));
        let params = with_param(params, "cid"@, self.container_id@);
        RawCommandView { group: "browse"@, command: "retrieve_metadata"@, params }
    }

    fn to_raw(&self) -> (r: RawCommand) {
        let mut r = RawCommand::new("browse", "retrieve_metadata");
        r.param("sid", self.source_id.to_string().as_str());
        r.param("cid", self.container_id.as_str());
        r
    }
}

} // verus!
