//! What browsing and searching a source returns.

use vstd::prelude::*;
use vstd::string::*;
use crate::command::error::{incorrect_data_type, CommandError, CommandErrorView};
use crate::data::codec::{
    decode_each,
    lemma_decode_each_prefix,
    member_id,
    member_maybe_url,
    member_url,
    member_yes_no_required,
    member_usize,
    maybe_url_member,
    required_yes_no_member,
    url_member,
    usize_member,
    yes_no_str,
    yes_no_text,
};
use crate::data::player::clone_opt_string;
use crate::data::source::SourceId;
use crate::json::{
    int_json,
    items_of,
    member,
    member_opt_text,
    member_text,
    opt_text_json,
    told_view,
    JsonValue,
    JsonView,
};
use crate::text::opt_text;
use crate::views::{lemma_views_push, lemma_views_take_next, views};

verus! {

/// An item of a source of the system itself, such as an input: something
/// that has no artist or album.
#[derive(Debug)]
pub struct HeosSourceItem {
    /// Name of the item.
    pub name: String,
    /// Address of an image for the item, if there is one.
    pub image_url: Option<String>,
    /// The source that the item belongs to.
    pub source_id: SourceId,
}

/// A `HeosSourceItem` as plain values.
pub ghost struct HeosSourceItemView {
    pub name: Seq<char>,
    pub image_url: Option<Seq<char>>,
    pub source_id: SourceId,
}

impl View for HeosSourceItem {
    type V = HeosSourceItemView;

    open spec fn view(&self) -> HeosSourceItemView {
        HeosSourceItemView {
            name: self.name@,
            image_url: opt_text(self.image_url),
            source_id: self.source_id,
        }
    }
}

impl Clone for HeosSourceItem {
    fn clone(&self) -> (r: Self)
        ensures
            r@ == self@,
    {
        HeosSourceItem {
            name: self.name.clone(),
            image_url: clone_opt_string(&self.image_url),
            source_id: self.source_id,
        }
    }
}

/// The JSON form of an item of a system source.
pub open spec fn heos_source_item_json(v: HeosSourceItemView) -> JsonView {
    JsonView::Object(heos_source_item_members(v))
}

/// The members of the JSON form of an item of a system source.
pub open spec fn heos_source_item_members(v: HeosSourceItemView) -> Seq<(Seq<char>, JsonView)> {
    let m = Seq::empty();
    let m = m.push(("name"@, JsonView::Text(v.name)));
    let m = m.push(
        (
            "image_url"@,
            JsonView::Text(
                match v.image_url {
                    Some(t) => t,
                    None => Seq::empty(),
                },
            ),
        ),
    );
    m.push(("sid"@, int_json(v.source_id.code())))
}

/// What a JSON value tells of an item of a system source: each member is read in turn, and the
/// first that is missing or of the wrong kind decides the error.
pub open spec fn heos_source_item_of_json(
    j: JsonView,
) -> Result<HeosSourceItemView, CommandErrorView> {
    let name = member_text(j, "name"@);
    let image_url = member_maybe_url(j, "image_url"@);
    let source_id = member_id(j, "sid"@, |n: i64| SourceId::of_code(n));
    if name is Err {
        Err(name->Err_0)
    } else if image_url is Err {
        Err(image_url->Err_0)
    } else if source_id is Err {
        Err(source_id->Err_0)
    } else {
        Ok(
            HeosSourceItemView {
                name: name->Ok_0,
                image_url: image_url->Ok_0,
                source_id: source_id->Ok_0,
            },
        )
    }
}

impl HeosSourceItem {
    /// Adds the members of the JSON form to an object under construction.
    pub fn put_members(&self, m: &mut Vec<(String, JsonValue)>)
        ensures
            JsonValue::member_views(final(m)@) == JsonValue::member_views(old(m)@)
                + heos_source_item_members(self@),
    {
        JsonValue::put_text(m, "name", self.name.as_str());
        match &self.image_url {
            Some(t) => JsonValue::put_text(m, "image_url", t.as_str()),
            None => {
                proof {
                    reveal_strlit("");
                    assert(""@ =~= Seq::<char>::empty());
                }
                JsonValue::put_text(m, "image_url", "");
            },
        }
        JsonValue::put_int(m, "sid", self.source_id.to_code());
        assert(JsonValue::member_views(m@) =~= JsonValue::member_views(old(m)@)
            + heos_source_item_members(self@));
    }

    /// Writes the value as JSON.
    pub fn to_json(&self) -> (j: JsonValue)
        ensures
            j@ == heos_source_item_json(self@),
    {
        let mut m: Vec<(String, JsonValue)> = Vec::new();
        self.put_members(&mut m);
        assert(JsonValue::member_views(m@) =~= heos_source_item_members(self@));
        JsonValue::object(m)
    }

    /// Reads the value from JSON.
    pub fn from_json(j: &JsonValue) -> (r: Result<Self, CommandError>)
        ensures
            told_view(r, heos_source_item_of_json(j@)),
    {
        let name = j.member_text("name")?;
        let image_url = maybe_url_member(j, "image_url")?;
        let source_id = SourceId::from(j.member_i64("sid")?);
        Ok(HeosSourceItem { name, image_url, source_id })
    }
}

/// What artists, albums, songs, containers, stations and genres have in
/// common.
#[derive(Debug)]
pub struct MediaSourceItem {
    /// Whether the item can be played as it is.
    pub playable: bool,
    /// Address of an image for the item, if there is one.
    pub image_url: Option<String>,
    /// Identifier of the item among all media, where it has one.
    pub media_id: Option<String>,
}

/// A `MediaSourceItem` as plain values.
pub ghost struct MediaSourceItemView {
    pub playable: bool,
    pub image_url: Option<Seq<char>>,
    pub media_id: Option<Seq<char>>,
}

impl View for MediaSourceItem {
    type V = MediaSourceItemView;

    open spec fn view(&self) -> MediaSourceItemView {
        MediaSourceItemView {
            playable: self.playable,
            image_url: opt_text(self.image_url),
            media_id: opt_text(self.media_id),
        }
    }
}

impl Clone for MediaSourceItem {
    fn clone(&self) -> (r: Self)
        ensures
            r@ == self@,
    {
        MediaSourceItem {
            playable: self.playable,
            image_url: clone_opt_string(&self.image_url),
            media_id: clone_opt_string(&self.media_id),
        }
    }
}

/// The JSON form of the common part of a media item.
pub open spec fn media_source_item_json(v: MediaSourceItemView) -> JsonView {
    JsonView::Object(media_source_item_members(v))
}

/// The members of the JSON form of the common part of a media item.
pub open spec fn media_source_item_members(v: MediaSourceItemView) -> Seq<(Seq<char>, JsonView)> {
    let m = Seq::empty();
    let m = m.push(("playable"@, JsonView::Text(yes_no_text(v.playable))));
    let m = m.push(
        (
            "image_url"@,
            JsonView::Text(
                match v.image_url {
                    Some(t) => t,
                    None => Seq::empty(),
                },
            ),
        ),
    );
    m.push(("mid"@, opt_text_json(v.media_id)))
}

/// What a JSON value tells of the common part of a media item: each member is read in turn, and the
/// first that is missing or of the wrong kind decides the error.
pub open spec fn media_source_item_of_json(
    j: JsonView,
) -> Result<MediaSourceItemView, CommandErrorView> {
    let playable = member_yes_no_required(j, "playable"@);
    let image_url = member_maybe_url(j, "image_url"@);
    let media_id = member_opt_text(j, "mid"@);
    if playable is Err {
        Err(playable->Err_0)
    } else if image_url is Err {
        Err(image_url->Err_0)
    } else if media_id is Err {
        Err(media_id->Err_0)
    } else {
        Ok(
            MediaSourceItemView {
                playable: playable->Ok_0,
                image_url: image_url->Ok_0,
                media_id: media_id->Ok_0,
            },
        )
    }
}

impl MediaSourceItem {
    /// Adds the members of the JSON form to an object under construction.
    pub fn put_members(&self, m: &mut Vec<(String, JsonValue)>)
        ensures
            JsonValue::member_views(final(m)@) == JsonValue::member_views(old(m)@)
                + media_source_item_members(self@),
    {
        JsonValue::put_text(m, "playable", yes_no_str(self.playable));
        match &self.image_url {
            Some(t) => JsonValue::put_text(m, "image_url", t.as_str()),
            None => {
                proof {
                    reveal_strlit("");
                    assert(""@ =~= Seq::<char>::empty());
                }
                JsonValue::put_text(m, "image_url", "");
            },
        }
        JsonValue::put_opt_text(m, "mid", &self.media_id);
        assert(JsonValue::member_views(m@) =~= JsonValue::member_views(old(m)@)
            + media_source_item_members(self@));
    }

    /// Writes the value as JSON.
    pub fn to_json(&self) -> (j: JsonValue)
        ensures
            j@ == media_source_item_json(self@),
    {
        let mut m: Vec<(String, JsonValue)> = Vec::new();
        self.put_members(&mut m);
        assert(JsonValue::member_views(m@) =~= media_source_item_members(self@));
        JsonValue::object(m)
    }

    /// Reads the value from JSON.
    pub fn from_json(j: &JsonValue) -> (r: Result<Self, CommandError>)
        ensures
            told_view(r, media_source_item_of_json(j@)),
    {
        let playable = required_yes_no_member(j, "playable")?;
        let image_url = maybe_url_member(j, "image_url")?;
        let media_id = j.member_opt_text("mid")?;
        Ok(MediaSourceItem { playable, image_url, media_id })
    }
}

/// An artist.
#[derive(Debug)]
pub struct ArtistSourceItem {
    /// Name of the artist.
    pub name: String,
    /// Identifier of the container that holds the music of the artist.
    pub container_id: String,
    /// What all media items have.
    pub common: MediaSourceItem,
}

/// A `ArtistSourceItem` as plain values.
pub ghost struct ArtistSourceItemView {
    pub name: Seq<char>,
    pub container_id: Seq<char>,
    pub common: MediaSourceItemView,
}

impl View for ArtistSourceItem {
    type V = ArtistSourceItemView;

    open spec fn view(&self) -> ArtistSourceItemView {
        ArtistSourceItemView {
            name: self.name@,
            container_id: self.container_id@,
            common: self.common@,
        }
    }
}

impl Clone for ArtistSourceItem {
    fn clone(&self) -> (r: Self)
        ensures
            r@ == self@,
    {
        ArtistSourceItem {
            name: self.name.clone(),
            container_id: self.container_id.clone(),
            common: self.common.clone(),
        }
    }
}

/// The JSON form of an artist.
pub open spec fn artist_source_item_json(v: ArtistSourceItemView) -> JsonView {
    JsonView::Object(artist_source_item_members(v))
}

/// The members of the JSON form of an artist.
pub open spec fn artist_source_item_members(v: ArtistSourceItemView) -> Seq<(Seq<char>, JsonView)> {
    let m = Seq::empty();
    let m = m.push(("name"@, JsonView::Text(v.name)));
    let m = m.push(("cid"@, JsonView::Text(v.container_id)));
    m + media_source_item_members(v.common)
}

/// What a JSON value tells of an artist: each member is read in turn, and the
/// first that is missing or of the wrong kind decides the error.
pub open spec fn artist_source_item_of_json(
    j: JsonView,
) -> Result<ArtistSourceItemView, CommandErrorView> {
    let name = member_text(j, "name"@);
    let container_id = member_text(j, "cid"@);
    let common = media_source_item_of_json(j);
    if name is Err {
        Err(name->Err_0)
    } else if container_id is Err {
        Err(container_id->Err_0)
    } else if common is Err {
        Err(common->Err_0)
    } else {
        Ok(
            ArtistSourceItemView {
                name: name->Ok_0,
                container_id: container_id->Ok_0,
                common: common->Ok_0,
            },
        )
    }
}

impl ArtistSourceItem {
    /// Adds the members of the JSON form to an object under construction.
    pub fn put_members(&self, m: &mut Vec<(String, JsonValue)>)
        ensures
            JsonValue::member_views(final(m)@) == JsonValue::member_views(old(m)@)
                + artist_source_item_members(self@),
    {
        JsonValue::put_text(m, "name", self.name.as_str());
        JsonValue::put_text(m, "cid", self.container_id.as_str());
        self.common.put_members(m);
        assert(JsonValue::member_views(m@) =~= JsonValue::member_views(old(m)@)
            + artist_source_item_members(self@));
    }

    /// Writes the value as JSON.
    pub fn to_json(&self) -> (j: JsonValue)
        ensures
            j@ == artist_source_item_json(self@),
    {
        let mut m: Vec<(String, JsonValue)> = Vec::new();
        self.put_members(&mut m);
        assert(JsonValue::member_views(m@) =~= artist_source_item_members(self@));
        JsonValue::object(m)
    }

    /// Reads the value from JSON.
    pub fn from_json(j: &JsonValue) -> (r: Result<Self, CommandError>)
        ensures
            told_view(r, artist_source_item_of_json(j@)),
    {
        let name = j.member_text("name")?;
        let container_id = j.member_text("cid")?;
        let common = MediaSourceItem::from_json(j)?;
        Ok(ArtistSourceItem { name, container_id, common })
    }
}

/// An album.
#[derive(Debug)]
pub struct AlbumSourceItem {
    /// Name of the album.
    pub name: String,
    /// Name of the artist of the album.
    pub artist: String,
    /// Identifier of the album.
    pub container_id: String,
    /// What all media items have.
    pub common: MediaSourceItem,
}

/// A `AlbumSourceItem` as plain values.
pub ghost struct AlbumSourceItemView {
    pub name: Seq<char>,
    pub artist: Seq<char>,
    pub container_id: Seq<char>,
    pub common: MediaSourceItemView,
}

impl View for AlbumSourceItem {
    type V = AlbumSourceItemView;

    open spec fn view(&self) -> AlbumSourceItemView {
        AlbumSourceItemView {
            name: self.name@,
            artist: self.artist@,
            container_id: self.container_id@,
            common: self.common@,
        }
    }
}

impl Clone for AlbumSourceItem {
    fn clone(&self) -> (r: Self)
        ensures
            r@ == self@,
    {
        AlbumSourceItem {
            name: self.name.clone(),
            artist: self.artist.clone(),
            container_id: self.container_id.clone(),
            common: self.common.clone(),
        }
    }
}

/// The JSON form of an album.
pub open spec fn album_source_item_json(v: AlbumSourceItemView) -> JsonView {
    JsonView::Object(album_source_item_members(v))
}

/// The members of the JSON form of an album.
pub open spec fn album_source_item_members(v: AlbumSourceItemView) -> Seq<(Seq<char>, JsonView)> {
    let m = Seq::empty();
    let m = m.push(("name"@, JsonView::Text(v.name)));
    let m = m.push(("artist"@, JsonView::Text(v.artist)));
    let m = m.push(("cid"@, JsonView::Text(v.container_id)));
    m + media_source_item_members(v.common)
}

/// What a JSON value tells of an album: each member is read in turn, and the
/// first that is missing or of the wrong kind decides the error.
pub open spec fn album_source_item_of_json(
    j: JsonView,
) -> Result<AlbumSourceItemView, CommandErrorView> {
    let name = member_text(j, "name"@);
    let artist = member_text(j, "artist"@);
    let container_id = member_text(j, "cid"@);
    let common = media_source_item_of_json(j);
    if name is Err {
        Err(name->Err_0)
    } else if artist is Err {
        Err(artist->Err_0)
    } else if container_id is Err {
        Err(container_id->Err_0)
    } else if common is Err {
        Err(common->Err_0)
    } else {
        Ok(
            AlbumSourceItemView {
                name: name->Ok_0,
                artist: artist->Ok_0,
                container_id: container_id->Ok_0,
                common: common->Ok_0,
            },
        )
    }
}

impl AlbumSourceItem {
    /// Adds the members of the JSON form to an object under construction.
    pub fn put_members(&self, m: &mut Vec<(String, JsonValue)>)
        ensures
            JsonValue::member_views(final(m)@) == JsonValue::member_views(old(m)@)
                + album_source_item_members(self@),
    {
        JsonValue::put_text(m, "name", self.name.as_str());
        JsonValue::put_text(m, "artist", self.artist.as_str());
        JsonValue::put_text(m, "cid", self.container_id.as_str());
        self.common.put_members(m);
        assert(JsonValue::member_views(m@) =~= JsonValue::member_views(old(m)@)
            + album_source_item_members(self@));
    }

    /// Writes the value as JSON.
    pub fn to_json(&self) -> (j: JsonValue)
        ensures
            j@ == album_source_item_json(self@),
    {
        let mut m: Vec<(String, JsonValue)> = Vec::new();
        self.put_members(&mut m);
        assert(JsonValue::member_views(m@) =~= album_source_item_members(self@));
        JsonValue::object(m)
    }

    /// Reads the value from JSON.
    pub fn from_json(j: &JsonValue) -> (r: Result<Self, CommandError>)
        ensures
            told_view(r, album_source_item_of_json(j@)),
    {
        let name = j.member_text("name")?;
        let artist = j.member_text("artist")?;
        let container_id = j.member_text("cid")?;
        let common = MediaSourceItem::from_json(j)?;
        Ok(AlbumSourceItem { name, artist, container_id, common })
    }
}

/// A song.
#[derive(Debug)]
pub struct SongSourceItem {
    /// Name of the song.
    pub name: String,
    /// Name of the artist of the song.
    pub artist: String,
    /// Name of the album of the song; may be empty.
    pub album: String,
    /// What all media items have.
    pub common: MediaSourceItem,
}

/// A `SongSourceItem` as plain values.
pub ghost struct SongSourceItemView {
    pub name: Seq<char>,
    pub artist: Seq<char>,
    pub album: Seq<char>,
    pub common: MediaSourceItemView,
}

impl View for SongSourceItem {
    type V = SongSourceItemView;

    open spec fn view(&self) -> SongSourceItemView {
        SongSourceItemView {
            name: self.name@,
            artist: self.artist@,
            album: self.album@,
            common: self.common@,
        }
    }
}

impl Clone for SongSourceItem {
    fn clone(&self) -> (r: Self)
        ensures
            r@ == self@,
    {
        SongSourceItem {
            name: self.name.clone(),
            artist: self.artist.clone(),
            album: self.album.clone(),
            common: self.common.clone(),
        }
    }
}

/// The JSON form of a song.
pub open spec fn song_source_item_json(v: SongSourceItemView) -> JsonView {
    JsonView::Object(song_source_item_members(v))
}

/// The members of the JSON form of a song.
pub open spec fn song_source_item_members(v: SongSourceItemView) -> Seq<(Seq<char>, JsonView)> {
    let m = Seq::empty();
    let m = m.push(("name"@, JsonView::Text(v.name)));
    let m = m.push(("artist"@, JsonView::Text(v.artist)));
    let m = m.push(("album"@, JsonView::Text(v.album)));
    m + media_source_item_members(v.common)
}

/// What a JSON value tells of a song: each member is read in turn, and the
/// first that is missing or of the wrong kind decides the error.
pub open spec fn song_source_item_of_json(
    j: JsonView,
) -> Result<SongSourceItemView, CommandErrorView> {
    let name = member_text(j, "name"@);
    let artist = member_text(j, "artist"@);
    let album = member_text(j, "album"@);
    let common = media_source_item_of_json(j);
    if name is Err {
        Err(name->Err_0)
    } else if artist is Err {
        Err(artist->Err_0)
    } else if album is Err {
        Err(album->Err_0)
    } else if common is Err {
        Err(common->Err_0)
    } else {
        Ok(
            SongSourceItemView {
                name: name->Ok_0,
                artist: artist->Ok_0,
                album: album->Ok_0,
                common: common->Ok_0,
            },
        )
    }
}

impl SongSourceItem {
    /// Adds the members of the JSON form to an object under construction.
    pub fn put_members(&self, m: &mut Vec<(String, JsonValue)>)
        ensures
            JsonValue::member_views(final(m)@) == JsonValue::member_views(old(m)@)
                + song_source_item_members(self@),
    {
        JsonValue::put_text(m, "name", self.name.as_str());
        JsonValue::put_text(m, "artist", self.artist.as_str());
        JsonValue::put_text(m, "album", self.album.as_str());
        self.common.put_members(m);
        assert(JsonValue::member_views(m@) =~= JsonValue::member_views(old(m)@)
            + song_source_item_members(self@));
    }

    /// Writes the value as JSON.
    pub fn to_json(&self) -> (j: JsonValue)
        ensures
            j@ == song_source_item_json(self@),
    {
        let mut m: Vec<(String, JsonValue)> = Vec::new();
        self.put_members(&mut m);
        assert(JsonValue::member_views(m@) =~= song_source_item_members(self@));
        JsonValue::object(m)
    }

    /// Reads the value from JSON.
    pub fn from_json(j: &JsonValue) -> (r: Result<Self, CommandError>)
        ensures
            told_view(r, song_source_item_of_json(j@)),
    {
        let name = j.member_text("name")?;
        let artist = j.member_text("artist")?;
        let album = j.member_text("album")?;
        let common = MediaSourceItem::from_json(j)?;
        Ok(SongSourceItem { name, artist, album, common })
    }
}

/// A container: a folder of a media share, for one.
#[derive(Debug)]
pub struct ContainerSourceItem {
    /// Name of the container.
    pub name: String,
    /// Identifier of the container.
    pub container_id: String,
    /// What all media items have.
    pub common: MediaSourceItem,
}

/// A `ContainerSourceItem` as plain values.
pub ghost struct ContainerSourceItemView {
    pub name: Seq<char>,
    pub container_id: Seq<char>,
    pub common: MediaSourceItemView,
}

impl View for ContainerSourceItem {
    type V = ContainerSourceItemView;

    open spec fn view(&self) -> ContainerSourceItemView {
        ContainerSourceItemView {
            name: self.name@,
            container_id: self.container_id@,
            common: self.common@,
        }
    }
}

impl Clone for ContainerSourceItem {
    fn clone(&self) -> (r: Self)
        ensures
            r@ == self@,
    {
        ContainerSourceItem {
            name: self.name.clone(),
            container_id: self.container_id.clone(),
            common: self.common.clone(),
        }
    }
}

/// The JSON form of a container.
pub open spec fn container_source_item_json(v: ContainerSourceItemView) -> JsonView {
    JsonView::Object(container_source_item_members(v))
}

/// The members of the JSON form of a container.
pub open spec fn container_source_item_members(
    v: ContainerSourceItemView,
) -> Seq<(Seq<char>, JsonView)> {
    let m = Seq::empty();
    let m = m.push(("name"@, JsonView::Text(v.name)));
    let m = m.push(("cid"@, JsonView::Text(v.container_id)));
    m + media_source_item_members(v.common)
}

/// What a JSON value tells of a container: each member is read in turn, and the
/// first that is missing or of the wrong kind decides the error.
pub open spec fn container_source_item_of_json(
    j: JsonView,
) -> Result<ContainerSourceItemView, CommandErrorView> {
    let name = member_text(j, "name"@);
    let container_id = member_text(j, "cid"@);
    let common = media_source_item_of_json(j);
    if name is Err {
        Err(name->Err_0)
    } else if container_id is Err {
        Err(container_id->Err_0)
    } else if common is Err {
        Err(common->Err_0)
    } else {
        Ok(
            ContainerSourceItemView {
                name: name->Ok_0,
                container_id: container_id->Ok_0,
                common: common->Ok_0,
            },
        )
    }
}

impl ContainerSourceItem {
    /// Adds the members of the JSON form to an object under construction.
    pub fn put_members(&self, m: &mut Vec<(String, JsonValue)>)
        ensures
            JsonValue::member_views(final(m)@) == JsonValue::member_views(old(m)@)
                + container_source_item_members(self@),
    {
        JsonValue::put_text(m, "name", self.name.as_str());
        JsonValue::put_text(m, "cid", self.container_id.as_str());
        self.common.put_members(m);
        assert(JsonValue::member_views(m@) =~= JsonValue::member_views(old(m)@)
            + container_source_item_members(self@));
    }

    /// Writes the value as JSON.
    pub fn to_json(&self) -> (j: JsonValue)
        ensures
            j@ == container_source_item_json(self@),
    {
        let mut m: Vec<(String, JsonValue)> = Vec::new();
        self.put_members(&mut m);
        assert(JsonValue::member_views(m@) =~= container_source_item_members(self@));
        JsonValue::object(m)
    }

    /// Reads the value from JSON.
    pub fn from_json(j: &JsonValue) -> (r: Result<Self, CommandError>)
        ensures
            told_view(r, container_source_item_of_json(j@)),
    {
        let name = j.member_text("name")?;
        let container_id = j.member_text("cid")?;
        let common = MediaSourceItem::from_json(j)?;
        Ok(ContainerSourceItem { name, container_id, common })
    }
}

/// A station.
#[derive(Debug)]
pub struct StationSourceItem {
    /// Name of the station.
    pub name: String,
    /// What all media items have.
    pub common: MediaSourceItem,
}

/// A `StationSourceItem` as plain values.
pub ghost struct StationSourceItemView {
    pub name: Seq<char>,
    pub common: MediaSourceItemView,
}

impl View for StationSourceItem {
    type V = StationSourceItemView;

    open spec fn view(&self) -> StationSourceItemView {
        StationSourceItemView {
            name: self.name@,
            common: self.common@,
        }
    }
}

impl Clone for StationSourceItem {
    fn clone(&self) -> (r: Self)
        ensures
            r@ == self@,
    {
        StationSourceItem {
            name: self.name.clone(),
            common: self.common.clone(),
        }
    }
}

/// The JSON form of a station.
pub open spec fn station_source_item_json(v: StationSourceItemView) -> JsonView {
    JsonView::Object(station_source_item_members(v))
}

/// The members of the JSON form of a station.
pub open spec fn station_source_item_members(
    v: StationSourceItemView,
) -> Seq<(Seq<char>, JsonView)> {
    let m = Seq::empty();
    let m = m.push(("name"@, JsonView::Text(v.name)));
    m + media_source_item_members(v.common)
}

/// What a JSON value tells of a station: each member is read in turn, and the
/// first that is missing or of the wrong kind decides the error.
pub open spec fn station_source_item_of_json(
    j: JsonView,
) -> Result<StationSourceItemView, CommandErrorView> {
    let name = member_text(j, "name"@);
    let common = media_source_item_of_json(j);
    if name is Err {
        Err(name->Err_0)
    } else if common is Err {
        Err(common->Err_0)
    } else {
        Ok(
            StationSourceItemView {
                name: name->Ok_0,
                common: common->Ok_0,
            },
        )
    }
}

impl StationSourceItem {
    /// Adds the members of the JSON form to an object under construction.
    pub fn put_members(&self, m: &mut Vec<(String, JsonValue)>)
        ensures
            JsonValue::member_views(final(m)@) == JsonValue::member_views(old(m)@)
                + station_source_item_members(self@),
    {
        JsonValue::put_text(m, "name", self.name.as_str());
        self.common.put_members(m);
        assert(JsonValue::member_views(m@) =~= JsonValue::member_views(old(m)@)
            + station_source_item_members(self@));
    }

    /// Writes the value as JSON.
    pub fn to_json(&self) -> (j: JsonValue)
        ensures
            j@ == station_source_item_json(self@),
    {
        let mut m: Vec<(String, JsonValue)> = Vec::new();
        self.put_members(&mut m);
        assert(JsonValue::member_views(m@) =~= station_source_item_members(self@));
        JsonValue::object(m)
    }

    /// Reads the value from JSON.
    pub fn from_json(j: &JsonValue) -> (r: Result<Self, CommandError>)
        ensures
            told_view(r, station_source_item_of_json(j@)),
    {
        let name = j.member_text("name")?;
        let common = MediaSourceItem::from_json(j)?;
        Ok(StationSourceItem { name, common })
    }
}

/// A genre, used as a container.
#[derive(Debug)]
pub struct GenreSourceItem {
    /// Name of the genre.
    pub name: String,
    /// What all media items have.
    pub common: MediaSourceItem,
}

/// A `GenreSourceItem` as plain values.
pub ghost struct GenreSourceItemView {
    pub name: Seq<char>,
    pub common: MediaSourceItemView,
}

impl View for GenreSourceItem {
    type V = GenreSourceItemView;

    open spec fn view(&self) -> GenreSourceItemView {
        GenreSourceItemView {
            name: self.name@,
            common: self.common@,
        }
    }
}

impl Clone for GenreSourceItem {
    fn clone(&self) -> (r: Self)
        ensures
            r@ == self@,
    {
        GenreSourceItem {
            name: self.name.clone(),
            common: self.common.clone(),
        }
    }
}

/// The JSON form of a genre.
pub open spec fn genre_source_item_json(v: GenreSourceItemView) -> JsonView {
    JsonView::Object(genre_source_item_members(v))
}

/// The members of the JSON form of a genre.
pub open spec fn genre_source_item_members(v: GenreSourceItemView) -> Seq<(Seq<char>, JsonView)> {
    let m = Seq::empty();
    let m = m.push(("name"@, JsonView::Text(v.name)));
    m + media_source_item_members(v.common)
}

/// What a JSON value tells of a genre: each member is read in turn, and the
/// first that is missing or of the wrong kind decides the error.
pub open spec fn genre_source_item_of_json(
    j: JsonView,
) -> Result<GenreSourceItemView, CommandErrorView> {
    let name = member_text(j, "name"@);
    let common = media_source_item_of_json(j);
    if name is Err {
        Err(name->Err_0)
    } else if common is Err {
        Err(common->Err_0)
    } else {
        Ok(
            GenreSourceItemView {
                name: name->Ok_0,
                common: common->Ok_0,
            },
        )
    }
}

impl GenreSourceItem {
    /// Adds the members of the JSON form to an object under construction.
    pub fn put_members(&self, m: &mut Vec<(String, JsonValue)>)
        ensures
            JsonValue::member_views(final(m)@) == JsonValue::member_views(old(m)@)
                + genre_source_item_members(self@),
    {
        JsonValue::put_text(m, "name", self.name.as_str());
        self.common.put_members(m);
        assert(JsonValue::member_views(m@) =~= JsonValue::member_views(old(m)@)
            + genre_source_item_members(self@));
    }

    /// Writes the value as JSON.
    pub fn to_json(&self) -> (j: JsonValue)
        ensures
            j@ == genre_source_item_json(self@),
    {
        let mut m: Vec<(String, JsonValue)> = Vec::new();
        self.put_members(&mut m);
        assert(JsonValue::member_views(m@) =~= genre_source_item_members(self@));
        JsonValue::object(m)
    }

    /// Reads the value from JSON.
    pub fn from_json(j: &JsonValue) -> (r: Result<Self, CommandError>)
        ensures
            told_view(r, genre_source_item_of_json(j@)),
    {
        let name = j.member_text("name")?;
        let common = MediaSourceItem::from_json(j)?;
        Ok(GenreSourceItem { name, common })
    }
}

/// One image of an album.
#[derive(Debug)]
pub struct AlbumImageMetadata {
    /// Address of the image.
    pub image_url: String,
    /// Width of the image.
    pub width: usize,
}

/// A `AlbumImageMetadata` as plain values.
pub ghost struct AlbumImageMetadataView {
    pub image_url: Seq<char>,
    pub width: usize,
}

impl View for AlbumImageMetadata {
    type V = AlbumImageMetadataView;

    open spec fn view(&self) -> AlbumImageMetadataView {
        AlbumImageMetadataView {
            image_url: self.image_url@,
            width: self.width,
        }
    }
}

impl Clone for AlbumImageMetadata {
    fn clone(&self) -> (r: Self)
        ensures
            r@ == self@,
    {
        AlbumImageMetadata {
            image_url: self.image_url.clone(),
            width: self.width,
        }
    }
}

/// The JSON form of an album image.
pub open spec fn album_image_metadata_json(v: AlbumImageMetadataView) -> JsonView {
    JsonView::Object(album_image_metadata_members(v))
}

/// The members of the JSON form of an album image.
pub open spec fn album_image_metadata_members(
    v: AlbumImageMetadataView,
) -> Seq<(Seq<char>, JsonView)> {
    let m = Seq::empty();
    let m = m.push(("image_url"@, JsonView::Text(v.image_url)));
    m.push(("width"@, JsonView::PosInt(v.width as u64)))
}

/// What a JSON value tells of an album image: each member is read in turn, and the
/// first that is missing or of the wrong kind decides the error.
pub open spec fn album_image_metadata_of_json(
    j: JsonView,
) -> Result<AlbumImageMetadataView, CommandErrorView> {
    let image_url = member_url(j, "image_url"@);
    let width = member_usize(j, "width"@);
    if image_url is Err {
        Err(image_url->Err_0)
    } else if width is Err {
        Err(width->Err_0)
    } else {
        Ok(
            AlbumImageMetadataView {
                image_url: image_url->Ok_0,
                width: width->Ok_0,
            },
        )
    }
}

impl AlbumImageMetadata {
    /// Adds the members of the JSON form to an object under construction.
    pub fn put_members(&self, m: &mut Vec<(String, JsonValue)>)
        ensures
            JsonValue::member_views(final(m)@) == JsonValue::member_views(old(m)@)
                + album_image_metadata_members(self@),
    {
        JsonValue::put_text(m, "image_url", self.image_url.as_str());
        JsonValue::put(m, "width", JsonValue::PosInt(self.width as u64));
        assert(JsonValue::member_views(m@) =~= JsonValue::member_views(old(m)@)
            + album_image_metadata_members(self@));
    }

    /// Writes the value as JSON.
    pub fn to_json(&self) -> (j: JsonValue)
        ensures
            j@ == album_image_metadata_json(self@),
    {
        let mut m: Vec<(String, JsonValue)> = Vec::new();
        self.put_members(&mut m);
        assert(JsonValue::member_views(m@) =~= album_image_metadata_members(self@));
        JsonValue::object(m)
    }

    /// Reads the value from JSON.
    pub fn from_json(j: &JsonValue) -> (r: Result<Self, CommandError>)
        ensures
            told_view(r, album_image_metadata_of_json(j@)),
    {
        let image_url = url_member(j, "image_url")?;
        let width = usize_member(j, "width")?;
        Ok(AlbumImageMetadata { image_url, width })
    }
}

/// The JSON form of a list of album images.
pub open spec fn album_image_metadata_list_json(items: Seq<AlbumImageMetadataView>) -> JsonView {
    JsonView::Array(items.map_values(|v: AlbumImageMetadataView| album_image_metadata_json(v)))
}

/// What a JSON value tells of a list of album images.
pub open spec fn album_image_metadata_list_of_json(
    j: JsonView,
) -> Result<Seq<AlbumImageMetadataView>, CommandErrorView> {
    match items_of(j, "payload"@) {
        Err(e) => Err(e),
        Ok(items) => decode_each(items, |item: JsonView| album_image_metadata_of_json(item)),
    }
}

/// Writes a list of album images as JSON.
pub fn album_image_metadata_list_to_json(items: &Vec<AlbumImageMetadata>) -> (j: JsonValue)
    ensures
        j@ == album_image_metadata_list_json(views(items@)),
{
    let mut out: Vec<JsonValue> = Vec::new();
    let mut i: usize = 0;
    while i < items.len()
        invariant
            i <= items.len(),
            JsonValue::item_views(out@) == views(items@.take(i as int)).map_values(
                |v: AlbumImageMetadataView| album_image_metadata_json(v),
            ),
        decreases items.len() - i,
    {
        let ghost before = JsonValue::item_views(out@);
        JsonValue::add(&mut out, items[i].to_json());
        proof {
            lemma_views_take_next(items@, i as int);
            assert(views(items@.take(i + 1)).map_values(
                |v: AlbumImageMetadataView| album_image_metadata_json(v),
            ) =~= before.push(
                album_image_metadata_json(items@[i as int]@),
            ));
        }
        i += 1;
    }
    assert(items@.take(i as int) =~= items@);
    JsonValue::array(out)
}

/// Reads a list of album images from JSON.
pub fn album_image_metadata_list_from_json(
    j: &JsonValue,
) -> (r: Result<Vec<AlbumImageMetadata>, CommandError>)
    ensures
        match r {
            Ok(items) => album_image_metadata_list_of_json(j@) == Ok::<
                Seq<AlbumImageMetadataView>,
                CommandErrorView,
            >(views(items@)),
            Err(e) => album_image_metadata_list_of_json(j@) == Err::<
                Seq<AlbumImageMetadataView>,
                CommandErrorView,
            >(e@),
        },
{
    let values = j.items("payload")?;
    let ghost all = JsonValue::item_views(values@);
    let mut out: Vec<AlbumImageMetadata> = Vec::new();
    let mut i: usize = 0;
    assert(all.take(0) =~= Seq::empty());
    assert(views(out@) =~= Seq::<AlbumImageMetadataView>::empty());
    while i < values.len()
        invariant
            i <= values.len(),
            all == JsonValue::item_views(values@),
            items_of(j@, "payload"@) == Ok::<Seq<JsonView>, CommandErrorView>(all),
            decode_each(all.take(i as int), |item: JsonView| album_image_metadata_of_json(item)) == Ok::<
                Seq<AlbumImageMetadataView>,
                CommandErrorView,
            >(views(out@)),
        decreases values.len() - i,
    {
        proof {
            assert(all.take(i + 1).drop_last() =~= all.take(i as int));
            assert(all.take(i + 1).last() == values@[i as int]@);
        }
        match AlbumImageMetadata::from_json(&values[i]) {
            Ok(item) => {
                proof {
                    lemma_views_push(out@, item);
                }
                out.push(item);
            },
            Err(e) => {
                proof {
                    lemma_decode_each_prefix(
                        all,
                        |item: JsonView| album_image_metadata_of_json(item),
                        i + 1,
                    );
                }
                return Err(e);
            },
        }
        i += 1;
    }
    assert(all.take(i as int) =~= all);
    Ok(out)
}

/// One item of what browsing or searching a source returns.
#[derive(Debug)]
pub enum SourceItem {
    /// An item of a service of the system itself.
    HeosService(HeosSourceItem),
    /// An item of a server of the system itself.
    HeosServer(HeosSourceItem),
    /// An artist.
    Artist(ArtistSourceItem),
    /// An album.
    Album(AlbumSourceItem),
    /// A song.
    Song(SongSourceItem),
    /// A container.
    Container(ContainerSourceItem),
    /// A station.
    Station(StationSourceItem),
    /// A genre.
    Genre(GenreSourceItem),
}

/// A `SourceItem` as plain values.
pub ghost enum SourceItemView {
    HeosService(HeosSourceItemView),
    HeosServer(HeosSourceItemView),
    Artist(ArtistSourceItemView),
    Album(AlbumSourceItemView),
    Song(SongSourceItemView),
    Container(ContainerSourceItemView),
    Station(StationSourceItemView),
    Genre(GenreSourceItemView),
}

impl View for SourceItem {
    type V = SourceItemView;

    open spec fn view(&self) -> SourceItemView {
        match self {
            SourceItem::HeosService(item) => SourceItemView::HeosService(item@),
            SourceItem::HeosServer(item) => SourceItemView::HeosServer(item@),
            SourceItem::Artist(item) => SourceItemView::Artist(item@),
            SourceItem::Album(item) => SourceItemView::Album(item@),
            SourceItem::Song(item) => SourceItemView::Song(item@),
            SourceItem::Container(item) => SourceItemView::Container(item@),
            SourceItem::Station(item) => SourceItemView::Station(item@),
            SourceItem::Genre(item) => SourceItemView::Genre(item@),
        }
    }
}

/// What a JSON value tells of an item: the member `type` names the kind,
/// the other members describe the item.
pub open spec fn source_item_of_json(j: JsonView) -> Result<SourceItemView, CommandErrorView> {
    match member_text(j, "type"@) {
        Err(e) => Err(e),
        Ok(kind) => if kind == "heos_service"@ {
            match heos_source_item_of_json(j) {
                Ok(item) => Ok(SourceItemView::HeosService(item)),
                Err(e) => Err(e),
            }
        } else if kind == "heos_server"@ {
            match heos_source_item_of_json(j) {
                Ok(item) => Ok(SourceItemView::HeosServer(item)),
                Err(e) => Err(e),
            }
        } else if kind == "artist"@ {
            match artist_source_item_of_json(j) {
                Ok(item) => Ok(SourceItemView::Artist(item)),
                Err(e) => Err(e),
            }
        } else if kind == "album"@ {
            match album_source_item_of_json(j) {
                Ok(item) => Ok(SourceItemView::Album(item)),
                Err(e) => Err(e),
            }
        } else if kind == "song"@ {
            match song_source_item_of_json(j) {
                Ok(item) => Ok(SourceItemView::Song(item)),
                Err(e) => Err(e),
            }
        } else if kind == "container"@ {
            match container_source_item_of_json(j) {
                Ok(item) => Ok(SourceItemView::Container(item)),
                Err(e) => Err(e),
            }
        } else if kind == "station"@ {
            match station_source_item_of_json(j) {
                Ok(item) => Ok(SourceItemView::Station(item)),
                Err(e) => Err(e),
            }
        } else if kind == "genre"@ {
            match genre_source_item_of_json(j) {
                Ok(item) => Ok(SourceItemView::Genre(item)),
                Err(e) => Err(e),
            }
        } else {
            Err(incorrect_data_type("SourceItem"@, "type"@))
        },
    }
}

impl SourceItem {
    /// Reads the value from JSON.
    pub fn from_json(j: &JsonValue) -> (r: Result<Self, CommandError>)
        ensures
            told_view(r, source_item_of_json(j@)),
    {
        let kind = j.member_text("type")?;
        if kind.as_str().eq("heos_service") {
            Ok(SourceItem::HeosService(HeosSourceItem::from_json(j)?))
        } else if kind.as_str().eq("heos_server") {
            Ok(SourceItem::HeosServer(HeosSourceItem::from_json(j)?))
        } else if kind.as_str().eq("artist") {
            Ok(SourceItem::Artist(ArtistSourceItem::from_json(j)?))
        } else if kind.as_str().eq("album") {
            Ok(SourceItem::Album(AlbumSourceItem::from_json(j)?))
        } else if kind.as_str().eq("song") {
            Ok(SourceItem::Song(SongSourceItem::from_json(j)?))
        } else if kind.as_str().eq("container") {
            Ok(SourceItem::Container(ContainerSourceItem::from_json(j)?))
        } else if kind.as_str().eq("station") {
            Ok(SourceItem::Station(StationSourceItem::from_json(j)?))
        } else if kind.as_str().eq("genre") {
            Ok(SourceItem::Genre(GenreSourceItem::from_json(j)?))
        } else {
            Err(CommandError::response_incorrect_data_type("SourceItem", "type"))
        }
    }

    /// The address of the image of the item, if it has one.
    pub fn image_url(&self) -> (r: &Option<String>)
        ensures
            opt_text(*r) == match self@ {
                SourceItemView::HeosService(item) => item.image_url,
                SourceItemView::HeosServer(item) => item.image_url,
                SourceItemView::Artist(item) => item.common.image_url,
                SourceItemView::Album(item) => item.common.image_url,
                SourceItemView::Song(item) => item.common.image_url,
                SourceItemView::Container(item) => item.common.image_url,
                SourceItemView::Station(item) => item.common.image_url,
                SourceItemView::Genre(item) => item.common.image_url,
            },
    {
        match self {
            SourceItem::HeosService(item) => &item.image_url,
            SourceItem::HeosServer(item) => &item.image_url,
            SourceItem::Artist(item) => &item.common.image_url,
            SourceItem::Album(item) => &item.common.image_url,
            SourceItem::Song(item) => &item.common.image_url,
            SourceItem::Container(item) => &item.common.image_url,
            SourceItem::Station(item) => &item.common.image_url,
            SourceItem::Genre(item) => &item.common.image_url,
        }
    }
}

/// What a JSON value tells of a list of items.
pub open spec fn source_item_list_of_json(
    j: JsonView,
) -> Result<Seq<SourceItemView>, CommandErrorView> {
    match items_of(j, "payload"@) {
        Err(e) => Err(e),
        Ok(items) => decode_each(items, |item: JsonView| source_item_of_json(item)),
    }
}

/// Reads a list of items from JSON.
pub fn source_item_list_from_json(j: &JsonValue) -> (r: Result<Vec<SourceItem>, CommandError>)
    ensures
        match r {
            Ok(items) => source_item_list_of_json(j@) == Ok::<
                Seq<SourceItemView>,
                CommandErrorView,
            >(views(items@)),
            Err(e) => source_item_list_of_json(j@) == Err::<Seq<SourceItemView>, CommandErrorView>(
                e@,
            ),
        },
{
    let values = j.items("payload")?;
    let ghost all = JsonValue::item_views(values@);
    let mut out: Vec<SourceItem> = Vec::new();
    let mut i: usize = 0;
    assert(all.take(0) =~= Seq::empty());
    assert(views(out@) =~= Seq::<SourceItemView>::empty());
    while i < values.len()
        invariant
            i <= values.len(),
            all == JsonValue::item_views(values@),
            items_of(j@, "payload"@) == Ok::<Seq<JsonView>, CommandErrorView>(all),
            decode_each(all.take(i as int), |item: JsonView| source_item_of_json(item)) == Ok::<
                Seq<SourceItemView>,
                CommandErrorView,
            >(views(out@)),
        decreases values.len() - i,
    {
        proof {
            assert(all.take(i + 1).drop_last() =~= all.take(i as int));
            assert(all.take(i + 1).last() == values@[i as int]@);
        }
        match SourceItem::from_json(&values[i]) {
            Ok(item) => {
                proof {
                    lemma_views_push(out@, item);
                }
                out.push(item);
            },
            Err(e) => {
                proof {
                    lemma_decode_each_prefix(
                        all,
                        |item: JsonView| source_item_of_json(item),
                        i + 1,
                    );
                }
                return Err(e);
            },
        }
        i += 1;
    }
    assert(all.take(i as int) =~= all);
    Ok(out)
}

/// The album art of an album.
#[derive(Debug)]
pub struct AlbumMetadata {
    /// Identifier of the album.
    pub album_id: String,
    /// The images of the album: often one picture in several sizes.
    pub images: Vec<AlbumImageMetadata>,
}

/// An `AlbumMetadata` as plain values.
pub ghost struct AlbumMetadataView {
    pub album_id: Seq<char>,
    pub images: Seq<AlbumImageMetadataView>,
}

impl View for AlbumMetadata {
    type V = AlbumMetadataView;

    open spec fn view(&self) -> AlbumMetadataView {
        AlbumMetadataView { album_id: self.album_id@, images: views(self.images@) }
    }
}

/// What a JSON value tells of the art of an album.
pub open spec fn album_metadata_of_json(
    j: JsonView,
) -> Result<AlbumMetadataView, CommandErrorView> {
    match member_text(j, "album_id"@) {
        Err(e) => Err(e),
        Ok(album_id) => match member(j, "images"@) {
            Err(e) => Err(e),
            Ok(list) => match album_image_metadata_list_of_json(list) {
                Err(e) => Err(e),
                Ok(images) => Ok(AlbumMetadataView { album_id, images }),
            },
        },
    }
}

impl AlbumMetadata {
    /// Reads the value from JSON.
    pub fn from_json(j: &JsonValue) -> (r: Result<Self, CommandError>)
        ensures
            told_view(r, album_metadata_of_json(j@)),
    {
        let album_id = j.member_text("album_id")?;
        let list = j.member("images")?;
        let images = album_image_metadata_list_from_json(list)?;
        Ok(AlbumMetadata { album_id, images })
    }
}

/// What a JSON value tells of a list of album art.
pub open spec fn album_metadata_list_of_json(
    j: JsonView,
) -> Result<Seq<AlbumMetadataView>, CommandErrorView> {
    match items_of(j, "payload"@) {
        Err(e) => Err(e),
        Ok(items) => decode_each(items, |item: JsonView| album_metadata_of_json(item)),
    }
}

/// Reads a list of album art from JSON.
pub fn album_metadata_list_from_json(j: &JsonValue) -> (r: Result<Vec<AlbumMetadata>, CommandError>)
    ensures
        match r {
            Ok(items) => album_metadata_list_of_json(j@) == Ok::<
                Seq<AlbumMetadataView>,
                CommandErrorView,
            >(views(items@)),
            Err(e) => album_metadata_list_of_json(j@) == Err::<
                Seq<AlbumMetadataView>,
                CommandErrorView,
            >(e@),
        },
{
    let values = j.items("payload")?;
    let ghost all = JsonValue::item_views(values@);
    let mut out: Vec<AlbumMetadata> = Vec::new();
    let mut i: usize = 0;
    assert(all.take(0) =~= Seq::empty());
    assert(views(out@) =~= Seq::<AlbumMetadataView>::empty());
    while i < values.len()
        invariant
            i <= values.len(),
            all == JsonValue::item_views(values@),
            items_of(j@, "payload"@) == Ok::<Seq<JsonView>, CommandErrorView>(all),
            decode_each(all.take(i as int), |item: JsonView| album_metadata_of_json(item)) == Ok::<
                Seq<AlbumMetadataView>,
                CommandErrorView,
            >(views(out@)),
        decreases values.len() - i,
    {
        proof {
            assert(all.take(i + 1).drop_last() =~= all.take(i as int));
            assert(all.take(i + 1).last() == values@[i as int]@);
        }
        match AlbumMetadata::from_json(&values[i]) {
            Ok(item) => {
                proof {
                    lemma_views_push(out@, item);
                }
                out.push(item);
            },
            Err(e) => {
                proof {
                    lemma_decode_each_prefix(
                        all,
                        |item: JsonView| album_metadata_of_json(item),
                        i + 1,
                    );
                }
                return Err(e);
            },
        }
        i += 1;
    }
    assert(all.take(i as int) =~= all);
    Ok(out)
}

/// What a search returns.
#[derive(Debug)]
pub struct SearchResults {
    /// How many items the search has found in all. Where this is more
    /// than `source_items` holds, the search has to be asked again for the
    /// rest.
    pub count: usize,
    /// The items returned.
    pub source_items: Vec<SourceItem>,
}

/// A `SearchResults` as plain values.
pub ghost struct SearchResultsView {
    pub count: usize,
    pub source_items: Seq<SourceItemView>,
}

impl View for SearchResults {
    type V = SearchResultsView;

    open spec fn view(&self) -> SearchResultsView {
        SearchResultsView { count: self.count, source_items: views(self.source_items@) }
    }
}

} // verus!
