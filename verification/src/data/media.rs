//! Media items under the names that front ends use for them.

use vstd::prelude::*;
use vstd::string::*;
use crate::data::item::{
    AlbumSourceItem,
    ArtistSourceItem,
    ContainerSourceItem,
    GenreSourceItem,
    HeosSourceItem,
    MediaSourceItem,
    MediaSourceItemView,
    SongSourceItem,
    SongSourceItemView,
    SourceItem,
    SourceItemView,
    StationSourceItem,
};
use crate::data::queue::QueuedTrackInfo;

verus! {

/// An item of a source of the system itself.
pub type HeosMediaItem = HeosSourceItem;

/// What all media items have in common.
pub type CommonMediaItem = MediaSourceItem;

/// An artist.
pub type ArtistMediaItem = ArtistSourceItem;

/// An album.
pub type AlbumMediaItem = AlbumSourceItem;

/// A song.
pub type SongMediaItem = SongSourceItem;

/// A container.
pub type ContainerMediaItem = ContainerSourceItem;

/// A station.
pub type StationMediaItem = StationSourceItem;

/// A genre.
pub type GenreMediaItem = GenreSourceItem;

/// Any media item.
pub type MediaItem = SourceItem;

/// The song that a track of a queue is: playable, with the image and the
/// identifier of the track.
pub open spec fn song_of_track(track: crate::data::queue::TrackView) -> SongSourceItemView {
    SongSourceItemView {
        name: track.song,
        artist: track.artist,
        album: track.album,
        common: MediaSourceItemView {
            playable: true,
            image_url: track.image_url,
            media_id: Some(track.media_id),
        },
    }
}

/// The song that a track of a queue is.
pub fn song_from_track(track: QueuedTrackInfo) -> (r: SongSourceItem)
    ensures
        r@ == song_of_track(track@),
{
    SongSourceItem {
        name: track.song,
        artist: track.artist,
        album: track.album,
        common: MediaSourceItem {
            playable: true,
            image_url: track.image_url,
            media_id: Some(track.media_id),
        },
    }
}

/// The media item that a track of a queue is: a song.
pub fn media_item_from_track(track: QueuedTrackInfo) -> (r: SourceItem)
    ensures
        r@ == SourceItemView::Song(song_of_track(track@)),
{
    SourceItem::Song(song_from_track(track))
}

} // verus!
