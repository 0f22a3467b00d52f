//! Data types of the queue of a player and of what it plays now.

use vstd::prelude::*;
use vstd::string::*;
use crate::data::player::clone_opt_string;
use crate::data::source::SourceId;
use crate::text::{FromText, int_text, opt_text, parse_u64, text_u64, u64_to_string};
use crate::views::{lemma_views_push, lemma_views_take_next, views};

verus! {

/// A place in the queue of a player. `0` is the track that plays now; the
/// queued tracks count from `1`.
#[derive(Clone, Copy, Debug, PartialEq, Eq, Hash, Structural)]
pub struct QueueId(pub u64);

impl QueueId {
    /// The decimal text of the identifier, as it stands on the wire.
    pub fn to_string(&self) -> (s: String)
        ensures
            s@ == int_text(self.0 as int),
    {
        u64_to_string(self.0)
    }

    /// What reading a decimal text gives.
    pub open spec fn from_text(s: Seq<char>) -> Option<Self> {
        match text_u64(s) {
            Some(value) => Some(QueueId(value)),
            None => None,
        }
    }

    /// Reads the decimal text of an identifier.
    pub fn parse(s: &str) -> (r: Option<Self>)
        ensures
            r == Self::from_text(s@),
    {
        match parse_u64(s) {
            Some(value) => Some(QueueId(value)),
            None => None,
        }
    }
}

impl FromText for QueueId {
    open spec fn read(s: Seq<char>) -> Option<Self> {
        Self::from_text(s)
    }

    fn parse_text(s: &str) -> (r: Option<Self>) {
        Self::parse(s)
    }
}

/// What is known of one track of a queue.
#[derive(Debug)]
pub struct QueuedTrackInfo {
    /// Name of the song.
    pub song: String,
    /// Name of the album; may be empty.
    pub album: String,
    /// Name of the artist.
    pub artist: String,
    /// Address of the album art, if the system gave one.
    pub image_url: Option<String>,
    /// Identifier of the track among all media.
    pub media_id: String,
    /// The place of the track in its queue.
    pub queue_id: QueueId,
    /// Identifier of the album, where the track belongs to one.
    pub album_id: Option<String>,
}

/// A `QueuedTrackInfo` as plain values.
pub ghost struct TrackView {
    pub song: Seq<char>,
    pub album: Seq<char>,
    pub artist: Seq<char>,
    pub image_url: Option<Seq<char>>,
    pub media_id: Seq<char>,
    pub queue_id: QueueId,
    pub album_id: Option<Seq<char>>,
}

impl View for QueuedTrackInfo {
    type V = TrackView;

    open spec fn view(&self) -> TrackView {
        TrackView {
            song: self.song@,
            album: self.album@,
            artist: self.artist@,
            image_url: opt_text(self.image_url),
            media_id: self.media_id@,
            queue_id: self.queue_id,
            album_id: opt_text(self.album_id),
        }
    }
}

impl Clone for QueuedTrackInfo {
    fn clone(&self) -> (r: Self)
        ensures
            r@ == self@,
    {
        QueuedTrackInfo {
            song: self.song.clone(),
            album: self.album.clone(),
            artist: self.artist.clone(),
            image_url: clone_opt_string(&self.image_url),
            media_id: self.media_id.clone(),
            queue_id: self.queue_id,
            album_id: clone_opt_string(&self.album_id),
        }
    }
}

/// A copy of a list of tracks.
pub fn clone_tracks(tracks: &Vec<QueuedTrackInfo>) -> (r: Vec<QueuedTrackInfo>)
    ensures
        views(r@) == views(tracks@),
{
    let mut r: Vec<QueuedTrackInfo> = Vec::new();
    let mut i: usize = 0;
    while i < tracks.len()
        invariant
            i <= tracks.len(),
            views(r@) == views(tracks@.take(i as int)),
        decreases tracks.len() - i,
    {
        let copy = tracks[i].clone();
        proof {
            lemma_views_push(r@, copy);
            lemma_views_take_next(tracks@, i as int);
        }
        r.push(copy);
        i += 1;
    }
    assert(tracks@.take(i as int) =~= tracks@);
    r
}

/// What a player plays now.
#[derive(Debug)]
pub enum NowPlayingInfo {
    /// A song.
    Song {
        /// The track.
        info: QueuedTrackInfo,
        /// The source that the song comes from.
        source_id: SourceId,
    },
    /// A station.
    Station {
        /// The track.
        info: QueuedTrackInfo,
        /// Name of the station.
        station: String,
        /// The source that the station comes from.
        source_id: SourceId,
    },
}

/// A `NowPlayingInfo` as plain values.
pub ghost enum NowPlayingInfoView {
    Song { info: TrackView, source_id: SourceId },
    Station { info: TrackView, station: Seq<char>, source_id: SourceId },
}

impl View for NowPlayingInfo {
    type V = NowPlayingInfoView;

    open spec fn view(&self) -> NowPlayingInfoView {
        match self {
            NowPlayingInfo::Song { info, source_id } => NowPlayingInfoView::Song {
                info: info@,
                source_id: *source_id,
            },
            NowPlayingInfo::Station { info, station, source_id } => NowPlayingInfoView::Station {
                info: info@,
                station: station@,
                source_id: *source_id,
            },
        }
    }
}

impl Clone for NowPlayingInfo {
    fn clone(&self) -> (r: Self)
        ensures
            r@ == self@,
    {
        match self {
            NowPlayingInfo::Song { info, source_id } => NowPlayingInfo::Song {
                info: info.clone(),
                source_id: *source_id,
            },
            NowPlayingInfo::Station { info, station, source_id } => NowPlayingInfo::Station {
                info: info.clone(),
                station: station.clone(),
                source_id: *source_id,
            },
        }
    }
}

impl NowPlayingInfoView {
    /// The track that plays.
    pub open spec fn track(self) -> TrackView {
        match self {
            NowPlayingInfoView::Song { info, .. } => info,
            NowPlayingInfoView::Station { info, .. } => info,
        }
    }

    /// The same with another track.
    pub open spec fn with_track(self, track: TrackView) -> NowPlayingInfoView {
        match self {
            NowPlayingInfoView::Song { info, source_id } => NowPlayingInfoView::Song {
                info: track,
                source_id,
            },
            NowPlayingInfoView::Station { info, station, source_id } => NowPlayingInfoView::Station {
                info: track,
                station,
                source_id,
            },
        }
    }
}

impl NowPlayingInfo {
    /// The track that plays.
    pub fn info(&self) -> (r: &QueuedTrackInfo)
        ensures
            r@ == self@.track(),
    {
        match self {
            NowPlayingInfo::Song { info, .. } => info,
            NowPlayingInfo::Station { info, .. } => info,
        }
    }
}

} // verus!
