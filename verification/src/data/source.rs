//! Data types that describe music sources and what they offer.

use vstd::prelude::*;
use vstd::string::*;
use crate::data::player::clone_opt_string;
use crate::text::{FromText, i64_to_string, int_text, opt_text, parse_i64, text_i64};

verus! {

/// Identifier of a music source: the well-known sources by name, any other by number.
#[derive(Clone, Copy, Debug, PartialEq, Eq, Hash, Structural)]
pub enum SourceId {
    /// Pandora.
    Pandora,
    /// Rhapsody.
    Rhapsody,
    /// TuneIn.
    TuneIn,
    /// Spotify.
    Spotify,
    /// Deezer.
    Deezer,
    /// Napster.
    Napster,
    /// iHeartRadio.
    IHeartRadio,
    /// Sirius XM.
    SiriusXm,
    /// Soundcloud.
    Soundcloud,
    /// Tidal.
    Tidal,
    /// Amazon Music.
    AmazonMusic,
    /// Moodmix.
    Moodmix,
    /// QQ Music.
    QQMusic,
    /// Qobuz.
    Qobuz,
    /// Local media on USB or a DLNA server.
    LocalUsbOrDlna,
    /// The playlists of the system.
    HeosPlaylists,
    /// What was played before.
    HeosHistory,
    /// The auxiliary inputs of the players.
    HeosAuxInputs,
    /// The favourites of the system.
    HeosFavorites,
    /// A source that this library has no name for.
    Unknown(i64),
}

impl SourceId {
    /// The value that a wire number stands for: a named one where the
    /// number is known, `Unknown` with the number where it is not.
    pub open spec fn of_code(code: i64) -> Self {
        if code == 1 {
            SourceId::Pandora
        } else if code == 2 {
            SourceId::Rhapsody
        } else if code == 3 {
            SourceId::TuneIn
        } else if code == 4 {
            SourceId::Spotify
        } else if code == 5 {
            SourceId::Deezer
        } else if code == 6 {
            SourceId::Napster
        } else if code == 7 {
            SourceId::IHeartRadio
        } else if code == 8 {
            SourceId::SiriusXm
        } else if code == 9 {
            SourceId::Soundcloud
        } else if code == 10 {
            SourceId::Tidal
        } else if code == 13 {
            SourceId::AmazonMusic
        } else if code == 15 {
            SourceId::Moodmix
        } else if code == 18 {
            SourceId::QQMusic
        } else if code == 30 {
            SourceId::Qobuz
        } else if code == 1024 {
            SourceId::LocalUsbOrDlna
        } else if code == 1025 {
            SourceId::HeosPlaylists
        } else if code == 1026 {
            SourceId::HeosHistory
        } else if code == 1027 {
            SourceId::HeosAuxInputs
        } else if code == 1028 {
            SourceId::HeosFavorites
        } else {
            SourceId::Unknown(code)
        }
    }

    /// The wire number of this value.
    pub open spec fn code(self) -> i64 {
        match self {
            SourceId::Pandora => 1,
            SourceId::Rhapsody => 2,
            SourceId::TuneIn => 3,
            SourceId::Spotify => 4,
            SourceId::Deezer => 5,
            SourceId::Napster => 6,
            SourceId::IHeartRadio => 7,
            SourceId::SiriusXm => 8,
            SourceId::Soundcloud => 9,
            SourceId::Tidal => 10,
            SourceId::AmazonMusic => 13,
            SourceId::Moodmix => 15,
            SourceId::QQMusic => 18,
            SourceId::Qobuz => 30,
            SourceId::LocalUsbOrDlna => 1024,
            SourceId::HeosPlaylists => 1025,
            SourceId::HeosHistory => 1026,
            SourceId::HeosAuxInputs => 1027,
            SourceId::HeosFavorites => 1028,
            SourceId::Unknown(code) => code,
        }
    }

    /// Reads a wire number. Never fails: a number without a name is kept
    /// as `Unknown`.
    pub fn from(value: i64) -> (r: Self)
        ensures
            r == Self::of_code(value),
            r.code() == value,
    {
        if value == 1 {
            SourceId::Pandora
        } else if value == 2 {
            SourceId::Rhapsody
        } else if value == 3 {
            SourceId::TuneIn
        } else if value == 4 {
            SourceId::Spotify
        } else if value == 5 {
            SourceId::Deezer
        } else if value == 6 {
            SourceId::Napster
        } else if value == 7 {
            SourceId::IHeartRadio
        } else if value == 8 {
            SourceId::SiriusXm
        } else if value == 9 {
            SourceId::Soundcloud
        } else if value == 10 {
            SourceId::Tidal
        } else if value == 13 {
            SourceId::AmazonMusic
        } else if value == 15 {
            SourceId::Moodmix
        } else if value == 18 {
            SourceId::QQMusic
        } else if value == 30 {
            SourceId::Qobuz
        } else if value == 1024 {
            SourceId::LocalUsbOrDlna
        } else if value == 1025 {
            SourceId::HeosPlaylists
        } else if value == 1026 {
            SourceId::HeosHistory
        } else if value == 1027 {
            SourceId::HeosAuxInputs
        } else if value == 1028 {
            SourceId::HeosFavorites
        } else {
            SourceId::Unknown(value)
        }
    }

    /// The wire number of this value.
    pub fn to_code(&self) -> (r: i64)
        ensures
            r == self.code(),
    {
        match self {
            SourceId::Pandora => 1,
            SourceId::Rhapsody => 2,
            SourceId::TuneIn => 3,
            SourceId::Spotify => 4,
            SourceId::Deezer => 5,
            SourceId::Napster => 6,
            SourceId::IHeartRadio => 7,
            SourceId::SiriusXm => 8,
            SourceId::Soundcloud => 9,
            SourceId::Tidal => 10,
            SourceId::AmazonMusic => 13,
            SourceId::Moodmix => 15,
            SourceId::QQMusic => 18,
            SourceId::Qobuz => 30,
            SourceId::LocalUsbOrDlna => 1024,
            SourceId::HeosPlaylists => 1025,
            SourceId::HeosHistory => 1026,
            SourceId::HeosAuxInputs => 1027,
            SourceId::HeosFavorites => 1028,
            SourceId::Unknown(code) => *code,
        }
    }

    /// The wire number as decimal text.
    pub fn to_string(&self) -> (s: String)
        ensures
            s@ == int_text(self.code() as int),
    {
        i64_to_string(self.to_code())
    }

    /// What reading a decimal text gives.
    pub open spec fn from_text(s: Seq<char>) -> Option<Self> {
        match text_i64(s) {
            Some(code) => Some(Self::of_code(code)),
            None => None,
        }
    }

    /// Reads the decimal text of a wire number.
    pub fn parse(s: &str) -> (r: Option<Self>)
        ensures
            r == Self::from_text(s@),
    {
        match parse_i64(s) {
            Some(code) => Some(Self::from(code)),
            None => None,
        }
    }

    /// A value read from its own wire number is itself, unless it is an
    /// `Unknown` that holds a number with a name.
    pub proof fn lemma_code_round_trip(self)
        ensures
            Self::of_code(self.code()).code() == self.code(),
            !(self is Unknown) ==> Self::of_code(self.code()) == self,
    {
    }
}

impl FromText for SourceId {
    open spec fn read(s: Seq<char>) -> Option<Self> {
        Self::from_text(s)
    }

    fn parse_text(s: &str) -> (r: Option<Self>) {
        Self::parse(s)
    }
}
impl SourceId {
    /// Whether the source can be browsed through the command line interface.
    pub open spec fn spec_cli_browse(self) -> bool {
        match self {
            SourceId::Pandora => true,
            SourceId::Rhapsody => true,
            SourceId::TuneIn => true,
            SourceId::Deezer => true,
            SourceId::Napster => true,
            SourceId::IHeartRadio => true,
            SourceId::SiriusXm => true,
            SourceId::Soundcloud => true,
            SourceId::Tidal => true,
            SourceId::AmazonMusic => true,
            SourceId::LocalUsbOrDlna => true,
            SourceId::HeosPlaylists => true,
            SourceId::HeosHistory => true,
            SourceId::HeosAuxInputs => true,
            SourceId::HeosFavorites => true,
            _ => false,
        }
    }

    /// Whether the source can be browsed through the command line interface.
    pub fn cli_browse(&self) -> (r: bool)
        ensures
            r == self.spec_cli_browse(),
    {
        match self {
            SourceId::Pandora => true,
            SourceId::Rhapsody => true,
            SourceId::TuneIn => true,
            SourceId::Deezer => true,
            SourceId::Napster => true,
            SourceId::IHeartRadio => true,
            SourceId::SiriusXm => true,
            SourceId::Soundcloud => true,
            SourceId::Tidal => true,
            SourceId::AmazonMusic => true,
            SourceId::LocalUsbOrDlna => true,
            SourceId::HeosPlaylists => true,
            SourceId::HeosHistory => true,
            SourceId::HeosAuxInputs => true,
            SourceId::HeosFavorites => true,
            _ => false,
        }
    }

    /// Whether the source can be searched through the command line interface.
    pub open spec fn spec_cli_search(self) -> bool {
        match self {
            SourceId::Rhapsody => true,
            SourceId::TuneIn => true,
            SourceId::Deezer => true,
            SourceId::Napster => true,
            SourceId::Soundcloud => true,
            SourceId::Tidal => true,
            SourceId::Qobuz => true,
            SourceId::LocalUsbOrDlna => true,
            SourceId::HeosFavorites => true,
            _ => false,
        }
    }

    /// Whether the source can be searched through the command line interface.
    pub fn cli_search(&self) -> (r: bool)
        ensures
            r == self.spec_cli_search(),
    {
        match self {
            SourceId::Rhapsody => true,
            SourceId::TuneIn => true,
            SourceId::Deezer => true,
            SourceId::Napster => true,
            SourceId::Soundcloud => true,
            SourceId::Tidal => true,
            SourceId::Qobuz => true,
            SourceId::LocalUsbOrDlna => true,
            SourceId::HeosFavorites => true,
            _ => false,
        }
    }

    /// Whether new stations can be made on the source through the command line interface.
    pub open spec fn spec_cli_new_station(self) -> bool {
        match self {
            SourceId::Pandora => true,
            SourceId::Rhapsody => true,
            SourceId::TuneIn => true,
            SourceId::Deezer => true,
            SourceId::Napster => true,
            SourceId::IHeartRadio => true,
            SourceId::Soundcloud => true,
            SourceId::Tidal => true,
            _ => false,
        }
    }

    /// Whether new stations can be made on the source through the command line interface.
    pub fn cli_new_station(&self) -> (r: bool)
        ensures
            r == self.spec_cli_new_station(),
    {
        match self {
            SourceId::Pandora => true,
            SourceId::Rhapsody => true,
            SourceId::TuneIn => true,
            SourceId::Deezer => true,
            SourceId::Napster => true,
            SourceId::IHeartRadio => true,
            SourceId::Soundcloud => true,
            SourceId::Tidal => true,
            _ => false,
        }
    }
}

/// Broad kind of a source.
#[derive(Clone, Copy, Debug, PartialEq, Eq, Hash, Structural)]
pub enum SourceType {
    /// A music service of a third party.
    MusicService,
    /// A service of the system itself.
    HeosService,
    /// A server of the system itself.
    HeosServer,
    /// A DLNA server.
    DlnaServer,
}

impl SourceType {
    /// The word that stands for this value on the wire.
    pub open spec fn wire(self) -> Seq<char> {
        match self {
            SourceType::MusicService => "music_service"@,
            SourceType::HeosService => "heos_service"@,
            SourceType::HeosServer => "heos_server"@,
            SourceType::DlnaServer => "dlna_server"@,
        }
    }

    /// The value that a word stands for, `None` for an unknown word.
    pub open spec fn from_wire(s: Seq<char>) -> Option<Self> {
        if s == "music_service"@ {
            Some(SourceType::MusicService)
        } else if s == "heos_service"@ {
            Some(SourceType::HeosService)
        } else if s == "heos_server"@ {
            Some(SourceType::HeosServer)
        } else if s == "dlna_server"@ {
            Some(SourceType::DlnaServer)
        } else {
            None
        }
    }

    /// The word that stands for this value on the wire.
    pub fn as_str(&self) -> (s: &'static str)
        ensures
            s@ == self.wire(),
    {
        match self {
            SourceType::MusicService => "music_service",
            SourceType::HeosService => "heos_service",
            SourceType::HeosServer => "heos_server",
            SourceType::DlnaServer => "dlna_server",
        }
    }

    /// The wire word as an owned string.
    pub fn to_string(&self) -> (s: String)
        ensures
            s@ == self.wire(),
    {
        String::from_str(self.as_str())
    }

    /// Reads a wire word. Matching is exact: case counts.
    pub fn parse(s: &str) -> (r: Option<Self>)
        ensures
            r == Self::from_wire(s@),
    {
        if s.eq("music_service") {
            Some(SourceType::MusicService)
        } else if s.eq("heos_service") {
            Some(SourceType::HeosService)
        } else if s.eq("heos_server") {
            Some(SourceType::HeosServer)
        } else if s.eq("dlna_server") {
            Some(SourceType::DlnaServer)
        } else {
            None
        }
    }

    /// Reading the word of a value gives that value back.
    pub proof fn lemma_wire_round_trip(self)
        ensures
            Self::from_wire(self.wire()) == Some(self),
    {
        reveal_strlit("music_service");
        reveal_strlit("heos_service");
        reveal_strlit("heos_server");
        reveal_strlit("dlna_server");
        match self {
            SourceType::MusicService => {},
            SourceType::HeosService => {
                assert("heos_service"@.len() != "music_service"@.len());
            },
            SourceType::HeosServer => {
                assert("heos_server"@.len() != "music_service"@.len());
                assert("heos_server"@.len() != "heos_service"@.len());
            },
            SourceType::DlnaServer => {
                assert("dlna_server"@.len() != "music_service"@.len());
                assert("dlna_server"@.len() != "heos_service"@.len());
                assert("dlna_server"@[0] != "heos_server"@[0]);
            },
        }
    }
}

impl FromText for SourceType {
    open spec fn read(s: Seq<char>) -> Option<Self> {
        Self::from_wire(s)
    }

    fn parse_text(s: &str) -> (r: Option<Self>) {
        Self::parse(s)
    }
}

/// Whether a source can be played from.
#[derive(Clone, Copy, Debug, PartialEq, Eq, Hash, Structural)]
pub enum SourceAvailable {
    /// The source can be played from: for a music service, an account is signed in.
    True,
    /// The source cannot be played from.
    False,
}

impl SourceAvailable {
    /// The word that stands for this value on the wire.
    pub open spec fn wire(self) -> Seq<char> {
        match self {
            SourceAvailable::True => "true"@,
            SourceAvailable::False => "false"@,
        }
    }

    /// The value that a word stands for, `None` for an unknown word.
    pub open spec fn from_wire(s: Seq<char>) -> Option<Self> {
        if s == "true"@ {
            Some(SourceAvailable::True)
        } else if s == "false"@ {
            Some(SourceAvailable::False)
        } else {
            None
        }
    }

    /// The word that stands for this value on the wire.
    pub fn as_str(&self) -> (s: &'static str)
        ensures
            s@ == self.wire(),
    {
        match self {
            SourceAvailable::True => "true",
            SourceAvailable::False => "false",
        }
    }

    /// The wire word as an owned string.
    pub fn to_string(&self) -> (s: String)
        ensures
            s@ == self.wire(),
    {
        String::from_str(self.as_str())
    }

    /// Reads a wire word. Matching is exact: case counts.
    pub fn parse(s: &str) -> (r: Option<Self>)
        ensures
            r == Self::from_wire(s@),
    {
        if s.eq("true") {
            Some(SourceAvailable::True)
        } else if s.eq("false") {
            Some(SourceAvailable::False)
        } else {
            None
        }
    }

    /// Reading the word of a value gives that value back.
    pub proof fn lemma_wire_round_trip(self)
        ensures
            Self::from_wire(self.wire()) == Some(self),
    {
        reveal_strlit("true");
        reveal_strlit("false");
        match self {
            SourceAvailable::True => {},
            SourceAvailable::False => {
                assert("false"@.len() != "true"@.len());
            },
        }
    }
}

impl FromText for SourceAvailable {
    open spec fn read(s: Seq<char>) -> Option<Self> {
        Self::from_wire(s)
    }

    fn parse_text(s: &str) -> (r: Option<Self>) {
        Self::parse(s)
    }
}

/// What a system tells about one source.
#[derive(Debug)]
pub struct SourceInfo {
    /// Name of the source.
    pub name: String,
    /// Address of an image that stands for the source.
    pub image_url: String,
    /// Broad kind of the source.
    pub source_type: SourceType,
    /// Identifier of the source.
    pub source_id: SourceId,
    /// Whether the source can be played from.
    pub available: SourceAvailable,
    /// User name of the account that is signed in with the source, if any.
    pub service_username: Option<String>,
}

/// A `SourceInfo` as plain values.
pub ghost struct SourceInfoView {
    pub name: Seq<char>,
    pub image_url: Seq<char>,
    pub source_type: SourceType,
    pub source_id: SourceId,
    pub available: SourceAvailable,
    pub service_username: Option<Seq<char>>,
}

impl View for SourceInfo {
    type V = SourceInfoView;

    open spec fn view(&self) -> SourceInfoView {
        SourceInfoView {
            name: self.name@,
            image_url: self.image_url@,
            source_type: self.source_type,
            source_id: self.source_id,
            available: self.available,
            service_username: opt_text(self.service_username),
        }
    }
}

impl Clone for SourceInfo {
    fn clone(&self) -> (r: Self)
        ensures
            r@ == self@,
    {
        SourceInfo {
            name: self.name.clone(),
            image_url: self.image_url.clone(),
            source_type: self.source_type,
            source_id: self.source_id,
            available: self.available,
            service_username: clone_opt_string(&self.service_username),
        }
    }
}

/// What a search looks for: the well-known kinds by name, any other by number.
#[derive(Clone, Copy, Debug, PartialEq, Eq, Hash, Structural)]
pub enum CriteriaId {
    /// Artists.
    Artist,
    /// Albums.
    Album,
    /// Tracks.
    Track,
    /// Stations.
    Station,
    /// Shows.
    Shows,
    /// Playlists.
    Playlist,
    /// Accounts.
    Accounts,
    /// A kind that this library has no name for.
    Unknown(i64),
}

impl CriteriaId {
    /// The value that a wire number stands for: a named one where the
    /// number is known, `Unknown` with the number where it is not.
    pub open spec fn of_code(code: i64) -> Self {
        if code == 1 {
            CriteriaId::Artist
        } else if code == 2 {
            CriteriaId::Album
        } else if code == 3 {
            CriteriaId::Track
        } else if code == 4 {
            CriteriaId::Station
        } else if code == 5 {
            CriteriaId::Shows
        } else if code == 6 {
            CriteriaId::Playlist
        } else if code == 7 {
            CriteriaId::Accounts
        } else {
            CriteriaId::Unknown(code)
        }
    }

    /// The wire number of this value.
    pub open spec fn code(self) -> i64 {
        match self {
            CriteriaId::Artist => 1,
            CriteriaId::Album => 2,
            CriteriaId::Track => 3,
            CriteriaId::Station => 4,
            CriteriaId::Shows => 5,
            CriteriaId::Playlist => 6,
            CriteriaId::Accounts => 7,
            CriteriaId::Unknown(code) => code,
        }
    }

    /// Reads a wire number. Never fails: a number without a name is kept
    /// as `Unknown`.
    pub fn from(value: i64) -> (r: Self)
        ensures
            r == Self::of_code(value),
            r.code() == value,
    {
        if value == 1 {
            CriteriaId::Artist
        } else if value == 2 {
            CriteriaId::Album
        } else if value == 3 {
            CriteriaId::Track
        } else if value == 4 {
            CriteriaId::Station
        } else if value == 5 {
            CriteriaId::Shows
        } else if value == 6 {
            CriteriaId::Playlist
        } else if value == 7 {
            CriteriaId::Accounts
        } else {
            CriteriaId::Unknown(value)
        }
    }

    /// The wire number of this value.
    pub fn to_code(&self) -> (r: i64)
        ensures
            r == self.code(),
    {
        match self {
            CriteriaId::Artist => 1,
            CriteriaId::Album => 2,
            CriteriaId::Track => 3,
            CriteriaId::Station => 4,
            CriteriaId::Shows => 5,
            CriteriaId::Playlist => 6,
            CriteriaId::Accounts => 7,
            CriteriaId::Unknown(code) => *code,
        }
    }

    /// The wire number as decimal text.
    pub fn to_string(&self) -> (s: String)
        ensures
            s@ == int_text(self.code() as int),
    {
        i64_to_string(self.to_code())
    }

    /// What reading a decimal text gives.
    pub open spec fn from_text(s: Seq<char>) -> Option<Self> {
        match text_i64(s) {
            Some(code) => Some(Self::of_code(code)),
            None => None,
        }
    }

    /// Reads the decimal text of a wire number.
    pub fn parse(s: &str) -> (r: Option<Self>)
        ensures
            r == Self::from_text(s@),
    {
        match parse_i64(s) {
            Some(code) => Some(Self::from(code)),
            None => None,
        }
    }

    /// A value read from its own wire number is itself, unless it is an
    /// `Unknown` that holds a number with a name.
    pub proof fn lemma_code_round_trip(self)
        ensures
            Self::of_code(self.code()).code() == self.code(),
            !(self is Unknown) ==> Self::of_code(self.code()) == self,
    {
    }
}

impl FromText for CriteriaId {
    open spec fn read(s: Seq<char>) -> Option<Self> {
        Self::from_text(s)
    }

    fn parse_text(s: &str) -> (r: Option<Self>) {
        Self::parse(s)
    }
}

/// One way in which a source can be searched.
#[derive(Debug)]
pub struct SearchCriteria {
    /// Name of what is searched for, such as `Artist`.
    pub name: String,
    /// The number to give a search command.
    pub criteria: CriteriaId,
    /// Whether the search text may hold wildcards.
    pub wildcard: bool,
    /// Whether what the search finds can be added to a queue as it is.
    pub playable: bool,
    /// A prefix to put in front of the search text, where there is one.
    pub search_prefix: Option<String>,
}

/// A `SearchCriteria` as plain values.
pub ghost struct SearchCriteriaView {
    pub name: Seq<char>,
    pub criteria: CriteriaId,
    pub wildcard: bool,
    pub playable: bool,
    pub search_prefix: Option<Seq<char>>,
}

impl View for SearchCriteria {
    type V = SearchCriteriaView;

    open spec fn view(&self) -> SearchCriteriaView {
        SearchCriteriaView {
            name: self.name@,
            criteria: self.criteria,
            wildcard: self.wildcard,
            playable: self.playable,
            search_prefix: opt_text(self.search_prefix),
        }
    }
}

impl Clone for SearchCriteria {
    fn clone(&self) -> (r: Self)
        ensures
            r@ == self@,
    {
        SearchCriteria {
            name: self.name.clone(),
            criteria: self.criteria,
            wildcard: self.wildcard,
            playable: self.playable,
            search_prefix: clone_opt_string(&self.search_prefix),
        }
    }
}

} // verus!
