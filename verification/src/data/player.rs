//! Data types that describe players.

use vstd::prelude::*;
use vstd::string::*;
use crate::data::group::GroupId;
use crate::text::{FromText, i64_to_string, int_text, opt_text, parse_i64, text_i64};

verus! {

/// Identifier of a player.
#[derive(Clone, Copy, Debug, PartialEq, Eq, Hash, Structural)]
pub struct PlayerId(pub i64);

impl PlayerId {
    /// The decimal text of the identifier, as it stands on the wire.
    pub fn to_string(&self) -> (s: String)
        ensures
            s@ == int_text(self.0 as int),
    {
        i64_to_string(self.0)
    }

    /// What reading a decimal text gives.
    pub open spec fn from_text(s: Seq<char>) -> Option<Self> {
        match text_i64(s) {
            Some(value) => Some(PlayerId(value)),
            None => None,
        }
    }

    /// Reads the decimal text of an identifier.
    pub fn parse(s: &str) -> (r: Option<Self>)
        ensures
            r == Self::from_text(s@),
    {
        match parse_i64(s) {
            Some(value) => Some(PlayerId(value)),
            None => None,
        }
    }
}

impl FromText for PlayerId {
    open spec fn read(s: Seq<char>) -> Option<Self> {
        Self::from_text(s)
    }

    fn parse_text(s: &str) -> (r: Option<Self>) {
        Self::parse(s)
    }
}

/// How a player is connected to the network.
#[derive(Clone, Copy, Debug, PartialEq, Eq, Hash, Structural)]
pub enum NetworkType {
    /// By cable.
    Wired,
    /// Wireless.
    WiFi,
    /// Not known.
    Unknown,
}

impl NetworkType {
    /// The word that stands for this value on the wire.
    pub open spec fn wire(self) -> Seq<char> {
        match self {
            NetworkType::Wired => "wired"@,
            NetworkType::WiFi => "wifi"@,
            NetworkType::Unknown => "unknown"@,
        }
    }

    /// The value that a word stands for, `None` for an unknown word.
    pub open spec fn from_wire(s: Seq<char>) -> Option<Self> {
        if s == "wired"@ {
            Some(NetworkType::Wired)
        } else if s == "wifi"@ {
            Some(NetworkType::WiFi)
        } else if s == "unknown"@ {
            Some(NetworkType::Unknown)
        } else {
            None
        }
    }

    /// The word that stands for this value on the wire.
    pub fn as_str(&self) -> (s: &'static str)
        ensures
            s@ == self.wire(),
    {
        match self {
            NetworkType::Wired => "wired",
            NetworkType::WiFi => "wifi",
            NetworkType::Unknown => "unknown",
        }
    }

    /// The wire word as an owned string.
    pub fn to_string(&self) -> (s: String)
        ensures
            s@ == self.wire(),
    {
        String::from_str(self.as_str())
    }

    /// Reads a wire word. Matching is exact: case counts.
    pub fn parse(s: &str) -> (r: Option<Self>)
        ensures
            r == Self::from_wire(s@),
    {
        if s.eq("wired") {
            Some(NetworkType::Wired)
        } else if s.eq("wifi") {
            Some(NetworkType::WiFi)
        } else if s.eq("unknown") {
            Some(NetworkType::Unknown)
        } else {
            None
        }
    }

    /// Reading the word of a value gives that value back.
    pub proof fn lemma_wire_round_trip(self)
        ensures
            Self::from_wire(self.wire()) == Some(self),
    {
        reveal_strlit("wired");
        reveal_strlit("wifi");
        reveal_strlit("unknown");
        match self {
            NetworkType::Wired => {},
            NetworkType::WiFi => {
                assert("wifi"@.len() != "wired"@.len());
            },
            NetworkType::Unknown => {
                assert("unknown"@.len() != "wired"@.len());
                assert("unknown"@.len() != "wifi"@.len());
            },
        }
    }
}

impl FromText for NetworkType {
    open spec fn read(s: Seq<char>) -> Option<Self> {
        Self::from_wire(s)
    }

    fn parse_text(s: &str) -> (r: Option<Self>) {
        Self::parse(s)
    }
}

/// Kind of line-out level of a player.
#[derive(Clone, Copy, Debug, PartialEq, Eq, Hash, Structural)]
pub enum LineOutType {
    /// No line out.
    Unavailable,
    /// The level follows the volume.
    Variable,
    /// The level is fixed.
    Fixed,
}

impl LineOutType {
    /// The value that a wire number stands for.
    pub open spec fn from_code(code: int) -> Option<Self> {
        if code == 0 {
            Some(LineOutType::Unavailable)
        } else if code == 1 {
            Some(LineOutType::Variable)
        } else if code == 2 {
            Some(LineOutType::Fixed)
        } else {
            None
        }
    }

    /// The wire number of this value.
    pub open spec fn code(self) -> int {
        match self {
            LineOutType::Unavailable => 0,
            LineOutType::Variable => 1,
            LineOutType::Fixed => 2,
        }
    }

    /// Reads a wire number: `0`, `1` or `2`.
    pub fn try_from(value: i64) -> (r: Option<Self>)
        ensures
            r == Self::from_code(value as int),
    {
        if value == 0 {
            Some(LineOutType::Unavailable)
        } else if value == 1 {
            Some(LineOutType::Variable)
        } else if value == 2 {
            Some(LineOutType::Fixed)
        } else {
            None
        }
    }

    /// The wire number of this value.
    pub fn to_code(&self) -> (r: i64)
        ensures
            r == self.code(),
            Self::from_code(r as int) == Some(*self),
    {
        match self {
            LineOutType::Unavailable => 0,
            LineOutType::Variable => 1,
            LineOutType::Fixed => 2,
        }
    }
}

/// How the line-out level of a player is controlled.
#[derive(Clone, Copy, Debug, PartialEq, Eq, Hash, Structural)]
pub enum LineOutControlType {
    /// Not controlled.
    Uncontrolled,
    /// By infrared.
    IR,
    /// By a trigger.
    Trigger,
    /// Over the network.
    Network,
}

impl LineOutControlType {
    /// The value that a wire number stands for; `0` and `1` both mean none.
    pub open spec fn from_code(code: int) -> Option<Self> {
        if code == 0 || code == 1 {
            Some(LineOutControlType::Uncontrolled)
        } else if code == 2 {
            Some(LineOutControlType::IR)
        } else if code == 3 {
            Some(LineOutControlType::Trigger)
        } else if code == 4 {
            Some(LineOutControlType::Network)
        } else {
            None
        }
    }

    /// The wire number written for this value.
    pub open spec fn code(self) -> int {
        match self {
            LineOutControlType::Uncontrolled => 1,
            LineOutControlType::IR => 2,
            LineOutControlType::Trigger => 3,
            LineOutControlType::Network => 4,
        }
    }

    /// Reads a wire number in `0..=4`.
    pub fn try_from(value: i64) -> (r: Option<Self>)
        ensures
            r == Self::from_code(value as int),
    {
        if value == 0 || value == 1 {
            Some(LineOutControlType::Uncontrolled)
        } else if value == 2 {
            Some(LineOutControlType::IR)
        } else if value == 3 {
            Some(LineOutControlType::Trigger)
        } else if value == 4 {
            Some(LineOutControlType::Network)
        } else {
            None
        }
    }

    /// The wire number written for this value.
    pub fn to_code(&self) -> (r: i64)
        ensures
            r == self.code(),
            Self::from_code(r as int) == Some(*self),
    {
        match self {
            LineOutControlType::Uncontrolled => 1,
            LineOutControlType::IR => 2,
            LineOutControlType::Trigger => 3,
            LineOutControlType::Network => 4,
        }
    }
}

/// What a system tells about one player.
#[derive(Debug)]
pub struct PlayerInfo {
    /// Name that the user gave the player.
    pub name: String,
    /// Identifier of the player.
    pub player_id: PlayerId,
    /// Group that the player belongs to, if any. A hint: the group table
    /// decides.
    pub group_id: Option<GroupId>,
    /// Model name.
    pub model: String,
    /// Firmware version.
    pub version: String,
    /// Network address, as text.
    pub ip: String,
    /// How the player is connected.
    pub network: NetworkType,
    /// Kind of line out.
    pub line_out: LineOutType,
    /// How the line out is controlled, where the player says so.
    pub line_out_control: Option<LineOutControlType>,
    /// Serial number, where the player says so.
    pub serial: Option<String>,
}

/// A `PlayerInfo` as plain values.
pub ghost struct PlayerInfoView {
    pub name: Seq<char>,
    pub player_id: PlayerId,
    pub group_id: Option<GroupId>,
    pub model: Seq<char>,
    pub version: Seq<char>,
    pub ip: Seq<char>,
    pub network: NetworkType,
    pub line_out: LineOutType,
    pub line_out_control: Option<LineOutControlType>,
    pub serial: Option<Seq<char>>,
}

impl View for PlayerInfo {
    type V = PlayerInfoView;

    open spec fn view(&self) -> PlayerInfoView {
        PlayerInfoView {
            name: self.name@,
            player_id: self.player_id,
            group_id: self.group_id,
            model: self.model@,
            version: self.version@,
            ip: self.ip@,
            network: self.network,
            line_out: self.line_out,
            line_out_control: self.line_out_control,
            serial: opt_text(self.serial),
        }
    }
}

impl Clone for PlayerInfo {
    fn clone(&self) -> (r: Self)
        ensures
            r@ == self@,
    {
        PlayerInfo {
            name: self.name.clone(),
            player_id: self.player_id,
            group_id: self.group_id,
            model: self.model.clone(),
            version: self.version.clone(),
            ip: self.ip.clone(),
            network: self.network,
            line_out: self.line_out,
            line_out_control: self.line_out_control,
            serial: clone_opt_string(&self.serial),
        }
    }
}

/// A copy of an optional string.
pub fn clone_opt_string(s: &Option<String>) -> (r: Option<String>)
    ensures
        opt_text(r) == opt_text(*s),
{
    match s {
        Some(t) => Some(t.clone()),
        None => None,
    }
}

/// Whether a player plays.
#[derive(Clone, Copy, Debug, PartialEq, Eq, Hash, Structural)]
pub enum PlayState {
    /// Playing.
    Play,
    /// Paused.
    Pause,
    /// Stopped.
    Stop,
}

impl PlayState {
    /// The word that stands for this value on the wire.
    pub open spec fn wire(self) -> Seq<char> {
        match self {
            PlayState::Play => "play"@,
            PlayState::Pause => "pause"@,
            PlayState::Stop => "stop"@,
        }
    }

    /// The value that a word stands for, `None` for an unknown word.
    pub open spec fn from_wire(s: Seq<char>) -> Option<Self> {
        if s == "play"@ {
            Some(PlayState::Play)
        } else if s == "pause"@ {
            Some(PlayState::Pause)
        } else if s == "stop"@ {
            Some(PlayState::Stop)
        } else {
            None
        }
    }

    /// The word that stands for this value on the wire.
    pub fn as_str(&self) -> (s: &'static str)
        ensures
            s@ == self.wire(),
    {
        match self {
            PlayState::Play => "play",
            PlayState::Pause => "pause",
            PlayState::Stop => "stop",
        }
    }

    /// The wire word as an owned string.
    pub fn to_string(&self) -> (s: String)
        ensures
            s@ == self.wire(),
    {
        String::from_str(self.as_str())
    }

    /// Reads a wire word. Matching is exact: case counts.
    pub fn parse(s: &str) -> (r: Option<Self>)
        ensures
            r == Self::from_wire(s@),
    {
        if s.eq("play") {
            Some(PlayState::Play)
        } else if s.eq("pause") {
            Some(PlayState::Pause)
        } else if s.eq("stop") {
            Some(PlayState::Stop)
        } else {
            None
        }
    }

    /// Reading the word of a value gives that value back.
    pub proof fn lemma_wire_round_trip(self)
        ensures
            Self::from_wire(self.wire()) == Some(self),
    {
        reveal_strlit("play");
        reveal_strlit("pause");
        reveal_strlit("stop");
        match self {
            PlayState::Play => {},
            PlayState::Pause => {
                assert("pause"@.len() != "play"@.len());
            },
            PlayState::Stop => {
                assert("stop"@[0] != "play"@[0]);
                assert("stop"@.len() != "pause"@.len());
            },
        }
    }
}

impl FromText for PlayState {
    open spec fn read(s: Seq<char>) -> Option<Self> {
        Self::from_wire(s)
    }

    fn parse_text(s: &str) -> (r: Option<Self>) {
        Self::parse(s)
    }
}

/// What a player repeats.
#[derive(Clone, Copy, Debug, PartialEq, Eq, Hash, Structural)]
pub enum RepeatMode {
    /// The whole queue.
    All,
    /// The current track.
    One,
    /// Nothing.
    Off,
}

impl RepeatMode {
    /// The word that stands for this value on the wire.
    pub open spec fn wire(self) -> Seq<char> {
        match self {
            RepeatMode::All => "on_all"@,
            RepeatMode::One => "on_one"@,
            RepeatMode::Off => "off"@,
        }
    }

    /// The value that a word stands for, `None` for an unknown word.
    pub open spec fn from_wire(s: Seq<char>) -> Option<Self> {
        if s == "on_all"@ {
            Some(RepeatMode::All)
        } else if s == "on_one"@ {
            Some(RepeatMode::One)
        } else if s == "off"@ {
            Some(RepeatMode::Off)
        } else {
            None
        }
    }

    /// The word that stands for this value on the wire.
    pub fn as_str(&self) -> (s: &'static str)
        ensures
            s@ == self.wire(),
    {
        match self {
            RepeatMode::All => "on_all",
            RepeatMode::One => "on_one",
            RepeatMode::Off => "off",
        }
    }

    /// The wire word as an owned string.
    pub fn to_string(&self) -> (s: String)
        ensures
            s@ == self.wire(),
    {
        String::from_str(self.as_str())
    }

    /// Reads a wire word. Matching is exact: case counts.
    pub fn parse(s: &str) -> (r: Option<Self>)
        ensures
            r == Self::from_wire(s@),
    {
        if s.eq("on_all") {
            Some(RepeatMode::All)
        } else if s.eq("on_one") {
            Some(RepeatMode::One)
        } else if s.eq("off") {
            Some(RepeatMode::Off)
        } else {
            None
        }
    }

    /// Reading the word of a value gives that value back.
    pub proof fn lemma_wire_round_trip(self)
        ensures
            Self::from_wire(self.wire()) == Some(self),
    {
        reveal_strlit("on_all");
        reveal_strlit("on_one");
        reveal_strlit("off");
        match self {
            RepeatMode::All => {},
            RepeatMode::One => {
                assert("on_one"@[3] != "on_all"@[3]);
            },
            RepeatMode::Off => {
                assert("off"@.len() != "on_all"@.len());
                assert("off"@.len() != "on_one"@.len());
            },
        }
    }
}

impl FromText for RepeatMode {
    open spec fn read(s: Seq<char>) -> Option<Self> {
        Self::from_wire(s)
    }

    fn parse_text(s: &str) -> (r: Option<Self>) {
        Self::parse(s)
    }
}

/// Whether a player shuffles its queue.
#[derive(Clone, Copy, Debug, PartialEq, Eq, Hash, Structural)]
pub enum ShuffleMode {
    /// Shuffled.
    On,
    /// In order.
    Off,
}

impl ShuffleMode {
    /// The word that stands for this value on the wire.
    pub open spec fn wire(self) -> Seq<char> {
        match self {
            ShuffleMode::On => "on"@,
            ShuffleMode::Off => "off"@,
        }
    }

    /// The value that a word stands for, `None` for an unknown word.
    pub open spec fn from_wire(s: Seq<char>) -> Option<Self> {
        if s == "on"@ {
            Some(ShuffleMode::On)
        } else if s == "off"@ {
            Some(ShuffleMode::Off)
        } else {
            None
        }
    }

    /// The word that stands for this value on the wire.
    pub fn as_str(&self) -> (s: &'static str)
        ensures
            s@ == self.wire(),
    {
        match self {
            ShuffleMode::On => "on",
            ShuffleMode::Off => "off",
        }
    }

    /// The wire word as an owned string.
    pub fn to_string(&self) -> (s: String)
        ensures
            s@ == self.wire(),
    {
        String::from_str(self.as_str())
    }

    /// Reads a wire word. Matching is exact: case counts.
    pub fn parse(s: &str) -> (r: Option<Self>)
        ensures
            r == Self::from_wire(s@),
    {
        if s.eq("on") {
            Some(ShuffleMode::On)
        } else if s.eq("off") {
            Some(ShuffleMode::Off)
        } else {
            None
        }
    }

    /// Reading the word of a value gives that value back.
    pub proof fn lemma_wire_round_trip(self)
        ensures
            Self::from_wire(self.wire()) == Some(self),
    {
        reveal_strlit("on");
        reveal_strlit("off");
        match self {
            ShuffleMode::On => {},
            ShuffleMode::Off => {
                assert("off"@.len() != "on"@.len());
            },
        }
    }
}

impl FromText for ShuffleMode {
    open spec fn read(s: Seq<char>) -> Option<Self> {
        Self::from_wire(s)
    }

    fn parse_text(s: &str) -> (r: Option<Self>) {
        Self::parse(s)
    }
}

/// Repeat and shuffle mode of a player.
#[derive(Clone, Copy, Debug, PartialEq, Eq, Structural)]
pub struct PlayMode {
    /// What is repeated.
    pub repeat: RepeatMode,
    /// Whether the queue is shuffled.
    pub shuffle: ShuffleMode,
}

/// Whether new firmware is available for a player.
#[derive(Clone, Copy, Debug, PartialEq, Eq, Hash, Structural)]
pub enum UpdateAvailable {
    /// The firmware is current.
    Current,
    /// An update exists.
    Exists,
}

impl UpdateAvailable {
    /// The word that stands for this value on the wire.
    pub open spec fn wire(self) -> Seq<char> {
        match self {
            UpdateAvailable::Current => "update_none"@,
            UpdateAvailable::Exists => "update_exist"@,
        }
    }

    /// The value that a word stands for, `None` for an unknown word.
    pub open spec fn from_wire(s: Seq<char>) -> Option<Self> {
        if s == "update_none"@ {
            Some(UpdateAvailable::Current)
        } else if s == "update_exist"@ {
            Some(UpdateAvailable::Exists)
        } else {
            None
        }
    }

    /// The word that stands for this value on the wire.
    pub fn as_str(&self) -> (s: &'static str)
        ensures
            s@ == self.wire(),
    {
        match self {
            UpdateAvailable::Current => "update_none",
            UpdateAvailable::Exists => "update_exist",
        }
    }

    /// The wire word as an owned string.
    pub fn to_string(&self) -> (s: String)
        ensures
            s@ == self.wire(),
    {
        String::from_str(self.as_str())
    }

    /// Reads a wire word. Matching is exact: case counts.
    pub fn parse(s: &str) -> (r: Option<Self>)
        ensures
            r == Self::from_wire(s@),
    {
        if s.eq("update_none") {
            Some(UpdateAvailable::Current)
        } else if s.eq("update_exist") {
            Some(UpdateAvailable::Exists)
        } else {
            None
        }
    }

    /// Reading the word of a value gives that value back.
    pub proof fn lemma_wire_round_trip(self)
        ensures
            Self::from_wire(self.wire()) == Some(self),
    {
        reveal_strlit("update_none");
        reveal_strlit("update_exist");
        match self {
            UpdateAvailable::Current => {},
            UpdateAvailable::Exists => {
                assert("update_exist"@.len() != "update_none"@.len());
            },
        }
    }
}

impl FromText for UpdateAvailable {
    open spec fn read(s: Seq<char>) -> Option<Self> {
        Self::from_wire(s)
    }

    fn parse_text(s: &str) -> (r: Option<Self>) {
        Self::parse(s)
    }
}

/// What a player answers when asked for updates.
#[derive(Clone, Copy, Debug, PartialEq, Eq, Structural)]
pub struct UpdatePayload {
    /// Whether an update exists.
    pub update: UpdateAvailable,
}

/// Where media goes when it is added to a queue.
#[derive(Clone, Copy, Debug, PartialEq, Eq, Hash, Structural)]
pub enum AddToQueueType {
    /// Play it now and keep the queue.
    PlayNow,
    /// Put it in front of the queue.
    PlayNext,
    /// Put it at the end of the queue.
    AddToEnd,
    /// Play it now and empty the queue.
    ReplaceAndPlay,
}

impl AddToQueueType {
    /// The wire number of this value, in `1..=4`.
    pub open spec fn code(self) -> int {
        match self {
            AddToQueueType::PlayNow => 1,
            AddToQueueType::PlayNext => 2,
            AddToQueueType::AddToEnd => 3,
            AddToQueueType::ReplaceAndPlay => 4,
        }
    }

    /// The value that a wire number stands for.
    pub open spec fn from_code(code: int) -> Option<Self> {
        if code == 1 {
            Some(AddToQueueType::PlayNow)
        } else if code == 2 {
            Some(AddToQueueType::PlayNext)
        } else if code == 3 {
            Some(AddToQueueType::AddToEnd)
        } else if code == 4 {
            Some(AddToQueueType::ReplaceAndPlay)
        } else {
            None
        }
    }

    /// The wire number of this value.
    pub fn to_code(&self) -> (r: i64)
        ensures
            r == self.code(),
            Self::from_code(r as int) == Some(*self),
    {
        match self {
            AddToQueueType::PlayNow => 1,
            AddToQueueType::PlayNext => 2,
            AddToQueueType::AddToEnd => 3,
            AddToQueueType::ReplaceAndPlay => 4,
        }
    }

    /// Reads a wire number in `1..=4`.
    pub fn try_from(value: i64) -> (r: Option<Self>)
        ensures
            r == Self::from_code(value as int),
    {
        if value == 1 {
            Some(AddToQueueType::PlayNow)
        } else if value == 2 {
            Some(AddToQueueType::PlayNext)
        } else if value == 3 {
            Some(AddToQueueType::AddToEnd)
        } else if value == 4 {
            Some(AddToQueueType::ReplaceAndPlay)
        } else {
            None
        }
    }
}

impl FromText for AddToQueueType {
    open spec fn read(s: Seq<char>) -> Option<Self> {
        match text_i64(s) {
            Some(code) => Self::from_code(code as int),
            None => None,
        }
    }

    fn parse_text(s: &str) -> (r: Option<Self>) {
        match parse_i64(s) {
            Some(code) => Self::try_from(code),
            None => None,
        }
    }
}

} // verus!
