use heos::data::common::MuteState;
use heos::data::group::{GroupId, GroupRole};
use heos::data::option::ServiceOptionType;
use heos::data::player::{
    AddToQueueType, LineOutControlType, LineOutType, NetworkType, PlayState, PlayerId, RepeatMode,
    ShuffleMode, UpdateAvailable,
};
use heos::data::queue::QueueId;
use heos::data::source::{CriteriaId, SourceAvailable, SourceId, SourceType};
use heos::data::system::ChangeEventsEnabled;

#[test]
fn wire_words_of_the_enumerations() {
    assert_eq!(PlayState::Play.as_str(), "play");
    assert_eq!(PlayState::Pause.as_str(), "pause");
    assert_eq!(PlayState::Stop.as_str(), "stop");
    assert_eq!(RepeatMode::All.as_str(), "on_all");
    assert_eq!(RepeatMode::One.as_str(), "on_one");
    assert_eq!(RepeatMode::Off.as_str(), "off");
    assert_eq!(ShuffleMode::On.as_str(), "on");
    assert_eq!(ShuffleMode::Off.as_str(), "off");
    assert_eq!(MuteState::On.as_str(), "on");
    assert_eq!(MuteState::Off.as_str(), "off");
    assert_eq!(NetworkType::Wired.as_str(), "wired");
    assert_eq!(NetworkType::WiFi.as_str(), "wifi");
    assert_eq!(NetworkType::Unknown.as_str(), "unknown");
    assert_eq!(GroupRole::Leader.as_str(), "leader");
    assert_eq!(GroupRole::Member.as_str(), "member");
    assert_eq!(SourceType::MusicService.as_str(), "music_service");
    assert_eq!(SourceType::HeosService.as_str(), "heos_service");
    assert_eq!(SourceType::HeosServer.as_str(), "heos_server");
    assert_eq!(SourceType::DlnaServer.as_str(), "dlna_server");
    assert_eq!(SourceAvailable::True.as_str(), "true");
    assert_eq!(SourceAvailable::False.as_str(), "false");
    assert_eq!(UpdateAvailable::Current.as_str(), "update_none");
    assert_eq!(UpdateAvailable::Exists.as_str(), "update_exist");
    assert_eq!(ChangeEventsEnabled::On.to_string(), "on");
    assert_eq!(ChangeEventsEnabled::Off.to_string(), "off");
}

#[test]
fn wire_words_are_read_back() {
    for state in [PlayState::Play, PlayState::Pause, PlayState::Stop] {
        assert_eq!(PlayState::parse(state.as_str()), Some(state));
    }
    for mode in [RepeatMode::All, RepeatMode::One, RepeatMode::Off] {
        assert_eq!(RepeatMode::parse(mode.as_str()), Some(mode));
    }
    for kind in [SourceType::MusicService, SourceType::HeosService, SourceType::HeosServer,
        SourceType::DlnaServer]
    {
        assert_eq!(SourceType::parse(kind.as_str()), Some(kind));
    }
    assert_eq!(NetworkType::parse("wifi"), Some(NetworkType::WiFi));
    assert_eq!(UpdateAvailable::parse("update_exist"), Some(UpdateAvailable::Exists));
}

#[test]
fn unknown_words_are_refused() {
    assert_eq!(PlayState::parse("Play"), None);
    assert_eq!(PlayState::parse("playing"), None);
    assert_eq!(PlayState::parse(""), None);
    assert_eq!(RepeatMode::parse("on"), None);
    assert_eq!(MuteState::parse("ON"), None);
    assert_eq!(NetworkType::parse("WiFi"), None);
    assert_eq!(GroupRole::parse("leader "), None);
}

#[test]
fn line_out_codes() {
    assert_eq!(LineOutType::try_from(0), Some(LineOutType::Unavailable));
    assert_eq!(LineOutType::try_from(1), Some(LineOutType::Variable));
    assert_eq!(LineOutType::try_from(2), Some(LineOutType::Fixed));
    assert_eq!(LineOutType::try_from(3), None);
    assert_eq!(LineOutType::try_from(-1), None);
    assert_eq!(LineOutControlType::try_from(0), Some(LineOutControlType::Uncontrolled));
    assert_eq!(LineOutControlType::try_from(1), Some(LineOutControlType::Uncontrolled));
    assert_eq!(LineOutControlType::try_from(2), Some(LineOutControlType::IR));
    assert_eq!(LineOutControlType::try_from(3), Some(LineOutControlType::Trigger));
    assert_eq!(LineOutControlType::try_from(4), Some(LineOutControlType::Network));
    assert_eq!(LineOutControlType::try_from(5), None);
    for kind in [LineOutType::Unavailable, LineOutType::Variable, LineOutType::Fixed] {
        assert_eq!(LineOutType::try_from(kind.to_code()), Some(kind));
    }
}

#[test]
fn add_to_queue_codes() {
    assert_eq!(AddToQueueType::PlayNow.to_code(), 1);
    assert_eq!(AddToQueueType::PlayNext.to_code(), 2);
    assert_eq!(AddToQueueType::AddToEnd.to_code(), 3);
    assert_eq!(AddToQueueType::ReplaceAndPlay.to_code(), 4);
    assert_eq!(AddToQueueType::try_from(0), None);
    assert_eq!(AddToQueueType::try_from(5), None);
    for code in 1..=4 {
        assert_eq!(AddToQueueType::try_from(code).unwrap().to_code(), code);
    }
}

#[test]
fn source_ids_by_number() {
    let named = [
        (1, SourceId::Pandora), (2, SourceId::Rhapsody), (3, SourceId::TuneIn),
        (4, SourceId::Spotify), (5, SourceId::Deezer), (6, SourceId::Napster),
        (7, SourceId::IHeartRadio), (8, SourceId::SiriusXm), (9, SourceId::Soundcloud),
        (10, SourceId::Tidal), (13, SourceId::AmazonMusic), (15, SourceId::Moodmix),
        (18, SourceId::QQMusic), (30, SourceId::Qobuz), (1024, SourceId::LocalUsbOrDlna),
        (1025, SourceId::HeosPlaylists), (1026, SourceId::HeosHistory),
        (1027, SourceId::HeosAuxInputs), (1028, SourceId::HeosFavorites),
    ];
    for (code, id) in named {
        assert_eq!(SourceId::from(code), id);
        assert_eq!(id.to_code(), code);
    }
    for code in [0, 11, 12, 14, 31, 1023, 1029, -1, i64::MAX] {
        assert_eq!(SourceId::from(code), SourceId::Unknown(code));
        assert_eq!(SourceId::from(code).to_code(), code);
    }
    assert_eq!(SourceId::parse("1025"), Some(SourceId::HeosPlaylists));
    assert_eq!(SourceId::parse("77"), Some(SourceId::Unknown(77)));
    assert_eq!(SourceId::parse("tidal"), None);
    assert_eq!(SourceId::Tidal.to_string(), "10");
}

#[test]
fn what_sources_can_do_through_the_command_line() {
    assert!(SourceId::Pandora.cli_browse());
    assert!(!SourceId::Pandora.cli_search());
    assert!(SourceId::Pandora.cli_new_station());
    assert!(!SourceId::Spotify.cli_browse());
    assert!(!SourceId::Spotify.cli_search());
    assert!(!SourceId::Spotify.cli_new_station());
    assert!(SourceId::Qobuz.cli_search());
    assert!(!SourceId::Qobuz.cli_browse());
    assert!(SourceId::SiriusXm.cli_browse());
    assert!(!SourceId::SiriusXm.cli_new_station());
    assert!(SourceId::AmazonMusic.cli_browse());
    assert!(!SourceId::AmazonMusic.cli_search());
    assert!(SourceId::LocalUsbOrDlna.cli_browse());
    assert!(SourceId::LocalUsbOrDlna.cli_search());
    assert!(!SourceId::LocalUsbOrDlna.cli_new_station());
    assert!(SourceId::HeosFavorites.cli_search());
    assert!(SourceId::HeosHistory.cli_browse());
    assert!(!SourceId::HeosHistory.cli_search());
    assert!(!SourceId::Unknown(1).cli_browse());
    assert!(!SourceId::Unknown(99).cli_search());
    let browse = [1, 2, 3, 5, 6, 7, 8, 9, 10, 13, 1024, 1025, 1026, 1027, 1028];
    let search = [2, 3, 5, 6, 9, 10, 30, 1024, 1028];
    let station = [1, 2, 3, 5, 6, 7, 9, 10];
    for code in 0..1100 {
        let id = SourceId::from(code);
        assert_eq!(id.cli_browse(), browse.contains(&code), "{code}");
        assert_eq!(id.cli_search(), search.contains(&code), "{code}");
        assert_eq!(id.cli_new_station(), station.contains(&code), "{code}");
    }
}

#[test]
fn criteria_ids_by_number() {
    let named = [
        (1, CriteriaId::Artist), (2, CriteriaId::Album), (3, CriteriaId::Track),
        (4, CriteriaId::Station), (5, CriteriaId::Shows), (6, CriteriaId::Playlist),
        (7, CriteriaId::Accounts),
    ];
    for (code, id) in named {
        assert_eq!(CriteriaId::from(code), id);
        assert_eq!(id.to_code(), code);
    }
    assert_eq!(CriteriaId::from(8), CriteriaId::Unknown(8));
    assert_eq!(CriteriaId::from(0), CriteriaId::Unknown(0));
}

#[test]
fn service_option_types_by_number() {
    let codes = [1, 2, 3, 4, 5, 6, 7, 8, 11, 12, 13, 19, 20, 21];
    for code in -5..30 {
        match ServiceOptionType::try_from(code) {
            Some(kind) => {
                assert!(codes.contains(&code));
                assert_eq!(kind.to_code(), code);
            }
            None => assert!(!codes.contains(&code)),
        }
    }
    assert_eq!(ServiceOptionType::try_from(21), Some(ServiceOptionType::PlayableContainer));
    assert_eq!(ServiceOptionType::try_from(11), Some(ServiceOptionType::ThumbsUp));
}

#[test]
fn identifiers_are_written_and_read_in_decimal() {
    assert_eq!(PlayerId(42).to_string(), "42");
    assert_eq!(PlayerId(-1234567890).to_string(), "-1234567890");
    assert_eq!(GroupId(7).to_string(), "7");
    assert_eq!(QueueId(0).to_string(), "0");
    assert_eq!(PlayerId::parse("-1234567890"), Some(PlayerId(-1234567890)));
    assert_eq!(GroupId::parse("7"), Some(GroupId(7)));
    assert_eq!(QueueId::parse("18446744073709551615"), Some(QueueId(u64::MAX)));
    assert_eq!(QueueId::parse("-1"), None);
    assert_eq!(PlayerId::parse("4 2"), None);
    assert_eq!(PlayerId::parse(""), None);
}
