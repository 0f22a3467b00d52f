use heos::command::browse::{Browse, GetAlbumMetadata, Search};
use heos::command::player::GetNowPlayingMedia;
use heos::command::typed::Command;
use heos::data::codec::{
    group_info_list_from_json, player_info_list_from_json, player_info_list_to_json,
    queued_track_info_list_from_json, queued_track_info_list_to_json,
};
use heos::data::group::{GroupId, GroupInfo, GroupPlayer, GroupRole};
use heos::data::item::SourceItem;
use heos::data::media::{media_item_from_track, song_from_track};
use heos::data::option::ServiceOptionType;
use heos::data::player::{
    LineOutControlType, LineOutType, NetworkType, PlayerId, PlayerInfo, UpdateAvailable,
    UpdatePayload,
};
use heos::data::queue::{NowPlayingInfo, QueueId, QueuedTrackInfo};
use heos::data::quickselect::{QuickSelect, QuickSelectId};
use heos::data::response::{RawResponse, RawResponseHeos};
use heos::data::source::{
    CriteriaId, SearchCriteria, SourceAvailable, SourceId, SourceInfo, SourceType,
};
use heos::json::JsonValue;

fn object(members: Vec<(&str, JsonValue)>) -> JsonValue {
    JsonValue::Object(members.into_iter().map(|(k, v)| (k.to_string(), v)).collect())
}

fn text(t: &str) -> JsonValue {
    JsonValue::Text(t.to_string())
}

fn num(n: i64) -> JsonValue {
    JsonValue::from_i64(n)
}

fn member<'a>(j: &'a JsonValue, key: &str) -> &'a JsonValue {
    j.get(key).unwrap()
}

#[test]
fn json_values_are_read_by_kind() {
    let j = object(vec![
        ("a", num(5)),
        ("b", num(-5)),
        ("c", text("t")),
        ("d", JsonValue::Null),
        ("e", JsonValue::Array(vec![num(1)])),
        ("f", JsonValue::Flag(true)),
        ("g", JsonValue::PosInt(u64::MAX)),
        ("h", JsonValue::Real("1.5".to_string())),
        ("a", num(6)),
    ]);
    assert_eq!(member(&j, "a").as_i64(), Some(5));
    assert_eq!(member(&j, "a").as_u64(), Some(5));
    assert_eq!(member(&j, "b").as_i64(), Some(-5));
    assert_eq!(member(&j, "b").as_u64(), None);
    assert_eq!(member(&j, "c").as_str(), Some("t"));
    assert_eq!(member(&j, "c").as_i64(), None);
    assert!(member(&j, "d").is_null());
    assert!(!member(&j, "c").is_null());
    assert_eq!(member(&j, "e").as_array().map(|a| a.len()), Some(1));
    assert!(member(&j, "c").as_array().is_none());
    assert_eq!(member(&j, "g").as_i64(), None);
    assert_eq!(member(&j, "g").as_u64(), Some(u64::MAX));
    assert_eq!(member(&j, "h").as_i64(), None);
    assert!(j.get("z").is_none());
    assert!(num(1).get("a").is_none());
    assert!(matches!(JsonValue::from_i64(3), JsonValue::PosInt(3)));
    assert!(matches!(JsonValue::from_i64(-3), JsonValue::NegInt(-3)));
    assert_eq!(j.member_i64("a").unwrap(), 5);
    assert!(j.member_i64("c").is_err());
    assert!(j.member_i64("z").is_err());
    assert_eq!(j.member_opt_i64("z").unwrap(), None);
    assert_eq!(j.member_opt_i64("d").unwrap(), None);
    assert_eq!(j.member_opt_i64("b").unwrap(), Some(-5));
    assert!(j.member_opt_i64("c").is_err());
    assert_eq!(j.member_text("c").unwrap(), "t");
    assert!(j.member_text("a").is_err());
    assert_eq!(j.member_opt_text("d").unwrap(), None);
    assert_eq!(j.member_opt_text("c").unwrap().as_deref(), Some("t"));
    assert!(j.member_opt_text("a").is_err());
    assert_eq!(j.member_u64("g").unwrap(), u64::MAX);
    assert!(j.member_u64("b").is_err());
    assert!(j.member("d").is_ok());
    assert!(j.member("z").is_err());
    assert!(j.items("j").is_err());
    assert_eq!(member(&j, "e").items("e").unwrap().len(), 1);
}

fn player_info() -> PlayerInfo {
    PlayerInfo {
        name: "Kitchen".to_string(),
        player_id: PlayerId(-12345),
        group_id: Some(GroupId(7)),
        model: "HEOS 1".to_string(),
        version: "1.2.3".to_string(),
        ip: "192.168.1.20".to_string(),
        network: NetworkType::WiFi,
        line_out: LineOutType::Fixed,
        line_out_control: Some(LineOutControlType::Trigger),
        serial: Some("ABC".to_string()),
    }
}

#[test]
fn player_descriptions_to_and_from_json() {
    let info = player_info();
    let json = info.to_json();
    assert_eq!(member(&json, "name").as_str(), Some("Kitchen"));
    assert_eq!(member(&json, "pid").as_i64(), Some(-12345));
    assert_eq!(member(&json, "gid").as_i64(), Some(7));
    assert_eq!(member(&json, "network").as_str(), Some("wifi"));
    assert_eq!(member(&json, "lineout").as_i64(), Some(2));
    assert_eq!(member(&json, "control").as_i64(), Some(3));
    assert_eq!(member(&json, "serial").as_str(), Some("ABC"));
    let back = PlayerInfo::from_json(&json).unwrap();
    assert_eq!(format!("{back:?}"), format!("{info:?}"));

    let mut plain = player_info();
    plain.group_id = None;
    plain.line_out_control = None;
    plain.serial = None;
    let json = plain.to_json();
    assert!(member(&json, "gid").is_null());
    assert!(member(&json, "control").is_null());
    let back = PlayerInfo::from_json(&json).unwrap();
    assert_eq!(format!("{back:?}"), format!("{plain:?}"));

    let list = player_info_list_to_json(&vec![player_info(), plain]);
    let back = player_info_list_from_json(&list).unwrap();
    assert_eq!(back.len(), 2);
    assert_eq!(back[1].group_id, None);
    assert!(player_info_list_from_json(&object(vec![])).is_err());
}

#[test]
fn player_descriptions_with_missing_or_wrong_members() {
    let full = || {
        vec![
            ("name", text("n")),
            ("pid", num(1)),
            ("model", text("m")),
            ("version", text("v")),
            ("ip", text("1.2.3.4")),
            ("network", text("wired")),
            ("lineout", num(0)),
        ]
    };
    assert!(PlayerInfo::from_json(&object(full())).is_ok());
    for missing in ["name", "pid", "model", "version", "ip", "network", "lineout"] {
        let members = full().into_iter().filter(|(k, _)| *k != missing).collect();
        assert!(PlayerInfo::from_json(&object(members)).is_err(), "{missing}");
    }
    let with = |key: &'static str, value: JsonValue| {
        let mut members: Vec<(&str, JsonValue)> = full().into_iter().filter(|(k, _)| *k != key).collect();
        members.push((key, value));
        PlayerInfo::from_json(&object(members))
    };
    assert!(with("network", text("ethernet")).is_err());
    assert!(with("lineout", num(3)).is_err());
    assert!(with("control", num(5)).is_err());
    assert!(with("control", num(0)).is_ok());
    assert!(with("pid", text("1")).is_err());
    assert!(with("name", num(1)).is_err());
    assert!(with("gid", text("1")).is_err());
    assert!(with("serial", num(1)).is_err());
    assert_eq!(with("control", num(1)).unwrap().line_out_control, Some(LineOutControlType::Uncontrolled));
    assert!(PlayerInfo::from_json(&JsonValue::Null).is_err());
}

fn track() -> QueuedTrackInfo {
    QueuedTrackInfo {
        song: "Song".to_string(),
        album: "Album".to_string(),
        artist: "Artist".to_string(),
        image_url: Some("http://example.com/a.png".to_string()),
        media_id: "m1".to_string(),
        queue_id: QueueId(4),
        album_id: Some("al1".to_string()),
    }
}

#[test]
fn tracks_to_and_from_json() {
    let t = track();
    let json = t.to_json();
    assert_eq!(member(&json, "mid").as_str(), Some("m1"));
    assert_eq!(member(&json, "qid").as_u64(), Some(4));
    assert_eq!(member(&json, "image_url").as_str(), Some("http://example.com/a.png"));
    let back = QueuedTrackInfo::from_json(&json).unwrap();
    assert_eq!(format!("{back:?}"), format!("{t:?}"));
    let mut bare = track();
    bare.image_url = None;
    bare.album_id = None;
    let json = bare.to_json();
    assert_eq!(member(&json, "image_url").as_str(), Some(""));
    assert!(json.get("album_id").is_none());
    let back = QueuedTrackInfo::from_json(&json).unwrap();
    assert_eq!(format!("{back:?}"), format!("{bare:?}"));
    let list = queued_track_info_list_to_json(&vec![track(), bare]);
    assert_eq!(queued_track_info_list_from_json(&list).unwrap().len(), 2);
}

#[test]
fn addresses_in_payloads_are_checked_and_normalised() {
    let with_image = |image: JsonValue| {
        QueuedTrackInfo::from_json(&object(vec![
            ("song", text("s")),
            ("album", text("a")),
            ("artist", text("r")),
            ("image_url", image),
            ("mid", text("m")),
            ("qid", num(1)),
        ]))
    };
    assert_eq!(
        with_image(text("HTTPS://Example.com:443/x")).unwrap().image_url.as_deref(),
        Some("https://example.com/x")
    );
    assert_eq!(with_image(text("")).unwrap().image_url, None);
    assert!(with_image(text("no address")).is_err());
    assert!(with_image(JsonValue::Null).is_err());
    assert!(with_image(num(3)).is_err());
}

#[test]
fn what_plays_now_to_and_from_json() {
    let song = NowPlayingInfo::Song { info: track(), source_id: SourceId::Tidal };
    let json = song.to_json();
    assert_eq!(member(&json, "type").as_str(), Some("song"));
    assert_eq!(member(&json, "sid").as_i64(), Some(10));
    assert_eq!(member(&json, "song").as_str(), Some("Song"));
    let back = NowPlayingInfo::from_json(&json).unwrap();
    assert_eq!(format!("{back:?}"), format!("{song:?}"));
    let station = NowPlayingInfo::Station {
        info: track(),
        station: "One".to_string(),
        source_id: SourceId::Unknown(55),
    };
    let json = station.to_json();
    assert_eq!(member(&json, "type").as_str(), Some("station"));
    assert_eq!(member(&json, "station").as_str(), Some("One"));
    let back = NowPlayingInfo::from_json(&json).unwrap();
    assert_eq!(format!("{back:?}"), format!("{station:?}"));
    assert!(NowPlayingInfo::from_json(&object(vec![("type", text("podcast"))])).is_err());
    assert!(NowPlayingInfo::from_json(&object(vec![("type", text("song"))])).is_err());
    assert!(NowPlayingInfo::from_json(&object(vec![])).is_err());
}

#[test]
fn groups_sources_and_small_payloads_to_and_from_json() {
    let group = GroupInfo {
        name: "G".to_string(),
        group_id: GroupId(2),
        players: vec![
            GroupPlayer { name: "a".to_string(), player_id: PlayerId(1), role: GroupRole::Leader },
            GroupPlayer { name: "b".to_string(), player_id: PlayerId(2), role: GroupRole::Member },
        ],
    };
    let json = group.to_json();
    let back = GroupInfo::from_json(&json).unwrap();
    assert_eq!(format!("{back:?}"), format!("{group:?}"));
    assert_eq!(back.leader_id(), Some(PlayerId(1)));
    assert!(group_info_list_from_json(&JsonValue::Array(vec![json, JsonValue::Null])).is_err());
    assert!(GroupInfo::from_json(&object(vec![("name", text("g")), ("gid", num(1))])).is_err());
    assert!(GroupInfo::from_json(&object(vec![
        ("name", text("g")),
        ("gid", num(1)),
        ("players", object(vec![]))
    ]))
    .is_err());

    let source = SourceInfo {
        name: "S".to_string(),
        image_url: "https://example.com/s.png".to_string(),
        source_type: SourceType::DlnaServer,
        source_id: SourceId::Unknown(99),
        available: SourceAvailable::True,
        service_username: Some("me".to_string()),
    };
    let back = SourceInfo::from_json(&source.to_json()).unwrap();
    assert_eq!(format!("{back:?}"), format!("{source:?}"));

    let criteria = SearchCriteria {
        name: "Track".to_string(),
        criteria: CriteriaId::Track,
        wildcard: true,
        playable: false,
        search_prefix: Some("P-".to_string()),
    };
    let json = criteria.to_json();
    assert_eq!(member(&json, "wildcard").as_str(), Some("yes"));
    assert_eq!(member(&json, "playable").as_str(), Some("no"));
    let back = SearchCriteria::from_json(&json).unwrap();
    assert_eq!(format!("{back:?}"), format!("{criteria:?}"));
    let sparse = SearchCriteria::from_json(&object(vec![("name", text("n")), ("scid", num(9))])).unwrap();
    assert_eq!(
        (sparse.criteria, sparse.wildcard, sparse.playable, sparse.search_prefix),
        (CriteriaId::Unknown(9), false, false, None)
    );
    assert!(SearchCriteria::from_json(&object(vec![
        ("name", text("n")),
        ("scid", num(9)),
        ("wildcard", text("maybe"))
    ]))
    .is_err());

    let slot = QuickSelect { id: QuickSelectId::new(2).unwrap(), name: "two".to_string() };
    let back = QuickSelect::from_json(&slot.to_json()).unwrap();
    assert_eq!((back.id, back.name.as_str()), (slot.id, "two"));
    assert!(QuickSelect::from_json(&object(vec![("id", num(7)), ("name", text("n"))])).is_err());

    for update in [UpdateAvailable::Current, UpdateAvailable::Exists] {
        let payload = UpdatePayload { update };
        assert_eq!(UpdatePayload::from_json(&payload.to_json()).unwrap(), payload);
    }
    assert!(UpdatePayload::from_json(&object(vec![("update", text("none"))])).is_err());
}

fn reply(message: &str, payload: Option<JsonValue>, options: Option<JsonValue>) -> RawResponse {
    RawResponse {
        heos: RawResponseHeos {
            command: "x/y".to_string(),
            result: Some(true),
            message: message.to_string(),
        },
        payload,
        options,
    }
}

fn item(kind: &str, extra: Vec<(&'static str, JsonValue)>) -> JsonValue {
    let mut members = vec![
        ("type", text(kind)),
        ("name", text("n")),
        ("image_url", text("")),
        ("playable", text("yes")),
    ];
    members.extend(extra);
    object(members)
}

#[test]
fn browsing_returns_items_of_eight_kinds_with_options() {
    let payload = JsonValue::Array(vec![
        item("heos_service", vec![("sid", num(1027))]),
        item("heos_server", vec![("sid", num(1024))]),
        item("artist", vec![("cid", text("c")), ("mid", text("m"))]),
        item("album", vec![("cid", text("c")), ("artist", text("a"))]),
        item("song", vec![("artist", text("a")), ("album", text("l")), ("mid", text("m"))]),
        item("container", vec![("cid", text("c"))]),
        item("station", vec![("mid", text("m"))]),
        item("genre", vec![]),
    ]);
    let options = JsonValue::Array(vec![
        object(vec![("play", JsonValue::Array(vec![object(vec![("id", num(11))])]))]),
        object(vec![(
            "browse",
            JsonValue::Array(vec![
                object(vec![("id", num(13)), ("name", text("Create New Station"))]),
                object(vec![("id", num(21))]),
            ]),
        )]),
        object(vec![("browse", JsonValue::Array(vec![object(vec![("id", num(4))])]))]),
    ]);
    let found = Browse::response(&reply("sid=1", Some(payload), Some(options))).unwrap();
    assert_eq!(
        found.options,
        vec![
            ServiceOptionType::CreateNewStation,
            ServiceOptionType::PlayableContainer,
            ServiceOptionType::AddPlaylistToLibrary
        ]
    );
    assert_eq!(found.value.len(), 8);
    assert!(matches!(&found.value[0], SourceItem::HeosService(i) if i.source_id == SourceId::HeosAuxInputs));
    assert!(matches!(&found.value[1], SourceItem::HeosServer(_)));
    assert!(matches!(&found.value[2], SourceItem::Artist(i) if i.container_id == "c" && i.common.playable));
    assert!(matches!(&found.value[3], SourceItem::Album(i) if i.artist == "a" && i.common.media_id.is_none()));
    assert!(matches!(&found.value[4], SourceItem::Song(i) if i.album == "l"));
    assert!(matches!(&found.value[5], SourceItem::Container(_)));
    assert!(matches!(&found.value[6], SourceItem::Station(i) if i.common.media_id.as_deref() == Some("m")));
    assert!(matches!(&found.value[7], SourceItem::Genre(i) if i.name == "n"));
    assert_eq!(found.value[0].image_url(), &None);
}

#[test]
fn browsing_fails_on_malformed_replies() {
    let one = JsonValue::Array(vec![item("genre", vec![])]);
    assert!(Browse::response(&reply("", None, None)).is_err());
    assert!(Browse::response(&reply("", Some(object(vec![])), None)).is_err());
    assert!(Browse::response(&reply("", Some(JsonValue::Array(vec![item("film", vec![])])), None)).is_err());
    assert!(Browse::response(&reply("", Some(JsonValue::Array(vec![item("artist", vec![])])), None)).is_err());
    let bad_option = JsonValue::Array(vec![object(vec![(
        "browse",
        JsonValue::Array(vec![object(vec![("id", num(9))])]),
    )])]);
    assert!(Browse::response(&reply("", Some(JsonValue::Array(vec![])), Some(bad_option))).is_err());
    let no_list = object(vec![("browse", JsonValue::Array(vec![]))]);
    let found = Browse::response(&reply("", Some(JsonValue::Array(vec![])), Some(no_list))).unwrap();
    assert!(found.options.is_empty());
    let mut failed = reply("eid=8&text=User not logged in", Some(one), None);
    failed.heos.result = Some(false);
    assert!(matches!(
        Browse::response(&failed),
        Err(heos::command::error::CommandError::UserNotLoggedIn)
    ));
}

#[test]
fn a_search_tells_how_much_there_is_in_all() {
    let payload = JsonValue::Array(vec![item("genre", vec![]), item("genre", vec![])]);
    let found = Search::response(&reply("sid=1&count=17&returned=2", Some(payload), None)).unwrap();
    assert_eq!(found.value.count, 17);
    assert_eq!(found.value.source_items.len(), 2);
    assert!(Search::response(&reply("sid=1", Some(JsonValue::Array(vec![])), None)).is_err());
    assert!(Search::response(&reply("count=-1", Some(JsonValue::Array(vec![])), None)).is_err());
    assert!(Search::response(&reply("count=1", None, None)).is_err());
}

#[test]
fn album_art_and_now_playing_replies() {
    let payload = JsonValue::Array(vec![object(vec![
        ("album_id", text("a1")),
        (
            "images",
            JsonValue::Array(vec![
                object(vec![("image_url", text("http://example.com/1.png")), ("width", num(100))]),
                object(vec![("image_url", text("http://example.com/2.png")), ("width", num(500))]),
            ]),
        ),
    ])]);
    let art = GetAlbumMetadata::response(&reply("", Some(payload), None)).unwrap();
    assert_eq!(art.len(), 1);
    assert_eq!(art[0].album_id, "a1");
    assert_eq!(art[0].images[1].width, 500);
    assert_eq!(art[0].images[0].image_url, "http://example.com/1.png");
    let bad = JsonValue::Array(vec![object(vec![
        ("album_id", text("a1")),
        ("images", JsonValue::Array(vec![object(vec![("image_url", text("x")), ("width", num(1))])])),
    ])]);
    assert!(GetAlbumMetadata::response(&reply("", Some(bad), None)).is_err());

    let song = NowPlayingInfo::Song { info: track(), source_id: SourceId::Pandora };
    let options = JsonValue::Array(vec![object(vec![(
        "play",
        JsonValue::Array(vec![object(vec![("id", num(11))]), object(vec![("id", num(12))])]),
    )])]);
    let now = GetNowPlayingMedia::response(&reply("pid=1", Some(song.to_json()), Some(options))).unwrap();
    assert_eq!(now.options, vec![ServiceOptionType::ThumbsUp, ServiceOptionType::ThumbsDown]);
    assert!(matches!(now.value, NowPlayingInfo::Song { .. }));
}

#[test]
fn a_track_of_a_queue_is_a_playable_song() {
    let song = song_from_track(track());
    assert_eq!(song.name, "Song");
    assert_eq!(song.artist, "Artist");
    assert_eq!(song.album, "Album");
    assert!(song.common.playable);
    assert_eq!(song.common.media_id.as_deref(), Some("m1"));
    assert_eq!(song.common.image_url.as_deref(), Some("http://example.com/a.png"));
    let item = media_item_from_track(track());
    assert!(matches!(&item, SourceItem::Song(_)));
    assert_eq!(item.image_url().as_deref(), Some("http://example.com/a.png"));
}
