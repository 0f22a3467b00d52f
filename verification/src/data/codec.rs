//! Typed values to and from JSON: what the payload of a reply holds.

use vstd::prelude::*;
use vstd::string::*;
use crate::command::error::{incorrect_data_type, CommandError, CommandErrorView};
use crate::data::group::{
    GroupId,
    GroupInfo,
    GroupInfoView,
    GroupPlayer,
    GroupPlayerView,
    GroupRole,
};
use crate::data::player::{
    LineOutControlType,
    LineOutType,
    NetworkType,
    PlayerId,
    PlayerInfo,
    PlayerInfoView,
    UpdateAvailable,
    UpdatePayload,
};
use crate::data::queue::{
    NowPlayingInfo,
    NowPlayingInfoView,
    QueueId,
    QueuedTrackInfo,
    TrackView,
};
use crate::data::quickselect::{QuickSelect, QuickSelectId, QuickSelectView};
use crate::data::source::{
    CriteriaId,
    SearchCriteria,
    SearchCriteriaView,
    SourceAvailable,
    SourceId,
    SourceInfo,
    SourceInfoView,
    SourceType,
};
use crate::data::url::{optional_url, parse_optional_url, parse_url, url_normal_form};
use crate::json::{
    int_json,
    items_of,
    member,
    member_i64,
    member_opt_i64,
    member_opt_text,
    member_text,
    member_u64,
    opt_int_json,
    opt_text_json,
    told,
    told_opt_text,
    told_view,
    JsonValue,
    JsonView,
};
use crate::views::{lemma_views_push, lemma_views_take_next, views};

verus! {

/// What each item of a list tells, in order; the first item that fails
/// decides the error.
pub open spec fn decode_each<T>(
    items: Seq<JsonView>,
    f: spec_fn(JsonView) -> Result<T, CommandErrorView>,
) -> Result<Seq<T>, CommandErrorView>
    decreases items.len(),
{
    if items.len() == 0 {
        Ok(Seq::empty())
    } else {
        match decode_each(items.drop_last(), f) {
            Err(e) => Err(e),
            Ok(front) => match f(items.last()) {
                Err(e) => Err(e),
                Ok(v) => Ok(front.push(v)),
            },
        }
    }
}

/// A failure in a prefix of a list is the failure of the whole list.
pub proof fn lemma_decode_each_prefix<T>(
    items: Seq<JsonView>,
    f: spec_fn(JsonView) -> Result<T, CommandErrorView>,
    k: int,
)
    requires
        0 <= k <= items.len(),
        decode_each(items.take(k), f) is Err,
    ensures
        decode_each(items, f) == decode_each(items.take(k), f),
    decreases items.len(),
{
    if k == items.len() {
        assert(items.take(k) =~= items);
    } else {
        assert(items.drop_last().take(k) =~= items.take(k));
        lemma_decode_each_prefix(items.drop_last(), f, k);
    }
}

/// The member `key` as an identifier made by `make`.
pub open spec fn member_id<T>(j: JsonView, key: Seq<char>, make: spec_fn(i64) -> T) -> Result<
    T,
    CommandErrorView,
> {
    match member_i64(j, key) {
        Ok(n) => Ok(make(n)),
        Err(e) => Err(e),
    }
}

/// The member `key` as an identifier made by `make`, `None` where the
/// member is missing or `null`.
pub open spec fn member_opt_id<T>(j: JsonView, key: Seq<char>, make: spec_fn(i64) -> T) -> Result<
    Option<T>,
    CommandErrorView,
> {
    match member_opt_i64(j, key) {
        Ok(Some(n)) => Ok(Some(make(n))),
        Ok(None) => Ok(None),
        Err(e) => Err(e),
    }
}

/// The member `key` as a place in a queue.
pub open spec fn member_place(j: JsonView, key: Seq<char>) -> Result<QueueId, CommandErrorView> {
    match member_u64(j, key) {
        Ok(n) => Ok(QueueId(n)),
        Err(e) => Err(e),
    }
}

/// The member `key` as a value that `read` makes of a word; `kind` names
/// the kind of value in the error for a word that `read` refuses.
pub open spec fn member_word<T>(
    j: JsonView,
    key: Seq<char>,
    kind: Seq<char>,
    read: spec_fn(Seq<char>) -> Option<T>,
) -> Result<T, CommandErrorView> {
    match member_text(j, key) {
        Err(e) => Err(e),
        Ok(t) => match read(t) {
            Some(v) => Ok(v),
            None => Err(incorrect_data_type(kind, key)),
        },
    }
}

/// The member `key` as a value that `read` makes of a number.
pub open spec fn member_code<T>(
    j: JsonView,
    key: Seq<char>,
    kind: Seq<char>,
    read: spec_fn(i64) -> Option<T>,
) -> Result<T, CommandErrorView> {
    match member_i64(j, key) {
        Err(e) => Err(e),
        Ok(n) => match read(n) {
            Some(v) => Ok(v),
            None => Err(incorrect_data_type(kind, key)),
        },
    }
}

/// The member `key` as a value that `read` makes of a number, `None` where
/// the member is missing or `null`.
pub open spec fn member_opt_code<T>(
    j: JsonView,
    key: Seq<char>,
    kind: Seq<char>,
    read: spec_fn(i64) -> Option<T>,
) -> Result<Option<T>, CommandErrorView> {
    match member_opt_i64(j, key) {
        Err(e) => Err(e),
        Ok(None) => Ok(None),
        Ok(Some(n)) => match read(n) {
            Some(v) => Ok(Some(v)),
            None => Err(incorrect_data_type(kind, key)),
        },
    }
}

/// The member `key` as a web address in its normal form.
pub open spec fn member_url(j: JsonView, key: Seq<char>) -> Result<Seq<char>, CommandErrorView> {
    match member_text(j, key) {
        Err(e) => Err(e),
        Ok(t) => match url_normal_form(t) {
            Some(url) => Ok(url),
            None => Err(incorrect_data_type("URL"@, key)),
        },
    }
}

/// The member `key` as a web address that may be missing: the empty text
/// stands for none.
pub open spec fn member_maybe_url(j: JsonView, key: Seq<char>) -> Result<
    Option<Seq<char>>,
    CommandErrorView,
> {
    match member_text(j, key) {
        Err(e) => Err(e),
        Ok(t) => match optional_url(t) {
            Ok(url) => Ok(url),
            Err(_) => Err(incorrect_data_type("URL"@, key)),
        },
    }
}

/// The word for a truth value in a payload: `yes` or `no`.
pub open spec fn yes_no_text(b: bool) -> Seq<char> {
    if b {
        "yes"@
    } else {
        "no"@
    }
}

/// The member `key` as a truth value written `yes` or `no`; a missing
/// member counts as `no`.
pub open spec fn member_yes_no(j: JsonView, key: Seq<char>) -> Result<bool, CommandErrorView> {
    match j.get(key) {
        None => Ok(false),
        Some(v) => match v.as_text() {
            None => Err(incorrect_data_type("string"@, key)),
            Some(t) => if t == "yes"@ {
                Ok(true)
            } else if t == "no"@ {
                Ok(false)
            } else {
                Err(incorrect_data_type("yes/no"@, key))
            },
        },
    }
}

/// The member `key` as a truth value written `yes` or `no`, which must be
/// there.
pub open spec fn member_yes_no_required(j: JsonView, key: Seq<char>) -> Result<
    bool,
    CommandErrorView,
> {
    match member_text(j, key) {
        Err(e) => Err(e),
        Ok(t) => if t == "yes"@ {
            Ok(true)
        } else if t == "no"@ {
            Ok(false)
        } else {
            Err(incorrect_data_type("yes/no"@, key))
        },
    }
}

/// The member `key` as a size: a whole number that is not negative and
/// fits the machine.
pub open spec fn member_usize(j: JsonView, key: Seq<char>) -> Result<usize, CommandErrorView> {
    match member_u64(j, key) {
        Err(e) => Err(e),
        Ok(n) => if n <= usize::MAX {
            Ok(n as usize)
        } else {
            Err(incorrect_data_type("usize"@, key))
        },
    }
}

/// The number of a quick-select slot that `n` stands for.
pub open spec fn quick_select_id_of(n: i64) -> Option<int> {
    if QuickSelectId::valid(n as int) {
        Some(n as int)
    } else {
        None
    }
}

/// Reads the member `key` as a truth value written `yes` or `no`, which
/// must be there.
pub fn required_yes_no_member(j: &JsonValue, key: &str) -> (r: Result<bool, CommandError>)
    ensures
        told(r, member_yes_no_required(j@, key@)),
{
    let text = j.member_text(key)?;
    if text.as_str().eq("yes") {
        Ok(true)
    } else if text.as_str().eq("no") {
        Ok(false)
    } else {
        Err(CommandError::response_incorrect_data_type("yes/no", key))
    }
}

/// Reads the member `key` as a size.
pub fn usize_member(j: &JsonValue, key: &str) -> (r: Result<usize, CommandError>)
    ensures
        told(r, member_usize(j@, key@)),
{
    let n = j.member_u64(key)?;
    if n <= usize::MAX as u64 {
        Ok(n as usize)
    } else {
        Err(CommandError::response_incorrect_data_type("usize", key))
    }
}

/// The word for a truth value in a payload.
pub fn yes_no_str(b: bool) -> (s: &'static str)
    ensures
        s@ == yes_no_text(b),
{
    if b {
        "yes"
    } else {
        "no"
    }
}

/// Reads the member `key` as a web address.
pub fn url_member(j: &JsonValue, key: &str) -> (r: Result<String, CommandError>)
    ensures
        told_view(r, member_url(j@, key@)),
{
    let text = j.member_text(key)?;
    match parse_url(text.as_str()) {
        Some(url) => Ok(url),
        None => Err(CommandError::response_incorrect_data_type("URL", key)),
    }
}

/// Reads the member `key` as a web address that may be missing.
pub fn maybe_url_member(j: &JsonValue, key: &str) -> (r: Result<Option<String>, CommandError>)
    ensures
        told_opt_text(r, member_maybe_url(j@, key@)),
{
    let text = j.member_text(key)?;
    match parse_optional_url(text.as_str()) {
        Ok(url) => Ok(url),
        Err(_) => Err(CommandError::response_incorrect_data_type("URL", key)),
    }
}

/// Reads the member `key` as a truth value written `yes` or `no`; a
/// missing member counts as `no`.
pub fn yes_no_member(j: &JsonValue, key: &str) -> (r: Result<bool, CommandError>)
    ensures
        told(r, member_yes_no(j@, key@)),
{
    match j.get(key) {
        None => Ok(false),
        Some(v) => match v.as_str() {
            None => Err(CommandError::response_incorrect_data_type("string", key)),
            Some(t) => if t.eq("yes") {
                Ok(true)
            } else if t.eq("no") {
                Ok(false)
            } else {
                Err(CommandError::response_incorrect_data_type("yes/no", key))
            },
        },
    }
}

/// The JSON form of a player's description.
pub open spec fn player_info_json(v: PlayerInfoView) -> JsonView {
    JsonView::Object(player_info_members(v))
}

/// The members of the JSON form of a player's description.
pub open spec fn player_info_members(v: PlayerInfoView) -> Seq<(Seq<char>, JsonView)> {
    let m = Seq::empty();
    let m = m.push(("name"@, JsonView::Text(v.name)));
    let m = m.push(("pid"@, int_json(v.player_id.0)));
    let m = m.push(
        (
            "gid"@,
            opt_int_json(
                match v.group_id {
                    Some(id) => Some(id.0),
                    None => None,
                },
            ),
        ),
    );
    let m = m.push(("model"@, JsonView::Text(v.model)));
    let m = m.push(("version"@, JsonView::Text(v.version)));
    let m = m.push(("ip"@, JsonView::Text(v.ip)));
    let m = m.push(("network"@, JsonView::Text(v.network.wire())));
    let m = m.push(("lineout"@, int_json(v.line_out.code() as i64)));
    let m = m.push(
        (
            "control"@,
            opt_int_json(
                match v.line_out_control {
                    Some(c) => Some(c.code() as i64),
                    None => None,
                },
            ),
        ),
    );
    m.push(("serial"@, opt_text_json(v.serial)))
}

/// What a JSON value tells of a player's description: each member is read in turn, and the
/// first that is missing or of the wrong kind decides the error.
pub open spec fn player_info_of_json(j: JsonView) -> Result<PlayerInfoView, CommandErrorView> {
    let name = member_text(j, "name"@);
    let player_id = member_id(j, "pid"@, |n: i64| PlayerId(n));
    let group_id = member_opt_id(j, "gid"@, |n: i64| GroupId(n));
    let model = member_text(j, "model"@);
    let version = member_text(j, "version"@);
    let ip = member_text(j, "ip"@);
    let network = member_word(
        j,
        "network"@,
        "NetworkType"@,
        |t: Seq<char>| NetworkType::from_wire(t),
    );
    let line_out = member_code(
        j,
        "lineout"@,
        "LineOutType"@,
        |n: i64| LineOutType::from_code(n as int),
    );
    let line_out_control = member_opt_code(
        j,
        "control"@,
        "LineOutControlType"@,
        |n: i64| LineOutControlType::from_code(n as int),
    );
    let serial = member_opt_text(j, "serial"@);
    if name is Err {
        Err(name->Err_0)
    } else if player_id is Err {
        Err(player_id->Err_0)
    } else if group_id is Err {
        Err(group_id->Err_0)
    } else if model is Err {
        Err(model->Err_0)
    } else if version is Err {
        Err(version->Err_0)
    } else if ip is Err {
        Err(ip->Err_0)
    } else if network is Err {
        Err(network->Err_0)
    } else if line_out is Err {
        Err(line_out->Err_0)
    } else if line_out_control is Err {
        Err(line_out_control->Err_0)
    } else if serial is Err {
        Err(serial->Err_0)
    } else {
        Ok(
            PlayerInfoView {
                name: name->Ok_0,
                player_id: player_id->Ok_0,
                group_id: group_id->Ok_0,
                model: model->Ok_0,
                version: version->Ok_0,
                ip: ip->Ok_0,
                network: network->Ok_0,
                line_out: line_out->Ok_0,
                line_out_control: line_out_control->Ok_0,
                serial: serial->Ok_0,
            },
        )
    }
}

impl PlayerInfo {
    /// Adds the members of the JSON form to an object under construction.
    pub fn put_members(&self, m: &mut Vec<(String, JsonValue)>)
        ensures
            JsonValue::member_views(final(m)@) == JsonValue::member_views(old(m)@)
                + player_info_members(self@),
    {
        JsonValue::put_text(m, "name", self.name.as_str());
        JsonValue::put_int(m, "pid", self.player_id.0);
        match self.group_id {
            Some(id) => JsonValue::put_int(m, "gid", id.0),
            None => JsonValue::put(m, "gid", JsonValue::Null),
        }
        JsonValue::put_text(m, "model", self.model.as_str());
        JsonValue::put_text(m, "version", self.version.as_str());
        JsonValue::put_text(m, "ip", self.ip.as_str());
        JsonValue::put_text(m, "network", self.network.as_str());
        JsonValue::put_int(m, "lineout", self.line_out.to_code());
        match self.line_out_control {
            Some(c) => JsonValue::put_int(m, "control", c.to_code()),
            None => JsonValue::put(m, "control", JsonValue::Null),
        }
        JsonValue::put_opt_text(m, "serial", &self.serial);
        assert(JsonValue::member_views(m@) =~= JsonValue::member_views(old(m)@)
            + player_info_members(self@));
    }

    /// Writes the value as JSON.
    pub fn to_json(&self) -> (j: JsonValue)
        ensures
            j@ == player_info_json(self@),
    {
        let mut m: Vec<(String, JsonValue)> = Vec::new();
        self.put_members(&mut m);
        assert(JsonValue::member_views(m@) =~= player_info_members(self@));
        JsonValue::object(m)
    }

    /// Reads the value from JSON.
    pub fn from_json(j: &JsonValue) -> (r: Result<Self, CommandError>)
        ensures
            told_view(r, player_info_of_json(j@)),
    {
        let name = j.member_text("name")?;
        let player_id = PlayerId(j.member_i64("pid")?);
        let group_id = match j.member_opt_i64("gid")? {
            Some(n) => Some(GroupId(n)),
            None => None,
        };
        let model = j.member_text("model")?;
        let version = j.member_text("version")?;
        let ip = j.member_text("ip")?;
        let network = match NetworkType::parse(j.member_text("network")?.as_str()) {
            Some(v) => v,
            None => return Err(
                CommandError::response_incorrect_data_type("NetworkType", "network"),
            ),
        };
        let line_out = match LineOutType::try_from(j.member_i64("lineout")?) {
            Some(v) => v,
            None => return Err(
                CommandError::response_incorrect_data_type("LineOutType", "lineout"),
            ),
        };
        let line_out_control = match j.member_opt_i64("control")? {
            None => None,
            Some(n) => match LineOutControlType::try_from(n) {
                Some(v) => Some(v),
                None => return Err(
                    CommandError::response_incorrect_data_type("LineOutControlType", "control"),
                ),
            },
        };
        let serial = j.member_opt_text("serial")?;
        Ok(
            PlayerInfo {
                name,
                player_id,
                group_id,
                model,
                version,
                ip,
                network,
                line_out,
                line_out_control,
                serial,
            },
        )
    }
}

/// The JSON form of a list of player descriptions.
pub open spec fn player_info_list_json(items: Seq<PlayerInfoView>) -> JsonView {
    JsonView::Array(items.map_values(|v: PlayerInfoView| player_info_json(v)))
}

/// What a JSON value tells of a list of player descriptions.
pub open spec fn player_info_list_of_json(
    j: JsonView,
) -> Result<Seq<PlayerInfoView>, CommandErrorView> {
    match items_of(j, "payload"@) {
        Err(e) => Err(e),
        Ok(items) => decode_each(items, |item: JsonView| player_info_of_json(item)),
    }
}

/// Writes a list of player descriptions as JSON.
pub fn player_info_list_to_json(items: &Vec<PlayerInfo>) -> (j: JsonValue)
    ensures
        j@ == player_info_list_json(views(items@)),
{
    let mut out: Vec<JsonValue> = Vec::new();
    let mut i: usize = 0;
    while i < items.len()
        invariant
            i <= items.len(),
            JsonValue::item_views(out@) == views(items@.take(i as int)).map_values(
                |v: PlayerInfoView| player_info_json(v),
            ),
        decreases items.len() - i,
    {
        let ghost before = JsonValue::item_views(out@);
        JsonValue::add(&mut out, items[i].to_json());
        proof {
            lemma_views_take_next(items@, i as int);
            assert(views(items@.take(i + 1)).map_values(
                |v: PlayerInfoView| player_info_json(v),
            ) =~= before.push(
                player_info_json(items@[i as int]@),
            ));
        }
        i += 1;
    }
    assert(items@.take(i as int) =~= items@);
    JsonValue::array(out)
}

/// Reads a list of player descriptions from JSON.
pub fn player_info_list_from_json(j: &JsonValue) -> (r: Result<Vec<PlayerInfo>, CommandError>)
    ensures
        match r {
            Ok(items) => player_info_list_of_json(j@) == Ok::<
                Seq<PlayerInfoView>,
                CommandErrorView,
            >(views(items@)),
            Err(e) => player_info_list_of_json(j@) == Err::<Seq<PlayerInfoView>, CommandErrorView>(
                e@,
            ),
        },
{
    let values = j.items("payload")?;
    let ghost all = JsonValue::item_views(values@);
    let mut out: Vec<PlayerInfo> = Vec::new();
    let mut i: usize = 0;
    assert(all.take(0) =~= Seq::empty());
    assert(views(out@) =~= Seq::<PlayerInfoView>::empty());
    while i < values.len()
        invariant
            i <= values.len(),
            all == JsonValue::item_views(values@),
            items_of(j@, "payload"@) == Ok::<Seq<JsonView>, CommandErrorView>(all),
            decode_each(all.take(i as int), |item: JsonView| player_info_of_json(item)) == Ok::<
                Seq<PlayerInfoView>,
                CommandErrorView,
            >(views(out@)),
        decreases values.len() - i,
    {
        proof {
            assert(all.take(i + 1).drop_last() =~= all.take(i as int));
            assert(all.take(i + 1).last() == values@[i as int]@);
        }
        match PlayerInfo::from_json(&values[i]) {
            Ok(item) => {
                proof {
                    lemma_views_push(out@, item);
                }
                out.push(item);
            },
            Err(e) => {
                proof {
                    lemma_decode_each_prefix(
                        all,
                        |item: JsonView| player_info_of_json(item),
                        i + 1,
                    );
                }
                return Err(e);
            },
        }
        i += 1;
    }
    assert(all.take(i as int) =~= all);
    Ok(out)
}

/// The JSON form of a player of a group.
pub open spec fn group_player_json(v: GroupPlayerView) -> JsonView {
    JsonView::Object(group_player_members(v))
}

/// The members of the JSON form of a player of a group.
pub open spec fn group_player_members(v: GroupPlayerView) -> Seq<(Seq<char>, JsonView)> {
    let m = Seq::empty();
    let m = m.push(("name"@, JsonView::Text(v.name)));
    let m = m.push(("pid"@, int_json(v.player_id.0)));
    m.push(("role"@, JsonView::Text(v.role.wire())))
}

/// What a JSON value tells of a player of a group: each member is read in turn, and the
/// first that is missing or of the wrong kind decides the error.
pub open spec fn group_player_of_json(j: JsonView) -> Result<GroupPlayerView, CommandErrorView> {
    let name = member_text(j, "name"@);
    let player_id = member_id(j, "pid"@, |n: i64| PlayerId(n));
    let role = member_word(j, "role"@, "GroupRole"@, |t: Seq<char>| GroupRole::from_wire(t));
    if name is Err {
        Err(name->Err_0)
    } else if player_id is Err {
        Err(player_id->Err_0)
    } else if role is Err {
        Err(role->Err_0)
    } else {
        Ok(
            GroupPlayerView {
                name: name->Ok_0,
                player_id: player_id->Ok_0,
                role: role->Ok_0,
            },
        )
    }
}

impl GroupPlayer {
    /// Adds the members of the JSON form to an object under construction.
    pub fn put_members(&self, m: &mut Vec<(String, JsonValue)>)
        ensures
            JsonValue::member_views(final(m)@) == JsonValue::member_views(old(m)@)
                + group_player_members(self@),
    {
        JsonValue::put_text(m, "name", self.name.as_str());
        JsonValue::put_int(m, "pid", self.player_id.0);
        JsonValue::put_text(m, "role", self.role.as_str());
        assert(JsonValue::member_views(m@) =~= JsonValue::member_views(old(m)@)
            + group_player_members(self@));
    }

    /// Writes the value as JSON.
    pub fn to_json(&self) -> (j: JsonValue)
        ensures
            j@ == group_player_json(self@),
    {
        let mut m: Vec<(String, JsonValue)> = Vec::new();
        self.put_members(&mut m);
        assert(JsonValue::member_views(m@) =~= group_player_members(self@));
        JsonValue::object(m)
    }

    /// Reads the value from JSON.
    pub fn from_json(j: &JsonValue) -> (r: Result<Self, CommandError>)
        ensures
            told_view(r, group_player_of_json(j@)),
    {
        let name = j.member_text("name")?;
        let player_id = PlayerId(j.member_i64("pid")?);
        let role = match GroupRole::parse(j.member_text("role")?.as_str()) {
            Some(v) => v,
            None => return Err(CommandError::response_incorrect_data_type("GroupRole", "role")),
        };
        Ok(GroupPlayer { name, player_id, role })
    }
}

/// The JSON form of a list of players of a group.
pub open spec fn group_player_list_json(items: Seq<GroupPlayerView>) -> JsonView {
    JsonView::Array(items.map_values(|v: GroupPlayerView| group_player_json(v)))
}

/// What a JSON value tells of a list of players of a group.
pub open spec fn group_player_list_of_json(
    j: JsonView,
) -> Result<Seq<GroupPlayerView>, CommandErrorView> {
    match items_of(j, "payload"@) {
        Err(e) => Err(e),
        Ok(items) => decode_each(items, |item: JsonView| group_player_of_json(item)),
    }
}

/// Writes a list of players of a group as JSON.
pub fn group_player_list_to_json(items: &Vec<GroupPlayer>) -> (j: JsonValue)
    ensures
        j@ == group_player_list_json(views(items@)),
{
    let mut out: Vec<JsonValue> = Vec::new();
    let mut i: usize = 0;
    while i < items.len()
        invariant
            i <= items.len(),
            JsonValue::item_views(out@) == views(items@.take(i as int)).map_values(
                |v: GroupPlayerView| group_player_json(v),
            ),
        decreases items.len() - i,
    {
        let ghost before = JsonValue::item_views(out@);
        JsonValue::add(&mut out, items[i].to_json());
        proof {
            lemma_views_take_next(items@, i as int);
            assert(views(items@.take(i + 1)).map_values(
                |v: GroupPlayerView| group_player_json(v),
            ) =~= before.push(
                group_player_json(items@[i as int]@),
            ));
        }
        i += 1;
    }
    assert(items@.take(i as int) =~= items@);
    JsonValue::array(out)
}

/// Reads a list of players of a group from JSON.
pub fn group_player_list_from_json(j: &JsonValue) -> (r: Result<Vec<GroupPlayer>, CommandError>)
    ensures
        match r {
            Ok(items) => group_player_list_of_json(j@) == Ok::<
                Seq<GroupPlayerView>,
                CommandErrorView,
            >(views(items@)),
            Err(e) => group_player_list_of_json(j@) == Err::<
                Seq<GroupPlayerView>,
                CommandErrorView,
            >(e@),
        },
{
    let values = j.items("payload")?;
    let ghost all = JsonValue::item_views(values@);
    let mut out: Vec<GroupPlayer> = Vec::new();
    let mut i: usize = 0;
    assert(all.take(0) =~= Seq::empty());
    assert(views(out@) =~= Seq::<GroupPlayerView>::empty());
    while i < values.len()
        invariant
            i <= values.len(),
            all == JsonValue::item_views(values@),
            items_of(j@, "payload"@) == Ok::<Seq<JsonView>, CommandErrorView>(all),
            decode_each(all.take(i as int), |item: JsonView| group_player_of_json(item)) == Ok::<
                Seq<GroupPlayerView>,
                CommandErrorView,
            >(views(out@)),
        decreases values.len() - i,
    {
        proof {
            assert(all.take(i + 1).drop_last() =~= all.take(i as int));
            assert(all.take(i + 1).last() == values@[i as int]@);
        }
        match GroupPlayer::from_json(&values[i]) {
            Ok(item) => {
                proof {
                    lemma_views_push(out@, item);
                }
                out.push(item);
            },
            Err(e) => {
                proof {
                    lemma_decode_each_prefix(
                        all,
                        |item: JsonView| group_player_of_json(item),
                        i + 1,
                    );
                }
                return Err(e);
            },
        }
        i += 1;
    }
    assert(all.take(i as int) =~= all);
    Ok(out)
}

/// The JSON form of a track of a queue.
pub open spec fn queued_track_info_json(v: TrackView) -> JsonView {
    JsonView::Object(queued_track_info_members(v))
}

/// The members of the JSON form of a track of a queue.
pub open spec fn queued_track_info_members(v: TrackView) -> Seq<(Seq<char>, JsonView)> {
    let m = Seq::empty();
    let m = m.push(("song"@, JsonView::Text(v.song)));
    let m = m.push(("album"@, JsonView::Text(v.album)));
    let m = m.push(("artist"@, JsonView::Text(v.artist)));
    let m = m.push(
        (
            "image_url"@,
            JsonView::Text(
                match v.image_url {
                    Some(t) => t,
                    None => Seq::empty(),
                },
            ),
        ),
    );
    let m = m.push(("mid"@, JsonView::Text(v.media_id)));
    let m = m.push(("qid"@, JsonView::PosInt(v.queue_id.0)));
    match v.album_id {
        Some(t) => m.push(("album_id"@, JsonView::Text(t))),
        None => m,
    }
}

/// What a JSON value tells of a track of a queue: each member is read in turn, and the
/// first that is missing or of the wrong kind decides the error.
pub open spec fn queued_track_info_of_json(j: JsonView) -> Result<TrackView, CommandErrorView> {
    let song = member_text(j, "song"@);
    let album = member_text(j, "album"@);
    let artist = member_text(j, "artist"@);
    let image_url = member_maybe_url(j, "image_url"@);
    let media_id = member_text(j, "mid"@);
    let queue_id = member_place(j, "qid"@);
    let album_id = member_opt_text(j, "album_id"@);
    if song is Err {
        Err(song->Err_0)
    } else if album is Err {
        Err(album->Err_0)
    } else if artist is Err {
        Err(artist->Err_0)
    } else if image_url is Err {
        Err(image_url->Err_0)
    } else if media_id is Err {
        Err(media_id->Err_0)
    } else if queue_id is Err {
        Err(queue_id->Err_0)
    } else if album_id is Err {
        Err(album_id->Err_0)
    } else {
        Ok(
            TrackView {
                song: song->Ok_0,
                album: album->Ok_0,
                artist: artist->Ok_0,
                image_url: image_url->Ok_0,
                media_id: media_id->Ok_0,
                queue_id: queue_id->Ok_0,
                album_id: album_id->Ok_0,
            },
        )
    }
}

impl QueuedTrackInfo {
    /// Adds the members of the JSON form to an object under construction.
    pub fn put_members(&self, m: &mut Vec<(String, JsonValue)>)
        ensures
            JsonValue::member_views(final(m)@) == JsonValue::member_views(old(m)@)
                + queued_track_info_members(self@),
    {
        JsonValue::put_text(m, "song", self.song.as_str());
        JsonValue::put_text(m, "album", self.album.as_str());
        JsonValue::put_text(m, "artist", self.artist.as_str());
        match &self.image_url {
            Some(t) => JsonValue::put_text(m, "image_url", t.as_str()),
            None => {
                proof {
                    reveal_strlit("");
                    assert(""@ =~= Seq::<char>::empty());
                }
                JsonValue::put_text(m, "image_url", "");
            },
        }
        JsonValue::put_text(m, "mid", self.media_id.as_str());
        JsonValue::put(m, "qid", JsonValue::PosInt(self.queue_id.0));
        match &self.album_id {
            Some(t) => JsonValue::put_text(m, "album_id", t.as_str()),
            None => {},
        }
        assert(JsonValue::member_views(m@) =~= JsonValue::member_views(old(m)@)
            + queued_track_info_members(self@));
    }

    /// Writes the value as JSON.
    pub fn to_json(&self) -> (j: JsonValue)
        ensures
            j@ == queued_track_info_json(self@),
    {
        let mut m: Vec<(String, JsonValue)> = Vec::new();
        self.put_members(&mut m);
        assert(JsonValue::member_views(m@) =~= queued_track_info_members(self@));
        JsonValue::object(m)
    }

    /// Reads the value from JSON.
    pub fn from_json(j: &JsonValue) -> (r: Result<Self, CommandError>)
        ensures
            told_view(r, queued_track_info_of_json(j@)),
    {
        let song = j.member_text("song")?;
        let album = j.member_text("album")?;
        let artist = j.member_text("artist")?;
        let image_url = maybe_url_member(j, "image_url")?;
        let media_id = j.member_text("mid")?;
        let queue_id = QueueId(j.member_u64("qid")?);
        let album_id = j.member_opt_text("album_id")?;
        Ok(QueuedTrackInfo { song, album, artist, image_url, media_id, queue_id, album_id })
    }
}

/// The JSON form of a list of tracks.
pub open spec fn queued_track_info_list_json(items: Seq<TrackView>) -> JsonView {
    JsonView::Array(items.map_values(|v: TrackView| queued_track_info_json(v)))
}

/// What a JSON value tells of a list of tracks.
pub open spec fn queued_track_info_list_of_json(
    j: JsonView,
) -> Result<Seq<TrackView>, CommandErrorView> {
    match items_of(j, "payload"@) {
        Err(e) => Err(e),
        Ok(items) => decode_each(items, |item: JsonView| queued_track_info_of_json(item)),
    }
}

/// Writes a list of tracks as JSON.
pub fn queued_track_info_list_to_json(items: &Vec<QueuedTrackInfo>) -> (j: JsonValue)
    ensures
        j@ == queued_track_info_list_json(views(items@)),
{
    let mut out: Vec<JsonValue> = Vec::new();
    let mut i: usize = 0;
    while i < items.len()
        invariant
            i <= items.len(),
            JsonValue::item_views(out@) == views(items@.take(i as int)).map_values(
                |v: TrackView| queued_track_info_json(v),
            ),
        decreases items.len() - i,
    {
        let ghost before = JsonValue::item_views(out@);
        JsonValue::add(&mut out, items[i].to_json());
        proof {
            lemma_views_take_next(items@, i as int);
            assert(views(items@.take(i + 1)).map_values(
                |v: TrackView| queued_track_info_json(v),
            ) =~= before.push(
                queued_track_info_json(items@[i as int]@),
            ));
        }
        i += 1;
    }
    assert(items@.take(i as int) =~= items@);
    JsonValue::array(out)
}

/// Reads a list of tracks from JSON.
pub fn queued_track_info_list_from_json(
    j: &JsonValue,
) -> (r: Result<Vec<QueuedTrackInfo>, CommandError>)
    ensures
        match r {
            Ok(items) => queued_track_info_list_of_json(j@) == Ok::<
                Seq<TrackView>,
                CommandErrorView,
            >(views(items@)),
            Err(e) => queued_track_info_list_of_json(j@) == Err::<Seq<TrackView>, CommandErrorView>(
                e@,
            ),
        },
{
    let values = j.items("payload")?;
    let ghost all = JsonValue::item_views(values@);
    let mut out: Vec<QueuedTrackInfo> = Vec::new();
    let mut i: usize = 0;
    assert(all.take(0) =~= Seq::empty());
    assert(views(out@) =~= Seq::<TrackView>::empty());
    while i < values.len()
        invariant
            i <= values.len(),
            all == JsonValue::item_views(values@),
            items_of(j@, "payload"@) == Ok::<Seq<JsonView>, CommandErrorView>(all),
            decode_each(all.take(i as int), |item: JsonView| queued_track_info_of_json(item)) == Ok::<
                Seq<TrackView>,
                CommandErrorView,
            >(views(out@)),
        decreases values.len() - i,
    {
        proof {
            assert(all.take(i + 1).drop_last() =~= all.take(i as int));
            assert(all.take(i + 1).last() == values@[i as int]@);
        }
        match QueuedTrackInfo::from_json(&values[i]) {
            Ok(item) => {
                proof {
                    lemma_views_push(out@, item);
                }
                out.push(item);
            },
            Err(e) => {
                proof {
                    lemma_decode_each_prefix(
                        all,
                        |item: JsonView| queued_track_info_of_json(item),
                        i + 1,
                    );
                }
                return Err(e);
            },
        }
        i += 1;
    }
    assert(all.take(i as int) =~= all);
    Ok(out)
}

/// The JSON form of a quick-select slot.
pub open spec fn quick_select_json(v: QuickSelectView) -> JsonView {
    JsonView::Object(quick_select_members(v))
}

/// The members of the JSON form of a quick-select slot.
pub open spec fn quick_select_members(v: QuickSelectView) -> Seq<(Seq<char>, JsonView)> {
    let m = Seq::empty();
    let m = m.push(("id"@, int_json(v.id as i64)));
    m.push(("name"@, JsonView::Text(v.name)))
}

/// What a JSON value tells of a quick-select slot: each member is read in turn, and the
/// first that is missing or of the wrong kind decides the error.
pub open spec fn quick_select_of_json(j: JsonView) -> Result<QuickSelectView, CommandErrorView> {
    let id = member_code(j, "id"@, "QuickSelectId"@, |n: i64| quick_select_id_of(n));
    let name = member_text(j, "name"@);
    if id is Err {
        Err(id->Err_0)
    } else if name is Err {
        Err(name->Err_0)
    } else {
        Ok(
            QuickSelectView {
                id: id->Ok_0,
                name: name->Ok_0,
            },
        )
    }
}

impl QuickSelect {
    /// Adds the members of the JSON form to an object under construction.
    pub fn put_members(&self, m: &mut Vec<(String, JsonValue)>)
        ensures
            JsonValue::member_views(final(m)@) == JsonValue::member_views(old(m)@)
                + quick_select_members(self@),
    {
        JsonValue::put_int(m, "id", self.id.get());
        JsonValue::put_text(m, "name", self.name.as_str());
        assert(JsonValue::member_views(m@) =~= JsonValue::member_views(old(m)@)
            + quick_select_members(self@));
    }

    /// Writes the value as JSON.
    pub fn to_json(&self) -> (j: JsonValue)
        ensures
            j@ == quick_select_json(self@),
    {
        let mut m: Vec<(String, JsonValue)> = Vec::new();
        self.put_members(&mut m);
        assert(JsonValue::member_views(m@) =~= quick_select_members(self@));
        JsonValue::object(m)
    }

    /// Reads the value from JSON.
    pub fn from_json(j: &JsonValue) -> (r: Result<Self, CommandError>)
        ensures
            told_view(r, quick_select_of_json(j@)),
    {
        let id = match QuickSelectId::new(j.member_i64("id")?) {
            Ok(v) => v,
            Err(_) => return Err(CommandError::response_incorrect_data_type("QuickSelectId", "id")),
        };
        let name = j.member_text("name")?;
        Ok(QuickSelect { id, name })
    }
}

/// The JSON form of a list of quick-select slots.
pub open spec fn quick_select_list_json(items: Seq<QuickSelectView>) -> JsonView {
    JsonView::Array(items.map_values(|v: QuickSelectView| quick_select_json(v)))
}

/// What a JSON value tells of a list of quick-select slots.
pub open spec fn quick_select_list_of_json(
    j: JsonView,
) -> Result<Seq<QuickSelectView>, CommandErrorView> {
    match items_of(j, "payload"@) {
        Err(e) => Err(e),
        Ok(items) => decode_each(items, |item: JsonView| quick_select_of_json(item)),
    }
}

/// Writes a list of quick-select slots as JSON.
pub fn quick_select_list_to_json(items: &Vec<QuickSelect>) -> (j: JsonValue)
    ensures
        j@ == quick_select_list_json(views(items@)),
{
    let mut out: Vec<JsonValue> = Vec::new();
    let mut i: usize = 0;
    while i < items.len()
        invariant
            i <= items.len(),
            JsonValue::item_views(out@) == views(items@.take(i as int)).map_values(
                |v: QuickSelectView| quick_select_json(v),
            ),
        decreases items.len() - i,
    {
        let ghost before = JsonValue::item_views(out@);
        JsonValue::add(&mut out, items[i].to_json());
        proof {
            lemma_views_take_next(items@, i as int);
            assert(views(items@.take(i + 1)).map_values(
                |v: QuickSelectView| quick_select_json(v),
            ) =~= before.push(
                quick_select_json(items@[i as int]@),
            ));
        }
        i += 1;
    }
    assert(items@.take(i as int) =~= items@);
    JsonValue::array(out)
}

/// Reads a list of quick-select slots from JSON.
pub fn quick_select_list_from_json(j: &JsonValue) -> (r: Result<Vec<QuickSelect>, CommandError>)
    ensures
        match r {
            Ok(items) => quick_select_list_of_json(j@) == Ok::<
                Seq<QuickSelectView>,
                CommandErrorView,
            >(views(items@)),
            Err(e) => quick_select_list_of_json(j@) == Err::<
                Seq<QuickSelectView>,
                CommandErrorView,
            >(e@),
        },
{
    let values = j.items("payload")?;
    let ghost all = JsonValue::item_views(values@);
    let mut out: Vec<QuickSelect> = Vec::new();
    let mut i: usize = 0;
    assert(all.take(0) =~= Seq::empty());
    assert(views(out@) =~= Seq::<QuickSelectView>::empty());
    while i < values.len()
        invariant
            i <= values.len(),
            all == JsonValue::item_views(values@),
            items_of(j@, "payload"@) == Ok::<Seq<JsonView>, CommandErrorView>(all),
            decode_each(all.take(i as int), |item: JsonView| quick_select_of_json(item)) == Ok::<
                Seq<QuickSelectView>,
                CommandErrorView,
            >(views(out@)),
        decreases values.len() - i,
    {
        proof {
            assert(all.take(i + 1).drop_last() =~= all.take(i as int));
            assert(all.take(i + 1).last() == values@[i as int]@);
        }
        match QuickSelect::from_json(&values[i]) {
            Ok(item) => {
                proof {
                    lemma_views_push(out@, item);
                }
                out.push(item);
            },
            Err(e) => {
                proof {
                    lemma_decode_each_prefix(
                        all,
                        |item: JsonView| quick_select_of_json(item),
                        i + 1,
                    );
                }
                return Err(e);
            },
        }
        i += 1;
    }
    assert(all.take(i as int) =~= all);
    Ok(out)
}

/// The JSON form of a source's description.
pub open spec fn source_info_json(v: SourceInfoView) -> JsonView {
    JsonView::Object(source_info_members(v))
}

/// The members of the JSON form of a source's description.
pub open spec fn source_info_members(v: SourceInfoView) -> Seq<(Seq<char>, JsonView)> {
    let m = Seq::empty();
    let m = m.push(("name"@, JsonView::Text(v.name)));
    let m = m.push(("image_url"@, JsonView::Text(v.image_url)));
    let m = m.push(("type"@, JsonView::Text(v.source_type.wire())));
    let m = m.push(("sid"@, int_json(v.source_id.code())));
    let m = m.push(("available"@, JsonView::Text(v.available.wire())));
    match v.service_username {
        Some(t) => m.push(("service_username"@, JsonView::Text(t))),
        None => m,
    }
}

/// What a JSON value tells of a source's description: each member is read in turn, and the
/// first that is missing or of the wrong kind decides the error.
pub open spec fn source_info_of_json(j: JsonView) -> Result<SourceInfoView, CommandErrorView> {
    let name = member_text(j, "name"@);
    let image_url = member_url(j, "image_url"@);
    let source_type = member_word(
        j,
        "type"@,
        "SourceType"@,
        |t: Seq<char>| SourceType::from_wire(t),
    );
    let source_id = member_id(j, "sid"@, |n: i64| SourceId::of_code(n));
    let available = member_word(
        j,
        "available"@,
        "SourceAvailable"@,
        |t: Seq<char>| SourceAvailable::from_wire(t),
    );
    let service_username = member_opt_text(j, "service_username"@);
    if name is Err {
        Err(name->Err_0)
    } else if image_url is Err {
        Err(image_url->Err_0)
    } else if source_type is Err {
        Err(source_type->Err_0)
    } else if source_id is Err {
        Err(source_id->Err_0)
    } else if available is Err {
        Err(available->Err_0)
    } else if service_username is Err {
        Err(service_username->Err_0)
    } else {
        Ok(
            SourceInfoView {
                name: name->Ok_0,
                image_url: image_url->Ok_0,
                source_type: source_type->Ok_0,
                source_id: source_id->Ok_0,
                available: available->Ok_0,
                service_username: service_username->Ok_0,
            },
        )
    }
}

impl SourceInfo {
    /// Adds the members of the JSON form to an object under construction.
    pub fn put_members(&self, m: &mut Vec<(String, JsonValue)>)
        ensures
            JsonValue::member_views(final(m)@) == JsonValue::member_views(old(m)@)
                + source_info_members(self@),
    {
        JsonValue::put_text(m, "name", self.name.as_str());
        JsonValue::put_text(m, "image_url", self.image_url.as_str());
        JsonValue::put_text(m, "type", self.source_type.as_str());
        JsonValue::put_int(m, "sid", self.source_id.to_code());
        JsonValue::put_text(m, "available", self.available.as_str());
        match &self.service_username {
            Some(t) => JsonValue::put_text(m, "service_username", t.as_str()),
            None => {},
        }
        assert(JsonValue::member_views(m@) =~= JsonValue::member_views(old(m)@)
            + source_info_members(self@));
    }

    /// Writes the value as JSON.
    pub fn to_json(&self) -> (j: JsonValue)
        ensures
            j@ == source_info_json(self@),
    {
        let mut m: Vec<(String, JsonValue)> = Vec::new();
        self.put_members(&mut m);
        assert(JsonValue::member_views(m@) =~= source_info_members(self@));
        JsonValue::object(m)
    }

    /// Reads the value from JSON.
    pub fn from_json(j: &JsonValue) -> (r: Result<Self, CommandError>)
        ensures
            told_view(r, source_info_of_json(j@)),
    {
        let name = j.member_text("name")?;
        let image_url = url_member(j, "image_url")?;
        let source_type = match SourceType::parse(j.member_text("type")?.as_str()) {
            Some(v) => v,
            None => return Err(CommandError::response_incorrect_data_type("SourceType", "type")),
        };
        let source_id = SourceId::from(j.member_i64("sid")?);
        let available = match SourceAvailable::parse(j.member_text("available")?.as_str()) {
            Some(v) => v,
            None => return Err(
                CommandError::response_incorrect_data_type("SourceAvailable", "available"),
            ),
        };
        let service_username = j.member_opt_text("service_username")?;
        Ok(SourceInfo { name, image_url, source_type, source_id, available, service_username })
    }
}

/// The JSON form of a list of source descriptions.
pub open spec fn source_info_list_json(items: Seq<SourceInfoView>) -> JsonView {
    JsonView::Array(items.map_values(|v: SourceInfoView| source_info_json(v)))
}

/// What a JSON value tells of a list of source descriptions.
pub open spec fn source_info_list_of_json(
    j: JsonView,
) -> Result<Seq<SourceInfoView>, CommandErrorView> {
    match items_of(j, "payload"@) {
        Err(e) => Err(e),
        Ok(items) => decode_each(items, |item: JsonView| source_info_of_json(item)),
    }
}

/// Writes a list of source descriptions as JSON.
pub fn source_info_list_to_json(items: &Vec<SourceInfo>) -> (j: JsonValue)
    ensures
        j@ == source_info_list_json(views(items@)),
{
    let mut out: Vec<JsonValue> = Vec::new();
    let mut i: usize = 0;
    while i < items.len()
        invariant
            i <= items.len(),
            JsonValue::item_views(out@) == views(items@.take(i as int)).map_values(
                |v: SourceInfoView| source_info_json(v),
            ),
        decreases items.len() - i,
    {
        let ghost before = JsonValue::item_views(out@);
        JsonValue::add(&mut out, items[i].to_json());
        proof {
            lemma_views_take_next(items@, i as int);
            assert(views(items@.take(i + 1)).map_values(
                |v: SourceInfoView| source_info_json(v),
            ) =~= before.push(
                source_info_json(items@[i as int]@),
            ));
        }
        i += 1;
    }
    assert(items@.take(i as int) =~= items@);
    JsonValue::array(out)
}

/// Reads a list of source descriptions from JSON.
pub fn source_info_list_from_json(j: &JsonValue) -> (r: Result<Vec<SourceInfo>, CommandError>)
    ensures
        match r {
            Ok(items) => source_info_list_of_json(j@) == Ok::<
                Seq<SourceInfoView>,
                CommandErrorView,
            >(views(items@)),
            Err(e) => source_info_list_of_json(j@) == Err::<Seq<SourceInfoView>, CommandErrorView>(
                e@,
            ),
        },
{
    let values = j.items("payload")?;
    let ghost all = JsonValue::item_views(values@);
    let mut out: Vec<SourceInfo> = Vec::new();
    let mut i: usize = 0;
    assert(all.take(0) =~= Seq::empty());
    assert(views(out@) =~= Seq::<SourceInfoView>::empty());
    while i < values.len()
        invariant
            i <= values.len(),
            all == JsonValue::item_views(values@),
            items_of(j@, "payload"@) == Ok::<Seq<JsonView>, CommandErrorView>(all),
            decode_each(all.take(i as int), |item: JsonView| source_info_of_json(item)) == Ok::<
                Seq<SourceInfoView>,
                CommandErrorView,
            >(views(out@)),
        decreases values.len() - i,
    {
        proof {
            assert(all.take(i + 1).drop_last() =~= all.take(i as int));
            assert(all.take(i + 1).last() == values@[i as int]@);
        }
        match SourceInfo::from_json(&values[i]) {
            Ok(item) => {
                proof {
                    lemma_views_push(out@, item);
                }
                out.push(item);
            },
            Err(e) => {
                proof {
                    lemma_decode_each_prefix(
                        all,
                        |item: JsonView| source_info_of_json(item),
                        i + 1,
                    );
                }
                return Err(e);
            },
        }
        i += 1;
    }
    assert(all.take(i as int) =~= all);
    Ok(out)
}

/// The JSON form of a way to search.
pub open spec fn search_criteria_json(v: SearchCriteriaView) -> JsonView {
    JsonView::Object(search_criteria_members(v))
}

/// The members of the JSON form of a way to search.
pub open spec fn search_criteria_members(v: SearchCriteriaView) -> Seq<(Seq<char>, JsonView)> {
    let m = Seq::empty();
    let m = m.push(("name"@, JsonView::Text(v.name)));
    let m = m.push(("scid"@, int_json(v.criteria.code())));
    let m = m.push(("wildcard"@, JsonView::Text(yes_no_text(v.wildcard))));
    let m = m.push(("playable"@, JsonView::Text(yes_no_text(v.playable))));
    m.push(("cid"@, opt_text_json(v.search_prefix)))
}

/// What a JSON value tells of a way to search: each member is read in turn, and the
/// first that is missing or of the wrong kind decides the error.
pub open spec fn search_criteria_of_json(
    j: JsonView,
) -> Result<SearchCriteriaView, CommandErrorView> {
    let name = member_text(j, "name"@);
    let criteria = member_id(j, "scid"@, |n: i64| CriteriaId::of_code(n));
    let wildcard = member_yes_no(j, "wildcard"@);
    let playable = member_yes_no(j, "playable"@);
    let search_prefix = member_opt_text(j, "cid"@);
    if name is Err {
        Err(name->Err_0)
    } else if criteria is Err {
        Err(criteria->Err_0)
    } else if wildcard is Err {
        Err(wildcard->Err_0)
    } else if playable is Err {
        Err(playable->Err_0)
    } else if search_prefix is Err {
        Err(search_prefix->Err_0)
    } else {
        Ok(
            SearchCriteriaView {
                name: name->Ok_0,
                criteria: criteria->Ok_0,
                wildcard: wildcard->Ok_0,
                playable: playable->Ok_0,
                search_prefix: search_prefix->Ok_0,
            },
        )
    }
}

impl SearchCriteria {
    /// Adds the members of the JSON form to an object under construction.
    pub fn put_members(&self, m: &mut Vec<(String, JsonValue)>)
        ensures
            JsonValue::member_views(final(m)@) == JsonValue::member_views(old(m)@)
                + search_criteria_members(self@),
    {
        JsonValue::put_text(m, "name", self.name.as_str());
        JsonValue::put_int(m, "scid", self.criteria.to_code());
        JsonValue::put_text(m, "wildcard", yes_no_str(self.wildcard));
        JsonValue::put_text(m, "playable", yes_no_str(self.playable));
        JsonValue::put_opt_text(m, "cid", &self.search_prefix);
        assert(JsonValue::member_views(m@) =~= JsonValue::member_views(old(m)@)
            + search_criteria_members(self@));
    }

    /// Writes the value as JSON.
    pub fn to_json(&self) -> (j: JsonValue)
        ensures
            j@ == search_criteria_json(self@),
    {
        let mut m: Vec<(String, JsonValue)> = Vec::new();
        self.put_members(&mut m);
        assert(JsonValue::member_views(m@) =~= search_criteria_members(self@));
        JsonValue::object(m)
    }

    /// Reads the value from JSON.
    pub fn from_json(j: &JsonValue) -> (r: Result<Self, CommandError>)
        ensures
            told_view(r, search_criteria_of_json(j@)),
    {
        let name = j.member_text("name")?;
        let criteria = CriteriaId::from(j.member_i64("scid")?);
        let wildcard = yes_no_member(j, "wildcard")?;
        let playable = yes_no_member(j, "playable")?;
        let search_prefix = j.member_opt_text("cid")?;
        Ok(SearchCriteria { name, criteria, wildcard, playable, search_prefix })
    }
}

/// The JSON form of a list of ways to search.
pub open spec fn search_criteria_list_json(items: Seq<SearchCriteriaView>) -> JsonView {
    JsonView::Array(items.map_values(|v: SearchCriteriaView| search_criteria_json(v)))
}

/// What a JSON value tells of a list of ways to search.
pub open spec fn search_criteria_list_of_json(
    j: JsonView,
) -> Result<Seq<SearchCriteriaView>, CommandErrorView> {
    match items_of(j, "payload"@) {
        Err(e) => Err(e),
        Ok(items) => decode_each(items, |item: JsonView| search_criteria_of_json(item)),
    }
}

/// Writes a list of ways to search as JSON.
pub fn search_criteria_list_to_json(items: &Vec<SearchCriteria>) -> (j: JsonValue)
    ensures
        j@ == search_criteria_list_json(views(items@)),
{
    let mut out: Vec<JsonValue> = Vec::new();
    let mut i: usize = 0;
    while i < items.len()
        invariant
            i <= items.len(),
            JsonValue::item_views(out@) == views(items@.take(i as int)).map_values(
                |v: SearchCriteriaView| search_criteria_json(v),
            ),
        decreases items.len() - i,
    {
        let ghost before = JsonValue::item_views(out@);
        JsonValue::add(&mut out, items[i].to_json());
        proof {
            lemma_views_take_next(items@, i as int);
            assert(views(items@.take(i + 1)).map_values(
                |v: SearchCriteriaView| search_criteria_json(v),
            ) =~= before.push(
                search_criteria_json(items@[i as int]@),
            ));
        }
        i += 1;
    }
    assert(items@.take(i as int) =~= items@);
    JsonValue::array(out)
}

/// Reads a list of ways to search from JSON.
pub fn search_criteria_list_from_json(
    j: &JsonValue,
) -> (r: Result<Vec<SearchCriteria>, CommandError>)
    ensures
        match r {
            Ok(items) => search_criteria_list_of_json(j@) == Ok::<
                Seq<SearchCriteriaView>,
                CommandErrorView,
            >(views(items@)),
            Err(e) => search_criteria_list_of_json(j@) == Err::<
                Seq<SearchCriteriaView>,
                CommandErrorView,
            >(e@),
        },
{
    let values = j.items("payload")?;
    let ghost all = JsonValue::item_views(values@);
    let mut out: Vec<SearchCriteria> = Vec::new();
    let mut i: usize = 0;
    assert(all.take(0) =~= Seq::empty());
    assert(views(out@) =~= Seq::<SearchCriteriaView>::empty());
    while i < values.len()
        invariant
            i <= values.len(),
            all == JsonValue::item_views(values@),
            items_of(j@, "payload"@) == Ok::<Seq<JsonView>, CommandErrorView>(all),
            decode_each(all.take(i as int), |item: JsonView| search_criteria_of_json(item)) == Ok::<
                Seq<SearchCriteriaView>,
                CommandErrorView,
            >(views(out@)),
        decreases values.len() - i,
    {
        proof {
            assert(all.take(i + 1).drop_last() =~= all.take(i as int));
            assert(all.take(i + 1).last() == values@[i as int]@);
        }
        match SearchCriteria::from_json(&values[i]) {
            Ok(item) => {
                proof {
                    lemma_views_push(out@, item);
                }
                out.push(item);
            },
            Err(e) => {
                proof {
                    lemma_decode_each_prefix(
                        all,
                        |item: JsonView| search_criteria_of_json(item),
                        i + 1,
                    );
                }
                return Err(e);
            },
        }
        i += 1;
    }
    assert(all.take(i as int) =~= all);
    Ok(out)
}

/// The JSON form of a group's description.
pub open spec fn group_info_json(v: GroupInfoView) -> JsonView {
    JsonView::Object(
        seq![
            ("name"@, JsonView::Text(v.name)),
            ("gid"@, int_json(v.group_id.0)),
            ("players"@, group_player_list_json(v.players)),
        ],
    )
}

/// What a JSON value tells of a group's description.
pub open spec fn group_info_of_json(j: JsonView) -> Result<GroupInfoView, CommandErrorView> {
    match member_text(j, "name"@) {
        Err(e) => Err(e),
        Ok(name) => match member_id(j, "gid"@, |n: i64| GroupId(n)) {
            Err(e) => Err(e),
            Ok(group_id) => match member(j, "players"@) {
                Err(e) => Err(e),
                Ok(list) => match group_player_list_of_json(list) {
                    Err(e) => Err(e),
                    Ok(players) => Ok(GroupInfoView { name, group_id, players }),
                },
            },
        },
    }
}

impl GroupInfo {
    /// Writes the value as JSON.
    pub fn to_json(&self) -> (j: JsonValue)
        ensures
            j@ == group_info_json(self@),
    {
        let mut m: Vec<(String, JsonValue)> = Vec::new();
        JsonValue::put_text(&mut m, "name", self.name.as_str());
        JsonValue::put_int(&mut m, "gid", self.group_id.0);
        JsonValue::put(&mut m, "players", group_player_list_to_json(&self.players));
        assert(JsonValue::member_views(m@) =~= seq![
            ("name"@, JsonView::Text(self@.name)),
            ("gid"@, int_json(self@.group_id.0)),
            ("players"@, group_player_list_json(self@.players)),
        ]);
        JsonValue::object(m)
    }

    /// Reads the value from JSON.
    pub fn from_json(j: &JsonValue) -> (r: Result<Self, CommandError>)
        ensures
            told_view(r, group_info_of_json(j@)),
    {
        let name = j.member_text("name")?;
        let group_id = GroupId(j.member_i64("gid")?);
        let list = j.member("players")?;
        let players = group_player_list_from_json(list)?;
        Ok(GroupInfo { name, group_id, players })
    }
}

/// The JSON form of a list of group descriptions.
pub open spec fn group_info_list_json(items: Seq<GroupInfoView>) -> JsonView {
    JsonView::Array(items.map_values(|v: GroupInfoView| group_info_json(v)))
}

/// What a JSON value tells of a list of group descriptions.
pub open spec fn group_info_list_of_json(
    j: JsonView,
) -> Result<Seq<GroupInfoView>, CommandErrorView> {
    match items_of(j, "payload"@) {
        Err(e) => Err(e),
        Ok(items) => decode_each(items, |item: JsonView| group_info_of_json(item)),
    }
}

/// Writes a list of group descriptions as JSON.
pub fn group_info_list_to_json(items: &Vec<GroupInfo>) -> (j: JsonValue)
    ensures
        j@ == group_info_list_json(views(items@)),
{
    let mut out: Vec<JsonValue> = Vec::new();
    let mut i: usize = 0;
    while i < items.len()
        invariant
            i <= items.len(),
            JsonValue::item_views(out@) == views(items@.take(i as int)).map_values(
                |v: GroupInfoView| group_info_json(v),
            ),
        decreases items.len() - i,
    {
        let ghost before = JsonValue::item_views(out@);
        JsonValue::add(&mut out, items[i].to_json());
        proof {
            lemma_views_take_next(items@, i as int);
            assert(views(items@.take(i + 1)).map_values(
                |v: GroupInfoView| group_info_json(v),
            ) =~= before.push(
                group_info_json(items@[i as int]@),
            ));
        }
        i += 1;
    }
    assert(items@.take(i as int) =~= items@);
    JsonValue::array(out)
}

/// Reads a list of group descriptions from JSON.
pub fn group_info_list_from_json(j: &JsonValue) -> (r: Result<Vec<GroupInfo>, CommandError>)
    ensures
        match r {
            Ok(items) => group_info_list_of_json(j@) == Ok::<Seq<GroupInfoView>, CommandErrorView>(
                views(items@),
            ),
            Err(e) => group_info_list_of_json(j@) == Err::<Seq<GroupInfoView>, CommandErrorView>(
                e@,
            ),
        },
{
    let values = j.items("payload")?;
    let ghost all = JsonValue::item_views(values@);
    let mut out: Vec<GroupInfo> = Vec::new();
    let mut i: usize = 0;
    assert(all.take(0) =~= Seq::empty());
    assert(views(out@) =~= Seq::<GroupInfoView>::empty());
    while i < values.len()
        invariant
            i <= values.len(),
            all == JsonValue::item_views(values@),
            items_of(j@, "payload"@) == Ok::<Seq<JsonView>, CommandErrorView>(all),
            decode_each(all.take(i as int), |item: JsonView| group_info_of_json(item)) == Ok::<
                Seq<GroupInfoView>,
                CommandErrorView,
            >(views(out@)),
        decreases values.len() - i,
    {
        proof {
            assert(all.take(i + 1).drop_last() =~= all.take(i as int));
            assert(all.take(i + 1).last() == values@[i as int]@);
        }
        match GroupInfo::from_json(&values[i]) {
            Ok(item) => {
                proof {
                    lemma_views_push(out@, item);
                }
                out.push(item);
            },
            Err(e) => {
                proof {
                    lemma_decode_each_prefix(
                        all,
                        |item: JsonView| group_info_of_json(item),
                        i + 1,
                    );
                }
                return Err(e);
            },
        }
        i += 1;
    }
    assert(all.take(i as int) =~= all);
    Ok(out)
}

/// The JSON form of what a player plays: the kind under `type`, the track,
/// for a station its name, and the source.
pub open spec fn now_playing_info_json(v: NowPlayingInfoView) -> JsonView {
    match v {
        NowPlayingInfoView::Song { info, source_id } => JsonView::Object(
            seq![("type"@, JsonView::Text("song"@))] + queued_track_info_members(info) + seq![
                ("sid"@, int_json(source_id.code())),
            ],
        ),
        NowPlayingInfoView::Station { info, station, source_id } => JsonView::Object(
            seq![("type"@, JsonView::Text("station"@))] + queued_track_info_members(info) + seq![
                ("station"@, JsonView::Text(station)),
                ("sid"@, int_json(source_id.code())),
            ],
        ),
    }
}

/// What a JSON value tells of what a player plays.
pub open spec fn now_playing_info_of_json(j: JsonView) -> Result<
    NowPlayingInfoView,
    CommandErrorView,
> {
    match member_text(j, "type"@) {
        Err(e) => Err(e),
        Ok(kind) => if kind == "song"@ {
            match queued_track_info_of_json(j) {
                Err(e) => Err(e),
                Ok(info) => match member_id(j, "sid"@, |n: i64| SourceId::of_code(n)) {
                    Err(e) => Err(e),
                    Ok(source_id) => Ok(NowPlayingInfoView::Song { info, source_id }),
                },
            }
        } else if kind == "station"@ {
            match queued_track_info_of_json(j) {
                Err(e) => Err(e),
                Ok(info) => match member_text(j, "station"@) {
                    Err(e) => Err(e),
                    Ok(station) => match member_id(j, "sid"@, |n: i64| SourceId::of_code(n)) {
                        Err(e) => Err(e),
                        Ok(source_id) => Ok(
                            NowPlayingInfoView::Station { info, station, source_id },
                        ),
                    },
                },
            }
        } else {
            Err(incorrect_data_type("NowPlayingInfo"@, "type"@))
        },
    }
}

impl NowPlayingInfo {
    /// Writes the value as JSON.
    pub fn to_json(&self) -> (j: JsonValue)
        ensures
            j@ == now_playing_info_json(self@),
    {
        let mut m: Vec<(String, JsonValue)> = Vec::new();
        match self {
            NowPlayingInfo::Song { info, source_id } => {
                JsonValue::put_text(&mut m, "type", "song");
                info.put_members(&mut m);
                JsonValue::put_int(&mut m, "sid", source_id.to_code());
                assert(JsonValue::member_views(m@) =~= seq![("type"@, JsonView::Text("song"@))]
                    + queued_track_info_members(info@) + seq![
                    ("sid"@, int_json(source_id.code())),
                ]);
            },
            NowPlayingInfo::Station { info, station, source_id } => {
                JsonValue::put_text(&mut m, "type", "station");
                info.put_members(&mut m);
                JsonValue::put_text(&mut m, "station", station.as_str());
                JsonValue::put_int(&mut m, "sid", source_id.to_code());
                assert(JsonValue::member_views(m@) =~= seq![("type"@, JsonView::Text("station"@))]
                    + queued_track_info_members(info@) + seq![
                    ("station"@, JsonView::Text(station@)),
                    ("sid"@, int_json(source_id.code())),
                ]);
            },
        }
        JsonValue::object(m)
    }

    /// Reads the value from JSON.
    pub fn from_json(j: &JsonValue) -> (r: Result<Self, CommandError>)
        ensures
            told_view(r, now_playing_info_of_json(j@)),
    {
        let kind = j.member_text("type")?;
        if kind.as_str().eq("song") {
            let info = QueuedTrackInfo::from_json(j)?;
            let source_id = SourceId::from(j.member_i64("sid")?);
            Ok(NowPlayingInfo::Song { info, source_id })
        } else if kind.as_str().eq("station") {
            let info = QueuedTrackInfo::from_json(j)?;
            let station = j.member_text("station")?;
            let source_id = SourceId::from(j.member_i64("sid")?);
            Ok(NowPlayingInfo::Station { info, station, source_id })
        } else {
            Err(CommandError::response_incorrect_data_type("NowPlayingInfo", "type"))
        }
    }
}

/// The JSON form of the answer to a question for updates.
pub open spec fn update_payload_json(v: UpdatePayload) -> JsonView {
    JsonView::Object(seq![("update"@, JsonView::Text(v.update.wire()))])
}

/// What a JSON value tells of the answer to a question for updates.
pub open spec fn update_payload_of_json(j: JsonView) -> Result<UpdatePayload, CommandErrorView> {
    match member_word(
        j,
        "update"@,
        "UpdateAvailable"@,
        |t: Seq<char>| UpdateAvailable::from_wire(t),
    ) {
        Err(e) => Err(e),
        Ok(update) => Ok(UpdatePayload { update }),
    }
}

impl UpdatePayload {
    /// Writes the value as JSON.
    pub fn to_json(&self) -> (j: JsonValue)
        ensures
            j@ == update_payload_json(*self),
    {
        let mut m: Vec<(String, JsonValue)> = Vec::new();
        JsonValue::put_text(&mut m, "update", self.update.as_str());
        assert(JsonValue::member_views(m@) =~= seq![
            ("update"@, JsonView::Text(self.update.wire())),
        ]);
        JsonValue::object(m)
    }

    /// Reads the value from JSON.
    pub fn from_json(j: &JsonValue) -> (r: Result<Self, CommandError>)
        ensures
            told(r, update_payload_of_json(j@)),
    {
        let update = match UpdateAvailable::parse(j.member_text("update")?.as_str()) {
            Some(v) => v,
            None => return Err(
                CommandError::response_incorrect_data_type("UpdateAvailable", "update"),
            ),
        };
        Ok(UpdatePayload { update })
    }
}

} // verus!
