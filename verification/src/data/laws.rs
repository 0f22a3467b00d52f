//! What holds of the JSON forms of data: what is written can be read back.

use vstd::prelude::*;
use crate::command::error::CommandErrorView;
use crate::data::codec::{
    decode_each,
    group_info_json,
    group_info_of_json,
    group_player_json,
    group_player_list_json,
    group_player_list_of_json,
    group_player_members,
    group_player_of_json,
    player_info_json,
    player_info_members,
    player_info_of_json,
    quick_select_json,
    quick_select_members,
    quick_select_of_json,
    search_criteria_json,
    search_criteria_members,
    search_criteria_of_json,
    update_payload_json,
    update_payload_of_json,
};
use crate::data::group::{GroupInfoView, GroupPlayerView};
use crate::data::player::{PlayerInfoView, UpdatePayload};
use crate::data::quickselect::{QuickSelectId, QuickSelectView};
use crate::data::source::{CriteriaId, SearchCriteriaView};
use crate::json::{lemma_get_member, JsonView};

verus! {

/// A player of a group can be read back from its JSON form.
pub proof fn lemma_group_player_json_round_trip(v: GroupPlayerView)
    ensures
        group_player_of_json(group_player_json(v)) == Ok::<GroupPlayerView, CommandErrorView>(v),
{
    reveal_strlit("name");
    reveal_strlit("pid");
    reveal_strlit("role");
    assert("name"@[0] != "role"@[0]);
    let m = group_player_members(v);
    lemma_get_member(m, 0);
    lemma_get_member(m, 1);
    lemma_get_member(m, 2);
    v.role.lemma_wire_round_trip();
}

/// The answer to a question for updates can be read back from its JSON
/// form.
pub proof fn lemma_update_payload_json_round_trip(v: UpdatePayload)
    ensures
        update_payload_of_json(update_payload_json(v)) == Ok::<UpdatePayload, CommandErrorView>(v),
{
    let m = seq![("update"@, JsonView::Text(v.update.wire()))];
    lemma_get_member(m, 0);
    v.update.lemma_wire_round_trip();
}

/// A quick-select slot can be read back from its JSON form.
pub proof fn lemma_quick_select_json_round_trip(v: QuickSelectView)
    requires
        QuickSelectId::valid(v.id),
    ensures
        quick_select_of_json(quick_select_json(v)) == Ok::<QuickSelectView, CommandErrorView>(v),
{
    reveal_strlit("id");
    reveal_strlit("name");
    let m = quick_select_members(v);
    lemma_get_member(m, 0);
    lemma_get_member(m, 1);
}

/// A list can be read back item by item where each of its items can.
pub proof fn lemma_decode_each_round_trip<T>(
    items: Seq<T>,
    write: spec_fn(T) -> JsonView,
    read: spec_fn(JsonView) -> Result<T, CommandErrorView>,
)
    requires
        forall|i: int|
            0 <= i < items.len() ==> read(write(#[trigger] items[i])) == Ok::<
                T,
                CommandErrorView,
            >(items[i]),
    ensures
        decode_each(items.map_values(write), read) == Ok::<Seq<T>, CommandErrorView>(items),
    decreases items.len(),
{
    if items.len() == 0 {
        assert(items =~= Seq::empty());
    } else {
        let front = items.drop_last();
        assert forall|i: int| 0 <= i < front.len() implies read(write(#[trigger] front[i]))
            == Ok::<T, CommandErrorView>(front[i]) by {
            assert(front[i] == items[i]);
        }
        lemma_decode_each_round_trip(front, write, read);
        assert(items.map_values(write).drop_last() =~= front.map_values(write));
        assert(items.map_values(write).last() == write(items.last()));
        assert(read(write(items[items.len() - 1])) == Ok::<T, CommandErrorView>(items.last()));
        assert(front.push(items.last()) =~= items);
    }
}

/// A list of players of a group can be read back from its JSON form.
pub proof fn lemma_group_player_list_json_round_trip(items: Seq<GroupPlayerView>)
    ensures
        group_player_list_of_json(group_player_list_json(items)) == Ok::<
            Seq<GroupPlayerView>,
            CommandErrorView,
        >(items),
{
    assert forall|i: int| 0 <= i < items.len() implies group_player_of_json(
        group_player_json(#[trigger] items[i]),
    ) == Ok::<GroupPlayerView, CommandErrorView>(items[i]) by {
        lemma_group_player_json_round_trip(items[i]);
    }
    lemma_decode_each_round_trip(
        items,
        |v: GroupPlayerView| group_player_json(v),
        |item: JsonView| group_player_of_json(item),
    );
}

/// The description of a group can be read back from its JSON form.
pub proof fn lemma_group_info_json_round_trip(v: GroupInfoView)
    ensures
        group_info_of_json(group_info_json(v)) == Ok::<GroupInfoView, CommandErrorView>(v),
{
    reveal_strlit("name");
    reveal_strlit("gid");
    reveal_strlit("players");
    let m = seq![
        ("name"@, JsonView::Text(v.name)),
        ("gid"@, crate::json::int_json(v.group_id.0)),
        ("players"@, group_player_list_json(v.players)),
    ];
    lemma_get_member(m, 0);
    lemma_get_member(m, 1);
    lemma_get_member(m, 2);
    lemma_group_player_list_json_round_trip(v.players);
}

/// The description of a player can be read back from its JSON form.
pub proof fn lemma_player_info_json_round_trip(v: PlayerInfoView)
    ensures
        player_info_of_json(player_info_json(v)) == Ok::<PlayerInfoView, CommandErrorView>(v),
{
    reveal_strlit("name");
    reveal_strlit("pid");
    reveal_strlit("gid");
    reveal_strlit("model");
    reveal_strlit("version");
    reveal_strlit("ip");
    reveal_strlit("network");
    reveal_strlit("lineout");
    reveal_strlit("control");
    reveal_strlit("serial");
    assert("pid"@[0] != "gid"@[0]);
    assert("version"@[0] != "network"@[0]);
    assert("version"@[0] != "lineout"@[0]);
    assert("version"@[0] != "control"@[0]);
    assert("network"@[0] != "lineout"@[0]);
    assert("network"@[0] != "control"@[0]);
    assert("lineout"@[0] != "control"@[0]);
    let m = player_info_members(v);
    lemma_get_member(m, 0);
    lemma_get_member(m, 1);
    lemma_get_member(m, 2);
    lemma_get_member(m, 3);
    lemma_get_member(m, 4);
    lemma_get_member(m, 5);
    lemma_get_member(m, 6);
    lemma_get_member(m, 7);
    lemma_get_member(m, 8);
    lemma_get_member(m, 9);
    v.network.lemma_wire_round_trip();
}

/// A way to search can be read back from its JSON form, where its
/// criterion is one that reading a number gives.
pub proof fn lemma_search_criteria_json_round_trip(v: SearchCriteriaView)
    requires
        CriteriaId::of_code(v.criteria.code()) == v.criteria,
    ensures
        search_criteria_of_json(search_criteria_json(v)) == Ok::<
            SearchCriteriaView,
            CommandErrorView,
        >(v),
{
    reveal_strlit("name");
    reveal_strlit("scid");
    reveal_strlit("wildcard");
    reveal_strlit("playable");
    reveal_strlit("cid");
    reveal_strlit("yes");
    reveal_strlit("no");
    assert("name"@[0] != "scid"@[0]);
    assert("wildcard"@[0] != "playable"@[0]);
    assert("no"@.len() != "yes"@.len());
    let m = search_criteria_members(v);
    lemma_get_member(m, 0);
    lemma_get_member(m, 1);
    lemma_get_member(m, 2);
    lemma_get_member(m, 3);
    lemma_get_member(m, 4);
}

} // verus!
