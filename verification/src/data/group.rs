//! Data types that describe groups of players.

use vstd::prelude::*;
use vstd::string::*;
use crate::data::player::PlayerId;
use crate::text::{FromText, i64_to_string, int_text, parse_i64, text_i64};
use crate::views::{lemma_views_push, lemma_views_take_next, views};

verus! {

/// Identifier of a group.
#[derive(Clone, Copy, Debug, PartialEq, Eq, Hash, Structural)]
pub struct GroupId(pub i64);

impl GroupId {
    /// The decimal text of the identifier, as it stands on the wire.
    pub fn to_string(&self) -> (s: String)
        ensures
            s@ == int_text(self.0 as int),
    {
        i64_to_string(self.0)
    }

    /// What reading a decimal text gives.
    pub open spec fn from_text(s: Seq<char>) -> Option<Self> {
        match text_i64(s) {
            Some(value) => Some(GroupId(value)),
            None => None,
        }
    }

    /// Reads the decimal text of an identifier.
    pub fn parse(s: &str) -> (r: Option<Self>)
        ensures
            r == Self::from_text(s@),
    {
        match parse_i64(s) {
            Some(value) => Some(GroupId(value)),
            None => None,
        }
    }
}

impl FromText for GroupId {
    open spec fn read(s: Seq<char>) -> Option<Self> {
        Self::from_text(s)
    }

    fn parse_text(s: &str) -> (r: Option<Self>) {
        Self::parse(s)
    }
}

/// What a player is in its group.
#[derive(Clone, Copy, Debug, PartialEq, Eq, Hash, Structural)]
pub enum GroupRole {
    /// The player that carries the playback state of the group.
    Leader,
    /// Any other player of the group.
    Member,
}

impl GroupRole {
    /// The word that stands for this value on the wire.
    pub open spec fn wire(self) -> Seq<char> {
        match self {
            GroupRole::Leader => "leader"@,
            GroupRole::Member => "member"@,
        }
    }

    /// The value that a word stands for, `None` for an unknown word.
    pub open spec fn from_wire(s: Seq<char>) -> Option<Self> {
        if s == "leader"@ {
            Some(GroupRole::Leader)
        } else if s == "member"@ {
            Some(GroupRole::Member)
        } else {
            None
        }
    }

    /// The word that stands for this value on the wire.
    pub fn as_str(&self) -> (s: &'static str)
        ensures
            s@ == self.wire(),
    {
        match self {
            GroupRole::Leader => "leader",
            GroupRole::Member => "member",
        }
    }

    /// The wire word as an owned string.
    pub fn to_string(&self) -> (s: String)
        ensures
            s@ == self.wire(),
    {
        String::from_str(self.as_str())
    }

    /// Reads a wire word. Matching is exact: case counts.
    pub fn parse(s: &str) -> (r: Option<Self>)
        ensures
            r == Self::from_wire(s@),
    {
        if s.eq("leader") {
            Some(GroupRole::Leader)
        } else if s.eq("member") {
            Some(GroupRole::Member)
        } else {
            None
        }
    }

    /// Reading the word of a value gives that value back.
    pub proof fn lemma_wire_round_trip(self)
        ensures
            Self::from_wire(self.wire()) == Some(self),
    {
        reveal_strlit("leader");
        reveal_strlit("member");
        match self {
            GroupRole::Leader => {},
            GroupRole::Member => {
                assert("member"@[0] != "leader"@[0]);
            },
        }
    }
}

impl FromText for GroupRole {
    open spec fn read(s: Seq<char>) -> Option<Self> {
        Self::from_wire(s)
    }

    fn parse_text(s: &str) -> (r: Option<Self>) {
        Self::parse(s)
    }
}

/// One player of a group.
#[derive(Debug)]
pub struct GroupPlayer {
    /// Name of the player.
    pub name: String,
    /// Identifier of the player.
    pub player_id: PlayerId,
    /// What the player is in the group.
    pub role: GroupRole,
}

/// A `GroupPlayer` as plain values.
pub ghost struct GroupPlayerView {
    pub name: Seq<char>,
    pub player_id: PlayerId,
    pub role: GroupRole,
}

impl View for GroupPlayer {
    type V = GroupPlayerView;

    open spec fn view(&self) -> GroupPlayerView {
        GroupPlayerView { name: self.name@, player_id: self.player_id, role: self.role }
    }
}

impl Clone for GroupPlayer {
    fn clone(&self) -> (r: Self)
        ensures
            r@ == self@,
    {
        GroupPlayer { name: self.name.clone(), player_id: self.player_id, role: self.role }
    }
}

/// A copy of a list of group players.
pub fn clone_group_players(players: &Vec<GroupPlayer>) -> (r: Vec<GroupPlayer>)
    ensures
        views(r@) == views(players@),
{
    let mut r: Vec<GroupPlayer> = Vec::new();
    let mut i: usize = 0;
    while i < players.len()
        invariant
            i <= players.len(),
            views(r@) == views(players@.take(i as int)),
        decreases players.len() - i,
    {
        let copy = players[i].clone();
        proof {
            lemma_views_push(r@, copy);
            lemma_views_take_next(players@, i as int);
        }
        r.push(copy);
        i += 1;
    }
    assert(players@.take(i as int) =~= players@);
    r
}

/// What a system tells about one group.
#[derive(Debug)]
pub struct GroupInfo {
    /// Name of the group.
    pub name: String,
    /// Identifier of the group.
    pub group_id: GroupId,
    /// The players of the group.
    pub players: Vec<GroupPlayer>,
}

/// A `GroupInfo` as plain values.
pub ghost struct GroupInfoView {
    pub name: Seq<char>,
    pub group_id: GroupId,
    pub players: Seq<GroupPlayerView>,
}

impl View for GroupInfo {
    type V = GroupInfoView;

    open spec fn view(&self) -> GroupInfoView {
        GroupInfoView {
            name: self.name@,
            group_id: self.group_id,
            players: views(self.players@),
        }
    }
}

impl Clone for GroupInfo {
    fn clone(&self) -> (r: Self)
        ensures
            r@ == self@,
    {
        GroupInfo {
            name: self.name.clone(),
            group_id: self.group_id,
            players: clone_group_players(&self.players),
        }
    }
}

/// How many players of a group are its leader.
pub open spec fn leader_count(players: Seq<GroupPlayerView>) -> nat
    decreases players.len(),
{
    if players.len() == 0 {
        0
    } else {
        leader_count(players.drop_last()) + if players.last().role == GroupRole::Leader {
            1nat
        } else {
            0nat
        }
    }
}

/// The last player marked as leader, if there is one.
pub open spec fn last_leader(players: Seq<GroupPlayerView>) -> Option<PlayerId>
    decreases players.len(),
{
    if players.len() == 0 {
        None
    } else if players.last().role == GroupRole::Leader {
        Some(players.last().player_id)
    } else {
        last_leader(players.drop_last())
    }
}

impl GroupInfo {
    /// The leader of the group: the last player whose role says so. `None`
    /// for a group without a leader.
    pub fn leader_id(&self) -> (r: Option<PlayerId>)
        ensures
            r == last_leader(self@.players),
            r is Some <==> leader_count(self@.players) > 0,
    {
        let mut found: Option<PlayerId> = None;
        let mut i: usize = 0;
        while i < self.players.len()
            invariant
                i <= self.players.len(),
                found == last_leader(views(self.players@.take(i as int))),
                found is Some <==> leader_count(views(self.players@.take(i as int)))
                    > 0,
            decreases self.players.len() - i,
        {
            let ghost before = views(self.players@.take(i as int));
            if self.players[i].role == GroupRole::Leader {
                found = Some(self.players[i].player_id);
            }
            i += 1;
            proof {
                let after = views(self.players@.take(i as int));
                lemma_views_take_next(self.players@, i - 1);
                assert(after.drop_last() =~= before);
            }
        }
        assert(self.players@.take(i as int) =~= self.players@);
        found
    }
}

} // verus!
