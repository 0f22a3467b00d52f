//! The state of one group.

use vstd::prelude::*;
use vstd::string::*;
use crate::data::common::{MuteState, Volume};
use crate::data::group::{last_leader, leader_count, GroupInfo, GroupInfoView};
use crate::data::player::PlayerId;

verus! {

/// Everything that is known of a group at one moment.
#[derive(Debug)]
pub struct GroupSnapshot {
    /// Name, identifier and players of the group.
    pub info: GroupInfo,
    /// The player that leads the group.
    pub leader_id: PlayerId,
    /// The volume of the group.
    pub volume: Volume,
    /// Whether the group is muted.
    pub mute: MuteState,
}

/// A `GroupSnapshot` as plain values.
pub ghost struct GroupSnapshotView {
    pub info: GroupInfoView,
    pub leader_id: PlayerId,
    pub volume: int,
    pub mute: MuteState,
}

impl View for GroupSnapshot {
    type V = GroupSnapshotView;

    open spec fn view(&self) -> GroupSnapshotView {
        GroupSnapshotView {
            info: self.info@,
            leader_id: self.leader_id,
            volume: self.volume@,
            mute: self.mute,
        }
    }
}

impl Clone for GroupSnapshot {
    fn clone(&self) -> (r: Self)
        ensures
            r@ == self@,
    {
        GroupSnapshot {
            info: self.info.clone(),
            leader_id: self.leader_id,
            volume: self.volume,
            mute: self.mute,
        }
    }
}

impl GroupSnapshot {
    /// The state of a group as a system reports it when asked. `None` for
    /// a group without a leader.
    pub fn assemble(info: GroupInfo, volume: Volume, mute: MuteState) -> (r: Option<Self>)
        ensures
            match r {
                Some(g) => g.info == info && last_leader(info@.players) == Some(g.leader_id)
                    && g.volume == volume && g.mute == mute,
                None => leader_count(info@.players) == 0,
            },
    {
        match info.leader_id() {
            Some(leader_id) => Some(GroupSnapshot { info, leader_id, volume, mute }),
            None => None,
        }
    }
}

} // verus!
