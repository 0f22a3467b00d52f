//! Keeping a piece of data fresh: refreshing it on the events that concern
//! it, one refresh at a time.

use vstd::prelude::*;

verus! {

/// The books of one piece of data that is refreshed on events.
///
/// While a refresh is in flight no other is launched: an event that asks
/// for one is remembered, and the refresh is launched when the one in
/// flight has come back. However many events ask in the meantime, one
/// refresh is remembered.
#[derive(Clone, Copy, Debug, PartialEq, Eq, Structural)]
pub struct UpdateEntry {
    /// Whether the data is still wanted. Once its owner has dropped it, the
    /// entry does nothing more.
    pub active: bool,
    /// Whether a refresh is in flight.
    pub pending: bool,
    /// Whether a refresh is to be launched when the one in flight is back.
    pub queued: bool,
}

impl UpdateEntry {
    /// The books after an event. `matches` says whether the event concerns
    /// the data.
    pub open spec fn after_event(self, matches: bool) -> (UpdateEntry, bool) {
        if matches && self.active {
            if self.pending {
                (UpdateEntry { queued: true, ..self }, false)
            } else {
                (UpdateEntry { queued: false, pending: true, ..self }, true)
            }
        } else {
            (self, false)
        }
    }

    /// The books after a look at what is remembered.
    pub open spec fn after_check(self) -> (UpdateEntry, bool) {
        if self.queued {
            if !self.active {
                (UpdateEntry { queued: false, ..self }, false)
            } else if !self.pending {
                (UpdateEntry { queued: false, pending: true, ..self }, true)
            } else {
                (self, false)
            }
        } else {
            (self, false)
        }
    }

    /// The books of data that has just been registered.
    pub fn new() -> (r: Self)
        ensures
            r == (UpdateEntry { active: true, pending: false, queued: false }),
    {
        UpdateEntry { active: true, pending: false, queued: false }
    }

    /// Whether the data is still wanted.
    pub fn is_active(&self) -> (r: bool)
        ensures
            r == self.active,
    {
        self.active
    }

    /// Notes that the owner of the data has dropped it.
    pub fn release(&mut self)
        ensures
            *final(self) == (UpdateEntry { active: false, ..*old(self) }),
    {
        self.active = false;
    }

    /// Takes an event, and says whether to launch a refresh now.
    pub fn check_update(&mut self, matches: bool) -> (launch: bool)
        ensures
            (*final(self), launch) == old(self).after_event(matches),
    {
        if matches && self.active {
            if self.pending {
                self.queued = true;
                false
            } else {
                self.queued = false;
                self.pending = true;
                true
            }
        } else {
            false
        }
    }

    /// Looks at what is remembered, and says whether to launch a refresh
    /// now.
    pub fn check_queued(&mut self) -> (launch: bool)
        ensures
            (*final(self), launch) == old(self).after_check(),
    {
        if self.queued {
            if !self.active {
                self.queued = false;
                false
            } else if !self.pending {
                self.queued = false;
                self.pending = true;
                true
            } else {
                false
            }
        } else {
            false
        }
    }

    /// Notes that the refresh in flight has come back and its result has
    /// replaced the data.
    pub fn complete(&mut self)
        ensures
            *final(self) == (UpdateEntry { pending: false, ..*old(self) }),
    {
        self.pending = false;
    }
}

/// What happens to an entry.
pub ghost enum Happening {
    /// An event; the flag says whether it concerns the data.
    Event(bool),
    /// A look at what is remembered.
    Check,
    /// The refresh in flight has come back.
    Complete,
}

/// The books after a run of happenings.
pub open spec fn run(entry: UpdateEntry, happenings: Seq<Happening>) -> UpdateEntry
    decreases happenings.len(),
{
    if happenings.len() == 0 {
        entry
    } else {
        let before = run(entry, happenings.drop_last());
        match happenings.last() {
            Happening::Event(matches) => before.after_event(matches).0,
            Happening::Check => before.after_check().0,
            Happening::Complete => UpdateEntry { pending: false, ..before },
        }
    }
}

/// How many refreshes a run of happenings launches.
pub open spec fn launches(entry: UpdateEntry, happenings: Seq<Happening>) -> nat
    decreases happenings.len(),
{
    if happenings.len() == 0 {
        0
    } else {
        let before = run(entry, happenings.drop_last());
        launches(entry, happenings.drop_last()) + match happenings.last() {
            Happening::Event(matches) => if before.after_event(matches).1 {
                1nat
            } else {
                0nat
            },
            Happening::Check => if before.after_check().1 {
                1nat
            } else {
                0nat
            },
            Happening::Complete => 0nat,
        }
    }
}

/// How many events of a run concern the data.
pub open spec fn matching_events(happenings: Seq<Happening>) -> nat
    decreases happenings.len(),
{
    if happenings.len() == 0 {
        0
    } else {
        matching_events(happenings.drop_last()) + match happenings.last() {
            Happening::Event(true) => 1nat,
            _ => 0nat,
        }
    }
}

/// Refresh coalescing. However events, looks and returning refreshes
/// follow each other, an entry that starts with nothing in flight and
/// nothing remembered launches no more refreshes than events concern the
/// data; what it launches and still remembers together is no more either.
pub proof fn lemma_refreshes_coalesce(happenings: Seq<Happening>)
    ensures
        launches(UpdateEntry { active: true, pending: false, queued: false }, happenings) + (if run(
            UpdateEntry { active: true, pending: false, queued: false },
            happenings,
        ).queued {
            1nat
        } else {
            0nat
        }) <= matching_events(happenings),
    decreases happenings.len(),
{
    if happenings.len() > 0 {
        lemma_refreshes_coalesce(happenings.drop_last());
    }
}

/// A refresh is launched only while none is in flight: after a launch one
/// is in flight, and while one is in flight nothing launches.
pub proof fn lemma_one_refresh_at_a_time(entry: UpdateEntry, matches: bool)
    ensures
        entry.after_event(matches).1 ==> !entry.pending && entry.after_event(matches).0.pending,
        entry.after_check().1 ==> !entry.pending && entry.after_check().0.pending,
        entry.pending ==> !entry.after_event(matches).1 && !entry.after_check().1,
{
}

} // verus!
