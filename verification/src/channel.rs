//! Pairing replies with the commands that asked for them.
//!
//! A connection carries the replies to all commands, delay
//! acknowledgements and change events in one stream. `ChannelState` keeps
//! the books: which sends still wait for a reply, under which command and
//! which sequence number. It neither reads nor writes a socket: the owner
//! of the connection tells it of each send and hands it each frame, and
//! does what the returned `Dispatch` says.

use vstd::prelude::*;
use vstd::string::*;
use crate::command::error::{CommandError, CommandErrorView};
use crate::command::raw::{command_path, with_param, RawCommand, RawCommandView};
use crate::data::event::{event_of_response, Event, EventView, ParseEventError, ParseEventErrorView};
use crate::data::response::{frame_kind, sequence_of, FrameKind, RawResponse, RawResponseView};
use crate::text::{nat_text, u64_to_string};

verus! {

/// How many events a subscriber may fall behind before the oldest are
/// dropped.
pub const EVENT_BROADCAST_BUFFER: usize = 32;

/// After removing the item at `i` from a sequence without duplicates, the
/// set of items has lost that item and nothing else.
pub proof fn lemma_remove_to_set(s: Seq<u64>, i: int)
    requires
        s.no_duplicates(),
        0 <= i < s.len(),
    ensures
        s.remove(i).no_duplicates(),
        s.remove(i).to_set() == s.to_set().remove(s[i]),
{
    let r = s.remove(i);
    assert forall|a: int, b: int| 0 <= a < r.len() && 0 <= b < r.len() && a != b implies r[a]
        != r[b] by {
        let a2 = if a < i {
            a
        } else {
            a + 1
        };
        let b2 = if b < i {
            b
        } else {
            b + 1
        };
        assert(r[a] == s[a2]);
        assert(r[b] == s[b2]);
    }
    assert forall|x: u64| r.to_set().contains(x) <==> s.to_set().remove(s[i]).contains(x) by {
        if r.to_set().contains(x) {
            let a = choose|a: int| 0 <= a < r.len() && r[a] == x;
            let a2 = if a < i {
                a
            } else {
                a + 1
            };
            assert(r[a] == s[a2]);
            assert(s.contains(x));
        }
        if s.to_set().remove(s[i]).contains(x) {
            let b = choose|b: int| 0 <= b < s.len() && s[b] == x;
            let b2 = if b < i {
                b
            } else {
                b - 1
            };
            assert(r[b2] == s[b]);
            assert(r.contains(x));
        }
    }
    assert(r.to_set() =~= s.to_set().remove(s[i]));
}

/// A set of sequence numbers.
#[derive(Debug)]
pub struct Tickets {
    items: Vec<u64>,
}

impl View for Tickets {
    type V = Set<u64>;

    closed spec fn view(&self) -> Set<u64> {
        self.items@.to_set()
    }
}

impl Tickets {
    /// No number is held twice.
    pub closed spec fn wf(&self) -> bool {
        self.items@.no_duplicates()
    }

    /// The empty set.
    pub fn new() -> (r: Self)
        ensures
            r.wf(),
            r@ == Set::<u64>::empty(),
    {
        let r = Tickets { items: Vec::new() };
        assert(r.items@.to_set() =~= Set::<u64>::empty());
        r
    }

    fn position(&self, ticket: u64) -> (r: Option<usize>)
        ensures
            match r {
                Some(i) => i < self.items.len() && self.items@[i as int] == ticket,
                None => !self@.contains(ticket),
            },
    {
        let mut i: usize = 0;
        while i < self.items.len()
            invariant
                i <= self.items.len(),
                forall|k: int| 0 <= k < i ==> self.items@[k] != ticket,
            decreases self.items.len() - i,
        {
            if self.items[i] == ticket {
                return Some(i);
            }
            i += 1;
        }
        None
    }

    /// Whether the set holds `ticket`.
    pub fn contains(&self, ticket: u64) -> (r: bool)
        ensures
            r == self@.contains(ticket),
    {
        match self.position(ticket) {
            Some(i) => {
                assert(self.items@.contains(ticket));
                true
            },
            None => false,
        }
    }

    /// Adds `ticket` to the set.
    pub fn insert(&mut self, ticket: u64)
        requires
            old(self).wf(),
        ensures
            final(self).wf(),
            final(self)@ == old(self)@.insert(ticket),
    {
        match self.position(ticket) {
            Some(i) => {
                assert(self.items@.contains(ticket));
                assert(self@ =~= self@.insert(ticket));
            },
            None => {
                proof {
                    self.items@.lemma_push_to_set_commute(ticket);
                    assert forall|k: int| 0 <= k < self.items@.len() implies self.items@[k]
                        != ticket by {
                        if self.items@[k] == ticket {
                            assert(self.items@.contains(ticket));
                        }
                    }
                }
                self.items.push(ticket);
            },
        }
    }

    /// Takes `ticket` out of the set, and says whether it was there.
    pub fn remove(&mut self, ticket: u64) -> (r: bool)
        requires
            old(self).wf(),
        ensures
            final(self).wf(),
            final(self)@ == old(self)@.remove(ticket),
            r == old(self)@.contains(ticket),
    {
        match self.position(ticket) {
            Some(i) => {
                proof {
                    lemma_remove_to_set(self.items@, i as int);
                    assert(self.items@.contains(ticket));
                }
                self.items.remove(i);
                true
            },
            None => {
                assert(self@ =~= self@.remove(ticket));
                false
            },
        }
    }
}

/// What is known of the sends of one command.
pub ghost struct CacheView {
    /// The send that takes the next frame for this command, if one is
    /// waiting for its first frame.
    pub current: Option<u64>,
    /// The sends that still wait for their reply.
    pub delayed: Set<u64>,
    /// The latest send, while it waits for its reply.
    pub last_delayed: Option<u64>,
}

/// The books of a channel as plain values.
pub ghost struct ChannelView {
    /// The sequence number of the next send.
    pub next: u64,
    /// What is known of each command, by `<group>/<name>`.
    pub caches: Map<Seq<char>, CacheView>,
}

/// The books for the sends of one command.
#[derive(Debug)]
pub struct ResponseCache {
    command: String,
    current: Option<u64>,
    delayed: Tickets,
    last_delayed: Option<u64>,
}

impl View for ResponseCache {
    type V = CacheView;

    closed spec fn view(&self) -> CacheView {
        CacheView {
            current: self.current,
            delayed: self.delayed@,
            last_delayed: self.last_delayed,
        }
    }
}

impl ResponseCache {
    /// No sequence number is held twice.
    pub closed spec fn wf(&self) -> bool {
        self.delayed.wf()
    }

    /// The command that these books are for.
    pub closed spec fn name(&self) -> Seq<char> {
        self.command@
    }

    fn register(&mut self, ticket: u64)
        requires
            old(self).wf(),
        ensures
            final(self).wf(),
            final(self).name() == old(self).name(),
            final(self)@ == (CacheView {
                current: Some(ticket),
                delayed: old(self)@.delayed.insert(ticket),
                last_delayed: Some(ticket),
            }),
    {
        self.current = Some(ticket);
        self.delayed.insert(ticket);
        self.last_delayed = Some(ticket);
    }

    fn acknowledge(&mut self) -> (waiter: Option<u64>)
        requires
            old(self).wf(),
        ensures
            final(self).wf(),
            final(self).name() == old(self).name(),
            waiter == old(self)@.current,
            final(self)@ == (CacheView { current: None, ..old(self)@ }),
    {
        let waiter = self.current;
        self.current = None;
        waiter
    }

    fn settle(&mut self, ticket: u64)
        requires
            old(self).wf(),
        ensures
            final(self).wf(),
            final(self).name() == old(self).name(),
            final(self)@ == settled(old(self)@, ticket),
    {
        self.current = None;
        self.delayed.remove(ticket);
        if self.last_delayed == Some(ticket) {
            self.last_delayed = None;
        }
    }
}

/// How a reply found the send that it answers.
#[derive(Clone, Copy, Debug, PartialEq, Eq, Structural)]
pub enum Delivery {
    /// It was the first frame after the send.
    Immediate,
    /// By the sequence number that it reflects.
    Matched,
    /// It reflects no sequence number and went to the latest send of its
    /// command.
    Fallback,
}

/// What to do with a frame.
#[derive(Debug)]
pub enum Dispatch {
    /// A delay acknowledgement: the send `waiter`, if any, goes on waiting
    /// for its reply.
    DelayAck { waiter: Option<u64> },
    /// A change event to publish.
    Event(Event),
    /// An event frame that could not be read: log it and go on.
    EventRejected(ParseEventError),
    /// The reply to the send `ticket`: hand it to the caller that waits.
    Reply { ticket: u64, how: Delivery, response: RawResponse },
    /// A reply to a command that was never sent: log it and go on.
    Unexpected(RawResponse),
    /// A reply whose sequence number no send waits for: log it and go on.
    Unmatched { sequence: u64, response: RawResponse },
    /// A reply without sequence number while no send waits: drop it.
    Unclaimed(RawResponse),
    /// A reply whose sequence field is no number: log it and go on.
    BadSequence(CommandError),
}

/// A `Dispatch` as plain values.
pub ghost enum DispatchView {
    DelayAck { waiter: Option<u64> },
    Event(EventView),
    EventRejected(ParseEventErrorView),
    Reply { ticket: u64, how: Delivery, response: RawResponseView },
    Unexpected(RawResponseView),
    Unmatched { sequence: u64, response: RawResponseView },
    Unclaimed(RawResponseView),
    BadSequence(CommandErrorView),
}

impl View for Dispatch {
    type V = DispatchView;

    open spec fn view(&self) -> DispatchView {
        match self {
            Dispatch::DelayAck { waiter } => DispatchView::DelayAck { waiter: *waiter },
            Dispatch::Event(e) => DispatchView::Event(e@),
            Dispatch::EventRejected(e) => DispatchView::EventRejected(e@),
            Dispatch::Reply { ticket, how, response } => DispatchView::Reply {
                ticket: *ticket,
                how: *how,
                response: response@,
            },
            Dispatch::Unexpected(r) => DispatchView::Unexpected(r@),
            Dispatch::Unmatched { sequence, response } => DispatchView::Unmatched {
                sequence: *sequence,
                response: response@,
            },
            Dispatch::Unclaimed(r) => DispatchView::Unclaimed(r@),
            Dispatch::BadSequence(e) => DispatchView::BadSequence(e@),
        }
    }
}

/// The books of a command of which nothing is known yet.
pub open spec fn empty_cache() -> CacheView {
    CacheView { current: None, delayed: Set::empty(), last_delayed: None }
}

/// The books after a send of `command`: the send takes the next sequence
/// number, waits for the first frame and for its reply, and is the latest
/// of its command.
pub open spec fn after_send(s: ChannelView, command: Seq<char>) -> ChannelView {
    let c = if s.caches.dom().contains(command) {
        s.caches[command]
    } else {
        empty_cache()
    };
    ChannelView {
        next: if s.next == u64::MAX {
            0
        } else {
            (s.next + 1) as u64
        },
        caches: s.caches.insert(
            command,
            CacheView {
                current: Some(s.next),
                delayed: c.delayed.insert(s.next),
                last_delayed: Some(s.next),
            },
        ),
    }
}

/// A cache after the send `ticket` got its reply.
pub open spec fn settled(c: CacheView, ticket: u64) -> CacheView {
    CacheView {
        current: None,
        delayed: c.delayed.remove(ticket),
        last_delayed: if c.last_delayed == Some(ticket) {
            None
        } else {
            c.last_delayed
        },
    }
}

/// The books after a delay acknowledgement for `command`, and the send
/// that it was for.
pub open spec fn after_delay_ack(
    s: ChannelView,
    command: Seq<char>,
) -> (ChannelView, DispatchView) {
    if s.caches.dom().contains(command) && s.caches[command].current is Some {
        let c = s.caches[command];
        (
            ChannelView { caches: s.caches.insert(command, CacheView { current: None, ..c }), ..s },
            DispatchView::DelayAck { waiter: c.current },
        )
    } else {
        (s, DispatchView::DelayAck { waiter: None })
    }
}

/// The books after a reply, and where the reply goes. `sequence` is what
/// the reply's `SEQUENCE` field says.
///
/// The send that waits for its first frame takes the reply, whatever the
/// sequence number. Else the number decides; a reply without number goes
/// to the latest send of the command.
pub open spec fn after_reply(
    s: ChannelView,
    r: RawResponseView,
    sequence: Result<Option<u64>, CommandErrorView>,
) -> (ChannelView, DispatchView) {
    if !s.caches.dom().contains(r.command) {
        (s, DispatchView::Unexpected(r))
    } else {
        let c = s.caches[r.command];
        match c.current {
            Some(t) => (
                ChannelView { caches: s.caches.insert(r.command, settled(c, t)), ..s },
                DispatchView::Reply { ticket: t, how: Delivery::Immediate, response: r },
            ),
            None => match sequence {
                Err(e) => (s, DispatchView::BadSequence(e)),
                Ok(Some(n)) => if c.delayed.contains(n) {
                    (
                        ChannelView { caches: s.caches.insert(r.command, settled(c, n)), ..s },
                        DispatchView::Reply { ticket: n, how: Delivery::Matched, response: r },
                    )
                } else {
                    (s, DispatchView::Unmatched { sequence: n, response: r })
                },
                Ok(None) => match c.last_delayed {
                    Some(t) => (
                        ChannelView { caches: s.caches.insert(r.command, settled(c, t)), ..s },
                        DispatchView::Reply { ticket: t, how: Delivery::Fallback, response: r },
                    ),
                    None => (s, DispatchView::Unclaimed(r)),
                },
            },
        }
    }
}

/// The books after a frame, and what to do with the frame.
pub open spec fn after_frame(s: ChannelView, r: RawResponseView) -> (ChannelView, DispatchView) {
    match frame_kind(r) {
        FrameKind::DelayAck => after_delay_ack(s, r.command),
        FrameKind::Event => (
            s,
            match event_of_response(r) {
                Ok(e) => DispatchView::Event(e),
                Err(e) => DispatchView::EventRejected(e),
            },
        ),
        FrameKind::Reply => after_reply(s, r, sequence_of(r.message)),
    }
}

/// The books after the connection is lost: no send waits any more. The
/// sequence numbers go on where they were.
pub open spec fn after_close(s: ChannelView) -> ChannelView {
    ChannelView { caches: Map::empty(), ..s }
}

/// The map from command to books that a list of caches stands for.
pub closed spec fn caches_map(caches: Seq<ResponseCache>) -> Map<Seq<char>, CacheView>
    decreases caches.len(),
{
    if caches.len() == 0 {
        Map::empty()
    } else {
        caches_map(caches.drop_last()).insert(caches.last().name(), caches.last()@)
    }
}

spec fn distinct_names(caches: Seq<ResponseCache>) -> bool {
    forall|i: int, j: int| 0 <= i < j < caches.len() ==> caches[i].name() != caches[j].name()
}

spec fn unnamed(caches: Seq<ResponseCache>, name: Seq<char>) -> bool {
    forall|i: int| 0 <= i < caches.len() ==> caches[i].name() != name
}

proof fn lemma_caches_map(caches: Seq<ResponseCache>)
    requires
        distinct_names(caches),
    ensures
        forall|i: int|
            0 <= i < caches.len() ==> caches_map(caches).dom().contains(
                #[trigger] caches[i].name(),
            ) && caches_map(caches)[caches[i].name()] == caches[i]@,
        forall|name: Seq<char>| #[trigger]
            unnamed(caches, name) ==> !caches_map(caches).dom().contains(name),
    decreases caches.len(),
{
    if caches.len() > 0 {
        let front = caches.drop_last();
        assert forall|i: int, j: int| 0 <= i < j < front.len() implies front[i].name()
            != front[j].name() by {
            assert(front[i] == caches[i] && front[j] == caches[j]);
        }
        lemma_caches_map(front);
        assert forall|i: int| 0 <= i < caches.len() implies caches_map(caches).dom().contains(
            #[trigger] caches[i].name(),
        ) && caches_map(caches)[caches[i].name()] == caches[i]@ by {
            if i < front.len() {
                assert(front[i] == caches[i]);
                assert(caches[i].name() != caches.last().name());
            }
        }
        assert forall|name: Seq<char>| #[trigger] unnamed(caches, name) implies !caches_map(
            caches,
        ).dom().contains(name) by {
            assert forall|i: int| 0 <= i < front.len() implies front[i].name() != name by {
                assert(front[i] == caches[i]);
            }
            assert(unnamed(front, name));
            assert(caches.last().name() != name);
        }
    }
}

proof fn lemma_caches_map_update(caches: Seq<ResponseCache>, i: int, c: ResponseCache)
    requires
        distinct_names(caches),
        0 <= i < caches.len(),
        c.name() == caches[i].name(),
    ensures
        distinct_names(caches.update(i, c)),
        caches_map(caches.update(i, c)) == caches_map(caches).insert(c.name(), c@),
    decreases caches.len(),
{
    let updated = caches.update(i, c);
    assert forall|a: int, b: int| 0 <= a < b < updated.len() implies updated[a].name()
        != updated[b].name() by {
        assert(updated[a].name() == caches[a].name());
        assert(updated[b].name() == caches[b].name());
    }
    let front = caches.drop_last();
    assert forall|a: int, b: int| 0 <= a < b < front.len() implies front[a].name()
        != front[b].name() by {
        assert(front[a] == caches[a] && front[b] == caches[b]);
    }
    if i == caches.len() - 1 {
        assert(updated.drop_last() =~= front);
        assert(caches_map(updated) =~= caches_map(caches).insert(c.name(), c@));
    } else {
        lemma_caches_map_update(front, i, c);
        assert(updated.drop_last() =~= front.update(i, c));
        assert(updated.last() == caches.last());
        assert(caches.last().name() != c.name());
        assert(caches_map(updated) =~= caches_map(caches).insert(c.name(), c@));
    }
}

proof fn lemma_caches_map_push(caches: Seq<ResponseCache>, c: ResponseCache)
    requires
        distinct_names(caches),
        forall|i: int| 0 <= i < caches.len() ==> caches[i].name() != c.name(),
    ensures
        distinct_names(caches.push(c)),
        caches_map(caches.push(c)) == caches_map(caches).insert(c.name(), c@),
{
    let pushed = caches.push(c);
    assert(pushed.drop_last() =~= caches);
    assert forall|a: int, b: int| 0 <= a < b < pushed.len() implies pushed[a].name()
        != pushed[b].name() by {
        if b < caches.len() {
            assert(pushed[a] == caches[a] && pushed[b] == caches[b]);
        } else {
            assert(pushed[a] == caches[a]);
        }
    }
}

/// The books of a channel.
#[derive(Debug)]
pub struct ChannelState {
    next_msg_id: u64,
    response_caches: Vec<ResponseCache>,
}

impl View for ChannelState {
    type V = ChannelView;

    closed spec fn view(&self) -> ChannelView {
        ChannelView { next: self.next_msg_id, caches: caches_map(self.response_caches@) }
    }
}

impl ChannelState {
    /// The books are in order: one cache for each command, and no sequence
    /// number twice in a cache.
    pub closed spec fn wf(&self) -> bool {
        &&& distinct_names(self.response_caches@)
        &&& forall|i: int|
            0 <= i < self.response_caches@.len() ==> (#[trigger] self.response_caches@[i]).wf()
    }

    /// The books of a fresh channel: nothing sent, the next sequence number
    /// is zero.
    pub fn new() -> (r: Self)
        ensures
            r.wf(),
            r@ == (ChannelView { next: 0, caches: Map::empty() }),
    {
        ChannelState { next_msg_id: 0, response_caches: Vec::new() }
    }

    fn find(&self, command: &str) -> (r: Option<usize>)
        requires
            self.wf(),
        ensures
            match r {
                Some(i) => i < self.response_caches.len() && self.response_caches@[i as int].name()
                    == command@ && self@.caches.dom().contains(command@) && self@.caches[command@]
                    == self.response_caches@[i as int]@,
                None => !self@.caches.dom().contains(command@),
            },
    {
        proof {
            lemma_caches_map(self.response_caches@);
        }
        let mut i: usize = 0;
        while i < self.response_caches.len()
            invariant
                i <= self.response_caches.len(),
                self.wf(),
                forall|k: int| 0 <= k < i ==> self.response_caches@[k].name() != command@,
            decreases self.response_caches.len() - i,
        {
            if self.response_caches[i].command.as_str().eq(command) {
                proof {
                    lemma_caches_map(self.response_caches@);
                }
                return Some(i);
            }
            i += 1;
        }
        assert(unnamed(self.response_caches@, command@));
        None
    }

    /// Registers a send of `command`: gives it the next sequence number,
    /// writes the number into the command as the parameter `SEQUENCE`, and
    /// returns it. The caller writes the command to the wire and waits for
    /// the `Dispatch` that names this number.
    pub fn begin_send(&mut self, command: &mut RawCommand) -> (ticket: u64)
        requires
            old(self).wf(),
            old(command).wf(),
        ensures
            final(self).wf(),
            final(command).wf(),
            ticket == old(self)@.next,
            final(command)@ == (RawCommandView {
                params: with_param(old(command)@.params, "SEQUENCE"@, nat_text(ticket as nat)),
                ..old(command)@
            }),
            final(self)@ == after_send(
                old(self)@,
                command_path(old(command)@.group, old(command)@.command),
            ),
    {
        let ticket = self.next_msg_id;
        let number = u64_to_string(ticket);
        command.param("SEQUENCE", number.as_str());
        let name = command.command();
        self.next_msg_id = if ticket == u64::MAX {
            0
        } else {
            ticket + 1
        };
        match self.find(name.as_str()) {
            Some(i) => {
                let ghost before = self.response_caches@;
                self.response_caches[i].register(ticket);
                proof {
                    let fresh = self.response_caches@[i as int];
                    lemma_caches_map_update(before, i as int, fresh);
                    assert(self.response_caches@ =~= before.update(i as int, fresh));
                }
            },
            None => {
                let mut delayed = Tickets::new();
                delayed.insert(ticket);
                let fresh = ResponseCache {
                    command: name,
                    current: Some(ticket),
                    delayed,
                    last_delayed: Some(ticket),
                };
                proof {
                    lemma_caches_map(self.response_caches@);
                    assert forall|k: int| 0 <= k < self.response_caches@.len() implies
                        self.response_caches@[k].name() != fresh.name() by {
                        if self.response_caches@[k].name() == fresh.name() {
                            assert(caches_map(self.response_caches@).dom().contains(
                                self.response_caches@[k].name(),
                            ));
                        }
                    }
                    lemma_caches_map_push(self.response_caches@, fresh);
                }
                self.response_caches.push(fresh);
            },
        }
        ticket
    }

    /// Takes a delay acknowledgement for `command`.
    pub fn handle_delay_ack(&mut self, command: &str) -> (d: Dispatch)
        requires
            old(self).wf(),
        ensures
            final(self).wf(),
            (final(self)@, d@) == after_delay_ack(old(self)@, command@),
    {
        match self.find(command) {
            Some(i) => {
                let ghost before = self.response_caches@;
                let waiter = self.response_caches[i].acknowledge();
                proof {
                    let fresh = self.response_caches@[i as int];
                    lemma_caches_map_update(before, i as int, fresh);
                    assert(self.response_caches@ =~= before.update(i as int, fresh));
                    if waiter is None {
                        assert(self@.caches =~= old(self)@.caches);
                    }
                }
                Dispatch::DelayAck { waiter }
            },
            None => Dispatch::DelayAck { waiter: None },
        }
    }

    /// Takes a reply whose `SEQUENCE` field has been read already.
    pub fn handle_reply(
        &mut self,
        response: RawResponse,
        sequence: Result<Option<u64>, CommandError>,
    ) -> (d: Dispatch)
        requires
            old(self).wf(),
        ensures
            final(self).wf(),
            (final(self)@, d@) == after_reply(
                old(self)@,
                response@,
                match sequence {
                    Ok(n) => Ok(n),
                    Err(e) => Err(e@),
                },
            ),
    {
        let i = match self.find(response.heos.command.as_str()) {
            Some(i) => i,
            None => return Dispatch::Unexpected(response),
        };
        let ghost before = self.response_caches@;
        let (ticket, how) = match self.response_caches[i].current {
            Some(t) => (t, Delivery::Immediate),
            None => match sequence {
                Err(e) => return Dispatch::BadSequence(e),
                Ok(Some(n)) => {
                    if self.response_caches[i].delayed.contains(n) {
                        (n, Delivery::Matched)
                    } else {
                        return Dispatch::Unmatched { sequence: n, response };
                    }
                },
                Ok(None) => match self.response_caches[i].last_delayed {
                    Some(t) => (t, Delivery::Fallback),
                    None => return Dispatch::Unclaimed(response),
                },
            },
        };
        self.response_caches[i].settle(ticket);
        proof {
            let fresh = self.response_caches@[i as int];
            lemma_caches_map_update(before, i as int, fresh);
            assert(self.response_caches@ =~= before.update(i as int, fresh));
        }
        Dispatch::Reply { ticket, how, response }
    }

    /// Takes a frame off the wire and says what to do with it.
    pub fn handle_response(&mut self, response: RawResponse) -> (d: Dispatch)
        requires
            old(self).wf(),
        ensures
            final(self).wf(),
            (final(self)@, d@) == after_frame(old(self)@, response@),
    {
        match response.kind() {
            FrameKind::DelayAck => self.handle_delay_ack(response.heos.command.as_str()),
            FrameKind::Event => match Event::try_from(&response) {
                Ok(event) => Dispatch::Event(event),
                Err(error) => Dispatch::EventRejected(error),
            },
            FrameKind::Reply => {
                let sequence = response.try_msg_id();
                self.handle_reply(response, sequence)
            },
        }
    }

    /// Whether the send `ticket` of `command` still waits for its reply.
    pub open spec fn pending(s: ChannelView, command: Seq<char>, ticket: u64) -> bool {
        s.caches.dom().contains(command) && s.caches[command].delayed.contains(ticket)
    }

    /// Notes that the connection is lost. Every send that still waits has
    /// failed: its caller is to be told so, and a reply that comes in
    /// later finds nobody.
    pub fn close(&mut self)
        ensures
            final(self).wf(),
            final(self)@ == after_close(old(self)@),
            forall|command: Seq<char>, ticket: u64|
                !Self::pending(final(self)@, command, ticket),
    {
        self.response_caches = Vec::new();
    }

    /// Whether the send `ticket` of `command` still waits for its reply.
    pub fn is_pending(&self, command: &str, ticket: u64) -> (r: bool)
        requires
            self.wf(),
        ensures
            r == Self::pending(self@, command@, ticket),
    {
        match self.find(command) {
            Some(i) => self.response_caches[i].delayed.contains(ticket),
            None => false,
        }
    }
}

/// Sequence correlation. A reply that reflects the sequence number of a
/// send that still waits goes to that send and to no other, and every
/// other send goes on waiting, provided no other send of the same command
/// waits for its first frame. (Such a send takes the next frame for its
/// command whatever the number says.)
pub proof fn lemma_sequence_correlation(s: ChannelView, r: RawResponseView, n: u64)
    requires
        frame_kind(r) == FrameKind::Reply,
        sequence_of(r.message) == Ok::<Option<u64>, CommandErrorView>(Some(n)),
        ChannelState::pending(s, r.command, n),
        s.caches[r.command].current is None || s.caches[r.command].current == Some(n),
    ensures
        after_frame(s, r).1 matches DispatchView::Reply { ticket, response, .. } && ticket == n
            && response == r,
        !ChannelState::pending(after_frame(s, r).0, r.command, n),
        forall|command: Seq<char>, other: u64|
            other != n || command != r.command ==> ChannelState::pending(
                after_frame(s, r).0,
                command,
                other,
            ) == ChannelState::pending(s, command, other),
{
}

/// Delay semantics. Where the first frame after a send is a delay
/// acknowledgement and the next one the reply with the send's sequence
/// number, the acknowledgement leaves the send waiting and the reply goes
/// to it.
pub proof fn lemma_delay_then_reply(
    s: ChannelView,
    command: Seq<char>,
    ack: RawResponseView,
    reply: RawResponseView,
)
    requires
        frame_kind(ack) == FrameKind::DelayAck,
        ack.command == command,
        frame_kind(reply) == FrameKind::Reply,
        reply.command == command,
        sequence_of(reply.message) == Ok::<Option<u64>, CommandErrorView>(Some(s.next)),
    ensures
        ({
            let sent = after_send(s, command);
            let (acked, first) = after_frame(sent, ack);
            let (done, second) = after_frame(acked, reply);
            &&& first == DispatchView::DelayAck { waiter: Some(s.next) }
            &&& ChannelState::pending(acked, command, s.next)
            &&& second == DispatchView::Reply {
                ticket: s.next,
                how: Delivery::Matched,
                response: reply,
            }
            &&& !ChannelState::pending(done, command, s.next)
        }),
{
}

/// Missing-sequence fallback. A reply that reflects no sequence number,
/// arriving while no send of its command waits for a first frame, goes to
/// the latest send of that command.
pub proof fn lemma_missing_sequence_fallback(s: ChannelView, r: RawResponseView, latest: u64)
    requires
        frame_kind(r) == FrameKind::Reply,
        sequence_of(r.message) == Ok::<Option<u64>, CommandErrorView>(None),
        s.caches.dom().contains(r.command),
        s.caches[r.command].current is None,
        s.caches[r.command].last_delayed == Some(latest),
    ensures
        after_frame(s, r).1 == (DispatchView::Reply {
            ticket: latest,
            how: Delivery::Fallback,
            response: r,
        }),
        !ChannelState::pending(after_frame(s, r).0, r.command, latest),
{
}

/// The latest send of a command is the one that a send has just
/// registered, also after its delay acknowledgement.
pub proof fn lemma_latest_send(s: ChannelView, command: Seq<char>, ack: RawResponseView)
    requires
        frame_kind(ack) == FrameKind::DelayAck,
        ack.command == command,
    ensures
        after_send(s, command).caches[command].last_delayed == Some(s.next),
        after_frame(after_send(s, command), ack).0.caches[command].last_delayed == Some(s.next),
        after_frame(after_send(s, command), ack).0.caches[command].current is None,
{
}

/// Two callers, one command. Both send before any frame comes back; the
/// system answers the second send first. Each caller still gets the reply
/// that reflects its own sequence number.
pub proof fn lemma_two_caller_interleave(
    s: ChannelView,
    command: Seq<char>,
    reply_b: RawResponseView,
    reply_a: RawResponseView,
)
    requires
        s.next < u64::MAX,
        frame_kind(reply_a) == FrameKind::Reply,
        frame_kind(reply_b) == FrameKind::Reply,
        reply_a.command == command,
        reply_b.command == command,
        sequence_of(reply_a.message) == Ok::<Option<u64>, CommandErrorView>(Some(s.next)),
        sequence_of(reply_b.message) == Ok::<Option<u64>, CommandErrorView>(
            Some((s.next + 1) as u64),
        ),
    ensures
        ({
            let sent = after_send(after_send(s, command), command);
            let (half, first) = after_frame(sent, reply_b);
            let (done, second) = after_frame(half, reply_a);
            &&& first == DispatchView::Reply {
                ticket: (s.next + 1) as u64,
                how: Delivery::Immediate,
                response: reply_b,
            }
            &&& second == DispatchView::Reply {
                ticket: s.next,
                how: Delivery::Matched,
                response: reply_a,
            }
        }),
{
}

/// The books after a run of frames, and what to do with each frame.
pub open spec fn after_frames(s: ChannelView, frames: Seq<RawResponseView>) -> (
    ChannelView,
    Seq<DispatchView>,
)
    decreases frames.len(),
{
    if frames.len() == 0 {
        (s, Seq::empty())
    } else {
        let (before, done) = after_frames(s, frames.drop_last());
        let (after, d) = after_frame(before, frames.last());
        (after, done.push(d))
    }
}

/// Replies in any order. Sends of any commands wait for their replies,
/// none of them for its first frame any more. The replies come back in any
/// order, one for each send, each with the sequence number of its send.
/// Then each reply goes to the send whose number it reflects, and in the
/// end none of these sends waits.
pub proof fn lemma_replies_in_any_order(
    s: ChannelView,
    frames: Seq<RawResponseView>,
    tickets: Seq<u64>,
)
    requires
        frames.len() == tickets.len(),
        forall|i: int|
            0 <= i < frames.len() ==> frame_kind(#[trigger] frames[i]) == FrameKind::Reply
                && sequence_of(frames[i].message) == Ok::<Option<u64>, CommandErrorView>(
                Some(tickets[i]),
            ) && ChannelState::pending(s, frames[i].command, tickets[i])
                && s.caches[frames[i].command].current is None,
        forall|i: int, j: int|
            0 <= i < j < frames.len() ==> !(frames[i].command == frames[j].command && tickets[i]
                == tickets[j]),
    ensures
        after_frames(s, frames).1.len() == frames.len(),
        forall|i: int|
            0 <= i < frames.len() ==> #[trigger] after_frames(s, frames).1[i]
                == (DispatchView::Reply {
                ticket: tickets[i],
                how: Delivery::Matched,
                response: frames[i],
            }),
        forall|i: int|
            0 <= i < frames.len() ==> !ChannelState::pending(
                after_frames(s, frames).0,
                (#[trigger] frames[i]).command,
                tickets[i],
            ),
        forall|command: Seq<char>, n: u64|
            (forall|i: int|
                0 <= i < frames.len() ==> !((#[trigger] frames[i]).command == command
                    && tickets[i] == n)) ==> #[trigger] ChannelState::pending(
                after_frames(s, frames).0,
                command,
                n,
            ) == ChannelState::pending(s, command, n),
        forall|command: Seq<char>|
            s.caches.dom().contains(command) && s.caches[command].current is None
                ==> #[trigger] after_frames(s, frames).0.caches.dom().contains(command)
                && after_frames(s, frames).0.caches[command].current is None,
    decreases frames.len(),
{
    if frames.len() > 0 {
        let front = frames.drop_last();
        let front_tickets = tickets.drop_last();
        let last = frames.last();
        let n = tickets.last();
        assert forall|i: int| 0 <= i < front.len() implies frame_kind(#[trigger] front[i])
            == FrameKind::Reply && sequence_of(front[i].message) == Ok::<
            Option<u64>,
            CommandErrorView,
        >(Some(front_tickets[i])) && ChannelState::pending(s, front[i].command, front_tickets[i])
            && s.caches[front[i].command].current is None by {
            assert(front[i] == frames[i]);
        }
        assert forall|i: int, j: int| 0 <= i < j < front.len() implies !(front[i].command
            == front[j].command && front_tickets[i] == front_tickets[j]) by {
            assert(front[i] == frames[i] && front[j] == frames[j]);
        }
        lemma_replies_in_any_order(s, front, front_tickets);
        let (before, done) = after_frames(s, front);
        assert forall|i: int| 0 <= i < front.len() implies !((#[trigger] front[i]).command
            == last.command && front_tickets[i] == n) by {
            assert(front[i] == frames[i]);
        }
        assert(ChannelState::pending(before, last.command, n));
        assert(before.caches[last.command].current is None);
        lemma_sequence_correlation(before, last, n);
        let (after, d) = after_frame(before, last);
        assert(after_frames(s, frames) == (after, done.push(d)));
        assert forall|i: int| 0 <= i < frames.len() implies #[trigger] after_frames(
            s,
            frames,
        ).1[i] == (DispatchView::Reply {
            ticket: tickets[i],
            how: Delivery::Matched,
            response: frames[i],
        }) by {
            if i < front.len() {
                assert(front[i] == frames[i]);
                assert(after_frames(s, front).1[i] == done[i]);
            }
        }
        assert forall|i: int| 0 <= i < frames.len() implies !ChannelState::pending(
            after,
            (#[trigger] frames[i]).command,
            tickets[i],
        ) by {
            if i < front.len() {
                assert(front[i] == frames[i]);
                assert(!ChannelState::pending(before, front[i].command, front_tickets[i]));
            }
        }
        assert forall|command: Seq<char>, m: u64|
            (forall|i: int|
                0 <= i < frames.len() ==> !((#[trigger] frames[i]).command == command
                    && tickets[i] == m)) implies #[trigger] ChannelState::pending(
            after,
            command,
            m,
        ) == ChannelState::pending(s, command, m) by {
            assert(!(frames[frames.len() - 1].command == command && tickets[frames.len() - 1] == m));
            assert forall|i: int| 0 <= i < front.len() implies !((#[trigger] front[i]).command
                == command && front_tickets[i] == m) by {
                assert(front[i] == frames[i]);
            }
            assert(ChannelState::pending(before, command, m) == ChannelState::pending(
                s,
                command,
                m,
            ));
        }
        assert forall|command: Seq<char>|
            s.caches.dom().contains(command) && s.caches[command].current is None
                implies #[trigger] after.caches.dom().contains(command)
            && after.caches[command].current is None by {
            assert(after_frames(s, front).0.caches.dom().contains(command));
        }
    } else {
        assert(after_frames(s, frames) == (s, Seq::<DispatchView>::empty()));
    }
}

} // verus!
