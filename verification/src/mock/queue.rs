//! What the commands of a system do to a queue.

use vstd::prelude::*;
use vstd::string::*;
use crate::data::queue::{QueueId, QueuedTrackInfo, TrackView};
use crate::views::{lemma_views_push, views};

verus! {

/// A queue with its places counted anew: the first track gets place 1.
pub open spec fn renumbered(queue: Seq<TrackView>) -> Seq<TrackView> {
    Seq::new(
        queue.len(),
        |i: int| TrackView { queue_id: QueueId((i + 1) as u64), ..queue[i] },
    )
}

/// The places of a queue are 1, 2, 3 and so on, in order.
pub open spec fn numbered(queue: Seq<TrackView>) -> bool {
    forall|i: int| 0 <= i < queue.len() ==> (#[trigger] queue[i]).queue_id == QueueId(
        (i + 1) as u64,
    )
}

/// Counting anew leaves a queue whose places are in order. It keeps the
/// tracks and their order, and a queue that is in order already stays as
/// it is.
pub proof fn lemma_renumbered(queue: Seq<TrackView>)
    ensures
        numbered(renumbered(queue)),
        renumbered(queue).len() == queue.len(),
        numbered(queue) ==> renumbered(queue) == queue,
        renumbered(renumbered(queue)) == renumbered(queue),
{
    if numbered(queue) {
        assert(renumbered(queue) =~= queue);
    }
    assert(renumbered(renumbered(queue)) =~= renumbered(queue));
}

/// Whether a track stands at one of the places `src`.
pub open spec fn chosen(src: Seq<QueueId>) -> spec_fn(TrackView) -> bool {
    |t: TrackView| src.contains(t.queue_id)
}

/// Whether a track stands at none of the places `src`.
pub open spec fn left(src: Seq<QueueId>) -> spec_fn(TrackView) -> bool {
    |t: TrackView| !src.contains(t.queue_id)
}

/// Where the track at the place `dst` stands in the queue, or the length
/// of the queue where no track has that place.
pub open spec fn index_of_place(queue: Seq<TrackView>, dst: QueueId) -> int
    decreases queue.len(),
{
    if queue.len() == 0 {
        0
    } else if queue[0].queue_id == dst {
        0
    } else {
        1 + index_of_place(queue.skip(1), dst)
    }
}

/// A queue after the tracks at the places `src` moved in front of the
/// track at the place `dst`: first what stood before the destination and
/// stays, then the moved tracks as one block, then the destination and
/// what stood behind it and stays. Each part keeps its order. The places
/// are not counted anew here.
pub open spec fn moved(queue: Seq<TrackView>, src: Seq<QueueId>, dst: QueueId) -> Seq<TrackView> {
    let k = index_of_place(queue, dst);
    queue.take(k).filter(left(src)) + queue.filter(chosen(src)) + queue.skip(k).filter(left(src))
}

/// Where the place `dst` is found, told by what stands before it.
pub proof fn lemma_index_of_place(queue: Seq<TrackView>, dst: QueueId, at: int)
    requires
        0 <= at <= queue.len(),
        forall|i: int| 0 <= i < at ==> queue[i].queue_id != dst,
        at < queue.len() ==> queue[at].queue_id == dst,
    ensures
        index_of_place(queue, dst) == at,
    decreases at,
{
    if at > 0 {
        let rest = queue.skip(1);
        assert forall|i: int| 0 <= i < at - 1 implies rest[i].queue_id != dst by {
            assert(rest[i] == queue[i + 1]);
        }
        if at < queue.len() {
            assert(rest[at - 1] == queue[at]);
        }
        lemma_index_of_place(rest, dst, at - 1);
    }
}

/// Filtering one more element of a prefix.
pub proof fn lemma_filter_take_next(
    queue: Seq<TrackView>,
    pred: spec_fn(TrackView) -> bool,
    i: int,
)
    requires
        0 <= i < queue.len(),
    ensures
        queue.take(i + 1).filter(pred) == if pred(queue[i]) {
            queue.take(i).filter(pred).push(queue[i])
        } else {
            queue.take(i).filter(pred)
        },
{
    assert(queue.take(i + 1) =~= queue.take(i).push(queue[i]));
    Seq::lemma_filter_push(queue.take(i), queue[i], pred);
}

/// Filtering one more element of a range.
pub proof fn lemma_filter_range_next(
    queue: Seq<TrackView>,
    pred: spec_fn(TrackView) -> bool,
    from: int,
    i: int,
)
    requires
        0 <= from <= i < queue.len(),
    ensures
        queue.subrange(from, i + 1).filter(pred) == if pred(queue[i]) {
            queue.subrange(from, i).filter(pred).push(queue[i])
        } else {
            queue.subrange(from, i).filter(pred)
        },
{
    assert(queue.subrange(from, i + 1) =~= queue.subrange(from, i).push(queue[i]));
    Seq::lemma_filter_push(queue.subrange(from, i), queue[i], pred);
}

/// Whether `id` is one of `ids`.
pub fn contains_place(ids: &Vec<QueueId>, id: QueueId) -> (r: bool)
    ensures
        r == ids@.contains(id),
{
    let mut i: usize = 0;
    while i < ids.len()
        invariant
            i <= ids.len(),
            forall|k: int| 0 <= k < i ==> ids@[k] != id,
        decreases ids.len() - i,
    {
        if ids[i] == id {
            return true;
        }
        i += 1;
    }
    false
}

/// Counts the places of a queue anew, from 1.
pub fn renumber(queue: &mut Vec<QueuedTrackInfo>)
    ensures
        views(final(queue)@) == renumbered(views(old(queue)@)),
        numbered(views(final(queue)@)),
        final(queue).len() == old(queue).len(),
{
    let mut i: usize = 0;
    while i < queue.len()
        invariant
            i <= queue.len(),
            queue.len() == old(queue).len(),
            forall|k: int|
                0 <= k < i ==> (#[trigger] queue@[k])@ == (TrackView {
                    queue_id: QueueId((k + 1) as u64),
                    ..old(queue)@[k]@
                }),
            forall|k: int| i <= k < queue.len() ==> queue@[k] == old(queue)@[k],
        decreases queue.len() - i,
    {
        queue[i].queue_id = QueueId((i + 1) as u64);
        i += 1;
    }
    proof {
        assert(views(queue@) =~= renumbered(views(old(queue)@)));
        lemma_renumbered(views(old(queue)@));
    }
}

/// Moves the tracks at the places `src` in front of the track at the place
/// `dst`, and counts the places anew.
pub fn move_items(queue: &mut Vec<QueuedTrackInfo>, src: &Vec<QueueId>, dst: QueueId)
    ensures
        views(final(queue)@) == renumbered(moved(views(old(queue)@), src@, dst)),
        numbered(views(final(queue)@)),
        final(queue).len() == old(queue).len(),
{
    let ghost before = views(queue@);
    let mut pre: Vec<QueuedTrackInfo> = Vec::new();
    let mut mid: Vec<QueuedTrackInfo> = Vec::new();
    let mut post: Vec<QueuedTrackInfo> = Vec::new();
    let mut past_mid = false;
    let ghost mut k: int = 0;
    let mut i: usize = 0;
    proof {
        assert(before.take(0).filter(left(src@)) =~= Seq::empty());
        assert(before.take(0).filter(chosen(src@)) =~= Seq::empty());
        assert(before.subrange(0, 0).filter(left(src@)) =~= Seq::empty());
        assert(views(pre@) =~= Seq::<TrackView>::empty());
        assert(views(mid@) =~= Seq::<TrackView>::empty());
        assert(views(post@) =~= Seq::<TrackView>::empty());
    }
    while i < queue.len()
        invariant
            i <= queue.len(),
            queue.len() == old(queue).len(),
            before == views(queue@),
            before == views(old(queue)@),
            0 <= k <= i,
            !past_mid ==> k == i,
            past_mid ==> k < i && before[k].queue_id == dst,
            forall|j: int| 0 <= j < k ==> before[j].queue_id != dst,
            views(pre@) == before.take(k).filter(left(src@)),
            views(mid@) == before.take(i as int).filter(chosen(src@)),
            views(post@) == before.subrange(k, i as int).filter(left(src@)),
            pre.len() + mid.len() + post.len() == i,
        decreases queue.len() - i,
    {
        let item = queue[i].clone();
        proof {
            assert(item@ == before[i as int]);
            lemma_filter_take_next(before, chosen(src@), i as int);
            lemma_filter_take_next(before, left(src@), i as int);
            lemma_filter_range_next(before, left(src@), k, i as int);
        }
        if !past_mid && item.queue_id == dst {
            past_mid = true;
        }
        let selected = contains_place(src, item.queue_id);
        if selected {
            proof {
                lemma_views_push(mid@, item);
                if !past_mid {
                    k = k + 1;
                }
            }
            mid.push(item);
        } else if past_mid {
            proof {
                lemma_views_push(post@, item);
            }
            post.push(item);
        } else {
            proof {
                lemma_views_push(pre@, item);
                k = k + 1;
            }
            pre.push(item);
        }
        i += 1;
        proof {
            if !past_mid {
                assert(before.subrange(k, i as int).filter(left(src@)) =~= Seq::empty());
            }
        }
    }
    proof {
        lemma_index_of_place(before, dst, k);
        assert(before.take(i as int) =~= before);
        assert(before.subrange(k, i as int) =~= before.skip(k));
        crate::views::lemma_views_add(pre@, mid@);
        crate::views::lemma_views_add(pre@ + mid@, post@);
    }
    pre.append(&mut mid);
    pre.append(&mut post);
    *queue = pre;
    renumber(queue);
}

/// Whether `id` names a track of a queue of the given length.
pub open spec fn valid_place(id: QueueId, len: nat) -> bool {
    1 <= id.0 <= len
}

/// The first of `ids` that names no track of a queue of the given length.
pub open spec fn first_invalid_place(ids: Seq<QueueId>, len: nat) -> Option<QueueId>
    decreases ids.len(),
{
    if ids.len() == 0 {
        None
    } else {
        match first_invalid_place(ids.drop_last(), len) {
            Some(id) => Some(id),
            None => if valid_place(ids.last(), len) {
                None
            } else {
                Some(ids.last())
            },
        }
    }
}

/// The first of `ids` that names no track of a queue of the given length.
pub fn find_invalid_place(ids: &Vec<QueueId>, len: usize) -> (r: Option<QueueId>)
    ensures
        r == first_invalid_place(ids@, len as nat),
{
    let mut i: usize = 0;
    while i < ids.len()
        invariant
            i <= ids.len(),
            first_invalid_place(ids@.take(i as int), len as nat) is None,
        decreases ids.len() - i,
    {
        proof {
            assert(ids@.take(i + 1).drop_last() =~= ids@.take(i as int));
        }
        if ids[i].0 < 1 || ids[i].0 > len as u64 {
            proof {
                lemma_first_invalid_prefix(ids@, len as nat, i + 1);
            }
            return Some(ids[i]);
        }
        i += 1;
    }
    assert(ids@.take(i as int) =~= ids@);
    None
}

/// An invalid place found in a prefix is the first invalid place of the
/// whole.
pub proof fn lemma_first_invalid_prefix(ids: Seq<QueueId>, len: nat, k: int)
    requires
        0 <= k <= ids.len(),
        first_invalid_place(ids.take(k), len) is Some,
    ensures
        first_invalid_place(ids, len) == first_invalid_place(ids.take(k), len),
    decreases ids.len(),
{
    if k == ids.len() {
        assert(ids.take(k) =~= ids);
    } else {
        assert(ids.drop_last().take(k) =~= ids.take(k));
        lemma_first_invalid_prefix(ids.drop_last(), len, k);
    }
}

/// Takes the tracks at the places `ids` out of the queue and counts the
/// places anew.
pub fn remove_places(queue: &mut Vec<QueuedTrackInfo>, ids: &Vec<QueueId>)
    ensures
        views(final(queue)@) == renumbered(views(old(queue)@).filter(left(ids@))),
        numbered(views(final(queue)@)),
{
    let ghost before = views(queue@);
    let mut kept: Vec<QueuedTrackInfo> = Vec::new();
    let mut i: usize = 0;
    proof {
        assert(before.take(0).filter(left(ids@)) =~= Seq::empty());
        assert(views(kept@) =~= Seq::<TrackView>::empty());
    }
    while i < queue.len()
        invariant
            i <= queue.len(),
            before == views(queue@),
            views(kept@) == before.take(i as int).filter(left(ids@)),
        decreases queue.len() - i,
    {
        let item = queue[i].clone();
        proof {
            assert(item@ == before[i as int]);
            lemma_filter_take_next(before, left(ids@), i as int);
        }
        if !contains_place(ids, item.queue_id) {
            proof {
                lemma_views_push(kept@, item);
            }
            kept.push(item);
        }
        i += 1;
    }
    proof {
        assert(before.take(i as int) =~= before);
    }
    *queue = kept;
    renumber(queue);
}

/// Drops the first `count` tracks of the queue and counts the places anew.
pub fn drop_front(queue: &mut Vec<QueuedTrackInfo>, count: usize)
    requires
        count <= old(queue).len(),
    ensures
        views(final(queue)@) == renumbered(views(old(queue)@).skip(count as int)),
        numbered(views(final(queue)@)),
{
    let tail = queue.split_off(count);
    proof {
        assert(views(tail@) =~= views(old(queue)@).skip(count as int));
    }
    *queue = tail;
    renumber(queue);
}

} // verus!
