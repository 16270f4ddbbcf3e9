//! Fan-out of price updates from one publisher to many independent
//! subscribers, each with its own bounded buffer.
//!
//! A full buffer makes room by dropping its oldest update, so a slow
//! subscriber loses history and the publisher never waits.

use crate::update::{PriceUpdate, PriceUpdateView};
use std::collections::VecDeque;
use vstd::prelude::*;

verus! {

/// The newest `capacity` items of `items`, in their order; all of them when
/// there are no more than that.
pub open spec fn keep_newest(items: Seq<PriceUpdateView>, capacity: nat) -> Seq<PriceUpdateView> {
    if items.len() <= capacity {
        items
    } else {
        items.subrange(items.len() - capacity, items.len() as int)
    }
}

/// The state of a distributor: the bound of every buffer, and for every
/// subscriber identifier handed out so far either the updates that wait for
/// that subscriber, oldest first, or `None` once it has left.
pub struct Fanout {
    pub capacity: nat,
    pub buffers: Seq<Option<Seq<PriceUpdateView>>>,
}

impl Fanout {
    /// The bound is positive and no buffer exceeds it.
    pub open spec fn wf(self) -> bool {
        &&& self.capacity > 0
        &&& forall|id: int|
            0 <= id < self.buffers.len() ==> match #[trigger] self.buffers[id] {
                Some(buffer) => buffer.len() <= self.capacity,
                None => true,
            }
    }

    /// A distributor without subscribers.
    pub open spec fn empty(capacity: nat) -> Fanout {
        Fanout { capacity, buffers: Seq::empty() }
    }

    /// Whether `id` names a subscriber that has not left.
    pub open spec fn is_subscribed(self, id: int) -> bool {
        0 <= id < self.buffers.len() && self.buffers[id] is Some
    }

    /// The updates that wait for subscriber `id`, oldest first; nothing waits
    /// for an identifier that names no subscriber.
    pub open spec fn pending(self, id: int) -> Seq<PriceUpdateView> {
        if self.is_subscribed(id) {
            self.buffers[id]->0
        } else {
            Seq::empty()
        }
    }

    /// The identifier that the next subscriber gets.
    pub open spec fn next_id(self) -> int {
        self.buffers.len() as int
    }

    /// The state after a new subscriber joined: it gets `next_id()` and an
    /// empty buffer.
    pub open spec fn subscribe(self) -> Fanout {
        Fanout { capacity: self.capacity, buffers: self.buffers.push(Some(Seq::empty())) }
    }

    /// The state after subscriber `id` left.
    pub open spec fn unsubscribe(self, id: int) -> Fanout {
        if self.is_subscribed(id) {
            Fanout { capacity: self.capacity, buffers: self.buffers.update(id, None) }
        } else {
            self
        }
    }

    /// The state after `update` was published: every subscriber's buffer got
    /// it at its end, and a buffer that was full lost its oldest update.
    pub open spec fn publish(self, update: PriceUpdateView) -> Fanout {
        Fanout {
            capacity: self.capacity,
            buffers: Seq::new(
                self.buffers.len(),
                |id: int|
                    match self.buffers[id] {
                        Some(buffer) => Some(keep_newest(buffer.push(update), self.capacity)),
                        None => None,
                    },
            ),
        }
    }

    /// The state after the updates were published one after the other.
    pub open spec fn publish_all(self, updates: Seq<PriceUpdateView>) -> Fanout
        decreases updates.len(),
    {
        if updates.len() == 0 {
            self
        } else {
            self.publish_all(updates.drop_last()).publish(updates.last())
        }
    }

    /// The update that subscriber `id` observes next, if one waits.
    pub open spec fn front(self, id: int) -> Option<PriceUpdateView> {
        if self.pending(id).len() > 0 {
            Some(self.pending(id)[0])
        } else {
            None
        }
    }

    /// The state after subscriber `id` took its next update.
    pub open spec fn take(self, id: int) -> Fanout {
        if self.pending(id).len() > 0 {
            Fanout {
                capacity: self.capacity,
                buffers: self.buffers.update(id, Some(self.pending(id).drop_first())),
            }
        } else {
            self
        }
    }
}

/// Dropping down to the newest `capacity` items before or after one more
/// item arrives leaves the same buffer.
proof fn lemma_keep_newest_push(items: Seq<PriceUpdateView>, capacity: nat, update: PriceUpdateView)
    requires
        capacity > 0,
    ensures
        keep_newest(keep_newest(items, capacity).push(update), capacity) == keep_newest(
            items.push(update),
            capacity,
        ),
{
    assert(keep_newest(keep_newest(items, capacity).push(update), capacity) =~= keep_newest(
        items.push(update),
        capacity,
    ));
}

/// Publishing keeps the distributor well formed, keeps every subscriber
/// subscribed and hands out no identifier.
pub proof fn lemma_publish_all_preserves(fanout: Fanout, updates: Seq<PriceUpdateView>)
    requires
        fanout.wf(),
    ensures
        fanout.publish_all(updates).wf(),
        fanout.publish_all(updates).capacity == fanout.capacity,
        fanout.publish_all(updates).next_id() == fanout.next_id(),
        forall|id: int|
            fanout.publish_all(updates).is_subscribed(id) == #[trigger] fanout.is_subscribed(id),
    decreases updates.len(),
{
    if updates.len() > 0 {
        lemma_publish_all_preserves(fanout, updates.drop_last());
    }
}

/// Per-subscriber delivery order matches publish order: after the updates
/// `updates` were published one after the other, a subscriber that was there
/// before the first of them has, behind what already waited for it, these
/// updates in the order of their publication, cut down to the newest
/// `capacity` items. Where everything fits, nothing is cut.
pub proof fn lemma_delivery_follows_publish_order(
    fanout: Fanout,
    id: int,
    updates: Seq<PriceUpdateView>,
)
    requires
        fanout.wf(),
        fanout.is_subscribed(id),
    ensures
        fanout.publish_all(updates).pending(id) == keep_newest(
            fanout.pending(id) + updates,
            fanout.capacity,
        ),
        fanout.pending(id).len() + updates.len() <= fanout.capacity ==> fanout.publish_all(
            updates,
        ).pending(id) == fanout.pending(id) + updates,
    decreases updates.len(),
{
    let waiting = fanout.pending(id);
    if updates.len() == 0 {
        assert(waiting + updates =~= waiting);
    } else {
        let earlier = updates.drop_last();
        lemma_delivery_follows_publish_order(fanout, id, earlier);
        lemma_publish_all_preserves(fanout, earlier);
        lemma_keep_newest_push(waiting + earlier, fanout.capacity, updates.last());
        assert((waiting + earlier).push(updates.last()) =~= waiting + updates);
    }
}

/// A subscriber has no visibility into history: one that joins after the
/// updates `earlier` were published, and before the updates `later`, has
/// only updates of `later` waiting for it, in the order of their
/// publication.
pub proof fn lemma_late_subscriber_observes_only_later_updates(
    fanout: Fanout,
    earlier: Seq<PriceUpdateView>,
    later: Seq<PriceUpdateView>,
)
    requires
        fanout.wf(),
    ensures
        ({
            let id = fanout.publish_all(earlier).next_id();
            let joined = fanout.publish_all(earlier).subscribe();
            &&& joined.is_subscribed(id)
            &&& joined.pending(id) == Seq::<PriceUpdateView>::empty()
            &&& joined.publish_all(later).pending(id) == keep_newest(later, fanout.capacity)
            &&& later.len() <= fanout.capacity ==> joined.publish_all(later).pending(id) == later
        }),
{
    lemma_publish_all_preserves(fanout, earlier);
    let id = fanout.publish_all(earlier).next_id();
    let joined = fanout.publish_all(earlier).subscribe();
    assert(joined.wf());
    lemma_delivery_follows_publish_order(joined, id, later);
    assert(Seq::<PriceUpdateView>::empty() + later =~= later);
}

/// Drop-oldest backpressure: publishing to a subscriber whose buffer is full
/// drops that buffer's oldest update and appends the new one; publishing to
/// one whose buffer has room appends and drops nothing. Either way the
/// newest update is the last of the buffer.
pub proof fn lemma_full_buffer_drops_oldest(fanout: Fanout, id: int, update: PriceUpdateView)
    requires
        fanout.wf(),
        fanout.is_subscribed(id),
    ensures
        fanout.pending(id).len() == fanout.capacity ==> fanout.publish(update).pending(id)
            == fanout.pending(id).drop_first().push(update),
        fanout.pending(id).len() < fanout.capacity ==> fanout.publish(update).pending(id)
            == fanout.pending(id).push(update),
        fanout.publish(update).pending(id).last() == update,
{
    let waiting = fanout.pending(id);
    if waiting.len() == fanout.capacity {
        assert(keep_newest(waiting.push(update), fanout.capacity) =~= waiting.drop_first().push(
            update,
        ));
    }
}

/// Subscribers are independent: what one of them takes, or its leaving,
/// changes nothing of what waits for another.
pub proof fn lemma_subscribers_are_independent(fanout: Fanout, id: int, other: int)
    requires
        id != other,
    ensures
        fanout.take(id).pending(other) == fanout.pending(other),
        fanout.take(id).is_subscribed(other) == fanout.is_subscribed(other),
        fanout.unsubscribe(id).pending(other) == fanout.pending(other),
        fanout.unsubscribe(id).is_subscribed(other) == fanout.is_subscribed(other),
{
}

/// What each of the updates says.
pub open spec fn views_of(updates: Seq<PriceUpdate>) -> Seq<PriceUpdateView> {
    updates.map_values(|update: PriceUpdate| update@)
}

/// What waits in one slot of the registry.
pub open spec fn slot_view(slot: Option<VecDeque<PriceUpdate>>) -> Option<Seq<PriceUpdateView>> {
    match slot {
        Some(queue) => Some(views_of(queue@)),
        None => None,
    }
}

/// Single-publisher, multi-subscriber fan-out with one bounded buffer per
/// subscriber.
pub struct Distributor {
    capacity: usize,
    buffers: Vec<Option<VecDeque<PriceUpdate>>>,
}

impl View for Distributor {
    type V = Fanout;

    closed spec fn view(&self) -> Fanout {
        Fanout {
            capacity: self.capacity as nat,
            buffers: Seq::new(self.buffers.len() as nat, |id: int| slot_view(self.buffers[id])),
        }
    }
}

/// Puts `update` at the end of one subscriber's queue, dropping the oldest
/// update first when the queue already holds `capacity` of them.
fn enqueue(queue: &mut VecDeque<PriceUpdate>, capacity: usize, update: PriceUpdate)
    requires
        capacity > 0,
        old(queue)@.len() <= capacity,
    ensures
        views_of(final(queue)@) == keep_newest(
            views_of(old(queue)@).push(update@),
            capacity as nat,
        ),
        final(queue)@.len() <= capacity,
{
    if queue.len() >= capacity {
        let _ = queue.pop_front();
    }
    let ghost kept = queue@;
    queue.push_back(update);
    proof {
        assert(views_of(kept.push(update)) =~= views_of(kept).push(update@));
        if old(queue)@.len() >= capacity {
            assert(views_of(kept) =~= views_of(old(queue)@).subrange(
                1,
                old(queue)@.len() as int,
            ));
        }
        assert(views_of(queue@) =~= keep_newest(
            views_of(old(queue)@).push(update@),
            capacity as nat,
        ));
    }
}

impl Distributor {
    /// A distributor without subscribers whose buffers hold up to `capacity`
    /// updates each.
    pub fn new(capacity: usize) -> (distributor: Distributor)
        requires
            capacity > 0,
        ensures
            distributor@ == Fanout::empty(capacity as nat),
            distributor@.wf(),
    {
        let distributor = Distributor { capacity, buffers: Vec::new() };
        assert(distributor@.buffers =~= Seq::empty());
        distributor
    }

    /// The bound of every subscriber's buffer.
    pub fn capacity(&self) -> (capacity: usize)
        ensures
            capacity == self@.capacity,
    {
        self.capacity
    }

    /// Registers a new subscriber and returns its identifier. The subscriber
    /// starts with an empty buffer: it observes only what is published from
    /// now on.
    pub fn subscribe(&mut self) -> (id: usize)
        requires
            old(self)@.wf(),
        ensures
            id == old(self)@.next_id(),
            final(self)@ == old(self)@.subscribe(),
            final(self)@.wf(),
    {
        let id = self.buffers.len();
        self.buffers.push(Some(VecDeque::new()));
        proof {
            assert(views_of(Seq::<PriceUpdate>::empty()) =~= Seq::empty());
            assert(self@.buffers =~= old(self)@.subscribe().buffers);
        }
        id
    }

    /// Removes subscriber `id` and what waits for it. The other subscribers
    /// keep their buffers; an identifier that names no subscriber changes
    /// nothing.
    pub fn unsubscribe(&mut self, id: usize)
        requires
            old(self)@.wf(),
        ensures
            final(self)@ == old(self)@.unsubscribe(id as int),
            final(self)@.wf(),
    {
        if id < self.buffers.len() && self.buffers[id].is_some() {
            self.buffers[id] = None;
            assert(self@.buffers =~= old(self)@.unsubscribe(id as int).buffers);
        }
    }

    /// Delivers `update` to every subscriber. A buffer that is full drops its
    /// oldest update to make room, so the newest update is never lost and the
    /// publisher never waits.
    pub fn publish(&mut self, update: PriceUpdate)
        requires
            old(self)@.wf(),
        ensures
            final(self)@ == old(self)@.publish(update@),
            final(self)@.wf(),
    {
        let count = self.buffers.len();
        let capacity = self.capacity;
        let mut id: usize = 0;
        while id < count
            invariant
                id <= count,
                count == self.buffers.len(),
                capacity == self.capacity,
                self.capacity == old(self).capacity,
                old(self)@.wf(),
                old(self)@.buffers.len() == count,
                forall|done: int|
                    0 <= done < id ==> slot_view(#[trigger] self.buffers[done]) == old(
                        self,
                    )@.publish(update@).buffers[done],
                forall|rest: int|
                    id <= rest < count ==> slot_view(#[trigger] self.buffers[rest]) == old(
                        self,
                    )@.buffers[rest],
            decreases count - id,
        {
            let ghost slots = self.buffers@;
            proof {
                assert(slot_view(slots[id as int]) == old(self)@.buffers[id as int]);
                if slots[id as int] is Some {
                    assert(views_of(slots[id as int]->0@).len() == slots[id as int]->0@.len());
                }
            }
            match &mut self.buffers[id] {
                Some(queue) => enqueue(queue, capacity, update.clone()),
                None => {},
            }
            proof {
                assert(self.buffers@ == slots.update(id as int, self.buffers@[id as int]));
                assert forall|rest: int| id < rest < count implies slot_view(
                    #[trigger] self.buffers[rest],
                ) == old(self)@.buffers[rest] by {
                    assert(self.buffers[rest] == slots[rest]);
                }
                assert forall|done: int| 0 <= done <= id implies slot_view(
                    #[trigger] self.buffers[done],
                ) == old(self)@.publish(update@).buffers[done] by {
                    if done < id {
                        assert(self.buffers[done] == slots[done]);
                    } else {
                        assert(self.buffers[done] is Some <==> slots[done] is Some);
                    }
                }
            }
            id = id + 1;
        }
        assert(self@.buffers =~= old(self)@.publish(update@).buffers);
    }

    /// Hands subscriber `id` the oldest update that waits for it, if any. The
    /// other subscribers keep what waits for them.
    pub fn take(&mut self, id: usize) -> (update: Option<PriceUpdate>)
        requires
            old(self)@.wf(),
        ensures
            final(self)@ == old(self)@.take(id as int),
            final(self)@.wf(),
            match update {
                Some(update) => old(self)@.front(id as int) == Some(update@),
                None => old(self)@.front(id as int) is None,
            },
    {
        if id >= self.buffers.len() {
            return None;
        }
        let ghost slots = self.buffers@;
        let update = match &mut self.buffers[id] {
            Some(queue) => queue.pop_front(),
            None => None,
        };
        proof {
            let waiting = slots[id as int];
            let now = self.buffers@[id as int];
            assert(self.buffers@ == slots.update(id as int, now));
            if waiting is Some && waiting->0@.len() > 0 {
                assert(views_of(now->0@) =~= views_of(waiting->0@).drop_first());
            }
            assert(self@.buffers =~= old(self)@.take(id as int).buffers);
        }
        update
    }

    /// Whether `id` names a subscriber that has not left.
    pub fn is_subscribed(&self, id: usize) -> (subscribed: bool)
        ensures
            subscribed == self@.is_subscribed(id as int),
    {
        id < self.buffers.len() && self.buffers[id].is_some()
    }

    /// How many updates wait for subscriber `id`.
    pub fn pending_len(&self, id: usize) -> (count: usize)
        ensures
            count == self@.pending(id as int).len(),
    {
        if id < self.buffers.len() {
            match &self.buffers[id] {
                Some(queue) => queue.len(),
                None => 0,
            }
        } else {
            0
        }
    }
}

} // verus!
