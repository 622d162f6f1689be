//! In-process event bus: per-user fan-out of task, notification and
//! message changes to live stream subscriptions.
//!
//! Each subscription owns a bounded delivery buffer. A publish appends the
//! event, in publish order, to the buffer of every live subscription for
//! the routing user; a full buffer drops the incoming event for that
//! subscriber, and the publisher is never blocked or failed. Closing is
//! idempotent; a closed subscription's sequence has ended and never yields
//! another event.

use vstd::prelude::*;

verus! {

/// Which resource an event concerns.
#[derive(Clone, Copy, PartialEq, Eq, Structural, Debug)]
pub enum ResourceKind {
    Task,
    Notification,
    Message,
}

/// What happened to the resource.
#[derive(Clone, Copy, PartialEq, Eq, Structural, Debug)]
pub enum ChangeKind {
    Created,
    Updated,
    Deleted,
}

/// One change pushed to a user's live subscriptions. Ephemeral: nothing
/// here is persisted.
#[derive(Debug)]
pub struct Event {
    /// Routing key: the user whose subscriptions receive the event.
    pub user_id: u64,
    pub resource: ResourceKind,
    pub change: ChangeKind,
    /// Serialized body, opaque to the bus.
    pub payload: String,
}

impl Event {
    /// An identical copy, for delivery to several subscribers.
    pub fn duplicate(&self) -> (r: Event)
        ensures
            r == *self,
    {
        Event {
            user_id: self.user_id,
            resource: self.resource,
            change: self.change,
            payload: self.payload.clone(),
        }
    }
}

/// One subscription: a delivery channel for one user's events. Closed
/// subscriptions stay in place so that handles remain stable.
#[derive(Debug)]
pub struct Subscription {
    pub user_id: u64,
    pub open: bool,
    pub buffer: Vec<Event>,
}

/// What polling a subscription yields.
#[derive(Debug)]
pub enum Delivery {
    /// The next event, in publish order.
    Ready(Event),
    /// The subscription is live but nothing is buffered yet.
    Pending,
    /// The subscription has ended; no event will ever follow.
    Closed,
}

/// The mathematical state of one subscription.
pub ghost struct SubModel {
    pub user_id: u64,
    pub open: bool,
    pub buffer: Seq<Event>,
}

/// The effect of one publish on one subscription: untouched unless it is
/// live and routed to `user_id`; the event is dropped if the buffer is
/// full; otherwise it is appended behind everything already buffered.
pub open spec fn spec_deliver_one(m: SubModel, user_id: u64, e: Event, capacity: usize) -> SubModel {
    if m.user_id != user_id || !m.open {
        m
    } else if m.buffer.len() >= capacity {
        m
    } else {
        SubModel { user_id: m.user_id, open: m.open, buffer: m.buffer.push(e) }
    }
}

/// The registry after one publish: every subscription sees the event once.
pub open spec fn spec_published(ms: Seq<SubModel>, user_id: u64, e: Event, capacity: usize) -> Seq<SubModel> {
    Seq::new(ms.len(), |i: int| spec_deliver_one(ms[i], user_id, e, capacity))
}

/// A subscription after being closed: its sequence has ended and its
/// buffered backlog is discarded.
pub open spec fn spec_closed_sub(m: SubModel) -> SubModel {
    SubModel { user_id: m.user_id, open: false, buffer: Seq::empty() }
}

/// The registry after a forced close of every subscription of `user_id`.
pub open spec fn spec_closed_for_user(ms: Seq<SubModel>, user_id: u64) -> Seq<SubModel> {
    Seq::new(ms.len(), |i: int| if ms[i].user_id == user_id { spec_closed_sub(ms[i]) } else { ms[i] })
}

/// The subscriber registry: every subscription ever opened, indexed by
/// handle, with the per-subscription buffer capacity.
pub struct EventBus {
    pub subs: Vec<Subscription>,
    pub capacity: usize,
}

impl EventBus {
    /// The mathematical state of the registry.
    pub open spec fn model(&self) -> Seq<SubModel> {
        self.subs@.map(|i: int, s: Subscription| SubModel { user_id: s.user_id, open: s.open, buffer: s.buffer@ })
    }

    /// A bus with no subscriptions, whose buffers will hold `capacity`
    /// pending events each.
    pub fn new(capacity: usize) -> (b: EventBus)
        requires
            capacity >= 1,
        ensures
            b.model() == Seq::<SubModel>::empty(),
            b.capacity == capacity,
    {
        let b = EventBus { subs: Vec::new(), capacity };
        proof {
            assert(b.model() =~= Seq::<SubModel>::empty());
        }
        b
    }

    /// Open a live subscription for `user_id` with an empty buffer; the
    /// returned handle stays valid until the subscription is closed.
    pub fn subscribe(&mut self, user_id: u64) -> (h: usize)
        ensures
            h == old(self).model().len(),
            final(self).capacity == old(self).capacity,
            final(self).model() == old(self).model().push(
                (SubModel { user_id, open: true, buffer: Seq::empty() })),
    {
        let h = self.subs.len();
        self.subs.push(Subscription { user_id, open: true, buffer: Vec::new() });
        proof {
            assert(self.model() =~= old(self).model().push(
                SubModel { user_id, open: true, buffer: Seq::empty() }));
        }
        h
    }

    /// Deliver `e` once to every live subscription of `user_id`, in publish
    /// order, dropping it for subscribers whose buffer is full; never
    /// blocks and never reports failure to the publisher.
    pub fn publish(&mut self, user_id: u64, e: &Event)
        ensures
            final(self).capacity == old(self).capacity,
            final(self).model() == spec_published(old(self).model(), user_id, *e, old(self).capacity),
    {
        let ghost m0 = self.model();
        let n = self.subs.len();
        let mut i: usize = 0;
        while i < n
            invariant
                n == m0.len(),
                self.model().len() == n,
                self.capacity == old(self).capacity,
                forall|j: int| 0 <= j < i ==> self.model()[j]
                    == spec_published(m0, user_id, *e, old(self).capacity)[j],
                forall|j: int| i <= j < n ==> self.model()[j] == m0[j],
            decreases n - i,
        {
            let ghost mpre = self.model();
            proof {
                assert(mpre[i as int] == m0[i as int]);
            }
            if self.subs[i].open && self.subs[i].user_id == user_id
                && self.subs[i].buffer.len() < self.capacity {
                let copy = e.duplicate();
                self.subs[i].buffer.push(copy);
            }
            proof {
                let cap = old(self).capacity;
                let mp = spec_published(m0, user_id, *e, cap);
                assert forall|j: int| 0 <= j < i + 1 implies self.model()[j] == mp[j] by {
                    if j == i as int {
                        assert(self.model()[j] == spec_deliver_one(m0[j], user_id, *e, cap));
                        assert(mp[j] == spec_deliver_one(m0[j], user_id, *e, cap));
                    } else {
                        assert(self.model()[j] == mpre[j]);
                        assert(mpre[j] == mp[j]);
                    }
                }
                assert forall|j: int| i + 1 <= j < n implies self.model()[j] == m0[j] by {
                    assert(self.model()[j] == mpre[j]);
                }
            }
            i = i + 1;
        }
        proof {
            assert(self.model() =~= spec_published(m0, user_id, *e, old(self).capacity));
        }
    }

    /// Close one subscription: idempotent, safe from either the consumer
    /// side or a forced revocation; an unknown handle changes nothing.
    pub fn unsubscribe(&mut self, h: usize)
        ensures
            final(self).capacity == old(self).capacity,
            h < old(self).model().len() ==> final(self).model()
                == old(self).model().update(h as int, spec_closed_sub(old(self).model()[h as int])),
            h >= old(self).model().len() ==> final(self).model() == old(self).model(),
    {
        if h < self.subs.len() {
            let user_id = self.subs[h].user_id;
            self.subs[h] = Subscription { user_id, open: false, buffer: Vec::new() };
            proof {
                assert(self.model() =~= old(self).model().update(h as int,
                    spec_closed_sub(old(self).model()[h as int])));
            }
        }
    }

    /// Force every subscription of `user_id` to end, discarding any
    /// backlog — used on logout and on reuse-triggered revocation.
    pub fn close_all_for_user(&mut self, user_id: u64)
        ensures
            final(self).capacity == old(self).capacity,
            final(self).model() == spec_closed_for_user(old(self).model(), user_id),
    {
        let ghost m0 = self.model();
        let n = self.subs.len();
        let mut i: usize = 0;
        while i < n
            invariant
                n == m0.len(),
                self.model().len() == n,
                self.capacity == old(self).capacity,
                forall|j: int| 0 <= j < i ==> self.model()[j] == spec_closed_for_user(m0, user_id)[j],
                forall|j: int| i <= j < n ==> self.model()[j] == m0[j],
            decreases n - i,
        {
            proof {
                assert(self.model()[i as int] == m0[i as int]);
            }
            if self.subs[i].user_id == user_id {
                self.subs[i] = Subscription { user_id, open: false, buffer: Vec::new() };
            }
            i = i + 1;
        }
        proof {
            assert(self.model() =~= spec_closed_for_user(m0, user_id));
        }
    }

    /// Poll a subscription: the oldest buffered event in publish order, or
    /// `Pending` on a live empty buffer, or `Closed` once the subscription
    /// has ended (an unknown handle counts as closed).
    pub fn next_event(&mut self, h: usize) -> (d: Delivery)
        ensures
            final(self).capacity == old(self).capacity,
            h >= old(self).model().len() ==> {
                &&& d is Closed
                &&& final(self).model() == old(self).model()
            },
            h < old(self).model().len() ==> {
                let m = old(self).model()[h as int];
                if !m.open {
                    &&& d is Closed
                    &&& final(self).model() == old(self).model()
                } else if m.buffer.len() == 0 {
                    &&& d is Pending
                    &&& final(self).model() == old(self).model()
                } else {
                    &&& d == Delivery::Ready(m.buffer[0])
                    &&& final(self).model() == old(self).model().update(h as int,
                        (SubModel { user_id: m.user_id, open: m.open, buffer: m.buffer.skip(1) }))
                }
            },
    {
        if h >= self.subs.len() {
            return Delivery::Closed;
        }
        if !self.subs[h].open {
            return Delivery::Closed;
        }
        if self.subs[h].buffer.len() == 0 {
            return Delivery::Pending;
        }
        let e = self.subs[h].buffer.remove(0);
        proof {
            let m = old(self).model()[h as int];
            assert(self.model() =~= old(self).model().update(h as int,
                SubModel { user_id: m.user_id, open: m.open, buffer: m.buffer.skip(1) }));
            assert(m.buffer.subrange(1, m.buffer.len() as int) =~= m.buffer.skip(1));
        }
        Delivery::Ready(e)
    }
}

/// Publish order is preserved per subscription: publishing `e1` then `e2`
/// for one user leaves a live subscription of that user, with room for
/// both, holding `e1` immediately before `e2`, behind whatever was already
/// buffered; and a subscription of any other user is untouched by either
/// publish.
pub proof fn lemma_publish_order(ms: Seq<SubModel>, user_id: u64, e1: Event, e2: Event, capacity: usize, i: int)
    requires
        0 <= i < ms.len(),
    ensures
        ({
            let ms2 = spec_published(spec_published(ms, user_id, e1, capacity), user_id, e2, capacity);
            &&& (ms[i].user_id == user_id && ms[i].open && ms[i].buffer.len() + 2 <= capacity)
                ==> ms2[i].buffer == ms[i].buffer.push(e1).push(e2)
            &&& ms[i].user_id != user_id ==> ms2[i] == ms[i]
        }),
{
}

/// Publishes for different users are independent: each touches only its
/// own user's subscriptions, so performing them in either order leaves
/// the registry in the same state.
pub proof fn lemma_publish_commutes_across_users(ms: Seq<SubModel>, u1: u64, e1: Event, u2: u64, e2: Event, capacity: usize)
    requires
        u1 != u2,
    ensures
        spec_published(spec_published(ms, u1, e1, capacity), u2, e2, capacity)
            == spec_published(spec_published(ms, u2, e2, capacity), u1, e1, capacity),
{
    let a = spec_published(spec_published(ms, u1, e1, capacity), u2, e2, capacity);
    let b = spec_published(spec_published(ms, u2, e2, capacity), u1, e1, capacity);
    assert forall|i: int| 0 <= i < ms.len() implies a[i] == b[i] by {}
    assert(a =~= b);
}

/// Forced revocation ends delivery: once every subscription of a user is
/// closed, each of them is closed with an empty buffer, a later publish
/// for that user leaves it untouched, and polling it can only answer
/// `Closed` — no further event is ever delivered.
pub proof fn lemma_forced_close_stops_delivery(ms: Seq<SubModel>, user_id: u64, e: Event, capacity: usize, i: int)
    requires
        0 <= i < ms.len(),
        ms[i].user_id == user_id,
    ensures
        ({
            let ms1 = spec_closed_for_user(ms, user_id);
            &&& !ms1[i].open
            &&& ms1[i].buffer.len() == 0
            &&& spec_published(ms1, user_id, e, capacity)[i] == ms1[i]
        }),
{
}

} // verus!
