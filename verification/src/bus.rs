//! Notification bus: an in-process fan-out of textual notifications to
//! the connected event-stream clients, filtered by target user, plus
//! the heartbeat rule and the shutdown-coordination step every stream
//! takes. Delivery is at-most-once and best-effort: each subscriber
//! owns a bounded buffer, and a subscriber that lags loses its oldest
//! entries rather than stalling the bus or growing without bound.

use vstd::prelude::*;

use crate::claims::UserId;

verus! {

/// Whether a notification aimed at `target` belongs to a connection
/// authenticated as `subscriber`: untargeted notifications go to
/// everyone, targeted ones only to that user's connections.
pub open spec fn spec_should_deliver(target: Option<UserId>, subscriber: Option<UserId>) -> bool {
    match target {
        None => true,
        Some(t) => subscriber == Some(t),
    }
}

/// Decides whether this connection receives a notification with this
/// target.
pub fn should_deliver(target: Option<UserId>, subscriber: Option<UserId>) -> (r: bool)
    ensures
        r == spec_should_deliver(target, subscriber),
{
    match target {
        None => true,
        Some(t) => match subscriber {
            Some(s) => s.0 == t.0,
            None => false,
        },
    }
}

/// The heartbeat task ticks on a fixed interval but emits only while
/// somebody is listening, so idle processes do not chatter.
pub fn should_emit_heartbeat(receiver_count: usize) -> (r: bool)
    ensures
        r == (receiver_count > 0),
{
    receiver_count > 0
}

/// One subscribed connection of the bus model.
pub struct BusSubscriber {
    /// The connection's authenticated user, if any.
    pub filter: Option<UserId>,
    /// Delivered texts this subscriber has not read yet, oldest first.
    pub pending: Vec<String>,
    /// How many entries were dropped because the buffer was full.
    pub lagged: u64,
}

#[verifier::ext_equal]
pub struct SubView {
    pub filter: Option<UserId>,
    pub pending: Seq<Seq<char>>,
    pub lagged: u64,
}

impl View for BusSubscriber {
    type V = SubView;

    open spec fn view(&self) -> SubView {
        SubView {
            filter: self.filter,
            pending: self.pending@.map_values(|s: String| s@),
            lagged: self.lagged,
        }
    }
}

/// The bus: every currently subscribed connection, each with its own
/// bounded buffer of one shared capacity.
pub struct NotificationBus {
    pub capacity: usize,
    pub subscribers: Vec<BusSubscriber>,
}

#[verifier::ext_equal]
pub struct BusView {
    pub capacity: usize,
    pub subs: Seq<SubView>,
}

impl View for NotificationBus {
    type V = BusView;

    open spec fn view(&self) -> BusView {
        BusView {
            capacity: self.capacity,
            subs: self.subscribers@.map_values(|s: BusSubscriber| s@),
        }
    }
}

/// What publishing does to one subscriber: a matching subscriber with
/// room gets the text appended; a matching subscriber without room
/// loses its oldest entry to make room and counts the loss; everyone
/// else keeps its state.
pub open spec fn spec_deliver_to(
    s: SubView,
    capacity: usize,
    target: Option<UserId>,
    text: Seq<char>,
) -> SubView {
    if spec_should_deliver(target, s.filter) {
        if s.pending.len() < capacity {
            SubView { pending: s.pending.push(text), ..s }
        } else {
            SubView {
                pending: s.pending.skip(1).push(text),
                lagged: if s.lagged < u64::MAX {
                    (s.lagged + 1) as u64
                } else {
                    s.lagged
                },
                ..s
            }
        }
    } else {
        s
    }
}

pub open spec fn spec_publish(b: BusView, target: Option<UserId>, text: Seq<char>) -> BusView {
    BusView {
        subs: b.subs.map_values(|s: SubView| spec_deliver_to(s, b.capacity, target, text)),
        ..b
    }
}

/// Every buffer stays within the shared capacity.
pub open spec fn bus_wf(b: BusView) -> bool {
    b.capacity >= 1 && forall|i: int| 0 <= i < b.subs.len() ==> #[trigger] b.subs[i].pending.len()
        <= b.capacity
}

fn deliver_to(s: BusSubscriber, capacity: usize, target: Option<UserId>, text: &str) -> (r:
    BusSubscriber)
    requires
        capacity >= 1,
        s@.pending.len() <= capacity,
    ensures
        r@ == spec_deliver_to(s@, capacity, target, text@),
        r@.pending.len() <= capacity,
{
    let BusSubscriber { filter, mut pending, lagged } = s;
    if should_deliver(target, filter) {
        let mut lagged: u64 = lagged;
        if pending.len() >= capacity {
            pending.remove(0);
            if lagged < u64::MAX {
                lagged = lagged + 1;
            }
            pending.push(text.to_owned());
            proof {
                assert(pending@.map_values(|s: String| s@) =~= s@.pending.skip(1).push(text@));
            }
            BusSubscriber { filter, pending, lagged }
        } else {
            pending.push(text.to_owned());
            proof {
                assert(pending@.map_values(|s: String| s@) =~= s@.pending.push(text@));
            }
            BusSubscriber { filter, pending, lagged }
        }
    } else {
        BusSubscriber { filter, pending, lagged }
    }
}

impl NotificationBus {
    /// A fresh bus with no subscribers.
    pub fn new(capacity: usize) -> (r: NotificationBus)
        requires
            capacity >= 1,
        ensures
            r@.capacity == capacity,
            r@.subs == Seq::<SubView>::empty(),
            bus_wf(r@),
    {
        let r = NotificationBus { capacity, subscribers: Vec::new() };
        proof {
            assert(r@.subs =~~= Seq::<SubView>::empty());
        }
        r
    }

    /// A new connection subscribes: it starts with an empty buffer, so
    /// it sees nothing that was published before it arrived.
    pub fn subscribe(&mut self, filter: Option<UserId>) -> (idx: usize)
        requires
            bus_wf(old(self)@),
        ensures
            bus_wf(final(self)@),
            final(self)@.capacity == old(self)@.capacity,
            idx == old(self)@.subs.len(),
            final(self)@.subs == old(self)@.subs.push(
                SubView { filter, pending: Seq::empty(), lagged: 0 },
            ),
    {
        let idx = self.subscribers.len();
        self.subscribers.push(BusSubscriber { filter, pending: Vec::new(), lagged: 0 });
        proof {
            assert(self@.subs =~~= old(self)@.subs.push(
                SubView { filter, pending: Seq::empty(), lagged: 0 },
            ));
        }
        idx
    }

    /// A connection leaves; the others keep their places relative to
    /// each other.
    pub fn unsubscribe(&mut self, idx: usize)
        requires
            bus_wf(old(self)@),
            idx < old(self)@.subs.len(),
        ensures
            bus_wf(final(self)@),
            final(self)@.capacity == old(self)@.capacity,
            final(self)@.subs == old(self)@.subs.remove(idx as int),
    {
        self.subscribers.remove(idx);
        proof {
            assert(self@.subs =~~= old(self)@.subs.remove(idx as int));
        }
    }

    /// Fans a notification out to every current subscriber it belongs
    /// to, dropping the oldest entry of any full buffer.
    pub fn publish(&mut self, target: Option<UserId>, text: &str)
        requires
            bus_wf(old(self)@),
        ensures
            bus_wf(final(self)@),
            final(self)@ == spec_publish(old(self)@, target, text@),
    {
        let capacity = self.capacity;
        let mut rest: Vec<BusSubscriber> = Vec::new();
        core::mem::swap(&mut rest, &mut self.subscribers);
        let n = rest.len();
        proof {
            assert forall|i: int| 0 <= i < n implies rest@[i]@ == old(self)@.subs[i] by {
                assert(old(self)@.subs[i] == old(self).subscribers@.map_values(
                    |s: BusSubscriber| s@,
                )[i]);
            };
        }
        let mut k: usize = 0;
        while k < n
            invariant
                capacity == old(self)@.capacity,
                capacity >= 1,
                bus_wf(old(self)@),
                n == old(self)@.subs.len(),
                0 <= k <= n,
                rest@.len() == n - k,
                self.subscribers@.len() == k,
                self.capacity == capacity,
                forall|i: int| 0 <= i < n - k ==> #[trigger] rest@[i]@ == old(self)@.subs[k + i],
                forall|i: int|
                    0 <= i < k ==> #[trigger] self.subscribers@[i]@ == spec_deliver_to(
                        old(self)@.subs[i],
                        capacity,
                        target,
                        text@,
                    ),
            decreases n - k,
        {
            let s = rest.remove(0);
            proof {
                assert(s@ == old(self)@.subs[k as int]);
                assert(old(self)@.subs[k as int].pending.len() <= capacity);
            }
            let s2 = deliver_to(s, capacity, target, text);
            self.subscribers.push(s2);
            k = k + 1;
            proof {
                assert forall|i: int| 0 <= i < n - k implies #[trigger] rest@[i]@ == old(
                    self,
                )@.subs[k + i] by {
                };
            }
        }
        proof {
            let target_subs = spec_publish(old(self)@, target, text@).subs;
            assert forall|i: int| 0 <= i < n implies self.subscribers@.map_values(
                |s: BusSubscriber| s@,
            )[i] == target_subs[i] by {
                assert(self.subscribers@[i]@ == spec_deliver_to(
                    old(self)@.subs[i],
                    capacity,
                    target,
                    text@,
                ));
            };
            assert(self@.subs =~~= target_subs);
        }
    }

    /// The subscriber reads its oldest pending text, if it has one.
    pub fn poll(&mut self, idx: usize) -> (r: Option<String>)
        requires
            bus_wf(old(self)@),
            idx < old(self)@.subs.len(),
        ensures
            bus_wf(final(self)@),
            final(self)@.capacity == old(self)@.capacity,
            ({
                let sub = old(self)@.subs[idx as int];
                if sub.pending.len() == 0 {
                    r is None && final(self)@ == old(self)@
                } else {
                    &&& r matches Some(text) && text@ == sub.pending[0]
                    &&& final(self)@.subs == old(self)@.subs.update(
                        idx as int,
                        SubView { pending: sub.pending.skip(1), ..sub },
                    )
                }
            }),
    {
        let sub = rest_take(&mut self.subscribers, idx);
        let BusSubscriber { filter, mut pending, lagged } = sub;
        if pending.len() == 0 {
            let put_back = BusSubscriber { filter, pending, lagged };
            rest_put(&mut self.subscribers, idx, put_back);
            proof {
                assert(self@.subs =~~= old(self)@.subs);
            }
            None
        } else {
            let text = pending.remove(0);
            let put_back = BusSubscriber { filter, pending, lagged };
            rest_put(&mut self.subscribers, idx, put_back);
            proof {
                let sub0 = old(self)@.subs[idx as int];
                assert(put_back@.pending =~= sub0.pending.skip(1));
                assert(self@.subs =~~= old(self)@.subs.update(
                    idx as int,
                    SubView { pending: sub0.pending.skip(1), ..sub0 },
                ));
            }
            Some(text)
        }
    }
}

/// Takes the element at `idx` out of the vector.
fn rest_take(v: &mut Vec<BusSubscriber>, idx: usize) -> (r: BusSubscriber)
    requires
        idx < old(v)@.len(),
    ensures
        r == old(v)@[idx as int],
        final(v)@ == old(v)@.remove(idx as int),
{
    v.remove(idx)
}

/// Puts an element back at `idx`.
fn rest_put(v: &mut Vec<BusSubscriber>, idx: usize, s: BusSubscriber)
    requires
        idx <= old(v)@.len(),
    ensures
        final(v)@ == old(v)@.insert(idx as int, s),
{
    v.insert(idx, s)
}

/// A subscriber that was already subscribed when a matching
/// notification was published finds its text at the end of that
/// subscriber's buffer; a subscriber whose user the notification does
/// not address keeps its buffer untouched.
pub proof fn lemma_publish_delivery(b: BusView, i: int, target: Option<UserId>, text: Seq<char>)
    requires
        bus_wf(b),
        0 <= i < b.subs.len(),
    ensures
        spec_should_deliver(target, b.subs[i].filter) ==> {
            let p = spec_publish(b, target, text).subs[i].pending;
            p.len() >= 1 && p.last() == text
        },
        !spec_should_deliver(target, b.subs[i].filter) ==> spec_publish(b, target, text).subs[i]
            == b.subs[i],
{
}

/// No replay: a connection that subscribes after a notification was
/// published starts empty, so it never sees that notification.
pub proof fn lemma_subscribe_no_replay(b: BusView, target: Option<UserId>, text: Seq<char>, filter: Option<UserId>)
    requires
        bus_wf(b),
    ensures
        ({
            let after = spec_publish(b, target, text).subs.push(
                SubView { filter, pending: Seq::empty(), lagged: 0 },
            );
            after.last().pending.len() == 0
        }),
{
}

/// Per-subscriber order: two notifications a subscriber with room
/// receives land in its buffer in the order they were published. (No
/// order is promised across different subscribers' reading rates.)
pub proof fn lemma_per_subscriber_order(
    b: BusView,
    i: int,
    t1: Option<UserId>,
    x1: Seq<char>,
    t2: Option<UserId>,
    x2: Seq<char>,
)
    requires
        bus_wf(b),
        0 <= i < b.subs.len(),
        spec_should_deliver(t1, b.subs[i].filter),
        spec_should_deliver(t2, b.subs[i].filter),
        b.subs[i].pending.len() + 2 <= b.capacity,
    ensures
        spec_publish(spec_publish(b, t1, x1), t2, x2).subs[i].pending == b.subs[i].pending.push(
            x1,
        ).push(x2),
{
}

/// Lag loses the oldest entry, never space: a full buffer keeps its
/// length on delivery, so memory stays bounded, and what leaves is the
/// front entry.
pub proof fn lemma_lag_drops_oldest(b: BusView, i: int, target: Option<UserId>, text: Seq<char>)
    requires
        bus_wf(b),
        0 <= i < b.subs.len(),
        spec_should_deliver(target, b.subs[i].filter),
        b.subs[i].pending.len() == b.capacity,
    ensures
        ({
            let p = spec_publish(b, target, text).subs[i].pending;
            p.len() == b.capacity && p == b.subs[i].pending.skip(1).push(text)
        }),
{
    assert(b.subs[i].pending.skip(1).push(text).len() == b.capacity);
}

} // verus!
