//! The ordered, multi-subscriber, bounded-history message backbone.
//!
//! One [`EventBus`] value owns the shared core: the capped replay log and
//! the subscriber registry. Lightweight [`BusHandle`] views stamp a
//! different broker namespace onto events they publish while sharing the
//! same log and subscribers, which is how `shallow_clone` works.

use vstd::prelude::*;

use crate::event::{Event, EventPayload, EventV};

verus! {

/// Bound on the replay log used by [`EventBus::new`].
pub const DEFAULT_EVENT_LOG_CAPACITY: usize = 100;

/// The views of a sequence of published events.
pub open spec fn events_of(s: Seq<Event>) -> Seq<EventV> {
    s.map_values(|e: Event| e@)
}

/// The at-most-`capacity` most recent entries of `history`, oldest first.
pub open spec fn recent_events(history: Seq<EventV>, capacity: int) -> Seq<EventV> {
    if history.len() <= capacity {
        history
    } else {
        history.skip(history.len() - capacity)
    }
}

/// One subscriber's delivery state: the queue of events published since it
/// subscribed that it has not yet consumed, plus the ghost record of what it
/// has consumed and when it joined.
struct BusSubscriber {
    pending: Vec<Event>,
    received: Ghost<Seq<EventV>>,
    joined: Ghost<int>,
}

impl BusSubscriber {
    spec fn pending_v(self) -> Seq<EventV> {
        events_of(self.pending@)
    }

    spec fn wf(self, history: Seq<EventV>) -> bool {
        &&& 0 <= self.joined@ <= history.len()
        &&& self.received@ + self.pending_v() == history.skip(self.joined@)
    }
}

/// A lightweight publishing view of a bus: shares the bus's log and
/// subscriber set but stamps its own broker namespace on what it publishes.
#[derive(Debug)]
pub struct BusHandle {
    broker_id: String,
}

impl BusHandle {
    /// The broker namespace this handle stamps onto events.
    pub closed spec fn id(self) -> Seq<char> {
        self.broker_id@
    }
}

/// Append-only, multi-subscriber broadcast channel plus a capped-length
/// replay log, namespaced per broker.
pub struct EventBus {
    broker_id: String,
    pod_id: String,
    capacity: usize,
    log: Vec<Event>,
    subscribers: Vec<BusSubscriber>,
    history: Ghost<Seq<EventV>>,
}

impl EventBus {
    /// Every event ever published on this bus, in publish order.
    pub closed spec fn history(self) -> Seq<EventV> {
        self.history@
    }

    /// The broker namespace stamped by [`EventBus::publish`].
    pub closed spec fn id(self) -> Seq<char> {
        self.broker_id@
    }

    /// The pod identifier stamped on every event.
    pub closed spec fn pod(self) -> Seq<char> {
        self.pod_id@
    }

    /// The replay log bound K.
    pub closed spec fn cap(self) -> int {
        self.capacity as int
    }

    /// The views of the replay log entries, oldest first.
    pub closed spec fn log_view(self) -> Seq<EventV> {
        events_of(self.log@)
    }

    /// How many subscribers have been registered.
    pub closed spec fn num_subscribers(self) -> int {
        self.subscribers@.len() as int
    }

    /// Length of the history at the moment subscriber `i` subscribed.
    pub closed spec fn sub_joined(self, i: int) -> int {
        self.subscribers@[i].joined@
    }

    /// What subscriber `i` has consumed so far, in delivery order.
    pub closed spec fn sub_received(self, i: int) -> Seq<EventV> {
        self.subscribers@[i].received@
    }

    /// What has been delivered to subscriber `i` but not yet consumed.
    pub closed spec fn sub_pending(self, i: int) -> Seq<EventV> {
        self.subscribers@[i].pending_v()
    }

    /// The bus invariant: the log holds exactly the most recent events, and
    /// every subscriber's consumed-plus-queued events are exactly the events
    /// published since it subscribed, in publish order.
    pub closed spec fn wf(self) -> bool {
        &&& self.capacity >= 1
        &&& self.log_view() == recent_events(self.history@, self.capacity as int)
        &&& forall|i: int|
            0 <= i < self.subscribers@.len() ==> (#[trigger] self.subscribers@[i]).wf(
                self.history@,
            )
    }

    /// A fresh bus scoped to one pod: empty replay log, no subscribers.
    pub fn new(seed_broker_id: String, pod_id: String) -> (res: EventBus)
        ensures
            res.wf(),
            res.history() == Seq::<EventV>::empty(),
            res.num_subscribers() == 0,
            res.id() == seed_broker_id@,
            res.pod() == pod_id@,
            res.cap() == DEFAULT_EVENT_LOG_CAPACITY as int,
    {
        Self::with_capacity(seed_broker_id, pod_id, DEFAULT_EVENT_LOG_CAPACITY)
    }

    /// A fresh bus with an explicit replay-log bound `capacity`.
    pub fn with_capacity(seed_broker_id: String, pod_id: String, capacity: usize) -> (res:
        EventBus)
        requires
            capacity >= 1,
        ensures
            res.wf(),
            res.history() == Seq::<EventV>::empty(),
            res.num_subscribers() == 0,
            res.id() == seed_broker_id@,
            res.pod() == pod_id@,
            res.cap() == capacity as int,
    {
        let res = EventBus {
            broker_id: seed_broker_id,
            pod_id,
            capacity,
            log: Vec::new(),
            subscribers: Vec::new(),
            history: Ghost(Seq::empty()),
        };
        proof {
            assert(res.log_view() =~= recent_events(res.history@, res.capacity as int));
        }
        res
    }

    /// A lightweight view sharing this bus but stamping `new_broker_id`
    /// (when given) onto events published through it.
    pub fn shallow_clone(&self, new_broker_id: Option<String>) -> (handle: BusHandle)
        ensures
            handle.id() == match new_broker_id {
                Option::Some(id) => id@,
                Option::None => self.id(),
            },
    {
        match new_broker_id {
            Option::Some(id) => BusHandle { broker_id: id },
            Option::None => BusHandle { broker_id: self.broker_id.clone() },
        }
    }

    /// Publish under the bus's own broker namespace.
    pub fn publish(&mut self, payload: EventPayload, timestamp: u64)
        requires
            old(self).wf(),
        ensures
            final(self).wf(),
            final(self).history() == old(self).history().push(
                EventV {
                    broker_id: old(self).id(),
                    pod_id: old(self).pod(),
                    timestamp,
                    payload: payload@,
                },
            ),
            final(self).id() == old(self).id(),
            final(self).pod() == old(self).pod(),
            final(self).cap() == old(self).cap(),
            final(self).num_subscribers() == old(self).num_subscribers(),
            subs_extended_upto(
                *old(self),
                *final(self),
                old(self).num_subscribers(),
                final(self).history().last(),
            ),
    {
        let ghost evv = EventV {
            broker_id: self.broker_id@,
            pod_id: self.pod_id@,
            timestamp,
            payload: payload@,
        };
        let broker_id = self.broker_id.clone();
        let pod_id = self.pod_id.clone();
        let event = Event { broker_id, pod_id, timestamp, payload };
        proof {
            assert(event@ == evv);
        }
        self.deliver(event);
        proof {
            assert(self.history@.last() == evv);
        }
    }

    /// Publish through a handle: the same log and subscribers as the bus,
    /// but the event carries the handle's broker namespace.
    pub fn publish_via(&mut self, handle: &BusHandle, payload: EventPayload, timestamp: u64)
        requires
            old(self).wf(),
        ensures
            final(self).wf(),
            final(self).history() == old(self).history().push(
                EventV {
                    broker_id: handle.id(),
                    pod_id: old(self).pod(),
                    timestamp,
                    payload: payload@,
                },
            ),
            final(self).id() == old(self).id(),
            final(self).pod() == old(self).pod(),
            final(self).cap() == old(self).cap(),
            final(self).num_subscribers() == old(self).num_subscribers(),
            subs_extended_upto(
                *old(self),
                *final(self),
                old(self).num_subscribers(),
                final(self).history().last(),
            ),
    {
        let ghost evv = EventV {
            broker_id: handle.broker_id@,
            pod_id: self.pod_id@,
            timestamp,
            payload: payload@,
        };
        let broker_id = handle.broker_id.clone();
        let pod_id = self.pod_id.clone();
        let event = Event { broker_id, pod_id, timestamp, payload };
        proof {
            assert(event@ == evv);
        }
        self.deliver(event);
        proof {
            assert(self.history@.last() == evv);
        }
    }

    /// Append `event` to the log (evicting the oldest entry at capacity) and
    /// queue it for every live subscriber.
    fn deliver(&mut self, event: Event)
        requires
            old(self).wf(),
        ensures
            final(self).wf(),
            final(self).history() == old(self).history().push(event@),
            final(self).id() == old(self).id(),
            final(self).pod() == old(self).pod(),
            final(self).cap() == old(self).cap(),
            final(self).num_subscribers() == old(self).num_subscribers(),
            subs_extended_upto(*old(self), *final(self), old(self).num_subscribers(), event@),
    {
        let ghost old_history = self.history@;
        let ghost old_log = self.log@;
        let ghost cap = self.capacity as int;
        let ghost ev = event@;
        proof {
            assert(events_of(old_log).len() == old_log.len());
        }
        if self.log.len() >= self.capacity {
            self.log.remove(0);
            proof {
                old_log.remove_ensures(0);
            }
        }
        self.log.push(event.clone());
        proof {
            self.history@ = old_history.push(ev);
            let newlog = self.log@;
            let newhist = self.history@;
            assert(events_of(old_log) == recent_events(old_history, cap));
            assert forall|j: int|
                0 <= j < events_of(newlog).len() implies events_of(newlog)[j] == recent_events(
                newhist,
                cap,
            )[j] by {
                assert(events_of(newlog)[j] == newlog[j]@);
                if old_log.len() >= cap {
                    assert(old_log.len() == cap);
                    assert(old_history.len() >= cap);
                    if j < cap - 1 {
                        assert(newlog[j] == old_log.remove(0)[j]);
                        assert(old_log.remove(0)[j] == old_log[j + 1]);
                        assert(old_log[j + 1]@ == events_of(old_log)[j + 1]);
                        assert(recent_events(old_history, cap)[j + 1] == old_history[old_history.len()
                            - cap + j + 1]);
                        assert(recent_events(newhist, cap)[j] == newhist[newhist.len() - cap + j]);
                        assert(newhist[newhist.len() - cap + j] == old_history[old_history.len() - cap
                            + j + 1]);
                    } else {
                        assert(newlog[j]@ == ev);
                        assert(recent_events(newhist, cap)[j] == newhist[newhist.len() - 1]);
                    }
                } else {
                    assert(old_history.len() == old_log.len());
                    if j < old_log.len() {
                        assert(newlog[j] == old_log[j]);
                        assert(old_log[j]@ == events_of(old_log)[j]);
                        assert(recent_events(old_history, cap)[j] == old_history[j]);
                        assert(recent_events(newhist, cap)[j] == newhist[j]);
                    } else {
                        assert(newlog[j]@ == ev);
                    }
                }
            }
            assert(events_of(newlog).len() == recent_events(newhist, cap).len()) by {
                if old_log.len() >= cap {
                    assert(old_log.len() == cap);
                    assert(old_history.len() >= cap);
                }
            }
            assert(events_of(newlog) =~= recent_events(newhist, cap));
        }
        Self::fan_out(&mut self.subscribers, &event);
        proof {
            assert forall|i: int| 0 <= i < self.subscribers@.len() implies (
            #[trigger] self.subscribers@[i]).wf(self.history@) by {
                let sub = self.subscribers@[i];
                let prev = old(self).subscribers@[i];
                let j = prev.joined@;
                assert(prev.wf(old_history));
                assert(sub.pending_v() == prev.pending_v().push(ev));
                assert(prev.received@ + prev.pending_v() == old_history.skip(j));
                assert(prev.received@ + prev.pending_v().push(ev) =~= (prev.received@
                    + prev.pending_v()).push(ev));
                assert(old_history.skip(j).push(ev) =~= old_history.push(ev).skip(j));
                assert(sub.received@ + sub.pending_v() == self.history@.skip(sub.joined@));
            }
        }
    }

    /// Append a copy of `event` to every subscriber's queue.
    fn fan_out(subs: &mut Vec<BusSubscriber>, event: &Event)
        ensures
            final(subs)@.len() == old(subs)@.len(),
            forall|i: int|
                0 <= i < old(subs)@.len() ==> (#[trigger] final(subs)@[i]).joined@ == old(subs)@[i].joined@ && final(subs)@[i].received@ == old(subs)@[i].received@ && final(subs)@[i].pending_v() == old(subs)@[i].pending_v().push(event@),
    {
        let n = subs.len();
        let mut i: usize = 0;
        while i < n
            invariant
                i <= n,
                n == subs@.len(),
                old(subs)@.len() == n,
                forall|k: int|
                    i <= k < n ==> #[trigger] subs@[k] == old(subs)@[k],
                forall|k: int|
                    0 <= k < i ==> (#[trigger] subs@[k]).joined@ == old(subs)@[k].joined@
                        && subs@[k].received@ == old(subs)@[k].received@ && subs@[k].pending_v()
                        == old(subs)@[k].pending_v().push(event@),
            decreases n - i,
        {
            let ghost prev_pending = subs@[i as int].pending@;
            subs[i].pending.push(event.clone());
            proof {
                assert(subs@[i as int].pending_v() =~= events_of(prev_pending).push(event@));
            }
            i += 1;
        }
    }

    /// Register a new subscriber; it will observe every event published
    /// from this point forward, in publish order.
    pub fn subscribe(&mut self) -> (sub_id: usize)
        requires
            old(self).wf(),
        ensures
            final(self).wf(),
            sub_id as int == old(self).num_subscribers(),
            final(self).num_subscribers() == old(self).num_subscribers() + 1,
            final(self).history() == old(self).history(),
            final(self).id() == old(self).id(),
            final(self).pod() == old(self).pod(),
            final(self).cap() == old(self).cap(),
            final(self).sub_joined(sub_id as int) == old(self).history().len(),
            final(self).sub_received(sub_id as int) == Seq::<EventV>::empty(),
            final(self).sub_pending(sub_id as int) == Seq::<EventV>::empty(),
            subs_unchanged_upto(*old(self), *final(self), old(self).num_subscribers()),
    {
        let sub_id = self.subscribers.len();
        let ghost joined = self.history@.len() as int;
        self.subscribers.push(
            BusSubscriber { pending: Vec::new(), received: Ghost(Seq::empty()), joined: Ghost(joined) },
        );
        proof {
            let sub = self.subscribers@[sub_id as int];
            assert(sub.pending_v() =~= Seq::<EventV>::empty());
            assert(sub.received@ + sub.pending_v() =~= self.history@.skip(joined));
        }
        sub_id
    }

    /// Hand subscriber `sub_id` its next event, if one is queued. One
    /// subscriber's consumption never affects another's.
    pub fn next_event(&mut self, sub_id: usize) -> (res: Option<Event>)
        requires
            old(self).wf(),
            (sub_id as int) < old(self).num_subscribers(),
        ensures
            final(self).wf(),
            final(self).history() == old(self).history(),
            final(self).id() == old(self).id(),
            final(self).pod() == old(self).pod(),
            final(self).cap() == old(self).cap(),
            final(self).num_subscribers() == old(self).num_subscribers(),
            final(self).sub_joined(sub_id as int) == old(self).sub_joined(sub_id as int),
            old(self).sub_pending(sub_id as int).len() == 0 ==> res is None && final(self).sub_received(sub_id as int) == old(self).sub_received(sub_id as int) && final(self).sub_pending(sub_id as int) == old(self).sub_pending(sub_id as int),
            old(self).sub_pending(sub_id as int).len() > 0 ==> (res matches Some(e) && e@ == old(self).sub_pending(sub_id as int).first() && final(self).sub_received(sub_id as int) == old(self).sub_received(sub_id as int).push(e@) && final(self).sub_pending(sub_id as int) == old(self).sub_pending(sub_id as int).drop_first()),
            forall|i: int|
                0 <= i < old(self).num_subscribers() && i != sub_id as int ==> #[trigger] final(self).sub_joined(i) == old(self).sub_joined(i) && final(self).sub_received(i) == old(self).sub_received(i) && final(self).sub_pending(i) == old(self).sub_pending(i),
    {
        let sub = &mut self.subscribers[sub_id];
        if sub.pending.len() == 0 {
            return Option::None;
        }
        let event = sub.pending.remove(0);
        proof {
            sub.received@ = sub.received@.push(event@);
        }
        proof {
            let i = sub_id as int;
            let cur = self.subscribers@[i];
            let prev = old(self).subscribers@[i];
            assert(prev.wf(old(self).history@));
            assert(cur.pending_v() =~= prev.pending_v().drop_first());
            assert(prev.pending_v().first() == event@);
            assert(cur.received@ + cur.pending_v() =~= self.history@.skip(cur.joined@));
        }
        Option::Some(event)
    }

    /// Synchronous read-only view of the replay log for diagnostics; does
    /// not consume from any subscriber's stream.
    pub fn inspect_log(&self) -> (log: &Vec<Event>)
        ensures
            events_of(log@) == self.log_view(),
    {
        &self.log
    }
}

/// Every subscriber `i < n` keeps its join point, its consumed events and
/// its queue from `pre` to `post`.
pub open spec fn subs_unchanged_upto(pre: EventBus, post: EventBus, n: int) -> bool {
    forall|i: int|
        #![trigger post.sub_joined(i)]
        #![trigger post.sub_received(i)]
        #![trigger post.sub_pending(i)]
        0 <= i < n ==> post.sub_joined(i) == pre.sub_joined(i) && post.sub_received(i)
            == pre.sub_received(i) && post.sub_pending(i) == pre.sub_pending(i)
}

/// Every subscriber `i < n` keeps its join point and its consumed events
/// from `pre` to `post`, and has exactly `ev` appended to its queue.
pub open spec fn subs_extended_upto(pre: EventBus, post: EventBus, n: int, ev: EventV) -> bool {
    forall|i: int|
        #![trigger post.sub_joined(i)]
        #![trigger post.sub_received(i)]
        #![trigger post.sub_pending(i)]
        0 <= i < n ==> post.sub_joined(i) == pre.sub_joined(i) && post.sub_received(i)
            == pre.sub_received(i) && post.sub_pending(i) == pre.sub_pending(i).push(ev)
}

/// Subscribers `lo <= i < hi` of `bus` are fresh: they joined when the
/// history was `joined_at` entries long, and have consumed nothing and have
/// nothing queued.
pub open spec fn subs_fresh_between(bus: EventBus, lo: int, hi: int, joined_at: int) -> bool {
    forall|i: int|
        #![trigger bus.sub_joined(i)]
        #![trigger bus.sub_received(i)]
        #![trigger bus.sub_pending(i)]
        lo <= i < hi ==> bus.sub_joined(i) == joined_at && bus.sub_received(i) == Seq::<
            EventV,
        >::empty() && bus.sub_pending(i) == Seq::<EventV>::empty()
}

/// The subscriber count is non-negative and every subscriber's join point
/// lies within the history.
pub proof fn lemma_subscriber_bounds(bus: EventBus)
    requires
        bus.wf(),
    ensures
        bus.num_subscribers() >= 0,
        forall|i: int|
            0 <= i < bus.num_subscribers() ==> 0 <= #[trigger] bus.sub_joined(i)
                <= bus.history().len(),
{
}

/// Subscriber-state preservation composes across two bus mutations.
pub proof fn lemma_subs_unchanged_upto_trans(a: EventBus, b: EventBus, c: EventBus, n: int, m: int)
    requires
        n <= m,
        subs_unchanged_upto(a, b, n),
        subs_unchanged_upto(b, c, m),
    ensures
        subs_unchanged_upto(a, c, n),
{
    assert forall|i: int|
        0 <= i < n implies #[trigger] c.sub_joined(i) == a.sub_joined(i) && c.sub_received(i)
        == a.sub_received(i) && c.sub_pending(i) == a.sub_pending(i) by {
        assert(b.sub_received(i) == a.sub_received(i));
        assert(b.sub_pending(i) == a.sub_pending(i));
        assert(b.sub_joined(i) == a.sub_joined(i));
        assert(c.sub_joined(i) == b.sub_joined(i));
    }
}

/// Law: the replay log never holds more than K entries, and after any number
/// of publishes it holds exactly the K most recent, in publish order.
pub proof fn lemma_replay_log_bounded(bus: EventBus)
    requires
        bus.wf(),
    ensures
        bus.log_view().len() <= bus.cap(),
        bus.log_view() == recent_events(bus.history(), bus.cap()),
{
}

/// Law: every subscriber observes exactly the events published after it
/// subscribed, in publish order: what it has consumed followed by what is
/// still queued for it is precisely the history since it joined. A
/// subscriber that joined before the first publish therefore observes every
/// event, and one that joined after publish `k` observes only the later ones.
pub proof fn lemma_subscriber_observes_suffix_in_order(bus: EventBus, i: int)
    requires
        bus.wf(),
        0 <= i < bus.num_subscribers(),
    ensures
        0 <= bus.sub_joined(i) <= bus.history().len(),
        bus.sub_received(i) + bus.sub_pending(i) == bus.history().skip(bus.sub_joined(i)),
{
    assert(bus.history().skip(bus.sub_joined(i)).len() == bus.history().len() - bus.sub_joined(
        i,
    ));
}

} // verus!
