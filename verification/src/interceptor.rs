//! The broker-call interceptor: a decorator that brackets every
//! broker-facing call with one invoked event before it and exactly one
//! succeeded or failed event after it, on the bus view namespaced to that
//! broker, and yields exactly one metrics observation per call. It retries
//! nothing and translates nothing; handing the observation to the injected
//! metrics recorder is the owning task's work.

use vstd::prelude::*;

use crate::event::{EventPayload, EventV, PayloadV};
use crate::event_bus::{subs_extended_upto, BusHandle, EventBus};

verus! {

/// One metrics observation for a bracketed broker call, ready for the
/// injected metrics recorder: the call name, the outcome, and the latency
/// between the invoked and the outcome timestamps.
#[derive(Debug)]
pub struct MetricsObservation {
    pub call: String,
    pub success: bool,
    pub latency: u64,
}

/// The observer wrapped around one broker's capability surface.
pub struct BrokerCallInterceptor {
    handle: BusHandle,
}

impl BrokerCallInterceptor {
    /// The broker namespace this interceptor reports under.
    pub closed spec fn id(self) -> Seq<char> {
        self.handle.id()
    }

    /// An interceptor publishing through `handle`.
    pub fn new(handle: BusHandle) -> (res: Self)
        ensures
            res.id() == handle.id(),
    {
        BrokerCallInterceptor { handle }
    }

    /// Record that a broker call named `call` is about to be made: exactly
    /// one invoked event is appended, under this interceptor's namespace.
    pub fn before_call(&self, bus: &mut EventBus, call: String, timestamp: u64)
        requires
            old(bus).wf(),
        ensures
            final(bus).wf(),
            final(bus).history() == old(bus).history().push(
                EventV {
                    broker_id: self.id(),
                    pod_id: old(bus).pod(),
                    timestamp,
                    payload: PayloadV::BrokerCallInvoked { call: call@ },
                },
            ),
            final(bus).id() == old(bus).id(),
            final(bus).pod() == old(bus).pod(),
            final(bus).cap() == old(bus).cap(),
            final(bus).num_subscribers() == old(bus).num_subscribers(),
            subs_extended_upto(
                *old(bus),
                *final(bus),
                old(bus).num_subscribers(),
                final(bus).history().last(),
            ),
    {
        bus.publish_via(&self.handle, EventPayload::BrokerCallInvoked { call }, timestamp);
    }

    /// Record the outcome of the bracketed call: exactly one succeeded
    /// event, or one failed event carrying the reason, is appended, and the
    /// metrics observation of the call is returned, its latency measured
    /// from `started_at` (the invoked timestamp) to `timestamp`.
    pub fn after_call(
        &self,
        bus: &mut EventBus,
        call: String,
        failure_reason: Option<String>,
        started_at: u64,
        timestamp: u64,
    ) -> (obs: MetricsObservation)
        requires
            old(bus).wf(),
        ensures
            obs.call@ == call@,
            obs.success == (failure_reason is None),
            obs.latency == (if timestamp >= started_at {
                (timestamp - started_at) as u64
            } else {
                0u64
            }),
            final(bus).wf(),
            final(bus).history() == old(bus).history().push(
                EventV {
                    broker_id: self.id(),
                    pod_id: old(bus).pod(),
                    timestamp,
                    payload: match failure_reason {
                        Option::None => PayloadV::BrokerCallSucceeded { call: call@ },
                        Option::Some(reason) => PayloadV::BrokerCallFailed {
                            call: call@,
                            reason: reason@,
                        },
                    },
                },
            ),
            final(bus).id() == old(bus).id(),
            final(bus).pod() == old(bus).pod(),
            final(bus).cap() == old(bus).cap(),
            final(bus).num_subscribers() == old(bus).num_subscribers(),
            subs_extended_upto(
                *old(bus),
                *final(bus),
                old(bus).num_subscribers(),
                final(bus).history().last(),
            ),
    {
        let latency: u64 = if timestamp >= started_at {
            timestamp - started_at
        } else {
            0
        };
        let obs = MetricsObservation {
            call: call.clone(),
            success: matches!(failure_reason, Option::None),
            latency,
        };
        match failure_reason {
            Option::None => {
                bus.publish_via(&self.handle, EventPayload::BrokerCallSucceeded { call }, timestamp);
            },
            Option::Some(reason) => {
                bus.publish_via(
                    &self.handle,
                    EventPayload::BrokerCallFailed { call, reason },
                    timestamp,
                );
            },
        }
        obs
    }
}

} // verus!
