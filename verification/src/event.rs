//! The event record published on the bus, and its mathematical view.

use vstd::prelude::*;

verus! {

/// The closed set of things an event can report.
pub enum EventPayload {
    LifecycleStarted,
    LifecycleStopped,
    BrokerCallInvoked { call: String },
    BrokerCallSucceeded { call: String },
    BrokerCallFailed { call: String, reason: String },
    Custom { tag: String, detail: String },
}

/// Mathematical view of an [`EventPayload`].
#[verifier::ext_equal]
pub ghost enum PayloadV {
    LifecycleStarted,
    LifecycleStopped,
    BrokerCallInvoked { call: Seq<char> },
    BrokerCallSucceeded { call: Seq<char> },
    BrokerCallFailed { call: Seq<char>, reason: Seq<char> },
    Custom { tag: Seq<char>, detail: Seq<char> },
}

impl View for EventPayload {
    type V = PayloadV;

    open spec fn view(&self) -> PayloadV {
        match self {
            EventPayload::LifecycleStarted => PayloadV::LifecycleStarted,
            EventPayload::LifecycleStopped => PayloadV::LifecycleStopped,
            EventPayload::BrokerCallInvoked { call } => PayloadV::BrokerCallInvoked {
                call: call@,
            },
            EventPayload::BrokerCallSucceeded { call } => PayloadV::BrokerCallSucceeded {
                call: call@,
            },
            EventPayload::BrokerCallFailed { call, reason } => PayloadV::BrokerCallFailed {
                call: call@,
                reason: reason@,
            },
            EventPayload::Custom { tag, detail } => PayloadV::Custom {
                tag: tag@,
                detail: detail@,
            },
        }
    }
}

impl Clone for EventPayload {
    fn clone(&self) -> (res: EventPayload)
        ensures
            res@ == self@,
    {
        match self {
            EventPayload::LifecycleStarted => EventPayload::LifecycleStarted,
            EventPayload::LifecycleStopped => EventPayload::LifecycleStopped,
            EventPayload::BrokerCallInvoked { call } => EventPayload::BrokerCallInvoked {
                call: call.clone(),
            },
            EventPayload::BrokerCallSucceeded { call } => EventPayload::BrokerCallSucceeded {
                call: call.clone(),
            },
            EventPayload::BrokerCallFailed { call, reason } => EventPayload::BrokerCallFailed {
                call: call.clone(),
                reason: reason.clone(),
            },
            EventPayload::Custom { tag, detail } => EventPayload::Custom {
                tag: tag.clone(),
                detail: detail.clone(),
            },
        }
    }
}

/// An immutable record of something that happened inside the pod. Once
/// published it is owned by the bus's replay log until evicted.
pub struct Event {
    pub broker_id: String,
    pub pod_id: String,
    pub timestamp: u64,
    pub payload: EventPayload,
}

/// Mathematical view of an [`Event`].
#[verifier::ext_equal]
pub ghost struct EventV {
    pub broker_id: Seq<char>,
    pub pod_id: Seq<char>,
    pub timestamp: u64,
    pub payload: PayloadV,
}

impl View for Event {
    type V = EventV;

    open spec fn view(&self) -> EventV {
        EventV {
            broker_id: self.broker_id@,
            pod_id: self.pod_id@,
            timestamp: self.timestamp,
            payload: self.payload@,
        }
    }
}

impl Clone for Event {
    fn clone(&self) -> (res: Event)
        ensures
            res@ == self@,
    {
        Event {
            broker_id: self.broker_id.clone(),
            pod_id: self.pod_id.clone(),
            timestamp: self.timestamp,
            payload: self.payload.clone(),
        }
    }
}

} // verus!
