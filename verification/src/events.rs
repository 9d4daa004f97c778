//! Lifecycle events: immutable facts about committed payment transitions.
//!
//! The orchestrator appends exactly one event per committed transition to
//! its log; a publisher drains the log after commit, so a publish failure
//! can never roll back the transition it announces.

use vstd::prelude::*;

use crate::payment::{Payment, PaymentModel};

verus! {

/// The kind of a lifecycle event.
#[derive(Clone, Copy, Debug, PartialEq, Eq, Structural, Hash)]
pub enum EventType {
    PaymentCreated,
    PaymentCaptured,
    PaymentRefunded,
    PaymentFailed,
}

impl EventType {
    /// The stable wire name of this event kind.
    pub fn wire_name(&self) -> (r: &'static str)
        ensures
            (self is PaymentCreated) ==> r@ == "payment.created"@,
            (self is PaymentCaptured) ==> r@ == "payment.captured"@,
            (self is PaymentRefunded) ==> r@ == "payment.refunded"@,
            (self is PaymentFailed) ==> r@ == "payment.failed"@,
    {
        match self {
            EventType::PaymentCreated => "payment.created",
            EventType::PaymentCaptured => "payment.captured",
            EventType::PaymentRefunded => "payment.refunded",
            EventType::PaymentFailed => "payment.failed",
        }
    }
}

/// A committed lifecycle transition: the kind, a snapshot of the payment
/// after the transition, and when it occurred.
#[derive(Debug)]
pub struct LifecycleEvent {
    pub event_type: EventType,
    pub data: Payment,
    pub occurred_at: i64,
}

/// The mathematical model of a lifecycle event.
#[verifier::ext_equal]
pub ghost struct EventModel {
    pub event_type: EventType,
    pub data: PaymentModel,
    pub occurred_at: int,
}

impl View for LifecycleEvent {
    type V = EventModel;

    open spec fn view(&self) -> EventModel {
        EventModel {
            event_type: self.event_type,
            data: self.data@,
            occurred_at: self.occurred_at as int,
        }
    }
}

} // verus!
