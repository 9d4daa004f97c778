//! The laws of the payment state machine, stated over the orchestrator's
//! spec-level steps and proved once and for all.

use vstd::prelude::*;

use crate::lifecycle::lifecycle_edge;
use crate::payment::{payment_wf, PaymentModel};
use crate::processor::{spec_apply_outcome, OutcomeModel};
use crate::service::{inv, spec_capture, spec_refund, CaptureEffect, RefundEffect, ServiceModel};

verus! {

/// In every service state the operations can reach, each row's refunded
/// amount stays between zero and its amount.
pub proof fn lemma_refund_bound_invariant(s: ServiceModel, i: int)
    requires
        inv(s),
        0 <= i < s.payments.len(),
    ensures
        0 <= s.payments[i].refunded_amount <= s.payments[i].amount,
{
}

/// A refund never lets `refunded_amount` exceed `amount`: the bound holds
/// before and after every refund step, the refunded amount never shrinks,
/// the amount never changes, and well-formedness is preserved.
pub proof fn lemma_refund_preserves_bound(
    p: PaymentModel,
    amount: Option<i64>,
    reason: Option<Seq<char>>,
    now: int,
)
    requires
        payment_wf(p),
        now >= 0,
    ensures
        ({
            let q = spec_refund(p, amount, reason, now).0;
            &&& payment_wf(q)
            &&& q.amount == p.amount
            &&& p.refunded_amount <= q.refunded_amount <= q.amount
        }),
{
}

/// A capture step either leaves the status unchanged or follows an edge
/// of the lifecycle table; when it does not transition, the row is
/// untouched.
pub proof fn lemma_capture_follows_lifecycle(p: PaymentModel, now: int)
    requires
        payment_wf(p),
        now >= 0,
    ensures
        ({
            let step = spec_capture(p, now);
            &&& payment_wf(step.0)
            &&& step.0.status == p.status || lifecycle_edge(p.status, step.0.status)
            &&& !(step.1 is Captured) ==> step.0 == p
        }),
{
}

/// A refund step either leaves the status unchanged or follows an edge of
/// the lifecycle table; a rejected or invalid refund leaves the row
/// untouched.
pub proof fn lemma_refund_follows_lifecycle(
    p: PaymentModel,
    amount: Option<i64>,
    reason: Option<Seq<char>>,
    now: int,
)
    requires
        payment_wf(p),
        now >= 0,
    ensures
        ({
            let step = spec_refund(p, amount, reason, now);
            &&& step.0.status == p.status || lifecycle_edge(p.status, step.0.status)
            &&& !(step.1 is Applied) ==> step.0 == p
        }),
{
}

/// Every processor outcome applied to a row under processing follows an
/// edge of the lifecycle table.
pub proof fn lemma_outcome_follows_lifecycle(m: PaymentModel, o: OutcomeModel, now: int)
    requires
        m.status is Processing,
    ensures
        lifecycle_edge(m.status, spec_apply_outcome(m, o, now).status),
{
}

/// Duplicate captures settle exactly once: the first capture of a row in
/// `RequiresCapture` owns the transition to `Succeeded` (and with it the
/// one `payment.captured` event); the second finds the row settled and
/// changes nothing. Both observe `Succeeded` afterwards.
pub proof fn lemma_capture_idempotent(p: PaymentModel, t1: int, t2: int)
    requires
        p.status is RequiresCapture,
    ensures
        spec_capture(p, t1).1 is Captured,
        spec_capture(p, t1).0.status is Succeeded,
        spec_capture(spec_capture(p, t1).0, t2).1 is AlreadyCaptured,
        spec_capture(spec_capture(p, t1).0, t2).0 == spec_capture(p, t1).0,
{
}

/// A refund without an amount on a settled row returns the full balance:
/// the row lands in `Refunded` with `refunded_amount == amount`, and no
/// further refund step is accepted from there.
pub proof fn lemma_full_refund_exhausts(
    p: PaymentModel,
    reason: Option<Seq<char>>,
    t1: int,
    amount2: Option<i64>,
    reason2: Option<Seq<char>>,
    t2: int,
)
    requires
        payment_wf(p),
        p.status is Succeeded,
    ensures
        spec_refund(p, None, reason, t1).1 is Applied,
        spec_refund(p, None, reason, t1).0.status is Refunded,
        spec_refund(p, None, reason, t1).0.refunded_amount == p.amount,
        spec_refund(spec_refund(p, None, reason, t1).0, amount2, reason2, t2).1 is Rejected,
{
}

/// A partial refund keeps the row open: refunding `a` with
/// `0 < a < amount` from `Succeeded` lands in `PartiallyRefunded` with
/// `refunded_amount == a`, while asking for more than the remaining
/// balance is invalid and changes nothing.
pub proof fn lemma_partial_refund(
    p: PaymentModel,
    a: i64,
    reason: Option<Seq<char>>,
    now: int,
)
    requires
        payment_wf(p),
        p.status is Succeeded,
        0 < a < p.amount,
    ensures
        spec_refund(p, Some(a), reason, now).1 is Applied,
        spec_refund(p, Some(a), reason, now).0.status is PartiallyRefunded,
        spec_refund(p, Some(a), reason, now).0.refunded_amount == a as int,
{
}

/// Asking for more than the remaining balance is invalid and leaves the
/// row untouched.
pub proof fn lemma_overdraw_refund_invalid(
    p: PaymentModel,
    a: i64,
    reason: Option<Seq<char>>,
    now: int,
)
    requires
        payment_wf(p),
        p.status is Succeeded || p.status is PartiallyRefunded,
        a as int > p.amount - p.refunded_amount,
    ensures
        spec_refund(p, Some(a), reason, now).1 is Invalid,
        spec_refund(p, Some(a), reason, now).0 == p,
{
}

} // verus!
