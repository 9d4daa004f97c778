//! The pluggable payment processor boundary.
//!
//! The orchestrator never inspects a processor; it only consumes the
//! returned `ProcessorOutcome` to drive the state machine, through
//! `apply_outcome`, whose contract pins the resulting row for every
//! possible outcome. `FixedOutcomeProcessor` is the deterministic
//! in-memory double.

use vstd::prelude::*;

use crate::lifecycle::{lifecycle_edge, PaymentStatus};
use crate::payment::{payment_wf, Payment, PaymentModel};

verus! {

/// The processor's verdict for an authorization attempt.
#[derive(Debug)]
pub enum ProcessorOutcome {
    Succeeded,
    RequiresCapture,
    RequiresAction,
    Failed { code: String, message: String },
}

/// The mathematical model of an outcome.
#[verifier::ext_equal]
pub ghost enum OutcomeModel {
    Succeeded,
    RequiresCapture,
    RequiresAction,
    Failed { code: Seq<char>, message: Seq<char> },
}

impl View for ProcessorOutcome {
    type V = OutcomeModel;

    open spec fn view(&self) -> OutcomeModel {
        match self {
            ProcessorOutcome::Succeeded => OutcomeModel::Succeeded,
            ProcessorOutcome::RequiresCapture => OutcomeModel::RequiresCapture,
            ProcessorOutcome::RequiresAction => OutcomeModel::RequiresAction,
            ProcessorOutcome::Failed { code, message } => OutcomeModel::Failed {
                code: code@,
                message: message@,
            },
        }
    }
}

impl Clone for ProcessorOutcome {
    /// A clone carries the same model.
    fn clone(&self) -> (r: ProcessorOutcome)
        ensures
            r@ == self@,
    {
        match self {
            ProcessorOutcome::Succeeded => ProcessorOutcome::Succeeded,
            ProcessorOutcome::RequiresCapture => ProcessorOutcome::RequiresCapture,
            ProcessorOutcome::RequiresAction => ProcessorOutcome::RequiresAction,
            ProcessorOutcome::Failed { code, message } => ProcessorOutcome::Failed {
                code: code.clone(),
                message: message.clone(),
            },
        }
    }
}

/// The external processing capability. A real implementation talks to a
/// card network; the orchestrator only consumes the outcome.
pub trait PaymentProcessor {
    /// Decides the fate of an authorization attempt.
    fn authorize(&self, payment: &Payment) -> ProcessorOutcome;
}

/// A deterministic in-memory processor that always returns the configured
/// outcome.
#[derive(Debug)]
pub struct FixedOutcomeProcessor {
    pub outcome: ProcessorOutcome,
}

impl PaymentProcessor for FixedOutcomeProcessor {
    fn authorize(&self, _payment: &Payment) -> ProcessorOutcome {
        self.outcome.clone()
    }
}

/// The row produced by applying a processor outcome at time `now`.
pub open spec fn spec_apply_outcome(m: PaymentModel, o: OutcomeModel, now: int) -> PaymentModel {
    match o {
        OutcomeModel::Succeeded => PaymentModel {
            status: PaymentStatus::Succeeded,
            updated_at: now,
            ..m
        },
        OutcomeModel::RequiresCapture => PaymentModel {
            status: PaymentStatus::RequiresCapture,
            updated_at: now,
            ..m
        },
        OutcomeModel::RequiresAction => PaymentModel {
            status: PaymentStatus::RequiresAction,
            updated_at: now,
            ..m
        },
        OutcomeModel::Failed { code, message } => PaymentModel {
            status: PaymentStatus::Failed,
            failure_code: Some(code),
            failure_message: Some(message),
            updated_at: now,
            ..m
        },
    }
}

/// Applies a processor outcome to a row under processing.
pub fn apply_outcome(p: Payment, o: &ProcessorOutcome, now: i64) -> (r: Payment)
    ensures
        r@ == spec_apply_outcome(p@, o@, now as int),
{
    let ghost m0 = p@;
    let mut q = p;
    q.updated_at = now;
    match o {
        ProcessorOutcome::Succeeded => {
            q.status = PaymentStatus::Succeeded;
        },
        ProcessorOutcome::RequiresCapture => {
            q.status = PaymentStatus::RequiresCapture;
        },
        ProcessorOutcome::RequiresAction => {
            q.status = PaymentStatus::RequiresAction;
        },
        ProcessorOutcome::Failed { code, message } => {
            q.status = PaymentStatus::Failed;
            q.failure_code = Some(code.clone());
            q.failure_message = Some(message.clone());
        },
    }
    proof {
        assert(q@ =~= spec_apply_outcome(m0, o@, now as int));
    }
    q
}

/// From `Processing`, every outcome lands on an edge of the lifecycle
/// table and preserves well-formedness.
pub proof fn lemma_apply_outcome_wf(m: PaymentModel, o: OutcomeModel, now: int)
    requires
        payment_wf(m),
        m.status is Processing,
        now >= 0,
    ensures
        payment_wf(spec_apply_outcome(m, o, now)),
        lifecycle_edge(m.status, spec_apply_outcome(m, o, now).status),
{
}

} // verus!
