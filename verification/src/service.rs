//! The payment orchestrator: the one component that mutates a payment's
//! status, always inside a single atomic step per payment.
//!
//! A `PaymentService` owns the record store, the merchant directory and
//! the log of lifecycle events awaiting publication. Each operation either
//! leaves the service unchanged and reports an error, or commits exactly
//! one lifecycle transition and appends exactly one event for it.

use vstd::prelude::*;

use crate::crypto::{client_secret_chars, client_secret_for, payment_address, payment_address_chars};
use crate::errors::DefiantError;
use crate::events::{EventModel, EventType, LifecycleEvent};
use crate::fraud::{check_fraud, fraud_allows};
use crate::lifecycle::{PaymentMethod, PaymentStatus};
use crate::merchant::{directory_wf, resolves, Merchant, MerchantDirectory, MerchantModel};
use crate::payment::{
    clone_metadata, clone_opt_string, normalize_currency, payment_to_response, payment_wf,
    request_valid, response_model_of, spec_upper_seq, validate_create_request,
    CreatePaymentRequest, Payment, PaymentModel, PaymentResponse,
};
use crate::processor::{
    lemma_apply_outcome_wf, apply_outcome, spec_apply_outcome, OutcomeModel, PaymentProcessor,
};
use crate::store::{contains_payment, store_wf, PaymentStore};

verus! {

impl DeepView for LifecycleEvent {
    type V = EventModel;

    open spec fn deep_view(&self) -> EventModel {
        self.view()
    }
}

/// The orchestrator's state: the store, the directory, and the events of
/// committed transitions not yet handed to a publisher.
#[derive(Debug)]
pub struct PaymentService {
    pub store: PaymentStore,
    pub directory: MerchantDirectory,
    pub events: Vec<LifecycleEvent>,
}

/// The mathematical model of the whole service.
#[verifier::ext_equal]
pub ghost struct ServiceModel {
    pub payments: Seq<PaymentModel>,
    pub merchants: Seq<MerchantModel>,
    pub events: Seq<EventModel>,
}

impl View for PaymentService {
    type V = ServiceModel;

    open spec fn view(&self) -> ServiceModel {
        ServiceModel {
            payments: self.store@,
            merchants: self.directory@,
            events: self.events.deep_view(),
        }
    }
}

/// The service invariant: a well-formed store and directory.
pub open spec fn inv(s: ServiceModel) -> bool {
    &&& store_wf(s.payments)
    &&& directory_wf(s.merchants)
}

/// The merchant an active credential resolves to (meaningful only when
/// `resolves` holds; under `directory_wf` it is unique).
pub open spec fn merchant_for(d: Seq<MerchantModel>, cred: Seq<char>) -> MerchantModel {
    d[choose|i: int| 0 <= i < d.len() && (#[trigger] d[i]).credential == cred && d[i].active]
}

/// The index of the row carrying `id` (meaningful only when
/// `contains_payment` holds; under `store_wf` it is unique).
pub open spec fn payment_index(s: Seq<PaymentModel>, id: u128) -> int {
    choose|i: int| 0 <= i < s.len() && (#[trigger] s[i]).id == id
}

/// Whether the merchant owns a row with this id.
pub open spec fn owns_payment(s: Seq<PaymentModel>, id: u128, merchant_id: u128) -> bool {
    contains_payment(s, id) && s[payment_index(s, id)].merchant_id == merchant_id
}

/// The row a creation request commits before the processor is consulted:
/// freshly inserted in `Pending` and submitted, hence `Processing`. A
/// crypto payment carries its deposit address in the metadata bag.
pub open spec fn spec_new_payment(
    r: CreatePaymentRequest,
    merchant_id: u128,
    id: u128,
    now: int,
) -> PaymentModel {
    PaymentModel {
        id: id,
        merchant_id: merchant_id,
        customer_id: r.customer_id,
        amount: r.amount as int,
        currency: spec_upper_seq(r.currency@),
        status: PaymentStatus::Processing,
        payment_method: r.payment_method,
        description: r.description.deep_view(),
        metadata: if r.payment_method is Crypto {
            r.metadata.deep_view().push(("crypto_address"@, payment_address_chars(id, now)))
        } else {
            r.metadata.deep_view()
        },
        refunded_amount: 0,
        refund_reason: None,
        failure_code: None,
        failure_message: None,
        created_at: now,
        updated_at: now,
    }
}

/// What a successful creation commits: for some processor outcome `o`, the
/// new row is the submitted row with `o` applied, exactly one
/// `payment.created` event carries its snapshot, and the response shows
/// the row with the client secret.
pub open spec fn create_committed_with(
    pre: ServiceModel,
    post: ServiceModel,
    r: CreatePaymentRequest,
    cred: Seq<char>,
    id: u128,
    nonce: u128,
    now: int,
    resp: crate::payment::ResponseModel,
    o: OutcomeModel,
) -> bool {
    let row = spec_apply_outcome(
        spec_new_payment(r, merchant_for(pre.merchants, cred).id, id, now),
        o,
        now,
    );
    &&& post.payments == pre.payments.push(row)
    &&& post.merchants == pre.merchants
    &&& post.events == pre.events.push(
        EventModel { event_type: EventType::PaymentCreated, data: row, occurred_at: now },
    )
    &&& resp == response_model_of(row, Some(client_secret_chars(id, nonce)))
    &&& payment_wf(row)
    &&& (row.status is Succeeded || row.status is RequiresCapture || row.status is RequiresAction
        || row.status is Failed)
}

/// `create_committed_with`, for whatever outcome the processor returned.
pub open spec fn create_committed(
    pre: ServiceModel,
    post: ServiceModel,
    r: CreatePaymentRequest,
    cred: Seq<char>,
    id: u128,
    nonce: u128,
    now: int,
    resp: crate::payment::ResponseModel,
) -> bool {
    exists|o: OutcomeModel|
        #[trigger] create_committed_with(pre, post, r, cred, id, nonce, now, resp, o)
}

impl PaymentService {
    /// A fresh service: no merchants, no payments, no pending events.
    pub fn new() -> (r: PaymentService)
        ensures
            r@.payments == Seq::<PaymentModel>::empty(),
            r@.merchants == Seq::<MerchantModel>::empty(),
            r@.events == Seq::<EventModel>::empty(),
            inv(r@),
    {
        let r = PaymentService {
            store: PaymentStore::new(),
            directory: MerchantDirectory::new(),
            events: Vec::new(),
        };
        proof {
            assert(r@.events =~= Seq::<EventModel>::empty());
        }
        r
    }

    /// Registers a merchant in the directory; payments and events are
    /// untouched.
    pub fn register_merchant(&mut self, m: Merchant) -> (r: Result<(), DefiantError>)
        requires
            inv(old(self)@),
        ensures
            inv(final(self)@),
            final(self)@.payments == old(self)@.payments,
            final(self)@.events == old(self)@.events,
            r is Ok <==> (forall|i: int|
                0 <= i < old(self)@.merchants.len() ==> (#[trigger] old(
                    self,
                )@.merchants[i]).id != m@.id && old(self)@.merchants[i].credential
                    != m@.credential),
            r is Ok ==> final(self)@.merchants == old(self)@.merchants.push(m@),
            r is Err ==> final(self)@.merchants == old(self)@.merchants,
            r matches Err(e) ==> e is Conflict,
    {
        self.directory.add_merchant(m)
    }

    /// Creates a payment at time `now` under the given fresh identifiers.
    ///
    /// All checks run before any write: a malformed request reports
    /// `ValidationError`, a credential that resolves to no active merchant
    /// `AuthenticationError`, a fraud denial `PaymentError`, and a taken id
    /// `InternalError`; each leaves the service unchanged. Otherwise the
    /// processor is consulted and exactly one row and one `payment.created`
    /// event are committed, as `create_committed` states.
    pub fn create_payment_at<P: PaymentProcessor>(
        &mut self,
        request: &CreatePaymentRequest,
        credential: &str,
        processor: &P,
        id: u128,
        secret_nonce: u128,
        now: i64,
    ) -> (r: Result<PaymentResponse, DefiantError>)
        requires
            inv(old(self)@),
            now >= 0,
        ensures
            inv(final(self)@),
            r is Err ==> final(self)@ == old(self)@,
            (r matches Err(e) && e is ValidationError) <==> !request_valid(request),
            (r matches Err(e) && e is AuthenticationError) <==> request_valid(request)
                && !resolves(old(self)@.merchants, credential@),
            (r matches Err(e) && e is PaymentError) <==> request_valid(request) && resolves(
                old(self)@.merchants,
                credential@,
            ) && !fraud_allows(
                request.amount as int,
                merchant_for(old(self)@.merchants, credential@).allow_large_payments,
            ),
            (r matches Err(e) && e is InternalError) <==> request_valid(request) && resolves(
                old(self)@.merchants,
                credential@,
            ) && fraud_allows(
                request.amount as int,
                merchant_for(old(self)@.merchants, credential@).allow_large_payments,
            ) && contains_payment(old(self)@.payments, id),
            r is Ok <==> request_valid(request) && resolves(old(self)@.merchants, credential@)
                && fraud_allows(
                request.amount as int,
                merchant_for(old(self)@.merchants, credential@).allow_large_payments,
            ) && !contains_payment(old(self)@.payments, id),
            r matches Ok(resp) ==> create_committed(
                old(self)@,
                final(self)@,
                *request,
                credential@,
                id,
                secret_nonce,
                now as int,
                resp@,
            ),
    {
        if let Err(e) = validate_create_request(request) {
            return Err(e);
        }
        let ghost d = self@.merchants;
        let (merchant_id, allow_large) = match self.directory.resolve(credential) {
            Ok(m) => (m.id, m.allow_large_payments),
            Err(e) => {
                return Err(e);
            },
        };
        proof {
            lemma_merchant_for_unique(d, credential@, merchant_id, allow_large);
        }
        if let Err(e) = check_fraud(request.amount, allow_large) {
            return Err(e);
        }
        match self.store.find_index(id) {
            Some(_) => {
                return Err(DefiantError::InternalError);
            },
            None => {},
        }
        let currency = match normalize_currency(request.currency.as_str()) {
            Some(c) => c,
            None => {
                proof {
                    assert(false);
                }
                return Err(DefiantError::InternalError);
            },
        };
        let mut metadata = clone_metadata(&request.metadata);
        match request.payment_method {
            PaymentMethod::Crypto => {
                let ghost premeta = metadata.deep_view();
                let addr = payment_address(id, now);
                metadata.push((String::from_str("crypto_address"), addr));
                proof {
                    assert(metadata.deep_view() =~= premeta.push(
                        ("crypto_address"@, payment_address_chars(id, now as int)),
                    ));
                }
            },
            _ => {},
        }
        let p = Payment {
            id: id,
            merchant_id: merchant_id,
            customer_id: request.customer_id,
            amount: request.amount,
            currency: currency,
            status: PaymentStatus::Processing,
            payment_method: request.payment_method,
            description: clone_opt_string(&request.description),
            metadata: metadata,
            refunded_amount: 0,
            refund_reason: None,
            failure_code: None,
            failure_message: None,
            created_at: now,
            updated_at: now,
        };
        proof {
            assert(p@ =~= spec_new_payment(*request, merchant_id, id, now as int));
        }
        let outcome = processor.authorize(&p);
        let row = apply_outcome(p, &outcome, now);
        proof {
            lemma_apply_outcome_wf(
                spec_new_payment(*request, merchant_id, id, now as int),
                outcome@,
                now as int,
            );
        }
        let ghost pre = self@;
        match self.store.insert(row.clone()) {
            Ok(()) => {},
            Err(_) => {
                proof {
                    assert(false);
                }
                return Err(DefiantError::InternalError);
            },
        }
        let ghost preevents = self.events.deep_view();
        self.events.push(
            LifecycleEvent {
                event_type: EventType::PaymentCreated,
                data: row.clone(),
                occurred_at: now,
            },
        );
        proof {
            assert(self.events.deep_view() =~= preevents.push(
                EventModel { event_type: EventType::PaymentCreated, data: row@, occurred_at: now as int },
            ));
        }
        let resp = payment_to_response(&row, Some(client_secret_for(id, secret_nonce)));
        proof {
            let o = outcome@;
            let spec_row = spec_apply_outcome(
                spec_new_payment(*request, merchant_for(pre.merchants, credential@).id, id, now as int),
                o,
                now as int,
            );
            assert(row@ == spec_row);
            assert(self@.payments == pre.payments.push(spec_row));
            assert(self@.events == pre.events.push(
                EventModel {
                    event_type: EventType::PaymentCreated,
                    data: spec_row,
                    occurred_at: now as int,
                },
            ));
            assert(create_committed_with(
                pre,
                self@,
                *request,
                credential@,
                id,
                secret_nonce,
                now as int,
                resp@,
                o,
            ));
            assert(create_committed(
                pre,
                self@,
                *request,
                credential@,
                id,
                secret_nonce,
                now as int,
                resp@,
            ));
        }
        Ok(resp)
    }
}

/// What a capture attempt does to a single row at time `now`.
#[verifier::ext_equal]
pub ghost enum CaptureEffect {
    /// The row moved `RequiresCapture` to `Succeeded`: the caller owns the
    /// transition and exactly one `payment.captured` event.
    Captured,
    /// The row was already `Succeeded`: a concurrent duplicate lost the
    /// race and observes the settled row unchanged, with no event.
    AlreadyCaptured,
    /// No capture edge leaves the row's status: rejected, row unchanged.
    Rejected,
}

/// The capture step of the state machine.
pub open spec fn spec_capture(p: PaymentModel, now: int) -> (PaymentModel, CaptureEffect) {
    if p.status is RequiresCapture {
        (
            PaymentModel { status: PaymentStatus::Succeeded, updated_at: now, ..p },
            CaptureEffect::Captured,
        )
    } else if p.status is Succeeded {
        (p, CaptureEffect::AlreadyCaptured)
    } else {
        (p, CaptureEffect::Rejected)
    }
}

/// What a refund attempt does to a single row at time `now`.
#[verifier::ext_equal]
pub ghost enum RefundEffect {
    /// The refund was applied: the row's `refunded_amount` grew and its
    /// status moved to `Refunded` or `PartiallyRefunded`.
    Applied,
    /// The requested amount was not positive or exceeded the remaining
    /// balance: rejected with `ValidationError`, row unchanged.
    Invalid,
    /// No refund edge leaves the row's status: rejected with
    /// `ConflictError`, row unchanged.
    Rejected,
}

/// The refund step of the state machine. A missing amount defaults to the
/// full remaining balance; a given reason replaces the stored one.
pub open spec fn spec_refund(
    p: PaymentModel,
    amount: Option<i64>,
    reason: Option<Seq<char>>,
    now: int,
) -> (PaymentModel, RefundEffect) {
    if !(p.status is Succeeded || p.status is PartiallyRefunded) {
        (p, RefundEffect::Rejected)
    } else {
        let remaining = p.amount - p.refunded_amount;
        let amt = match amount {
            Some(a) => a as int,
            None => remaining,
        };
        if amt <= 0 || amt > remaining {
            (p, RefundEffect::Invalid)
        } else {
            (
                PaymentModel {
                    status: if p.refunded_amount + amt == p.amount {
                        PaymentStatus::Refunded
                    } else {
                        PaymentStatus::PartiallyRefunded
                    },
                    refunded_amount: p.refunded_amount + amt,
                    refund_reason: if reason is Some {
                        reason
                    } else {
                        p.refund_reason
                    },
                    updated_at: now,
                    ..p
                },
                RefundEffect::Applied,
            )
        }
    }
}

/// What a successful capture commits: the capture step applied to the
/// merchant's row, one `payment.captured` event exactly when the step
/// transitioned, and nothing at all when the row was already settled.
pub open spec fn capture_committed(
    pre: ServiceModel,
    post: ServiceModel,
    payment_id: u128,
    now: int,
    resp: crate::payment::ResponseModel,
) -> bool {
    let i = payment_index(pre.payments, payment_id);
    let step = spec_capture(pre.payments[i], now);
    &&& post.payments == pre.payments.update(i, step.0)
    &&& post.merchants == pre.merchants
    &&& resp == response_model_of(step.0, None)
    &&& (step.1 is Captured ==> post.events == pre.events.push(
        EventModel { event_type: EventType::PaymentCaptured, data: step.0, occurred_at: now },
    ))
    &&& (step.1 is AlreadyCaptured ==> post == pre)
}

/// What a successful refund commits: the refund step applied to the
/// merchant's row and exactly one `payment.refunded` event.
pub open spec fn refund_committed(
    pre: ServiceModel,
    post: ServiceModel,
    payment_id: u128,
    amount: Option<i64>,
    reason: Option<Seq<char>>,
    now: int,
    resp: crate::payment::ResponseModel,
) -> bool {
    let i = payment_index(pre.payments, payment_id);
    let step = spec_refund(pre.payments[i], amount, reason, now);
    &&& post.payments == pre.payments.update(i, step.0)
    &&& post.merchants == pre.merchants
    &&& resp == response_model_of(step.0, None)
    &&& post.events == pre.events.push(
        EventModel { event_type: EventType::PaymentRefunded, data: step.0, occurred_at: now },
    )
}

impl PaymentService {
    /// Settles an authorized payment. Safe under concurrent duplicate
    /// invocation: the capture step moves `RequiresCapture` to `Succeeded`
    /// and emits one `payment.captured` event; a duplicate finds the row
    /// already `Succeeded` and returns it unchanged with no event; any
    /// other status is rejected with `Conflict` and the row untouched.
    pub fn capture_payment_at(&mut self, payment_id: u128, credential: &str, now: i64) -> (r:
        Result<PaymentResponse, DefiantError>)
        requires
            inv(old(self)@),
            now >= 0,
        ensures
            inv(final(self)@),
            final(self)@.merchants == old(self)@.merchants,
            r is Err ==> final(self)@ == old(self)@,
            (r matches Err(e) && e is AuthenticationError) <==> !resolves(
                old(self)@.merchants,
                credential@,
            ),
            (r matches Err(e) && e is NotFound) <==> resolves(old(self)@.merchants, credential@)
                && !owns_payment(
                old(self)@.payments,
                payment_id,
                merchant_for(old(self)@.merchants, credential@).id,
            ),
            (r matches Err(e) && e is Conflict) <==> resolves(old(self)@.merchants, credential@)
                && owns_payment(
                old(self)@.payments,
                payment_id,
                merchant_for(old(self)@.merchants, credential@).id,
            ) && spec_capture(
                old(self)@.payments[payment_index(old(self)@.payments, payment_id)],
                now as int,
            ).1 is Rejected,
            r is Ok <==> resolves(old(self)@.merchants, credential@) && owns_payment(
                old(self)@.payments,
                payment_id,
                merchant_for(old(self)@.merchants, credential@).id,
            ) && !(spec_capture(
                old(self)@.payments[payment_index(old(self)@.payments, payment_id)],
                now as int,
            ).1 is Rejected),
            r matches Ok(resp) ==> capture_committed(
                old(self)@,
                final(self)@,
                payment_id,
                now as int,
                resp@,
            ),
    {
        let ghost d = self@.merchants;
        let merchant_id = match self.directory.resolve(credential) {
            Ok(m) => {
                proof {
                    lemma_merchant_for_unique(d, credential@, m.id, m.allow_large_payments);
                }
                m.id
            },
            Err(e) => {
                return Err(e);
            },
        };
        let idx = match self.store.find_index(payment_id) {
            Some(i) => i,
            None => {
                return Err(DefiantError::NotFound(String::from_str("Payment not found")));
            },
        };
        proof {
            lemma_payment_index_unique(self@.payments, payment_id, idx as int);
        }
        if self.store.get(idx).merchant_id != merchant_id {
            return Err(DefiantError::NotFound(String::from_str("Payment not found")));
        }
        let ghost pre = self@;
        let status = self.store.get(idx).status;
        match status {
            PaymentStatus::RequiresCapture => {
                let mut q = self.store.get(idx).clone();
                q.status = PaymentStatus::Succeeded;
                q.updated_at = now;
                proof {
                    assert(q@ =~= spec_capture(pre.payments[idx as int], now as int).0);
                }
                self.store.update_at(idx, q.clone());
                let ghost preevents = self.events.deep_view();
                self.events.push(
                    LifecycleEvent {
                        event_type: EventType::PaymentCaptured,
                        data: q.clone(),
                        occurred_at: now,
                    },
                );
                proof {
                    assert(self.events.deep_view() =~= preevents.push(
                        EventModel {
                            event_type: EventType::PaymentCaptured,
                            data: q@,
                            occurred_at: now as int,
                        },
                    ));
                }
                Ok(payment_to_response(&q, None))
            },
            PaymentStatus::Succeeded => {
                let q = self.store.get(idx).clone();
                proof {
                    assert(pre.payments.update(idx as int, q@) =~= pre.payments);
                    assert(self@ =~= pre);
                }
                Ok(payment_to_response(&q, None))
            },
            _ => {
                let mut msg = String::from_str("cannot capture payment from status ");
                msg.append(status.status_str());
                Err(DefiantError::Conflict(msg))
            },
        }
    }

    /// Returns previously settled funds, fully or partially. Valid only
    /// from `Succeeded` or `PartiallyRefunded`; the amount defaults to the
    /// remaining balance and must stay within it, else `ValidationError`.
    /// An applied refund grows `refunded_amount`, lands on `Refunded` when
    /// the balance is exhausted and `PartiallyRefunded` otherwise, and
    /// emits one `payment.refunded` event.
    pub fn refund_payment_at(
        &mut self,
        payment_id: u128,
        refund: &crate::payment::RefundRequest,
        credential: &str,
        now: i64,
    ) -> (r: Result<PaymentResponse, DefiantError>)
        requires
            inv(old(self)@),
            now >= 0,
        ensures
            inv(final(self)@),
            final(self)@.merchants == old(self)@.merchants,
            r is Err ==> final(self)@ == old(self)@,
            (r matches Err(e) && e is AuthenticationError) <==> !resolves(
                old(self)@.merchants,
                credential@,
            ),
            (r matches Err(e) && e is NotFound) <==> resolves(old(self)@.merchants, credential@)
                && !owns_payment(
                old(self)@.payments,
                payment_id,
                merchant_for(old(self)@.merchants, credential@).id,
            ),
            (r matches Err(e) && e is Conflict) <==> resolves(old(self)@.merchants, credential@)
                && owns_payment(
                old(self)@.payments,
                payment_id,
                merchant_for(old(self)@.merchants, credential@).id,
            ) && spec_refund(
                old(self)@.payments[payment_index(old(self)@.payments, payment_id)],
                refund.amount,
                refund.reason.deep_view(),
                now as int,
            ).1 is Rejected,
            (r matches Err(e) && e is ValidationError) <==> resolves(
                old(self)@.merchants,
                credential@,
            ) && owns_payment(
                old(self)@.payments,
                payment_id,
                merchant_for(old(self)@.merchants, credential@).id,
            ) && spec_refund(
                old(self)@.payments[payment_index(old(self)@.payments, payment_id)],
                refund.amount,
                refund.reason.deep_view(),
                now as int,
            ).1 is Invalid,
            r is Ok <==> resolves(old(self)@.merchants, credential@) && owns_payment(
                old(self)@.payments,
                payment_id,
                merchant_for(old(self)@.merchants, credential@).id,
            ) && spec_refund(
                old(self)@.payments[payment_index(old(self)@.payments, payment_id)],
                refund.amount,
                refund.reason.deep_view(),
                now as int,
            ).1 is Applied,
            r matches Ok(resp) ==> refund_committed(
                old(self)@,
                final(self)@,
                payment_id,
                refund.amount,
                refund.reason.deep_view(),
                now as int,
                resp@,
            ),
    {
        let ghost d = self@.merchants;
        let merchant_id = match self.directory.resolve(credential) {
            Ok(m) => {
                proof {
                    lemma_merchant_for_unique(d, credential@, m.id, m.allow_large_payments);
                }
                m.id
            },
            Err(e) => {
                return Err(e);
            },
        };
        let idx = match self.store.find_index(payment_id) {
            Some(i) => i,
            None => {
                return Err(DefiantError::NotFound(String::from_str("Payment not found")));
            },
        };
        proof {
            lemma_payment_index_unique(self@.payments, payment_id, idx as int);
        }
        if self.store.get(idx).merchant_id != merchant_id {
            return Err(DefiantError::NotFound(String::from_str("Payment not found")));
        }
        let ghost pre = self@;
        let status = self.store.get(idx).status;
        let refundable = match status {
            PaymentStatus::Succeeded => true,
            PaymentStatus::PartiallyRefunded => true,
            _ => false,
        };
        if !refundable {
            let mut msg = String::from_str("cannot refund payment from status ");
            msg.append(status.status_str());
            return Err(DefiantError::Conflict(msg));
        }
        let amount_total = self.store.get(idx).amount;
        let refunded = self.store.get(idx).refunded_amount;
        let remaining = amount_total - refunded;
        let amt = match refund.amount {
            Some(a) => a,
            None => remaining,
        };
        if amt <= 0 || amt > remaining {
            return Err(DefiantError::ValidationError(String::from_str(
                "refund amount must be positive and within the remaining balance",
            )));
        }
        let mut q = self.store.get(idx).clone();
        q.refunded_amount = refunded + amt;
        q.status = if refunded + amt == amount_total {
            PaymentStatus::Refunded
        } else {
            PaymentStatus::PartiallyRefunded
        };
        match &refund.reason {
            Some(reason) => {
                q.refund_reason = Some(reason.clone());
            },
            None => {},
        }
        q.updated_at = now;
        proof {
            assert(q@ =~= spec_refund(
                pre.payments[idx as int],
                refund.amount,
                refund.reason.deep_view(),
                now as int,
            ).0);
        }
        self.store.update_at(idx, q.clone());
        let ghost preevents = self.events.deep_view();
        self.events.push(
            LifecycleEvent {
                event_type: EventType::PaymentRefunded,
                data: q.clone(),
                occurred_at: now,
            },
        );
        proof {
            assert(self.events.deep_view() =~= preevents.push(
                EventModel {
                    event_type: EventType::PaymentRefunded,
                    data: q@,
                    occurred_at: now as int,
                },
            ));
        }
        Ok(payment_to_response(&q, None))
    }

    /// Reads a payment the merchant owns.
    pub fn get_payment(&self, payment_id: u128, credential: &str) -> (r: Result<
        PaymentResponse,
        DefiantError,
    >)
        requires
            inv(self@),
        ensures
            (r matches Err(e) && e is AuthenticationError) <==> !resolves(
                self@.merchants,
                credential@,
            ),
            (r matches Err(e) && e is NotFound) <==> resolves(self@.merchants, credential@)
                && !owns_payment(
                self@.payments,
                payment_id,
                merchant_for(self@.merchants, credential@).id,
            ),
            r is Ok <==> resolves(self@.merchants, credential@) && owns_payment(
                self@.payments,
                payment_id,
                merchant_for(self@.merchants, credential@).id,
            ),
            r matches Ok(resp) ==> resp@ == response_model_of(
                self@.payments[payment_index(self@.payments, payment_id)],
                None,
            ),
    {
        let merchant_id = match self.directory.resolve(credential) {
            Ok(m) => {
                proof {
                    lemma_merchant_for_unique(
                        self@.merchants,
                        credential@,
                        m.id,
                        m.allow_large_payments,
                    );
                }
                m.id
            },
            Err(e) => {
                return Err(e);
            },
        };
        let idx = match self.store.find_index(payment_id) {
            Some(i) => i,
            None => {
                return Err(DefiantError::NotFound(String::from_str("Payment not found")));
            },
        };
        proof {
            lemma_payment_index_unique(self@.payments, payment_id, idx as int);
        }
        if self.store.get(idx).merchant_id != merchant_id {
            return Err(DefiantError::NotFound(String::from_str("Payment not found")));
        }
        Ok(payment_to_response(self.store.get(idx), None))
    }
}

impl PaymentService {
    /// Creates a payment under a fresh identifier at the current time.
    /// The identifiers come from a random generator and the time from the
    /// wall clock (times before the epoch are clamped to zero), so the
    /// contract quantifies over them; everything else is as
    /// `create_payment_at` states.
    pub fn create_payment<P: PaymentProcessor>(
        &mut self,
        request: &CreatePaymentRequest,
        credential: &str,
        processor: &P,
    ) -> (r: Result<PaymentResponse, DefiantError>)
        requires
            inv(old(self)@),
        ensures
            inv(final(self)@),
            r is Err ==> final(self)@ == old(self)@,
            (r matches Err(e) && e is ValidationError) <==> !request_valid(request),
            (r matches Err(e) && e is AuthenticationError) <==> request_valid(request)
                && !resolves(old(self)@.merchants, credential@),
            (r matches Err(e) && e is PaymentError) <==> request_valid(request) && resolves(
                old(self)@.merchants,
                credential@,
            ) && !fraud_allows(
                request.amount as int,
                merchant_for(old(self)@.merchants, credential@).allow_large_payments,
            ),
            r matches Err(e) ==> (e is ValidationError || e is AuthenticationError
                || e is PaymentError || e is InternalError),
            r matches Ok(resp) ==> (exists|id: u128, nonce: u128, t: int|
                0 <= t && #[trigger] create_committed(
                    old(self)@,
                    final(self)@,
                    *request,
                    credential@,
                    id,
                    nonce,
                    t,
                    resp@,
                )),
    {
        let id = crate::runtime::fresh_id();
        let nonce = crate::runtime::fresh_id();
        let t = crate::runtime::now_millis();
        let now: i64 = if t < 0 {
            0
        } else {
            t
        };
        let r = self.create_payment_at(request, credential, processor, id, nonce, now);
        proof {
            if r is Ok {
                let o = choose|o: OutcomeModel|
                    create_committed_with(
                        old(self)@,
                        self@,
                        *request,
                        credential@,
                        id,
                        nonce,
                        now as int,
                        r->Ok_0@,
                        o,
                    );
                assert(create_committed(
                    old(self)@,
                    self@,
                    *request,
                    credential@,
                    id,
                    nonce,
                    now as int,
                    r->Ok_0@,
                ));
            }
        }
        r
    }

    /// Settles an authorized payment at the current wall-clock time; the
    /// capture step itself does not depend on the time, so the contract
    /// is that of `capture_payment_at` with the time quantified.
    pub fn capture_payment(&mut self, payment_id: u128, credential: &str) -> (r: Result<
        PaymentResponse,
        DefiantError,
    >)
        requires
            inv(old(self)@),
        ensures
            inv(final(self)@),
            final(self)@.merchants == old(self)@.merchants,
            r is Err ==> final(self)@ == old(self)@,
            (r matches Err(e) && e is AuthenticationError) <==> !resolves(
                old(self)@.merchants,
                credential@,
            ),
            (r matches Err(e) && e is NotFound) <==> resolves(old(self)@.merchants, credential@)
                && !owns_payment(
                old(self)@.payments,
                payment_id,
                merchant_for(old(self)@.merchants, credential@).id,
            ),
            (r matches Err(e) && e is Conflict) <==> resolves(old(self)@.merchants, credential@)
                && owns_payment(
                old(self)@.payments,
                payment_id,
                merchant_for(old(self)@.merchants, credential@).id,
            ) && spec_capture(
                old(self)@.payments[payment_index(old(self)@.payments, payment_id)],
                0,
            ).1 is Rejected,
            r is Ok <==> resolves(old(self)@.merchants, credential@) && owns_payment(
                old(self)@.payments,
                payment_id,
                merchant_for(old(self)@.merchants, credential@).id,
            ) && !(spec_capture(
                old(self)@.payments[payment_index(old(self)@.payments, payment_id)],
                0,
            ).1 is Rejected),
            r matches Ok(resp) ==> (exists|t: int|
                0 <= t && #[trigger] capture_committed(
                    old(self)@,
                    final(self)@,
                    payment_id,
                    t,
                    resp@,
                )),
    {
        let t = crate::runtime::now_millis();
        let now: i64 = if t < 0 {
            0
        } else {
            t
        };
        self.capture_payment_at(payment_id, credential, now)
    }

    /// Refunds a payment at the current wall-clock time; the refund step
    /// itself does not depend on the time, so the contract is that of
    /// `refund_payment_at` with the time quantified.
    pub fn refund_payment(
        &mut self,
        payment_id: u128,
        refund: &crate::payment::RefundRequest,
        credential: &str,
    ) -> (r: Result<PaymentResponse, DefiantError>)
        requires
            inv(old(self)@),
        ensures
            inv(final(self)@),
            final(self)@.merchants == old(self)@.merchants,
            r is Err ==> final(self)@ == old(self)@,
            (r matches Err(e) && e is AuthenticationError) <==> !resolves(
                old(self)@.merchants,
                credential@,
            ),
            (r matches Err(e) && e is NotFound) <==> resolves(old(self)@.merchants, credential@)
                && !owns_payment(
                old(self)@.payments,
                payment_id,
                merchant_for(old(self)@.merchants, credential@).id,
            ),
            (r matches Err(e) && e is Conflict) <==> resolves(old(self)@.merchants, credential@)
                && owns_payment(
                old(self)@.payments,
                payment_id,
                merchant_for(old(self)@.merchants, credential@).id,
            ) && spec_refund(
                old(self)@.payments[payment_index(old(self)@.payments, payment_id)],
                refund.amount,
                refund.reason.deep_view(),
                0,
            ).1 is Rejected,
            (r matches Err(e) && e is ValidationError) <==> resolves(
                old(self)@.merchants,
                credential@,
            ) && owns_payment(
                old(self)@.payments,
                payment_id,
                merchant_for(old(self)@.merchants, credential@).id,
            ) && spec_refund(
                old(self)@.payments[payment_index(old(self)@.payments, payment_id)],
                refund.amount,
                refund.reason.deep_view(),
                0,
            ).1 is Invalid,
            r is Ok <==> resolves(old(self)@.merchants, credential@) && owns_payment(
                old(self)@.payments,
                payment_id,
                merchant_for(old(self)@.merchants, credential@).id,
            ) && spec_refund(
                old(self)@.payments[payment_index(old(self)@.payments, payment_id)],
                refund.amount,
                refund.reason.deep_view(),
                0,
            ).1 is Applied,
            r matches Ok(resp) ==> (exists|t: int|
                0 <= t && #[trigger] refund_committed(
                    old(self)@,
                    final(self)@,
                    payment_id,
                    refund.amount,
                    refund.reason.deep_view(),
                    t,
                    resp@,
                )),
    {
        let t = crate::runtime::now_millis();
        let now: i64 = if t < 0 {
            0
        } else {
            t
        };
        self.refund_payment_at(payment_id, refund, credential, now)
    }

    /// Hands the pending lifecycle events to the caller, in commit order,
    /// for publication after the fact; the log is left empty and the rest
    /// of the service untouched. A publish failure downstream can thus
    /// never affect a committed transition.
    pub fn take_events(&mut self) -> (r: Vec<LifecycleEvent>)
        ensures
            r.deep_view() == old(self)@.events,
            final(self)@.events == Seq::<EventModel>::empty(),
            final(self)@.payments == old(self)@.payments,
            final(self)@.merchants == old(self)@.merchants,
            inv(old(self)@) ==> inv(final(self)@),
    {
        let mut out: Vec<LifecycleEvent> = Vec::new();
        while self.events.len() > 0
            invariant
                self.events.deep_view() + out.deep_view() == old(self)@.events,
                self.store@ == old(self)@.payments,
                self.directory@ == old(self)@.merchants,
            decreases self.events@.len(),
        {
            let ghost prelog = self.events.deep_view();
            let ghost preout = out.deep_view();
            match self.events.pop() {
                Some(e) => {
                    out.insert(0, e);
                    proof {
                        assert(self.events.deep_view() =~= prelog.drop_last());
                        assert(out.deep_view() =~= seq![prelog.last()] + preout);
                        assert(self.events.deep_view() + out.deep_view() =~= prelog + preout);
                    }
                },
                None => {
                    proof {
                        assert(false);
                    }
                },
            }
        }
        proof {
            assert(self.events.deep_view() =~= Seq::<EventModel>::empty());
            assert(out.deep_view() =~= old(self)@.events);
        }
        out
    }

    /// The deposit address for a payment: its id and creation time,
    /// hex-encoded behind a `0x` tag.
    pub fn generate_crypto_address(&self, p: &Payment) -> (r: String)
        requires
            p@.created_at >= 0,
        ensures
            r@ == payment_address_chars(p@.id, p@.created_at),
    {
        payment_address(p.id, p.created_at)
    }
}

/// Under a well-formed store, the row index of an id is the one where it
/// was found.
pub proof fn lemma_payment_index_unique(s: Seq<PaymentModel>, id: u128, i: int)
    requires
        store_wf(s),
        0 <= i < s.len(),
        s[i].id == id,
    ensures
        contains_payment(s, id),
        payment_index(s, id) == i,
{
    assert(contains_payment(s, id));
    let j = choose|j: int| 0 <= j < s.len() && (#[trigger] s[j]).id == id;
    if i != j {
        assert(s[i].id != s[j].id);
    }
}

/// Under a well-formed directory, a successful resolution pins
/// `merchant_for` to the resolved merchant's identity and policy.
pub proof fn lemma_merchant_for_unique(
    d: Seq<MerchantModel>,
    cred: Seq<char>,
    merchant_id: u128,
    allow_large: bool,
)
    requires
        directory_wf(d),
        resolves(d, cred),
        exists|i: int|
            0 <= i < d.len() && (#[trigger] d[i]).credential == cred && d[i].active && d[i].id
                == merchant_id && d[i].allow_large_payments == allow_large,
    ensures
        merchant_for(d, cred).id == merchant_id,
        merchant_for(d, cred).allow_large_payments == allow_large,
{
    let i = choose|i: int|
        0 <= i < d.len() && (#[trigger] d[i]).credential == cred && d[i].active && d[i].id
            == merchant_id && d[i].allow_large_payments == allow_large;
    let j = choose|j: int| 0 <= j < d.len() && (#[trigger] d[j]).credential == cred && d[j].active;
    assert(0 <= j < d.len() && d[j].credential == cred && d[j].active);
    if i != j {
        assert(d[i].credential != d[j].credential);
    }
}

} // verus!
