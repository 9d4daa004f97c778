//! The payment entity, the request and response shapes around it, and
//! input validation.
//!
//! Every type has a mathematical model (`PaymentModel`, `ResponseModel`)
//! over which the orchestrator's contracts are stated. `payment_wf` is the
//! well-formedness invariant of a payment row: a positive amount, a
//! three-letter upper-case currency, a refunded amount that never exceeds
//! the amount, and refund/failure fields consistent with the status.

use vstd::prelude::*;

use crate::lifecycle::{PaymentMethod, PaymentStatus};
use crate::text::{is_ascii_letter, spec_upper_char, upper_char};

verus! {

/// A payment row. `amount` and `refunded_amount` are in minor currency
/// units. `metadata` is an opaque key/value bag, never interpreted here.
#[derive(Debug)]
pub struct Payment {
    pub id: u128,
    pub merchant_id: u128,
    pub customer_id: Option<u128>,
    pub amount: i64,
    pub currency: String,
    pub status: PaymentStatus,
    pub payment_method: PaymentMethod,
    pub description: Option<String>,
    pub metadata: Vec<(String, String)>,
    pub refunded_amount: i64,
    pub refund_reason: Option<String>,
    pub failure_code: Option<String>,
    pub failure_message: Option<String>,
    pub created_at: i64,
    pub updated_at: i64,
}

/// The mathematical model of a payment row.
#[verifier::ext_equal]
pub ghost struct PaymentModel {
    pub id: u128,
    pub merchant_id: u128,
    pub customer_id: Option<u128>,
    pub amount: int,
    pub currency: Seq<char>,
    pub status: PaymentStatus,
    pub payment_method: PaymentMethod,
    pub description: Option<Seq<char>>,
    pub metadata: Seq<(Seq<char>, Seq<char>)>,
    pub refunded_amount: int,
    pub refund_reason: Option<Seq<char>>,
    pub failure_code: Option<Seq<char>>,
    pub failure_message: Option<Seq<char>>,
    pub created_at: int,
    pub updated_at: int,
}

impl View for Payment {
    type V = PaymentModel;

    open spec fn view(&self) -> PaymentModel {
        PaymentModel {
            id: self.id,
            merchant_id: self.merchant_id,
            customer_id: self.customer_id,
            amount: self.amount as int,
            currency: self.currency@,
            status: self.status,
            payment_method: self.payment_method,
            description: self.description.deep_view(),
            metadata: self.metadata.deep_view(),
            refunded_amount: self.refunded_amount as int,
            refund_reason: self.refund_reason.deep_view(),
            failure_code: self.failure_code.deep_view(),
            failure_message: self.failure_message.deep_view(),
            created_at: self.created_at as int,
            updated_at: self.updated_at as int,
        }
    }
}

/// A well-formed currency code: exactly three upper-case ASCII letters.
pub open spec fn currency_wf(s: Seq<char>) -> bool {
    s.len() == 3 && (forall|i: int| 0 <= i < 3 ==> 65 <= #[trigger] s[i] as u32 <= 90)
}

/// An acceptable currency input: exactly three ASCII letters of either case.
pub open spec fn currency_input_ok(s: Seq<char>) -> bool {
    s.len() == 3 && (forall|i: int| 0 <= i < 3 ==> is_ascii_letter(#[trigger] s[i]))
}

/// The upper-case form of a character sequence.
pub open spec fn spec_upper_seq(s: Seq<char>) -> Seq<char> {
    Seq::new(s.len(), |i: int| spec_upper_char(s[i]))
}

/// Well-formedness of a payment row: the invariant every committed row
/// satisfies. The refunded amount never exceeds the amount, and is zero
/// unless the payment has entered the refund family of states; failure
/// details are set only in `Failed`.
pub open spec fn payment_wf(m: PaymentModel) -> bool {
    &&& m.amount > 0
    &&& 0 <= m.refunded_amount <= m.amount
    &&& currency_wf(m.currency)
    &&& m.created_at >= 0
    &&& m.updated_at >= 0
    &&& (m.status is Refunded ==> m.refunded_amount == m.amount)
    &&& (m.status is PartiallyRefunded ==> 0 < m.refunded_amount < m.amount)
    &&& (!(m.status is Refunded || m.status is PartiallyRefunded || m.status is Disputed)
        ==> m.refunded_amount == 0)
    &&& (!(m.status is Failed) ==> m.failure_code is None && m.failure_message is None)
}

/// Normalizes a currency input: `Some` of the upper-cased code exactly when
/// the input is three ASCII letters.
pub fn normalize_currency(c: &str) -> (r: Option<String>)
    ensures
        r is Some <==> currency_input_ok(c@),
        r matches Some(s) ==> s@ == spec_upper_seq(c@) && currency_wf(s@),
{
    let n = c.unicode_len();
    if n != 3 {
        return None;
    }
    let mut out = String::new();
    let mut i: usize = 0;
    while i < 3
        invariant
            c@.len() == 3,
            i <= 3,
            out@.len() == i,
            forall|j: int| 0 <= j < i ==> is_ascii_letter(#[trigger] c@[j]),
            forall|j: int| 0 <= j < i ==> out@[j] == spec_upper_char(#[trigger] c@[j]),
        decreases 3 - i,
    {
        let ch = c.get_char(i);
        let u = ch as u32;
        if !((65 <= u && u <= 90) || (97 <= u && u <= 122)) {
            return None;
        }
        out.push(upper_char(ch));
        i += 1;
    }
    proof {
        assert(out@ =~= spec_upper_seq(c@));
        assert forall|j: int| 0 <= j < 3 implies 65 <= #[trigger] spec_upper_seq(c@)[j] as u32
            <= 90 by {
            assert(is_ascii_letter(c@[j]));
        }
    }
    Some(out)
}

/// A request to create a payment.
#[derive(Debug)]
pub struct CreatePaymentRequest {
    pub amount: i64,
    pub currency: String,
    pub payment_method: PaymentMethod,
    pub description: Option<String>,
    pub metadata: Vec<(String, String)>,
    pub customer_id: Option<u128>,
    pub source: Option<PaymentSource>,
}

#[derive(Debug)]
pub struct PaymentSource {
    pub token: String,
    pub card: Option<CardDetails>,
    pub billing_details: Option<BillingDetails>,
}

#[derive(Debug)]
pub struct CardDetails {
    pub number: String,
    pub exp_month: u8,
    pub exp_year: u16,
    pub cvc: String,
    pub name: Option<String>,
}

#[derive(Debug)]
pub struct BillingDetails {
    pub name: Option<String>,
    pub email: Option<String>,
    pub phone: Option<String>,
    pub address: Option<Address>,
}

#[derive(Debug)]
pub struct Address {
    pub line1: String,
    pub line2: Option<String>,
    pub city: String,
    pub state: Option<String>,
    pub postal_code: String,
    pub country: String,
}

/// A refund request: `amount` defaults to the full remaining balance.
#[derive(Debug)]
pub struct RefundRequest {
    pub amount: Option<i64>,
    pub reason: Option<String>,
}

/// The action a caller must take to continue a payment.
#[derive(Debug)]
pub enum NextAction {
    Redirect { url: String },
    ThreeDSecure { url: String },
    VerifyWithAmounts { amounts: Vec<i64> },
}

#[verifier::ext_equal]
pub ghost enum NextActionModel {
    Redirect { url: Seq<char> },
    ThreeDSecure { url: Seq<char> },
    VerifyWithAmounts { amounts: Seq<i64> },
}

impl View for NextAction {
    type V = NextActionModel;

    open spec fn view(&self) -> NextActionModel {
        match self {
            NextAction::Redirect { url } => NextActionModel::Redirect { url: url@ },
            NextAction::ThreeDSecure { url } => NextActionModel::ThreeDSecure { url: url@ },
            NextAction::VerifyWithAmounts { amounts } => NextActionModel::VerifyWithAmounts {
                amounts: amounts@,
            },
        }
    }
}

/// What a caller sees of a payment.
#[derive(Debug)]
pub struct PaymentResponse {
    pub id: u128,
    pub amount: i64,
    pub currency: String,
    pub status: PaymentStatus,
    pub payment_method: PaymentMethod,
    pub customer_id: Option<u128>,
    pub description: Option<String>,
    pub metadata: Vec<(String, String)>,
    pub created_at: i64,
    pub client_secret: Option<String>,
    pub next_action: Option<NextAction>,
}

/// The mathematical model of a response.
#[verifier::ext_equal]
pub ghost struct ResponseModel {
    pub id: u128,
    pub amount: int,
    pub currency: Seq<char>,
    pub status: PaymentStatus,
    pub payment_method: PaymentMethod,
    pub customer_id: Option<u128>,
    pub description: Option<Seq<char>>,
    pub metadata: Seq<(Seq<char>, Seq<char>)>,
    pub created_at: int,
    pub client_secret: Option<Seq<char>>,
    pub next_action: Option<NextActionModel>,
}

impl View for PaymentResponse {
    type V = ResponseModel;

    open spec fn view(&self) -> ResponseModel {
        ResponseModel {
            id: self.id,
            amount: self.amount as int,
            currency: self.currency@,
            status: self.status,
            payment_method: self.payment_method,
            customer_id: self.customer_id,
            description: self.description.deep_view(),
            metadata: self.metadata.deep_view(),
            created_at: self.created_at as int,
            client_secret: self.client_secret.deep_view(),
            next_action: match self.next_action {
                Some(a) => Some(a@),
                None => None,
            },
        }
    }
}

/// The response derived from a payment row: the row's fields, the given
/// client secret, and no next action.
pub open spec fn response_model_of(m: PaymentModel, client_secret: Option<Seq<char>>)
    -> ResponseModel {
    ResponseModel {
        id: m.id,
        amount: m.amount,
        currency: m.currency,
        status: m.status,
        payment_method: m.payment_method,
        customer_id: m.customer_id,
        description: m.description,
        metadata: m.metadata,
        created_at: m.created_at,
        client_secret: client_secret,
        next_action: None,
    }
}

/// A valid creation request: positive amount, three-letter currency, and a
/// description of at most 500 characters.
pub open spec fn request_valid(r: &CreatePaymentRequest) -> bool {
    &&& r.amount > 0
    &&& currency_input_ok(r.currency@)
    &&& (r.description matches Some(d) ==> d@.len() <= 500)
}

/// Checks a creation request, reporting `ValidationError` exactly on the
/// inputs `request_valid` rejects.
pub fn validate_create_request(r: &CreatePaymentRequest) -> (res: Result<
    (),
    crate::errors::DefiantError,
>)
    ensures
        res is Ok <==> request_valid(r),
        res matches Err(e) ==> e is ValidationError,
{
    if r.amount <= 0 {
        return Err(crate::errors::DefiantError::ValidationError(String::from_str(
            "amount must be positive",
        )));
    }
    let n = r.currency.as_str().unicode_len();
    if n != 3 {
        return Err(crate::errors::DefiantError::ValidationError(String::from_str(
            "currency must be a 3-letter code",
        )));
    }
    let mut i: usize = 0;
    while i < 3
        invariant
            r.currency@.len() == 3,
            i <= 3,
            forall|j: int| 0 <= j < i ==> is_ascii_letter(#[trigger] r.currency@[j]),
        decreases 3 - i,
    {
        let u = r.currency.as_str().get_char(i) as u32;
        if !((65 <= u && u <= 90) || (97 <= u && u <= 122)) {
            return Err(crate::errors::DefiantError::ValidationError(String::from_str(
                "currency must be a 3-letter code",
            )));
        }
        i += 1;
    }
    if let Some(d) = &r.description {
        if d.as_str().unicode_len() > 500 {
            return Err(crate::errors::DefiantError::ValidationError(String::from_str(
                "description too long",
            )));
        }
    }
    Ok(())
}

/// Clones an opaque key/value bag.
pub fn clone_metadata(v: &Vec<(String, String)>) -> (r: Vec<(String, String)>)
    ensures
        r.deep_view() == v.deep_view(),
{
    let mut r: Vec<(String, String)> = Vec::new();
    let mut i: usize = 0;
    while i < v.len()
        invariant
            i <= v.len(),
            r.len() == i,
            r.deep_view() == v.deep_view().take(i as int),
        decreases v.len() - i,
    {
        let entry = (v[i].0.clone(), v[i].1.clone());
        let ghost pre = r.deep_view();
        proof {
            assert(entry.deep_view() == v.deep_view()[i as int]);
        }
        r.push(entry);
        proof {
            assert(r.deep_view() =~= pre.push(entry.deep_view()));
            assert(pre.push(entry.deep_view()) =~= v.deep_view().take(i as int + 1));
        }
        i += 1;
    }
    proof {
        assert(v.deep_view().take(v.len() as int) =~= v.deep_view());
    }
    r
}

/// Clones an optional string.
pub fn clone_opt_string(o: &Option<String>) -> (r: Option<String>)
    ensures
        r.deep_view() == o.deep_view(),
{
    match o {
        Some(s) => Some(s.clone()),
        None => None,
    }
}

impl Clone for Payment {
    /// A clone carries the same model.
    fn clone(&self) -> (r: Payment)
        ensures
            r@ == self@,
    {
        let r = Payment {
            id: self.id,
            merchant_id: self.merchant_id,
            customer_id: self.customer_id,
            amount: self.amount,
            currency: self.currency.clone(),
            status: self.status,
            payment_method: self.payment_method,
            description: clone_opt_string(&self.description),
            metadata: clone_metadata(&self.metadata),
            refunded_amount: self.refunded_amount,
            refund_reason: clone_opt_string(&self.refund_reason),
            failure_code: clone_opt_string(&self.failure_code),
            failure_message: clone_opt_string(&self.failure_message),
            created_at: self.created_at,
            updated_at: self.updated_at,
        };
        proof {
            assert(r@ =~= self@);
        }
        r
    }
}

/// Builds the response for a payment row.
pub fn payment_to_response(p: &Payment, client_secret: Option<String>) -> (r: PaymentResponse)
    ensures
        r@ == response_model_of(p@, client_secret.deep_view()),
{
    let r = PaymentResponse {
        id: p.id,
        amount: p.amount,
        currency: p.currency.clone(),
        status: p.status,
        payment_method: p.payment_method,
        customer_id: p.customer_id,
        description: clone_opt_string(&p.description),
        metadata: clone_metadata(&p.metadata),
        created_at: p.created_at,
        client_secret: client_secret,
        next_action: None,
    };
    proof {
        assert(r@ =~= response_model_of(p@, r.client_secret.deep_view()));
    }
    r
}

} // verus!
