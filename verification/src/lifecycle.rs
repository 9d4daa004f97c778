//! Payment lifecycle: statuses, payment methods and the transition table.
//!
//! A payment starts in `Pending` and only ever moves along an edge of
//! `lifecycle_edge`. `Failed`, `Canceled`, `Refunded` and `Disputed` are
//! terminal: no edge leaves them.

use vstd::prelude::*;

use crate::text::str_eq;

verus! {

/// The lifecycle states of a payment.
#[derive(Clone, Copy, Debug, PartialEq, Eq, Structural, Hash)]
pub enum PaymentStatus {
    Pending,
    Processing,
    RequiresAction,
    RequiresConfirmation,
    RequiresCapture,
    Canceled,
    Succeeded,
    Failed,
    Refunded,
    PartiallyRefunded,
    Disputed,
}

/// How a payment is funded.
#[derive(Clone, Copy, Debug, PartialEq, Eq, Structural, Hash)]
pub enum PaymentMethod {
    Card,
    BankTransfer,
    Crypto,
    ApplePay,
    GooglePay,
    PayPal,
    Custom,
}

/// The allowed transitions of the payment state machine.
pub open spec fn lifecycle_edge(from: PaymentStatus, to: PaymentStatus) -> bool {
    match (from, to) {
        (PaymentStatus::Pending, PaymentStatus::Processing) => true,
        (PaymentStatus::Processing, PaymentStatus::Succeeded) => true,
        (PaymentStatus::Processing, PaymentStatus::RequiresCapture) => true,
        (PaymentStatus::Processing, PaymentStatus::RequiresAction) => true,
        (PaymentStatus::Processing, PaymentStatus::Failed) => true,
        (PaymentStatus::RequiresAction, PaymentStatus::RequiresConfirmation) => true,
        (PaymentStatus::RequiresAction, PaymentStatus::Failed) => true,
        (PaymentStatus::RequiresAction, PaymentStatus::Canceled) => true,
        (PaymentStatus::RequiresConfirmation, PaymentStatus::Processing) => true,
        (PaymentStatus::RequiresConfirmation, PaymentStatus::Canceled) => true,
        (PaymentStatus::RequiresCapture, PaymentStatus::Succeeded) => true,
        (PaymentStatus::RequiresCapture, PaymentStatus::Canceled) => true,
        (PaymentStatus::Succeeded, PaymentStatus::Refunded) => true,
        (PaymentStatus::Succeeded, PaymentStatus::PartiallyRefunded) => true,
        (PaymentStatus::Succeeded, PaymentStatus::Disputed) => true,
        (PaymentStatus::PartiallyRefunded, PaymentStatus::Refunded) => true,
        (PaymentStatus::PartiallyRefunded, PaymentStatus::Disputed) => true,
        _ => false,
    }
}

/// A state that no edge leaves.
pub open spec fn is_terminal(s: PaymentStatus) -> bool {
    match s {
        PaymentStatus::Failed => true,
        PaymentStatus::Canceled => true,
        PaymentStatus::Refunded => true,
        PaymentStatus::Disputed => true,
        _ => false,
    }
}

/// The transition table, as executable code: `true` exactly on the edges of
/// `lifecycle_edge`.
pub fn can_transition(from: PaymentStatus, to: PaymentStatus) -> (r: bool)
    ensures
        r == lifecycle_edge(from, to),
{
    match (from, to) {
        (PaymentStatus::Pending, PaymentStatus::Processing) => true,
        (PaymentStatus::Processing, PaymentStatus::Succeeded) => true,
        (PaymentStatus::Processing, PaymentStatus::RequiresCapture) => true,
        (PaymentStatus::Processing, PaymentStatus::RequiresAction) => true,
        (PaymentStatus::Processing, PaymentStatus::Failed) => true,
        (PaymentStatus::RequiresAction, PaymentStatus::RequiresConfirmation) => true,
        (PaymentStatus::RequiresAction, PaymentStatus::Failed) => true,
        (PaymentStatus::RequiresAction, PaymentStatus::Canceled) => true,
        (PaymentStatus::RequiresConfirmation, PaymentStatus::Processing) => true,
        (PaymentStatus::RequiresConfirmation, PaymentStatus::Canceled) => true,
        (PaymentStatus::RequiresCapture, PaymentStatus::Succeeded) => true,
        (PaymentStatus::RequiresCapture, PaymentStatus::Canceled) => true,
        (PaymentStatus::Succeeded, PaymentStatus::Refunded) => true,
        (PaymentStatus::Succeeded, PaymentStatus::PartiallyRefunded) => true,
        (PaymentStatus::Succeeded, PaymentStatus::Disputed) => true,
        (PaymentStatus::PartiallyRefunded, PaymentStatus::Refunded) => true,
        (PaymentStatus::PartiallyRefunded, PaymentStatus::Disputed) => true,
        _ => false,
    }
}

/// Terminal states have no outgoing edge: once a payment is `Failed`,
/// `Canceled`, `Refunded` or `Disputed`, no further transition is allowed.
pub proof fn lemma_terminal_states_are_final(s: PaymentStatus, t: PaymentStatus)
    requires
        is_terminal(s),
    ensures
        !lifecycle_edge(s, t),
{
}

/// The stable storage encoding of a status.
pub open spec fn spec_status_str(s: PaymentStatus) -> Seq<char> {
    match s {
        PaymentStatus::Pending => "pending"@,
        PaymentStatus::Processing => "processing"@,
        PaymentStatus::RequiresAction => "requires_action"@,
        PaymentStatus::RequiresConfirmation => "requires_confirmation"@,
        PaymentStatus::RequiresCapture => "requires_capture"@,
        PaymentStatus::Canceled => "canceled"@,
        PaymentStatus::Succeeded => "succeeded"@,
        PaymentStatus::Failed => "failed"@,
        PaymentStatus::Refunded => "refunded"@,
        PaymentStatus::PartiallyRefunded => "partially_refunded"@,
        PaymentStatus::Disputed => "disputed"@,
    }
}

impl PaymentStatus {
    /// The storage encoding of this status.
    pub fn status_str(&self) -> (r: &'static str)
        ensures
            r@ == spec_status_str(*self),
    {
        match self {
            PaymentStatus::Pending => "pending",
            PaymentStatus::Processing => "processing",
            PaymentStatus::RequiresAction => "requires_action",
            PaymentStatus::RequiresConfirmation => "requires_confirmation",
            PaymentStatus::RequiresCapture => "requires_capture",
            PaymentStatus::Canceled => "canceled",
            PaymentStatus::Succeeded => "succeeded",
            PaymentStatus::Failed => "failed",
            PaymentStatus::Refunded => "refunded",
            PaymentStatus::PartiallyRefunded => "partially_refunded",
            PaymentStatus::Disputed => "disputed",
        }
    }
}

/// Decodes a storage encoding back to a status. Returns `Some` exactly for
/// the eleven encodings `spec_status_str` produces.
pub fn status_from_str(t: &str) -> (r: Option<PaymentStatus>)
    ensures
        r matches Some(s) ==> t@ == spec_status_str(s),
        r is None ==> forall|s: PaymentStatus| t@ != spec_status_str(s),
{
    if str_eq(t, "pending") {
        Some(PaymentStatus::Pending)
    } else if str_eq(t, "processing") {
        Some(PaymentStatus::Processing)
    } else if str_eq(t, "requires_action") {
        Some(PaymentStatus::RequiresAction)
    } else if str_eq(t, "requires_confirmation") {
        Some(PaymentStatus::RequiresConfirmation)
    } else if str_eq(t, "requires_capture") {
        Some(PaymentStatus::RequiresCapture)
    } else if str_eq(t, "canceled") {
        Some(PaymentStatus::Canceled)
    } else if str_eq(t, "succeeded") {
        Some(PaymentStatus::Succeeded)
    } else if str_eq(t, "failed") {
        Some(PaymentStatus::Failed)
    } else if str_eq(t, "refunded") {
        Some(PaymentStatus::Refunded)
    } else if str_eq(t, "partially_refunded") {
        Some(PaymentStatus::PartiallyRefunded)
    } else if str_eq(t, "disputed") {
        Some(PaymentStatus::Disputed)
    } else {
        None
    }
}

/// The stable storage encoding of a payment method.
pub open spec fn spec_method_str(m: PaymentMethod) -> Seq<char> {
    match m {
        PaymentMethod::Card => "card"@,
        PaymentMethod::BankTransfer => "bank_transfer"@,
        PaymentMethod::Crypto => "crypto"@,
        PaymentMethod::ApplePay => "apple_pay"@,
        PaymentMethod::GooglePay => "google_pay"@,
        PaymentMethod::PayPal => "pay_pal"@,
        PaymentMethod::Custom => "custom"@,
    }
}

impl PaymentMethod {
    /// The storage encoding of this method.
    pub fn method_str(&self) -> (r: &'static str)
        ensures
            r@ == spec_method_str(*self),
    {
        match self {
            PaymentMethod::Card => "card",
            PaymentMethod::BankTransfer => "bank_transfer",
            PaymentMethod::Crypto => "crypto",
            PaymentMethod::ApplePay => "apple_pay",
            PaymentMethod::GooglePay => "google_pay",
            PaymentMethod::PayPal => "pay_pal",
            PaymentMethod::Custom => "custom",
        }
    }
}

/// Decodes a storage encoding back to a payment method.
pub fn method_from_str(t: &str) -> (r: Option<PaymentMethod>)
    ensures
        r matches Some(m) ==> t@ == spec_method_str(m),
        r is None ==> forall|m: PaymentMethod| t@ != spec_method_str(m),
{
    if str_eq(t, "card") {
        Some(PaymentMethod::Card)
    } else if str_eq(t, "bank_transfer") {
        Some(PaymentMethod::BankTransfer)
    } else if str_eq(t, "crypto") {
        Some(PaymentMethod::Crypto)
    } else if str_eq(t, "apple_pay") {
        Some(PaymentMethod::ApplePay)
    } else if str_eq(t, "google_pay") {
        Some(PaymentMethod::GooglePay)
    } else if str_eq(t, "pay_pal") {
        Some(PaymentMethod::PayPal)
    } else if str_eq(t, "custom") {
        Some(PaymentMethod::Custom)
    } else {
        None
    }
}

/// The status encoding is lossless: distinct statuses have distinct
/// encodings.
pub proof fn lemma_status_str_injective(a: PaymentStatus, b: PaymentStatus)
    requires
        spec_status_str(a) == spec_status_str(b),
    ensures
        a == b,
{
    reveal_strlit("pending");
    reveal_strlit("processing");
    reveal_strlit("requires_action");
    reveal_strlit("requires_confirmation");
    reveal_strlit("requires_capture");
    reveal_strlit("canceled");
    reveal_strlit("succeeded");
    reveal_strlit("failed");
    reveal_strlit("refunded");
    reveal_strlit("partially_refunded");
    reveal_strlit("disputed");
    assert("pending"@.len() == 7);
    assert("processing"@.len() == 10);
    assert("requires_action"@.len() == 15);
    assert("requires_confirmation"@.len() == 21);
    assert("requires_capture"@.len() == 16);
    assert("canceled"@.len() == 8);
    assert("succeeded"@.len() == 9);
    assert("failed"@.len() == 6);
    assert("refunded"@.len() == 8);
    assert("partially_refunded"@.len() == 18);
    assert("disputed"@.len() == 8);
    assert("canceled"@[0] == 'c');
    assert("refunded"@[0] == 'r');
    assert("disputed"@[0] == 'd');
}

/// The method encoding is lossless: distinct methods have distinct
/// encodings.
pub proof fn lemma_method_str_injective(a: PaymentMethod, b: PaymentMethod)
    requires
        spec_method_str(a) == spec_method_str(b),
    ensures
        a == b,
{
    reveal_strlit("card");
    reveal_strlit("bank_transfer");
    reveal_strlit("crypto");
    reveal_strlit("apple_pay");
    reveal_strlit("google_pay");
    reveal_strlit("pay_pal");
    reveal_strlit("custom");
    assert("card"@.len() == 4);
    assert("bank_transfer"@.len() == 13);
    assert("crypto"@.len() == 6);
    assert("apple_pay"@.len() == 9);
    assert("google_pay"@.len() == 10);
    assert("pay_pal"@.len() == 7);
    assert("custom"@.len() == 6);
    assert("crypto"@[1] == 'r');
    assert("custom"@[1] == 'u');
}

} // verus!
