//! The fraud check: a pure decision over a requested amount and the
//! merchant's policy.
//!
//! Amounts above `FRAUD_THRESHOLD` minor units are denied unless the
//! merchant's `allow_large_payments` flag is set. The check comes before
//! any write, so a denial never persists a payment.

use vstd::prelude::*;

use crate::errors::DefiantError;

verus! {

/// Amounts above this many minor currency units need the merchant's
/// `allow_large_payments` flag.
pub const FRAUD_THRESHOLD: i64 = 100_000_000;

/// The fraud rule: allow exactly when the amount is within the threshold
/// or the merchant may take large payments.
pub open spec fn fraud_allows(amount: int, allow_large_payments: bool) -> bool {
    amount <= FRAUD_THRESHOLD as int || allow_large_payments
}

/// Applies the fraud rule, reporting `PaymentError` exactly on denial.
pub fn check_fraud(amount: i64, allow_large_payments: bool) -> (r: Result<(), DefiantError>)
    ensures
        r is Ok <==> fraud_allows(amount as int, allow_large_payments),
        r matches Err(e) ==> e is PaymentError,
{
    if amount > FRAUD_THRESHOLD && !allow_large_payments {
        Err(DefiantError::PaymentError(String::from_str("Large payments not allowed")))
    } else {
        Ok(())
    }
}

} // verus!
