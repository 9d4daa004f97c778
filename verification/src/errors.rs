//! Error taxonomy of the payment core.
//!
//! Every operation reports failure through `DefiantError`. The variants
//! carry a human-readable message; `http_status`, `code_str` and
//! `numeric_code` give the stable encodings used at the service boundary.

use vstd::prelude::*;

verus! {

/// The error taxonomy. `ValidationError` and `AuthenticationError` are
/// detected before any write; `Conflict` reports an illegal state
/// transition or a lost concurrent race; `InternalError` a store or
/// publisher failure unrelated to business rules.
#[derive(Debug, PartialEq, Eq)]
pub enum DefiantError {
    DatabaseError(String),
    ValidationError(String),
    AuthenticationError(String),
    AuthorizationError(String),
    PaymentError(String),
    WebhookError(String),
    RateLimitError,
    NotFound(String),
    InternalError,
    BadRequest(String),
    Conflict(String),
}

impl DefiantError {
    /// The HTTP status code under which this error is reported.
    pub open spec fn spec_http_status(&self) -> u16 {
        match self {
            DefiantError::DatabaseError(_) => 500,
            DefiantError::ValidationError(_) => 400,
            DefiantError::AuthenticationError(_) => 401,
            DefiantError::AuthorizationError(_) => 403,
            DefiantError::PaymentError(_) => 402,
            DefiantError::WebhookError(_) => 500,
            DefiantError::RateLimitError => 429,
            DefiantError::NotFound(_) => 404,
            DefiantError::InternalError => 500,
            DefiantError::BadRequest(_) => 400,
            DefiantError::Conflict(_) => 409,
        }
    }

    pub fn http_status(&self) -> (r: u16)
        ensures
            r == self.spec_http_status(),
    {
        match self {
            DefiantError::DatabaseError(_) => 500,
            DefiantError::ValidationError(_) => 400,
            DefiantError::AuthenticationError(_) => 401,
            DefiantError::AuthorizationError(_) => 403,
            DefiantError::PaymentError(_) => 402,
            DefiantError::WebhookError(_) => 500,
            DefiantError::RateLimitError => 429,
            DefiantError::NotFound(_) => 404,
            DefiantError::InternalError => 500,
            DefiantError::BadRequest(_) => 400,
            DefiantError::Conflict(_) => 409,
        }
    }

    /// The numeric code used by callers in other runtimes; `0` stands for
    /// an unclassified internal failure.
    pub open spec fn spec_numeric_code(&self) -> i32 {
        match self {
            DefiantError::DatabaseError(_) => 1,
            DefiantError::ValidationError(_) => 2,
            DefiantError::AuthenticationError(_) => 3,
            DefiantError::AuthorizationError(_) => 4,
            DefiantError::PaymentError(_) => 5,
            DefiantError::RateLimitError => 6,
            DefiantError::NotFound(_) => 7,
            DefiantError::BadRequest(_) => 8,
            DefiantError::Conflict(_) => 9,
            DefiantError::WebhookError(_) => 0,
            DefiantError::InternalError => 0,
        }
    }

    pub fn numeric_code(&self) -> (r: i32)
        ensures
            r == self.spec_numeric_code(),
    {
        match self {
            DefiantError::DatabaseError(_) => 1,
            DefiantError::ValidationError(_) => 2,
            DefiantError::AuthenticationError(_) => 3,
            DefiantError::AuthorizationError(_) => 4,
            DefiantError::PaymentError(_) => 5,
            DefiantError::RateLimitError => 6,
            DefiantError::NotFound(_) => 7,
            DefiantError::BadRequest(_) => 8,
            DefiantError::Conflict(_) => 9,
            DefiantError::WebhookError(_) => 0,
            DefiantError::InternalError => 0,
        }
    }

    /// The stable machine-readable code string for this error.
    pub fn code_str(&self) -> (r: &'static str)
        ensures
            (self is DatabaseError) ==> r@ == "DB_ERROR"@,
            (self is ValidationError) ==> r@ == "VALIDATION_ERROR"@,
            (self is AuthenticationError) ==> r@ == "AUTH_ERROR"@,
            (self is AuthorizationError) ==> r@ == "FORBIDDEN"@,
            (self is PaymentError) ==> r@ == "PAYMENT_ERROR"@,
            (self is RateLimitError) ==> r@ == "RATE_LIMIT"@,
            (self is NotFound) ==> r@ == "NOT_FOUND"@,
            (self is BadRequest) ==> r@ == "BAD_REQUEST"@,
            (self is Conflict) ==> r@ == "CONFLICT"@,
            (self is WebhookError || self is InternalError) ==> r@ == "INTERNAL_ERROR"@,
    {
        match self {
            DefiantError::DatabaseError(_) => "DB_ERROR",
            DefiantError::ValidationError(_) => "VALIDATION_ERROR",
            DefiantError::AuthenticationError(_) => "AUTH_ERROR",
            DefiantError::AuthorizationError(_) => "FORBIDDEN",
            DefiantError::PaymentError(_) => "PAYMENT_ERROR",
            DefiantError::RateLimitError => "RATE_LIMIT",
            DefiantError::NotFound(_) => "NOT_FOUND",
            DefiantError::BadRequest(_) => "BAD_REQUEST",
            DefiantError::Conflict(_) => "CONFLICT",
            DefiantError::WebhookError(_) => "INTERNAL_ERROR",
            DefiantError::InternalError => "INTERNAL_ERROR",
        }
    }
}

} // verus!
