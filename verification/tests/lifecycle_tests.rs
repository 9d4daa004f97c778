use defiant_core::errors::DefiantError;
use defiant_core::events::EventType;
use defiant_core::lifecycle::{
    can_transition, method_from_str, status_from_str, PaymentMethod, PaymentStatus,
};

const ALL_STATUSES: [PaymentStatus; 11] = [
    PaymentStatus::Pending,
    PaymentStatus::Processing,
    PaymentStatus::RequiresAction,
    PaymentStatus::RequiresConfirmation,
    PaymentStatus::RequiresCapture,
    PaymentStatus::Canceled,
    PaymentStatus::Succeeded,
    PaymentStatus::Failed,
    PaymentStatus::Refunded,
    PaymentStatus::PartiallyRefunded,
    PaymentStatus::Disputed,
];

const ALL_METHODS: [PaymentMethod; 7] = [
    PaymentMethod::Card,
    PaymentMethod::BankTransfer,
    PaymentMethod::Crypto,
    PaymentMethod::ApplePay,
    PaymentMethod::GooglePay,
    PaymentMethod::PayPal,
    PaymentMethod::Custom,
];

#[test]
fn transition_table_holds_exactly_the_allowed_edges() {
    let allowed = [
        (PaymentStatus::Pending, PaymentStatus::Processing),
        (PaymentStatus::Processing, PaymentStatus::Succeeded),
        (PaymentStatus::Processing, PaymentStatus::RequiresCapture),
        (PaymentStatus::Processing, PaymentStatus::RequiresAction),
        (PaymentStatus::Processing, PaymentStatus::Failed),
        (PaymentStatus::RequiresAction, PaymentStatus::RequiresConfirmation),
        (PaymentStatus::RequiresAction, PaymentStatus::Failed),
        (PaymentStatus::RequiresAction, PaymentStatus::Canceled),
        (PaymentStatus::RequiresConfirmation, PaymentStatus::Processing),
        (PaymentStatus::RequiresConfirmation, PaymentStatus::Canceled),
        (PaymentStatus::RequiresCapture, PaymentStatus::Succeeded),
        (PaymentStatus::RequiresCapture, PaymentStatus::Canceled),
        (PaymentStatus::Succeeded, PaymentStatus::Refunded),
        (PaymentStatus::Succeeded, PaymentStatus::PartiallyRefunded),
        (PaymentStatus::Succeeded, PaymentStatus::Disputed),
        (PaymentStatus::PartiallyRefunded, PaymentStatus::Refunded),
        (PaymentStatus::PartiallyRefunded, PaymentStatus::Disputed),
    ];
    for from in ALL_STATUSES {
        for to in ALL_STATUSES {
            let expected = allowed.iter().any(|&(f, t)| f == from && t == to);
            assert_eq!(
                can_transition(from, to),
                expected,
                "edge {:?} -> {:?}",
                from,
                to
            );
        }
    }
}

#[test]
fn terminal_states_have_no_outgoing_edge() {
    for from in [
        PaymentStatus::Failed,
        PaymentStatus::Canceled,
        PaymentStatus::Refunded,
        PaymentStatus::Disputed,
    ] {
        for to in ALL_STATUSES {
            assert!(!can_transition(from, to), "{:?} -> {:?}", from, to);
        }
    }
}

#[test]
fn status_encoding_round_trips() {
    for s in ALL_STATUSES {
        let text = s.status_str();
        assert_eq!(status_from_str(text), Some(s));
    }
    assert_eq!(status_from_str("bogus"), None);
    assert_eq!(status_from_str(""), None);
    assert_eq!(status_from_str("Succeeded"), None);
}

#[test]
fn status_encoding_values() {
    assert_eq!(PaymentStatus::Pending.status_str(), "pending");
    assert_eq!(
        PaymentStatus::RequiresConfirmation.status_str(),
        "requires_confirmation"
    );
    assert_eq!(
        PaymentStatus::PartiallyRefunded.status_str(),
        "partially_refunded"
    );
}

#[test]
fn method_encoding_round_trips() {
    for m in ALL_METHODS {
        let text = m.method_str();
        assert_eq!(method_from_str(text), Some(m));
    }
    assert_eq!(method_from_str("wire"), None);
    assert_eq!(PaymentMethod::BankTransfer.method_str(), "bank_transfer");
    assert_eq!(PaymentMethod::PayPal.method_str(), "pay_pal");
}

#[test]
fn event_wire_names() {
    assert_eq!(EventType::PaymentCreated.wire_name(), "payment.created");
    assert_eq!(EventType::PaymentCaptured.wire_name(), "payment.captured");
    assert_eq!(EventType::PaymentRefunded.wire_name(), "payment.refunded");
    assert_eq!(EventType::PaymentFailed.wire_name(), "payment.failed");
}

#[test]
fn error_http_statuses() {
    let msg = || String::from("m");
    assert_eq!(DefiantError::DatabaseError(msg()).http_status(), 500);
    assert_eq!(DefiantError::ValidationError(msg()).http_status(), 400);
    assert_eq!(DefiantError::AuthenticationError(msg()).http_status(), 401);
    assert_eq!(DefiantError::AuthorizationError(msg()).http_status(), 403);
    assert_eq!(DefiantError::PaymentError(msg()).http_status(), 402);
    assert_eq!(DefiantError::WebhookError(msg()).http_status(), 500);
    assert_eq!(DefiantError::RateLimitError.http_status(), 429);
    assert_eq!(DefiantError::NotFound(msg()).http_status(), 404);
    assert_eq!(DefiantError::InternalError.http_status(), 500);
    assert_eq!(DefiantError::BadRequest(msg()).http_status(), 400);
    assert_eq!(DefiantError::Conflict(msg()).http_status(), 409);
}

#[test]
fn error_numeric_codes() {
    let msg = || String::from("m");
    assert_eq!(DefiantError::DatabaseError(msg()).numeric_code(), 1);
    assert_eq!(DefiantError::ValidationError(msg()).numeric_code(), 2);
    assert_eq!(DefiantError::AuthenticationError(msg()).numeric_code(), 3);
    assert_eq!(DefiantError::AuthorizationError(msg()).numeric_code(), 4);
    assert_eq!(DefiantError::PaymentError(msg()).numeric_code(), 5);
    assert_eq!(DefiantError::RateLimitError.numeric_code(), 6);
    assert_eq!(DefiantError::NotFound(msg()).numeric_code(), 7);
    assert_eq!(DefiantError::BadRequest(msg()).numeric_code(), 8);
    assert_eq!(DefiantError::Conflict(msg()).numeric_code(), 9);
    assert_eq!(DefiantError::WebhookError(msg()).numeric_code(), 0);
    assert_eq!(DefiantError::InternalError.numeric_code(), 0);
}

#[test]
fn error_code_strings() {
    let msg = || String::from("m");
    assert_eq!(DefiantError::DatabaseError(msg()).code_str(), "DB_ERROR");
    assert_eq!(
        DefiantError::ValidationError(msg()).code_str(),
        "VALIDATION_ERROR"
    );
    assert_eq!(
        DefiantError::AuthenticationError(msg()).code_str(),
        "AUTH_ERROR"
    );
    assert_eq!(
        DefiantError::AuthorizationError(msg()).code_str(),
        "FORBIDDEN"
    );
    assert_eq!(
        DefiantError::PaymentError(msg()).code_str(),
        "PAYMENT_ERROR"
    );
    assert_eq!(DefiantError::RateLimitError.code_str(), "RATE_LIMIT");
    assert_eq!(DefiantError::NotFound(msg()).code_str(), "NOT_FOUND");
    assert_eq!(DefiantError::InternalError.code_str(), "INTERNAL_ERROR");
    assert_eq!(DefiantError::BadRequest(msg()).code_str(), "BAD_REQUEST");
    assert_eq!(DefiantError::Conflict(msg()).code_str(), "CONFLICT");
    assert_eq!(DefiantError::WebhookError(msg()).code_str(), "INTERNAL_ERROR");
}
