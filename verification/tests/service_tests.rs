use defiant_core::errors::DefiantError;
use defiant_core::lifecycle::{PaymentMethod, PaymentStatus};
use defiant_core::merchant::Merchant;
use defiant_core::payment::{CreatePaymentRequest, RefundRequest};
use defiant_core::processor::{FixedOutcomeProcessor, PaymentProcessor, ProcessorOutcome};
use defiant_core::events::EventType;
use defiant_core::service::PaymentService;

fn merchant(id: u128, credential: &str, active: bool, allow_large: bool) -> Merchant {
    Merchant {
        id,
        name: String::from("Acme"),
        email: String::from("ops@acme.example"),
        credential: String::from(credential),
        active,
        allow_large_payments: allow_large,
    }
}

fn request(amount: i64, currency: &str) -> CreatePaymentRequest {
    CreatePaymentRequest {
        amount,
        currency: String::from(currency),
        payment_method: PaymentMethod::Card,
        description: None,
        metadata: Vec::new(),
        customer_id: None,
        source: None,
    }
}

fn service_with_merchant() -> PaymentService {
    let mut svc = PaymentService::new();
    svc.register_merchant(merchant(1, "sk_test_1", true, false))
        .expect("merchant registers");
    svc
}

fn succeeding() -> FixedOutcomeProcessor {
    FixedOutcomeProcessor {
        outcome: ProcessorOutcome::Succeeded,
    }
}

fn capturing() -> FixedOutcomeProcessor {
    FixedOutcomeProcessor {
        outcome: ProcessorOutcome::RequiresCapture,
    }
}

#[test]
fn create_succeeds_below_threshold() {
    let mut svc = service_with_merchant();
    let resp = svc
        .create_payment_at(&request(1000, "usd"), "sk_test_1", &succeeding(), 7, 8, 100)
        .expect("create succeeds");
    assert_eq!(resp.id, 7);
    assert_eq!(resp.amount, 1000);
    assert_eq!(resp.currency, "USD");
    assert_eq!(resp.status, PaymentStatus::Succeeded);
    assert_eq!(svc.store.rows.len(), 1);
    assert_eq!(svc.store.rows[0].refunded_amount, 0);
    assert_eq!(svc.events.len(), 1);
    assert_eq!(svc.events[0].event_type, EventType::PaymentCreated);
    assert_eq!(svc.events[0].data.id, 7);
    assert_eq!(svc.events[0].occurred_at, 100);
}

#[test]
fn create_emits_created_event_with_post_processor_status() {
    let mut svc = service_with_merchant();
    let processor = FixedOutcomeProcessor {
        outcome: ProcessorOutcome::Failed {
            code: String::from("card_declined"),
            message: String::from("Do not honor"),
        },
    };
    let resp = svc
        .create_payment_at(&request(500, "eur"), "sk_test_1", &processor, 1, 2, 3)
        .expect("create returns the failed payment");
    assert_eq!(resp.status, PaymentStatus::Failed);
    assert_eq!(svc.store.rows[0].status, PaymentStatus::Failed);
    assert_eq!(
        svc.store.rows[0].failure_code.as_deref(),
        Some("card_declined")
    );
    assert_eq!(
        svc.store.rows[0].failure_message.as_deref(),
        Some("Do not honor")
    );
    assert_eq!(svc.events.len(), 1);
    assert_eq!(svc.events[0].event_type, EventType::PaymentCreated);
    assert_eq!(svc.events[0].data.status, PaymentStatus::Failed);
}

#[test]
fn create_rejects_bad_amount() {
    let mut svc = service_with_merchant();
    let err = svc
        .create_payment_at(&request(0, "usd"), "sk_test_1", &succeeding(), 1, 2, 3)
        .unwrap_err();
    assert!(matches!(err, DefiantError::ValidationError(_)));
    assert!(svc.store.rows.is_empty());
    assert!(svc.events.is_empty());
}

#[test]
fn create_rejects_bad_currency() {
    let mut svc = service_with_merchant();
    for bad in ["us", "usdd", "u5d", ""] {
        let err = svc
            .create_payment_at(&request(100, bad), "sk_test_1", &succeeding(), 1, 2, 3)
            .unwrap_err();
        assert!(matches!(err, DefiantError::ValidationError(_)));
    }
    assert!(svc.store.rows.is_empty());
}

#[test]
fn create_rejects_long_description() {
    let mut svc = service_with_merchant();
    let mut req = request(100, "usd");
    req.description = Some("x".repeat(501));
    let err = svc
        .create_payment_at(&req, "sk_test_1", &succeeding(), 1, 2, 3)
        .unwrap_err();
    assert!(matches!(err, DefiantError::ValidationError(_)));
    req.description = Some("x".repeat(500));
    assert!(svc
        .create_payment_at(&req, "sk_test_1", &succeeding(), 1, 2, 3)
        .is_ok());
}

#[test]
fn create_rejects_unknown_credential() {
    let mut svc = service_with_merchant();
    let err = svc
        .create_payment_at(&request(100, "usd"), "sk_other", &succeeding(), 1, 2, 3)
        .unwrap_err();
    assert!(matches!(err, DefiantError::AuthenticationError(_)));
}

#[test]
fn create_rejects_inactive_merchant() {
    let mut svc = PaymentService::new();
    svc.register_merchant(merchant(1, "sk_test_1", false, false))
        .expect("merchant registers");
    let err = svc
        .create_payment_at(&request(100, "usd"), "sk_test_1", &succeeding(), 1, 2, 3)
        .unwrap_err();
    assert!(matches!(err, DefiantError::AuthenticationError(_)));
}

#[test]
fn fraud_threshold_denies_large_payments_without_flag() {
    let mut svc = service_with_merchant();
    let ok = svc.create_payment_at(
        &request(100_000_000, "usd"),
        "sk_test_1",
        &succeeding(),
        1,
        2,
        3,
    );
    assert!(ok.is_ok());
    let err = svc
        .create_payment_at(
            &request(100_000_001, "usd"),
            "sk_test_1",
            &succeeding(),
            4,
            5,
            6,
        )
        .unwrap_err();
    assert!(matches!(err, DefiantError::PaymentError(_)));
    assert_eq!(svc.store.rows.len(), 1);
    assert_eq!(svc.events.len(), 1);
}

#[test]
fn fraud_threshold_respects_allow_large_payments() {
    let mut svc = PaymentService::new();
    svc.register_merchant(merchant(1, "sk_big", true, true))
        .expect("merchant registers");
    let resp = svc
        .create_payment_at(
            &request(100_000_001, "usd"),
            "sk_big",
            &succeeding(),
            1,
            2,
            3,
        )
        .expect("large payment allowed");
    assert_eq!(resp.status, PaymentStatus::Succeeded);
}

#[test]
fn create_with_taken_id_is_internal_error() {
    let mut svc = service_with_merchant();
    svc.create_payment_at(&request(100, "usd"), "sk_test_1", &succeeding(), 1, 2, 3)
        .expect("first create");
    let err = svc
        .create_payment_at(&request(100, "usd"), "sk_test_1", &succeeding(), 1, 9, 10)
        .unwrap_err();
    assert!(matches!(err, DefiantError::InternalError));
    assert_eq!(svc.store.rows.len(), 1);
}

#[test]
fn crypto_payment_carries_deposit_address() {
    let mut svc = service_with_merchant();
    let mut req = request(100, "usd");
    req.payment_method = PaymentMethod::Crypto;
    svc.create_payment_at(&req, "sk_test_1", &succeeding(), 1, 2, 2)
        .expect("create succeeds");
    let row = &svc.store.rows[0];
    assert_eq!(row.metadata.len(), 1);
    assert_eq!(row.metadata[0].0, "crypto_address");
    assert_eq!(
        row.metadata[0].1,
        "0x000000000000000000000000000000010000000000000002"
    );
}

#[test]
fn client_secret_names_payment_and_nonce() {
    let mut svc = service_with_merchant();
    let resp = svc
        .create_payment_at(&request(100, "usd"), "sk_test_1", &succeeding(), 0, 0, 3)
        .expect("create succeeds");
    assert_eq!(
        resp.client_secret.as_deref(),
        Some(
            "pi_00000000-0000-0000-0000-000000000000_secret_00000000-0000-0000-0000-000000000000"
        )
    );
}

#[test]
fn capture_settles_authorized_payment_once() {
    let mut svc = service_with_merchant();
    svc.create_payment_at(&request(100, "usd"), "sk_test_1", &capturing(), 1, 2, 3)
        .expect("create succeeds");
    assert_eq!(svc.store.rows[0].status, PaymentStatus::RequiresCapture);

    let first = svc
        .capture_payment_at(1, "sk_test_1", 4)
        .expect("capture succeeds");
    assert_eq!(first.status, PaymentStatus::Succeeded);
    assert_eq!(svc.events.len(), 2);
    assert_eq!(svc.events[1].event_type, EventType::PaymentCaptured);

    let second = svc
        .capture_payment_at(1, "sk_test_1", 5)
        .expect("duplicate capture returns the settled payment");
    assert_eq!(second.status, PaymentStatus::Succeeded);
    assert_eq!(svc.events.len(), 2, "no second captured event");
    assert_eq!(svc.store.rows[0].updated_at, 4, "loser changes nothing");
}

#[test]
fn capture_rejects_other_states() {
    let mut svc = service_with_merchant();
    svc.create_payment_at(&request(100, "usd"), "sk_test_1", &succeeding(), 1, 2, 3)
        .expect("create succeeds");
    // The payment settled automatically, so a capture is idempotent; force
    // a non-capturable state instead.
    let processor = FixedOutcomeProcessor {
        outcome: ProcessorOutcome::Failed {
            code: String::from("card_declined"),
            message: String::from("Do not honor"),
        },
    };
    svc.create_payment_at(&request(100, "usd"), "sk_test_1", &processor, 9, 2, 3)
        .expect("create returns the failed payment");
    let err = svc.capture_payment_at(9, "sk_test_1", 4).unwrap_err();
    match err {
        DefiantError::Conflict(msg) => assert!(msg.contains("failed"), "message names the state"),
        other => panic!("expected Conflict, got {:?}", other),
    }
    assert_eq!(svc.store.rows[1].status, PaymentStatus::Failed);
}

#[test]
fn capture_unknown_payment_is_not_found() {
    let mut svc = service_with_merchant();
    let err = svc.capture_payment_at(42, "sk_test_1", 4).unwrap_err();
    assert!(matches!(err, DefiantError::NotFound(_)));
}

#[test]
fn payments_are_scoped_to_their_merchant() {
    let mut svc = service_with_merchant();
    svc.register_merchant(merchant(2, "sk_test_2", true, false))
        .expect("second merchant registers");
    svc.create_payment_at(&request(100, "usd"), "sk_test_1", &capturing(), 1, 2, 3)
        .expect("create succeeds");
    let err = svc.capture_payment_at(1, "sk_test_2", 4).unwrap_err();
    assert!(matches!(err, DefiantError::NotFound(_)));
    let err = svc.get_payment(1, "sk_test_2").unwrap_err();
    assert!(matches!(err, DefiantError::NotFound(_)));
    assert!(svc.get_payment(1, "sk_test_1").is_ok());
}

#[test]
fn full_refund_then_conflict() {
    let mut svc = service_with_merchant();
    svc.create_payment_at(&request(1000, "usd"), "sk_test_1", &succeeding(), 1, 2, 3)
        .expect("create succeeds");
    let refund = RefundRequest {
        amount: None,
        reason: None,
    };
    let resp = svc
        .refund_payment_at(1, &refund, "sk_test_1", 4)
        .expect("full refund succeeds");
    assert_eq!(resp.status, PaymentStatus::Refunded);
    assert_eq!(svc.store.rows[0].refunded_amount, 1000);
    assert_eq!(svc.events.len(), 2);
    assert_eq!(svc.events[1].event_type, EventType::PaymentRefunded);

    let err = svc
        .refund_payment_at(1, &refund, "sk_test_1", 5)
        .unwrap_err();
    assert!(matches!(err, DefiantError::Conflict(_)));
    assert_eq!(svc.store.rows[0].refunded_amount, 1000);
    assert_eq!(svc.events.len(), 2);
}

#[test]
fn partial_refunds_track_the_remaining_balance() {
    let mut svc = service_with_merchant();
    svc.create_payment_at(&request(1000, "usd"), "sk_test_1", &succeeding(), 1, 2, 3)
        .expect("create succeeds");

    let resp = svc
        .refund_payment_at(
            1,
            &RefundRequest {
                amount: Some(400),
                reason: Some(String::from("requested_by_customer")),
            },
            "sk_test_1",
            4,
        )
        .expect("partial refund succeeds");
    assert_eq!(resp.status, PaymentStatus::PartiallyRefunded);
    assert_eq!(svc.store.rows[0].refunded_amount, 400);
    assert_eq!(
        svc.store.rows[0].refund_reason.as_deref(),
        Some("requested_by_customer")
    );

    let err = svc
        .refund_payment_at(
            1,
            &RefundRequest {
                amount: Some(700),
                reason: None,
            },
            "sk_test_1",
            5,
        )
        .unwrap_err();
    assert!(matches!(err, DefiantError::ValidationError(_)));
    assert_eq!(svc.store.rows[0].refunded_amount, 400);

    let resp = svc
        .refund_payment_at(
            1,
            &RefundRequest {
                amount: Some(600),
                reason: None,
            },
            "sk_test_1",
            6,
        )
        .expect("refund of the exact remainder succeeds");
    assert_eq!(resp.status, PaymentStatus::Refunded);
    assert_eq!(svc.store.rows[0].refunded_amount, 1000);
}

#[test]
fn refund_rejects_non_positive_amounts() {
    let mut svc = service_with_merchant();
    svc.create_payment_at(&request(1000, "usd"), "sk_test_1", &succeeding(), 1, 2, 3)
        .expect("create succeeds");
    for bad in [0, -5] {
        let err = svc
            .refund_payment_at(
                1,
                &RefundRequest {
                    amount: Some(bad),
                    reason: None,
                },
                "sk_test_1",
                4,
            )
            .unwrap_err();
        assert!(matches!(err, DefiantError::ValidationError(_)));
    }
}

#[test]
fn refund_requires_a_settled_payment() {
    let mut svc = service_with_merchant();
    svc.create_payment_at(&request(1000, "usd"), "sk_test_1", &capturing(), 1, 2, 3)
        .expect("create succeeds");
    let err = svc
        .refund_payment_at(
            1,
            &RefundRequest {
                amount: None,
                reason: None,
            },
            "sk_test_1",
            4,
        )
        .unwrap_err();
    assert!(matches!(err, DefiantError::Conflict(_)));
}

#[test]
fn get_payment_returns_the_row_without_a_secret() {
    let mut svc = service_with_merchant();
    svc.create_payment_at(&request(250, "gbp"), "sk_test_1", &succeeding(), 1, 2, 3)
        .expect("create succeeds");
    let resp = svc.get_payment(1, "sk_test_1").expect("payment is found");
    assert_eq!(resp.id, 1);
    assert_eq!(resp.amount, 250);
    assert_eq!(resp.currency, "GBP");
    assert_eq!(resp.client_secret, None);
}

#[test]
fn register_merchant_rejects_duplicates() {
    let mut svc = service_with_merchant();
    let err = svc
        .register_merchant(merchant(1, "sk_other", true, false))
        .unwrap_err();
    assert!(matches!(err, DefiantError::Conflict(_)));
    let err = svc
        .register_merchant(merchant(3, "sk_test_1", true, false))
        .unwrap_err();
    assert!(matches!(err, DefiantError::Conflict(_)));
    assert!(svc
        .register_merchant(merchant(3, "sk_test_3", true, false))
        .is_ok());
}

#[test]
fn take_events_drains_in_commit_order() {
    let mut svc = service_with_merchant();
    svc.create_payment_at(&request(100, "usd"), "sk_test_1", &capturing(), 1, 2, 3)
        .expect("create succeeds");
    svc.capture_payment_at(1, "sk_test_1", 4)
        .expect("capture succeeds");
    let events = svc.take_events();
    assert_eq!(events.len(), 2);
    assert_eq!(events[0].event_type, EventType::PaymentCreated);
    assert_eq!(events[1].event_type, EventType::PaymentCaptured);
    assert_eq!(events[0].event_type.wire_name(), "payment.created");
    assert!(svc.events.is_empty());
    assert_eq!(svc.store.rows.len(), 1);
    assert!(svc.take_events().is_empty());
}

#[test]
fn wall_clock_entry_points_work_end_to_end() {
    let mut svc = service_with_merchant();
    let resp = svc
        .create_payment(&request(1000, "usd"), "sk_test_1", &succeeding())
        .expect("create succeeds");
    let id = resp.id;
    assert_eq!(resp.status, PaymentStatus::Succeeded);
    let resp = svc
        .refund_payment(
            id,
            &RefundRequest {
                amount: Some(400),
                reason: None,
            },
            "sk_test_1",
        )
        .expect("refund succeeds");
    assert_eq!(resp.status, PaymentStatus::PartiallyRefunded);

    let resp = svc
        .create_payment(&request(100, "usd"), "sk_test_1", &capturing())
        .expect("create succeeds");
    let resp = svc
        .capture_payment(resp.id, "sk_test_1")
        .expect("capture succeeds");
    assert_eq!(resp.status, PaymentStatus::Succeeded);
}

#[test]
fn fixed_processor_returns_its_outcome() {
    let mut svc = service_with_merchant();
    svc.create_payment_at(&request(100, "usd"), "sk_test_1", &capturing(), 1, 2, 3)
        .expect("create succeeds");
    let outcome = capturing().authorize(&svc.store.rows[0]);
    assert!(matches!(outcome, ProcessorOutcome::RequiresCapture));
}
