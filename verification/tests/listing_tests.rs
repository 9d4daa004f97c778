use defiant_core::errors::DefiantError;
use defiant_core::lifecycle::{PaymentMethod, PaymentStatus};
use defiant_core::listing::PaymentListQuery;
use defiant_core::merchant::Merchant;
use defiant_core::payment::CreatePaymentRequest;
use defiant_core::processor::{FixedOutcomeProcessor, ProcessorOutcome};
use defiant_core::service::PaymentService;

fn merchant(id: u128, credential: &str) -> Merchant {
    Merchant {
        id,
        name: String::from("Acme"),
        email: String::from("ops@acme.example"),
        credential: String::from(credential),
        active: true,
        allow_large_payments: false,
    }
}

fn request(amount: i64, customer_id: Option<u128>) -> CreatePaymentRequest {
    CreatePaymentRequest {
        amount,
        currency: String::from("usd"),
        payment_method: PaymentMethod::Card,
        description: None,
        metadata: Vec::new(),
        customer_id,
        source: None,
    }
}

fn query() -> PaymentListQuery {
    PaymentListQuery {
        limit: None,
        starting_after: None,
        ending_before: None,
        customer: None,
        status: None,
    }
}

/// Five payments for merchant 1, ids 1..=5, created at times 10..=50.
fn seeded_service() -> PaymentService {
    let mut svc = PaymentService::new();
    svc.register_merchant(merchant(1, "sk_test_1"))
        .expect("merchant registers");
    let processor = FixedOutcomeProcessor {
        outcome: ProcessorOutcome::Succeeded,
    };
    for i in 1..=5u128 {
        let customer = if i % 2 == 0 { Some(7) } else { None };
        svc.create_payment_at(
            &request(100 * i as i64, customer),
            "sk_test_1",
            &processor,
            i,
            0,
            10 * i as i64,
        )
        .expect("create succeeds");
    }
    svc
}

#[test]
fn list_orders_newest_first_with_default_limit() {
    let svc = seeded_service();
    let resp = svc
        .list_payments(&query(), "sk_test_1")
        .expect("list succeeds");
    assert_eq!(resp.total, 5);
    assert!(!resp.has_more);
    assert_eq!(resp.url, "/v1/payments");
    let ids: Vec<u128> = resp.data.iter().map(|p| p.id).collect();
    assert_eq!(ids, vec![5, 4, 3, 2, 1]);
    let times: Vec<i64> = resp.data.iter().map(|p| p.created_at).collect();
    assert_eq!(times, vec![50, 40, 30, 20, 10]);
}

#[test]
fn list_honors_the_limit_and_reports_more() {
    let svc = seeded_service();
    let mut q = query();
    q.limit = Some(2);
    let resp = svc.list_payments(&q, "sk_test_1").expect("list succeeds");
    assert_eq!(resp.data.len(), 2);
    assert!(resp.has_more, "three matching rows remain");
    assert_eq!(resp.total, 5, "total counts every matching row");
    let ids: Vec<u128> = resp.data.iter().map(|p| p.id).collect();
    assert_eq!(ids, vec![5, 4]);

    q.limit = Some(5);
    let resp = svc.list_payments(&q, "sk_test_1").expect("list succeeds");
    assert_eq!(resp.data.len(), 5);
    assert!(!resp.has_more, "nothing remains beyond the page");
}

#[test]
fn list_rejects_out_of_range_limits() {
    let svc = seeded_service();
    for bad in [0, -1, 101] {
        let mut q = query();
        q.limit = Some(bad);
        let err = svc.list_payments(&q, "sk_test_1").unwrap_err();
        assert!(matches!(err, DefiantError::ValidationError(_)));
    }
}

#[test]
fn list_paginates_forward_with_starting_after() {
    let svc = seeded_service();
    let mut q = query();
    q.limit = Some(2);
    q.starting_after = Some(4);
    let resp = svc.list_payments(&q, "sk_test_1").expect("list succeeds");
    let ids: Vec<u128> = resp.data.iter().map(|p| p.id).collect();
    assert_eq!(ids, vec![3, 2]);
    assert!(resp.has_more);

    q.starting_after = Some(2);
    let resp = svc.list_payments(&q, "sk_test_1").expect("list succeeds");
    let ids: Vec<u128> = resp.data.iter().map(|p| p.id).collect();
    assert_eq!(ids, vec![1]);
    assert!(!resp.has_more);
}

#[test]
fn list_paginates_backward_with_ending_before() {
    let svc = seeded_service();
    let mut q = query();
    q.ending_before = Some(3);
    let resp = svc.list_payments(&q, "sk_test_1").expect("list succeeds");
    let ids: Vec<u128> = resp.data.iter().map(|p| p.id).collect();
    assert_eq!(ids, vec![5, 4]);
    assert!(!resp.has_more);
}

#[test]
fn list_rejects_unknown_cursors() {
    let svc = seeded_service();
    let mut q = query();
    q.starting_after = Some(99);
    let err = svc.list_payments(&q, "sk_test_1").unwrap_err();
    assert!(matches!(err, DefiantError::ValidationError(_)));

    let mut q = query();
    q.ending_before = Some(99);
    let err = svc.list_payments(&q, "sk_test_1").unwrap_err();
    assert!(matches!(err, DefiantError::ValidationError(_)));
}

#[test]
fn list_filters_by_customer() {
    let svc = seeded_service();
    let mut q = query();
    q.customer = Some(7);
    let resp = svc.list_payments(&q, "sk_test_1").expect("list succeeds");
    let ids: Vec<u128> = resp.data.iter().map(|p| p.id).collect();
    assert_eq!(ids, vec![4, 2]);
    assert_eq!(resp.total, 2, "total is consistent with the filter");
    assert!(!resp.has_more);
}

#[test]
fn list_filters_by_status() {
    let mut svc = seeded_service();
    let failing = FixedOutcomeProcessor {
        outcome: ProcessorOutcome::Failed {
            code: String::from("card_declined"),
            message: String::from("Do not honor"),
        },
    };
    svc.create_payment_at(&request(700, None), "sk_test_1", &failing, 6, 0, 60)
        .expect("create returns the failed payment");

    let mut q = query();
    q.status = Some(String::from("failed"));
    let resp = svc.list_payments(&q, "sk_test_1").expect("list succeeds");
    let ids: Vec<u128> = resp.data.iter().map(|p| p.id).collect();
    assert_eq!(ids, vec![6]);
    assert_eq!(resp.total, 1);

    q.status = Some(String::from("succeeded"));
    let resp = svc.list_payments(&q, "sk_test_1").expect("list succeeds");
    assert_eq!(resp.total, 5);
    assert!(resp.data.iter().all(|p| p.status == PaymentStatus::Succeeded));
}

#[test]
fn list_rejects_unknown_status_text() {
    let svc = seeded_service();
    let mut q = query();
    q.status = Some(String::from("bogus"));
    let err = svc.list_payments(&q, "sk_test_1").unwrap_err();
    assert!(matches!(err, DefiantError::ValidationError(_)));
}

#[test]
fn list_is_scoped_to_the_merchant() {
    let mut svc = seeded_service();
    svc.register_merchant(merchant(2, "sk_test_2"))
        .expect("second merchant registers");
    let resp = svc
        .list_payments(&query(), "sk_test_2")
        .expect("list succeeds");
    assert_eq!(resp.total, 0);
    assert!(resp.data.is_empty());
    assert!(!resp.has_more);

    let err = svc.list_payments(&query(), "sk_unknown").unwrap_err();
    assert!(matches!(err, DefiantError::AuthenticationError(_)));
}

#[test]
fn list_keeps_ties_in_insertion_order() {
    let mut svc = PaymentService::new();
    svc.register_merchant(merchant(1, "sk_test_1"))
        .expect("merchant registers");
    let processor = FixedOutcomeProcessor {
        outcome: ProcessorOutcome::Succeeded,
    };
    for i in 1..=3u128 {
        svc.create_payment_at(&request(100, None), "sk_test_1", &processor, i, 0, 42)
            .expect("create succeeds");
    }
    let resp = svc
        .list_payments(&query(), "sk_test_1")
        .expect("list succeeds");
    let ids: Vec<u128> = resp.data.iter().map(|p| p.id).collect();
    assert_eq!(ids, vec![1, 2, 3], "equal creation times keep store order");
}
