use defiant_core::auth::{bearer_token, path_skips_auth, rate_limit_step};
use defiant_core::config::{Config, Environment};
use defiant_core::crypto::{
    client_secret_for, format_id, fresh_network_address, generate_network_address, payment_address,
    u128_be_bytes, u64_be_bytes,
};
use defiant_core::customer::Address;
use defiant_core::errors::DefiantError;

#[test]
fn big_endian_bytes() {
    assert_eq!(u64_be_bytes(0), vec![0u8; 8]);
    assert_eq!(
        u64_be_bytes(0x0102030405060708),
        vec![1, 2, 3, 4, 5, 6, 7, 8]
    );
    let mut expected = vec![0u8; 16];
    expected[14] = 0xAB;
    expected[15] = 0xCD;
    assert_eq!(u128_be_bytes(0xABCD), expected);
}

#[test]
fn payment_address_is_id_and_time_in_hex() {
    assert_eq!(
        payment_address(1, 2),
        "0x000000000000000000000000000000010000000000000002"
    );
    assert_eq!(
        payment_address(0xDEADBEEF, 0x7FFFFFFFFFFFFFFF),
        "0x000000000000000000000000deadbeef7fffffffffffffff"
    );
    assert_eq!(payment_address(5, 0).len(), 2 + 32 + 16);
}

#[test]
fn format_id_is_hyphenated_lowercase_hex() {
    assert_eq!(format_id(0), "00000000-0000-0000-0000-000000000000");
    assert_eq!(format_id(0xDEADBEEF), "00000000-0000-0000-0000-0000deadbeef");
    assert_eq!(
        format_id(0x0123456789ABCDEF0123456789ABCDEF),
        "01234567-89ab-cdef-0123-456789abcdef"
    );
}

#[test]
fn client_secret_layout() {
    assert_eq!(
        client_secret_for(0, 0),
        "pi_00000000-0000-0000-0000-000000000000_secret_00000000-0000-0000-0000-000000000000"
    );
    assert_eq!(
        client_secret_for(1, 2),
        "pi_00000000-0000-0000-0000-000000000001_secret_00000000-0000-0000-0000-000000000002"
    );
}

#[test]
fn network_address_shape_and_distinctness() {
    let a = generate_network_address("btc", "mainnet", 0);
    assert_eq!(a.len(), 42, "0x tag plus 20 hex-encoded bytes");
    assert!(a.starts_with("0x"));
    assert!(a[2..]
        .chars()
        .all(|c| c.is_ascii_hexdigit() && !c.is_ascii_uppercase()));
    let b = generate_network_address("btc", "testnet", 0);
    assert_ne!(a, b, "different networks give different addresses");
    let c = generate_network_address("btc", "mainnet", 1);
    assert_ne!(a, c, "different nonces give different addresses");
    let again = generate_network_address("btc", "mainnet", 0);
    assert_eq!(a, again, "the address is a function of its inputs");

    let fresh = fresh_network_address("eth", "mainnet");
    assert_eq!(fresh.len(), 42);
    assert!(fresh.starts_with("0x"));
}

#[test]
fn bearer_token_extraction() {
    assert_eq!(bearer_token("Bearer sk_test_1"), Some("sk_test_1"));
    assert_eq!(bearer_token("Bearer "), Some(""));
    assert_eq!(bearer_token("Basic sk_test_1"), None);
    assert_eq!(bearer_token("bearer sk_test_1"), None);
    assert_eq!(bearer_token(""), None);
}

#[test]
fn auth_skip_paths() {
    assert!(path_skips_auth("/health"));
    assert!(path_skips_auth("/health/live"));
    assert!(path_skips_auth("/api/v1/webhooks/stripe"));
    assert!(path_skips_auth("/metrics"));
    assert!(!path_skips_auth("/metrics/all"));
    assert!(!path_skips_auth("/api/v1/payments"));
    assert!(!path_skips_auth(""));
}

#[test]
fn rate_limit_rule() {
    let (start, outcome) = rate_limit_step(1);
    assert!(start, "the first request starts the window");
    assert!(outcome.is_ok());
    let (start, outcome) = rate_limit_step(2);
    assert!(!start);
    assert!(outcome.is_ok());
    let (_, outcome) = rate_limit_step(100);
    assert!(outcome.is_ok());
    let (start, outcome) = rate_limit_step(101);
    assert!(!start);
    assert!(matches!(outcome, Err(DefiantError::RateLimitError)));
}

#[test]
fn address_validation() {
    let empty = Address {
        line1: None,
        line2: None,
        city: None,
        state: None,
        postal_code: None,
        country: None,
    };
    assert!(empty.validate().is_ok());

    let full = Address {
        line1: Some(String::from("1 Main St")),
        line2: None,
        city: Some(String::from("Springfield")),
        state: Some(String::from("OR")),
        postal_code: Some(String::from("97477")),
        country: Some(String::from("US")),
    };
    assert!(full.validate().is_ok());

    let bad_country = Address {
        country: Some(String::from("USA")),
        ..empty_address()
    };
    assert!(matches!(
        bad_country.validate(),
        Err(DefiantError::ValidationError(_))
    ));

    let bad_postal = Address {
        postal_code: Some(String::from("12")),
        ..empty_address()
    };
    assert!(matches!(
        bad_postal.validate(),
        Err(DefiantError::ValidationError(_))
    ));

    let bad_line1 = Address {
        line1: Some(String::new()),
        ..empty_address()
    };
    assert!(matches!(
        bad_line1.validate(),
        Err(DefiantError::ValidationError(_))
    ));
}

fn empty_address() -> Address {
    Address {
        line1: None,
        line2: None,
        city: None,
        state: None,
        postal_code: None,
        country: None,
    }
}

#[test]
fn config_environment_flags() {
    let mut config = Config {
        host: String::from("127.0.0.1"),
        port: 8080,
        database_url: String::from("postgres://localhost/defiant"),
        redis_url: String::from("redis://localhost"),
        jwt_secret: String::from("secret"),
        jwt_expiration: 3600,
        cors_origin: String::from("*"),
        workers: 4,
        log_level: String::from("info"),
        environment: Environment::Development,
        stripe_secret_key: None,
        stripe_webhook_secret: None,
        smtp_host: String::from("localhost"),
        smtp_port: 25,
        smtp_username: String::from("mailer"),
        smtp_password: String::from("changeme"),
        from_email: String::from("no-reply@acme.example"),
        rate_limit_requests: 100,
        rate_limit_period: 60,
    };
    assert!(config.is_development());
    assert!(!config.is_production());
    config.environment = Environment::Production;
    assert!(!config.is_development());
    assert!(config.is_production());
    config.environment = Environment::Staging;
    assert!(!config.is_development());
    assert!(!config.is_production());
}
