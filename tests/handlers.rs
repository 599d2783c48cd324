use zero2prod::pool::{PoolSettings, ACQUIRE_TIMEOUT_SECS, MAX_CONNECTIONS};
use zero2prod::response::{
    STATUS_INTERNAL_SERVER_ERROR, STATUS_NOT_FOUND, STATUS_OK, STATUS_UNPROCESSABLE_ENTITY,
};
use zero2prod::shutdown::{Lifecycle, Signal};
use zero2prod::subscriptions::{rejection, FormError};
use zero2prod::{
    fallback, handle, health_check, internal_error, route, subscribe, subscribe_completed,
    Handling, Response, Route, SubscriptionData, SubscriptionRecord,
};

fn post_subscription(body: &str) -> Handling {
    handle("POST", "/subscriptions", "/subscriptions", body.as_bytes())
}

fn expect_response(h: Handling) -> Response {
    match h {
        Handling::Respond(r) => r,
        Handling::Store(record) => panic!("expected a response, got a record {:?}", record),
    }
}

fn expect_record(h: Handling) -> SubscriptionRecord {
    match h {
        Handling::Store(record) => record,
        Handling::Respond(r) => panic!("expected a record, got a response {:?}", r),
    }
}

fn is_random_uuid(id: u128) -> bool {
    id & 0xF000C000000000000000u128 == 0x40008000000000000000u128
}

#[test]
fn test_health_check() {
    let response = expect_response(handle("GET", "/health_check", "/health_check", b""));
    assert_eq!(response.status, STATUS_OK);
    assert_eq!(response.body.as_bytes(), b"Health check passed!");
}

#[test]
fn test_subscribe_returns_200_for_valid_form_data() {
    let body = "name=le%20guin&email=ursula_le_guin%40gmail.com";
    let saved = expect_record(post_subscription(body));
    assert_eq!(saved.email, "ursula_le_guin@gmail.com");
    assert_eq!(saved.name, "le guin");

    let response = subscribe_completed(&saved, Ok(()));
    assert_eq!(response.status, STATUS_OK);
    assert_eq!(response.body, "User le guin with email ursula_le_guin@gmail.com is subscribed!");
}

#[test]
fn test_subscribe_returns_400_when_data_is_missing() {
    let test_cases = vec![
        ("name=le%20guin", "missing email"),
        ("email=ursula_le_guin%40gmail.com", "missing name"),
        ("", "missing email and name"),
    ];

    for (invalid_body, error_message) in test_cases {
        let response = expect_response(post_subscription(invalid_body));
        assert_eq!(
            response.status, STATUS_UNPROCESSABLE_ENTITY,
            "The API did not fail with 400 Bad Request when the payload was {}.",
            error_message
        );
    }
}

#[test]
fn health_check_is_fixed() {
    let response = health_check();
    assert_eq!(response.status, 200);
    assert_eq!(response.body, "Health check passed!");
}

#[test]
fn unknown_path_is_not_found_and_named() {
    let response = expect_response(handle("GET", "/nonexistent", "/nonexistent", b""));
    assert_eq!(response.status, STATUS_NOT_FOUND);
    assert_eq!(response.body, "No route /nonexistent");
    assert!(response.body.contains("/nonexistent"));
}

#[test]
fn fallback_names_the_full_target() {
    let response = fallback("/nowhere?x=1");
    assert_eq!(response.status, 404);
    assert_eq!(response.body, "No route /nowhere?x=1");
}

#[test]
fn routes_need_the_right_method() {
    assert_eq!(route("GET", "/health_check"), Route::HealthCheck);
    assert_eq!(route("POST", "/subscriptions"), Route::Subscribe);
    assert_eq!(route("POST", "/health_check"), Route::Fallback);
    assert_eq!(route("GET", "/subscriptions"), Route::Fallback);
    assert_eq!(route("GET", "/health_check/"), Route::Fallback);
    assert_eq!(route("get", "/health_check"), Route::Fallback);
}

#[test]
fn wrong_method_is_not_found() {
    let response = expect_response(handle("GET", "/subscriptions", "/subscriptions", b""));
    assert_eq!(response.status, STATUS_NOT_FOUND);
    assert_eq!(response.body, "No route /subscriptions");
}

#[test]
fn missing_fields_are_named() {
    let r = expect_response(post_subscription("name=le%20guin"));
    assert_eq!(r.body, "missing field `email`");
    let r = expect_response(post_subscription("email=a%40b.c"));
    assert_eq!(r.body, "missing field `name`");
    let r = expect_response(post_subscription(""));
    assert_eq!(r.body, "missing field `email`");
}

#[test]
fn repeated_field_is_rejected() {
    let r = expect_response(post_subscription("name=a&email=b&name=c"));
    assert_eq!(r.status, STATUS_UNPROCESSABLE_ENTITY);
    assert_eq!(r.body, "duplicate field");
    assert_eq!(SubscriptionData::from_form(b"email=x&email=y").unwrap_err(), FormError::DuplicateField);
}

#[test]
fn empty_values_and_other_fields_are_accepted() {
    let saved = expect_record(post_subscription("name=&email=&topic=rust"));
    assert_eq!(saved.name, "");
    assert_eq!(saved.email, "");
}

#[test]
fn form_values_are_decoded() {
    let data = SubscriptionData::from_form(b"email=a%2Bb%40c.d&name=ursula+le+guin").unwrap();
    assert_eq!(data.email, "a+b@c.d");
    assert_eq!(data.name, "ursula le guin");
}

#[test]
fn pairs_are_validated() {
    let pairs = vec![
        ("name".to_string(), "n".to_string()),
        ("email".to_string(), "e".to_string()),
    ];
    let data = SubscriptionData::from_pairs(&pairs).unwrap();
    assert_eq!(data.name, "n");
    assert_eq!(data.email, "e");
    let pairs = vec![("name".to_string(), "n".to_string())];
    assert_eq!(SubscriptionData::from_pairs(&pairs).unwrap_err(), FormError::MissingEmail);
    let pairs = vec![("email".to_string(), "e".to_string())];
    assert_eq!(SubscriptionData::from_pairs(&pairs).unwrap_err(), FormError::MissingName);
    assert_eq!(SubscriptionData::from_pairs(&vec![]).unwrap_err(), FormError::MissingEmail);
}

#[test]
fn rejection_is_unprocessable() {
    let r = rejection(FormError::MissingName);
    assert_eq!(r.status, 422);
    assert_eq!(r.body, "missing field `name`");
    assert_eq!(FormError::DuplicateField.message(), "duplicate field");
}

#[test]
fn identical_submissions_get_distinct_ids() {
    let body = "name=le%20guin&email=ursula_le_guin%40gmail.com";
    let first = expect_record(post_subscription(body));
    let second = expect_record(post_subscription(body));
    assert_ne!(first.id, second.id);
    assert!(is_random_uuid(first.id));
    assert!(is_random_uuid(second.id));
    assert_eq!(first.name, second.name);
    assert_eq!(first.email, second.email);
}

#[test]
fn record_is_stamped_with_the_current_time() {
    // 2020-01-01T00:00:00Z in microseconds
    let earlier: i64 = 1_577_836_800_000_000;
    let saved = subscribe(b"name=a&email=b").unwrap();
    assert!(saved.subscribed_at > earlier);
}

#[test]
fn record_keeps_what_it_is_given() {
    let data = SubscriptionData { email: "e".to_string(), name: "n".to_string() };
    let record = SubscriptionRecord::new(data, 7, 11);
    assert_eq!(record.id, 7);
    assert_eq!(record.email, "e");
    assert_eq!(record.name, "n");
    assert_eq!(record.subscribed_at, 11);
    let data = SubscriptionData { email: "x".to_string(), name: "y".to_string() };
    let created = SubscriptionRecord::create(data);
    assert!(is_random_uuid(created.id));
    assert_eq!(created.email, "x");
}

#[test]
fn store_failure_is_a_server_error() {
    let saved = subscribe(b"name=a&email=b").unwrap();
    let message = "pool timed out while waiting for an open connection".to_string();
    let response = subscribe_completed(&saved, Err(message.clone()));
    assert_eq!(response.status, STATUS_INTERNAL_SERVER_ERROR);
    assert_eq!(response.body, message);
}

#[test]
fn internal_error_carries_the_text() {
    let response = internal_error("boom".to_string());
    assert_eq!(response.status, 500);
    assert_eq!(response.body, "boom");
}

#[test]
fn signal_starts_draining() {
    let running = Lifecycle::start();
    assert!(running.accepts_connections());
    let draining = running.on_signal(Signal::Interrupt);
    assert_eq!(draining, Lifecycle::Draining);
    assert!(!draining.accepts_connections());
    let still = draining.on_signal(Signal::Terminate);
    assert_eq!(still, Lifecycle::Draining);
    assert_eq!(Lifecycle::start().on_signal(Signal::Terminate), Lifecycle::Draining);
}

#[test]
fn pool_bounds() {
    let settings = PoolSettings::standard();
    assert_eq!(settings.max_connections, 5);
    assert_eq!(settings.acquire_timeout_secs, 3);
    assert_eq!(MAX_CONNECTIONS, 5);
    assert_eq!(ACQUIRE_TIMEOUT_SECS, 3);
}
