use discord_avatar_api::service::{
    layer_error_reply, HEALTH_BODY, RATE_LIMIT_BURST, RATE_LIMIT_PER_SECOND,
    RATE_LIMIT_REFILL_MILLIS, REQUEST_ID_HEADER, REQUEST_TIMEOUT_SECS,
};

#[test]
fn timeout_is_reported_as_408() {
    let reply = layer_error_reply(true, "request timed out".to_string());
    assert_eq!(reply.status, 408);
    assert_eq!(reply.body, "request timed out");
    assert_eq!(reply.location, None);
    assert_eq!(reply.cache_control, None);
}

#[test]
fn other_layer_failures_are_reported_as_500() {
    let reply = layer_error_reply(false, "service unavailable".to_string());
    assert_eq!(reply.status, 500);
    assert_eq!(reply.body, "service unavailable");
    assert_eq!(reply.location, None);
    assert_eq!(reply.cache_control, None);
}

#[test]
fn layer_failure_keeps_the_message_as_it_is() {
    assert_eq!(layer_error_reply(true, String::new()).body, "");
    assert_eq!(layer_error_reply(false, "délai dépassé\n".to_string()).body, "délai dépassé\n");
}

#[test]
fn limits_of_the_service() {
    assert_eq!(REQUEST_TIMEOUT_SECS, 10);
    assert_eq!(RATE_LIMIT_PER_SECOND, 2);
    assert_eq!(RATE_LIMIT_BURST, 5);
    assert_eq!(RATE_LIMIT_REFILL_MILLIS, 500);
    assert_eq!(RATE_LIMIT_REFILL_MILLIS * RATE_LIMIT_PER_SECOND, 1000);
}

#[test]
fn fixed_texts_of_the_service() {
    assert_eq!(REQUEST_ID_HEADER, "x-request-id");
    assert_eq!(HEALTH_BODY, "Hello, World!");
    let name = http::HeaderName::from_static(REQUEST_ID_HEADER);
    assert_eq!(name.as_str(), "x-request-id");
}
