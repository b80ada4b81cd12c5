use discord_avatar_api::decimal::parse_u64;
use discord_avatar_api::request_id::MyRequestId;

#[test]
fn first_request_ids() {
    let mut ids = MyRequestId::new();
    assert_eq!(ids.make_request_id(), Some("0".to_string()));
    assert_eq!(ids.make_request_id(), Some("1".to_string()));
    assert_eq!(ids.make_request_id(), Some("2".to_string()));
}

#[test]
fn default_starts_at_zero() {
    let mut ids = MyRequestId::default();
    assert_eq!(ids.make_request_id(), Some("0".to_string()));
    assert_eq!(ids.make_request_id(), Some("1".to_string()));
}

#[test]
fn request_ids_are_distinct_and_increase() {
    let mut ids = MyRequestId::new();
    let mut seen = std::collections::HashSet::new();
    let mut last: Option<u64> = None;
    for _ in 0..2000 {
        let id = ids.make_request_id().expect("every request gets a number");
        let value = parse_u64(&id).expect("a request id is a decimal number");
        assert_eq!(id, value.to_string());
        if let Some(before) = last {
            assert!(before < value);
        }
        assert!(seen.insert(id));
        last = Some(value);
    }
    assert_eq!(seen.len(), 2000);
    assert_eq!(last, Some(1999));
}

#[test]
fn request_ids_from_a_later_start() {
    let mut ids = MyRequestId::starting_at(41);
    assert_eq!(ids.make_request_id(), Some("41".to_string()));
    assert_eq!(ids.make_request_id(), Some("42".to_string()));
}

#[test]
fn counter_wraps_after_the_largest_number() {
    let mut ids = MyRequestId::starting_at(u64::MAX - 1);
    assert_eq!(ids.make_request_id(), Some("18446744073709551614".to_string()));
    assert_eq!(ids.make_request_id(), Some("18446744073709551615".to_string()));
    assert_eq!(ids.make_request_id(), Some("0".to_string()));
    assert_eq!(ids.make_request_id(), Some("1".to_string()));
}

#[test]
fn request_id_is_a_valid_header_value() {
    let mut ids = MyRequestId::starting_at(u64::MAX);
    for _ in 0..3 {
        let id = ids.make_request_id().expect("every request gets a number");
        let value = http::HeaderValue::from_str(&id).expect("digits are valid in a header");
        assert_eq!(value.to_str().ok(), Some(id.as_str()));
    }
}
