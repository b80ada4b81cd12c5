use std::str::FromStr;

use discord_avatar_api::avatar::{resolve_avatar, ALLOWED_SIZES};
use discord_avatar_api::format::UserAvatarFormats;
use discord_avatar_api::routes::{
    handle_query, respond, AvatarRequest, QueryError, QueryParams, UpstreamError,
    CACHE_MAX_AGE_SECS, DEFAULT_SIZE,
};
use discord_avatar_api::user::UserRecord;

const ID: &str = "175928847299117063";

fn user(id: u64, discriminator: u16, avatar: Option<&str>) -> UserRecord {
    UserRecord::new(id, discriminator, avatar.map(|hash| hash.to_string()))
}

fn request(user_id: u64, format: Option<UserAvatarFormats>, size: i16) -> AvatarRequest {
    AvatarRequest { user_id, format, size }
}

#[test]
fn every_allowed_size_is_accepted_and_redirected() {
    for size in ALLOWED_SIZES {
        let accepted = handle_query(ID, &QueryParams::new(Some(size)));
        assert_eq!(accepted, Ok(request(175928847299117063, None, size)));
        let reply = respond(&accepted.unwrap(), Ok(user(175928847299117063, 0, Some("deadbeef"))));
        assert_eq!(reply.status, 302);
        assert_eq!(
            reply.location,
            Some(format!(
                "https://cdn.discordapp.com/avatars/175928847299117063/deadbeef.png?size={size}"
            ))
        );
    }
}

#[test]
fn every_other_size_is_an_invalid_size() {
    for size in [0, 1, 15, 17, 100, 511, 513, 4095, 4097, 8192, -1, -16, i16::MIN, i16::MAX] {
        let refused = handle_query(ID, &QueryParams::new(Some(size)));
        assert_eq!(refused, Err(QueryError::InvalidSize));
        let reply = refused.unwrap_err().reply();
        assert_eq!(reply.status, 400);
        assert_eq!(reply.body, "Invalid size");
    }
}

#[test]
fn missing_size_means_512() {
    assert_eq!(DEFAULT_SIZE, 512);
    assert_eq!(QueryParams::new(None).resolved_size(), 512);
    assert_eq!(QueryParams::new(Some(64)).resolved_size(), 64);
    assert_eq!(
        handle_query(ID, &QueryParams::new(None)),
        Ok(request(175928847299117063, None, 512))
    );
}

#[test]
fn size_is_checked_before_the_path() {
    assert_eq!(handle_query("nonsense", &QueryParams::new(Some(17))), Err(QueryError::InvalidSize));
    assert_eq!(handle_query("", &QueryParams::new(Some(0))), Err(QueryError::InvalidSize));
    assert_eq!(handle_query("nonsense", &QueryParams::new(Some(16))), Err(QueryError::InvalidPath));
}

#[test]
fn malformed_paths_are_invalid_paths() {
    for path in [
        "",
        "1234567890123456",
        "12345678901234567890",
        "175928847299117063.jpg",
        "175928847299117063.",
        "175928847299117063.PNG",
        "/175928847299117063",
        "175928847299117063/",
        "favicon.ico",
        "health2",
    ] {
        let refused = handle_query(path, &QueryParams::new(None));
        assert_eq!(refused, Err(QueryError::InvalidPath), "{path:?}");
        let reply = refused.unwrap_err().reply();
        assert_eq!(reply.status, 400);
        assert_eq!(reply.body, "Invalid path");
    }
}

#[test]
fn extension_becomes_the_format_of_the_request() {
    let query = QueryParams::new(Some(128));
    assert_eq!(
        handle_query("175928847299117063.png", &query),
        Ok(request(175928847299117063, Some(UserAvatarFormats::Png), 128))
    );
    assert_eq!(
        handle_query("175928847299117063.webp", &query),
        Ok(request(175928847299117063, Some(UserAvatarFormats::Webp), 128))
    );
    assert_eq!(
        handle_query("175928847299117063.jpeg", &query),
        Ok(request(175928847299117063, Some(UserAvatarFormats::Jpg), 128))
    );
    assert_eq!(
        handle_query("175928847299117063.gif", &query),
        Ok(request(175928847299117063, Some(UserAvatarFormats::Gif), 128))
    );
}

#[test]
fn identifier_is_read_as_a_number() {
    let query = QueryParams::new(None);
    assert_eq!(handle_query("00000000000000042", &query), Ok(request(42, None, 512)));
    assert_eq!(handle_query("00000000000000000", &query), Ok(request(0, None, 512)));
    assert_eq!(
        handle_query("9999999999999999999", &query),
        Ok(request(9_999_999_999_999_999_999, None, 512))
    );
    assert_eq!(
        handle_query("10000000000000000", &query),
        Ok(request(10_000_000_000_000_000, None, 512))
    );
}

#[test]
fn jpeg_in_the_path_is_jpg_in_the_url() {
    let accepted = handle_query("175928847299117063.jpeg", &QueryParams::new(Some(64))).unwrap();
    let reply = respond(&accepted, Ok(user(175928847299117063, 0, Some("deadbeef"))));
    assert_eq!(
        reply.location,
        Some("https://cdn.discordapp.com/avatars/175928847299117063/deadbeef.jpg?size=64".to_string())
    );
}

#[test]
fn redirect_carries_location_and_cache_control() {
    let reply = respond(&request(42, None, 256), Ok(user(42, 0, Some("a_abc"))));
    assert_eq!(reply.status, 302);
    assert_eq!(
        reply.location,
        Some("https://cdn.discordapp.com/avatars/42/a_abc.gif?size=256".to_string())
    );
    assert_eq!(reply.cache_control, Some("max-age=21600".to_string()));
    assert_eq!(reply.body, "");
    assert_eq!(CACHE_MAX_AGE_SECS, 6 * 60 * 60);
    assert_eq!(reply.cache_control, Some(format!("max-age={CACHE_MAX_AGE_SECS}")));
}

#[test]
fn redirect_location_is_the_resolved_avatar() {
    let users = [
        user(42, 0, Some("a_abc")),
        user(42, 0, Some("deadbeef")),
        user(1, 0, None),
        user(99, 7, None),
    ];
    let formats = [None, Some(UserAvatarFormats::Webp), Some(UserAvatarFormats::Jpg)];
    for u in &users {
        for format in formats {
            for size in [16, 512, 4096] {
                let reply = respond(&request(u.id, format, size), Ok(u.clone()));
                assert_eq!(reply.status, 302);
                assert_eq!(reply.location, Some(resolve_avatar(u, format, size)));
                assert_eq!(reply.cache_control, Some("max-age=21600".to_string()));
            }
        }
    }
}

#[test]
fn redirect_to_the_default_avatar() {
    let reply = respond(&request(1, Some(UserAvatarFormats::Gif), 4096), Ok(user(1, 0, None)));
    assert_eq!(reply.status, 302);
    assert_eq!(
        reply.location,
        Some("https://cdn.discordapp.com/embed/avatars/0.png".to_string())
    );
}

#[test]
fn failed_fetch_is_reported_as_500() {
    let reply = respond(&request(42, None, 512), Err(UpstreamError::Fetch));
    assert_eq!(reply.status, 500);
    assert_eq!(reply.body, "Failed to fetch user from Discord");
    assert_eq!(reply.location, None);
    assert_eq!(reply.cache_control, None);
}

#[test]
fn failed_decode_is_reported_as_500() {
    let reply = respond(&request(42, None, 512), Err(UpstreamError::Decode));
    assert_eq!(reply.status, 500);
    assert_eq!(reply.body, "Failed to deserialize user from Discord");
    assert_eq!(reply.location, None);
    assert_eq!(reply.cache_control, None);
}

#[test]
fn status_and_message_of_each_error() {
    let table = [
        (QueryError::InvalidSize, 400, "Invalid size"),
        (QueryError::InvalidPath, 400, "Invalid path"),
        (QueryError::InvalidId, 400, "Invalid id"),
        (QueryError::InvalidUserId, 400, "Invalid user ID"),
        (QueryError::Upstream(UpstreamError::Fetch), 500, "Failed to fetch user from Discord"),
        (
            QueryError::Upstream(UpstreamError::Decode),
            500,
            "Failed to deserialize user from Discord",
        ),
    ];
    for (error, status, message) in table {
        assert_eq!(error.status(), status);
        assert_eq!(error.message(), message);
        let reply = error.reply();
        assert_eq!(reply.status, status);
        assert_eq!(reply.body, message);
        assert_eq!(reply.location, None);
        assert_eq!(reply.cache_control, None);
    }
}

#[test]
fn identifier_of_the_platform_reads_the_same() {
    for path in ["175928847299117063", "80351110224678912", "1234567890123456789"] {
        let theirs = twilight_model::id::Id::<twilight_model::id::marker::UserMarker>::from_str(path)
            .expect("a non-zero number");
        let ours = handle_query(path, &QueryParams::new(None)).expect("an accepted path");
        assert_eq!(ours.user_id, theirs.get());
    }
}
