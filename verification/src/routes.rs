//! The avatar query: from a path and a size to a redirect, or to the reply
//! that says what was wrong.
//!
//! Looking a user up is not done here. [`handle_query`] validates a request
//! and says whom to look up; [`respond`] turns what the lookup gave into the
//! reply.

use vstd::prelude::*;
use vstd::string::*;

use crate::avatar::{allowed_size, avatar_url, is_allowed_size, resolve_avatar};
use crate::decimal::{decimal, decimal_value, parse_u64, parsed_u64, signed_decimal};
use crate::format::{lemma_format_names, UserAvatarFormats};
use crate::path::{
    is_user_id, law_parsed_id_is_a_number, law_parsed_path_shape, law_path_round_trip,
    lemma_user_id_fits, parse_path, parsed_path, path_matches, path_text,
};
use crate::user::{UserModel, UserRecord};

verus! {

/// The size asked for when a request names none.
pub const DEFAULT_SIZE: i16 = 512;

/// How long, in seconds, a client may keep a redirect before asking again: six hours.
pub const CACHE_MAX_AGE_SECS: u32 = 21600;

/// The `Cache-Control` header of a redirect.
pub open spec fn cache_control_text() -> Seq<char> {
    "max-age=21600"@
}

/// The query parameters of an avatar request.
#[derive(Clone, Copy, Debug, PartialEq, Eq, Structural)]
pub struct QueryParams {
    /// The image size asked for, in pixels.
    pub size: Option<i16>,
}

/// The size a request asks for: the one it names, or the default.
pub open spec fn resolved_size(size: Option<i16>) -> i16 {
    match size {
        Some(s) => s,
        None => DEFAULT_SIZE,
    }
}

impl QueryParams {
    /// Query parameters with the given size.
    pub fn new(size: Option<i16>) -> (query: QueryParams)
        ensures
            query.size == size,
    {
        QueryParams { size }
    }

    /// The size the request asks for: the one it names, or 512.
    pub fn resolved_size(&self) -> (size: i16)
        ensures
            size == resolved_size(self.size),
    {
        match self.size {
            Some(s) => s,
            None => DEFAULT_SIZE,
        }
    }
}

/// Why the platform gave no user.
#[derive(Clone, Copy, Debug, PartialEq, Eq, Structural)]
pub enum UpstreamError {
    /// The request to the platform failed, or the platform answered with an error.
    Fetch,
    /// The platform answered, but not with a user that could be read.
    Decode,
}

/// Why a query ends without a redirect.
#[derive(Clone, Copy, Debug, PartialEq, Eq, Structural)]
pub enum QueryError {
    /// The size is not one of the allowed sizes.
    InvalidSize,
    /// The path is not an identifier with an optional extension.
    InvalidPath,
    /// The path holds no identifier.
    InvalidId,
    /// The identifier is not an unsigned 64-bit number.
    InvalidUserId,
    /// The platform gave no user.
    Upstream(UpstreamError),
}

impl QueryError {
    /// The HTTP status of the reply: 400 for a request that was wrong, 500
    /// when the platform failed.
    pub open spec fn status_code(self) -> u16 {
        match self {
            QueryError::Upstream(_) => 500,
            _ => 400,
        }
    }

    /// The body of the reply.
    pub open spec fn text(self) -> Seq<char> {
        match self {
            QueryError::InvalidSize => "Invalid size"@,
            QueryError::InvalidPath => "Invalid path"@,
            QueryError::InvalidId => "Invalid id"@,
            QueryError::InvalidUserId => "Invalid user ID"@,
            QueryError::Upstream(UpstreamError::Fetch) => "Failed to fetch user from Discord"@,
            QueryError::Upstream(UpstreamError::Decode) => "Failed to deserialize user from Discord"@,
        }
    }

    /// The HTTP status that reports this error.
    pub fn status(&self) -> (code: u16)
        ensures
            code == self.status_code(),
    {
        match self {
            QueryError::Upstream(_) => 500,
            _ => 400,
        }
    }

    /// The short message that reports this error.
    pub fn message(&self) -> (s: &'static str)
        ensures
            s@ == self.text(),
    {
        match self {
            QueryError::InvalidSize => "Invalid size",
            QueryError::InvalidPath => "Invalid path",
            QueryError::InvalidId => "Invalid id",
            QueryError::InvalidUserId => "Invalid user ID",
            QueryError::Upstream(UpstreamError::Fetch) => "Failed to fetch user from Discord",
            QueryError::Upstream(UpstreamError::Decode) => "Failed to deserialize user from Discord",
        }
    }

    /// The reply that reports this error.
    pub fn reply(&self) -> (reply: Reply)
        ensures
            reply@ == error_reply(*self),
    {
        Reply {
            status: self.status(),
            location: None,
            cache_control: None,
            body: String::from_str(self.message()),
        }
    }
}

/// A validated avatar request: whose avatar, in which format and size.
#[derive(Clone, Copy, Debug, PartialEq, Eq, Structural)]
pub struct AvatarRequest {
    /// The user to look up.
    pub user_id: u64,
    /// The format the path asked for, if it asked for one.
    pub format: Option<UserAvatarFormats>,
    /// The image size, one of the allowed sizes.
    pub size: i16,
}

/// An HTTP reply, reduced to what the service decides.
#[derive(Clone, Debug)]
pub struct Reply {
    /// The status code.
    pub status: u16,
    /// The `Location` header, if the reply carries one.
    pub location: Option<String>,
    /// The `Cache-Control` header, if the reply carries one.
    pub cache_control: Option<String>,
    /// The body.
    pub body: String,
}

/// The mathematical content of a [`Reply`].
pub struct ReplyModel {
    pub status: u16,
    pub location: Option<Seq<char>>,
    pub cache_control: Option<Seq<char>>,
    pub body: Seq<char>,
}

impl View for Reply {
    type V = ReplyModel;

    open spec fn view(&self) -> ReplyModel {
        ReplyModel {
            status: self.status,
            location: match self.location {
                Some(s) => Some(s@),
                None => None,
            },
            cache_control: match self.cache_control {
                Some(s) => Some(s@),
                None => None,
            },
            body: self.body@,
        }
    }
}

/// The reply that sends a client to `url`: `302 Found` with the URL as
/// `Location`, cacheable for six hours, and no body.
pub open spec fn redirect_reply(url: Seq<char>) -> ReplyModel {
    ReplyModel {
        status: 302,
        location: Some(url),
        cache_control: Some(cache_control_text()),
        body: Seq::empty(),
    }
}

/// The reply that reports an error: its status and its message, and neither header.
pub open spec fn error_reply(error: QueryError) -> ReplyModel {
    ReplyModel {
        status: error.status_code(),
        location: None,
        cache_control: None,
        body: error.text(),
    }
}

/// What validating a path and a size gives. The checks run in this order, and
/// the first that fails decides the error: the size, the shape of the path,
/// the presence of an identifier, its value.
pub open spec fn validated(path: Seq<char>, size: Option<i16>) -> Result<AvatarRequest, QueryError> {
    if !allowed_size(resolved_size(size) as int) {
        Err(QueryError::InvalidSize)
    } else {
        match parsed_path(path) {
            None => Err(QueryError::InvalidPath),
            Some(p) => if p.id.len() == 0 {
                Err(QueryError::InvalidId)
            } else {
                match parsed_u64(p.id) {
                    None => Err(QueryError::InvalidUserId),
                    Some(user_id) => Ok(
                        AvatarRequest { user_id, format: p.format, size: resolved_size(size) },
                    ),
                }
            },
        }
    }
}

/// The reply to a validated request, given what the lookup of its user gave:
/// a redirect to the user's avatar, or the report of the lookup's failure.
pub open spec fn reply_to(request: AvatarRequest, fetched: Result<UserModel, UpstreamError>) -> ReplyModel {
    match fetched {
        Ok(user) => redirect_reply(avatar_url(user, request.format, request.size as int)),
        Err(e) => error_reply(QueryError::Upstream(e)),
    }
}

/// The model of what a lookup gave.
pub open spec fn fetched_model(fetched: Result<UserRecord, UpstreamError>) -> Result<
    UserModel,
    UpstreamError,
> {
    match fetched {
        Ok(user) => Ok(user@),
        Err(e) => Err(e),
    }
}

/// The reply to a request from end to end, where `lookup` stands for the
/// platform: a request that is refused is answered with its error, one that
/// is accepted with the reply to what the platform gives for its user.
pub open spec fn answer(
    path: Seq<char>,
    size: Option<i16>,
    lookup: spec_fn(u64) -> Result<UserModel, UpstreamError>,
) -> ReplyModel {
    match validated(path, size) {
        Err(error) => error_reply(error),
        Ok(request) => reply_to(request, lookup(request.user_id)),
    }
}

/// Handles an avatar query up to the lookup of the user: validates the size
/// and the path, and gives the request to look up or the error to report.
pub fn handle_query(full_path: &str, query: &QueryParams) -> (r: Result<AvatarRequest, QueryError>)
    ensures
        r == validated(full_path@, query.size),
{
    let size = query.resolved_size();
    if !is_allowed_size(size) {
        return Err(QueryError::InvalidSize);
    }
    let path = match parse_path(full_path) {
        Some(path) => path,
        None => {
            return Err(QueryError::InvalidPath);
        },
    };
    if path.id.as_str().is_empty() {
        return Err(QueryError::InvalidId);
    }
    match parse_u64(path.id.as_str()) {
        Some(user_id) => Ok(AvatarRequest { user_id, format: path.format, size }),
        None => Err(QueryError::InvalidUserId),
    }
}

/// Finishes an avatar query once the lookup of its user has ended: a redirect
/// to the avatar if the platform gave the user, the report of the failure if
/// it did not.
pub fn respond(request: &AvatarRequest, fetched: Result<UserRecord, UpstreamError>) -> (reply: Reply)
    ensures
        reply@ == reply_to(*request, fetched_model(fetched)),
{
    match fetched {
        Ok(user) => {
            let url = resolve_avatar(&user, request.format, request.size);
            Reply {
                status: 302,
                location: Some(url),
                cache_control: Some(String::from_str("max-age=21600")),
                body: String::new(),
            }
        },
        Err(e) => QueryError::Upstream(e).reply(),
    }
}

/// A redirect may be kept for six hours: its `Cache-Control` header is
/// `max-age=` followed by the number of seconds in six hours.
pub proof fn law_cache_lifetime()
    ensures
        CACHE_MAX_AGE_SECS == 6 * 60 * 60,
        cache_control_text() == "max-age="@ + decimal(CACHE_MAX_AGE_SECS as nat),
{
    reveal_strlit("max-age=21600");
    reveal_strlit("max-age=");
    reveal_with_fuel(decimal, 6);
    assert(decimal(21600) =~= seq!['2', '1', '6', '0', '0']);
    assert(cache_control_text() =~= "max-age="@ + decimal(21600));
}

/// A request whose size is not one of the allowed sizes is answered with
/// `400` and `Invalid size`, whatever its path and whatever the platform holds.
pub proof fn law_bad_size_is_rejected(
    path: Seq<char>,
    size: Option<i16>,
    lookup: spec_fn(u64) -> Result<UserModel, UpstreamError>,
)
    requires
        !allowed_size(resolved_size(size) as int),
    ensures
        validated(path, size) == Err::<AvatarRequest, QueryError>(QueryError::InvalidSize),
        answer(path, size, lookup) == error_reply(QueryError::InvalidSize),
        answer(path, size, lookup).status == 400,
        answer(path, size, lookup).body == "Invalid size"@,
{
}

/// A request with an allowed size and an acceptable path is answered with a
/// redirect, where the platform gives every user.
pub proof fn law_good_size_is_redirected(
    path: Seq<char>,
    size: Option<i16>,
    lookup: spec_fn(u64) -> Result<UserModel, UpstreamError>,
)
    requires
        allowed_size(resolved_size(size) as int),
        path_matches(path),
        forall|id: u64| #[trigger] lookup(id) is Ok,
    ensures
        validated(path, size) is Ok,
        answer(path, size, lookup).status == 302,
{
    law_parsed_id_is_a_number(path);
}

/// With an allowed size, a path is answered with `400` and `Invalid path`
/// exactly when it is not an identifier of 17 to 19 digits with an optional
/// extension, and is otherwise accepted.
pub proof fn law_path_validation(
    path: Seq<char>,
    size: Option<i16>,
    lookup: spec_fn(u64) -> Result<UserModel, UpstreamError>,
)
    requires
        allowed_size(resolved_size(size) as int),
    ensures
        path_matches(path) <==> validated(path, size) is Ok,
        !path_matches(path) <==> answer(path, size, lookup) == error_reply(QueryError::InvalidPath),
        error_reply(QueryError::InvalidPath).status == 400,
        error_reply(QueryError::InvalidPath).body == "Invalid path"@,
{
    law_parsed_id_is_a_number(path);
}

/// The request made from an acceptable path asks for the user whose number
/// the identifier spells, in the format of the extension.
pub proof fn law_accepted_request(id: Seq<char>, format: Option<UserAvatarFormats>, size: Option<i16>)
    requires
        allowed_size(resolved_size(size) as int),
        is_user_id(id),
    ensures
        validated(path_text(id, format), size) == Ok::<AvatarRequest, QueryError>(
            AvatarRequest {
                user_id: decimal_value(id) as u64,
                format,
                size: resolved_size(size),
            },
        ),
        decimal_value(id) <= u64::MAX,
{
    law_path_round_trip(id, format);
    lemma_user_id_fits(id);
}

/// An accepted request holds an allowed size, the number that the path's
/// identifier spells and the format of the path's extension.
pub proof fn law_accepted_request_is_well_formed(path: Seq<char>, size: Option<i16>)
    ensures
        validated(path, size) matches Ok(request) ==> {
            &&& allowed_size(request.size as int)
            &&& request.size == resolved_size(size)
            &&& parsed_path(path) matches Some(p)
            &&& is_user_id(p.id)
            &&& request.user_id == decimal_value(p.id)
            &&& request.format == p.format
        },
{
    law_parsed_path_shape(path);
}

/// No request is answered with `Invalid id` or `Invalid user ID`: a path
/// that is accepted always holds an identifier, and one that fits in 64 bits.
pub proof fn law_identifier_always_reads(path: Seq<char>, size: Option<i16>)
    ensures
        validated(path, size) != Err::<AvatarRequest, QueryError>(QueryError::InvalidId),
        validated(path, size) != Err::<AvatarRequest, QueryError>(QueryError::InvalidUserId),
{
    law_parsed_id_is_a_number(path);
}

/// A path that ends in `.jpeg` is answered with a URL that ends in `.jpg`
/// before its size.
pub proof fn law_jpeg_path_gives_jpg_url(id: Seq<char>, size: Option<i16>, user: UserModel)
    requires
        allowed_size(resolved_size(size) as int),
        is_user_id(id),
        user.avatar is Some,
    ensures
        validated(id + ".jpeg"@, size) is Ok,
        reply_to(validated(id + ".jpeg"@, size)->Ok_0, Ok(user)).location == Some(
            "https://cdn.discordapp.com/avatars/"@ + decimal(user.id as nat) + "/"@
                + user.avatar->Some_0 + ".jpg?size="@ + signed_decimal(
                resolved_size(size) as int,
            ),
        ),
{
    lemma_format_names();
    reveal_strlit(".jpeg");
    reveal_strlit(".jpg?size=");
    reveal_strlit(".");
    reveal_strlit("?size=");
    let path = id + ".jpeg"@;
    assert(path =~= path_text(id, Some(UserAvatarFormats::Jpg)));
    law_accepted_request(id, Some(UserAvatarFormats::Jpg), size);
    let hash = user.avatar->Some_0;
    let head = "https://cdn.discordapp.com/avatars/"@ + decimal(user.id as nat) + "/"@ + hash;
    let tail = signed_decimal(resolved_size(size) as int);
    assert(head + "."@ + UserAvatarFormats::Jpg.name() + "?size="@ + tail =~= head
        + ".jpg?size="@ + tail);
}

/// Every reply has the status 302, 400 or 500. A reply with the status 302
/// answers an accepted request whose user the platform gave, and carries the
/// avatar's URL as `Location` and `max-age=21600` as `Cache-Control`. No
/// other reply carries either header.
pub proof fn law_redirect_headers(
    path: Seq<char>,
    size: Option<i16>,
    lookup: spec_fn(u64) -> Result<UserModel, UpstreamError>,
)
    ensures
        answer(path, size, lookup).status == 302 || answer(path, size, lookup).status == 400
            || answer(path, size, lookup).status == 500,
        answer(path, size, lookup).status == 302 ==> {
            &&& validated(path, size) matches Ok(request)
            &&& lookup(request.user_id) matches Ok(user)
            &&& answer(path, size, lookup).location == Some(
                avatar_url(user, request.format, request.size as int),
            )
            &&& answer(path, size, lookup).cache_control == Some("max-age=21600"@)
        },
        answer(path, size, lookup).status != 302 ==> {
            &&& answer(path, size, lookup).location is None
            &&& answer(path, size, lookup).cache_control is None
        },
{
}

} // verus!
