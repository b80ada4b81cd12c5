//! What the service around the avatar query is set to: its limits, its fixed
//! texts, and the reply when a layer of the stack fails.

use vstd::prelude::*;

use crate::routes::{Reply, ReplyModel};

verus! {

/// The deadline of a request, in seconds.
pub const REQUEST_TIMEOUT_SECS: u64 = 10;

/// The number of requests per second that each client address regains.
pub const RATE_LIMIT_PER_SECOND: u64 = 2;

/// The time, in milliseconds, after which a client address regains one request.
pub const RATE_LIMIT_REFILL_MILLIS: u64 = 500;

/// The number of requests that a client address may make at once.
pub const RATE_LIMIT_BURST: u32 = 5;

/// The header that carries the request number.
pub const REQUEST_ID_HEADER: &'static str = "x-request-id";

/// The body of the liveness probe.
pub const HEALTH_BODY: &'static str = "Hello, World!";

/// The reply when a layer fails: `408 Request Timeout` when the deadline
/// passed, `500 Internal Server Error` for any other failure, with the
/// failure's message as the body.
pub open spec fn layer_error(timed_out: bool, message: Seq<char>) -> ReplyModel {
    ReplyModel {
        status: if timed_out {
            408
        } else {
            500
        },
        location: None,
        cache_control: None,
        body: message,
    }
}

/// One request regained every refill interval makes the configured number
/// of requests per second.
pub proof fn law_refill_interval()
    ensures
        RATE_LIMIT_REFILL_MILLIS * RATE_LIMIT_PER_SECOND == 1000,
        RATE_LIMIT_REFILL_MILLIS > 0,
        RATE_LIMIT_BURST > 0,
{
}

/// Builds the reply for a failure of a layer of the stack.
pub fn layer_error_reply(timed_out: bool, message: String) -> (reply: Reply)
    ensures
        reply@ == layer_error(timed_out, message@),
{
    let status: u16 = if timed_out {
        408
    } else {
        500
    };
    Reply { status, location: None, cache_control: None, body: message }
}

} // verus!
