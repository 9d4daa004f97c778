//! The decision logic behind the request gate: bearer-credential
//! extraction, the paths that skip authentication, and the rate-limit
//! rule. The surrounding transport — headers, token signatures, the
//! request counter — lives outside; these functions decide.

use vstd::prelude::*;

use crate::errors::DefiantError;
use crate::text::{has_prefix, starts_with_str, str_eq};

verus! {

/// The claims carried by an authentication token.
#[derive(Debug)]
pub struct Claims {
    pub sub: String,
    pub exp: usize,
    pub role: String,
    pub merchant_id: Option<String>,
}

/// Extracts the credential from an authorization header value: the text
/// behind a `Bearer ` tag, exactly when the tag is there.
pub fn bearer_token(header: &str) -> (r: Option<&str>)
    ensures
        r matches Some(t) ==> has_prefix(header@, "Bearer "@) && t@ == header@.skip(7),
        r is Some <==> has_prefix(header@, "Bearer "@),
{
    proof {
        reveal_strlit("Bearer ");
    }
    if starts_with_str(header, "Bearer ") {
        let n = header.unicode_len();
        let t = header.substring_char(7, n);
        proof {
            assert(t@ =~= header@.skip(7));
        }
        Some(t)
    } else {
        None
    }
}

/// The request paths served without authentication.
pub open spec fn spec_path_skips_auth(p: Seq<char>) -> bool {
    ||| has_prefix(p, "/health"@)
    ||| has_prefix(p, "/api/v1/webhooks"@)
    ||| p == "/metrics"@
}

/// Whether a request path is served without authentication: health
/// checks, metrics, and incoming webhooks.
pub fn path_skips_auth(path: &str) -> (r: bool)
    ensures
        r == spec_path_skips_auth(path@),
{
    starts_with_str(path, "/health") || starts_with_str(path, "/api/v1/webhooks") || str_eq(
        path,
        "/metrics",
    )
}

/// Requests allowed per rate-limit window and client.
pub const RATE_LIMIT_MAX_REQUESTS: i64 = 100;

/// The rate-limit window, in seconds.
pub const RATE_LIMIT_WINDOW_SECS: i64 = 60;

/// The rate-limit rule for a client's request counter: the first request
/// of a window starts its expiry, and past `RATE_LIMIT_MAX_REQUESTS` the
/// request is refused.
pub fn rate_limit_step(count: i64) -> (r: (bool, Result<(), DefiantError>))
    ensures
        r.0 <==> count == 1,
        r.1 is Ok <==> count <= RATE_LIMIT_MAX_REQUESTS,
        r.1 matches Err(e) ==> e is RateLimitError,
{
    let start_window = count == 1;
    if count > RATE_LIMIT_MAX_REQUESTS {
        (start_window, Err(DefiantError::RateLimitError))
    } else {
        (start_window, Ok(()))
    }
}

} // verus!
