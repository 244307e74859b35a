//! The service configuration and the request-authorization rule.

use vstd::prelude::*;
use vstd::string::StrSliceExecFns;

verus! {

/// Configuration of the service: the address to bind, an optional key that
/// protects the API routes, and optional streaming-backend credentials.
#[derive(Clone, Debug)]
pub struct ConfigFile {
    pub bind: String,
    pub api_key: Option<String>,
    pub spotify: Option<SpotifyConfig>,
}

/// Credentials for the streaming backend.
#[derive(Clone, Debug)]
pub struct SpotifyConfig {
    pub username: String,
    pub password: String,
}

/// When a request may pass: with no key configured everything passes; with a
/// key, requests outside the API routes pass, and an API request passes when
/// the authorization header matches the key, or the `api_key` query parameter
/// does — where a missing parameter counts as the empty string.
pub open spec fn spec_request_authorized(
    api_key: Option<&String>,
    is_api_path: bool,
    header_value: Option<&String>,
    query_value: Option<&String>,
) -> bool {
    match api_key {
        None => true,
        Some(key) => {
            ||| !is_api_path
            ||| match header_value {
                Some(h) => h@ == key@,
                None => false,
            }
            ||| match query_value {
                Some(q) => q@ == key@,
                None => key@.len() == 0,
            }
        },
    }
}

/// Decide whether a request passes the key check. `is_api_path` says whether
/// the request path lies under the protected API prefix.
pub fn request_authorized(
    api_key: Option<&String>,
    is_api_path: bool,
    header_value: Option<&String>,
    query_value: Option<&String>,
) -> (b: bool)
    ensures
        b == spec_request_authorized(api_key, is_api_path, header_value, query_value),
{
    match api_key {
        None => true,
        Some(key) => {
            if !is_api_path {
                return true;
            }
            let header_ok: bool = match header_value {
                Some(h) => *h == *key,
                None => false,
            };
            let query_ok: bool = match query_value {
                Some(q) => *q == *key,
                None => key.as_str().is_empty(),
            };
            header_ok || query_ok
        },
    }
}

/// Whether a request path lies under the protected API prefix `/api/v1/`,
/// the routes the key check applies to.
pub fn is_api_v1_path(path: &str) -> (b: bool)
    ensures
        b == (path@.len() >= 8 && path@.subrange(0, 8) == "/api/v1/"@),
{
    proof {
        reveal_strlit("/api/v1/");
    }
    if path.unicode_len() < 8 {
        return false;
    }
    let b: bool = path.get_char(0) == '/' && path.get_char(1) == 'a' && path.get_char(2) == 'p'
        && path.get_char(3) == 'i' && path.get_char(4) == '/' && path.get_char(5) == 'v'
        && path.get_char(6) == '1' && path.get_char(7) == '/';
    proof {
        let prefix = path@.subrange(0, 8);
        if b {
            assert(prefix =~= "/api/v1/"@);
        } else {
            if prefix == "/api/v1/"@ {
                assert(path@[0] == prefix[0]);
                assert(path@[1] == prefix[1]);
                assert(path@[2] == prefix[2]);
                assert(path@[3] == prefix[3]);
                assert(path@[4] == prefix[4]);
                assert(path@[5] == prefix[5]);
                assert(path@[6] == prefix[6]);
                assert(path@[7] == prefix[7]);
            }
        }
    }
    b
}

/// A session is usable as it stands exactly when it has not been invalidated
/// and carries a logged-in user; otherwise a fresh login is needed.
pub fn session_usable(is_invalid: bool, has_username: bool) -> (b: bool)
    ensures
        b == (!is_invalid && has_username),
{
    !is_invalid && has_username
}

} // verus!
