//! The authorization rule for publishing: a single shared secret, configured
//! at startup, compared against the request's `Authorization` header. Fetch
//! requires no authorization.

use vstd::prelude::*;

verus! {

/// A publish is authorized exactly when a secret is configured, the request
/// carries an `Authorization` value, and the two are equal. With no secret
/// configured, every publish attempt is unauthorized.
pub open spec fn publish_authorized(secret: Option<Seq<char>>, header: Option<Seq<char>>) -> bool {
    match (secret, header) {
        (Some(s), Some(h)) => s == h,
        _ => false,
    }
}

/// Decides whether a publish request is authorized, comparing the request's
/// `Authorization` value against the configured secret.
pub fn check_publish_auth(secret: &Option<String>, header: &Option<String>) -> (r: bool)
    ensures
        r == publish_authorized(secret.deep_view(), header.deep_view()),
{
    match (secret, header) {
        (Some(s), Some(h)) => *s == *h,
        _ => false,
    }
}

} // verus!
