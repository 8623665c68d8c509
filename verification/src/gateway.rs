//! The page store gateway: the two operations the router dispatches to.
//! Publish checks authorization, writes the page bytes under the derived key
//! and resets the key's expiration; fetch reads the key back. Each operation's
//! effect on the backend is stated over the store's map view, and the
//! outcomes are mapped to HTTP status codes and bodies here as well.

use vstd::prelude::*;
use vstd::string::StrSliceExecFns;
use vstd::string::StringSliceAdditionalSpecFns;
use crate::auth::check_publish_auth;
use crate::auth::publish_authorized;
use crate::config::Config;
use crate::keys::storage_key;
use crate::keys::storage_key_spec;
use crate::keys::PAGE_TTL_SECONDS;
use crate::store::spec_ttl_of;
use crate::store::KeyTtl;
use crate::store::PageStore;
use crate::store::StoredPage;

verus! {

/// Acknowledgment returned to the publisher on success.
#[derive(Clone, Copy, Debug, PartialEq, Eq, Structural)]
pub struct CreatePageResponse {
    pub success: bool,
}

/// Why a publish failed: the request was unauthorized, or a backend call
/// (connect, field write, expiration set) failed.
#[derive(Clone, Copy, Debug, PartialEq, Eq, Structural)]
pub enum PublishError {
    Unauthorized,
    Internal,
}

/// Outcome of a fetch: the stored bytes, an absent (or expired) key, or a
/// backend failure.
#[derive(Debug, PartialEq, Eq)]
pub enum FetchOutcome {
    Found(Vec<u8>),
    NotFound,
    Internal,
}

/// An HTTP-facing fetch result; the content type is always `text/html`.
#[derive(Debug, PartialEq, Eq)]
pub struct FetchHttpResponse {
    pub status: u16,
    pub body: Vec<u8>,
}

/// What a successful publish of `body` at `path` does to the backend:
/// the derived key maps to the new bytes, any prior content is gone, and the
/// expiration is reset to the fixed TTL.
pub open spec fn spec_publish(
    m: Map<Seq<char>, StoredPage>,
    path: Seq<char>,
    body: Seq<u8>,
) -> Map<Seq<char>, StoredPage> {
    m.insert(storage_key_spec(path), StoredPage { html: body, ttl: Some(PAGE_TTL_SECONDS) })
}

/// What a fetch of `path` returns from the backend: the bytes under the
/// derived key, or nothing when the key is absent.
pub open spec fn spec_fetch(m: Map<Seq<char>, StoredPage>, path: Seq<char>) -> Option<Seq<u8>> {
    if m.contains_key(storage_key_spec(path)) {
        Some(m[storage_key_spec(path)].html)
    } else {
        None
    }
}

/// The expiration the backend reports for the page at `path`.
pub open spec fn spec_page_ttl(m: Map<Seq<char>, StoredPage>, path: Seq<char>) -> Option<u64> {
    spec_ttl_of(m, storage_key_spec(path))
}

/// Publishes `body` at `path`. An unauthorized request fails at once and
/// leaves the backend untouched; an authorized one overwrites the page and
/// resets its TTL.
pub fn publish(
    store: &mut PageStore,
    config: &Config,
    path: &String,
    body: Vec<u8>,
    auth_header: &Option<String>,
) -> (r: Result<CreatePageResponse, PublishError>)
    ensures
        publish_authorized(config.secret.deep_view(), auth_header.deep_view()) ==> (r matches Ok(
            ack,
        ) && ack.success && final(store)@ == spec_publish(old(store)@, path@, body@)),
        !publish_authorized(config.secret.deep_view(), auth_header.deep_view()) ==> (r matches Err(
            e,
        ) && e == PublishError::Unauthorized && *final(store) == *old(store)),
{
    if !check_publish_auth(&config.secret, auth_header) {
        return Err(PublishError::Unauthorized);
    }
    let key = storage_key(path.as_str());
    store.hset_html(&key, body);
    let _ = store.expire_key(&key, PAGE_TTL_SECONDS);
    proof {
        assert(store@ =~= spec_publish(old(store)@, path@, body@));
    }
    Ok(CreatePageResponse { success: true })
}

/// Fetches the page at `path` from the backend.
pub fn fetch(store: &PageStore, path: &String) -> (r: FetchOutcome)
    ensures
        spec_fetch(store@, path@) matches Some(b) ==> (r matches FetchOutcome::Found(v) && v@
            == b),
        spec_fetch(store@, path@) is None ==> r == FetchOutcome::NotFound,
{
    let key = storage_key(path.as_str());
    match store.hget_html(&key) {
        Some(content) => FetchOutcome::Found(content),
        None => FetchOutcome::NotFound,
    }
}

/// Reports the remaining expiration of the page at `path`.
pub fn page_ttl(store: &PageStore, path: &String) -> (r: KeyTtl)
    ensures
        !store@.contains_key(storage_key_spec(path@)) ==> r == KeyTtl::Missing,
        store@.contains_key(storage_key_spec(path@)) ==> (match spec_page_ttl(store@, path@) {
            Some(t) => r == KeyTtl::Expires(t),
            None => r == KeyTtl::NoExpiry,
        }),
{
    let key = storage_key(path.as_str());
    store.key_ttl(&key)
}

/// The HTTP status for a failed publish: unauthorized requests get 401,
/// backend failures get 500.
pub fn publish_error_status(e: &PublishError) -> (s: u16)
    ensures
        *e == PublishError::Unauthorized ==> s == 401,
        *e == PublishError::Internal ==> s == 500,
{
    match e {
        PublishError::Unauthorized => 401,
        PublishError::Internal => 500,
    }
}

/// The JSON body acknowledging a successful publish.
pub fn publish_success_body() -> (s: String)
    ensures
        s@ == "{\"success\":true}"@,
{
    "{\"success\":true}".to_owned()
}

/// Maps a fetch outcome to its HTTP response: the stored bytes with 200, an
/// empty body with 404 when absent, an error body with 500 on backend
/// failure. No backend detail is leaked to the caller.
pub fn fetch_response(outcome: FetchOutcome) -> (r: FetchHttpResponse)
    ensures
        outcome matches FetchOutcome::Found(b) ==> r.status == 200 && r.body@ == b@,
        outcome is NotFound ==> r.status == 404 && r.body@ == Seq::<u8>::empty(),
        outcome is Internal ==> r.status == 500 && r.body@ == "Internal error".spec_bytes(),
{
    match outcome {
        FetchOutcome::Found(b) => FetchHttpResponse { status: 200, body: b },
        FetchOutcome::NotFound => FetchHttpResponse { status: 404, body: Vec::new() },
        FetchOutcome::Internal => FetchHttpResponse {
            status: 500,
            body: "Internal error".as_bytes_vec(),
        },
    }
}

/// The content type every fetch response carries.
pub fn html_content_type() -> (s: &'static str)
    ensures
        s@ == "text/html"@,
{
    "text/html"
}

} // verus!
