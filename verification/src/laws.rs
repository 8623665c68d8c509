//! The store's laws, stated over the gateway's transition functions on the
//! backend's map view and proved once for all stores, paths and bodies.

use vstd::prelude::*;
use crate::auth::publish_authorized;
use crate::gateway::spec_fetch;
use crate::gateway::spec_page_ttl;
use crate::gateway::spec_publish;
use crate::keys::lemma_storage_key_injective;
use crate::keys::storage_key_spec;
use crate::keys::PAGE_TTL_SECONDS;
use crate::store::StoredPage;

verus! {

/// Round trip: publishing `body` at a path and then fetching that path
/// returns exactly the published bytes.
pub proof fn lemma_round_trip(m: Map<Seq<char>, StoredPage>, path: Seq<char>, body: Seq<u8>)
    ensures
        spec_fetch(spec_publish(m, path, body), path) == Some(body),
{
}

/// A path never published fetches as absent.
pub proof fn lemma_unpublished_fetch(m: Map<Seq<char>, StoredPage>, path: Seq<char>)
    requires
        !m.contains_key(storage_key_spec(path)),
    ensures
        spec_fetch(m, path) is None,
{
}

/// Overwrite: publishing twice at the same path, a fetch returns the second
/// body, never the first.
pub proof fn lemma_overwrite(
    m: Map<Seq<char>, StoredPage>,
    path: Seq<char>,
    b1: Seq<u8>,
    b2: Seq<u8>,
)
    ensures
        spec_fetch(spec_publish(spec_publish(m, path, b1), path, b2), path) == Some(b2),
{
}

/// Unconfigured secret: with no secret configured, no publish attempt is
/// authorized, whatever the request carries.
pub proof fn lemma_unconfigured_secret(header: Option<Seq<char>>)
    ensures
        !publish_authorized(None, header),
{
}

/// TTL application: right after a publish, the page's recorded expiration is
/// the fixed TTL of 30 days.
pub proof fn lemma_publish_sets_ttl(m: Map<Seq<char>, StoredPage>, path: Seq<char>, body: Seq<u8>)
    ensures
        spec_page_ttl(spec_publish(m, path, body), path) == Some(PAGE_TTL_SECONDS),
{
}

/// Independence of paths: a publish at one path leaves a fetch of any other
/// path exactly as it was.
pub proof fn lemma_paths_independent(
    m: Map<Seq<char>, StoredPage>,
    p1: Seq<char>,
    p2: Seq<char>,
    body: Seq<u8>,
)
    requires
        p1 != p2,
    ensures
        spec_fetch(spec_publish(m, p1, body), p2) == spec_fetch(m, p2),
{
    if storage_key_spec(p1) == storage_key_spec(p2) {
        lemma_storage_key_injective(p1, p2);
    }
}

/// Concurrent publishes to one path: the backend serializes the two writes
/// in one order or the other, and each write lands whole. Whichever order it
/// picks, a fetch afterwards returns exactly one of the two bodies — the
/// later one — never a mixture.
pub proof fn lemma_concurrent_publishes(
    m: Map<Seq<char>, StoredPage>,
    path: Seq<char>,
    b1: Seq<u8>,
    b2: Seq<u8>,
)
    ensures
        spec_fetch(spec_publish(spec_publish(m, path, b1), path, b2), path) == Some(b2),
        spec_fetch(spec_publish(spec_publish(m, path, b2), path, b1), path) == Some(b1),
{
}

} // verus!
