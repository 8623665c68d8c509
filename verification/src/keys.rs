//! The addressing scheme of the store: every page lives in the backend under
//! a key derived from its path, and every publish (re)applies one fixed TTL.

use vstd::prelude::*;
use vstd::string::StringExecFns;

verus! {

/// Seconds a page lives after each publish: 30 days.
pub const PAGE_TTL_SECONDS: u64 = 60 * 60 * 24 * 30;

/// The backend key for the page at `path`: the fixed prefix `"page:"`
/// followed by the path itself. This is the only addressing scheme.
pub open spec fn storage_key_spec(path: Seq<char>) -> Seq<char> {
    "page:"@ + path
}

/// Builds the storage key for a path.
pub fn storage_key(path: &str) -> (key: String)
    ensures
        key@ == storage_key_spec(path@),
{
    "page:".to_owned().concat(path)
}

/// Distinct paths are stored under distinct keys.
pub proof fn lemma_storage_key_injective(p1: Seq<char>, p2: Seq<char>)
    requires
        storage_key_spec(p1) == storage_key_spec(p2),
    ensures
        p1 == p2,
{
    let pre = "page:"@;
    assert((pre + p1).len() == pre.len() + p1.len());
    assert((pre + p2).len() == pre.len() + p2.len());
    assert forall|i: int| 0 <= i < p1.len() implies p1[i] == p2[i] by {
        assert((pre + p1)[pre.len() + i] == p1[i]);
        assert((pre + p2)[pre.len() + i] == p2[i]);
    }
    assert(p1 =~= p2);
}

} // verus!
