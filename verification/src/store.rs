//! An executable model of the key-value backend, with the three primitives
//! the store uses: write a page's bytes under the `"html"` field of a key,
//! set a key's expiration, and read the field back. The model's view is the
//! map from keys to what the backend holds for them; the gateway's laws are
//! stated against that map.
//!
//! The representation is an append-only log of writes: the newest entry for
//! a key is authoritative. The view hides this entirely.

use vstd::prelude::*;
use vstd::slice::slice_to_vec;

verus! {

/// What the backend holds for one key: the page bytes stored under the
/// `"html"` field, and the key's remaining expiration in seconds, if an
/// expiration was ever set.
pub ghost struct StoredPage {
    pub html: Seq<u8>,
    pub ttl: Option<u64>,
}

/// A key's remaining expiration, as the backend reports it on introspection.
#[derive(Clone, Copy, Debug, PartialEq, Eq)]
pub enum KeyTtl {
    /// The key is absent.
    Missing,
    /// The key exists but no expiration was set on it.
    NoExpiry,
    /// The key exists and expires after this many seconds.
    Expires(u64),
}

/// The expiration recorded for `k` in `m`: `None` when `k` is absent or has
/// no expiration set.
pub open spec fn spec_ttl_of(m: Map<Seq<char>, StoredPage>, k: Seq<char>) -> Option<u64> {
    if m.contains_key(k) {
        m[k].ttl
    } else {
        None
    }
}

struct PageEntry {
    key: String,
    html: Vec<u8>,
    ttl: Option<u64>,
}

spec fn record_of(e: PageEntry) -> StoredPage {
    StoredPage { html: e.html@, ttl: e.ttl }
}

spec fn lookup_of(s: Seq<PageEntry>, k: Seq<char>) -> Option<StoredPage>
    decreases s.len(),
{
    if s.len() == 0 {
        None
    } else if s.last().key@ == k {
        Some(record_of(s.last()))
    } else {
        lookup_of(s.drop_last(), k)
    }
}

spec fn map_of(s: Seq<PageEntry>) -> Map<Seq<char>, StoredPage>
    decreases s.len(),
{
    if s.len() == 0 {
        Map::empty()
    } else {
        map_of(s.drop_last()).insert(s.last().key@, record_of(s.last()))
    }
}

proof fn lemma_map_of_lookup(s: Seq<PageEntry>, k: Seq<char>)
    ensures
        map_of(s).contains_key(k) <==> lookup_of(s, k) is Some,
        lookup_of(s, k) matches Some(p) ==> map_of(s)[k] == p,
    decreases s.len(),
{
    if s.len() > 0 {
        lemma_map_of_lookup(s.drop_last(), k);
    }
}

/// The in-memory model of the backend. Its view is the map from storage keys
/// to the page each holds.
pub struct PageStore {
    entries: Vec<PageEntry>,
}

impl View for PageStore {
    type V = Map<Seq<char>, StoredPage>;

    closed spec fn view(&self) -> Map<Seq<char>, StoredPage> {
        map_of(self.entries@)
    }
}

impl PageStore {
    /// An empty backend: no key holds anything.
    pub fn new() -> (s: Self)
        ensures
            s@ == Map::<Seq<char>, StoredPage>::empty(),
    {
        PageStore { entries: Vec::new() }
    }

    /// The index of the authoritative entry for `key`, if the key is present.
    fn find_entry(&self, key: &String) -> (r: Option<usize>)
        ensures
            r matches Some(i) ==> i < self.entries@.len() && lookup_of(self.entries@, key@)
                == Some(record_of(self.entries@[i as int])),
            r is None ==> lookup_of(self.entries@, key@) is None,
    {
        proof {
            assert(self.entries@.take(self.entries@.len() as int) =~= self.entries@);
        }
        let mut i: usize = self.entries.len();
        while i > 0
            invariant
                i <= self.entries@.len(),
                lookup_of(self.entries@, key@) == lookup_of(
                    self.entries@.take(i as int),
                    key@,
                ),
            decreases i,
        {
            i = i - 1;
            proof {
                assert(self.entries@.take(i as int + 1).last() == self.entries@[i as int]);
                assert(self.entries@.take(i as int + 1).drop_last() =~= self.entries@.take(
                    i as int,
                ));
            }
            if self.entries[i].key == *key {
                return Some(i);
            }
        }
        None
    }

    /// Writes `html` under the `"html"` field of `key`, creating the key if
    /// absent and fully overwriting any prior bytes. A field write does not
    /// touch the key's expiration: an existing key keeps its expiration, a
    /// fresh key has none until one is set.
    pub fn hset_html(&mut self, key: &String, html: Vec<u8>)
        ensures
            final(self)@ == old(self)@.insert(
                key@,
                (StoredPage { html: html@, ttl: spec_ttl_of(old(self)@, key@) }),
            ),
    {
        proof {
            lemma_map_of_lookup(self.entries@, key@);
        }
        let ttl: Option<u64> = match self.find_entry(key) {
            Some(i) => self.entries[i].ttl,
            None => None,
        };
        let e = PageEntry { key: key.clone(), html, ttl };
        self.entries.push(e);
        proof {
            assert(self.entries@.drop_last() =~= old(self).entries@);
        }
    }

    /// Sets the expiration of `key` to `ttl_seconds`, reporting whether the
    /// key existed; an absent key is left absent.
    pub fn expire_key(&mut self, key: &String, ttl_seconds: u64) -> (r: bool)
        ensures
            old(self)@.contains_key(key@) ==> r && final(self)@ == old(self)@.insert(
                key@,
                (StoredPage { html: old(self)@[key@].html, ttl: Some(ttl_seconds) }),
            ),
            !old(self)@.contains_key(key@) ==> !r && *final(self) == *old(self),
    {
        proof {
            lemma_map_of_lookup(self.entries@, key@);
        }
        match self.find_entry(key) {
            Some(i) => {
                let html = slice_to_vec(self.entries[i].html.as_slice());
                let e = PageEntry { key: key.clone(), html, ttl: Some(ttl_seconds) };
                self.entries.push(e);
                proof {
                    assert(self.entries@.drop_last() =~= old(self).entries@);
                }
                true
            },
            None => false,
        }
    }

    /// Reads the `"html"` field of `key`: the stored bytes, or `None` when
    /// the key is absent.
    pub fn hget_html(&self, key: &String) -> (r: Option<Vec<u8>>)
        ensures
            self@.contains_key(key@) ==> (r matches Some(v) && v@ == self@[key@].html),
            !self@.contains_key(key@) ==> r is None,
    {
        proof {
            lemma_map_of_lookup(self.entries@, key@);
        }
        match self.find_entry(key) {
            Some(i) => Some(slice_to_vec(self.entries[i].html.as_slice())),
            None => None,
        }
    }

    /// Reports the remaining expiration of `key`.
    pub fn key_ttl(&self, key: &String) -> (r: KeyTtl)
        ensures
            !self@.contains_key(key@) ==> r == KeyTtl::Missing,
            self@.contains_key(key@) && self@[key@].ttl is None ==> r == KeyTtl::NoExpiry,
            self@.contains_key(key@) ==> (self@[key@].ttl matches Some(t) ==> r
                == KeyTtl::Expires(t)),
    {
        proof {
            lemma_map_of_lookup(self.entries@, key@);
        }
        match self.find_entry(key) {
            Some(i) => match self.entries[i].ttl {
                Some(t) => KeyTtl::Expires(t),
                None => KeyTtl::NoExpiry,
            },
            None => KeyTtl::Missing,
        }
    }
}

} // verus!
