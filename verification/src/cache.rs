//! The bounded, TTL-based response cache.
//!
//! Admission and eviction are delegated to tinyufo's frequency-aware bounded
//! structure; this module layers the TTL (lazy expiry on read) and the
//! cache-off switch (`capacity == 0`) on top, and keeps the invariant that
//! no HTML-classified response is ever stored.

use vstd::prelude::*;
use tinyufo::TinyUfo;
use crate::negotiate::spec_is_html;
use crate::response::FileInfo;

verus! {

#[verifier::external_type_specification]
#[verifier::external_body]
#[verifier::reject_recursive_types(K)]
#[verifier::reject_recursive_types(T)]
pub struct ExTinyUfo<K, T>(TinyUfo<K, T>);

/// One stored cache element: the key it was stored under, its absolute
/// expiry time in epoch seconds, and the buffered response.
#[derive(Clone)]
pub struct CacheEntry {
    pub key: String,
    pub expires_at: u64,
    pub data: FileInfo,
}

/// The mathematical shape of a stored element: key, expiry, headers, body.
pub type CacheEntryV = (Seq<char>, u64, Seq<(Seq<char>, Seq<char>)>, Option<Seq<u8>>);

/// What one `CacheEntry` stands for.
pub open spec fn cache_entry_view(e: CacheEntry) -> CacheEntryV {
    (e.key@, e.expires_at, e.data@.headers, e.data@.body)
}

/// What the tinyufo structure currently holds, keyed by the text of the key
/// each element was stored under.
pub uninterp spec fn ufo_entries(u: TinyUfo<String, CacheEntry>) -> Map<Seq<char>, CacheEntryV>;

/// The summed weight of the held elements, as tinyufo accounts it.
pub uninterp spec fn ufo_weight(u: TinyUfo<String, CacheEntry>) -> nat;

/// The total weight limit the structure was created with.
pub uninterp spec fn ufo_limit(u: TinyUfo<String, CacheEntry>) -> nat;

/// Relies on `TinyUfo::new`: a fresh cache with the given total weight
/// limit holds nothing.
#[verifier::external_body]
fn ufo_new(total_weight_limit: usize, estimated_size: usize) -> (r: TinyUfo<String, CacheEntry>)
    ensures
        forall|k: Seq<char>| !ufo_entries(r).dom().contains(k),
        ufo_weight(r) == 0,
        ufo_limit(r) == total_weight_limit as nat,
{
    TinyUfo::new(total_weight_limit, estimated_size)
}

/// Relies on `TinyUfo::get`: it returns a copy of a held element. The held
/// element found under a key's hash may have been stored under a different
/// key, so a returned element is only promised to be *some* held one; when
/// the asked-for key itself is held, its own element is what is found.
#[verifier::external_body]
fn ufo_get(u: &TinyUfo<String, CacheEntry>, key: &String) -> (r: Option<CacheEntry>)
    ensures
        match r {
            None => !ufo_entries(*u).dom().contains(key@),
            Some(e) => ufo_entries(*u).contains_pair(e.key@, cache_entry_view(e)) && (
            ufo_entries(*u).dom().contains(key@) ==> e.key@ == key@),
        },
{
    u.get(key)
}

/// Relies on `TinyUfo::put`: the new element is held afterwards whenever the
/// stored weight plus its weight is within the limit (the frequency-based
/// admission test only arbitrates when an eviction was needed); in every
/// case nothing is held afterwards beyond what was held before plus the new
/// element, the accounted weight grows by at most the new element's weight,
/// and the limit never changes.
#[verifier::external_body]
fn ufo_put(u: &mut TinyUfo<String, CacheEntry>, key: String, value: CacheEntry, weight: u16)
    requires
        weight >= 1,
    ensures
        forall|k: Seq<char>|
            #[trigger] ufo_entries(*final(u)).dom().contains(k) ==> ((k == key@ && ufo_entries(
                *final(u),
            )[k] == cache_entry_view(value)) || ufo_entries(*old(u)).contains_pair(
                k,
                ufo_entries(*final(u))[k],
            )),
        ufo_weight(*old(u)) + weight <= ufo_limit(*old(u)) ==> ufo_entries(
            *final(u),
        ).contains_pair(key@, cache_entry_view(value)),
        ufo_weight(*final(u)) <= ufo_weight(*old(u)) + weight,
        ufo_limit(*final(u)) == ufo_limit(*old(u)),
{
    u.put(key, value, weight);
}

/// True when an ordered header list declares an HTML content type.
pub open spec fn headers_declare_html(headers: Seq<(Seq<char>, Seq<char>)>) -> bool {
    exists|i: int|
        0 <= i < headers.len() && (#[trigger] headers[i]).0 == "content-type"@ && spec_is_html(
            headers[i].1,
        )
}

/// What a cache lookup yields from a given cache state: the stored headers
/// and body, only when the key is present and unexpired.
pub open spec fn lookup(
    m: Map<Seq<char>, (u64, Seq<(Seq<char>, Seq<char>)>, Option<Seq<u8>>)>,
    key: Seq<char>,
    now: u64,
) -> Option<(Seq<(Seq<char>, Seq<char>)>, Option<Seq<u8>>)> {
    if m.dom().contains(key) && now < m[key].0 {
        Some((m[key].1, m[key].2))
    } else {
        None
    }
}

/// The bounded TTL response cache. A `capacity` of zero disables it: every
/// get misses and every put is skipped.
pub struct ResponseCache {
    store: TinyUfo<String, CacheEntry>,
    capacity: usize,
    ttl_secs: u64,
}

impl View for ResponseCache {
    type V = Map<Seq<char>, (u64, Seq<(Seq<char>, Seq<char>)>, Option<Seq<u8>>)>;

    closed spec fn view(&self) -> Map<Seq<char>, (u64, Seq<(Seq<char>, Seq<char>)>, Option<
        Seq<u8>,
    >)> {
        if self.capacity == 0 {
            Map::empty()
        } else {
            Map::new(
                |k: Seq<char>| ufo_entries(self.store).dom().contains(k),
                |k: Seq<char>|
                    (
                        ufo_entries(self.store)[k].1,
                        ufo_entries(self.store)[k].2,
                        ufo_entries(self.store)[k].3,
                    ),
            )
        }
    }
}

impl ResponseCache {
    /// Every held element is recorded under its own key, never declares an
    /// HTML content type, and the structure's limit is the configured
    /// capacity.
    pub closed spec fn wf(&self) -> bool {
        &&& forall|k: Seq<char>|
            #[trigger] ufo_entries(self.store).dom().contains(k) ==> ufo_entries(self.store)[k].0
                == k
        &&& forall|k: Seq<char>|
            #[trigger] ufo_entries(self.store).dom().contains(k) ==> !headers_declare_html(
                ufo_entries(self.store)[k].2,
            )
        &&& ufo_limit(self.store) == self.capacity as nat
    }

    pub closed spec fn spec_capacity(&self) -> usize {
        self.capacity
    }

    pub closed spec fn spec_ttl_secs(&self) -> u64 {
        self.ttl_secs
    }

    /// How much weight the bounded structure currently accounts; each stored
    /// response weighs one.
    pub closed spec fn stored_weight(&self) -> nat {
        ufo_weight(self.store)
    }

    /// A cache of the given capacity and TTL, initially empty.
    pub fn new(capacity: usize, ttl_secs: u64) -> (r: ResponseCache)
        ensures
            r.wf(),
            r@ == Map::<Seq<char>, (u64, Seq<(Seq<char>, Seq<char>)>, Option<Seq<u8>>)>::empty(),
            r.spec_capacity() == capacity,
            r.spec_ttl_secs() == ttl_secs,
            r.stored_weight() == 0,
    {
        let store = ufo_new(capacity, capacity);
        let r = ResponseCache { store, capacity, ttl_secs };
        proof {
            assert(r@ =~= Map::<
                Seq<char>,
                (u64, Seq<(Seq<char>, Seq<char>)>, Option<Seq<u8>>),
            >::empty());
        }
        r
    }

    /// Looks up an unexpired response for `file`. Expired-but-held elements
    /// are treated as misses, and a zero capacity always misses.
    pub fn get(&self, file: &String, now: u64) -> (r: Option<FileInfo>)
        requires
            self.wf(),
        ensures
            match r {
                Some(info) => lookup(self@, file@, now) == Some((info@.headers, info@.body)),
                None => lookup(self@, file@, now) is None,
            },
    {
        if self.capacity == 0 {
            return None;
        }
        match ufo_get(&self.store, file) {
            Some(e) => {
                if e.key == *file && now < e.expires_at {
                    Some(e.data)
                } else {
                    None
                }
            },
            None => None,
        }
    }

    /// Stores a buffered, non-HTML response under `file`, to expire after
    /// the configured TTL. With zero capacity nothing is stored. The element
    /// is then held — and a later unexpired get returns it — whenever the
    /// bounded structure had room for it; whatever it decided, nothing is
    /// held afterwards beyond what was held before plus this element.
    pub fn put(&mut self, file: &String, info: &FileInfo, now: u64)
        requires
            old(self).wf(),
            !headers_declare_html(info@.headers),
            now + old(self).spec_ttl_secs() <= u64::MAX,
        ensures
            final(self).wf(),
            final(self).spec_capacity() == old(self).spec_capacity(),
            final(self).spec_ttl_secs() == old(self).spec_ttl_secs(),
            forall|k: Seq<char>|
                #[trigger] final(self)@.dom().contains(k) ==> ((k == file@ && final(self)@[k] == (
                    (now + old(self).spec_ttl_secs()) as u64,
                    info@.headers,
                    info@.body,
                )) || old(self)@.contains_pair(k, final(self)@[k])),
            old(self).spec_capacity() > 0 && old(self).stored_weight() + 1 <= old(
                self,
            ).spec_capacity() ==> final(self)@.contains_pair(
                file@,
                ((now + old(self).spec_ttl_secs()) as u64, info@.headers, info@.body),
            ),
            final(self).stored_weight() <= old(self).stored_weight() + 1,
    {
        if self.capacity == 0 {
            return ;
        }
        let expires_at = now + self.ttl_secs;
        let entry = CacheEntry { key: file.clone(), expires_at, data: info.duplicate() };
        ufo_put(&mut self.store, file.clone(), entry, 1);
    }
}

/// Cache round trip: a cache state holding `entry` under `key` serves, for
/// any get before the expiry time, exactly the headers and body that were
/// stored — byte-identical — and behaves as a miss from the expiry time on.
pub proof fn lemma_cache_round_trip(
    m: Map<Seq<char>, (u64, Seq<(Seq<char>, Seq<char>)>, Option<Seq<u8>>)>,
    key: Seq<char>,
    entry: (u64, Seq<(Seq<char>, Seq<char>)>, Option<Seq<u8>>),
    now: u64,
)
    requires
        m.contains_pair(key, entry),
    ensures
        now < entry.0 ==> lookup(m, key, now) == Some((entry.1, entry.2)),
        now >= entry.0 ==> lookup(m, key, now) is None,
{
}

/// No HTML body is ever present in the cache: whatever key is held in a
/// well-formed cache, its stored headers do not declare an HTML content
/// type.
pub proof fn lemma_no_html_in_cache(c: &ResponseCache, key: Seq<char>)
    requires
        c.wf(),
        c@.dom().contains(key),
    ensures
        !headers_declare_html(c@[key].1),
{
}

} // verus!
