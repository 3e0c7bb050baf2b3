//! The cache of generated site certificates of the filtering proxy: the
//! certificate and key PEMs per host, in an `lru::LruCache` that forgets the
//! least recently used host when full.
use vstd::prelude::*;
use lru::LruCache;
use std::collections::hash_map::RandomState;

verus! {

/// The `lru` crate's least-recently-used cache.
#[verifier::external_type_specification]
#[verifier::external_body]
#[verifier::reject_recursive_types(K)]
#[verifier::reject_recursive_types(V)]
#[verifier::reject_recursive_types(S)]
pub struct ExLruCache<K, V, S>(LruCache<K, V, S>);

/// A certificate PEM and its private key PEM.
pub type PemPair = (Vec<u8>, Vec<u8>);

/// A certificate PEM and its key PEM, as byte sequences.
pub type PemView = (Seq<u8>, Seq<u8>);

/// The cache type used for site certificates.
pub type PemLru = LruCache<String, PemPair, RandomState>;

/// The PEMs a cache holds for each host: certificate and private key.
pub uninterp spec fn pem_entries(c: PemLru) -> Map<Seq<char>, (Seq<u8>, Seq<u8>)>;

/// The hosts a cache holds, from the least recently used to the most
/// recently used.
pub uninterp spec fn pem_recency(c: PemLru) -> Seq<Seq<char>>;

/// The capacity a cache was made with.
pub uninterp spec fn pem_capacity(c: PemLru) -> nat;

/// `order` with `host` moved to (or added at) its most recently used end.
pub open spec fn touched(order: Seq<Seq<char>>, host: Seq<char>) -> Seq<Seq<char>> {
    order.filter(|k: Seq<char>| k != host).push(host)
}

/// A cache holds finitely many hosts, at most its capacity, each once in
/// its recency order.
pub open spec fn pem_cache_bounded(c: PemLru) -> bool {
    &&& pem_entries(c).dom().finite()
    &&& pem_entries(c).dom().len() <= pem_capacity(c)
    &&& pem_capacity(c) > 0
    &&& pem_recency(c).no_duplicates()
    &&& pem_recency(c).len() == pem_entries(c).dom().len()
    &&& forall|k: Seq<char>| #[trigger] pem_entries(c).contains_key(k) <==> pem_recency(c).contains(k)
}

/// An empty cache from `LruCache::with_hasher` (with std's hasher) for `capacity` hosts, which must not
/// be zero.
#[verifier::external_body]
fn lru_new(capacity: usize) -> (cache: PemLru)
    requires
        capacity > 0,
    ensures
        pem_entries(cache).dom().len() == 0,
        pem_entries(cache).dom().finite(),
        pem_recency(cache) == Seq::<Seq<char>>::empty(),
        pem_capacity(cache) == capacity,
        pem_cache_bounded(cache),
{
    LruCache::with_hasher(std::num::NonZeroUsize::new(capacity).unwrap(), RandomState::new())
}

/// `LruCache::get`: the PEMs held for `host`, copied; a host that is held
/// becomes the most recently used, and the entries stay as they are.
#[verifier::external_body]
fn lru_get(c: &mut PemLru, host: &str) -> (r: Option<PemPair>)
    requires
        pem_cache_bounded(*old(c)),
    ensures
        pem_entries(*final(c)) == pem_entries(*old(c)),
        pem_capacity(*final(c)) == pem_capacity(*old(c)),
        pem_cache_bounded(*final(c)),
        match r {
            Some(p) => pem_entries(*old(c)).contains_key(host@) && pem_entries(*old(c))[host@] == (p.0@, p.1@)
                && pem_recency(*final(c)) == touched(pem_recency(*old(c)), host@),
            None => !pem_entries(*old(c)).contains_key(host@) && pem_recency(*final(c)) == pem_recency(*old(c)),
        },
{
    c.get(host).cloned()
}

/// `LruCache::put`: stores the PEMs for `host`, which becomes the most
/// recently used. A host already present gets the new PEMs; a new host is
/// added, and when the cache was full the least recently used host leaves.
#[verifier::external_body]
fn lru_put(c: &mut PemLru, host: String, pems: PemPair)
    requires
        pem_cache_bounded(*old(c)),
    ensures
        pem_capacity(*final(c)) == pem_capacity(*old(c)),
        pem_cache_bounded(*final(c)),
        pem_entries(*old(c)).contains_key(host@) || pem_entries(*old(c)).dom().len() < pem_capacity(*old(c))
            ==> pem_entries(*final(c)) == pem_entries(*old(c)).insert(host@, (pems.0@, pems.1@))
            && pem_recency(*final(c)) == touched(pem_recency(*old(c)), host@),
        !pem_entries(*old(c)).contains_key(host@) && pem_entries(*old(c)).dom().len() >= pem_capacity(*old(c))
            ==> pem_entries(*final(c)) == pem_entries(*old(c)).remove(pem_recency(*old(c))[0]).insert(
                host@,
                (pems.0@, pems.1@),
            ) && pem_recency(*final(c)) == pem_recency(*old(c)).drop_first().push(host@),
{
    c.put(host, pems);
}

/// What a lookup of `host` answers from a cache holding `entries`.
pub open spec fn lookup_answer(entries: Map<Seq<char>, PemView>, host: Seq<char>) -> Option<PemView> {
    if entries.contains_key(host) {
        Some(entries[host])
    } else {
        None
    }
}

/// The PEMs of an answer, as byte sequences.
pub open spec fn pem_answer(r: Option<PemPair>) -> Option<PemView> {
    match r {
        Some(p) => Some((p.0@, p.1@)),
        None => None,
    }
}

/// `order` lists the hosts of `entries` once each, least recently used
/// first, and there are at most `capacity` of them.
pub open spec fn order_matches(entries: Map<Seq<char>, PemView>, order: Seq<Seq<char>>, capacity: nat) -> bool {
    &&& order.no_duplicates()
    &&& order.len() == entries.dom().len()
    &&& forall|k: Seq<char>| #[trigger] entries.contains_key(k) <==> order.contains(k)
    &&& capacity > 0
}

/// `after` (with recency order `after_order`) is `before` (with
/// `before_order`) with `pems` remembered for `host`: the host holds them
/// and becomes the most recently used, and every other host held keeps its
/// PEMs. When the host was already there or there was room nothing else
/// changed; otherwise the least recently used host was forgotten.
pub open spec fn remembered(
    before: Map<Seq<char>, PemView>,
    before_order: Seq<Seq<char>>,
    after: Map<Seq<char>, PemView>,
    after_order: Seq<Seq<char>>,
    capacity: nat,
    host: Seq<char>,
    pems: PemView,
) -> bool {
    &&& after.contains_key(host)
    &&& after[host] == pems
    &&& forall|k: Seq<char>| #[trigger] after.contains_key(k) && k != host
        ==> before.contains_key(k) && after[k] == before[k]
    &&& if before.contains_key(host) || before.dom().len() < capacity {
        after == before.insert(host, pems) && after_order == touched(before_order, host)
    } else {
        after == before.remove(before_order[0]).insert(host, pems)
            && after_order == before_order.drop_first().push(host)
    }
}

/// The cache of site certificates.
pub struct CertificateCache {
    inner: PemLru,
}

impl CertificateCache {
    /// The PEMs held per host.
    pub closed spec fn entries(&self) -> Map<Seq<char>, (Seq<u8>, Seq<u8>)> {
        pem_entries(self.inner)
    }

    /// The hosts held, least recently used first.
    pub closed spec fn recency(&self) -> Seq<Seq<char>> {
        pem_recency(self.inner)
    }

    /// The number of hosts the cache can hold.
    pub closed spec fn capacity(&self) -> nat {
        pem_capacity(self.inner)
    }

    /// The cache holds at most `capacity()` hosts, each once in its
    /// recency order.
    pub closed spec fn wf(&self) -> bool {
        pem_cache_bounded(self.inner)
    }

    /// A well-formed cache's recency order lists its hosts.
    pub proof fn lemma_wf_order(&self)
        requires
            self.wf(),
        ensures
            order_matches(self.entries(), self.recency(), self.capacity()),
            self.entries().dom().finite(),
            self.entries().dom().len() <= self.capacity(),
    {
    }

    /// An empty cache for `capacity` hosts, which must not be zero.
    pub fn new(capacity: usize) -> (c: CertificateCache)
        requires
            capacity > 0,
        ensures
            c.wf(),
            c.entries() == Map::<Seq<char>, (Seq<u8>, Seq<u8>)>::empty(),
            c.recency() == Seq::<Seq<char>>::empty(),
            c.capacity() == capacity,
    {
        let inner = lru_new(capacity);
        proof {
            assert(pem_entries(inner).dom() =~= Set::<Seq<char>>::empty());
        }
        CertificateCache { inner }
    }

    /// The certificate and key PEMs held for `host`, if any.
    pub fn lookup(&mut self, host: &str) -> (r: Option<PemPair>)
        requires
            old(self).wf(),
        ensures
            final(self).wf(),
            final(self).entries() == old(self).entries(),
            final(self).capacity() == old(self).capacity(),
            pem_answer(r) == lookup_answer(old(self).entries(), host@),
            final(self).recency() == (if r is Some {
                touched(old(self).recency(), host@)
            } else {
                old(self).recency()
            }),
    {
        lru_get(&mut self.inner, host)
    }

    /// Remembers the PEMs generated for `host`, which becomes the most
    /// recently used. When the cache is full and the host is new, the least
    /// recently used host is forgotten.
    pub fn remember(&mut self, host: &str, cert_pem: Vec<u8>, key_pem: Vec<u8>)
        requires
            old(self).wf(),
        ensures
            final(self).wf(),
            final(self).capacity() == old(self).capacity(),
            remembered(
                old(self).entries(),
                old(self).recency(),
                final(self).entries(),
                final(self).recency(),
                old(self).capacity(),
                host@,
                (cert_pem@, key_pem@),
            ),
    {
        let ghost pems = (cert_pem@, key_pem@);
        lru_put(&mut self.inner, String::from_str(host), (cert_pem, key_pem));
        proof {
            let b = old(self).entries();
            let o = old(self).recency();
            if !(b.contains_key(host@) || b.dom().len() < old(self).capacity()) {
                assert(o.len() > 0);
                assert(o.contains(o[0]));
                assert(b.contains_key(o[0]));
                assert(o[0] != host@);
            }
        }
    }
}

/// Once the PEMs of a host are remembered, a lookup of that host answers
/// them.
pub proof fn lemma_lookup_after_remember(
    before: Map<Seq<char>, PemView>,
    before_order: Seq<Seq<char>>,
    after: Map<Seq<char>, PemView>,
    after_order: Seq<Seq<char>>,
    capacity: nat,
    host: Seq<char>,
    pems: PemView,
)
    requires
        remembered(before, before_order, after, after_order, capacity, host, pems),
    ensures
        lookup_answer(after, host) == Some(pems),
{
}

/// Remembering one host leaves what a lookup of any other host answers,
/// unless that host is the one forgotten to make room; with room to spare,
/// or for a host already held, no lookup of another host changes.
pub proof fn lemma_remember_keeps_others(
    before: Map<Seq<char>, PemView>,
    before_order: Seq<Seq<char>>,
    after: Map<Seq<char>, PemView>,
    after_order: Seq<Seq<char>>,
    capacity: nat,
    host: Seq<char>,
    pems: PemView,
    other: Seq<char>,
)
    requires
        remembered(before, before_order, after, after_order, capacity, host, pems),
        other != host,
    ensures
        lookup_answer(after, other) is Some ==> lookup_answer(after, other) == lookup_answer(before, other),
        before.contains_key(host) || before.dom().len() < capacity ==> lookup_answer(after, other)
            == lookup_answer(before, other),
{
    if before.contains_key(host) || before.dom().len() < capacity {
        assert(after == before.insert(host, pems));
    }
}

/// Remembering a new host in a full cache forgets exactly the least
/// recently used host: a lookup of it then finds nothing, and the new host
/// is the most recently used.
pub proof fn lemma_full_cache_forgets_least_recent(
    before: Map<Seq<char>, PemView>,
    before_order: Seq<Seq<char>>,
    after: Map<Seq<char>, PemView>,
    after_order: Seq<Seq<char>>,
    capacity: nat,
    host: Seq<char>,
    pems: PemView,
)
    requires
        order_matches(before, before_order, capacity),
        remembered(before, before_order, after, after_order, capacity, host, pems),
        !before.contains_key(host),
        before.dom().len() >= capacity,
    ensures
        before_order.len() > 0,
        lookup_answer(before, before_order[0]) is Some,
        lookup_answer(after, before_order[0]) is None,
        after_order.last() == host,
{
    assert(before_order.contains(before_order[0]));
    assert(before.contains_key(before_order[0]));
}

} // verus!
