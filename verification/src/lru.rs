//! The two bounded caches, backed by `lru_cache::LruCache`.
//!
//! A cache is modelled as the sequence of its pairs in least- to
//! most-recently-used order — the order its iterator walks — together with
//! the capacity it was created with. Inserting or reading a key moves its
//! pair to the most-recently-used end; an insert that would exceed the
//! capacity drops the least-recently-used pair.

use vstd::prelude::*;

use crate::template::{template_cache_eqv, TemplateCache, TemplateKey};
use crate::types::{UncleBlock, H256};
use crate::uncles::uncle_block_eqv;

verus! {

#[verifier::external_type_specification]
#[verifier::external_body]
#[verifier::reject_recursive_types(K)]
#[verifier::reject_recursive_types(V)]
#[verifier::reject_recursive_types(S)]
pub struct ExLruCache<K: Eq + std::hash::Hash, V, S: std::hash::BuildHasher>(
    lru_cache::LruCache<K, V, S>,
);

/// The pairs of `s` whose key is not `k`, in unchanged order.
pub open spec fn entries_remove_key<K, V>(s: Seq<(K, V)>, k: K) -> Seq<(K, V)> {
    s.filter(|p: (K, V)| p.0 != k)
}

/// What a bounded LRU mapping holds after `(k, v)` is inserted: the pair
/// stands at the most-recently-used end, any old pair under `k` is gone, and
/// the least-recently-used pair is dropped if the capacity would be
/// exceeded.
pub open spec fn entries_insert<K, V>(s: Seq<(K, V)>, cap: nat, k: K, v: V) -> Seq<(K, V)> {
    let bumped = entries_remove_key(s, k).push((k, v));
    if bumped.len() > cap {
        bumped.drop_first()
    } else {
        bumped
    }
}

/// The first position at or after `i` whose pair has key `k`.
pub open spec fn entries_find<K, V>(s: Seq<(K, V)>, k: K, i: int) -> Option<int>
    decreases s.len() - i,
{
    if i < 0 || i >= s.len() {
        None
    } else if s[i].0 == k {
        Some(i)
    } else {
        entries_find(s, k, i + 1)
    }
}

/// The candidate-uncle cache's pairs, least recently used first.
pub uninterp spec fn uncle_cache_entries(c: lru_cache::LruCache<H256, UncleBlock>) -> Seq<
    (H256, UncleBlock),
>;

/// The capacity the candidate-uncle cache was created with.
pub uninterp spec fn uncle_cache_capacity(c: lru_cache::LruCache<H256, UncleBlock>) -> nat;

/// The template cache's pairs, least recently used first.
pub uninterp spec fn template_cache_entries(c: lru_cache::LruCache<TemplateKey, TemplateCache>) -> Seq<
    (TemplateKey, TemplateCache),
>;

/// The capacity the template cache was created with.
pub uninterp spec fn template_cache_capacity(c: lru_cache::LruCache<TemplateKey, TemplateCache>) -> nat;

/// Relies on lru_cache::LruCache::new: an empty cache that holds at most
/// `capacity` pairs.
#[verifier::external_body]
pub fn uncle_cache_new(capacity: usize) -> (c: lru_cache::LruCache<H256, UncleBlock>)
    ensures
        uncle_cache_entries(c) == Seq::<(H256, UncleBlock)>::empty(),
        uncle_cache_capacity(c) == capacity,
{
    lru_cache::LruCache::new(capacity)
}

/// Relies on lru_cache::LruCache::insert: the pair becomes the most recently
/// used, replacing any pair under the same key; the least recently used pair
/// leaves when the cache would exceed its capacity.
#[verifier::external_body]
pub fn uncle_cache_insert(c: &mut lru_cache::LruCache<H256, UncleBlock>, k: H256, v: UncleBlock)
    ensures
        uncle_cache_capacity(*final(c)) == uncle_cache_capacity(*old(c)),
        uncle_cache_entries(*final(c)) == entries_insert(
            uncle_cache_entries(*old(c)),
            uncle_cache_capacity(*old(c)),
            k,
            v,
        ),
{
    c.insert(k, v);
}

/// Relies on lru_cache::LruCache::remove: the pair under `k`, if any,
/// leaves; the order of the rest is unchanged.
#[verifier::external_body]
pub fn uncle_cache_remove(c: &mut lru_cache::LruCache<H256, UncleBlock>, k: &H256)
    ensures
        uncle_cache_capacity(*final(c)) == uncle_cache_capacity(*old(c)),
        uncle_cache_entries(*final(c)) == entries_remove_key(uncle_cache_entries(*old(c)), *k),
{
    c.remove(k);
}

/// Relies on lru_cache::LruCache::iter: the pairs in least- to most-recently
/// used order, each copied out by the library's verified clone; reading this
/// way does not touch the LRU state.
#[verifier::external_body]
pub fn uncle_cache_to_vec(c: &lru_cache::LruCache<H256, UncleBlock>) -> (r: Vec<
    (H256, UncleBlock),
>)
    ensures
        r@.len() == uncle_cache_entries(*c).len(),
        forall|i: int|
            0 <= i < r@.len() ==> (#[trigger] r@[i]).0 == uncle_cache_entries(*c)[i].0
                && uncle_block_eqv(r@[i].1, uncle_cache_entries(*c)[i].1),
{
    c.iter().map(|(k, v)| (*k, crate::uncles::clone_uncle_block(v))).collect()
}

/// Relies on lru_cache::LruCache::new: an empty cache that holds at most
/// `capacity` pairs.
#[verifier::external_body]
pub fn template_cache_new(capacity: usize) -> (c: lru_cache::LruCache<TemplateKey, TemplateCache>)
    ensures
        template_cache_entries(c) == Seq::<(TemplateKey, TemplateCache)>::empty(),
        template_cache_capacity(c) == capacity,
{
    lru_cache::LruCache::new(capacity)
}

/// Relies on lru_cache::LruCache::insert: the pair becomes the most recently
/// used, replacing any pair under the same key; the least recently used pair
/// leaves when the cache would exceed its capacity.
#[verifier::external_body]
pub fn template_cache_insert(
    c: &mut lru_cache::LruCache<TemplateKey, TemplateCache>,
    k: TemplateKey,
    v: TemplateCache,
)
    ensures
        template_cache_capacity(*final(c)) == template_cache_capacity(*old(c)),
        template_cache_entries(*final(c)) == entries_insert(
            template_cache_entries(*old(c)),
            template_cache_capacity(*old(c)),
            k,
            v,
        ),
{
    c.insert(k, v);
}

/// Relies on lru_cache::LruCache::get_mut: a copy of the value under `k`,
/// made by the library's verified clone; the value's pair becomes the most
/// recently used.
#[verifier::external_body]
pub fn template_cache_get(c: &mut lru_cache::LruCache<TemplateKey, TemplateCache>, k: &TemplateKey) -> (r:
    Option<TemplateCache>)
    ensures
        template_cache_capacity(*final(c)) == template_cache_capacity(*old(c)),
        match entries_find(template_cache_entries(*old(c)), *k, 0) {
            None => r is None && template_cache_entries(*final(c)) == template_cache_entries(
                *old(c),
            ),
            Some(i) => r matches Some(e) && template_cache_eqv(
                e,
                template_cache_entries(*old(c))[i].1,
            ) && template_cache_entries(*final(c)) == template_cache_entries(*old(c)).remove(
                i,
            ).push(template_cache_entries(*old(c))[i]),
        },
{
    c.get_mut(k).map(|e| crate::template::clone_template_cache(e))
}

/// Removing a key keeps a subsequence: nothing new, nothing under the key,
/// and no growth.
pub proof fn lemma_remove_key_subset<K, V>(s: Seq<(K, V)>, k: K)
    ensures
        entries_remove_key(s, k).len() <= s.len(),
        forall|j: int|
            0 <= j < entries_remove_key(s, k).len() ==> s.contains(
                #[trigger] entries_remove_key(s, k)[j],
            ) && entries_remove_key(s, k)[j].0 != k,
{
    broadcast use vstd::seq_lib::group_filter_ensures;

    let pred = |p: (K, V)| p.0 != k;
    assert forall|j: int| 0 <= j < s.filter(pred).len() implies s.contains(
        #[trigger] s.filter(pred)[j],
    ) && s.filter(pred)[j].0 != k by {
        assert(s.filter(pred).contains(s.filter(pred)[j]));
        s.lemma_filter_contains_rev(pred, s.filter(pred)[j]);
        assert(pred(s.filter(pred)[j]));
    }
}

/// Removing a key that is not there changes nothing.
pub proof fn lemma_remove_key_absent<K, V>(s: Seq<(K, V)>, k: K)
    requires
        forall|j: int| 0 <= j < s.len() ==> (#[trigger] s[j]).0 != k,
    ensures
        entries_remove_key(s, k) == s,
    decreases s.len(),
{
    reveal(Seq::filter);
    let pred = |p: (K, V)| p.0 != k;
    if s.len() == 0 {
        assert(s.filter(pred) =~= s);
    } else {
        lemma_remove_key_absent(s.drop_last(), k);
        assert(pred(s.last()));
        assert(s.filter(pred) == s.drop_last().filter(pred).push(s.last()));
        assert(s.drop_last().push(s.last()) =~= s);
    }
}

/// A successful first-match search lands in range, on the key it looked
/// for.
pub proof fn lemma_entries_find_props<K, V>(s: Seq<(K, V)>, k: K, i: int)
    ensures
        match entries_find(s, k, i) {
            None => true,
            Some(j) => i <= j < s.len() && s[j].0 == k,
        },
    decreases s.len() - i,
{
    if i < 0 || i >= s.len() {
    } else if s[i].0 == k {
    } else {
        lemma_entries_find_props(s, k, i + 1);
    }
}

/// When a key occurs only at the very end, the first-match search finds it
/// there.
pub proof fn lemma_find_only_at_end<K, V>(s: Seq<(K, V)>, k: K, i: int)
    requires
        s.len() >= 1,
        0 <= i <= s.len() - 1,
        forall|j: int| 0 <= j < s.len() - 1 ==> (#[trigger] s[j]).0 != k,
        s[s.len() - 1].0 == k,
    ensures
        entries_find(s, k, i) == Some(s.len() - 1),
    decreases s.len() - i,
{
    if i < s.len() - 1 {
        lemma_find_only_at_end(s, k, i + 1);
    }
}

/// After an insert, the inserted pair stands at the most-recently-used end
/// and is what a search for its key finds.
pub proof fn lemma_find_after_insert<K, V>(s: Seq<(K, V)>, cap: nat, k: K, v: V)
    requires
        cap >= 1,
    ensures
        ({
            let s2 = entries_insert(s, cap, k, v);
            &&& s2.len() >= 1
            &&& s2[s2.len() - 1] == (k, v)
            &&& entries_find(s2, k, 0) == Some(s2.len() - 1)
        }),
{
    broadcast use vstd::seq_lib::group_filter_ensures;

    let f = entries_remove_key(s, k);
    let pred = |p: (K, V)| p.0 != k;
    assert(forall|j: int| 0 <= j < f.len() ==> (#[trigger] f[j]).0 != k) by {
        assert(forall|j: int| 0 <= j < f.len() ==> pred(#[trigger] s.filter(pred)[j]));
    }
    let bumped = f.push((k, v));
    if bumped.len() > cap {
        let s2 = bumped.drop_first();
        assert(s2[s2.len() - 1] == (k, v));
        assert forall|j: int| 0 <= j < s2.len() - 1 implies (#[trigger] s2[j]).0 != k by {
            assert(s2[j] == bumped[j + 1]);
        }
        lemma_find_only_at_end(s2, k, 0);
    } else {
        lemma_find_only_at_end(bumped, k, 0);
    }
}

} // verus!
