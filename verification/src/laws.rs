//! The laws of the assembler, as proof functions: what holds of every
//! selection, every fee accounting, every cache move and every pair of
//! builds, proved from the contracts the executable functions carry.

use vstd::prelude::*;

use crate::assembler::{
    built_fresh, entries_remove_keys, lemma_remove_keys_sound, spec_clamp_u64, spec_template_key,
    uncle_keys_match, BlockAssembler, MAX_CANDIDATE_UNCLES, TEMPLATE_CACHE_SIZE,
};
use crate::error::Error;
use crate::fee::{
    resolve_capacity, spec_transaction_fee, sum_inputs_from, sum_outputs_from,
};
use crate::lru::{
    entries_find, entries_insert, lemma_remove_key_absent, template_cache_entries,
};
use crate::strings::{dec_seq, lemma_dec_seq_injective};
use crate::template::{block_template_eqv, BlockTemplate, TemplateKey};
use crate::types::{CellInput, CellOutput, Consensus, EpochExt, Header, PoolEntry, Transaction, UncleBlock, H256};
use crate::uncles::{
    cand_view, epoch_matches, sel_contains_key, select_uncles, spec_excluded,
    spec_prepare_uncles, spec_uncle_depth, SelectedUncle,
};

verus! {

// ---------------------------------------------------------------------------
// Selection
// ---------------------------------------------------------------------------

/// What consensus asks of a selected uncle: the current epoch's number and
/// difficulty, a depth within `[1, max_age]`, and a hash clear of the
/// exclusion set.
pub open spec fn good_uncle(
    tip: Header,
    epoch: EpochExt,
    excluded: Seq<H256>,
    max_age: u64,
    e: SelectedUncle,
) -> bool {
    &&& epoch_matches(epoch, e.1)
    &&& 1 <= spec_uncle_depth(tip, e.1) <= max_age
    &&& !excluded.contains(e.0)
}

/// Selection only appends: what stands in the accumulators stands in the
/// result, at the same positions.
pub proof fn lemma_select_extends(
    tip: Header,
    epoch: EpochExt,
    excluded: Seq<H256>,
    max_num: int,
    max_age: u64,
    cands: Seq<SelectedUncle>,
    i: int,
    selected: Seq<SelectedUncle>,
    bad: Seq<H256>,
)
    ensures
        ({
            let r = select_uncles(tip, epoch, excluded, max_num, max_age, cands, i, selected, bad);
            &&& r.0.len() >= selected.len()
            &&& forall|j: int| 0 <= j < selected.len() ==> r.0[j] == selected[j]
            &&& r.1.len() >= bad.len()
            &&& forall|j: int| 0 <= j < bad.len() ==> r.1[j] == bad[j]
        }),
    decreases cands.len() - i,
{
    if i < 0 || i >= cands.len() || selected.len() >= max_num {
    } else {
        let r_now = select_uncles(tip, epoch, excluded, max_num, max_age, cands, i, selected, bad);
        let h = cands[i].0;
        let u = cands[i].1;
        let d = spec_uncle_depth(tip, u);
        if !epoch_matches(epoch, u) || d > max_age || d < 1 || sel_contains_key(selected, h)
            || excluded.contains(h) {
            let bad2 = bad.push(h);
            assert(r_now == select_uncles(
                tip,
                epoch,
                excluded,
                max_num,
                max_age,
                cands,
                i + 1,
                selected,
                bad2,
            ));
            lemma_select_extends(tip, epoch, excluded, max_num, max_age, cands, i + 1, selected, bad2);
            assert forall|j: int| 0 <= j < bad.len() implies r_now.1[j] == bad[j] by {
                assert(bad2[j] == bad[j]);
            }
        } else {
            let selected2 = selected.push(cands[i]);
            assert(r_now == select_uncles(
                tip,
                epoch,
                excluded,
                max_num,
                max_age,
                cands,
                i + 1,
                selected2,
                bad,
            ));
            lemma_select_extends(tip, epoch, excluded, max_num, max_age, cands, i + 1, selected2, bad);
            assert forall|j: int| 0 <= j < selected.len() implies r_now.0[j] == selected[j] by {
                assert(selected2[j] == selected[j]);
            }
        }
    }
}

/// Every selected uncle carries the current epoch's number and difficulty,
/// sits at a depth within `[1, max_uncles_age]`, stands clear of the
/// exclusion set, appears once, and its key is its header's hash.
pub proof fn lemma_select_sound(
    tip: Header,
    epoch: EpochExt,
    excluded: Seq<H256>,
    max_num: int,
    max_age: u64,
    cands: Seq<SelectedUncle>,
    i: int,
    selected: Seq<SelectedUncle>,
    bad: Seq<H256>,
)
    requires
        forall|j: int|
            0 <= j < selected.len() ==> good_uncle(tip, epoch, excluded, max_age, #[trigger] selected[j]),
        forall|j: int, k: int| 0 <= j < k < selected.len() ==> selected[j].0 != selected[k].0,
        forall|j: int| 0 <= j < cands.len() ==> (#[trigger] cands[j]).0 == cands[j].1.hash,
        forall|j: int| 0 <= j < selected.len() ==> (#[trigger] selected[j]).0 == selected[j].1.hash,
    ensures
        ({
            let r = select_uncles(tip, epoch, excluded, max_num, max_age, cands, i, selected, bad);
            &&& forall|j: int|
                0 <= j < r.0.len() ==> good_uncle(tip, epoch, excluded, max_age, #[trigger] r.0[j])
            &&& forall|j: int, k: int| 0 <= j < k < r.0.len() ==> r.0[j].0 != r.0[k].0
            &&& forall|j: int| 0 <= j < r.0.len() ==> (#[trigger] r.0[j]).0 == r.0[j].1.hash
        }),
    decreases cands.len() - i,
{
    if i < 0 || i >= cands.len() || selected.len() >= max_num {
    } else {
        let r_now = select_uncles(tip, epoch, excluded, max_num, max_age, cands, i, selected, bad);
        let h = cands[i].0;
        let u = cands[i].1;
        let d = spec_uncle_depth(tip, u);
        if !epoch_matches(epoch, u) || d > max_age || d < 1 || sel_contains_key(selected, h)
            || excluded.contains(h) {
            assert(r_now == select_uncles(
                tip,
                epoch,
                excluded,
                max_num,
                max_age,
                cands,
                i + 1,
                selected,
                bad.push(h),
            ));
            lemma_select_sound(
                tip,
                epoch,
                excluded,
                max_num,
                max_age,
                cands,
                i + 1,
                selected,
                bad.push(h),
            );
        } else {
            let selected2 = selected.push(cands[i]);
            assert(r_now == select_uncles(
                tip,
                epoch,
                excluded,
                max_num,
                max_age,
                cands,
                i + 1,
                selected2,
                bad,
            ));
            assert(good_uncle(tip, epoch, excluded, max_age, cands[i]));
            assert(cands[i].0 == cands[i].1.hash);
            assert forall|j: int|
                0 <= j < selected2.len() implies good_uncle(
                tip,
                epoch,
                excluded,
                max_age,
                #[trigger] selected2[j],
            ) && selected2[j].0 == selected2[j].1.hash by {
                if j < selected.len() {
                    assert(selected2[j] == selected[j]);
                } else {
                    assert(selected2[j] == cands[i]);
                }
            }
            assert forall|j: int, k: int| 0 <= j < k < selected2.len() implies selected2[j].0
                != selected2[k].0 by {
                if k == selected2.len() - 1 {
                    assert(!sel_contains_key(selected, h));
                    assert(selected2[j] == selected[j]);
                }
            }
            lemma_select_sound(
                tip,
                epoch,
                excluded,
                max_num,
                max_age,
                cands,
                i + 1,
                selected2,
                bad,
            );
        }
    }
}

/// Selection never takes more than `max_num` uncles.
pub proof fn lemma_select_count(
    tip: Header,
    epoch: EpochExt,
    excluded: Seq<H256>,
    max_num: int,
    max_age: u64,
    cands: Seq<SelectedUncle>,
    i: int,
    selected: Seq<SelectedUncle>,
    bad: Seq<H256>,
)
    requires
        selected.len() <= max_num,
    ensures
        select_uncles(tip, epoch, excluded, max_num, max_age, cands, i, selected, bad).0.len()
            <= max_num,
    decreases cands.len() - i,
{
    if i < 0 || i >= cands.len() || selected.len() >= max_num {
    } else {
        let h = cands[i].0;
        let u = cands[i].1;
        if !epoch_matches(epoch, u) {
            lemma_select_count(tip, epoch, excluded, max_num, max_age, cands, i + 1, selected, bad.push(h));
        } else {
            let d = spec_uncle_depth(tip, u);
            if d > max_age || d < 1 || sel_contains_key(selected, h) || excluded.contains(h) {
                lemma_select_count(
                    tip,
                    epoch,
                    excluded,
                    max_num,
                    max_age,
                    cands,
                    i + 1,
                    selected,
                    bad.push(h),
                );
            } else {
                lemma_select_count(
                    tip,
                    epoch,
                    excluded,
                    max_num,
                    max_age,
                    cands,
                    i + 1,
                    selected.push(cands[i]),
                    bad,
                );
            }
        }
    }
}

/// With no candidates there are no uncles: selection over an empty list
/// returns the accumulators unchanged.
pub proof fn lemma_no_candidates_no_uncles(
    tip: Header,
    epoch: EpochExt,
    excluded: Seq<H256>,
    max_num: int,
    max_age: u64,
)
    ensures
        select_uncles(
            tip,
            epoch,
            excluded,
            max_num,
            max_age,
            Seq::empty(),
            0,
            Seq::empty(),
            Seq::empty(),
        ).0 =~= Seq::<SelectedUncle>::empty(),
{
}

/// A candidate that selection examines and that can never become eligible —
/// its epoch has moved on, or its depth falls outside `[1, max_age]`, or its
/// hash is excluded — is classified bad. Selection examines position `idx`
/// whenever enough room is left that the uncle quota cannot fill before it.
pub proof fn lemma_ineligible_candidate_is_bad(
    tip: Header,
    epoch: EpochExt,
    excluded: Seq<H256>,
    max_num: int,
    max_age: u64,
    cands: Seq<SelectedUncle>,
    i: int,
    selected: Seq<SelectedUncle>,
    bad: Seq<H256>,
    idx: int,
)
    requires
        0 <= i <= idx < cands.len(),
        selected.len() + (idx - i) < max_num,
        !epoch_matches(epoch, cands[idx].1) || spec_uncle_depth(tip, cands[idx].1) > max_age
            || spec_uncle_depth(tip, cands[idx].1) < 1 || excluded.contains(cands[idx].0),
    ensures
        select_uncles(tip, epoch, excluded, max_num, max_age, cands, i, selected, bad).1.contains(
            cands[idx].0,
        ),
    decreases cands.len() - i,
{
    let h = cands[i].0;
    let u = cands[i].1;
    let d = spec_uncle_depth(tip, u);
    if i == idx {
        if !epoch_matches(epoch, u) || d > max_age || d < 1 || sel_contains_key(selected, h)
            || excluded.contains(h) {
            let bad2 = bad.push(h);
            let r_now = select_uncles(tip, epoch, excluded, max_num, max_age, cands, i, selected, bad);
            assert(r_now == select_uncles(
                tip,
                epoch,
                excluded,
                max_num,
                max_age,
                cands,
                i + 1,
                selected,
                bad2,
            ));
            lemma_select_extends(tip, epoch, excluded, max_num, max_age, cands, i + 1, selected, bad2);
            assert(bad2[bad.len() as int] == h);
            assert(r_now.1[bad.len() as int] == h);
            assert(r_now.1.contains(h));
        }
    } else {
        if !epoch_matches(epoch, u) || d > max_age || d < 1 || sel_contains_key(selected, h)
            || excluded.contains(h) {
            lemma_ineligible_candidate_is_bad(
                tip,
                epoch,
                excluded,
                max_num,
                max_age,
                cands,
                i + 1,
                selected,
                bad.push(h),
                idx,
            );
        } else {
            lemma_ineligible_candidate_is_bad(
                tip,
                epoch,
                excluded,
                max_num,
                max_age,
                cands,
                i + 1,
                selected.push(cands[i]),
                bad,
                idx,
            );
        }
    }
}

/// A candidate that selection examines, whose epoch and depth are in order
/// (a depth of one suffices), whose hash is clear of the exclusion set and
/// repeats no earlier key, is selected.
pub proof fn lemma_eligible_candidate_is_selected(
    tip: Header,
    epoch: EpochExt,
    excluded: Seq<H256>,
    max_num: int,
    max_age: u64,
    cands: Seq<SelectedUncle>,
    i: int,
    selected: Seq<SelectedUncle>,
    bad: Seq<H256>,
    idx: int,
)
    requires
        0 <= i <= idx < cands.len(),
        selected.len() + (idx - i) < max_num,
        epoch_matches(epoch, cands[idx].1),
        1 <= spec_uncle_depth(tip, cands[idx].1) <= max_age,
        !excluded.contains(cands[idx].0),
        !sel_contains_key(selected, cands[idx].0),
        forall|j: int| i <= j < idx ==> (#[trigger] cands[j]).0 != cands[idx].0,
    ensures
        sel_contains_key(
            select_uncles(tip, epoch, excluded, max_num, max_age, cands, i, selected, bad).0,
            cands[idx].0,
        ),
    decreases cands.len() - i,
{
    let h = cands[i].0;
    let u = cands[i].1;
    let d = spec_uncle_depth(tip, u);
    let key = cands[idx].0;
    if i == idx {
        let selected2 = selected.push(cands[idx]);
        assert(selected2[selected.len() as int].0 == key);
        assert(sel_contains_key(selected2, key));
        lemma_select_extends(tip, epoch, excluded, max_num, max_age, cands, i + 1, selected2, bad);
        let r = select_uncles(tip, epoch, excluded, max_num, max_age, cands, i + 1, selected2, bad);
        let w = choose|w: int| 0 <= w < selected2.len() && selected2[w].0 == key;
        assert(r.0[w].0 == key);
    } else {
        if !epoch_matches(epoch, u) || d > max_age || d < 1 || sel_contains_key(selected, h)
            || excluded.contains(h) {
            lemma_eligible_candidate_is_selected(
                tip,
                epoch,
                excluded,
                max_num,
                max_age,
                cands,
                i + 1,
                selected,
                bad.push(h),
                idx,
            );
        } else {
            let selected2 = selected.push(cands[i]);
            assert(!sel_contains_key(selected2, key)) by {
                if sel_contains_key(selected2, key) {
                    let w = choose|w: int|
                        0 <= w < selected2.len() && selected2[w].0 == key;
                    if w < selected.len() {
                        assert(sel_contains_key(selected, key));
                    } else {
                        assert(selected2[w] == cands[i]);
                    }
                }
            }
            lemma_eligible_candidate_is_selected(
                tip,
                epoch,
                excluded,
                max_num,
                max_age,
                cands,
                i + 1,
                selected2,
                bad,
                idx,
            );
        }
    }
}

/// Every uncle of a freshly built template is valid: it carries the current
/// epoch's number and difficulty, sits at a depth within
/// `[1, max_uncles_age]`, its hash stands clear of the tip's ancestry and of
/// the uncles embedded there, no hash repeats, and the template holds at
/// most `max_uncles_num` of them.
pub proof fn lemma_fresh_template_uncles_valid(
    a0: BlockAssembler,
    a1: BlockAssembler,
    consensus: Consensus,
    tip: Header,
    epoch: EpochExt,
    blocks: Map<H256, crate::types::Block>,
    last_txs: u64,
    key: TemplateKey,
    proposals_limit: u64,
    t: BlockTemplate,
)
    requires
        built_fresh(a0, a1, consensus, tip, epoch, blocks, last_txs, key, proposals_limit, Ok(t)),
        uncle_keys_match(crate::lru::uncle_cache_entries(a0.candidate_uncles)),
    ensures
        t.uncles@.len() <= consensus.max_uncles_num,
        forall|j: int|
            0 <= j < t.uncles@.len() ==> {
                let u = #[trigger] t.uncles@[j];
                &&& epoch_matches(epoch, u.header)
                &&& 1 <= spec_uncle_depth(tip, u.header) <= consensus.max_uncles_age
                &&& !spec_excluded(blocks, tip.hash, consensus.max_uncles_age).contains(u.hash)
            },
        forall|j: int, k: int|
            0 <= j < k < t.uncles@.len() ==> (#[trigger] t.uncles@[j]).hash != (#[trigger] t.uncles@[k]).hash,
{
    let entries = crate::lru::uncle_cache_entries(a0.candidate_uncles);
    let cands = cand_view(entries);
    let excluded = spec_excluded(blocks, tip.hash, consensus.max_uncles_age);
    assert forall|j: int| 0 <= j < cands.len() implies (#[trigger] cands[j]).0
        == cands[j].1.hash by {
        assert(entries[j].0 == entries[j].1.header.hash);
    }
    lemma_select_sound(
        tip,
        epoch,
        excluded,
        consensus.max_uncles_num as int,
        consensus.max_uncles_age,
        cands,
        0,
        Seq::empty(),
        Seq::empty(),
    );
    lemma_select_count(
        tip,
        epoch,
        excluded,
        consensus.max_uncles_num as int,
        consensus.max_uncles_age,
        cands,
        0,
        Seq::empty(),
        Seq::empty(),
    );
    let sel = spec_prepare_uncles(
        blocks,
        tip,
        epoch,
        consensus.max_uncles_num as int,
        consensus.max_uncles_age,
        cands,
    ).0;
    assert forall|j: int| 0 <= j < t.uncles@.len() implies {
        let u = #[trigger] t.uncles@[j];
        &&& epoch_matches(epoch, u.header)
        &&& 1 <= spec_uncle_depth(tip, u.header) <= consensus.max_uncles_age
        &&& !excluded.contains(u.hash)
    } by {
        assert(good_uncle(tip, epoch, excluded, consensus.max_uncles_age, sel[j]));
        assert(sel[j].0 == sel[j].1.hash);
        assert(t.uncles@[j].header == sel[j].1);
        assert(t.uncles@[j].hash == sel[j].1.hash);
    }
    assert forall|j: int, k: int| 0 <= j < k < t.uncles@.len() implies (#[trigger] t.uncles@[j]).hash
        != (#[trigger] t.uncles@[k]).hash by {
        assert(sel[j].0 != sel[k].0);
        assert(t.uncles@[j].hash == sel[j].0 && t.uncles@[k].hash == sel[k].0);
    }
}

/// The caches never outgrow their bounds: a well-formed assembler holds at
/// most 42 candidate uncles and at most 10 memoized templates, and every
/// operation of the service keeps it well-formed.
pub proof fn lemma_caches_bounded(a: BlockAssembler)
    requires
        a.wf(),
    ensures
        crate::lru::uncle_cache_entries(a.candidate_uncles).len() <= MAX_CANDIDATE_UNCLES,
        template_cache_entries(a.template_caches).len() <= TEMPLATE_CACHE_SIZE,
{
}

// ---------------------------------------------------------------------------
// Caches
// ---------------------------------------------------------------------------

/// When a distinct uncle arrives at a full candidate cache, the least
/// recently used pair is dropped, the newcomer stands at the most recently
/// used end, and the bound holds.
pub proof fn lemma_lru_eviction_at_capacity(s: Seq<(H256, UncleBlock)>, k: H256, v: UncleBlock)
    requires
        s.len() == MAX_CANDIDATE_UNCLES,
        forall|j: int| 0 <= j < s.len() ==> (#[trigger] s[j]).0 != k,
    ensures
        ({
            let s2 = entries_insert(s, MAX_CANDIDATE_UNCLES as nat, k, v);
            &&& s2 =~= s.drop_first().push((k, v))
            &&& s2.len() == MAX_CANDIDATE_UNCLES
        }),
{
    lemma_remove_key_absent(s, k);
    assert(s.push((k, v)).drop_first() =~= s.drop_first().push((k, v)));
}

/// After a build evicts the bad candidates, no pair under a bad key is left
/// in the candidate cache.
pub proof fn lemma_bad_candidates_evicted(s: Seq<(H256, UncleBlock)>, keys: Seq<H256>, h: H256)
    requires
        keys.contains(h),
    ensures
        forall|j: int|
            0 <= j < entries_remove_keys(s, keys).len() ==> (#[trigger] entries_remove_keys(
                s,
                keys,
            )[j]).0 != h,
{
    lemma_remove_keys_sound(s, keys);
}

/// A candidate whose epoch has moved on — its number or difficulty differs
/// from the current epoch's — is reclassified as bad by the next build that
/// examines it, and that build leaves no pair under its key in the
/// candidate cache. A build examines every candidate position below the
/// uncle quota.
pub proof fn lemma_stale_epoch_candidate_purged(
    a0: BlockAssembler,
    a1: BlockAssembler,
    consensus: Consensus,
    tip: Header,
    epoch: EpochExt,
    blocks: Map<H256, crate::types::Block>,
    last_txs: u64,
    key: TemplateKey,
    proposals_limit: u64,
    r: Result<BlockTemplate, Error>,
    idx: int,
)
    requires
        built_fresh(a0, a1, consensus, tip, epoch, blocks, last_txs, key, proposals_limit, r),
        0 <= idx < crate::lru::uncle_cache_entries(a0.candidate_uncles).len(),
        idx < consensus.max_uncles_num,
        !epoch_matches(
            epoch,
            crate::lru::uncle_cache_entries(a0.candidate_uncles)[idx].1.header,
        ),
    ensures
        forall|j: int|
            0 <= j < crate::lru::uncle_cache_entries(a1.candidate_uncles).len() ==> (
            #[trigger] crate::lru::uncle_cache_entries(a1.candidate_uncles)[j]).0
                != crate::lru::uncle_cache_entries(a0.candidate_uncles)[idx].0,
{
    let entries = crate::lru::uncle_cache_entries(a0.candidate_uncles);
    let cands = cand_view(entries);
    let excluded = spec_excluded(blocks, tip.hash, consensus.max_uncles_age);
    let h = entries[idx].0;
    assert(cands[idx] == (entries[idx].0, entries[idx].1.header, entries[idx].1.proposals@));
    lemma_ineligible_candidate_is_bad(
        tip,
        epoch,
        excluded,
        consensus.max_uncles_num as int,
        consensus.max_uncles_age,
        cands,
        0,
        Seq::empty(),
        Seq::empty(),
        idx,
    );
    let bad = spec_prepare_uncles(
        blocks,
        tip,
        epoch,
        consensus.max_uncles_num as int,
        consensus.max_uncles_age,
        cands,
    ).1;
    assert(bad.contains(h));
    lemma_bad_candidates_evicted(entries, bad, h);
}

/// A build immediately followed by a request with the same key, an
/// unchanged uncle watermark, an unchanged mempool watermark and an
/// unchanged tip finds the freshly inserted entry valid: its watermarks and
/// number all match, which is exactly the condition under which
/// `get_block_template` promises to serve the cached template unchanged.
pub proof fn lemma_rebuild_is_cache_hit(
    a0: BlockAssembler,
    a1: BlockAssembler,
    consensus: Consensus,
    tip: Header,
    epoch: EpochExt,
    blocks: Map<H256, crate::types::Block>,
    last_txs: u64,
    key: TemplateKey,
    proposals_limit: u64,
    t: BlockTemplate,
)
    requires
        built_fresh(a0, a1, consensus, tip, epoch, blocks, last_txs, key, proposals_limit, Ok(t)),
        a1.last_uncles_updated_at == a0.last_uncles_updated_at,
    ensures
        ({
            match entries_find(template_cache_entries(a1.template_caches), key, 0) {
                None => false,
                Some(i) => {
                    let e = template_cache_entries(a1.template_caches)[i].1;
                    &&& e.uncles_updated_at == a1.last_uncles_updated_at
                    &&& e.txs_updated_at == last_txs
                    &&& e.template.number@ == dec_seq(((tip.number + 1) as u64) as nat)
                    &&& block_template_eqv(e.template, t)
                },
            }
        }),
{
    crate::lru::lemma_entries_find_props(template_cache_entries(a1.template_caches), key, 0);
}

// ---------------------------------------------------------------------------
// Requests
// ---------------------------------------------------------------------------

/// Limits at or above the consensus caps are clamped to them: such a
/// request forms the same template-cache key, and so the same build, as a
/// request that passes no limits at all.
pub proof fn lemma_over_limit_params_equal_none(c: Consensus, b: u64, p: u64, v: u32)
    requires
        b >= c.max_block_bytes,
        p >= c.max_block_proposals_limit,
        v >= c.block_version,
    ensures
        spec_template_key(c, Some(b), Some(v)) == spec_template_key(c, None, None),
        spec_clamp_u64(Some(p), c.max_block_proposals_limit) == spec_clamp_u64(
            None,
            c.max_block_proposals_limit,
        ),
{
}

/// Work ids strictly increase: two successful builds hand out the decimal
/// renderings of strictly increasing counters, so the later id names the
/// larger number and the two strings differ.
pub proof fn lemma_work_ids_strictly_increase(
    c0: u64,
    c1: u64,
    t1: BlockTemplate,
    t2: BlockTemplate,
)
    requires
        c0 < c1,
        t1.work_id@ == dec_seq(c0 as nat),
        t2.work_id@ == dec_seq(c1 as nat),
    ensures
        t1.work_id@ != t2.work_id@,
{
    if t1.work_id@ == t2.work_id@ {
        lemma_dec_seq_injective(c0 as nat, c1 as nat);
    }
}

// ---------------------------------------------------------------------------
// Sizes
// ---------------------------------------------------------------------------

/// Pool entry sizes never sum to a negative number.
pub proof fn lemma_sum_entry_sizes_nonneg(entries: Seq<PoolEntry>)
    ensures
        crate::provider::sum_entry_sizes(entries) >= 0,
    decreases entries.len(),
{
    if entries.len() > 0 {
        lemma_sum_entry_sizes_nonneg(entries.drop_last());
    }
}

/// The block a template describes fits the bytes limit: the byte budget
/// handed to the mempool is what the limit leaves beyond the header, the
/// uncles and the proposals, and the snapshot fits that budget, so header,
/// uncles, proposals and transactions together fit the limit.
pub proof fn lemma_block_fits_bytes_limit(
    proof_size: u64,
    uncles: Seq<UncleBlock>,
    proposals_len: int,
    bytes_limit: u64,
    budget: u64,
    entries: Seq<PoolEntry>,
)
    requires
        crate::assembler::spec_occupied(proof_size, uncles, proposals_len) < bytes_limit,
        budget == bytes_limit - crate::assembler::spec_occupied(proof_size, uncles, proposals_len),
        crate::provider::sum_entry_sizes(entries) <= budget,
    ensures
        crate::assembler::spec_occupied(proof_size, uncles, proposals_len)
            + crate::provider::sum_entry_sizes(entries) <= bytes_limit,
{
    lemma_sum_entry_sizes_nonneg(entries);
}

// ---------------------------------------------------------------------------
// Fees
// ---------------------------------------------------------------------------

/// Whether every input of a transaction resolves to a capacity.
pub open spec fn all_inputs_resolvable(
    txs: Seq<PoolEntry>,
    store: Map<H256, Transaction>,
    inputs: Seq<CellInput>,
) -> bool {
    forall|j: int|
        0 <= j < inputs.len() ==> resolve_capacity(
            txs,
            store,
            #[trigger] inputs[j].previous_output,
        ) is Some
}

/// The exact sum of the resolved capacities of `inputs[i..]`, an unresolved
/// input counting zero.
pub open spec fn input_total(
    txs: Seq<PoolEntry>,
    store: Map<H256, Transaction>,
    inputs: Seq<CellInput>,
    i: int,
) -> int
    decreases inputs.len() - i,
{
    if i < 0 || i >= inputs.len() {
        0
    } else {
        (match resolve_capacity(txs, store, inputs[i].previous_output) {
            Some(c) => c as int,
            None => 0,
        }) + input_total(txs, store, inputs, i + 1)
    }
}

/// The exact sum of the capacities of `outputs[i..]`.
pub open spec fn output_total(outputs: Seq<CellOutput>, i: int) -> int
    decreases outputs.len() - i,
{
    if i < 0 || i >= outputs.len() {
        0
    } else {
        outputs[i].capacity.shannons + output_total(outputs, i + 1)
    }
}

proof fn lemma_input_total_nonneg(
    txs: Seq<PoolEntry>,
    store: Map<H256, Transaction>,
    inputs: Seq<CellInput>,
    i: int,
)
    ensures
        input_total(txs, store, inputs, i) >= 0,
    decreases inputs.len() - i,
{
    if 0 <= i < inputs.len() {
        lemma_input_total_nonneg(txs, store, inputs, i + 1);
    }
}

proof fn lemma_output_total_nonneg(outputs: Seq<CellOutput>, i: int)
    ensures
        output_total(outputs, i) >= 0,
    decreases outputs.len() - i,
{
    if 0 <= i < outputs.len() {
        lemma_output_total_nonneg(outputs, i + 1);
    }
}

proof fn lemma_sum_inputs_ok(
    txs: Seq<PoolEntry>,
    store: Map<H256, Transaction>,
    inputs: Seq<CellInput>,
    i: int,
    acc: u64,
)
    requires
        0 <= i,
    ensures
        ({
            match sum_inputs_from(txs, store, inputs, i, acc) {
                Ok(v) => v == acc + input_total(txs, store, inputs, i) && (forall|j: int|
                    i <= j < inputs.len() ==> resolve_capacity(
                        txs,
                        store,
                        #[trigger] inputs[j].previous_output,
                    ) is Some),
                Err(_) => true,
            }
        }),
    decreases inputs.len() - i,
{
    if 0 <= i < inputs.len() {
        match resolve_capacity(txs, store, inputs[i].previous_output) {
            None => {},
            Some(c) => {
                if acc + c <= u64::MAX {
                    lemma_sum_inputs_ok(txs, store, inputs, i + 1, (acc + c) as u64);
                    assert(input_total(txs, store, inputs, i) == c + input_total(
                        txs,
                        store,
                        inputs,
                        i + 1,
                    ));
                    match sum_inputs_from(txs, store, inputs, i, acc) {
                        Err(_) => {},
                        Ok(v) => {
                            assert(sum_inputs_from(txs, store, inputs, i + 1, (acc + c) as u64)
                                == Ok::<u64, Error>(v));
                            assert forall|j: int|
                                i <= j < inputs.len() implies resolve_capacity(
                                txs,
                                store,
                                #[trigger] inputs[j].previous_output,
                            ) is Some by {
                                if j > i {
                                    assert(resolve_capacity(
                                        txs,
                                        store,
                                        inputs[j].previous_output,
                                    ) is Some);
                                }
                            }
                        },
                    }
                }
            },
        }
    }
}

proof fn lemma_sum_inputs_complete(
    txs: Seq<PoolEntry>,
    store: Map<H256, Transaction>,
    inputs: Seq<CellInput>,
    i: int,
    acc: u64,
)
    requires
        forall|j: int|
            i <= j < inputs.len() ==> resolve_capacity(
                txs,
                store,
                #[trigger] inputs[j].previous_output,
            ) is Some,
        acc + input_total(txs, store, inputs, i) <= u64::MAX,
    ensures
        sum_inputs_from(txs, store, inputs, i, acc) == Ok::<u64, Error>(
            (acc + input_total(txs, store, inputs, i)) as u64,
        ),
    decreases inputs.len() - i,
{
    if i < 0 || i >= inputs.len() {
    } else {
        let c = resolve_capacity(txs, store, inputs[i].previous_output)->Some_0;
        lemma_input_total_nonneg(txs, store, inputs, i + 1);
        lemma_sum_inputs_complete(txs, store, inputs, i + 1, (acc + c) as u64);
    }
}

proof fn lemma_sum_outputs_ok(outputs: Seq<CellOutput>, i: int, acc: u64)
    ensures
        sum_outputs_from(outputs, i, acc) matches Ok(v) ==> v == acc + output_total(outputs, i),
    decreases outputs.len() - i,
{
    if 0 <= i < outputs.len() {
        if acc + outputs[i].capacity.shannons <= u64::MAX {
            lemma_sum_outputs_ok(outputs, i + 1, (acc + outputs[i].capacity.shannons) as u64);
        }
    }
}

proof fn lemma_sum_outputs_complete(outputs: Seq<CellOutput>, i: int, acc: u64)
    requires
        acc + output_total(outputs, i) <= u64::MAX,
    ensures
        sum_outputs_from(outputs, i, acc) == Ok::<u64, Error>(
            (acc + output_total(outputs, i)) as u64,
        ),
    decreases outputs.len() - i,
{
    if i < 0 || i >= outputs.len() {
    } else {
        lemma_output_total_nonneg(outputs, i + 1);
        lemma_sum_outputs_complete(outputs, i + 1, (acc + outputs[i].capacity.shannons) as u64);
    }
}

/// What a successful fee accounting means, and when success is owed. A fee
/// comes out exactly when every input resolves, the input total fits 64
/// bits, and the outputs spend no more than the inputs; the fee is then the
/// input total minus the output total — in particular, never negative.
pub proof fn lemma_fee_characterization(
    txs: Seq<PoolEntry>,
    store: Map<H256, Transaction>,
    tx: Transaction,
)
    ensures
        spec_transaction_fee(txs, store, tx) matches Ok(f) ==> all_inputs_resolvable(
            txs,
            store,
            tx.inputs@,
        ) && output_total(tx.outputs@, 0) <= input_total(txs, store, tx.inputs@, 0) && f
            == input_total(txs, store, tx.inputs@, 0) - output_total(tx.outputs@, 0),
        all_inputs_resolvable(txs, store, tx.inputs@) && input_total(txs, store, tx.inputs@, 0)
            <= u64::MAX && output_total(tx.outputs@, 0) <= input_total(txs, store, tx.inputs@, 0)
            ==> spec_transaction_fee(txs, store, tx) == Ok::<u64, Error>(
            (input_total(txs, store, tx.inputs@, 0) - output_total(tx.outputs@, 0)) as u64,
        ),
{
    lemma_sum_inputs_ok(txs, store, tx.inputs@, 0, 0);
    lemma_sum_outputs_ok(tx.outputs@, 0, 0);
    if all_inputs_resolvable(txs, store, tx.inputs@) && input_total(txs, store, tx.inputs@, 0)
        <= u64::MAX && output_total(tx.outputs@, 0) <= input_total(txs, store, tx.inputs@, 0) {
        lemma_output_total_nonneg(tx.outputs@, 0);
        lemma_sum_inputs_complete(txs, store, tx.inputs@, 0, 0);
        lemma_sum_outputs_complete(tx.outputs@, 0, 0);
    }
}

} // verus!
