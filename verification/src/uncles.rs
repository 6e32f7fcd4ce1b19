//! Uncle selection.
//!
//! Consensus admits an uncle only if it shares the current epoch's number
//! and difficulty, sits within `max_uncles_age` of the new block, and is
//! neither an ancestor of the tip nor an uncle already embedded in one.
//! Candidates that demonstrably can never become eligible again are
//! classified as bad, for the caller to evict.

use vstd::prelude::*;

use crate::provider::ChainProvider;
use crate::types::{Block, EpochExt, Header, ProposalShortId, UncleBlock, H256};

verus! {

/// What selection reads of a candidate, and keeps of a chosen one: its
/// cache key, its header, and its proposals.
pub type SelectedUncle = (H256, Header, Seq<ProposalShortId>);

/// Value equality of uncle blocks.
pub open spec fn uncle_block_eqv(a: UncleBlock, b: UncleBlock) -> bool {
    a.header == b.header && a.proposals@ == b.proposals@
}

/// The selection view of a candidate list: key, header and proposals of
/// each entry.
pub open spec fn cand_view(s: Seq<(H256, UncleBlock)>) -> Seq<SelectedUncle> {
    s.map_values(|p: (H256, UncleBlock)| (p.0, p.1.header, p.1.proposals@))
}

/// The header hashes of the uncles embedded in a block.
pub open spec fn uncle_hashes(b: Block) -> Seq<H256> {
    b.uncles@.map_values(|u: UncleBlock| u.header.hash)
}

/// The exclusion walk: from `h`, up to `steps` stored parents back, gather
/// each visited block's parent hash and embedded uncle hashes on top of
/// `acc`. The walk stops early at the first block missing from the store.
pub open spec fn walk_excluded(
    blocks: Map<H256, Block>,
    h: H256,
    steps: nat,
    acc: Seq<H256>,
) -> Seq<H256>
    decreases steps,
{
    if steps == 0 {
        acc
    } else if !blocks.contains_key(h) {
        acc
    } else {
        let b = blocks[h];
        walk_excluded(
            blocks,
            b.header.parent_hash,
            (steps - 1) as nat,
            acc.push(b.header.parent_hash) + uncle_hashes(b),
        )
    }
}

/// Every hash an uncle of the next block must avoid: the tip itself, its
/// ancestry within `max_uncles_age`, and the uncles those blocks embed.
pub open spec fn spec_excluded(blocks: Map<H256, Block>, tip_hash: H256, max_uncles_age: u64) -> Seq<
    H256,
> {
    walk_excluded(blocks, tip_hash, max_uncles_age as nat, seq![tip_hash])
}

/// How deep below the new block (`tip.number + 1`) an uncle header sits;
/// zero when it does not sit below it at all.
pub open spec fn spec_uncle_depth(tip: Header, u: Header) -> int {
    if u.number >= tip.number + 1 {
        0
    } else {
        tip.number + 1 - u.number
    }
}

/// Whether a candidate header carries the current epoch's number and
/// difficulty.
pub open spec fn epoch_matches(epoch: EpochExt, u: Header) -> bool {
    u.difficulty == epoch.difficulty && u.epoch == epoch.number
}

/// Whether one of the selected entries already carries key `h`.
pub open spec fn sel_contains_key(selected: Seq<SelectedUncle>, h: H256) -> bool {
    exists|j: int| 0 <= j < selected.len() && selected[j].0 == h
}

/// The selection loop over `cands[i..]`: stop when `max_num` uncles stand
/// selected; classify a candidate as bad when its epoch has moved on, its
/// depth falls outside `[1, max_age]`, its key repeats, or its key is
/// excluded; select it otherwise.
pub open spec fn select_uncles(
    tip: Header,
    epoch: EpochExt,
    excluded: Seq<H256>,
    max_num: int,
    max_age: u64,
    cands: Seq<SelectedUncle>,
    i: int,
    selected: Seq<SelectedUncle>,
    bad: Seq<H256>,
) -> (Seq<SelectedUncle>, Seq<H256>)
    decreases cands.len() - i,
{
    if i < 0 || i >= cands.len() || selected.len() >= max_num {
        (selected, bad)
    } else {
        let h = cands[i].0;
        let u = cands[i].1;
        if !epoch_matches(epoch, u) {
            select_uncles(tip, epoch, excluded, max_num, max_age, cands, i + 1, selected, bad.push(h))
        } else {
            let d = spec_uncle_depth(tip, u);
            if d > max_age || d < 1 || sel_contains_key(selected, h) || excluded.contains(h) {
                select_uncles(
                    tip,
                    epoch,
                    excluded,
                    max_num,
                    max_age,
                    cands,
                    i + 1,
                    selected,
                    bad.push(h),
                )
            } else {
                select_uncles(
                    tip,
                    epoch,
                    excluded,
                    max_num,
                    max_age,
                    cands,
                    i + 1,
                    selected.push(cands[i]),
                    bad,
                )
            }
        }
    }
}

/// The outcome of selection over the whole candidate list.
pub open spec fn spec_prepare_uncles(
    blocks: Map<H256, Block>,
    tip: Header,
    epoch: EpochExt,
    max_num: int,
    max_age: u64,
    cands: Seq<SelectedUncle>,
) -> (Seq<SelectedUncle>, Seq<H256>) {
    select_uncles(
        tip,
        epoch,
        spec_excluded(blocks, tip.hash, max_age),
        max_num,
        max_age,
        cands,
        0,
        Seq::empty(),
        Seq::empty(),
    )
}

/// Whether `v` holds `h`.
pub fn contains_hash(v: &Vec<H256>, h: H256) -> (r: bool)
    ensures
        r == v@.contains(h),
{
    let n = v.len();
    let mut i: usize = 0;
    while i < n
        invariant
            n == v@.len(),
            0 <= i <= n,
            forall|j: int| 0 <= j < i ==> v@[j] != h,
        decreases n - i,
    {
        if v[i] == h {
            return true;
        }
        i += 1;
    }
    false
}

/// An owned copy of an uncle block.
pub fn clone_uncle_block(u: &UncleBlock) -> (r: UncleBlock)
    ensures
        uncle_block_eqv(r, *u),
{
    UncleBlock { header: u.header, proposals: clone_proposals(&u.proposals) }
}

/// An owned copy of a proposal list.
pub fn clone_proposals(v: &Vec<ProposalShortId>) -> (r: Vec<ProposalShortId>)
    ensures
        r@ == v@,
{
    let n = v.len();
    let mut r: Vec<ProposalShortId> = Vec::new();
    let mut i: usize = 0;
    while i < n
        invariant
            n == v@.len(),
            0 <= i <= n,
            r@ == v@.take(i as int),
        decreases n - i,
    {
        r.push(v[i]);
        proof {
            assert(r@ =~= v@.take(i + 1));
        }
        i += 1;
    }
    proof {
        assert(v@.take(n as int) =~= v@);
    }
    r
}

/// Walk the stored ancestry of `tip` and gather every hash an uncle must
/// avoid.
pub fn collect_excluded<P: ChainProvider>(provider: &P, tip: &Header, max_uncles_age: u64) -> (r:
    Vec<H256>)
    ensures
        r@ == spec_excluded(provider.store_blocks(), tip.hash, max_uncles_age),
{
    let ghost blocks = provider.store_blocks();
    let mut excluded: Vec<H256> = Vec::new();
    excluded.push(tip.hash);
    let mut block_hash = tip.hash;
    let mut depth: u64 = 0;
    let mut stopped = false;
    while depth < max_uncles_age && !stopped
        invariant
            blocks == provider.store_blocks(),
            0 <= depth <= max_uncles_age,
            spec_excluded(blocks, tip.hash, max_uncles_age) == (if stopped {
                excluded@
            } else {
                walk_excluded(blocks, block_hash, (max_uncles_age - depth) as nat, excluded@)
            }),
            stopped ==> !blocks.contains_key(block_hash),
        decreases max_uncles_age - depth, 1int - (if stopped { 1int } else { 0int }),
    {
        match provider.block(&block_hash) {
            Some(block) => {
                let ghost pre = excluded@;
                let parent = block.header.parent_hash;
                excluded.push(parent);
                let m = block.uncles.len();
                let mut j: usize = 0;
                while j < m
                    invariant
                        m == block.uncles@.len(),
                        0 <= j <= m,
                        excluded@ == pre.push(block.header.parent_hash) + block.uncles@.take(
                            j as int,
                        ).map_values(|u: UncleBlock| u.header.hash),
                    decreases m - j,
                {
                    let uh = block.uncles[j].header.hash;
                    excluded.push(uh);
                    proof {
                        assert(block.uncles@.take(j + 1).map_values(
                            |u: UncleBlock| u.header.hash,
                        ) =~= block.uncles@.take(j as int).map_values(
                            |u: UncleBlock| u.header.hash,
                        ).push(block.uncles@[j as int].header.hash));
                    }
                    j += 1;
                }
                proof {
                    assert(block.uncles@.take(m as int) =~= block.uncles@);
                    assert(excluded@ == pre.push(parent) + uncle_hashes(blocks[block_hash]));
                }
                block_hash = parent;
                depth += 1;
            },
            None => {
                stopped = true;
            },
        }
    }
    proof {
        if !stopped {
            assert(walk_excluded(blocks, block_hash, 0, excluded@) == excluded@);
        }
    }
    excluded
}

/// Select up to `max_uncles_num` eligible uncles out of `candidates`, in
/// cache order, and report the keys of candidates that can never become
/// eligible again.
pub fn prepare_uncles<P: ChainProvider>(
    provider: &P,
    tip: &Header,
    current_epoch: &EpochExt,
    candidates: Vec<(H256, UncleBlock)>,
    max_uncles_num: usize,
    max_uncles_age: u64,
) -> (r: (Vec<UncleBlock>, Vec<H256>))
    requires
        tip.number < u64::MAX,
    ensures
        ({
            let (sel, bad) = spec_prepare_uncles(
                provider.store_blocks(),
                *tip,
                *current_epoch,
                max_uncles_num as int,
                max_uncles_age,
                cand_view(candidates@),
            );
            &&& r.0@.len() == sel.len()
            &&& forall|j: int|
                0 <= j < sel.len() ==> (#[trigger] r.0@[j]).header == sel[j].1 && r.0@[j].proposals@
                    == sel[j].2
            &&& r.1@ == bad
            &&& r.0@.len() <= max_uncles_num
        }),
{
    let excluded = collect_excluded(provider, tip, max_uncles_age);
    let ghost excl = excluded@;
    let n = candidates.len();
    let mut uncles: Vec<UncleBlock> = Vec::new();
    let mut included: Vec<H256> = Vec::new();
    let mut bad_uncles: Vec<H256> = Vec::new();
    let ghost mut sel_acc: Seq<SelectedUncle> = Seq::empty();
    let mut i: usize = 0;
    while i < n && uncles.len() < max_uncles_num
        invariant
            tip.number < u64::MAX,
            n == candidates@.len(),
            0 <= i <= n,
            excluded@ == excl,
            excl == spec_excluded(provider.store_blocks(), tip.hash, max_uncles_age),
            uncles@.len() == sel_acc.len(),
            uncles@.len() <= max_uncles_num,
            included@ =~= sel_acc.map_values(|e: SelectedUncle| e.0),
            forall|j: int|
                0 <= j < sel_acc.len() ==> (#[trigger] uncles@[j]).header == sel_acc[j].1
                    && uncles@[j].proposals@ == sel_acc[j].2,
            select_uncles(
                *tip,
                *current_epoch,
                excl,
                max_uncles_num as int,
                max_uncles_age,
                cand_view(candidates@),
                0,
                Seq::empty(),
                Seq::empty(),
            ) == select_uncles(
                *tip,
                *current_epoch,
                excl,
                max_uncles_num as int,
                max_uncles_age,
                cand_view(candidates@),
                i as int,
                sel_acc,
                bad_uncles@,
            ),
        decreases n - i,
    {
        let h = candidates[i].0;
        let cand = &candidates[i].1;
        proof {
            assert(cand_view(candidates@)[i as int] == (
                candidates@[i as int].0,
                candidates@[i as int].1.header,
                candidates@[i as int].1.proposals@,
            ));
        }
        if cand.header.difficulty != current_epoch.difficulty || cand.header.epoch
            != current_epoch.number {
            bad_uncles.push(h);
        } else {
            let current_number = tip.number + 1;
            let d: u64 = if cand.header.number >= current_number {
                0
            } else {
                current_number - cand.header.number
            };
            let dup = contains_hash(&included, h);
            let excl_hit = contains_hash(&excluded, h);
            proof {
                if included@.contains(h) {
                    let j = choose|j: int| 0 <= j < included@.len() && included@[j] == h;
                    assert(sel_acc[j].0 == h);
                }
                if sel_contains_key(sel_acc, h) {
                    let j = choose|j: int| 0 <= j < sel_acc.len() && sel_acc[j].0 == h;
                    assert(included@[j] == h);
                }
                assert(sel_contains_key(sel_acc, h) == included@.contains(h));
            }
            if d > max_uncles_age || d < 1 || dup || excl_hit {
                bad_uncles.push(h);
            } else {
                let uncle = UncleBlock {
                    header: cand.header,
                    proposals: clone_proposals(&cand.proposals),
                };
                uncles.push(uncle);
                included.push(h);
                proof {
                    sel_acc = sel_acc.push((h, cand.header, cand.proposals@));
                    assert(included@ =~= sel_acc.map_values(|e: SelectedUncle| e.0));
                }
            }
        }
        i += 1;
    }
    (uncles, bad_uncles)
}

} // verus!
