//! The assembler service: the candidate-uncle cache, the template cache,
//! the work-id counter and the uncle watermark, and the build of a template
//! out of tip, epoch, mempool snapshot and selected uncles.

use vstd::prelude::*;

use crate::capacity::Capacity;
use crate::clock::unix_time_as_millis;
use crate::error::Error;
use crate::fee::{spec_transaction_fee, sum_fees_from, FeeCalculator};
use crate::lru::{
    entries_insert, entries_remove_key, uncle_cache_capacity, uncle_cache_entries,
    uncle_cache_insert, uncle_cache_new, uncle_cache_remove, template_cache_capacity,
    template_cache_entries, template_cache_insert, template_cache_new,
};
use crate::provider::{ChainProvider, ChainState};
use crate::strings::u64_to_dec;
use crate::template::{TemplateCache, TemplateKey};
use crate::types::{
    CellInput, CellOutput, Consensus, EpochExt, Header, PoolEntry, Script, Transaction,
    UncleBlock, H256, HEADER_FIXED_SIZE, PROPOSAL_SHORT_ID_SIZE,
};

verus! {

/// Bound of the candidate-uncle cache.
pub const MAX_CANDIDATE_UNCLES: usize = 42;

/// Bound of the template cache.
pub const TEMPLATE_CACHE_SIZE: usize = 10;

/// What the cellbase output's lock script is populated from.
#[derive(Clone, PartialEq, Eq, Debug)]
pub struct BlockAssemblerConfig {
    pub code_hash: H256,
    pub args: Vec<Vec<u8>>,
}

/// The pairs of `s` left after removing `keys[..i]`, one key after the
/// other, each removal keeping the order of the rest.
pub open spec fn entries_remove_keys(s: Seq<(H256, UncleBlock)>, keys: Seq<H256>) -> Seq<
    (H256, UncleBlock),
>
    decreases keys.len(),
{
    if keys.len() == 0 {
        s
    } else {
        entries_remove_key(entries_remove_keys(s, keys.drop_last()), keys.last())
    }
}

/// Removing keys never grows the cache.
pub proof fn lemma_remove_keys_len(s: Seq<(H256, UncleBlock)>, keys: Seq<H256>)
    ensures
        entries_remove_keys(s, keys).len() <= s.len(),
    decreases keys.len(),
{
    if keys.len() > 0 {
        lemma_remove_keys_len(s, keys.drop_last());
        entries_remove_keys(s, keys.drop_last()).lemma_filter_len(
            |p: (H256, UncleBlock)| p.0 != keys.last(),
        );
    }
}

/// After the removals, no pair carries a removed key, and every pair left
/// stood in the cache before.
pub proof fn lemma_remove_keys_sound(s: Seq<(H256, UncleBlock)>, keys: Seq<H256>)
    ensures
        forall|j: int|
            0 <= j < entries_remove_keys(s, keys).len() ==> s.contains(
                #[trigger] entries_remove_keys(s, keys)[j],
            ) && !keys.contains(entries_remove_keys(s, keys)[j].0),
    decreases keys.len(),
{
    broadcast use vstd::seq_lib::group_filter_ensures;

    if keys.len() > 0 {
        lemma_remove_keys_sound(s, keys.drop_last());
        let prev = entries_remove_keys(s, keys.drop_last());
        let pred = |p: (H256, UncleBlock)| p.0 != keys.last();
        assert forall|j: int| 0 <= j < prev.filter(pred).len() implies s.contains(
            #[trigger] prev.filter(pred)[j],
        ) && !keys.contains(prev.filter(pred)[j].0) by {
            let e = prev.filter(pred)[j];
            assert(prev.filter(pred).contains(e));
            prev.lemma_filter_contains_rev(pred, e);
            let q = choose|q: int| 0 <= q < prev.len() && prev[q] == e;
            assert(s.contains(prev[q]) && !keys.drop_last().contains(prev[q].0));
            assert(pred(e));
            assert forall|m: int| 0 <= m < keys.len() implies keys[m] != e.0 by {
                if m < keys.len() - 1 {
                    assert(keys.drop_last()[m] == keys[m]);
                }
            }
        }
    }
}

/// Every candidate stands in the cache under its own header hash.
pub open spec fn uncle_keys_match(s: Seq<(H256, UncleBlock)>) -> bool {
    forall|j: int| 0 <= j < s.len() ==> (#[trigger] s[j]).0 == s[j].1.header.hash
}

/// Inserting a candidate under its header hash keeps every key an honest
/// header hash.
pub proof fn lemma_insert_keys_match(s: Seq<(H256, UncleBlock)>, cap: nat, k: H256, v: UncleBlock)
    requires
        uncle_keys_match(s),
        k == v.header.hash,
    ensures
        uncle_keys_match(entries_insert(s, cap, k, v)),
{
    crate::lru::lemma_remove_key_subset(s, k);
    let f = entries_remove_key(s, k);
    assert forall|j: int| 0 <= j < f.len() implies (#[trigger] f[j]).0 == f[j].1.header.hash by {
        assert(s.contains(f[j]));
        let q = choose|q: int| 0 <= q < s.len() && s[q] == f[j];
        assert(s[q].0 == s[q].1.header.hash);
    }
    let bumped = f.push((k, v));
    if bumped.len() > cap {
        let s2 = bumped.drop_first();
        assert forall|j: int| 0 <= j < s2.len() implies (#[trigger] s2[j]).0
            == s2[j].1.header.hash by {
            assert(s2[j] == bumped[j + 1]);
        }
    }
}

/// Evicting keys keeps every key an honest header hash.
pub proof fn lemma_remove_keys_keys_match(s: Seq<(H256, UncleBlock)>, keys: Seq<H256>)
    requires
        uncle_keys_match(s),
    ensures
        uncle_keys_match(entries_remove_keys(s, keys)),
{
    lemma_remove_keys_sound(s, keys);
    let out = entries_remove_keys(s, keys);
    assert forall|j: int| 0 <= j < out.len() implies (#[trigger] out[j]).0
        == out[j].1.header.hash by {
        assert(s.contains(out[j]));
        let q = choose|q: int| 0 <= q < s.len() && s[q] == out[j];
        assert(s[q].0 == s[q].1.header.hash);
    }
}

/// A bounded LRU mapping keeps its bound across an insert, whatever was
/// inside before.
pub proof fn lemma_entries_insert_len<K, V>(s: Seq<(K, V)>, cap: nat, k: K, v: V)
    requires
        s.len() <= cap,
        cap >= 1,
    ensures
        entries_insert(s, cap, k, v).len() <= cap,
{
    s.lemma_filter_len(|p: (K, V)| p.0 != k);
}

/// The long-lived assembler: both caches, the work-id counter and the uncle
/// watermark.
pub struct BlockAssembler {
    pub config: BlockAssemblerConfig,
    pub work_id: u64,
    pub last_uncles_updated_at: u64,
    pub candidate_uncles: lru_cache::LruCache<H256, UncleBlock>,
    pub template_caches: lru_cache::LruCache<TemplateKey, TemplateCache>,
    pub proof_size: u64,
}

impl BlockAssembler {
    /// The structural invariant: both caches were created with their fixed
    /// bounds and respect them, and the proof size leaves room in the size
    /// model.
    pub open spec fn wf(&self) -> bool {
        &&& uncle_cache_capacity(self.candidate_uncles) == MAX_CANDIDATE_UNCLES
        &&& uncle_cache_entries(self.candidate_uncles).len() <= MAX_CANDIDATE_UNCLES
        &&& uncle_keys_match(uncle_cache_entries(self.candidate_uncles))
        &&& template_cache_capacity(self.template_caches) == TEMPLATE_CACHE_SIZE
        &&& template_cache_entries(self.template_caches).len() <= TEMPLATE_CACHE_SIZE
        &&& self.proof_size + HEADER_FIXED_SIZE <= u64::MAX
    }

    /// A fresh service against `provider`'s consensus: empty caches, zero
    /// counter and watermark.
    pub fn new<P: ChainProvider>(provider: &P, config: BlockAssemblerConfig) -> (r: BlockAssembler)
        requires
            provider.spec_consensus().proof_size + HEADER_FIXED_SIZE <= u64::MAX,
        ensures
            r.wf(),
            r.config == config,
            r.work_id == 0,
            r.last_uncles_updated_at == 0,
            r.proof_size == provider.spec_consensus().proof_size,
            uncle_cache_entries(r.candidate_uncles).len() == 0,
            template_cache_entries(r.template_caches).len() == 0,
    {
        let consensus = provider.consensus();
        BlockAssembler {
            config,
            work_id: 0,
            last_uncles_updated_at: 0,
            candidate_uncles: uncle_cache_new(MAX_CANDIDATE_UNCLES),
            template_caches: template_cache_new(TEMPLATE_CACHE_SIZE),
            proof_size: consensus.proof_size,
        }
    }

    /// Ingest one uncle notification: the block enters the candidate cache
    /// under its header hash (bumping it if present, evicting the least
    /// recently used candidate if full), and the uncle watermark moves to
    /// the clock.
    pub fn handle_new_uncle(&mut self, uncle: UncleBlock)
        requires
            old(self).wf(),
        ensures
            final(self).wf(),
            uncle_cache_entries(final(self).candidate_uncles) == entries_insert(
                uncle_cache_entries(old(self).candidate_uncles),
                MAX_CANDIDATE_UNCLES as nat,
                uncle.header.hash,
                uncle,
            ),
            final(self).template_caches == old(self).template_caches,
            final(self).work_id == old(self).work_id,
            final(self).config == old(self).config,
            final(self).proof_size == old(self).proof_size,
    {
        let hash = uncle.header.hash;
        proof {
            lemma_entries_insert_len(
                uncle_cache_entries(self.candidate_uncles),
                MAX_CANDIDATE_UNCLES as nat,
                hash,
                uncle,
            );
            lemma_insert_keys_match(
                uncle_cache_entries(self.candidate_uncles),
                MAX_CANDIDATE_UNCLES as nat,
                hash,
                uncle,
            );
        }
        uncle_cache_insert(&mut self.candidate_uncles, hash, uncle);
        self.last_uncles_updated_at = unix_time_as_millis();
    }

    /// Clamp a request's limits to the consensus caps: a missing limit means
    /// the cap, a limit beyond the cap is lowered to it.
    pub fn transform_params(
        consensus: &Consensus,
        bytes_limit: Option<u64>,
        proposals_limit: Option<u64>,
        max_version: Option<u32>,
    ) -> (r: (u64, u64, u32))
        ensures
            r.0 == spec_clamp_u64(bytes_limit, consensus.max_block_bytes),
            r.1 == spec_clamp_u64(proposals_limit, consensus.max_block_proposals_limit),
            r.2 == spec_clamp_u32(max_version, consensus.block_version),
    {
        let bytes_limit = match bytes_limit {
            Some(b) => if b < consensus.max_block_bytes {
                b
            } else {
                consensus.max_block_bytes
            },
            None => consensus.max_block_bytes,
        };
        let proposals_limit = match proposals_limit {
            Some(p) => if p < consensus.max_block_proposals_limit {
                p
            } else {
                consensus.max_block_proposals_limit
            },
            None => consensus.max_block_proposals_limit,
        };
        let version = match max_version {
            Some(v) => if v < consensus.block_version {
                v
            } else {
                consensus.block_version
            },
            None => consensus.block_version,
        };
        (bytes_limit, proposals_limit, version)
    }
}

/// A requested limit clamped to its consensus cap.
pub open spec fn spec_clamp_u64(v: Option<u64>, max: u64) -> u64 {
    match v {
        Some(x) => if x < max {
            x
        } else {
            max
        },
        None => max,
    }
}

/// A requested version clamped to the consensus block version.
pub open spec fn spec_clamp_u32(v: Option<u32>, max: u32) -> u32 {
    match v {
        Some(x) => if x < max {
            x
        } else {
            max
        },
        None => max,
    }
}

/// Sum of the modelled serialized sizes of `uncles[i..]`, as an unbounded
/// integer.
pub open spec fn sum_uncle_sizes_from(proof_size: u64, uncles: Seq<UncleBlock>, i: int) -> int
    decreases uncles.len() - i,
{
    if i < 0 || i >= uncles.len() {
        0
    } else {
        crate::types::spec_uncle_size(proof_size, uncles[i]) + sum_uncle_sizes_from(
            proof_size,
            uncles,
            i + 1,
        )
    }
}

/// Uncle sizes are never negative.
pub proof fn lemma_sum_uncle_sizes_nonneg(proof_size: u64, uncles: Seq<UncleBlock>, i: int)
    ensures
        sum_uncle_sizes_from(proof_size, uncles, i) >= 0,
    decreases uncles.len() - i,
{
    if 0 <= i < uncles.len() {
        lemma_sum_uncle_sizes_nonneg(proof_size, uncles, i + 1);
    }
}

/// The bytes the header, the uncles and the proposals of the next block
/// occupy before any transaction, as an unbounded integer.
pub open spec fn spec_occupied(
    proof_size: u64,
    uncles: Seq<UncleBlock>,
    proposals_len: int,
) -> int {
    HEADER_FIXED_SIZE + proof_size + sum_uncle_sizes_from(proof_size, uncles, 0) + proposals_len
        * PROPOSAL_SHORT_ID_SIZE
}

impl BlockAssembler {
    /// The bytes budget left for transactions once header, uncles and
    /// proposals are accounted: fails with `Configuration` exactly when the
    /// bytes limit does not exceed the occupied bytes.
    pub fn calculate_txs_size_limit(
        &self,
        bytes_limit: u64,
        uncles: &Vec<UncleBlock>,
        proposals_len: usize,
    ) -> (r: Result<u64, Error>)
        requires
            self.proof_size + HEADER_FIXED_SIZE <= u64::MAX,
        ensures
            ({
                let occupied = spec_occupied(self.proof_size, uncles@, proposals_len as int);
                if bytes_limit <= occupied {
                    r == Err::<u64, Error>(Error::Configuration)
                } else {
                    r == Ok::<u64, Error>((bytes_limit - occupied) as u64)
                }
            }),
    {
        let header_size: u64 = HEADER_FIXED_SIZE + self.proof_size;
        let mut occupied: u64 = header_size;
        let n = uncles.len();
        let mut i: usize = 0;
        proof {
            lemma_sum_uncle_sizes_nonneg(self.proof_size, uncles@, 0);
        }
        while i < n
            invariant
                n == uncles@.len(),
                0 <= i <= n,
                self.proof_size + HEADER_FIXED_SIZE <= u64::MAX,
                header_size == HEADER_FIXED_SIZE + self.proof_size,
                occupied + sum_uncle_sizes_from(self.proof_size, uncles@, i as int) == header_size
                    + sum_uncle_sizes_from(self.proof_size, uncles@, 0),
            decreases n - i,
        {
            proof {
                lemma_sum_uncle_sizes_nonneg(self.proof_size, uncles@, i + 1);
            }
            let prop_len: u64 = uncles[i].proposals.len() as u64;
            let prop_bytes = match prop_len.checked_mul(PROPOSAL_SHORT_ID_SIZE) {
                Some(b) => b,
                None => {
                    return Err(Error::Configuration);
                },
            };
            let size = match header_size.checked_add(prop_bytes) {
                Some(s) => s,
                None => {
                    return Err(Error::Configuration);
                },
            };
            occupied = match occupied.checked_add(size) {
                Some(o) => o,
                None => {
                    return Err(Error::Configuration);
                },
            };
            i += 1;
        }
        let prop_total = match (proposals_len as u64).checked_mul(PROPOSAL_SHORT_ID_SIZE) {
            Some(p) => p,
            None => {
                return Err(Error::Configuration);
            },
        };
        occupied = match occupied.checked_add(prop_total) {
            Some(o) => o,
            None => {
                return Err(Error::Configuration);
            },
        };
        if bytes_limit <= occupied {
            return Err(Error::Configuration);
        }
        Ok(bytes_limit - occupied)
    }
}

/// The template-cache key a request clamps to under `c`.
pub open spec fn spec_template_key(
    c: Consensus,
    bytes_limit: Option<u64>,
    max_version: Option<u32>,
) -> TemplateKey {
    TemplateKey {
        cycles_limit: c.max_block_cycles,
        bytes_limit: spec_clamp_u64(bytes_limit, c.max_block_bytes),
        version: spec_clamp_u32(max_version, c.block_version),
    }
}

/// The epoch the next block lies in: the one after the current epoch when
/// the tip closes it, the current epoch otherwise.
pub open spec fn spec_build_epoch<S: ChainProvider + ChainState + ?Sized>(shared: &S) -> EpochExt {
    match shared.spec_next_epoch(shared.spec_current_epoch(), shared.spec_tip_header()) {
        Some(e) => e,
        None => shared.spec_current_epoch(),
    }
}

/// The model identifier of the cellbase of block `number`: deterministic
/// given the build's inputs, distinct across heights.
pub open spec fn spec_cellbase_hash(number: u64) -> H256 {
    H256 { w0: number, w1: 0, w2: 0, w3: 1 }
}

/// The shape every cellbase has: one synthetic input carrying the block
/// number, one output holding `capacity` under `lock`, no data, no type
/// script.
pub open spec fn cellbase_shape(tx: Transaction, number: u64, capacity: int, lock: Script) -> bool {
    &&& tx.hash == spec_cellbase_hash(number)
    &&& tx.inputs@.len() == 1
    &&& tx.inputs@[0].previous_output.cell is None
    &&& tx.inputs@[0].previous_output.block_hash is None
    &&& tx.inputs@[0].since == number
    &&& tx.outputs@.len() == 1
    &&& tx.outputs@[0].capacity.shannons == capacity
    &&& tx.outputs@[0].data@.len() == 0
    &&& tx.outputs@[0].lock == lock
    &&& tx.outputs@[0].type_script is None
    &&& tx.deps@.len() == 0
}

impl BlockAssembler {
    /// Build the cellbase of the next block: one input carrying
    /// `tip.number + 1`, one output whose capacity is the epoch's block
    /// reward plus the checked sum of the fees of `pes`.
    pub fn create_cellbase_transaction<P: ChainProvider>(
        &self,
        provider: &P,
        tip: &Header,
        current_epoch: &EpochExt,
        pes: &Vec<PoolEntry>,
        lock: Script,
    ) -> (r: Result<Transaction, Error>)
        requires
            tip.number < u64::MAX,
            current_epoch.covers((tip.number + 1) as u64),
        ensures
            ({
                let number = (tip.number + 1) as u64;
                let reward = current_epoch.spec_block_reward(number);
                let fees = sum_fees_from(pes@, provider.store_txs(), 0, 0);
                if reward > u64::MAX {
                    r == Err::<Transaction, Error>(Error::Arithmetic)
                } else {
                    match fees {
                        Err(e) => r == Err::<Transaction, Error>(e),
                        Ok(f) => if reward + f > u64::MAX {
                            r == Err::<Transaction, Error>(Error::Arithmetic)
                        } else {
                            r matches Ok(tx) && cellbase_shape(tx, number, reward + f, lock)
                        },
                    }
                }
            }),
    {
        let number = tip.number + 1;
        let input = CellInput::new_cellbase_input(number);
        let block_reward = match current_epoch.block_reward(number) {
            Ok(c) => c,
            Err(e) => {
                return Err(e);
            },
        };
        let mut fee = Capacity::zero();
        let fee_calculator = FeeCalculator::new(pes, provider);
        let n = pes.len();
        let mut i: usize = 0;
        while i < n
            invariant
                n == pes@.len(),
                0 <= i <= n,
                tip.number < u64::MAX,
                current_epoch.spec_block_reward((tip.number + 1) as u64) <= u64::MAX,
                fee_calculator.txs == pes,
                fee_calculator.provider == provider,
                sum_fees_from(pes@, provider.store_txs(), 0, 0) == sum_fees_from(
                    pes@,
                    provider.store_txs(),
                    i as int,
                    fee.shannons,
                ),
            decreases n - i,
        {
            proof {
                assert(sum_fees_from(pes@, provider.store_txs(), i as int, fee.shannons) == (
                match spec_transaction_fee(pes@, provider.store_txs(), pes@[i as int].transaction) {
                    Err(e) => Err::<u64, Error>(e),
                    Ok(f) => if fee.shannons + f > u64::MAX {
                        Err::<u64, Error>(Error::Arithmetic)
                    } else {
                        sum_fees_from(pes@, provider.store_txs(), i + 1, (fee.shannons + f) as u64)
                    },
                }));
            }
            let tx_fee = match fee_calculator.calculate_transaction_fee(&pes[i].transaction) {
                Ok(f) => f,
                Err(e) => {
                    return Err(e);
                },
            };
            fee = match fee.safe_add(tx_fee) {
                Some(s) => s,
                None => {
                    return Err(Error::Arithmetic);
                },
            };
            i += 1;
        }
        let capacity = match block_reward.safe_add(fee) {
            Some(c) => c,
            None => {
                return Err(Error::Arithmetic);
            },
        };
        let output = CellOutput {
            capacity,
            data: Vec::new(),
            lock,
            type_script: None,
        };
        let mut inputs: Vec<CellInput> = Vec::new();
        inputs.push(input);
        let mut outputs: Vec<CellOutput> = Vec::new();
        outputs.push(output);
        Ok(
            Transaction {
                version: 0,
                hash: H256 { w0: number, w1: 0, w2: 0, w3: 1 },
                deps: Vec::new(),
                inputs,
                outputs,
            },
        )
    }
}

/// The request was served out of the template cache: the entry under the
/// key was returned unchanged (only bumped to most recently used), the
/// work-id counter did not move, and the candidate cache was not touched.
pub open spec fn served_from_cache(
    old_a: BlockAssembler,
    new_a: BlockAssembler,
    key: TemplateKey,
    r: Result<crate::template::BlockTemplate, Error>,
) -> bool {
    let s = template_cache_entries(old_a.template_caches);
    match crate::lru::entries_find(s, key, 0) {
        None => false,
        Some(i) => {
            &&& r matches Ok(t) && crate::template::block_template_eqv(t, s[i].1.template)
            &&& new_a.work_id == old_a.work_id
            &&& uncle_cache_entries(new_a.candidate_uncles) == uncle_cache_entries(
                old_a.candidate_uncles,
            )
            &&& template_cache_entries(new_a.template_caches) == s.remove(i).push(s[i])
        },
    }
}

/// The cellbase of a fresh template, as the service can pin it down without
/// seeing the mempool snapshot: the deterministic hash, the synthetic input
/// carrying the block number, one output without data or type script, under
/// the configured lock, holding at least the block reward.
pub open spec fn cellbase_matches_config(
    cb: crate::template::CellbaseTemplate,
    number: u64,
    reward: int,
    config: BlockAssemblerConfig,
) -> bool {
    &&& cb.hash == spec_cellbase_hash(number)
    &&& cb.cycles is None
    &&& cb.data.hash == spec_cellbase_hash(number)
    &&& cb.data.inputs@.len() == 1
    &&& cb.data.inputs@[0].previous_output.cell is None
    &&& cb.data.inputs@[0].since == number
    &&& cb.data.outputs@.len() == 1
    &&& cb.data.outputs@[0].capacity.shannons >= reward
    &&& cb.data.outputs@[0].data@.len() == 0
    &&& cb.data.outputs@[0].type_script is None
    &&& cb.data.outputs@[0].lock.code_hash == config.code_hash
    &&& cb.data.outputs@[0].lock.args@.len() == config.args@.len()
    &&& forall|i: int|
        0 <= i < config.args@.len() ==> (#[trigger] cb.data.outputs@[0].lock.args@[i])@
            == config.args@[i]@
}

/// The request was answered by a fresh build. The bad candidates that
/// selection reported are evicted on every build path; on success the
/// template carries the next block number, the tip as parent, the selected
/// uncles, the clamped envelope, the strictly increasing work id, and it
/// stands in the template cache under the build's watermarks.
pub open spec fn built_fresh(
    old_a: BlockAssembler,
    new_a: BlockAssembler,
    consensus: Consensus,
    tip: Header,
    epoch: EpochExt,
    blocks: Map<H256, crate::types::Block>,
    last_txs: u64,
    key: TemplateKey,
    proposals_limit: u64,
    r: Result<crate::template::BlockTemplate, Error>,
) -> bool {
    let number = (tip.number + 1) as u64;
    let outcome = crate::uncles::spec_prepare_uncles(
        blocks,
        tip,
        epoch,
        consensus.max_uncles_num as int,
        consensus.max_uncles_age,
        crate::uncles::cand_view(uncle_cache_entries(old_a.candidate_uncles)),
    );
    &&& uncle_cache_entries(new_a.candidate_uncles) == entries_remove_keys(
        uncle_cache_entries(old_a.candidate_uncles),
        outcome.1,
    )
    &&& match r {
        Ok(t) => {
            &&& new_a.work_id == old_a.work_id + 1
            &&& t.version == key.version
            &&& t.difficulty == epoch.difficulty
            &&& t.number@ == crate::strings::dec_seq(number as nat)
            &&& t.epoch@ == crate::strings::dec_seq(epoch.number as nat)
            &&& t.parent_hash == tip.hash
            &&& t.cycles_limit@ == crate::strings::dec_seq(key.cycles_limit as nat)
            &&& t.bytes_limit@ == crate::strings::dec_seq(key.bytes_limit as nat)
            &&& t.uncles_count_limit == consensus.max_uncles_num as u32
            &&& t.work_id@ == crate::strings::dec_seq(old_a.work_id as nat)
            &&& (exists|ct: u64|
                ct >= tip.timestamp + 1 && t.current_time@ == crate::strings::dec_seq(ct as nat))
            &&& t.uncles@.len() == outcome.0.len()
            &&& (forall|j: int|
                0 <= j < outcome.0.len() ==> {
                    let u = #[trigger] t.uncles@[j];
                    &&& u.hash == outcome.0[j].1.hash
                    &&& u.header == outcome.0[j].1
                    &&& u.proposals@ == outcome.0[j].2
                    &&& u.required == false
                })
            &&& t.proposals@.len() <= proposals_limit
            &&& (forall|j: int|
                0 <= j < t.transactions@.len() ==> (#[trigger] t.transactions@[j]).required
                    == false && t.transactions@[j].depends is None)
            &&& cellbase_matches_config(
                t.cellbase,
                number,
                epoch.spec_block_reward(number),
                old_a.config,
            )
            &&& (match crate::lru::entries_find(
                template_cache_entries(new_a.template_caches),
                key,
                0,
            ) {
                None => false,
                Some(i2) => {
                    let e2 = template_cache_entries(new_a.template_caches)[i2].1;
                    &&& e2.uncles_updated_at == old_a.last_uncles_updated_at
                    &&& e2.txs_updated_at == last_txs
                    &&& crate::template::block_template_eqv(e2.template, t)
                },
            })
        },
        Err(e) => {
            &&& new_a.work_id == old_a.work_id
            &&& (e == Error::Configuration || e == Error::Arithmetic || e == Error::InvalidInput
                || e == Error::InvalidOutput)
        },
    }
}

impl BlockAssembler {
    /// Serve one template request: clamp the limits to consensus, serve the
    /// memoized template when its watermarks and number still hold, and
    /// otherwise build afresh — select uncles, evict the bad candidates,
    /// budget the bytes, snapshot the mempool, build the cellbase out of
    /// reward plus fees, and memoize the result.
    pub fn get_block_template<S: ChainProvider + ChainState>(
        &mut self,
        shared: &S,
        bytes_limit: Option<u64>,
        proposals_limit: Option<u64>,
        max_version: Option<u32>,
    ) -> (r: Result<crate::template::BlockTemplate, Error>)
        requires
            old(self).wf(),
            old(self).work_id < u64::MAX,
            shared.spec_tip_header().number < u64::MAX,
            shared.spec_tip_header().timestamp < u64::MAX,
            shared.spec_consensus().max_uncles_num <= u32::MAX,
            shared.spec_consensus().max_block_proposals_limit <= usize::MAX,
            spec_build_epoch(shared).covers((shared.spec_tip_header().number + 1) as u64),
        ensures
            final(self).wf(),
            final(self).config == old(self).config,
            final(self).proof_size == old(self).proof_size,
            final(self).last_uncles_updated_at == old(self).last_uncles_updated_at,
            r matches Ok(t) ==> t.number@ == crate::strings::dec_seq(
                ((shared.spec_tip_header().number + 1) as u64) as nat,
            ),
            ({
                let key = spec_template_key(shared.spec_consensus(), bytes_limit, max_version);
                let hit = served_from_cache(*old(self), *final(self), key, r);
                let fresh = built_fresh(
                    *old(self),
                    *final(self),
                    shared.spec_consensus(),
                    shared.spec_tip_header(),
                    spec_build_epoch(shared),
                    shared.store_blocks(),
                    shared.spec_last_txs_updated_at(),
                    key,
                    spec_clamp_u64(
                        proposals_limit,
                        shared.spec_consensus().max_block_proposals_limit,
                    ),
                    r,
                );
                let number = ((shared.spec_tip_header().number + 1) as u64) as nat;
                let found = crate::lru::entries_find(
                    template_cache_entries(old(self).template_caches),
                    key,
                    0,
                );
                &&& hit || fresh
                &&& found is None ==> fresh
                &&& (match found {
                    None => true,
                    Some(i) => {
                        let e = template_cache_entries(old(self).template_caches)[i].1;
                        &&& ((e.uncles_updated_at != old(self).last_uncles_updated_at
                            || e.template.number@ != crate::strings::dec_seq(number)) ==> fresh)
                        &&& ((e.uncles_updated_at == old(self).last_uncles_updated_at
                            && e.txs_updated_at == shared.spec_last_txs_updated_at()
                            && e.template.number@ == crate::strings::dec_seq(number)) ==> hit)
                    },
                })
            }),
    {
        let consensus = shared.consensus();
        let cycles_limit = consensus.max_block_cycles;
        let (bytes_limit, proposals_limit, version) = Self::transform_params(
            &consensus,
            bytes_limit,
            proposals_limit,
            max_version,
        );
        let uncles_count_limit = consensus.max_uncles_num as u32;

        let last_uncles_updated_at = self.last_uncles_updated_at;
        let last_txs_updated_at = shared.get_last_txs_updated_at();
        let header = shared.tip_header();
        let number = shared.tip_number() + 1;
        let now = unix_time_as_millis();
        let current_time = if now > header.timestamp + 1 {
            now
        } else {
            header.timestamp + 1
        };
        let number_str = u64_to_dec(number);

        let key = TemplateKey { cycles_limit, bytes_limit, version };
        proof {
            crate::lru::lemma_entries_find_props(
                template_cache_entries(self.template_caches),
                key,
                0,
            );
        }
        match crate::lru::template_cache_get(&mut self.template_caches, &key) {
            Some(entry) => {
                if !entry.is_outdate(
                    last_uncles_updated_at,
                    last_txs_updated_at,
                    current_time,
                    &number_str,
                ) {
                    return Ok(entry.template);
                }
            },
            None => {},
        }

        let last_epoch = shared.current_epoch_ext();
        let next_epoch = shared.next_epoch_ext(&last_epoch, &header);
        let current_epoch = match next_epoch {
            Some(e) => e,
            None => last_epoch,
        };

        let candidates = crate::lru::uncle_cache_to_vec(&self.candidate_uncles);
        proof {
            assert(crate::uncles::cand_view(candidates@) =~= crate::uncles::cand_view(
                uncle_cache_entries(self.candidate_uncles),
            ));
        }
        let (mut uncles, bad_uncles) = crate::uncles::prepare_uncles(
            shared,
            &header,
            &current_epoch,
            candidates,
            consensus.max_uncles_num,
            consensus.max_uncles_age,
        );

        let ghost cand_orig = uncle_cache_entries(self.candidate_uncles);
        let ghost mid_self = *self;
        let nb = bad_uncles.len();
        let mut bi: usize = 0;
        while bi < nb
            invariant
                nb == bad_uncles@.len(),
                0 <= bi <= nb,
                cand_orig == uncle_cache_entries(mid_self.candidate_uncles),
                uncle_cache_capacity(self.candidate_uncles) == MAX_CANDIDATE_UNCLES,
                uncle_cache_entries(self.candidate_uncles) == entries_remove_keys(
                    cand_orig,
                    bad_uncles@.take(bi as int),
                ),
                self.template_caches == mid_self.template_caches,
                self.work_id == mid_self.work_id,
                self.config == mid_self.config,
                self.proof_size == mid_self.proof_size,
                self.last_uncles_updated_at == mid_self.last_uncles_updated_at,
            decreases nb - bi,
        {
            proof {
                assert(bad_uncles@.take(bi + 1).drop_last() =~= bad_uncles@.take(bi as int));
                assert(bad_uncles@.take(bi + 1).last() == bad_uncles@[bi as int]);
            }
            uncle_cache_remove(&mut self.candidate_uncles, &bad_uncles[bi]);
            bi += 1;
        }
        proof {
            assert(bad_uncles@.take(nb as int) =~= bad_uncles@);
            lemma_remove_keys_len(cand_orig, bad_uncles@);
            lemma_remove_keys_keys_match(cand_orig, bad_uncles@);
        }

        let proposals = shared.get_proposals(proposals_limit as usize);
        let txs_size_limit = match self.calculate_txs_size_limit(
            bytes_limit,
            &uncles,
            proposals.len(),
        ) {
            Ok(l) => l,
            Err(e) => {
                return Err(e);
            },
        };
        let entries = shared.get_staging_txs(txs_size_limit, cycles_limit);

        let cellbase_lock = Script {
            args: crate::template::clone_byte_vecs(&self.config.args),
            code_hash: self.config.code_hash,
        };
        let cellbase = match self.create_cellbase_transaction(
            shared,
            &header,
            &current_epoch,
            &entries,
            cellbase_lock,
        ) {
            Ok(tx) => tx,
            Err(e) => {
                proof {
                    crate::fee::lemma_sum_fees_err(entries@, shared.store_txs(), 0, 0);
                }
                return Err(e);
            },
        };

        let now2 = unix_time_as_millis();
        let current_time = if now2 > header.timestamp + 1 {
            now2
        } else {
            header.timestamp + 1
        };

        let ghost uncles_seq = uncles@;
        let mut uncle_templates: Vec<crate::template::UncleTemplate> = Vec::new();
        while uncles.len() > 0
            invariant
                uncle_templates@.len() + uncles@.len() == uncles_seq.len(),
                uncles@ == uncles_seq.skip(uncle_templates@.len() as int),
                forall|j: int|
                    0 <= j < uncle_templates@.len() ==> {
                        let u = #[trigger] uncle_templates@[j];
                        &&& u.hash == uncles_seq[j].header.hash
                        &&& u.header == uncles_seq[j].header
                        &&& u.proposals@ == uncles_seq[j].proposals@
                        &&& u.required == false
                    },
            decreases uncles.len(),
        {
            let ghost k = uncle_templates@.len() as int;
            let u = uncles.remove(0);
            proof {
                assert(u == uncles_seq[k]);
                assert(uncles_seq.skip(k).remove(0) =~= uncles_seq.skip(k + 1));
            }
            uncle_templates.push(crate::template::transform_uncle(u));
        }

        let mut tx_templates: Vec<crate::template::TransactionTemplate> = Vec::new();
        let ne = entries.len();
        let mut ti: usize = 0;
        while ti < ne
            invariant
                ne == entries@.len(),
                0 <= ti <= ne,
                forall|j: int|
                    0 <= j < tx_templates@.len() ==> (#[trigger] tx_templates@[j]).required
                        == false && tx_templates@[j].depends is None,
            decreases ne - ti,
        {
            tx_templates.push(crate::template::transform_tx(&entries[ti], false, None));
            ti += 1;
        }

        let work_id_str = u64_to_dec(self.work_id);
        self.work_id = self.work_id + 1;

        let template = crate::template::BlockTemplate {
            version,
            difficulty: current_epoch.difficulty,
            current_time: u64_to_dec(current_time),
            number: number_str,
            epoch: u64_to_dec(current_epoch.number),
            parent_hash: header.hash,
            cycles_limit: u64_to_dec(cycles_limit),
            bytes_limit: u64_to_dec(bytes_limit),
            uncles_count_limit,
            uncles: uncle_templates,
            transactions: tx_templates,
            proposals,
            cellbase: crate::template::transform_cellbase(&cellbase, None),
            work_id: work_id_str,
        };

        let entry = TemplateCache {
            time: current_time,
            uncles_updated_at: last_uncles_updated_at,
            txs_updated_at: last_txs_updated_at,
            template: crate::template::clone_block_template(&template),
        };
        proof {
            lemma_entries_insert_len(
                template_cache_entries(self.template_caches),
                TEMPLATE_CACHE_SIZE as nat,
                key,
                entry,
            );
            crate::lru::lemma_find_after_insert(
                template_cache_entries(self.template_caches),
                TEMPLATE_CACHE_SIZE as nat,
                key,
                entry,
            );
        }
        template_cache_insert(&mut self.template_caches, key, entry);
        Ok(template)
    }
}

} // verus!
