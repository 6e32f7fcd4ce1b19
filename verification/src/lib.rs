//! Block-template assembly core for a proof-of-work chain node.
//!
//! Given the current chain tip, a mempool snapshot and a pool of candidate
//! uncle blocks, the library builds the template of the next block a miner
//! should work on: the cellbase transaction claiming the block reward plus
//! the fees of the selected transactions, the eligible uncles, and the
//! size/cycle envelope demanded by consensus.

use vstd::prelude::*;

mod assembler;
mod capacity;
mod clock;
mod error;
mod fee;
mod laws;
mod lru;
mod memory_chain;
mod provider;
mod strings;
mod template;
mod types;
mod uncles;
mod validation;

pub use assembler::{
    built_fresh, cellbase_matches_config, cellbase_shape, entries_remove_keys,
    lemma_entries_insert_len, lemma_insert_keys_match, lemma_remove_keys_keys_match,
    lemma_remove_keys_len, lemma_remove_keys_sound, served_from_cache, spec_build_epoch,
    spec_cellbase_hash, spec_clamp_u32, spec_clamp_u64, spec_occupied, spec_template_key,
    sum_uncle_sizes_from, uncle_keys_match, BlockAssembler, BlockAssemblerConfig,
    MAX_CANDIDATE_UNCLES, TEMPLATE_CACHE_SIZE,
};
pub use capacity::Capacity;
pub use error::Error;
pub use fee::{
    find_entry, resolve_capacity, spec_transaction_fee, sum_fees_from, sum_inputs_from,
    sum_outputs_from, FeeCalculator,
};
pub use laws::{
    all_inputs_resolvable, good_uncle, input_total, lemma_bad_candidates_evicted,
    lemma_block_fits_bytes_limit, lemma_caches_bounded, lemma_eligible_candidate_is_selected,
    lemma_fee_characterization, lemma_fresh_template_uncles_valid,
    lemma_ineligible_candidate_is_bad, lemma_lru_eviction_at_capacity,
    lemma_no_candidates_no_uncles, lemma_over_limit_params_equal_none, lemma_rebuild_is_cache_hit,
    lemma_select_count, lemma_select_extends, lemma_select_sound,
    lemma_stale_epoch_candidate_purged, lemma_sum_entry_sizes_nonneg,
    lemma_work_ids_strictly_increase, output_total,
};
pub use lru::{
    entries_find, entries_insert, entries_remove_key, template_cache_capacity,
    template_cache_entries, uncle_cache_capacity, uncle_cache_entries,
};
pub use memory_chain::MemoryChain;
pub use provider::{sum_entry_cycles, sum_entry_sizes, ChainProvider, ChainState};
pub use strings::{dec_seq, lemma_dec_seq_injective};
pub use template::{
    block_template_eqv, spec_is_outdate, template_cache_eqv, transform_cellbase, transform_tx,
    transform_uncle, BlockTemplate, CellbaseTemplate, TemplateCache, TemplateKey,
    TransactionTemplate, UncleTemplate, BLOCK_TEMPLATE_TIMEOUT,
};
pub use types::{
    header_serialized_size, spec_uncle_size, Block, CellInput, CellOutPoint, CellOutput,
    Consensus, EpochExt, Header, OutPoint, PoolEntry, ProposalShortId, Script, Transaction,
    UncleBlock, H256, HEADER_FIXED_SIZE, PROPOSAL_SHORT_ID_SIZE, U256,
};
pub use uncles::{
    cand_view, collect_excluded, epoch_matches, prepare_uncles, sel_contains_key, select_uncles,
    spec_excluded, spec_prepare_uncles, spec_uncle_depth, uncle_block_eqv, walk_excluded,
};
pub use validation::Verifier;

verus! {

} // verus!
