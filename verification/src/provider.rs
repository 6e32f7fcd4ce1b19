//! The interfaces this library consumes: the persistent chain store and the
//! locked chain state (tip, epoch, proposals, mempool snapshot).
//!
//! Each trait carries spec views of the data behind it; every executable
//! method ties its result to those views, so an implementation — the
//! in-memory chain of this crate, or a node's store — must honour them.

use vstd::prelude::*;

use crate::types::{Block, Consensus, EpochExt, Header, PoolEntry, ProposalShortId, Transaction, H256};

verus! {

/// Sum of the serialized sizes of a slice of pool entries, as an unbounded
/// integer.
pub open spec fn sum_entry_sizes(s: Seq<PoolEntry>) -> int
    decreases s.len(),
{
    if s.len() == 0 {
        0
    } else {
        sum_entry_sizes(s.drop_last()) + s.last().size
    }
}

/// Sum of the measured cycles of a slice of pool entries (unmeasured entries
/// count zero), as an unbounded integer.
pub open spec fn sum_entry_cycles(s: Seq<PoolEntry>) -> int
    decreases s.len(),
{
    if s.len() == 0 {
        0
    } else {
        sum_entry_cycles(s.drop_last()) + (match s.last().cycles {
            Some(c) => c as int,
            None => 0,
        })
    }
}

/// The persistent chain store and consensus surface.
pub trait ChainProvider {
    /// The committed transactions, by content hash.
    spec fn store_txs(&self) -> Map<H256, Transaction>;

    /// The stored blocks, by header hash.
    spec fn store_blocks(&self) -> Map<H256, Block>;

    /// The consensus parameters in force.
    spec fn spec_consensus(&self) -> Consensus;

    /// The epoch that follows `last_epoch` when `header` is the tip, if the
    /// boundary has been reached.
    spec fn spec_next_epoch(&self, last_epoch: EpochExt, header: Header) -> Option<EpochExt>;

    fn consensus(&self) -> (r: Consensus)
        ensures
            r == self.spec_consensus(),
    ;

    fn block<'a>(&'a self, hash: &H256) -> (r: Option<&'a Block>)
        ensures
            match r {
                Some(b) => self.store_blocks().contains_key(*hash) && *b
                    == self.store_blocks()[*hash],
                None => !self.store_blocks().contains_key(*hash),
            },
    ;

    fn get_transaction<'a>(&'a self, hash: &H256) -> (r: Option<&'a Transaction>)
        ensures
            match r {
                Some(t) => self.store_txs().contains_key(*hash) && *t == self.store_txs()[*hash],
                None => !self.store_txs().contains_key(*hash),
            },
    ;

    fn next_epoch_ext(&self, last_epoch: &EpochExt, header: &Header) -> (r: Option<EpochExt>)
        ensures
            r == self.spec_next_epoch(*last_epoch, *header),
    ;
}

/// The chain state read under the chain-state lock: the tip, the active
/// epoch, the proposal window and the mempool snapshot.
pub trait ChainState {
    /// The tip header.
    spec fn spec_tip_header(&self) -> Header;

    /// The millisecond timestamp of the last mempool change.
    spec fn spec_last_txs_updated_at(&self) -> u64;

    /// The epoch the tip lies in.
    spec fn spec_current_epoch(&self) -> EpochExt;

    fn tip_header(&self) -> (r: Header)
        ensures
            r == self.spec_tip_header(),
    ;

    fn tip_number(&self) -> (r: u64)
        ensures
            r == self.spec_tip_header().number,
    ;

    fn get_last_txs_updated_at(&self) -> (r: u64)
        ensures
            r == self.spec_last_txs_updated_at(),
    ;

    fn current_epoch_ext(&self) -> (r: EpochExt)
        ensures
            r == self.spec_current_epoch(),
    ;

    /// At most `limit` proposal short-ids for the next block.
    fn get_proposals(&self, limit: usize) -> (r: Vec<ProposalShortId>)
        ensures
            r@.len() <= limit,
    ;

    /// A mempool snapshot that fits the given budgets: the returned entries'
    /// sizes sum to at most `size_limit` and their cycles to at most
    /// `cycles_limit`. The mempool decides the contents; the caller re-checks
    /// nothing.
    fn get_staging_txs(&self, size_limit: u64, cycles_limit: u64) -> (r: Vec<PoolEntry>)
        ensures
            sum_entry_sizes(r@) <= size_limit,
            sum_entry_cycles(r@) <= cycles_limit,
    ;
}

} // verus!
