//! An in-memory chain: blocks, a transaction index, a tip, an epoch, a
//! mempool and a proposal window, honouring the provider and chain-state
//! contracts. It backs the tests and small deployments; a node's persistent
//! store implements the same traits.

use vstd::prelude::*;

use crate::provider::{sum_entry_cycles, sum_entry_sizes, ChainProvider, ChainState};
use crate::template::clone_transaction;
use crate::types::{Block, Consensus, EpochExt, Header, PoolEntry, ProposalShortId, Transaction, H256};

verus! {

/// The mapping a list of blocks stands for: later entries win.
pub open spec fn blocks_map(s: Seq<Block>) -> Map<H256, Block>
    decreases s.len(),
{
    if s.len() == 0 {
        Map::empty()
    } else {
        blocks_map(s.drop_last()).insert(s.last().header.hash, s.last())
    }
}

/// The mapping a list of transactions stands for: later entries win.
pub open spec fn txs_map(s: Seq<Transaction>) -> Map<H256, Transaction>
    decreases s.len(),
{
    if s.len() == 0 {
        Map::empty()
    } else {
        txs_map(s.drop_last()).insert(s.last().hash, s.last())
    }
}

/// The last position holding a block with header hash `h`.
pub open spec fn find_last_block(s: Seq<Block>, h: H256) -> Option<int>
    decreases s.len(),
{
    if s.len() == 0 {
        None
    } else if s.last().header.hash == h {
        Some(s.len() - 1)
    } else {
        find_last_block(s.drop_last(), h)
    }
}

/// The last position holding a transaction with hash `h`.
pub open spec fn find_last_tx(s: Seq<Transaction>, h: H256) -> Option<int>
    decreases s.len(),
{
    if s.len() == 0 {
        None
    } else if s.last().hash == h {
        Some(s.len() - 1)
    } else {
        find_last_tx(s.drop_last(), h)
    }
}

/// A backwards scan finds exactly the mapping's entry.
pub proof fn lemma_blocks_map_find(s: Seq<Block>, h: H256)
    ensures
        match find_last_block(s, h) {
            None => !blocks_map(s).contains_key(h),
            Some(j) => 0 <= j < s.len() && s[j].header.hash == h && blocks_map(s).contains_key(h)
                && blocks_map(s)[h] == s[j],
        },
    decreases s.len(),
{
    if s.len() > 0 {
        lemma_blocks_map_find(s.drop_last(), h);
        if s.last().header.hash != h {
            assert(find_last_block(s, h) == find_last_block(s.drop_last(), h));
            match find_last_block(s.drop_last(), h) {
                None => {},
                Some(j) => {
                    assert(s.drop_last()[j] == s[j]);
                },
            }
        }
    }
}

/// A backwards scan finds exactly the mapping's entry.
pub proof fn lemma_txs_map_find(s: Seq<Transaction>, h: H256)
    ensures
        match find_last_tx(s, h) {
            None => !txs_map(s).contains_key(h),
            Some(j) => 0 <= j < s.len() && s[j].hash == h && txs_map(s).contains_key(h) && txs_map(
                s,
            )[h] == s[j],
        },
    decreases s.len(),
{
    if s.len() > 0 {
        lemma_txs_map_find(s.drop_last(), h);
        if s.last().hash != h {
            assert(find_last_tx(s, h) == find_last_tx(s.drop_last(), h));
            match find_last_tx(s.drop_last(), h) {
                None => {},
                Some(j) => {
                    assert(s.drop_last()[j] == s[j]);
                },
            }
        }
    }
}

/// The in-memory chain.
pub struct MemoryChain {
    pub consensus: Consensus,
    pub blocks: Vec<Block>,
    pub txs: Vec<Transaction>,
    pub tip: Header,
    pub current_epoch: EpochExt,
    pub pool: Vec<PoolEntry>,
    pub proposals: Vec<ProposalShortId>,
    pub last_txs_updated_at: u64,
}

impl MemoryChain {
    /// A chain holding nothing but its genesis tip.
    pub fn new(consensus: Consensus, tip: Header, current_epoch: EpochExt) -> (r: MemoryChain)
        ensures
            r.consensus == consensus,
            r.tip == tip,
            r.current_epoch == current_epoch,
            r.blocks@.len() == 0,
            r.txs@.len() == 0,
            r.pool@.len() == 0,
            r.proposals@.len() == 0,
            r.last_txs_updated_at == 0,
    {
        MemoryChain {
            consensus,
            blocks: Vec::new(),
            txs: Vec::new(),
            tip,
            current_epoch,
            pool: Vec::new(),
            proposals: Vec::new(),
            last_txs_updated_at: 0,
        }
    }

    /// Store a block.
    pub fn insert_block(&mut self, b: Block)
        ensures
            final(self).blocks@ == old(self).blocks@.push(b),
            final(self).txs == old(self).txs,
            final(self).tip == old(self).tip,
            final(self).current_epoch == old(self).current_epoch,
            final(self).pool == old(self).pool,
            final(self).proposals == old(self).proposals,
            final(self).consensus == old(self).consensus,
            final(self).last_txs_updated_at == old(self).last_txs_updated_at,
    {
        self.blocks.push(b);
    }

    /// Index a committed transaction.
    pub fn insert_transaction(&mut self, t: Transaction)
        ensures
            final(self).txs@ == old(self).txs@.push(t),
            final(self).blocks == old(self).blocks,
    {
        self.txs.push(t);
    }

    /// Move the tip and the active epoch.
    pub fn set_tip(&mut self, tip: Header, current_epoch: EpochExt)
        ensures
            final(self).tip == tip,
            final(self).current_epoch == current_epoch,
            final(self).blocks == old(self).blocks,
            final(self).txs == old(self).txs,
            final(self).pool == old(self).pool,
            final(self).proposals == old(self).proposals,
            final(self).consensus == old(self).consensus,
            final(self).last_txs_updated_at == old(self).last_txs_updated_at,
    {
        self.tip = tip;
        self.current_epoch = current_epoch;
    }

    /// Admit a validated transaction to the mempool and move the mempool
    /// watermark.
    pub fn add_pool_entry(&mut self, e: PoolEntry, now: u64)
        ensures
            final(self).pool@ == old(self).pool@.push(e),
            final(self).last_txs_updated_at == now,
            final(self).blocks == old(self).blocks,
            final(self).txs == old(self).txs,
            final(self).tip == old(self).tip,
            final(self).current_epoch == old(self).current_epoch,
            final(self).proposals == old(self).proposals,
            final(self).consensus == old(self).consensus,
    {
        self.pool.push(e);
        self.last_txs_updated_at = now;
    }

    /// Announce a proposal short-id for the next block.
    pub fn add_proposal(&mut self, p: ProposalShortId)
        ensures
            final(self).proposals@ == old(self).proposals@.push(p),
            final(self).blocks == old(self).blocks,
            final(self).tip == old(self).tip,
    {
        self.proposals.push(p);
    }
}

impl ChainProvider for MemoryChain {
    open spec fn store_txs(&self) -> Map<H256, Transaction> {
        txs_map(self.txs@)
    }

    open spec fn store_blocks(&self) -> Map<H256, Block> {
        blocks_map(self.blocks@)
    }

    open spec fn spec_consensus(&self) -> Consensus {
        self.consensus
    }

    open spec fn spec_next_epoch(&self, last_epoch: EpochExt, header: Header) -> Option<EpochExt> {
        if header.number < u64::MAX && last_epoch.number < u64::MAX && header.number + 1
            == last_epoch.start_number + last_epoch.length {
            Some(
                EpochExt {
                    number: (last_epoch.number + 1) as u64,
                    difficulty: last_epoch.difficulty,
                    start_number: (header.number + 1) as u64,
                    length: last_epoch.length,
                    base_block_reward: last_epoch.base_block_reward,
                    remainder_reward: last_epoch.remainder_reward,
                },
            )
        } else {
            None
        }
    }

    fn consensus(&self) -> (r: Consensus) {
        self.consensus
    }

    fn block<'a>(&'a self, hash: &H256) -> (r: Option<&'a Block>) {
        let n = self.blocks.len();
        proof {
            assert(self.blocks@.take(n as int) =~= self.blocks@);
        }
        let mut i: usize = n;
        while i > 0
            invariant
                n == self.blocks@.len(),
                0 <= i <= n,
                find_last_block(self.blocks@, *hash) == find_last_block(
                    self.blocks@.take(i as int),
                    *hash,
                ),
            decreases i,
        {
            proof {
                assert(self.blocks@.take(i as int).drop_last() =~= self.blocks@.take(i - 1));
                assert(self.blocks@.take(i as int).last() == self.blocks@[i - 1]);
            }
            if self.blocks[i - 1].header.hash == *hash {
                proof {
                    assert(find_last_block(self.blocks@.take(i as int), *hash) == Some(i - 1));
                    lemma_blocks_map_find(self.blocks@, *hash);
                }
                return Some(&self.blocks[i - 1]);
            }
            i -= 1;
        }
        proof {
            assert(self.blocks@.take(0).len() == 0);
            lemma_blocks_map_find(self.blocks@, *hash);
        }
        None
    }

    fn get_transaction<'a>(&'a self, hash: &H256) -> (r: Option<&'a Transaction>) {
        let n = self.txs.len();
        proof {
            assert(self.txs@.take(n as int) =~= self.txs@);
        }
        let mut i: usize = n;
        while i > 0
            invariant
                n == self.txs@.len(),
                0 <= i <= n,
                find_last_tx(self.txs@, *hash) == find_last_tx(self.txs@.take(i as int), *hash),
            decreases i,
        {
            proof {
                assert(self.txs@.take(i as int).drop_last() =~= self.txs@.take(i - 1));
                assert(self.txs@.take(i as int).last() == self.txs@[i - 1]);
            }
            if self.txs[i - 1].hash == *hash {
                proof {
                    assert(find_last_tx(self.txs@.take(i as int), *hash) == Some(i - 1));
                    lemma_txs_map_find(self.txs@, *hash);
                }
                return Some(&self.txs[i - 1]);
            }
            i -= 1;
        }
        proof {
            assert(self.txs@.take(0).len() == 0);
            lemma_txs_map_find(self.txs@, *hash);
        }
        None
    }

    fn next_epoch_ext(&self, last_epoch: &EpochExt, header: &Header) -> (r: Option<EpochExt>) {
        if header.number < u64::MAX && last_epoch.number < u64::MAX && last_epoch.start_number
            <= u64::MAX - last_epoch.length && header.number + 1 == last_epoch.start_number
            + last_epoch.length {
            Some(
                EpochExt {
                    number: last_epoch.number + 1,
                    difficulty: last_epoch.difficulty,
                    start_number: header.number + 1,
                    length: last_epoch.length,
                    base_block_reward: last_epoch.base_block_reward,
                    remainder_reward: last_epoch.remainder_reward,
                },
            )
        } else {
            None
        }
    }
}

impl ChainState for MemoryChain {
    open spec fn spec_tip_header(&self) -> Header {
        self.tip
    }

    open spec fn spec_last_txs_updated_at(&self) -> u64 {
        self.last_txs_updated_at
    }

    open spec fn spec_current_epoch(&self) -> EpochExt {
        self.current_epoch
    }

    fn tip_header(&self) -> (r: Header) {
        self.tip
    }

    fn tip_number(&self) -> (r: u64) {
        self.tip.number
    }

    fn get_last_txs_updated_at(&self) -> (r: u64) {
        self.last_txs_updated_at
    }

    fn current_epoch_ext(&self) -> (r: EpochExt) {
        self.current_epoch
    }

    fn get_proposals(&self, limit: usize) -> (r: Vec<ProposalShortId>) {
        let mut r: Vec<ProposalShortId> = Vec::new();
        let n = self.proposals.len();
        let take = if n < limit {
            n
        } else {
            limit
        };
        let mut i: usize = 0;
        while i < take
            invariant
                take <= n,
                n == self.proposals@.len(),
                take <= limit,
                0 <= i <= take,
                r@.len() == i,
            decreases take - i,
        {
            r.push(self.proposals[i]);
            i += 1;
        }
        r
    }

    fn get_staging_txs(&self, size_limit: u64, cycles_limit: u64) -> (r: Vec<PoolEntry>) {
        let mut r: Vec<PoolEntry> = Vec::new();
        let mut size_acc: u64 = 0;
        let mut cycles_acc: u64 = 0;
        let n = self.pool.len();
        let mut i: usize = 0;
        while i < n
            invariant
                n == self.pool@.len(),
                0 <= i <= n,
                size_acc <= size_limit,
                cycles_acc <= cycles_limit,
                sum_entry_sizes(r@) == size_acc,
                sum_entry_cycles(r@) == cycles_acc,
            decreases n - i,
        {
            let e = &self.pool[i];
            let e_cycles: u64 = match e.cycles {
                Some(c) => c,
                None => 0,
            };
            let new_size = match size_acc.checked_add(e.size) {
                Some(s) => s,
                None => {
                    return r;
                },
            };
            let new_cycles = match cycles_acc.checked_add(e_cycles) {
                Some(c) => c,
                None => {
                    return r;
                },
            };
            if new_size > size_limit || new_cycles > cycles_limit {
                return r;
            }
            let cloned = PoolEntry {
                transaction: clone_transaction(&e.transaction),
                cycles: e.cycles,
                size: e.size,
            };
            let ghost prev = r@;
            r.push(cloned);
            proof {
                assert(r@.drop_last() =~= prev);
                assert(sum_entry_sizes(r@) == sum_entry_sizes(prev) + e.size);
                assert(sum_entry_cycles(r@) == sum_entry_cycles(prev) + e_cycles);
            }
            size_acc = new_size;
            cycles_acc = new_cycles;
            i += 1;
        }
        r
    }
}

} // verus!
