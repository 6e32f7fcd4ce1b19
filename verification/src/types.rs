//! The chain data model: hashes, scripts, transactions, headers, blocks,
//! epochs and consensus parameters, all as plain values.
//!
//! Hashes and difficulties are carried as four 64-bit words. A transaction or
//! header carries its content hash as a field fixed at construction; the
//! hashing engine itself is an external collaborator of this library.

use vstd::prelude::*;

use crate::capacity::Capacity;

verus! {

/// A 256-bit hash, least significant word first.
#[derive(Clone, Copy, PartialEq, Eq, Structural, Hash, Debug)]
pub struct H256 {
    pub w0: u64,
    pub w1: u64,
    pub w2: u64,
    pub w3: u64,
}

impl H256 {
    /// The all-zero hash.
    pub fn zero() -> (r: H256)
        ensures
            r == (H256 { w0: 0, w1: 0, w2: 0, w3: 0 }),
    {
        H256 { w0: 0, w1: 0, w2: 0, w3: 0 }
    }

    /// A hash whose low word is `n` and whose other words are zero.
    pub fn from_low_u64(n: u64) -> (r: H256)
        ensures
            r == (H256 { w0: n, w1: 0, w2: 0, w3: 0 }),
    {
        H256 { w0: n, w1: 0, w2: 0, w3: 0 }
    }
}

/// A 256-bit difficulty, least significant word first.
#[derive(Clone, Copy, PartialEq, Eq, Structural, Hash, Debug)]
pub struct U256 {
    pub w0: u64,
    pub w1: u64,
    pub w2: u64,
    pub w3: u64,
}

impl U256 {
    /// A difficulty whose low word is `n` and whose other words are zero.
    pub fn from_u64(n: u64) -> (r: U256)
        ensures
            r == (U256 { w0: n, w1: 0, w2: 0, w3: 0 }),
    {
        U256 { w0: n, w1: 0, w2: 0, w3: 0 }
    }
}

/// Bytes a proposal short-id occupies in a serialized block.
pub const PROPOSAL_SHORT_ID_SIZE: u64 = 10;

/// A truncated transaction identifier, embedded in blocks to pre-announce
/// upcoming transactions.
#[derive(Clone, Copy, PartialEq, Eq, Hash, Debug)]
pub struct ProposalShortId {
    pub id: [u8; 10],
}

impl ProposalShortId {
    pub fn new(id: [u8; 10]) -> (r: ProposalShortId)
        ensures
            r.id == id,
    {
        ProposalShortId { id }
    }
}

/// A lock or type script of a cell output.
#[derive(Clone, PartialEq, Eq, Debug)]
pub struct Script {
    pub args: Vec<Vec<u8>>,
    pub code_hash: H256,
}

/// A reference to a prior transaction output.
#[derive(Clone, Copy, PartialEq, Eq, Structural, Debug)]
pub struct CellOutPoint {
    pub tx_hash: H256,
    pub index: u32,
}

/// A reference that may point to a cell, to a header-only dependency, or to
/// nothing (the synthetic cellbase input). Only the cell variant carries
/// capacity.
#[derive(Clone, Copy, PartialEq, Eq, Structural, Debug)]
pub struct OutPoint {
    pub cell: Option<CellOutPoint>,
    pub block_hash: Option<H256>,
}

impl OutPoint {
    /// The null reference used by the cellbase input.
    pub fn null() -> (r: OutPoint)
        ensures
            r.cell is None,
            r.block_hash is None,
    {
        OutPoint { cell: None, block_hash: None }
    }

    /// A reference to output `index` of the transaction with hash `tx_hash`.
    pub fn new_cell(tx_hash: H256, index: u32) -> (r: OutPoint)
        ensures
            r.cell == Some(CellOutPoint { tx_hash, index }),
            r.block_hash is None,
    {
        OutPoint { cell: Some(CellOutPoint { tx_hash, index }), block_hash: None }
    }
}

/// One input of a transaction. The cellbase input carries the new block
/// number in `since`, which distinguishes cellbase transactions across
/// heights.
#[derive(Clone, Copy, PartialEq, Eq, Structural, Debug)]
pub struct CellInput {
    pub previous_output: OutPoint,
    pub since: u64,
}

impl CellInput {
    /// The synthetic input of the cellbase of block `block_number`.
    pub fn new_cellbase_input(block_number: u64) -> (r: CellInput)
        ensures
            r.previous_output.cell is None,
            r.previous_output.block_hash is None,
            r.since == block_number,
    {
        CellInput { previous_output: OutPoint::null(), since: block_number }
    }
}

/// One output of a transaction: a cell.
#[derive(Clone, PartialEq, Eq, Debug)]
pub struct CellOutput {
    pub capacity: Capacity,
    pub data: Vec<u8>,
    pub lock: Script,
    pub type_script: Option<Script>,
}

/// An ordered list of inputs and outputs, identified by its content hash.
/// The hash is fixed at construction; computing it from the content is the
/// hashing engine's work and out of this library's scope.
#[derive(Clone, PartialEq, Eq, Debug)]
pub struct Transaction {
    pub version: u32,
    pub hash: H256,
    pub deps: Vec<OutPoint>,
    pub inputs: Vec<CellInput>,
    pub outputs: Vec<CellOutput>,
}

/// A block header. `hash` is the header's own content hash.
#[derive(Clone, Copy, PartialEq, Eq, Structural, Debug)]
pub struct Header {
    pub version: u32,
    pub number: u64,
    pub timestamp: u64,
    pub epoch: u64,
    pub difficulty: U256,
    pub parent_hash: H256,
    pub transactions_root: H256,
    pub nonce: u64,
    pub hash: H256,
}

/// An uncle embedded by reference: its header and its proposals, without the
/// body and without nested uncles.
#[derive(Clone, PartialEq, Eq, Debug)]
pub struct UncleBlock {
    pub header: Header,
    pub proposals: Vec<ProposalShortId>,
}

/// A full block.
#[derive(Clone, PartialEq, Eq, Debug)]
pub struct Block {
    pub header: Header,
    pub uncles: Vec<UncleBlock>,
    pub transactions: Vec<Transaction>,
    pub proposals: Vec<ProposalShortId>,
}

/// A validated mempool transaction with its measured execution cycles and
/// its serialized size in bytes.
#[derive(Clone, PartialEq, Eq, Debug)]
pub struct PoolEntry {
    pub transaction: Transaction,
    pub cycles: Option<u64>,
    pub size: u64,
}

/// The active epoch: its number, difficulty, extent, and reward schedule.
/// The first `remainder_reward` blocks of the epoch earn one extra shannon.
#[derive(Clone, Copy, PartialEq, Eq, Structural, Debug)]
pub struct EpochExt {
    pub number: u64,
    pub difficulty: U256,
    pub start_number: u64,
    pub length: u64,
    pub base_block_reward: Capacity,
    pub remainder_reward: u64,
}

impl EpochExt {
    /// Whether block `number` lies in this epoch.
    pub open spec fn covers(self, number: u64) -> bool {
        self.start_number <= number < self.start_number + self.length
    }

    /// The reward of block `number` of this epoch, as an unbounded integer.
    pub open spec fn spec_block_reward(self, number: u64) -> int {
        if number - self.start_number < self.remainder_reward {
            self.base_block_reward.shannons + 1
        } else {
            self.base_block_reward.shannons as int
        }
    }

    /// The reward the miner of block `number` may claim in the cellbase.
    /// Fails exactly when the extra shannon would overflow the capacity.
    pub fn block_reward(&self, number: u64) -> (r: Result<Capacity, crate::error::Error>)
        requires
            self.covers(number),
        ensures
            self.spec_block_reward(number) <= u64::MAX ==> (r matches Ok(c)
                && c.shannons == self.spec_block_reward(number)),
            self.spec_block_reward(number) > u64::MAX ==> r == Err::<Capacity, crate::error::Error>(
                crate::error::Error::Arithmetic,
            ),
    {
        if number - self.start_number < self.remainder_reward {
            match self.base_block_reward.safe_add(Capacity { shannons: 1 }) {
                Some(c) => Ok(c),
                None => Err(crate::error::Error::Arithmetic),
            }
        } else {
            Ok(self.base_block_reward)
        }
    }
}

/// The consensus parameters a template build must respect.
#[derive(Clone, Copy, PartialEq, Eq, Structural, Debug)]
pub struct Consensus {
    pub max_block_bytes: u64,
    pub max_block_proposals_limit: u64,
    pub block_version: u32,
    pub max_block_cycles: u64,
    pub max_uncles_num: usize,
    pub max_uncles_age: u64,
    pub proof_size: u64,
}

/// Bytes of a serialized header beyond the proof: the fixed fields of the
/// size model this library accounts blocks with.
pub const HEADER_FIXED_SIZE: u64 = 208;

/// Bytes a serialized header occupies, given the proof size of the
/// proof-of-work engine in use.
pub fn header_serialized_size(proof_size: u64) -> (r: u64)
    requires
        HEADER_FIXED_SIZE + proof_size <= u64::MAX,
    ensures
        r == HEADER_FIXED_SIZE + proof_size,
{
    HEADER_FIXED_SIZE + proof_size
}

/// Bytes a serialized uncle occupies, as an unbounded integer: its header
/// and its proposal short-ids.
pub open spec fn spec_uncle_size(proof_size: u64, u: UncleBlock) -> int {
    HEADER_FIXED_SIZE + proof_size + u.proposals@.len() * PROPOSAL_SHORT_ID_SIZE
}

} // verus!
