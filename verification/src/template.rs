//! The miner-facing block template and its building blocks.
//!
//! Numeric fields that may exceed 2^53 travel as decimal strings, so the
//! template survives JSON round trips. `*_eqv` state value equality of the
//! template types field by field, over the views of their strings and
//! vectors; the clone functions below are verified against them.

use vstd::prelude::*;

use crate::strings::{dec_seq, u64_to_dec};
use crate::types::{Header, ProposalShortId, Script, Transaction, UncleBlock, CellOutput, H256, U256};
use crate::uncles::clone_proposals;

verus! {

/// Milliseconds a cached template may keep serving after the mempool moved.
pub const BLOCK_TEMPLATE_TIMEOUT: u64 = 3000;

/// An uncle as the miner receives it.
#[derive(Clone, PartialEq, Eq, Debug)]
pub struct UncleTemplate {
    pub hash: H256,
    pub required: bool,
    pub proposals: Vec<ProposalShortId>,
    pub header: Header,
}

/// The cellbase as the miner receives it.
#[derive(Clone, PartialEq, Eq, Debug)]
pub struct CellbaseTemplate {
    pub hash: H256,
    pub cycles: Option<String>,
    pub data: Transaction,
}

/// A selected transaction as the miner receives it.
#[derive(Clone, PartialEq, Eq, Debug)]
pub struct TransactionTemplate {
    pub hash: H256,
    pub required: bool,
    pub cycles: Option<String>,
    pub depends: Option<Vec<u32>>,
    pub data: Transaction,
}

/// What a miner needs to assemble and mine the next block.
#[derive(Clone, PartialEq, Eq, Debug)]
pub struct BlockTemplate {
    pub version: u32,
    pub difficulty: U256,
    pub current_time: String,
    pub number: String,
    pub epoch: String,
    pub parent_hash: H256,
    pub cycles_limit: String,
    pub bytes_limit: String,
    pub uncles_count_limit: u32,
    pub uncles: Vec<UncleTemplate>,
    pub transactions: Vec<TransactionTemplate>,
    pub proposals: Vec<ProposalShortId>,
    pub cellbase: CellbaseTemplate,
    pub work_id: String,
}

/// Value equality of scripts, over the views of their argument lists.
pub open spec fn script_eqv(a: Script, b: Script) -> bool {
    &&& a.code_hash == b.code_hash
    &&& a.args@.len() == b.args@.len()
    &&& forall|i: int| 0 <= i < a.args@.len() ==> (#[trigger] a.args@[i])@ == b.args@[i]@
}

/// Value equality of optional scripts.
pub open spec fn option_script_eqv(a: Option<Script>, b: Option<Script>) -> bool {
    match a {
        None => b is None,
        Some(sa) => b matches Some(sb) && script_eqv(sa, sb),
    }
}

/// Value equality of cell outputs.
pub open spec fn cell_output_eqv(a: CellOutput, b: CellOutput) -> bool {
    &&& a.capacity == b.capacity
    &&& a.data@ == b.data@
    &&& script_eqv(a.lock, b.lock)
    &&& option_script_eqv(a.type_script, b.type_script)
}

/// Value equality of transactions.
pub open spec fn tx_eqv(a: Transaction, b: Transaction) -> bool {
    &&& a.version == b.version
    &&& a.hash == b.hash
    &&& a.deps@ == b.deps@
    &&& a.inputs@ == b.inputs@
    &&& a.outputs@.len() == b.outputs@.len()
    &&& forall|i: int|
        0 <= i < a.outputs@.len() ==> cell_output_eqv(#[trigger] a.outputs@[i], b.outputs@[i])
}

/// Value equality of optional strings, over their views.
pub open spec fn option_string_eqv(a: Option<String>, b: Option<String>) -> bool {
    match a {
        None => b is None,
        Some(sa) => b matches Some(sb) && sa@ == sb@,
    }
}

/// Value equality of uncle templates.
pub open spec fn uncle_template_eqv(a: UncleTemplate, b: UncleTemplate) -> bool {
    &&& a.hash == b.hash
    &&& a.required == b.required
    &&& a.proposals@ == b.proposals@
    &&& a.header == b.header
}

/// Value equality of cellbase templates.
pub open spec fn cellbase_template_eqv(a: CellbaseTemplate, b: CellbaseTemplate) -> bool {
    &&& a.hash == b.hash
    &&& option_string_eqv(a.cycles, b.cycles)
    &&& tx_eqv(a.data, b.data)
}

/// Value equality of transaction templates.
pub open spec fn transaction_template_eqv(a: TransactionTemplate, b: TransactionTemplate) -> bool {
    &&& a.hash == b.hash
    &&& a.required == b.required
    &&& option_string_eqv(a.cycles, b.cycles)
    &&& (match a.depends {
        None => b.depends is None,
        Some(da) => b.depends matches Some(db) && da@ == db@,
    })
    &&& tx_eqv(a.data, b.data)
}

/// Value equality of block templates, `work_id` included.
pub open spec fn block_template_eqv(a: BlockTemplate, b: BlockTemplate) -> bool {
    &&& a.version == b.version
    &&& a.difficulty == b.difficulty
    &&& a.current_time@ == b.current_time@
    &&& a.number@ == b.number@
    &&& a.epoch@ == b.epoch@
    &&& a.parent_hash == b.parent_hash
    &&& a.cycles_limit@ == b.cycles_limit@
    &&& a.bytes_limit@ == b.bytes_limit@
    &&& a.uncles_count_limit == b.uncles_count_limit
    &&& a.uncles@.len() == b.uncles@.len()
    &&& forall|i: int|
        0 <= i < a.uncles@.len() ==> uncle_template_eqv(#[trigger] a.uncles@[i], b.uncles@[i])
    &&& a.transactions@.len() == b.transactions@.len()
    &&& forall|i: int|
        0 <= i < a.transactions@.len() ==> transaction_template_eqv(
            #[trigger] a.transactions@[i],
            b.transactions@[i],
        )
    &&& a.proposals@ == b.proposals@
    &&& cellbase_template_eqv(a.cellbase, b.cellbase)
    &&& a.work_id@ == b.work_id@
}

/// The template-cache key: the consensus-derived envelope of a request.
#[derive(Clone, Copy, PartialEq, Eq, Structural, Hash, Debug)]
pub struct TemplateKey {
    pub cycles_limit: u64,
    pub bytes_limit: u64,
    pub version: u32,
}

/// One memoized template: the template itself, the time it was built, and
/// the uncle and mempool watermarks it was built against.
#[derive(Clone, PartialEq, Eq, Debug)]
pub struct TemplateCache {
    pub time: u64,
    pub uncles_updated_at: u64,
    pub txs_updated_at: u64,
    pub template: BlockTemplate,
}

/// Value equality of cache entries.
pub open spec fn template_cache_eqv(a: TemplateCache, b: TemplateCache) -> bool {
    &&& a.time == b.time
    &&& a.uncles_updated_at == b.uncles_updated_at
    &&& a.txs_updated_at == b.txs_updated_at
    &&& block_template_eqv(a.template, b.template)
}

/// When a cached template may no longer be served: the uncle watermark
/// moved, or the mempool watermark moved and the entry has outlived the
/// grace period, or the entry is for another block number.
pub open spec fn spec_is_outdate(
    cache: TemplateCache,
    last_uncles_updated_at: u64,
    last_txs_updated_at: u64,
    current_time: u64,
    number: Seq<char>,
) -> bool {
    ||| last_uncles_updated_at != cache.uncles_updated_at
    ||| (last_txs_updated_at != cache.txs_updated_at && (if current_time >= cache.time {
        current_time - cache.time
    } else {
        0
    }) > BLOCK_TEMPLATE_TIMEOUT)
    ||| number != cache.template.number@
}

impl TemplateCache {
    /// Whether this entry may no longer be served against the given
    /// watermarks, clock sample and block number.
    pub fn is_outdate(
        &self,
        last_uncles_updated_at: u64,
        last_txs_updated_at: u64,
        current_time: u64,
        number: &String,
    ) -> (r: bool)
        ensures
            r == spec_is_outdate(
                *self,
                last_uncles_updated_at,
                last_txs_updated_at,
                current_time,
                number@,
            ),
    {
        let elapsed: u64 = if current_time >= self.time {
            current_time - self.time
        } else {
            0
        };
        last_uncles_updated_at != self.uncles_updated_at || (last_txs_updated_at
            != self.txs_updated_at && elapsed > BLOCK_TEMPLATE_TIMEOUT) || !(*number
            == self.template.number)
    }
}

/// An owned copy of a template-cache entry.
pub fn clone_template_cache(e: &TemplateCache) -> (r: TemplateCache)
    ensures
        template_cache_eqv(r, *e),
{
    TemplateCache {
        time: e.time,
        uncles_updated_at: e.uncles_updated_at,
        txs_updated_at: e.txs_updated_at,
        template: clone_block_template(&e.template),
    }
}

/// An owned copy of a byte string.
pub fn clone_bytes(v: &Vec<u8>) -> (r: Vec<u8>)
    ensures
        r@ == v@,
{
    let n = v.len();
    let mut r: Vec<u8> = Vec::new();
    let mut i: usize = 0;
    while i < n
        invariant
            n == v@.len(),
            0 <= i <= n,
            r@ == v@.take(i as int),
        decreases n - i,
    {
        r.push(v[i]);
        proof {
            assert(r@ =~= v@.take(i + 1));
        }
        i += 1;
    }
    proof {
        assert(v@.take(n as int) =~= v@);
    }
    r
}

/// An owned copy of a list of byte strings.
pub fn clone_byte_vecs(v: &Vec<Vec<u8>>) -> (r: Vec<Vec<u8>>)
    ensures
        r@.len() == v@.len(),
        forall|i: int| 0 <= i < v@.len() ==> (#[trigger] r@[i])@ == v@[i]@,
{
    let n = v.len();
    let mut r: Vec<Vec<u8>> = Vec::new();
    let mut i: usize = 0;
    while i < n
        invariant
            n == v@.len(),
            0 <= i <= n,
            r@.len() == i,
            forall|j: int| 0 <= j < i ==> (#[trigger] r@[j])@ == v@[j]@,
        decreases n - i,
    {
        r.push(clone_bytes(&v[i]));
        i += 1;
    }
    r
}

/// An owned copy of a script.
pub fn clone_script(s: &Script) -> (r: Script)
    ensures
        script_eqv(r, *s),
{
    let n = s.args.len();
    let mut args: Vec<Vec<u8>> = Vec::new();
    let mut i: usize = 0;
    while i < n
        invariant
            n == s.args@.len(),
            0 <= i <= n,
            args@.len() == i,
            forall|j: int| 0 <= j < i ==> (#[trigger] args@[j])@ == s.args@[j]@,
        decreases n - i,
    {
        args.push(clone_bytes(&s.args[i]));
        i += 1;
    }
    Script { args, code_hash: s.code_hash }
}

/// An owned copy of a cell output.
pub fn clone_cell_output(o: &CellOutput) -> (r: CellOutput)
    ensures
        cell_output_eqv(r, *o),
{
    let type_script = match &o.type_script {
        None => None,
        Some(s) => Some(clone_script(s)),
    };
    CellOutput {
        capacity: o.capacity,
        data: clone_bytes(&o.data),
        lock: clone_script(&o.lock),
        type_script,
    }
}

/// An owned copy of a transaction.
pub fn clone_transaction(t: &Transaction) -> (r: Transaction)
    ensures
        tx_eqv(r, *t),
{
    let nd = t.deps.len();
    let mut deps: Vec<crate::types::OutPoint> = Vec::new();
    let mut i: usize = 0;
    while i < nd
        invariant
            nd == t.deps@.len(),
            0 <= i <= nd,
            deps@ == t.deps@.take(i as int),
        decreases nd - i,
    {
        deps.push(t.deps[i]);
        proof {
            assert(deps@ =~= t.deps@.take(i + 1));
        }
        i += 1;
    }
    proof {
        assert(t.deps@.take(nd as int) =~= t.deps@);
    }
    let ni = t.inputs.len();
    let mut inputs: Vec<crate::types::CellInput> = Vec::new();
    let mut k: usize = 0;
    while k < ni
        invariant
            ni == t.inputs@.len(),
            0 <= k <= ni,
            inputs@ == t.inputs@.take(k as int),
        decreases ni - k,
    {
        inputs.push(t.inputs[k]);
        proof {
            assert(inputs@ =~= t.inputs@.take(k + 1));
        }
        k += 1;
    }
    proof {
        assert(t.inputs@.take(ni as int) =~= t.inputs@);
    }
    let no = t.outputs.len();
    let mut outputs: Vec<CellOutput> = Vec::new();
    let mut m: usize = 0;
    while m < no
        invariant
            no == t.outputs@.len(),
            0 <= m <= no,
            outputs@.len() == m,
            forall|j: int| 0 <= j < m ==> cell_output_eqv(#[trigger] outputs@[j], t.outputs@[j]),
        decreases no - m,
    {
        outputs.push(clone_cell_output(&t.outputs[m]));
        m += 1;
    }
    Transaction { version: t.version, hash: t.hash, deps, inputs, outputs }
}

/// An owned copy of an optional cycle count string.
pub fn clone_option_string(s: &Option<String>) -> (r: Option<String>)
    ensures
        option_string_eqv(r, *s),
{
    match s {
        None => None,
        Some(x) => Some(x.clone()),
    }
}

/// An owned copy of a block template, `work_id` included.
pub fn clone_block_template(t: &BlockTemplate) -> (r: BlockTemplate)
    ensures
        block_template_eqv(r, *t),
{
    let nu = t.uncles.len();
    let mut uncles: Vec<UncleTemplate> = Vec::new();
    let mut i: usize = 0;
    while i < nu
        invariant
            nu == t.uncles@.len(),
            0 <= i <= nu,
            uncles@.len() == i,
            forall|j: int| 0 <= j < i ==> uncle_template_eqv(#[trigger] uncles@[j], t.uncles@[j]),
        decreases nu - i,
    {
        let u = &t.uncles[i];
        uncles.push(
            UncleTemplate {
                hash: u.hash,
                required: u.required,
                proposals: clone_proposals(&u.proposals),
                header: u.header,
            },
        );
        i += 1;
    }
    let nt = t.transactions.len();
    let mut transactions: Vec<TransactionTemplate> = Vec::new();
    let mut k: usize = 0;
    while k < nt
        invariant
            nt == t.transactions@.len(),
            0 <= k <= nt,
            transactions@.len() == k,
            forall|j: int|
                0 <= j < k ==> transaction_template_eqv(
                    #[trigger] transactions@[j],
                    t.transactions@[j],
                ),
        decreases nt - k,
    {
        let x = &t.transactions[k];
        let depends = match &x.depends {
            None => None,
            Some(d) => {
                let mut dd: Vec<u32> = Vec::new();
                let m = d.len();
                let mut q: usize = 0;
                while q < m
                    invariant
                        m == d@.len(),
                        0 <= q <= m,
                        dd@ == d@.take(q as int),
                    decreases m - q,
                {
                    dd.push(d[q]);
                    proof {
                        assert(dd@ =~= d@.take(q + 1));
                    }
                    q += 1;
                }
                proof {
                    assert(d@.take(m as int) =~= d@);
                }
                Some(dd)
            },
        };
        transactions.push(
            TransactionTemplate {
                hash: x.hash,
                required: x.required,
                cycles: clone_option_string(&x.cycles),
                depends,
                data: clone_transaction(&x.data),
            },
        );
        k += 1;
    }
    BlockTemplate {
        version: t.version,
        difficulty: t.difficulty,
        current_time: t.current_time.clone(),
        number: t.number.clone(),
        epoch: t.epoch.clone(),
        parent_hash: t.parent_hash,
        cycles_limit: t.cycles_limit.clone(),
        bytes_limit: t.bytes_limit.clone(),
        uncles_count_limit: t.uncles_count_limit,
        uncles,
        transactions,
        proposals: clone_proposals(&t.proposals),
        cellbase: CellbaseTemplate {
            hash: t.cellbase.hash,
            cycles: clone_option_string(&t.cellbase.cycles),
            data: clone_transaction(&t.cellbase.data),
        },
        work_id: t.work_id.clone(),
    }
}

/// Project a selected uncle into its miner-facing form.
pub fn transform_uncle(uncle: UncleBlock) -> (r: UncleTemplate)
    ensures
        r.hash == uncle.header.hash,
        r.required == false,
        r.proposals@ == uncle.proposals@,
        r.header == uncle.header,
{
    let UncleBlock { header, proposals } = uncle;
    UncleTemplate { hash: header.hash, required: false, proposals, header }
}

/// Project the cellbase into its miner-facing form.
pub fn transform_cellbase(tx: &Transaction, cycles: Option<u64>) -> (r: CellbaseTemplate)
    ensures
        r.hash == tx.hash,
        match cycles {
            None => r.cycles is None,
            Some(c) => r.cycles matches Some(s) && s@ == dec_seq(c as nat),
        },
        tx_eqv(r.data, *tx),
{
    let cycles_str = match cycles {
        None => None,
        Some(c) => Some(u64_to_dec(c)),
    };
    CellbaseTemplate { hash: tx.hash, cycles: cycles_str, data: clone_transaction(tx) }
}

/// Project a selected pool entry into its miner-facing form.
pub fn transform_tx(
    tx: &crate::types::PoolEntry,
    required: bool,
    depends: Option<Vec<u32>>,
) -> (r: TransactionTemplate)
    ensures
        r.hash == tx.transaction.hash,
        r.required == required,
        match tx.cycles {
            None => r.cycles is None,
            Some(c) => r.cycles matches Some(s) && s@ == dec_seq(c as nat),
        },
        r.depends == depends,
        tx_eqv(r.data, tx.transaction),
{
    let cycles_str = match tx.cycles {
        None => None,
        Some(c) => Some(u64_to_dec(c)),
    };
    TransactionTemplate {
        hash: tx.transaction.hash,
        required,
        cycles: cycles_str,
        depends,
        data: clone_transaction(&tx.transaction),
    }
}

} // verus!
