//! Per-build fee accounting.
//!
//! The fee of a transaction is the sum of its input capacities minus the sum
//! of its output capacities. An input may spend an output of an earlier
//! transaction of the same build, so capacities are resolved first against
//! the ordered pool slice of this build, then against the persistent store.
//! All additions and the final subtraction are checked.

use vstd::prelude::*;

use crate::capacity::Capacity;
use crate::error::Error;
use crate::provider::ChainProvider;
use crate::types::{CellInput, CellOutput, OutPoint, PoolEntry, Transaction, H256};

verus! {

/// The first position at or after `i` whose entry has hash `h`.
pub open spec fn find_entry(txs: Seq<PoolEntry>, h: H256, i: int) -> Option<int>
    decreases txs.len() - i,
{
    if i < 0 || i >= txs.len() {
        None
    } else if txs[i].transaction.hash == h {
        Some(i)
    } else {
        find_entry(txs, h, i + 1)
    }
}

/// The capacity of output `index` of a transaction, if there is one.
pub open spec fn output_capacity_at(outputs: Seq<CellOutput>, index: u32) -> Option<u64> {
    if index < outputs.len() {
        Some(outputs[index as int].capacity.shannons)
    } else {
        None
    }
}

/// The capacity an outpoint resolves to: from the pool slice when its
/// transaction hash names a pool entry, otherwise from the persistent store.
/// Only a cell reference carries capacity.
pub open spec fn resolve_capacity(
    txs: Seq<PoolEntry>,
    store: Map<H256, Transaction>,
    op: OutPoint,
) -> Option<u64> {
    match op.cell {
        None => None,
        Some(cop) => match find_entry(txs, cop.tx_hash, 0) {
            Some(i) => output_capacity_at(txs[i].transaction.outputs@, cop.index),
            None => if store.contains_key(cop.tx_hash) {
                output_capacity_at(store[cop.tx_hash].outputs@, cop.index)
            } else {
                None
            },
        },
    }
}

/// Checked summation of the resolved capacities of `inputs[i..]` on top of
/// `acc`: the first unresolvable input fails with `InvalidInput`, the first
/// overflowing addition with `Arithmetic`.
pub open spec fn sum_inputs_from(
    txs: Seq<PoolEntry>,
    store: Map<H256, Transaction>,
    inputs: Seq<CellInput>,
    i: int,
    acc: u64,
) -> Result<u64, Error>
    decreases inputs.len() - i,
{
    if i < 0 || i >= inputs.len() {
        Ok(acc)
    } else {
        match resolve_capacity(txs, store, inputs[i].previous_output) {
            None => Err(Error::InvalidInput),
            Some(c) => if acc + c > u64::MAX {
                Err(Error::Arithmetic)
            } else {
                sum_inputs_from(txs, store, inputs, i + 1, (acc + c) as u64)
            },
        }
    }
}

/// Checked summation of the capacities of `outputs[i..]` on top of `acc`.
pub open spec fn sum_outputs_from(outputs: Seq<CellOutput>, i: int, acc: u64) -> Result<
    u64,
    Error,
>
    decreases outputs.len() - i,
{
    if i < 0 || i >= outputs.len() {
        Ok(acc)
    } else if acc + outputs[i].capacity.shannons > u64::MAX {
        Err(Error::Arithmetic)
    } else {
        sum_outputs_from(outputs, i + 1, (acc + outputs[i].capacity.shannons) as u64)
    }
}

/// The fee of `tx` against the pool slice `txs` and the store: checked input
/// total minus checked output total, `InvalidOutput` when the outputs exceed
/// the inputs.
pub open spec fn spec_transaction_fee(
    txs: Seq<PoolEntry>,
    store: Map<H256, Transaction>,
    tx: Transaction,
) -> Result<u64, Error> {
    match sum_inputs_from(txs, store, tx.inputs@, 0, 0) {
        Err(e) => Err(e),
        Ok(input_total) => match sum_outputs_from(tx.outputs@, 0, 0) {
            Err(e) => Err(e),
            Ok(output_total) => if output_total > input_total {
                Err(Error::InvalidOutput)
            } else {
                Ok((input_total - output_total) as u64)
            },
        },
    }
}

/// Checked summation of the fees of `txs[i..]` on top of `acc`: the first
/// entry whose fee accounting fails decides the error, and an overflowing
/// addition of fees fails with `Arithmetic`.
pub open spec fn sum_fees_from(
    txs: Seq<PoolEntry>,
    store: Map<H256, Transaction>,
    i: int,
    acc: u64,
) -> Result<u64, Error>
    decreases txs.len() - i,
{
    if i < 0 || i >= txs.len() {
        Ok(acc)
    } else {
        match spec_transaction_fee(txs, store, txs[i].transaction) {
            Err(e) => Err(e),
            Ok(f) => if acc + f > u64::MAX {
                Err(Error::Arithmetic)
            } else {
                sum_fees_from(txs, store, i + 1, (acc + f) as u64)
            },
        }
    }
}

/// Input summation fails only with `InvalidInput` or `Arithmetic`.
pub proof fn lemma_sum_inputs_err(
    txs: Seq<PoolEntry>,
    store: Map<H256, Transaction>,
    inputs: Seq<CellInput>,
    i: int,
    acc: u64,
)
    ensures
        sum_inputs_from(txs, store, inputs, i, acc) matches Err(e) ==> e == Error::InvalidInput
            || e == Error::Arithmetic,
    decreases inputs.len() - i,
{
    if 0 <= i < inputs.len() {
        match resolve_capacity(txs, store, inputs[i].previous_output) {
            None => {},
            Some(c) => {
                if acc + c <= u64::MAX {
                    lemma_sum_inputs_err(txs, store, inputs, i + 1, (acc + c) as u64);
                }
            },
        }
    }
}

/// Output summation fails only with `Arithmetic`.
pub proof fn lemma_sum_outputs_err(outputs: Seq<CellOutput>, i: int, acc: u64)
    ensures
        sum_outputs_from(outputs, i, acc) matches Err(e) ==> e == Error::Arithmetic,
    decreases outputs.len() - i,
{
    if 0 <= i < outputs.len() {
        if acc + outputs[i].capacity.shannons <= u64::MAX {
            lemma_sum_outputs_err(outputs, i + 1, (acc + outputs[i].capacity.shannons) as u64);
        }
    }
}

/// Fee accounting fails only with `InvalidInput`, `InvalidOutput` or
/// `Arithmetic`.
pub proof fn lemma_transaction_fee_err(
    txs: Seq<PoolEntry>,
    store: Map<H256, Transaction>,
    tx: Transaction,
)
    ensures
        spec_transaction_fee(txs, store, tx) matches Err(e) ==> e == Error::InvalidInput || e
            == Error::InvalidOutput || e == Error::Arithmetic,
{
    lemma_sum_inputs_err(txs, store, tx.inputs@, 0, 0);
    lemma_sum_outputs_err(tx.outputs@, 0, 0);
}

/// Fee summation over a pool slice fails only with `InvalidInput`,
/// `InvalidOutput` or `Arithmetic`.
pub proof fn lemma_sum_fees_err(
    txs: Seq<PoolEntry>,
    store: Map<H256, Transaction>,
    i: int,
    acc: u64,
)
    ensures
        sum_fees_from(txs, store, i, acc) matches Err(e) ==> e == Error::InvalidInput || e
            == Error::InvalidOutput || e == Error::Arithmetic,
    decreases txs.len() - i,
{
    if 0 <= i < txs.len() {
        lemma_transaction_fee_err(txs, store, txs[i].transaction);
        match spec_transaction_fee(txs, store, txs[i].transaction) {
            Err(_) => {},
            Ok(f) => {
                if acc + f <= u64::MAX {
                    lemma_sum_fees_err(txs, store, i + 1, (acc + f) as u64);
                }
            },
        }
    }
}

/// Fee accounting for one template build: the ordered pool slice under
/// construction and the chain store to fall back on.
pub struct FeeCalculator<'a, P: ChainProvider> {
    pub txs: &'a Vec<PoolEntry>,
    pub provider: &'a P,
}

impl<'a, P: ChainProvider> FeeCalculator<'a, P> {
    /// An accounting context over `txs`, in template order.
    pub fn new(txs: &'a Vec<PoolEntry>, provider: &'a P) -> (r: Self)
        ensures
            r.txs == txs,
            r.provider == provider,
    {
        FeeCalculator { txs, provider }
    }

    /// The capacity `out_point` resolves to, if any: a pool entry of this
    /// build wins over the store.
    pub fn get_capacity(&self, out_point: &OutPoint) -> (r: Option<Capacity>)
        ensures
            match r {
                Some(c) => resolve_capacity(
                    self.txs@,
                    self.provider.store_txs(),
                    *out_point,
                ) == Some(c.shannons),
                None => resolve_capacity(self.txs@, self.provider.store_txs(), *out_point) is None,
            },
    {
        match out_point.cell {
            None => None,
            Some(cop) => {
                let n = self.txs.len();
                let mut j: usize = 0;
                while j < n && self.txs[j].transaction.hash != cop.tx_hash
                    invariant
                        n == self.txs@.len(),
                        0 <= j <= n,
                        find_entry(self.txs@, cop.tx_hash, 0) == find_entry(
                            self.txs@,
                            cop.tx_hash,
                            j as int,
                        ),
                    decreases n - j,
                {
                    j += 1;
                }
                if j < n {
                    proof {
                        assert(find_entry(self.txs@, cop.tx_hash, 0) == Some(j as int));
                    }
                    let tx = &self.txs[j].transaction;
                    if (cop.index as usize) < tx.outputs.len() {
                        Some(tx.outputs[cop.index as usize].capacity)
                    } else {
                        None
                    }
                } else {
                    proof {
                        assert(find_entry(self.txs@, cop.tx_hash, j as int) is None);
                    }
                    match self.provider.get_transaction(&cop.tx_hash) {
                        Some(tx) => {
                            if (cop.index as usize) < tx.outputs.len() {
                                Some(tx.outputs[cop.index as usize].capacity)
                            } else {
                                None
                            }
                        },
                        None => None,
                    }
                }
            },
        }
    }

    /// The fee of `transaction`, or the first failure the checked accounting
    /// runs into.
    pub fn calculate_transaction_fee(&self, transaction: &Transaction) -> (r: Result<
        Capacity,
        Error,
    >)
        ensures
            match spec_transaction_fee(self.txs@, self.provider.store_txs(), *transaction) {
                Ok(v) => r matches Ok(c) && c.shannons == v,
                Err(e) => r matches Err(e2) && e2 == e,
            },
    {
        let ghost store = self.provider.store_txs();
        let inputs = &transaction.inputs;
        let n = inputs.len();
        let mut fee = Capacity::zero();
        let mut i: usize = 0;
        while i < n
            invariant
                inputs == &transaction.inputs,
                n == inputs@.len(),
                0 <= i <= n,
                store == self.provider.store_txs(),
                sum_inputs_from(self.txs@, store, inputs@, 0, 0) == sum_inputs_from(
                    self.txs@,
                    store,
                    inputs@,
                    i as int,
                    fee.shannons,
                ),
            decreases n - i,
        {
            proof {
                assert(sum_inputs_from(self.txs@, store, inputs@, i as int, fee.shannons) == (
                match resolve_capacity(self.txs@, store, inputs@[i as int].previous_output) {
                    None => Err::<u64, Error>(Error::InvalidInput),
                    Some(c) => if fee.shannons + c > u64::MAX {
                        Err::<u64, Error>(Error::Arithmetic)
                    } else {
                        sum_inputs_from(
                            self.txs@,
                            store,
                            inputs@,
                            i + 1,
                            (fee.shannons + c) as u64,
                        )
                    },
                }));
            }
            match self.get_capacity(&inputs[i].previous_output) {
                Some(capacity) => {
                    match fee.safe_add(capacity) {
                        Some(s) => {
                            fee = s;
                        },
                        None => {
                            return Err(Error::Arithmetic);
                        },
                    }
                },
                None => {
                    return Err(Error::InvalidInput);
                },
            }
            i += 1;
        }
        let input_total = fee;
        proof {
            assert(sum_inputs_from(self.txs@, store, inputs@, 0, 0) == Ok::<u64, Error>(
                input_total.shannons,
            ));
        }
        let outputs = &transaction.outputs;
        let m = outputs.len();
        let mut spent = Capacity::zero();
        let mut k: usize = 0;
        while k < m
            invariant
                outputs == &transaction.outputs,
                m == outputs@.len(),
                0 <= k <= m,
                sum_inputs_from(
                    self.txs@,
                    self.provider.store_txs(),
                    transaction.inputs@,
                    0,
                    0,
                ) == Ok::<u64, Error>(input_total.shannons),
                sum_outputs_from(outputs@, 0, 0) == sum_outputs_from(
                    outputs@,
                    k as int,
                    spent.shannons,
                ),
            decreases m - k,
        {
            proof {
                assert(sum_outputs_from(outputs@, k as int, spent.shannons) == (if spent.shannons
                    + outputs@[k as int].capacity.shannons > u64::MAX {
                    Err::<u64, Error>(Error::Arithmetic)
                } else {
                    sum_outputs_from(
                        outputs@,
                        k + 1,
                        (spent.shannons + outputs@[k as int].capacity.shannons) as u64,
                    )
                }));
            }
            match spent.safe_add(outputs[k].capacity) {
                Some(s) => {
                    spent = s;
                },
                None => {
                    return Err(Error::Arithmetic);
                },
            }
            k += 1;
        }
        if spent.shannons > input_total.shannons {
            return Err(Error::InvalidOutput);
        }
        match input_total.safe_sub(spent) {
            Some(f) => Ok(f),
            None => Err(Error::Arithmetic),
        }
    }
}

} // verus!
