use block_assembler::{
    prepare_uncles, BlockAssembler, BlockAssemblerConfig, BlockTemplate, Capacity,
    CellbaseTemplate, ChainState, CellOutput, Consensus, EpochExt, Header, MemoryChain, PoolEntry,
    ProposalShortId, Script, TemplateCache, Transaction, UncleBlock, H256, U256,
};

fn unit_consensus() -> Consensus {
    Consensus {
        max_block_bytes: 2_000_000,
        max_block_proposals_limit: 1_500,
        block_version: 0,
        max_block_cycles: 100_000_000,
        max_uncles_num: 2,
        max_uncles_age: 6,
        proof_size: 0,
    }
}

fn unit_epoch() -> EpochExt {
    EpochExt {
        number: 0,
        difficulty: U256::from_u64(1_000),
        start_number: 0,
        length: 1_000,
        base_block_reward: Capacity { shannons: 50_000 },
        remainder_reward: 3,
    }
}

fn tip_at(number: u64) -> Header {
    Header {
        version: 0,
        number,
        timestamp: 10_000,
        epoch: 0,
        difficulty: U256::from_u64(1_000),
        parent_hash: H256::zero(),
        transactions_root: H256::zero(),
        nonce: 0,
        hash: H256::from_low_u64(500 + number),
    }
}

fn candidate(number: u64, epoch_number: u64, difficulty: U256, tag: u64) -> (H256, UncleBlock) {
    let hash = H256::from_low_u64(20_000 + tag);
    let header = Header {
        version: 0,
        number,
        timestamp: 10_000,
        epoch: epoch_number,
        difficulty,
        parent_hash: H256::zero(),
        transactions_root: H256::zero(),
        nonce: tag,
        hash,
    };
    (hash, UncleBlock { header, proposals: vec![] })
}

fn empty_template(number: &str) -> BlockTemplate {
    BlockTemplate {
        version: 0,
        difficulty: U256::from_u64(1_000),
        current_time: "10001".to_string(),
        number: number.to_string(),
        epoch: "0".to_string(),
        parent_hash: H256::zero(),
        cycles_limit: "100000000".to_string(),
        bytes_limit: "2000000".to_string(),
        uncles_count_limit: 2,
        uncles: vec![],
        transactions: vec![],
        proposals: vec![],
        cellbase: CellbaseTemplate {
            hash: H256::zero(),
            cycles: None,
            data: Transaction {
                version: 0,
                hash: H256::zero(),
                deps: vec![],
                inputs: vec![],
                outputs: vec![],
            },
        },
        work_id: "0".to_string(),
    }
}

#[test]
fn test_decimal_rendering_in_templates() {
    // The numeric envelope fields travel as decimal strings; drive the
    // rendering through a build, up to the largest 64-bit value.
    let consensus = Consensus { max_block_cycles: u64::MAX, ..unit_consensus() };
    let epoch = unit_epoch();
    let tip = tip_at(0);
    let chain = MemoryChain::new(consensus, tip, epoch);
    let mut assembler = BlockAssembler::new(
        &chain,
        BlockAssemblerConfig { code_hash: H256::zero(), args: vec![] },
    );
    let template = assembler
        .get_block_template(&chain, Some(1_234_567), None, None)
        .unwrap();
    assert_eq!(template.cycles_limit, "18446744073709551615".to_string());
    assert_eq!(template.bytes_limit, "1234567".to_string());
    assert_eq!(template.number, "1".to_string());
    assert_eq!(template.epoch, "0".to_string());
    assert_eq!(template.work_id, "0".to_string());
}

#[test]
fn test_capacity_checked_arithmetic() {
    let a = Capacity { shannons: u64::MAX - 1 };
    let b = Capacity { shannons: 2 };
    assert_eq!(a.safe_add(b), None);
    assert_eq!(a.safe_add(Capacity { shannons: 1 }), Some(Capacity { shannons: u64::MAX }));
    assert_eq!(b.safe_sub(a), None);
    assert_eq!(
        a.safe_sub(b),
        Some(Capacity { shannons: u64::MAX - 3 })
    );
}

#[test]
fn test_block_reward_schedule() {
    let epoch = unit_epoch();
    // The first `remainder_reward` blocks of the epoch earn one extra shannon.
    assert_eq!(epoch.block_reward(0).unwrap().shannons, 50_001);
    assert_eq!(epoch.block_reward(2).unwrap().shannons, 50_001);
    assert_eq!(epoch.block_reward(3).unwrap().shannons, 50_000);
    assert_eq!(epoch.block_reward(999).unwrap().shannons, 50_000);
}

#[test]
fn test_uncle_depth_boundaries() {
    let consensus = unit_consensus();
    let epoch = unit_epoch();
    let tip = tip_at(8);
    let chain = MemoryChain::new(consensus, tip, epoch);

    let eligible = candidate(8, 0, epoch.difficulty, 1);  // depth 1
    let too_new = candidate(9, 0, epoch.difficulty, 2);  // depth 0
    let too_old = candidate(2, 0, epoch.difficulty, 3);  // depth 7 = max_uncles_age + 1

    let (selected, bad) = prepare_uncles(
        &chain,
        &tip,
        &epoch,
        vec![eligible.clone(), too_new.clone(), too_old.clone()],
        consensus.max_uncles_num,
        consensus.max_uncles_age,
    );
    assert_eq!(selected.len(), 1);
    assert_eq!(selected[0].header.hash, eligible.0);
    assert!(bad.contains(&too_new.0));
    assert!(bad.contains(&too_old.0));
    assert!(!bad.contains(&eligible.0));
}

#[test]
fn test_uncle_epoch_mismatch_is_bad() {
    let consensus = unit_consensus();
    let epoch = unit_epoch();
    let tip = tip_at(8);
    let chain = MemoryChain::new(consensus, tip, epoch);

    let wrong_epoch = candidate(8, 1, epoch.difficulty, 4);
    let wrong_difficulty = candidate(8, 0, U256::from_u64(999), 5);
    let duplicate_a = candidate(7, 0, epoch.difficulty, 6);
    let duplicate_b = (duplicate_a.0, duplicate_a.1.clone());

    let (selected, bad) = prepare_uncles(
        &chain,
        &tip,
        &epoch,
        vec![wrong_epoch.clone(), wrong_difficulty.clone(), duplicate_a, duplicate_b],
        consensus.max_uncles_num,
        consensus.max_uncles_age,
    );
    assert_eq!(selected.len(), 1);
    assert!(bad.contains(&wrong_epoch.0));
    assert!(bad.contains(&wrong_difficulty.0));
}

#[test]
fn test_prepare_uncles_empty_candidates() {
    let consensus = unit_consensus();
    let epoch = unit_epoch();
    let tip = tip_at(8);
    let chain = MemoryChain::new(consensus, tip, epoch);
    let (selected, bad) = prepare_uncles(
        &chain,
        &tip,
        &epoch,
        vec![],
        consensus.max_uncles_num,
        consensus.max_uncles_age,
    );
    assert!(selected.is_empty());
    assert!(bad.is_empty());
}

#[test]
fn test_prepare_uncles_respects_count_limit() {
    let consensus = unit_consensus();
    let epoch = unit_epoch();
    let tip = tip_at(8);
    let chain = MemoryChain::new(consensus, tip, epoch);
    let cands: Vec<_> = (0..5u64).map(|i| candidate(8, 0, epoch.difficulty, 30 + i)).collect();
    let (selected, _bad) = prepare_uncles(
        &chain,
        &tip,
        &epoch,
        cands,
        consensus.max_uncles_num,
        consensus.max_uncles_age,
    );
    assert_eq!(selected.len(), consensus.max_uncles_num);
}

#[test]
fn test_is_outdate_rules() {
    let entry = TemplateCache {
        time: 10_000,
        uncles_updated_at: 5,
        txs_updated_at: 9,
        template: empty_template("3"),
    };
    let number = "3".to_string();
    // Everything matches: fresh.
    assert!(!entry.is_outdate(5, 9, 10_000, &number));
    // Uncle watermark moved: stale at once.
    assert!(entry.is_outdate(6, 9, 10_000, &number));
    // Mempool moved, but still within the grace period.
    assert!(!entry.is_outdate(5, 10, 13_000, &number));
    // Mempool moved and the grace period has passed.
    assert!(entry.is_outdate(5, 10, 13_001, &number));
    // Another block number: stale at once.
    assert!(entry.is_outdate(5, 9, 10_000, &"4".to_string()));
}

#[test]
fn test_txs_size_limit_budget() {
    let consensus = unit_consensus();
    let epoch = unit_epoch();
    let tip = tip_at(0);
    let chain = MemoryChain::new(consensus, tip, epoch);
    let assembler = BlockAssembler::new(
        &chain,
        BlockAssemblerConfig { code_hash: H256::zero(), args: vec![] },
    );
    let uncles: Vec<UncleBlock> = vec![];
    // The modelled header occupies 208 bytes, each proposal id 10.
    assert_eq!(assembler.calculate_txs_size_limit(1_000, &uncles, 2), Ok(772));
    assert_eq!(
        assembler.calculate_txs_size_limit(228, &uncles, 2),
        Err(block_assembler::Error::Configuration)
    );
}

#[test]
fn test_staging_snapshot_fits_budgets() {
    let consensus = unit_consensus();
    let epoch = unit_epoch();
    let tip = tip_at(0);
    let mut chain = MemoryChain::new(consensus, tip, epoch);
    let tx = |n: u64| Transaction {
        version: 0,
        hash: H256::from_low_u64(40_000 + n),
        deps: vec![],
        inputs: vec![],
        outputs: vec![CellOutput {
            capacity: Capacity { shannons: 1 },
            data: vec![],
            lock: Script { args: vec![], code_hash: H256::zero() },
            type_script: None,
        }],
    };
    chain.add_pool_entry(PoolEntry { transaction: tx(1), cycles: Some(10), size: 600 }, 1);
    chain.add_pool_entry(PoolEntry { transaction: tx(2), cycles: Some(10), size: 600 }, 2);
    let staged = chain.get_staging_txs(1_000, 1_000_000);
    assert_eq!(staged.len(), 1);
    assert_eq!(staged[0].transaction.hash, H256::from_low_u64(40_001));
    let by_cycles = chain.get_staging_txs(10_000, 15);
    assert_eq!(by_cycles.len(), 1);
}

#[test]
fn test_proposals_respect_limit() {
    let consensus = unit_consensus();
    let epoch = unit_epoch();
    let tip = tip_at(0);
    let mut chain = MemoryChain::new(consensus, tip, epoch);
    for i in 0..5u8 {
        chain.add_proposal(ProposalShortId::new([i; 10]));
    }
    let proposals = chain.get_proposals(3);
    assert_eq!(proposals.len(), 3);
    assert_eq!(proposals[0], ProposalShortId::new([0; 10]));
}
