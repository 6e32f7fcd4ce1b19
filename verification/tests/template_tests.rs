use block_assembler::{
    Block, BlockAssembler, BlockAssemblerConfig, Capacity, CellInput, CellOutput, Consensus,
    EpochExt, Error, Header, MemoryChain, OutPoint, PoolEntry, ProposalShortId, Script,
    Transaction, UncleBlock, H256, U256,
};

fn test_consensus() -> Consensus {
    Consensus {
        max_block_bytes: 2_000_000,
        max_block_proposals_limit: 1_500,
        block_version: 0,
        max_block_cycles: 100_000_000,
        max_uncles_num: 2,
        max_uncles_age: 6,
        proof_size: 0,
    }
}

fn genesis_epoch(length: u64) -> EpochExt {
    EpochExt {
        number: 0,
        difficulty: U256::from_u64(1_000),
        start_number: 0,
        length,
        base_block_reward: Capacity { shannons: 50_000 },
        remainder_reward: 0,
    }
}

fn genesis_header() -> Header {
    Header {
        version: 0,
        number: 0,
        timestamp: 10_000,
        epoch: 0,
        difficulty: U256::from_u64(1_000),
        parent_hash: H256::zero(),
        transactions_root: H256::zero(),
        nonce: 0,
        hash: H256 { w0: 7, w1: 7, w2: 7, w3: 0 },
    }
}

fn empty_script() -> Script {
    Script { args: vec![], code_hash: H256::zero() }
}

fn create_cellbase(number: u64, epoch: &EpochExt) -> Transaction {
    Transaction {
        version: 0,
        hash: H256 { w0: number, w1: 99, w2: 0, w3: 2 },
        deps: vec![],
        inputs: vec![CellInput::new_cellbase_input(number)],
        outputs: vec![CellOutput {
            capacity: epoch.block_reward(number).unwrap(),
            data: vec![],
            lock: empty_script(),
            type_script: None,
        }],
    }
}

fn gen_block(parent: &Header, nonce: u64, epoch: &EpochExt) -> Block {
    let number = parent.number + 1;
    let header = Header {
        version: 0,
        number,
        timestamp: parent.timestamp + 10,
        epoch: epoch.number,
        difficulty: epoch.difficulty,
        parent_hash: parent.hash,
        transactions_root: H256::zero(),
        nonce,
        hash: H256 { w0: number, w1: nonce, w2: parent.hash.w0, w3: 0 },
    };
    Block {
        header,
        uncles: vec![],
        transactions: vec![create_cellbase(number, epoch)],
        proposals: vec![ProposalShortId::new([1; 10])],
    }
}

fn fresh_chain() -> (MemoryChain, Header, EpochExt) {
    let consensus = test_consensus();
    let epoch = genesis_epoch(1_000);
    let genesis = genesis_header();
    let chain = MemoryChain::new(consensus, genesis, epoch);
    (chain, genesis, epoch)
}

fn config() -> BlockAssemblerConfig {
    BlockAssemblerConfig { code_hash: H256::zero(), args: vec![] }
}

#[test]
fn test_get_block_template() {
    let (chain, genesis, epoch) = fresh_chain();
    let mut assembler = BlockAssembler::new(&chain, config());
    let template = assembler.get_block_template(&chain, None, None, None).unwrap();

    assert_eq!(template.number, "1".to_string());
    assert_eq!(template.parent_hash, genesis.hash);
    assert_eq!(template.version, 0);
    assert_eq!(template.epoch, "0".to_string());
    assert!(template.uncles.is_empty());
    assert!(template.transactions.is_empty());
    assert!(template.proposals.is_empty());
    assert_eq!(template.difficulty, epoch.difficulty);
    assert_eq!(template.cycles_limit, "100000000".to_string());
    assert_eq!(template.bytes_limit, "2000000".to_string());
    assert_eq!(template.uncles_count_limit, 2);
    let current_time: u64 = template.current_time.parse().unwrap();
    assert!(current_time > genesis.timestamp);
    let cellbase = &template.cellbase.data;
    assert_eq!(cellbase.inputs.len(), 1);
    assert_eq!(cellbase.inputs[0].since, 1);
    assert_eq!(cellbase.outputs.len(), 1);
    assert_eq!(cellbase.outputs[0].capacity.shannons, 50_000);
}

#[test]
fn test_prepare_uncles() {
    let consensus = test_consensus();
    let epoch = genesis_epoch(4);
    let genesis = genesis_header();
    let mut chain = MemoryChain::new(consensus, genesis, epoch);
    let genesis_block = Block {
        header: genesis,
        uncles: vec![],
        transactions: vec![create_cellbase(0, &epoch)],
        proposals: vec![],
    };
    chain.insert_block(genesis_block);

    let block0_0 = gen_block(&genesis, 11, &epoch);
    let block0_1 = gen_block(&genesis, 10, &epoch);
    let block1_1 = gen_block(&block0_1.header, 10, &epoch);

    chain.insert_block(block0_1.clone());
    chain.insert_block(block0_0.clone());
    chain.insert_block(block1_1.clone());
    chain.set_tip(block1_1.header, epoch);

    let mut assembler = BlockAssembler::new(&chain, config());
    assembler.handle_new_uncle(UncleBlock {
        header: block0_0.header,
        proposals: block0_0.proposals.clone(),
    });

    // Block number 3, epoch 0: the sibling of a stored ancestor is eligible.
    let template = assembler.get_block_template(&chain, None, None, None).unwrap();
    assert_eq!(template.uncles.len(), 1);
    assert_eq!(template.uncles[0].hash, block0_0.header.hash);

    // Build on: block number 4 opens epoch 1, so the candidate goes stale.
    let block2_1 = gen_block(&block1_1.header, 10, &epoch);
    chain.insert_block(block2_1.clone());
    chain.set_tip(block2_1.header, epoch);

    let template = assembler.get_block_template(&chain, None, None, None).unwrap();
    assert!(template.uncles.is_empty());
    assert!(!assembler.candidate_uncles.contains_key(&block0_0.header.hash));
}

#[test]
fn test_fee_flows_to_cellbase() {
    let (mut chain, _genesis, _epoch) = fresh_chain();
    let stored = Transaction {
        version: 0,
        hash: H256::from_low_u64(1_001),
        deps: vec![],
        inputs: vec![],
        outputs: vec![CellOutput {
            capacity: Capacity { shannons: 100 },
            data: vec![],
            lock: empty_script(),
            type_script: None,
        }],
    };
    chain.insert_transaction(stored.clone());
    let spender = Transaction {
        version: 0,
        hash: H256::from_low_u64(1_002),
        deps: vec![],
        inputs: vec![CellInput { previous_output: OutPoint::new_cell(stored.hash, 0), since: 0 }],
        outputs: vec![CellOutput {
            capacity: Capacity { shannons: 90 },
            data: vec![],
            lock: empty_script(),
            type_script: None,
        }],
    };
    chain.add_pool_entry(PoolEntry { transaction: spender, cycles: Some(10), size: 100 }, 1);

    let mut assembler = BlockAssembler::new(&chain, config());
    let template = assembler.get_block_template(&chain, None, None, None).unwrap();
    assert_eq!(template.transactions.len(), 1);
    assert_eq!(template.cellbase.data.outputs[0].capacity.shannons, 50_000 + 10);
}

#[test]
fn test_chained_in_template_fees() {
    let (mut chain, _genesis, _epoch) = fresh_chain();
    let stored = Transaction {
        version: 0,
        hash: H256::from_low_u64(2_001),
        deps: vec![],
        inputs: vec![],
        outputs: vec![CellOutput {
            capacity: Capacity { shannons: 100 },
            data: vec![],
            lock: empty_script(),
            type_script: None,
        }],
    };
    chain.insert_transaction(stored.clone());
    let tx_a = Transaction {
        version: 0,
        hash: H256::from_low_u64(2_002),
        deps: vec![],
        inputs: vec![CellInput { previous_output: OutPoint::new_cell(stored.hash, 0), since: 0 }],
        outputs: vec![CellOutput {
            capacity: Capacity { shannons: 50 },
            data: vec![],
            lock: empty_script(),
            type_script: None,
        }],
    };
    let tx_b = Transaction {
        version: 0,
        hash: H256::from_low_u64(2_003),
        deps: vec![],
        inputs: vec![CellInput { previous_output: OutPoint::new_cell(tx_a.hash, 0), since: 0 }],
        outputs: vec![CellOutput {
            capacity: Capacity { shannons: 30 },
            data: vec![],
            lock: empty_script(),
            type_script: None,
        }],
    };
    chain.add_pool_entry(PoolEntry { transaction: tx_a, cycles: Some(10), size: 100 }, 1);
    chain.add_pool_entry(PoolEntry { transaction: tx_b, cycles: Some(10), size: 100 }, 2);

    let mut assembler = BlockAssembler::new(&chain, config());
    let template = assembler.get_block_template(&chain, None, None, None).unwrap();
    assert_eq!(template.transactions.len(), 2);
    // fee(A) = 100 - 50 = 50, fee(B) = 50 - 30 = 20, resolved in-template.
    assert_eq!(template.cellbase.data.outputs[0].capacity.shannons, 50_000 + 70);
}

#[test]
fn test_template_cache_hit() {
    let (chain, _genesis, _epoch) = fresh_chain();
    let mut assembler = BlockAssembler::new(&chain, config());
    let first = assembler.get_block_template(&chain, None, None, None).unwrap();
    let second = assembler.get_block_template(&chain, None, None, None).unwrap();
    assert_eq!(first, second);
    assert_eq!(first.work_id, second.work_id);
}

#[test]
fn test_over_limit_params_equal_none() {
    let (chain, _genesis, _epoch) = fresh_chain();
    let consensus = test_consensus();
    let mut assembler = BlockAssembler::new(&chain, config());
    let first = assembler.get_block_template(&chain, None, None, None).unwrap();
    let second = assembler
        .get_block_template(
            &chain,
            Some(consensus.max_block_bytes + 1),
            Some(consensus.max_block_proposals_limit + 1),
            Some(consensus.block_version),
        )
        .unwrap();
    assert_eq!(first, second);
}

#[test]
fn test_work_id_increases_across_builds() {
    let (chain, genesis, _epoch) = fresh_chain();
    let mut assembler = BlockAssembler::new(&chain, config());
    let first = assembler.get_block_template(&chain, None, None, None).unwrap();
    // An uncle notification moves the uncle watermark, forcing a rebuild.
    let stale_uncle = UncleBlock {
        header: Header { number: 1, hash: H256::from_low_u64(404), ..genesis },
        proposals: vec![],
    };
    assembler.handle_new_uncle(stale_uncle);
    let second = assembler.get_block_template(&chain, None, None, None).unwrap();
    assert_eq!(first.work_id, "0".to_string());
    assert_eq!(second.work_id, "1".to_string());
    let w1: u64 = first.work_id.parse().unwrap();
    let w2: u64 = second.work_id.parse().unwrap();
    assert!(w1 < w2);
}

#[test]
fn test_candidate_cache_evicts_lru_at_43() {
    let (chain, genesis, _epoch) = fresh_chain();
    let mut assembler = BlockAssembler::new(&chain, config());
    for i in 0..43u64 {
        let uncle = UncleBlock {
            header: Header { number: 1, hash: H256::from_low_u64(10_000 + i), ..genesis },
            proposals: vec![],
        };
        assembler.handle_new_uncle(uncle);
    }
    assert_eq!(assembler.candidate_uncles.len(), 42);
    assert!(!assembler.candidate_uncles.contains_key(&H256::from_low_u64(10_000)));
    assert!(assembler.candidate_uncles.contains_key(&H256::from_low_u64(10_000 + 42)));
}

#[test]
fn test_candidate_cache_bumps_on_reinsert() {
    let (chain, genesis, _epoch) = fresh_chain();
    let mut assembler = BlockAssembler::new(&chain, config());
    let uncle_at = |i: u64| UncleBlock {
        header: Header { number: 1, hash: H256::from_low_u64(30_000 + i), ..genesis },
        proposals: vec![],
    };
    for i in 0..42u64 {
        assembler.handle_new_uncle(uncle_at(i));
    }
    // Re-ingesting the oldest candidate bumps it to most recently used.
    assembler.handle_new_uncle(uncle_at(0));
    assert_eq!(assembler.candidate_uncles.len(), 42);
    // The 43rd distinct candidate now drops the second-oldest instead.
    assembler.handle_new_uncle(uncle_at(42));
    assert_eq!(assembler.candidate_uncles.len(), 42);
    assert!(assembler.candidate_uncles.contains_key(&H256::from_low_u64(30_000)));
    assert!(!assembler.candidate_uncles.contains_key(&H256::from_low_u64(30_001)));
}

#[test]
fn test_template_cache_holds_ten_keys() {
    let (chain, _genesis, _epoch) = fresh_chain();
    let mut assembler = BlockAssembler::new(&chain, config());
    // Eleven distinct byte limits form eleven distinct cache keys; the
    // first key's entry is the least recently used and leaves.
    for i in 0..11u64 {
        let t = assembler
            .get_block_template(&chain, Some(1_000_000 + i), None, None)
            .unwrap();
        assert_eq!(t.work_id, i.to_string());
    }
    assert_eq!(assembler.template_caches.len(), 10);
    // The evicted key rebuilds; a surviving key is still served memoized.
    let rebuilt = assembler.get_block_template(&chain, Some(1_000_000), None, None).unwrap();
    assert_eq!(rebuilt.work_id, "11".to_string());
    let cached = assembler.get_block_template(&chain, Some(1_000_010), None, None).unwrap();
    assert_eq!(cached.work_id, "10".to_string());
}

#[test]
fn test_configuration_error_on_tiny_bytes_limit() {
    let (chain, _genesis, _epoch) = fresh_chain();
    let mut assembler = BlockAssembler::new(&chain, config());
    let result = assembler.get_block_template(&chain, Some(10), None, None);
    assert_eq!(result, Err(Error::Configuration));
}

#[test]
fn test_invalid_input_error_propagates() {
    let (mut chain, _genesis, _epoch) = fresh_chain();
    let orphan = Transaction {
        version: 0,
        hash: H256::from_low_u64(3_001),
        deps: vec![],
        inputs: vec![CellInput {
            previous_output: OutPoint::new_cell(H256::from_low_u64(9_999), 0),
            since: 0,
        }],
        outputs: vec![],
    };
    chain.add_pool_entry(PoolEntry { transaction: orphan, cycles: Some(10), size: 100 }, 1);
    let mut assembler = BlockAssembler::new(&chain, config());
    let result = assembler.get_block_template(&chain, None, None, None);
    assert_eq!(result, Err(Error::InvalidInput));
}

#[test]
fn test_invalid_output_error_propagates() {
    let (mut chain, _genesis, _epoch) = fresh_chain();
    let stored = Transaction {
        version: 0,
        hash: H256::from_low_u64(4_001),
        deps: vec![],
        inputs: vec![],
        outputs: vec![CellOutput {
            capacity: Capacity { shannons: 100 },
            data: vec![],
            lock: empty_script(),
            type_script: None,
        }],
    };
    chain.insert_transaction(stored.clone());
    let overspender = Transaction {
        version: 0,
        hash: H256::from_low_u64(4_002),
        deps: vec![],
        inputs: vec![CellInput { previous_output: OutPoint::new_cell(stored.hash, 0), since: 0 }],
        outputs: vec![CellOutput {
            capacity: Capacity { shannons: 150 },
            data: vec![],
            lock: empty_script(),
            type_script: None,
        }],
    };
    chain.add_pool_entry(PoolEntry { transaction: overspender, cycles: Some(10), size: 100 }, 1);
    let mut assembler = BlockAssembler::new(&chain, config());
    let result = assembler.get_block_template(&chain, None, None, None);
    assert_eq!(result, Err(Error::InvalidOutput));
}

#[test]
fn test_arithmetic_error_on_reward_overflow() {
    let consensus = test_consensus();
    let epoch = EpochExt {
        number: 0,
        difficulty: U256::from_u64(1_000),
        start_number: 0,
        length: 1_000,
        base_block_reward: Capacity { shannons: u64::MAX },
        remainder_reward: 1_000,
    };
    let genesis = genesis_header();
    let chain = MemoryChain::new(consensus, genesis, epoch);
    let mut assembler = BlockAssembler::new(&chain, config());
    let result = assembler.get_block_template(&chain, None, None, None);
    assert_eq!(result, Err(Error::Arithmetic));
}
