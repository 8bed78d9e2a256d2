use log3_lib::decode::decode_console_logs;
use log3_lib::dispatch::{
    configure_env_for_executor, dispatch_kind, evm_spec, relax_transaction, replay_request,
    scale_gas, target_request, BlockContext, DispatchKind, EvmVersion, Relaxation, SpecId,
};
use log3_lib::error::SimulationError;
use log3_lib::reconstruct::prepare_fork_state_plain;
use log3_lib::transaction::{Block, Transaction};
use log3_lib::word::{Address, H256, U256};

fn account(last: u8) -> Address {
    let mut bytes = [0u8; 20];
    bytes[19] = last;
    Address { bytes }
}

fn hash(last: u8) -> H256 {
    let mut bytes = [0u8; 32];
    bytes[31] = last;
    H256 { bytes }
}

fn mined(index: u64, to: Option<Address>) -> Transaction {
    Transaction {
        hash: hash(index as u8),
        block_hash: Some(hash(200)),
        block_number: Some(17),
        transaction_index: Some(index),
        from: account(100),
        to,
        input: vec![0xde, 0xad, index as u8],
        gas: U256::from_u64(21_000),
        gas_price: Some(U256::from_u64(30_000_000_000)),
        max_priority_fee_per_gas: None,
        max_fee_per_gas: Some(U256::from_u64(40_000_000_000)),
        value: U256::from_u64(5),
        nonce: U256::from_u64(index),
    }
}

fn block_of(transactions: Vec<Transaction>) -> Block {
    Block {
        timestamp: U256::from_u64(1_700_000_000),
        author: Some(account(50)),
        difficulty: U256::from_u64(0),
        mix_hash: Some(hash(99)),
        gas_limit: U256::from_u64(30_000_000),
        transactions,
    }
}

fn context() -> BlockContext {
    configure_env_for_executor(17, &block_of(vec![]), &Relaxation::standard()).unwrap()
}

#[test]
fn a_recipient_means_a_call_and_none_means_a_creation() {
    assert_eq!(dispatch_kind(&mined(0, Some(account(1)))), DispatchKind::Call);
    assert_eq!(dispatch_kind(&mined(0, None)), DispatchKind::Create);
}

#[test]
fn the_standard_relaxation_is_one_and_two_thousand() {
    assert_eq!(Relaxation::standard(), Relaxation { nominal_fee: 1, base_fee: 1, gas_limit_factor: 2000 });
    assert_eq!(Relaxation::default(), Relaxation::standard());
}

#[test]
fn the_block_context_copies_the_block_and_relaxes_fee_and_gas() {
    let got = configure_env_for_executor(17, &block_of(vec![]), &Relaxation::standard());
    assert_eq!(
        got,
        Ok(BlockContext {
            number: 17,
            timestamp: U256::from_u64(1_700_000_000),
            coinbase: account(50),
            difficulty: U256::from_u64(0),
            prevrandao: Some(hash(99)),
            basefee: U256::from_u64(1),
            gas_limit: 60_000_000_000,
        })
    );
}

#[test]
fn a_block_without_author_pays_the_zero_address() {
    let mut block = block_of(vec![]);
    block.author = None;
    block.mix_hash = None;
    let got = configure_env_for_executor(1, &block, &Relaxation { nominal_fee: 1, base_fee: 7, gas_limit_factor: 3 }).unwrap();
    assert_eq!(got.coinbase, Address { bytes: [0u8; 20] });
    assert_eq!(got.prevrandao, None);
    assert_eq!(got.basefee, U256::from_u64(7));
    assert_eq!(got.gas_limit, 90_000_000);
}

#[test]
fn a_gas_limit_that_leaves_64_bits_is_an_unsupported_chain() {
    let mut block = block_of(vec![]);
    block.gas_limit = U256::from_u64(u64::MAX / 2000 + 1);
    assert_eq!(
        configure_env_for_executor(17, &block, &Relaxation::standard()),
        Err(SimulationError::UnsupportedChainConfig)
    );
    block.gas_limit = U256::from_u64(u64::MAX / 2000);
    assert_eq!(
        configure_env_for_executor(17, &block, &Relaxation::standard()).unwrap().gas_limit,
        (u64::MAX / 2000) * 2000
    );
}

#[test]
fn gas_is_scaled_exactly_or_not_at_all() {
    assert_eq!(scale_gas(&U256::from_u64(21_000), 2000), Some(42_000_000));
    assert_eq!(scale_gas(&U256::from_u64(u64::MAX), 1), Some(u64::MAX));
    assert_eq!(scale_gas(&U256::from_u64(u64::MAX), 2), None);
    assert_eq!(scale_gas(&U256 { hi: 1, lo: 0 }, 1), None);
    assert_eq!(scale_gas(&U256 { hi: 1, lo: 0 }, 0), Some(0));
    assert_eq!(scale_gas(&U256::from_u64(0), u64::MAX), Some(0));
}

#[test]
fn only_four_versions_of_the_rules_are_supported() {
    assert_eq!(evm_spec(&EvmVersion::Istanbul), Ok(SpecId::Istanbul));
    assert_eq!(evm_spec(&EvmVersion::Berlin), Ok(SpecId::Berlin));
    assert_eq!(evm_spec(&EvmVersion::London), Ok(SpecId::London));
    assert_eq!(evm_spec(&EvmVersion::Paris), Ok(SpecId::Merge));
    for version in [
        EvmVersion::Homestead,
        EvmVersion::TangerineWhistle,
        EvmVersion::SpuriousDragon,
        EvmVersion::Byzantium,
        EvmVersion::Constantinople,
        EvmVersion::Petersburg,
        EvmVersion::Shanghai,
    ] {
        assert_eq!(evm_spec(&version), Err(SimulationError::UnsupportedChainConfig));
    }
}

#[test]
fn relaxing_forces_the_three_fees_and_keeps_the_record() {
    let record = mined(1, Some(account(1)));
    let copy = relax_transaction(&record, &Relaxation::standard());
    let mut expected = mined(1, Some(account(1)));
    expected.gas_price = Some(U256::from_u64(1));
    expected.max_priority_fee_per_gas = Some(U256::from_u64(1));
    expected.max_fee_per_gas = Some(U256::from_u64(1));
    assert_eq!(copy, expected);
    assert_eq!(record, mined(1, Some(account(1))));
}

#[test]
fn the_target_runs_relaxed_with_its_gas_times_the_factor() {
    let record = mined(1, Some(account(1)));
    let request = target_request(&context(), &record, &Relaxation::standard()).unwrap();
    assert_eq!(request.gas_limit, 42_000_000);
    assert_eq!(request.kind, DispatchKind::Call);
    assert_eq!(request.block, context());
    assert_eq!(request.tx, relax_transaction(&record, &Relaxation::standard()));
}

#[test]
fn a_creation_runs_as_a_creation() {
    let request = target_request(&context(), &mined(1, None), &Relaxation::standard()).unwrap();
    assert_eq!(request.kind, DispatchKind::Create);
    let request = replay_request(&context(), &mined(0, None)).unwrap();
    assert_eq!(request.kind, DispatchKind::Create);
}

#[test]
fn a_replayed_transaction_runs_as_the_chain_ran_it() {
    let record = mined(0, Some(account(1)));
    let request = replay_request(&context(), &record).unwrap();
    assert_eq!(request.gas_limit, 21_000);
    assert_eq!(request.kind, DispatchKind::Call);
    assert_eq!(request.tx, record);
}

#[test]
fn gas_that_cannot_be_scaled_fails_the_execution() {
    let mut record = mined(1, Some(account(1)));
    record.gas = U256::from_u64(u64::MAX / 2000 + 1);
    assert_eq!(target_request(&context(), &record, &Relaxation::standard()), Err(SimulationError::Execution));
    assert!(replay_request(&context(), &record).is_ok());
    record.gas = U256 { hi: 0, lo: 1u128 << 64 };
    assert_eq!(replay_request(&context(), &record), Err(SimulationError::Execution));
}

#[test]
fn the_transactions_before_the_target_are_replayed_in_order() {
    let block = block_of(vec![mined(0, None), mined(1, Some(account(1))), mined(2, None), mined(3, None)]);
    assert_eq!(prepare_fork_state_plain(&block, 2), Ok(vec![mined(0, None), mined(1, Some(account(1)))]));
    assert_eq!(prepare_fork_state_plain(&block, 0), Ok(vec![]));
    assert_eq!(prepare_fork_state_plain(&block_of(vec![]), 5), Ok(vec![]));
}

#[test]
fn the_replay_stops_at_the_target_and_skips_later_places() {
    let block = block_of(vec![mined(0, None), mined(5, None), mined(1, None), mined(2, None), mined(1, None)]);
    assert_eq!(prepare_fork_state_plain(&block, 2), Ok(vec![mined(0, None), mined(1, None)]));
    assert_eq!(prepare_fork_state_plain(&block, 9), Ok(vec![mined(0, None), mined(5, None), mined(1, None), mined(2, None), mined(1, None)]));
}

#[test]
fn a_transaction_without_place_before_the_target_fails_the_lookup() {
    let mut pending = mined(0, None);
    pending.transaction_index = None;
    let block = block_of(vec![mined(0, None), pending, mined(2, None)]);
    assert_eq!(prepare_fork_state_plain(&block, 2), Err(SimulationError::ChainLookup));
    assert_eq!(prepare_fork_state_plain(&block, 0), Ok(vec![]));
    assert_eq!(SimulationError::ChainLookup.message(), "transaction or block not found");
}

#[test]
fn the_diagnostic_lines_keep_their_order_and_other_events_are_skipped() {
    let entries = vec![None, Some("first 1".to_string()), None, None, Some("second".to_string()), Some("first 1".to_string())];
    assert_eq!(decode_console_logs(&entries), vec!["first 1".to_string(), "second".to_string(), "first 1".to_string()]);
    assert_eq!(decode_console_logs(&vec![None, None]), Vec::<String>::new());
    assert_eq!(decode_console_logs(&vec![]), Vec::<String>::new());
}
