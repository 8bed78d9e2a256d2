use log3_lib::account::{AccountInfo, BackendOp, StorageSlot};
use log3_lib::dispatch::{
    configure_env_for_executor, DispatchKind, EvmVersion, ExecutionRequest, Relaxation, SpecId,
};
use log3_lib::engine::{run, simulate_tx, Action, Event, Settings, Simulation, Stage};
use log3_lib::error::SimulationError;
use log3_lib::models::MethodType;
use log3_lib::patcher::SourceCodeMetadata;
use log3_lib::prestate::{AccountState, PreStateFrame, PreStateMode};
use log3_lib::reconstruct::GethTrace;
use log3_lib::transaction::{Block, Transaction};
use log3_lib::word::{Address, H256, U256};

const CONTRACT: &str = "0x00000000000000000000000000000000000000c1";
const TARGET: &str = "0x00000000000000000000000000000000000000000000000000000000000000a1";
const ENDPOINT: &str = "http://localhost:8545";
const LIBRARY: &str = "library console {}\n";
const SOURCE: &str = "contract C {\n  function inc() public {\n    // console.log(\"counter is %d\", counter);\n  }\n}\n";
const PATCHED: &str = "library console {}\ncontract C {\n  function inc() public {\n     console.log(\"counter is %d\", counter);\n  }\n}\n";

fn contract() -> Address {
    let mut bytes = [0u8; 20];
    bytes[19] = 0xc1;
    Address { bytes }
}

fn other(last: u8) -> Address {
    let mut bytes = [0u8; 20];
    bytes[19] = last;
    Address { bytes }
}

fn word(last: u8) -> H256 {
    let mut bytes = [0u8; 32];
    bytes[31] = last;
    H256 { bytes }
}

fn code() -> Vec<u8> {
    vec![0x60, 0x80, 0x60, 0x40]
}

fn transaction(index: u64, to: Option<Address>) -> Transaction {
    Transaction {
        hash: word(0xa0 + index as u8),
        block_hash: Some(word(0xb0)),
        block_number: Some(17),
        transaction_index: Some(index),
        from: other(9),
        to,
        input: vec![index as u8],
        gas: U256::from_u64(50_000),
        gas_price: Some(U256::from_u64(25_000_000_000)),
        max_priority_fee_per_gas: Some(U256::from_u64(2_000_000_000)),
        max_fee_per_gas: Some(U256::from_u64(30_000_000_000)),
        value: U256::from_u64(0),
        nonce: U256::from_u64(3),
    }
}

fn block(transactions: Vec<Transaction>) -> Block {
    Block {
        timestamp: U256::from_u64(1_700_000_000),
        author: Some(other(7)),
        difficulty: U256::from_u64(0),
        mix_hash: Some(word(0x55)),
        gas_limit: U256::from_u64(30_000_000),
        transactions,
    }
}

fn forked() -> AccountInfo {
    let deployed = vec![0xaa, 0xbb];
    AccountInfo {
        nonce: 1,
        balance: U256::from_u64(10),
        code_hash: H256 { bytes: ethers_core::utils::keccak256(&deployed) },
        code: Some(deployed),
    }
}

fn instrumented() -> AccountInfo {
    AccountInfo {
        nonce: 1,
        balance: U256::from_u64(10),
        code_hash: H256 { bytes: ethers_core::utils::keccak256(code()) },
        code: Some(code()),
    }
}

fn start(method: MethodType) -> (Simulation, Action) {
    run(
        1,
        "key".to_string(),
        CONTRACT.to_string(),
        TARGET.to_string(),
        ENDPOINT.to_string(),
        method,
        &Settings::standard(),
        LIBRARY.to_string(),
    )
    .unwrap()
}

/// Takes a run up to the forked backend, for a target at place 1 of its block.
fn up_to_fork(method: MethodType, target: Transaction, first: Transaction) -> Simulation {
    let (sim, action) = start(method);
    assert_eq!(action, Action::FetchSource { chain_id: 1, address: contract(), api_key: "key".to_string() });
    assert_eq!(sim.stage(), Stage::AwaitSource);
    let (sim, action) = sim.step(Event::SourceFetched(SourceCodeMetadata::SourceCode(SOURCE.to_string())));
    assert_eq!(action, Action::Compile(SourceCodeMetadata::SourceCode(PATCHED.to_string())));
    let (sim, action) = sim.step(Event::Compiled(code()));
    assert_eq!(action, Action::FetchTransaction(word(0xa1)));
    let (sim, action) = sim.step(Event::TransactionFetched(target.clone()));
    assert_eq!(action, Action::FetchBlock(word(0xb0)));
    let (sim, action) = sim.step(Event::BlockFetched(block(vec![first, target, transaction(2, None)])));
    let context = configure_env_for_executor(17, &block(vec![]), &Relaxation::standard()).unwrap();
    assert_eq!(context.gas_limit, 60_000_000_000);
    assert_eq!(
        action,
        Action::SpawnFork { endpoint: ENDPOINT.to_string(), fork_block_number: 16, context, spec_id: SpecId::Merge }
    );
    assert_eq!(sim.stage(), Stage::AwaitFork);
    sim
}

/// Takes a run from the rebuilt state to its end and returns its lines.
fn through_the_target(sim: Simulation, action: Action, kind: DispatchKind, to: Option<Address>) -> Vec<String> {
    assert_eq!(action, Action::ReadAccounts(vec![contract()]));
    let (sim, action) = sim.step(Event::AccountsRead(vec![Some(forked())]));
    assert_eq!(action, Action::Apply(vec![BackendOp::InsertAccountInfo { address: contract(), info: instrumented() }]));
    let (sim, action) = sim.step(Event::Applied);
    let mut relaxed = transaction(1, to);
    relaxed.gas_price = Some(U256::from_u64(1));
    relaxed.max_priority_fee_per_gas = Some(U256::from_u64(1));
    relaxed.max_fee_per_gas = Some(U256::from_u64(1));
    let context = configure_env_for_executor(17, &block(vec![]), &Relaxation::standard()).unwrap();
    assert_eq!(
        action,
        Action::Execute(ExecutionRequest { block: context, tx: relaxed, gas_limit: 100_000_000, kind })
    );
    assert_eq!(sim.stage(), Stage::Executing);
    let (sim, action) = sim.step(Event::Executed(vec![None, Some("counter is 1".to_string()), None]));
    assert_eq!(sim.stage(), Stage::Done);
    assert!(sim.is_over());
    match action {
        Action::Finish(lines) => lines,
        other => panic!("the run did not finish: {:?}", other),
    }
}

#[test]
fn a_plain_run_replays_the_predecessor_and_returns_the_line() {
    let sim = up_to_fork(MethodType::Plain, transaction(1, Some(contract())), transaction(0, Some(other(3))));
    let (sim, action) = sim.step(Event::ForkReady);
    let context = configure_env_for_executor(17, &block(vec![]), &Relaxation::standard()).unwrap();
    assert_eq!(
        action,
        Action::Execute(ExecutionRequest {
            block: context,
            tx: transaction(0, Some(other(3))),
            gas_limit: 50_000,
            kind: DispatchKind::Call,
        })
    );
    assert_eq!(sim.stage(), Stage::Replaying);
    let (sim, action) = sim.step(Event::Executed(vec![Some("a line of the predecessor".to_string())]));
    let lines = through_the_target(sim, action, DispatchKind::Call, Some(contract()));
    assert_eq!(lines, vec!["counter is 1".to_string()]);
}

#[test]
fn a_prestate_run_skips_the_replay_and_returns_the_same_line() {
    let sim = up_to_fork(MethodType::Prestate, transaction(1, Some(contract())), transaction(0, Some(other(3))));
    let (sim, action) = sim.step(Event::ForkReady);
    assert_eq!(action, Action::FetchPrestateTrace(word(0xa1)));
    let traced = AccountState {
        balance: Some(U256::from_u64(77)),
        code: None,
        nonce: Some(U256::from_u64(4)),
        storage: Some(vec![StorageSlot { key: U256::from_u64(0), value: U256::from_u64(41) }]),
    };
    let frame = PreStateFrame::Default(PreStateMode { accounts: vec![(other(9), traced)] });
    let (sim, action) = sim.step(Event::TraceFetched(GethTrace::PreStateTracer(frame)));
    assert_eq!(action, Action::ReadAccounts(vec![other(9)]));
    let (sim, action) = sim.step(Event::AccountsRead(vec![Some(forked())]));
    let mut sender = forked();
    sender.balance = U256::from_u64(77);
    sender.nonce = 4;
    assert_eq!(
        action,
        Action::Apply(vec![
            BackendOp::InsertAccountInfo { address: other(9), info: sender },
            BackendOp::ReplaceStorage {
                address: other(9),
                slots: vec![StorageSlot { key: U256::from_u64(0), value: U256::from_u64(41) }],
            },
        ])
    );
    let (sim, action) = sim.step(Event::Applied);
    let lines = through_the_target(sim, action, DispatchKind::Call, Some(contract()));
    assert_eq!(lines, vec!["counter is 1".to_string()]);
}

#[test]
fn a_creation_is_executed_as_a_creation_and_still_takes_the_code_override() {
    let sim = up_to_fork(MethodType::Plain, transaction(1, None), transaction(0, None));
    let (sim, action) = sim.step(Event::ForkReady);
    match action {
        Action::Execute(request) => assert_eq!(request.kind, DispatchKind::Create),
        other => panic!("no replay: {:?}", other),
    }
    let (sim, action) = sim.step(Event::Executed(vec![]));
    let lines = through_the_target(sim, action, DispatchKind::Create, None);
    assert_eq!(lines, vec!["counter is 1".to_string()]);
}

#[test]
fn a_target_at_the_head_of_its_block_needs_no_replay() {
    let (sim, _) = start(MethodType::Plain);
    let (sim, _) = sim.step(Event::SourceFetched(SourceCodeMetadata::SourceCode(SOURCE.to_string())));
    let (sim, _) = sim.step(Event::Compiled(code()));
    let (sim, _) = sim.step(Event::TransactionFetched(transaction(0, Some(contract()))));
    let (sim, _) = sim.step(Event::BlockFetched(block(vec![transaction(0, Some(contract())), transaction(1, None)])));
    let (sim, action) = sim.step(Event::ForkReady);
    assert_eq!(action, Action::ReadAccounts(vec![contract()]));
    assert_eq!(sim.stage(), Stage::AwaitCodeAccounts);
}

#[test]
fn faults_of_the_request_are_found_before_anything_is_fetched() {
    let attempt = |chain: u64, address: &str, hash: &str, version: EvmVersion| {
        run(
            chain,
            "key".to_string(),
            address.to_string(),
            hash.to_string(),
            ENDPOINT.to_string(),
            MethodType::Plain,
            &Settings { evm_version: version, relaxation: Relaxation::standard() },
            LIBRARY.to_string(),
        )
        .map(|started| started.1)
    };
    assert_eq!(attempt(999_999_999_999, CONTRACT, TARGET, EvmVersion::Paris), Err(SimulationError::UnsupportedChainConfig));
    assert_eq!(attempt(1, CONTRACT, TARGET, EvmVersion::Shanghai), Err(SimulationError::UnsupportedChainConfig));
    assert_eq!(attempt(1, "0xc1", TARGET, EvmVersion::Paris), Err(SimulationError::SourceFetch));
    assert_eq!(attempt(1, "not an address", TARGET, EvmVersion::Paris), Err(SimulationError::SourceFetch));
    assert_eq!(attempt(1, CONTRACT, CONTRACT, EvmVersion::Paris), Err(SimulationError::ChainLookup));
    assert_eq!(attempt(1, CONTRACT, "", EvmVersion::Paris), Err(SimulationError::ChainLookup));
    assert!(attempt(1, CONTRACT, TARGET, EvmVersion::Istanbul).is_ok());
    assert!(attempt(5, CONTRACT, TARGET, EvmVersion::Paris).is_ok());
}

#[test]
fn an_address_is_read_as_the_chain_library_reads_it() {
    let read = |text: &str| {
        simulate_tx(ENDPOINT.to_string(), TARGET.to_string(), text.to_string(), code(), MethodType::Plain, &Settings::standard())
            .map(|(sim, _)| sim.step(Event::TransactionFetched(transaction(0, None))).0)
            .map(|sim| sim.step(Event::BlockFetched(block(vec![]))).0)
            .map(|sim| sim.step(Event::ForkReady).1)
    };
    let expected = Ok(Action::ReadAccounts(vec![contract()]));
    assert_eq!(read(CONTRACT), expected);
    assert_eq!(read("00000000000000000000000000000000000000c1"), expected);
    assert_eq!(read("0x00000000000000000000000000000000000000C1"), expected);
    assert_eq!(read("0x0000000000 0000000000\t0000000000\n00000000c1\r\n"), expected);
    assert_eq!(read("0X00000000000000000000000000000000000000c1"), Err(SimulationError::SourceFetch));
    assert_eq!(read(" 0x00000000000000000000000000000000000000c1"), Err(SimulationError::SourceFetch));
    assert_eq!(read("0x00000000000000000000000000000000000000c"), Err(SimulationError::SourceFetch));
    assert_eq!(read("0x00000000000000000000000000000000000000c1c"), Err(SimulationError::SourceFetch));
    assert_eq!(read("0x00000000000000000000000000000000000000c1c1"), Err(SimulationError::SourceFetch));
    assert_eq!(read("0x00000000000000000000000000000000000000g1"), Err(SimulationError::SourceFetch));
    assert_eq!(read("0x00000000000000000000000000000000000000c1 z"), Err(SimulationError::SourceFetch));
    assert_eq!(read(""), Err(SimulationError::SourceFetch));
}

#[test]
fn a_run_with_code_starts_at_the_lookup_of_the_transaction() {
    let (sim, action) = simulate_tx(
        ENDPOINT.to_string(),
        TARGET.to_string(),
        CONTRACT.to_string(),
        code(),
        MethodType::Prestate,
        &Settings::standard(),
    )
    .unwrap();
    assert_eq!(action, Action::FetchTransaction(word(0xa1)));
    assert_eq!(sim.stage(), Stage::AwaitTransaction);
    assert!(!sim.is_over());
}

#[test]
fn a_failed_action_fails_the_run_with_the_error_of_its_stage() {
    let (sim, _) = start(MethodType::Prestate);
    let (sim, action) = sim.step(Event::Failed);
    assert_eq!(action, Action::Fail(SimulationError::SourceFetch));
    assert_eq!(sim.stage(), Stage::Failed);

    let (sim, _) = start(MethodType::Prestate);
    let (sim, _) = sim.step(Event::SourceFetched(SourceCodeMetadata::SourceCode(SOURCE.to_string())));
    assert_eq!(sim.step(Event::Failed).1, Action::Fail(SimulationError::Compile));

    let (sim, _) = start(MethodType::Prestate);
    let (sim, _) = sim.step(Event::SourceFetched(SourceCodeMetadata::SourceCode(SOURCE.to_string())));
    let (sim, _) = sim.step(Event::Compiled(code()));
    assert_eq!(sim.step(Event::Failed).1, Action::Fail(SimulationError::ChainLookup));

    let sim = up_to_fork(MethodType::Prestate, transaction(1, None), transaction(0, None));
    assert_eq!(sim.step(Event::Failed).1, Action::Fail(SimulationError::Execution));

    let sim = up_to_fork(MethodType::Prestate, transaction(1, None), transaction(0, None));
    let (sim, _) = sim.step(Event::ForkReady);
    assert_eq!(sim.step(Event::Failed).1, Action::Fail(SimulationError::UnsupportedTraceFormat));

    let sim = up_to_fork(MethodType::Plain, transaction(1, None), transaction(0, None));
    let (sim, _) = sim.step(Event::ForkReady);
    assert_eq!(sim.step(Event::Failed).1, Action::Fail(SimulationError::Execution));
}

#[test]
fn a_transaction_that_is_not_mined_fails_the_lookup() {
    let at_lookup = || {
        let (sim, _) = start(MethodType::Plain);
        let (sim, _) = sim.step(Event::SourceFetched(SourceCodeMetadata::SourceCode(SOURCE.to_string())));
        sim.step(Event::Compiled(code())).0
    };
    let mut pending = transaction(1, None);
    pending.block_hash = None;
    assert_eq!(at_lookup().step(Event::TransactionFetched(pending)).1, Action::Fail(SimulationError::ChainLookup));
    let mut unplaced = transaction(1, None);
    unplaced.transaction_index = None;
    assert_eq!(at_lookup().step(Event::TransactionFetched(unplaced)).1, Action::Fail(SimulationError::ChainLookup));
    let mut unnumbered = transaction(1, None);
    unnumbered.block_number = None;
    assert_eq!(at_lookup().step(Event::TransactionFetched(unnumbered)).1, Action::Fail(SimulationError::ChainLookup));
    let mut first = transaction(1, None);
    first.block_number = Some(0);
    assert_eq!(at_lookup().step(Event::TransactionFetched(first)).1, Action::Fail(SimulationError::ChainLookup));
    let mut second = transaction(1, None);
    second.block_number = Some(1);
    assert_eq!(at_lookup().step(Event::TransactionFetched(second)).1, Action::FetchBlock(word(0xb0)));
}

#[test]
fn an_event_out_of_turn_fails_the_run() {
    let (sim, _) = start(MethodType::Plain);
    let (sim, action) = sim.step(Event::ForkReady);
    assert_eq!(action, Action::Fail(SimulationError::Execution));
    let (sim, action) = sim.step(Event::Applied);
    assert_eq!(action, Action::Fail(SimulationError::Execution));
    assert_eq!(sim.stage(), Stage::Failed);
}

#[test]
fn a_trace_that_cannot_be_applied_fails_the_run() {
    let sim = up_to_fork(MethodType::Prestate, transaction(1, None), transaction(0, None));
    let (sim, _) = sim.step(Event::ForkReady);
    assert_eq!(sim.step(Event::TraceFetched(GethTrace::Other)).1, Action::Fail(SimulationError::UnsupportedTraceFormat));
}

#[test]
fn a_block_that_cannot_be_scaled_fails_before_the_fork() {
    let (sim, _) = start(MethodType::Plain);
    let (sim, _) = sim.step(Event::SourceFetched(SourceCodeMetadata::SourceCode(SOURCE.to_string())));
    let (sim, _) = sim.step(Event::Compiled(code()));
    let (sim, _) = sim.step(Event::TransactionFetched(transaction(1, None)));
    let mut huge = block(vec![]);
    huge.gas_limit = U256 { hi: 1, lo: 0 };
    assert_eq!(sim.step(Event::BlockFetched(huge)).1, Action::Fail(SimulationError::UnsupportedChainConfig));
}

#[test]
fn the_standard_settings_are_paris_and_the_standard_relaxation() {
    assert_eq!(Settings::standard(), Settings { evm_version: EvmVersion::Paris, relaxation: Relaxation::standard() });
    assert_eq!(Settings::default(), Settings::standard());
}
