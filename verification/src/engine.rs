//! The run as a state machine.
//!
//! A run fetches the contract's source, patches and compiles it, looks up
//! the target transaction and its block, forks the chain before that block,
//! rebuilds the state before the transaction, puts the compiled code in
//! place of the contract's, executes the transaction and returns the lines
//! that it logged. All of that work is done by the caller: the machine
//! says what to do next ([`Action`]) and is told what came of it
//! ([`Event`]). One step decides; it never waits, reads or sends.

use vstd::prelude::*;
use vstd::string::StringExecFns;
use crate::account::{infos_view, ops_view, AccountInfo, AccountInfoView, BackendOp, BackendOpView};
use crate::codec::{chain_is_known, fixed_hex_parsed, known_chain, parse_address, parse_hash};
use crate::decode::{decode_console_logs, diagnostic_lines, entries_view, lines_view};
use crate::dispatch::{
    block_context, configure_env_for_executor, evm_spec, replay_execution, replay_request,
    spec_of, target_execution, target_request, BlockContext, DispatchKind, EvmVersion,
    ExecutionRequest,
    ExecutionRequestView, Relaxation, SpecId,
};
use crate::error::SimulationError;
use crate::models::MethodType;
use crate::overrides::{
    apply_state_override, no_override, planned_ops, AccountOverride, AccountOverrideView, Entries,
    StateOverride,
};
use crate::patcher::{metadata_patched, patch_metadata_source, SourceCodeMetadata, SourceCodeView};
use crate::reconstruct::{
    prepare_fork_state_debug, prepare_fork_state_plain, replay_plan, trace_overrides, GethTrace,
};
use crate::transaction::{transactions_view, Block, BlockView, Transaction, TransactionView};
use crate::word::{Address, H256};

verus! {

/// What a run does not take from the chain: the rules that the backend runs
/// under and the relaxation of the target's execution.
#[derive(Clone, Copy, Debug, PartialEq, Eq, Hash, Structural)]
pub struct Settings {
    /// The version of the execution rules.
    pub evm_version: EvmVersion,
    /// By how much the execution of the target is eased.
    pub relaxation: Relaxation,
}

/// The settings in use where none are chosen: the rules of Paris and the
/// standard relaxation.
pub open spec fn standard_settings() -> Settings {
    Settings {
        evm_version: EvmVersion::Paris,
        relaxation: Relaxation { nominal_fee: 1, base_fee: 1, gas_limit_factor: 2000 },
    }
}

impl Settings {
    /// The settings in use where none are chosen.
    pub fn standard() -> (r: Settings)
        ensures
            r == standard_settings(),
    {
        Settings { evm_version: EvmVersion::Paris, relaxation: Relaxation::standard() }
    }
}

impl Default for Settings {
    fn default() -> (r: Settings)
        ensures
            r == standard_settings(),
    {
        Settings::standard()
    }
}

/// Where a run stands: what it waits for.
#[derive(Clone, Copy, Debug, PartialEq, Eq, Hash, Structural)]
pub enum Stage {
    /// For the contract's source.
    AwaitSource,
    /// For the compiled code of the patched source.
    AwaitCompile,
    /// For the target transaction.
    AwaitTransaction,
    /// For the block of the target transaction.
    AwaitBlock,
    /// For the forked backend.
    AwaitFork,
    /// For the execution of a transaction that precedes the target.
    Replaying,
    /// For the pre-state trace of the target.
    AwaitTrace,
    /// For the accounts that the traced pre-state overrides.
    AwaitPrestateAccounts,
    /// For the traced pre-state to be stored.
    AwaitPrestateApplied,
    /// For the account of the contract.
    AwaitCodeAccounts,
    /// For the compiled code to be stored.
    AwaitCodeApplied,
    /// For the execution of the target.
    Executing,
    /// For nothing: the run has ended with its lines.
    Done,
    /// For nothing: the run has failed.
    Failed,
}

/// What the caller is to do next.
#[derive(Debug, PartialEq, Eq)]
pub enum Action {
    /// Fetch the source of the contract at `address` on the chain.
    FetchSource { chain_id: u64, address: Address, api_key: String },
    /// Compile this source and hand back the deployed bytecode.
    Compile(SourceCodeMetadata),
    /// Look up the transaction with this hash.
    FetchTransaction(H256),
    /// Look up the block with this hash, with its transactions.
    FetchBlock(H256),
    /// Start a backend that forks the chain at the end of the block
    /// `fork_block_number`, and execute under `context` from then on.
    SpawnFork { endpoint: String, fork_block_number: u64, context: BlockContext, spec_id: SpecId },
    /// Execute this on the backend and keep what it changes.
    Execute(ExecutionRequest),
    /// Trace the transaction with this hash with the pre-state tracer.
    FetchPrestateTrace(H256),
    /// Read from the backend the accounts at these addresses, in this order.
    ReadAccounts(Vec<Address>),
    /// Perform these operations on the backend, in this order.
    Apply(Vec<BackendOp>),
    /// Nothing more: the run has ended with these lines.
    Finish(Vec<String>),
    /// Nothing more: the run has failed with this error.
    Fail(SimulationError),
}

/// The mathematical value of an [`Action`].
pub ghost enum ActionView {
    FetchSource { chain_id: u64, address: Address, api_key: Seq<char> },
    Compile(SourceCodeView),
    FetchTransaction(H256),
    FetchBlock(H256),
    SpawnFork { endpoint: Seq<char>, fork_block_number: u64, context: BlockContext, spec_id: SpecId },
    Execute(ExecutionRequestView),
    FetchPrestateTrace(H256),
    ReadAccounts(Seq<Address>),
    Apply(Seq<BackendOpView>),
    Finish(Seq<Seq<char>>),
    Fail(SimulationError),
}

impl View for Action {
    type V = ActionView;

    open spec fn view(&self) -> ActionView {
        match *self {
            Action::FetchSource { chain_id, address, api_key } => ActionView::FetchSource {
                chain_id,
                address,
                api_key: api_key@,
            },
            Action::Compile(source) => ActionView::Compile(source@),
            Action::FetchTransaction(hash) => ActionView::FetchTransaction(hash),
            Action::FetchBlock(hash) => ActionView::FetchBlock(hash),
            Action::SpawnFork { endpoint, fork_block_number, context, spec_id } => ActionView::SpawnFork {
                endpoint: endpoint@,
                fork_block_number,
                context,
                spec_id,
            },
            Action::Execute(request) => ActionView::Execute(request@),
            Action::FetchPrestateTrace(hash) => ActionView::FetchPrestateTrace(hash),
            Action::ReadAccounts(addresses) => ActionView::ReadAccounts(addresses@),
            Action::Apply(ops) => ActionView::Apply(ops_view(ops@)),
            Action::Finish(lines) => ActionView::Finish(lines_view(lines@)),
            Action::Fail(error) => ActionView::Fail(error),
        }
    }
}

/// What came of the last action.
#[derive(Debug, PartialEq, Eq)]
pub enum Event {
    /// The contract's source.
    SourceFetched(SourceCodeMetadata),
    /// The deployed bytecode of the compiled source.
    Compiled(Vec<u8>),
    /// The transaction that was looked up.
    TransactionFetched(Transaction),
    /// The block that was looked up.
    BlockFetched(Block),
    /// The backend stands.
    ForkReady,
    /// The execution ended; its log entries in order, each decoded where it
    /// is a diagnostic event.
    Executed(Vec<Option<String>>),
    /// The trace of the transaction.
    TraceFetched(GethTrace),
    /// The accounts that were read, in the order asked for.
    AccountsRead(Vec<Option<AccountInfo>>),
    /// The operations were performed.
    Applied,
    /// The action failed.
    Failed,
}

/// The mathematical value of an [`Event`]. Of a trace it holds the override
/// set that the trace comes to.
pub ghost enum EventView {
    SourceFetched(SourceCodeView),
    Compiled(Seq<u8>),
    TransactionFetched(TransactionView),
    BlockFetched(BlockView),
    ForkReady,
    Executed(Seq<Option<Seq<char>>>),
    TraceFetched(Result<Entries, SimulationError>),
    AccountsRead(Seq<Option<AccountInfoView>>),
    Applied,
    Failed,
}

impl View for Event {
    type V = EventView;

    open spec fn view(&self) -> EventView {
        match *self {
            Event::SourceFetched(source) => EventView::SourceFetched(source@),
            Event::Compiled(code) => EventView::Compiled(code@),
            Event::TransactionFetched(tx) => EventView::TransactionFetched(tx@),
            Event::BlockFetched(block) => EventView::BlockFetched(block@),
            Event::ForkReady => EventView::ForkReady,
            Event::Executed(entries) => EventView::Executed(entries_view(entries@)),
            Event::TraceFetched(trace) => EventView::TraceFetched(trace_overrides(trace)),
            Event::AccountsRead(infos) => EventView::AccountsRead(infos_view(infos@)),
            Event::Applied => EventView::Applied,
            Event::Failed => EventView::Failed,
        }
    }
}

/// A run in progress.
#[derive(Debug)]
pub struct Simulation {
    stage: Stage,
    method: MethodType,
    relaxation: Relaxation,
    spec_id: SpecId,
    chain_id: u64,
    api_key: String,
    endpoint: String,
    console: String,
    contract: Address,
    tx_hash: H256,
    code: Vec<u8>,
    target: Option<Transaction>,
    context: Option<BlockContext>,
    replay: Vec<Transaction>,
    cursor: usize,
    pending: StateOverride,
}

/// The mathematical value of a [`Simulation`].
pub ghost struct SimulationView {
    /// What the run waits for.
    pub stage: Stage,
    /// How the state before the target is rebuilt.
    pub method: MethodType,
    /// By how much the execution of the target is eased.
    pub relaxation: Relaxation,
    /// The rules that the backend runs under.
    pub spec_id: SpecId,
    /// The chain of the transaction.
    pub chain_id: u64,
    /// The key for the block explorer.
    pub api_key: Seq<char>,
    /// The endpoint of the chain's node.
    pub endpoint: Seq<char>,
    /// The text of the diagnostics library.
    pub console: Seq<char>,
    /// The contract whose code is replaced.
    pub contract: Address,
    /// The hash of the target transaction.
    pub tx_hash: H256,
    /// The compiled code, once there is some.
    pub code: Seq<u8>,
    /// The record of the target transaction, once it is known.
    pub target: Option<TransactionView>,
    /// The block context of every execution, once it is known.
    pub context: Option<BlockContext>,
    /// The transactions to replay.
    pub replay: Seq<TransactionView>,
    /// How many of them have been replayed.
    pub cursor: nat,
    /// The override set whose accounts are being read.
    pub pending: Entries,
}

/// The view of a transaction that may be missing.
pub open spec fn target_view(tx: Option<Transaction>) -> Option<TransactionView> {
    match tx {
        Some(tx) => Some(tx@),
        None => None,
    }
}

impl View for Simulation {
    type V = SimulationView;

    closed spec fn view(&self) -> SimulationView {
        SimulationView {
            stage: self.stage,
            method: self.method,
            relaxation: self.relaxation,
            spec_id: self.spec_id,
            chain_id: self.chain_id,
            api_key: self.api_key@,
            endpoint: self.endpoint@,
            console: self.console@,
            contract: self.contract,
            tx_hash: self.tx_hash,
            code: self.code@,
            target: target_view(self.target),
            context: self.context,
            replay: transactions_view(self.replay@),
            cursor: self.cursor as nat,
            pending: self.pending@,
        }
    }
}

/// The run has failed: nothing more is done.
pub open spec fn failed(s: SimulationView, error: SimulationError) -> (SimulationView, ActionView) {
    (SimulationView { stage: Stage::Failed, ..s }, ActionView::Fail(error))
}

/// The override set that puts the compiled code in place of the
/// contract's: one account, its code and nothing else.
pub open spec fn code_override(contract: Address, code: Seq<u8>) -> Entries {
    seq![(contract, AccountOverrideView { code: Some(code), ..no_override() })]
}

/// The state is rebuilt: the account of the contract is read, so that its
/// code can be replaced. This does not depend on the target's recipient.
pub open spec fn begin_code_override(s: SimulationView) -> (SimulationView, ActionView) {
    (
        SimulationView {
            stage: Stage::AwaitCodeAccounts,
            pending: code_override(s.contract, s.code),
            ..s
        },
        ActionView::ReadAccounts(seq![s.contract]),
    )
}

/// The next transaction to replay is executed; when none is left, the
/// state is rebuilt.
pub open spec fn continue_replay(s: SimulationView) -> (SimulationView, ActionView) {
    if s.cursor < s.replay.len() {
        match s.context {
            Some(context) => match replay_execution(context, s.replay[s.cursor as int]) {
                Ok(request) => (
                    SimulationView { stage: Stage::Replaying, ..s },
                    ActionView::Execute(request),
                ),
                Err(error) => failed(s, error),
            },
            None => failed(s, SimulationError::Execution),
        }
    } else {
        begin_code_override(s)
    }
}

/// The accounts of the pending override set were read: the set is turned
/// into operations, or the run fails with the set's error.
pub open spec fn plan_pending(
    s: SimulationView,
    infos: Seq<Option<AccountInfoView>>,
    next: Stage,
) -> (SimulationView, ActionView) {
    match planned_ops(s.pending, infos) {
        Ok(ops) => (
            SimulationView { stage: next, pending: Seq::empty(), ..s },
            ActionView::Apply(ops),
        ),
        Err(error) => failed(s, error),
    }
}

/// The addresses of an override set, in its order.
pub open spec fn addresses_of(entries: Entries) -> Seq<Address> {
    entries.map_values(|e: (Address, AccountOverrideView)| e.0)
}

/// The target transaction came back: it must be mined, in a block after
/// the first, at a known place; then its block is looked up.
pub open spec fn on_transaction(s: SimulationView, tx: TransactionView) -> (SimulationView, ActionView) {
    match (tx.block_hash, tx.block_number, tx.transaction_index) {
        (Some(hash), Some(number), Some(_)) => if number >= 1 {
            (
                SimulationView { stage: Stage::AwaitBlock, target: Some(tx), ..s },
                ActionView::FetchBlock(hash),
            )
        } else {
            failed(s, SimulationError::ChainLookup)
        },
        _ => failed(s, SimulationError::ChainLookup),
    }
}

/// The block came back: the block context and, for a replay, the
/// transactions to replay are worked out, and the chain is forked at the
/// block before the target's.
pub open spec fn on_block(s: SimulationView, block: BlockView) -> (SimulationView, ActionView) {
    match s.target {
        Some(tx) => match (tx.block_number, tx.transaction_index) {
            (Some(number), Some(index)) => if number >= 1 {
                match block_context(number, block, s.relaxation) {
                    Ok(context) => {
                        let plan = match s.method {
                            MethodType::Plain => replay_plan(block.transactions, index),
                            MethodType::Prestate => Ok(Seq::empty()),
                        };
                        match plan {
                            Ok(replay) => (
                                SimulationView {
                                    stage: Stage::AwaitFork,
                                    context: Some(context),
                                    replay,
                                    cursor: 0,
                                    ..s
                                },
                                ActionView::SpawnFork {
                                    endpoint: s.endpoint,
                                    fork_block_number: (number - 1) as u64,
                                    context,
                                    spec_id: s.spec_id,
                                },
                            ),
                            Err(error) => failed(s, error),
                        }
                    },
                    Err(error) => failed(s, error),
                }
            } else {
                failed(s, SimulationError::ChainLookup)
            },
            _ => failed(s, SimulationError::ChainLookup),
        },
        None => failed(s, SimulationError::Execution),
    }
}

/// The compiled code is stored: the target is executed, relaxed.
pub open spec fn on_code_applied(s: SimulationView) -> (SimulationView, ActionView) {
    match (s.context, s.target) {
        (Some(context), Some(tx)) => match target_execution(context, tx, s.relaxation) {
            Ok(request) => (SimulationView { stage: Stage::Executing, ..s }, ActionView::Execute(request)),
            Err(error) => failed(s, error),
        },
        _ => failed(s, SimulationError::Execution),
    }
}

/// The error of an action that failed, by what the run waited for.
pub open spec fn failure_at(stage: Stage) -> SimulationError {
    match stage {
        Stage::AwaitSource => SimulationError::SourceFetch,
        Stage::AwaitCompile => SimulationError::Compile,
        Stage::AwaitTransaction => SimulationError::ChainLookup,
        Stage::AwaitBlock => SimulationError::ChainLookup,
        Stage::AwaitTrace => SimulationError::UnsupportedTraceFormat,
        _ => SimulationError::Execution,
    }
}

/// One step of a run: from where it stands and what came of the last
/// action to where it stands then and what to do next.
///
/// An event that does not answer the action that the run waits for fails
/// the run, as does any event after the run has ended.
pub open spec fn step_of(s: SimulationView, event: EventView) -> (SimulationView, ActionView) {
    match (s.stage, event) {
        (Stage::Done, _) => failed(s, SimulationError::Execution),
        (Stage::Failed, _) => failed(s, SimulationError::Execution),
        (stage, EventView::Failed) => failed(s, failure_at(stage)),
        (Stage::AwaitSource, EventView::SourceFetched(source)) => (
            SimulationView { stage: Stage::AwaitCompile, ..s },
            ActionView::Compile(metadata_patched(source, s.console)),
        ),
        (Stage::AwaitCompile, EventView::Compiled(code)) => (
            SimulationView { stage: Stage::AwaitTransaction, code, ..s },
            ActionView::FetchTransaction(s.tx_hash),
        ),
        (Stage::AwaitTransaction, EventView::TransactionFetched(tx)) => on_transaction(s, tx),
        (Stage::AwaitBlock, EventView::BlockFetched(block)) => on_block(s, block),
        (Stage::AwaitFork, EventView::ForkReady) => match s.method {
            MethodType::Plain => continue_replay(s),
            MethodType::Prestate => (
                SimulationView { stage: Stage::AwaitTrace, ..s },
                ActionView::FetchPrestateTrace(s.tx_hash),
            ),
        },
        (Stage::Replaying, EventView::Executed(_)) => if s.cursor < s.replay.len() {
            continue_replay(SimulationView { cursor: s.cursor + 1, ..s })
        } else {
            failed(s, SimulationError::Execution)
        },
        (Stage::AwaitTrace, EventView::TraceFetched(overrides)) => match overrides {
            Ok(entries) => (
                SimulationView { stage: Stage::AwaitPrestateAccounts, pending: entries, ..s },
                ActionView::ReadAccounts(addresses_of(entries)),
            ),
            Err(error) => failed(s, error),
        },
        (Stage::AwaitPrestateAccounts, EventView::AccountsRead(infos)) => plan_pending(
            s,
            infos,
            Stage::AwaitPrestateApplied,
        ),
        (Stage::AwaitPrestateApplied, EventView::Applied) => begin_code_override(s),
        (Stage::AwaitCodeAccounts, EventView::AccountsRead(infos)) => plan_pending(
            s,
            infos,
            Stage::AwaitCodeApplied,
        ),
        (Stage::AwaitCodeApplied, EventView::Applied) => on_code_applied(s),
        (Stage::Executing, EventView::Executed(entries)) => (
            SimulationView { stage: Stage::Done, ..s },
            ActionView::Finish(diagnostic_lines(entries)),
        ),
        _ => failed(s, SimulationError::Execution),
    }
}

/// A step as a pair of views.
pub open spec fn step_view(r: (Simulation, Action)) -> (SimulationView, ActionView) {
    (r.0@, r.1@)
}

impl Simulation {
    /// What the run waits for.
    pub fn stage(&self) -> (r: Stage)
        ensures
            r == self@.stage,
    {
        self.stage
    }

    /// Whether the run has ended, with its lines or with an error.
    pub fn is_over(&self) -> (r: bool)
        ensures
            r == (self@.stage == Stage::Done || self@.stage == Stage::Failed),
    {
        match self.stage {
            Stage::Done => true,
            Stage::Failed => true,
            _ => false,
        }
    }

    /// Fails the run with `error`.
    fn fail(self, error: SimulationError) -> (r: (Simulation, Action))
        ensures
            step_view(r) == failed(self@, error),
    {
        let mut s = self;
        s.stage = Stage::Failed;
        (s, Action::Fail(error))
    }

    /// Asks for the account of the contract, whose code is to be replaced.
    fn begin_code_override(self) -> (r: (Simulation, Action))
        ensures
            step_view(r) == begin_code_override(self@),
    {
        let mut s = self;
        let code = s.code.clone();
        assert(code@ =~= s.code@);
        let mut set = StateOverride::new();
        set.insert(s.contract, AccountOverride::with_code(code));
        assert(set@ =~= code_override(s.contract, s.code@));
        let mut addresses: Vec<Address> = Vec::new();
        addresses.push(s.contract);
        assert(addresses@ =~= seq![s.contract]);
        s.pending = set;
        s.stage = Stage::AwaitCodeAccounts;
        (s, Action::ReadAccounts(addresses))
    }

    /// Asks for the execution of the next transaction to replay, if any.
    fn continue_replay(self) -> (r: (Simulation, Action))
        ensures
            step_view(r) == continue_replay(self@),
    {
        if self.cursor < self.replay.len() {
            let context = match self.context {
                Some(context) => context,
                None => {
                    return self.fail(SimulationError::Execution);
                },
            };
            assert(self.replay@[self.cursor as int]@ == self@.replay[self@.cursor as int]);
            match replay_request(&context, &self.replay[self.cursor]) {
                Ok(request) => {
                    let mut s = self;
                    s.stage = Stage::Replaying;
                    (s, Action::Execute(request))
                },
                Err(error) => self.fail(error),
            }
        } else {
            self.begin_code_override()
        }
    }

    /// Turns the pending override set into operations, for the accounts
    /// that were read.
    fn plan_pending(self, infos: &Vec<Option<AccountInfo>>, next: Stage) -> (r: (Simulation, Action))
        ensures
            step_view(r) == plan_pending(self@, infos_view(infos@), next),
    {
        match apply_state_override(&self.pending, infos) {
            Ok(ops) => {
                let mut s = self;
                s.pending = StateOverride::new();
                s.stage = next;
                (s, Action::Apply(ops))
            },
            Err(error) => self.fail(error),
        }
    }

    /// Takes the record of the target and asks for its block.
    fn on_transaction(self, tx: Transaction) -> (r: (Simulation, Action))
        ensures
            step_view(r) == on_transaction(self@, tx@),
    {
        match (tx.block_hash, tx.block_number, tx.transaction_index) {
            (Some(hash), Some(number), Some(_)) => {
                if number >= 1 {
                    let mut s = self;
                    s.target = Some(tx);
                    s.stage = Stage::AwaitBlock;
                    (s, Action::FetchBlock(hash))
                } else {
                    self.fail(SimulationError::ChainLookup)
                }
            },
            _ => self.fail(SimulationError::ChainLookup),
        }
    }

    /// Works out the block context and the transactions to replay, and
    /// asks for the fork.
    fn on_block(self, block: &Block) -> (r: (Simulation, Action))
        ensures
            step_view(r) == on_block(self@, block@),
    {
        let (number, index) = match &self.target {
            Some(tx) => match (tx.block_number, tx.transaction_index) {
                (Some(number), Some(index)) => (number, index),
                _ => {
                    return self.fail(SimulationError::ChainLookup);
                },
            },
            None => {
                return self.fail(SimulationError::Execution);
            },
        };
        if number < 1 {
            return self.fail(SimulationError::ChainLookup);
        }
        let context = match configure_env_for_executor(number, block, &self.relaxation) {
            Ok(context) => context,
            Err(error) => {
                return self.fail(error);
            },
        };
        let replay = match self.method {
            MethodType::Plain => match prepare_fork_state_plain(block, index) {
                Ok(replay) => replay,
                Err(error) => {
                    return self.fail(error);
                },
            },
            MethodType::Prestate => {
                let none: Vec<Transaction> = Vec::new();
                assert(transactions_view(none@) =~= Seq::<TransactionView>::empty());
                none
            },
        };
        let mut s = self;
        let endpoint = s.endpoint.clone();
        let spec_id = s.spec_id;
        s.context = Some(context);
        s.replay = replay;
        s.cursor = 0;
        s.stage = Stage::AwaitFork;
        (s, Action::SpawnFork { endpoint, fork_block_number: number - 1, context, spec_id })
    }

    /// Asks for the execution of the target.
    fn on_code_applied(self) -> (r: (Simulation, Action))
        ensures
            step_view(r) == on_code_applied(self@),
    {
        let request = match (&self.context, &self.target) {
            (Some(context), Some(tx)) => target_request(context, tx, &self.relaxation),
            _ => {
                return self.fail(SimulationError::Execution);
            },
        };
        match request {
            Ok(request) => {
                let mut s = self;
                s.stage = Stage::Executing;
                (s, Action::Execute(request))
            },
            Err(error) => self.fail(error),
        }
    }

    /// Fails the run with the error of the stage at which an action failed.
    fn on_failure(self) -> (r: (Simulation, Action))
        requires
            self@.stage != Stage::Done,
            self@.stage != Stage::Failed,
        ensures
            step_view(r) == failed(self@, failure_at(self@.stage)),
    {
        let error = match self.stage {
            Stage::AwaitSource => SimulationError::SourceFetch,
            Stage::AwaitCompile => SimulationError::Compile,
            Stage::AwaitTransaction => SimulationError::ChainLookup,
            Stage::AwaitBlock => SimulationError::ChainLookup,
            Stage::AwaitTrace => SimulationError::UnsupportedTraceFormat,
            _ => SimulationError::Execution,
        };
        self.fail(error)
    }

    /// Takes one step: given what came of the last action, says where the
    /// run stands now and what to do next.
    ///
    /// A run that waits for the target's execution ends with the
    /// diagnostic lines of that execution. A failed action fails the run
    /// with the error of the stage; so does an event that does not answer
    /// the action that the run waits for.
    pub fn step(self, event: Event) -> (r: (Simulation, Action))
        ensures
            step_view(r) == step_of(self@, event@),
    {
        match self.stage {
            Stage::Done => {
                return self.fail(SimulationError::Execution);
            },
            Stage::Failed => {
                return self.fail(SimulationError::Execution);
            },
            _ => {},
        }
        match event {
            Event::Failed => self.on_failure(),
            Event::SourceFetched(source) => match self.stage {
                Stage::AwaitSource => {
                    let patched = patch_metadata_source(&source, self.console.as_str());
                    let mut s = self;
                    s.stage = Stage::AwaitCompile;
                    (s, Action::Compile(patched))
                },
                _ => self.fail(SimulationError::Execution),
            },
            Event::Compiled(code) => match self.stage {
                Stage::AwaitCompile => {
                    let mut s = self;
                    let hash = s.tx_hash;
                    s.code = code;
                    s.stage = Stage::AwaitTransaction;
                    (s, Action::FetchTransaction(hash))
                },
                _ => self.fail(SimulationError::Execution),
            },
            Event::TransactionFetched(tx) => match self.stage {
                Stage::AwaitTransaction => self.on_transaction(tx),
                _ => self.fail(SimulationError::Execution),
            },
            Event::BlockFetched(block) => match self.stage {
                Stage::AwaitBlock => self.on_block(&block),
                _ => self.fail(SimulationError::Execution),
            },
            Event::ForkReady => match self.stage {
                Stage::AwaitFork => match self.method {
                    MethodType::Plain => self.continue_replay(),
                    MethodType::Prestate => {
                        let mut s = self;
                        let hash = s.tx_hash;
                        s.stage = Stage::AwaitTrace;
                        (s, Action::FetchPrestateTrace(hash))
                    },
                },
                _ => self.fail(SimulationError::Execution),
            },
            Event::Executed(entries) => match self.stage {
                Stage::Replaying => {
                    if self.cursor < self.replay.len() {
                        let mut s = self;
                        s.cursor = s.cursor + 1;
                        s.continue_replay()
                    } else {
                        self.fail(SimulationError::Execution)
                    }
                },
                Stage::Executing => {
                    let lines = decode_console_logs(&entries);
                    let mut s = self;
                    s.stage = Stage::Done;
                    (s, Action::Finish(lines))
                },
                _ => self.fail(SimulationError::Execution),
            },
            Event::TraceFetched(trace) => match self.stage {
                Stage::AwaitTrace => match prepare_fork_state_debug(&trace) {
                    Ok(set) => {
                        let addresses = set.addresses();
                        let mut s = self;
                        s.pending = set;
                        s.stage = Stage::AwaitPrestateAccounts;
                        (s, Action::ReadAccounts(addresses))
                    },
                    Err(error) => self.fail(error),
                },
                _ => self.fail(SimulationError::Execution),
            },
            Event::AccountsRead(infos) => match self.stage {
                Stage::AwaitPrestateAccounts => self.plan_pending(&infos, Stage::AwaitPrestateApplied),
                Stage::AwaitCodeAccounts => self.plan_pending(&infos, Stage::AwaitCodeApplied),
                _ => self.fail(SimulationError::Execution),
            },
            Event::Applied => match self.stage {
                Stage::AwaitPrestateApplied => self.begin_code_override(),
                Stage::AwaitCodeApplied => self.on_code_applied(),
                _ => self.fail(SimulationError::Execution),
            },
        }
    }
}

/// The address that a text spells, if it spells one.
pub open spec fn address_spelled(text: Seq<char>) -> Option<Address> {
    match fixed_hex_parsed(text, 20) {
        Some(bytes) => Some(choose|a: Address| a.bytes@ == bytes),
        None => None,
    }
}

/// The hash that a text spells, if it spells one.
pub open spec fn hash_spelled(text: Seq<char>) -> Option<H256> {
    match fixed_hex_parsed(text, 32) {
        Some(bytes) => Some(choose|h: H256| h.bytes@ == bytes),
        None => None,
    }
}

/// What a run is asked for, as mathematical values.
pub ghost struct RequestView {
    pub chain_id: u64,
    pub api_key: Seq<char>,
    pub contract: Option<Address>,
    pub tx_hash: Option<H256>,
    pub endpoint: Seq<char>,
    pub method: MethodType,
    pub settings: Settings,
    pub console: Seq<char>,
}

/// A run before its first step, at `stage` and with `code` as its compiled
/// code.
pub open spec fn fresh(
    request: RequestView,
    spec_id: SpecId,
    contract: Address,
    tx_hash: H256,
    stage: Stage,
    code: Seq<u8>,
) -> SimulationView {
    SimulationView {
        stage,
        method: request.method,
        relaxation: request.settings.relaxation,
        spec_id,
        chain_id: request.chain_id,
        api_key: request.api_key,
        endpoint: request.endpoint,
        console: request.console,
        contract,
        tx_hash,
        code,
        target: None,
        context: None,
        replay: Seq::empty(),
        cursor: 0,
        pending: Seq::empty(),
    }
}

/// What is wrong with a request, if anything: in this order, an execution
/// rule that is not supported, an address that is none, a hash that is
/// none.
pub open spec fn request_error(request: RequestView) -> Option<SimulationError> {
    if spec_of(request.settings.evm_version) is None {
        Some(SimulationError::UnsupportedChainConfig)
    } else if request.contract is None {
        Some(SimulationError::SourceFetch)
    } else if request.tx_hash is None {
        Some(SimulationError::ChainLookup)
    } else {
        None
    }
}

/// How a run starts on a chain that is known or not: with an error before
/// anything is done, or with the fetching of the contract's source.
pub open spec fn started(chain_known: bool, request: RequestView) -> Result<
    (SimulationView, ActionView),
    SimulationError,
> {
    if !chain_known {
        Err(SimulationError::UnsupportedChainConfig)
    } else {
        match request_error(request) {
            Some(error) => Err(error),
            None => Ok(
                (
                    fresh(
                        request,
                        spec_of(request.settings.evm_version)->0,
                        request.contract->0,
                        request.tx_hash->0,
                        Stage::AwaitSource,
                        Seq::empty(),
                    ),
                    ActionView::FetchSource {
                        chain_id: request.chain_id,
                        address: request.contract->0,
                        api_key: request.api_key,
                    },
                ),
            ),
        }
    }
}

/// How a run starts that has its compiled code already: with an error
/// before anything is done, or with the lookup of the target transaction.
pub open spec fn started_with_code(request: RequestView, code: Seq<u8>) -> Result<
    (SimulationView, ActionView),
    SimulationError,
> {
    match request_error(request) {
        Some(error) => Err(error),
        None => Ok(
            (
                fresh(
                    request,
                    spec_of(request.settings.evm_version)->0,
                    request.contract->0,
                    request.tx_hash->0,
                    Stage::AwaitTransaction,
                    code,
                ),
                ActionView::FetchTransaction(request.tx_hash->0),
            ),
        ),
    }
}

/// The view of a start: the views of the run and of its first action, or
/// the error.
pub open spec fn start_view(r: Result<(Simulation, Action), SimulationError>) -> Result<
    (SimulationView, ActionView),
    SimulationError,
> {
    match r {
        Ok(pair) => Ok((pair.0@, pair.1@)),
        Err(e) => Err(e),
    }
}

/// What is wrong with a request, if anything, or the rules to run under.
fn check_request(settings: &Settings, contract: &Option<Address>, tx_hash: &Option<H256>) -> (r:
    Result<(SpecId, Address, H256), SimulationError>)
    ensures
        r matches Ok(ok) ==> spec_of(settings.evm_version) == Some(ok.0) && *contract == Some(ok.1)
            && *tx_hash == Some(ok.2),
        r matches Err(e) ==> (if spec_of(settings.evm_version) is None {
            e == SimulationError::UnsupportedChainConfig
        } else if *contract is None {
            e == SimulationError::SourceFetch
        } else {
            *tx_hash is None && e == SimulationError::ChainLookup
        }),
{
    let spec_id = match evm_spec(&settings.evm_version) {
        Ok(id) => id,
        Err(error) => {
            return Err(error);
        },
    };
    let contract = match contract {
        Some(a) => *a,
        None => {
            return Err(SimulationError::SourceFetch);
        },
    };
    let tx_hash = match tx_hash {
        Some(h) => *h,
        None => {
            return Err(SimulationError::ChainLookup);
        },
    };
    Ok((spec_id, contract, tx_hash))
}

impl Simulation {
    /// Starts a run on a chain of which the caller knows whether it is
    /// supported, for a contract and a transaction that have been read
    /// from their texts already (`None` where the text spelled none).
    ///
    /// Every fault of the request is found here, before anything is
    /// fetched and before a backend is started.
    pub fn start(
        chain_known: bool,
        chainid: u64,
        etherscan_api_key: String,
        contract: Option<Address>,
        tx_hash: Option<H256>,
        endpoint: String,
        method_type: MethodType,
        settings: &Settings,
        console: String,
    ) -> (r: Result<(Simulation, Action), SimulationError>)
        ensures
            start_view(r) == started(
                chain_known,
                RequestView {
                    chain_id: chainid,
                    api_key: etherscan_api_key@,
                    contract,
                    tx_hash,
                    endpoint: endpoint@,
                    method: method_type,
                    settings: *settings,
                    console: console@,
                },
            ),
    {
        if !chain_known {
            return Err(SimulationError::UnsupportedChainConfig);
        }
        let (spec_id, contract, tx_hash) = match check_request(settings, &contract, &tx_hash) {
            Ok(ok) => ok,
            Err(error) => {
                return Err(error);
            },
        };
        let api_key = etherscan_api_key.clone();
        let replay: Vec<Transaction> = Vec::new();
        assert(transactions_view(replay@) =~= Seq::<TransactionView>::empty());
        let simulation = Simulation {
            stage: Stage::AwaitSource,
            method: method_type,
            relaxation: settings.relaxation,
            spec_id,
            chain_id: chainid,
            api_key: etherscan_api_key,
            endpoint,
            console,
            contract,
            tx_hash,
            code: Vec::new(),
            target: None,
            context: None,
            replay,
            cursor: 0,
            pending: StateOverride::new(),
        };
        Ok((simulation, Action::FetchSource { chain_id: chainid, address: contract, api_key }))
    }

    /// Starts a run that has its compiled code already, for a contract and
    /// a transaction that have been read from their texts already.
    pub fn start_with_code(
        contract: Option<Address>,
        tx_hash: Option<H256>,
        endpoint: String,
        code: Vec<u8>,
        method_type: MethodType,
        settings: &Settings,
    ) -> (r: Result<(Simulation, Action), SimulationError>)
        ensures
            start_view(r) == started_with_code(
                RequestView {
                    chain_id: 0,
                    api_key: Seq::empty(),
                    contract,
                    tx_hash,
                    endpoint: endpoint@,
                    method: method_type,
                    settings: *settings,
                    console: Seq::empty(),
                },
                code@,
            ),
    {
        let (spec_id, contract, tx_hash) = match check_request(settings, &contract, &tx_hash) {
            Ok(ok) => ok,
            Err(error) => {
                return Err(error);
            },
        };
        let replay: Vec<Transaction> = Vec::new();
        assert(transactions_view(replay@) =~= Seq::<TransactionView>::empty());
        let simulation = Simulation {
            stage: Stage::AwaitTransaction,
            method: method_type,
            relaxation: settings.relaxation,
            spec_id,
            chain_id: 0,
            api_key: String::new(),
            endpoint,
            console: String::new(),
            contract,
            tx_hash,
            code,
            target: None,
            context: None,
            replay,
            cursor: 0,
            pending: StateOverride::new(),
        };
        Ok((simulation, Action::FetchTransaction(tx_hash)))
    }
}

/// The address that the text spells.
fn read_address(text: &str) -> (r: Option<Address>)
    ensures
        r == address_spelled(text@),
{
    let r = parse_address(text);
    proof {
        if let Some(a) = r {
            let b = address_spelled(text@)->0;
            assert(a.bytes@ == fixed_hex_parsed(text@, 20)->0);
            assert(b.bytes@ == a.bytes@);
            assert(a.bytes =~= b.bytes);
            assert(a == b);
        }
    }
    r
}

/// The hash that the text spells.
fn read_hash(text: &str) -> (r: Option<H256>)
    ensures
        r == hash_spelled(text@),
{
    let r = parse_hash(text);
    proof {
        if let Some(h) = r {
            let g = hash_spelled(text@)->0;
            assert(h.bytes@ == fixed_hex_parsed(text@, 32)->0);
            assert(g.bytes@ == h.bytes@);
            assert(h.bytes =~= g.bytes);
            assert(h == g);
        }
    }
    r
}

/// Starts the run that executes the transaction `tx_hash` of the chain
/// `chainid` again, against the instrumented code of the contract at
/// `contract_address`, and returns the run with its first action.
///
/// The caller performs each action and hands what came of it to
/// [`Simulation::step`], until the action is `Finish`, with the diagnostic
/// lines, or `Fail`. `console` is the text of the diagnostics library.
///
/// A chain that is not known, execution rules that are not supported, an
/// address or a hash that is none are errors here, before anything is
/// fetched.
pub fn run(
    chainid: u64,
    etherscan_api_key: String,
    contract_address: String,
    tx_hash: String,
    endpoint: String,
    method_type: MethodType,
    settings: &Settings,
    console: String,
) -> (r: Result<(Simulation, Action), SimulationError>)
    ensures
        start_view(r) == started(
            chain_is_known(chainid),
            RequestView {
                chain_id: chainid,
                api_key: etherscan_api_key@,
                contract: address_spelled(contract_address@),
                tx_hash: hash_spelled(tx_hash@),
                endpoint: endpoint@,
                method: method_type,
                settings: *settings,
                console: console@,
            },
        ),
{
    let chain_known = known_chain(chainid);
    let contract = read_address(contract_address.as_str());
    let hash = read_hash(tx_hash.as_str());
    Simulation::start(
        chain_known,
        chainid,
        etherscan_api_key,
        contract,
        hash,
        endpoint,
        method_type,
        settings,
        console,
    )
}

/// Starts the part of a run that follows the compiler: the run that
/// executes the transaction `tx_hash` against `code` in place of the code
/// of the contract at `contract_address`.
pub fn simulate_tx(
    endpoint: String,
    tx_hash: String,
    contract_address: String,
    code: Vec<u8>,
    method_type: MethodType,
    settings: &Settings,
) -> (r: Result<(Simulation, Action), SimulationError>)
    ensures
        start_view(r) == started_with_code(
            RequestView {
                chain_id: 0,
                api_key: Seq::empty(),
                contract: address_spelled(contract_address@),
                tx_hash: hash_spelled(tx_hash@),
                endpoint: endpoint@,
                method: method_type,
                settings: *settings,
                console: Seq::empty(),
            },
            code@,
        ),
{
    let contract = read_address(contract_address.as_str());
    let hash = read_hash(tx_hash.as_str());
    Simulation::start_with_code(contract, hash, endpoint, code, method_type, settings)
}

/// How far a run has come: a number that grows with every step but the
/// replay of one more transaction.
pub open spec fn progress(stage: Stage) -> nat {
    match stage {
        Stage::AwaitSource => 0,
        Stage::AwaitCompile => 1,
        Stage::AwaitTransaction => 2,
        Stage::AwaitBlock => 3,
        Stage::AwaitFork => 4,
        Stage::Replaying => 5,
        Stage::AwaitTrace => 5,
        Stage::AwaitPrestateAccounts => 6,
        Stage::AwaitPrestateApplied => 7,
        Stage::AwaitCodeAccounts => 8,
        Stage::AwaitCodeApplied => 9,
        Stage::Executing => 10,
        Stage::Done => 11,
        Stage::Failed => 12,
    }
}

/// A run only goes forward: a step brings it to a later stage, or replays
/// one more transaction, or leaves a failed run failed. So a run ends, and
/// it comes to each stage after the replay at most once.
pub proof fn law_run_goes_forward(s: SimulationView, event: EventView)
    ensures
        progress(step_of(s, event).0.stage) > progress(s.stage) || (s.stage == Stage::Replaying
            && step_of(s, event).0.stage == Stage::Replaying && step_of(s, event).0.cursor
            == s.cursor + 1) || (s.stage == Stage::Failed && step_of(s, event).0.stage
            == Stage::Failed),
{
}

/// Every execution that a run asks for follows the dispatch rule: a call
/// where its transaction has a recipient, a creation where it has none.
pub proof fn law_every_execution_is_dispatched_by_recipient(s: SimulationView, event: EventView)
    ensures
        step_of(s, event).1 matches ActionView::Execute(request) ==> (request.tx.to is Some
            ==> request.kind == DispatchKind::Call) && (request.tx.to is None ==> request.kind
            == DispatchKind::Create),
{
}

/// The target is executed exactly once in a run that ends with lines: the
/// run waits for the target's execution only after its one request for it,
/// which executes the relaxed target under the dispatch rule, and only from
/// there does it end with lines.
pub proof fn law_target_executes_once(s: SimulationView, event: EventView)
    ensures
        step_of(s, event).0.stage == Stage::Executing ==> s.stage == Stage::AwaitCodeApplied
            && s.target is Some && s.context is Some && target_execution(
            s.context->0,
            s.target->0,
            s.relaxation,
        ) is Ok && step_of(s, event).1 == ActionView::Execute(
            target_execution(s.context->0, s.target->0, s.relaxation)->Ok_0,
        ),
        step_of(s, event).1 is Finish ==> s.stage == Stage::Executing && step_of(s, event).0.stage
            == Stage::Done,
        step_of(s, event).0.stage == Stage::Done ==> step_of(s, event).1 is Finish,
{
}

/// The code is put in place of the contract's at the address that the run
/// was started for, whatever the recipient of the target is and whichever
/// way the state was rebuilt.
pub proof fn law_code_goes_to_the_contract(s: SimulationView, event: EventView)
    ensures
        step_of(s, event).0.stage == Stage::AwaitCodeAccounts ==> step_of(s, event).0.pending
            == code_override(s.contract, s.code) && step_of(s, event).1 == ActionView::ReadAccounts(
            seq![s.contract],
        ),
{
}

/// The chain is forked at the block before the target's, and every
/// execution runs in the context of the target's block.
pub proof fn law_fork_point(s: SimulationView, event: EventView)
    ensures
        step_of(s, event).1 matches ActionView::SpawnFork { fork_block_number, context, .. } ==> (
        s.target is Some && s.target->0.block_number == Some(context.number) && fork_block_number
            + 1 == context.number && step_of(s, event).0.context == Some(context)),
{
}

/// The record of the target transaction is taken once and never changed:
/// what is executed is a relaxed copy.
pub proof fn law_record_is_kept(s: SimulationView, event: EventView)
    ensures
        s.stage != Stage::AwaitTransaction ==> step_of(s, event).0.target == s.target,
        s.stage == Stage::AwaitTransaction && step_of(s, event).0.stage == Stage::AwaitBlock ==> (
        event matches EventView::TransactionFetched(tx) && step_of(s, event).0.target == Some(tx)),
{
}

} // verus!
