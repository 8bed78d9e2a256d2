//! The execution dispatcher: the block context and the transaction fields
//! that an execution runs under, the choice between a call and a contract
//! creation, and the selection of the diagnostic lines from what an
//! execution logged.

use vstd::prelude::*;
use crate::error::SimulationError;
use crate::transaction::{Block, BlockView, Transaction, TransactionView};
use crate::word::{zero_address, Address, H256, U256};

verus! {

/// How a transaction is executed.
#[derive(Clone, Copy, Debug, PartialEq, Eq, Hash, Structural)]
pub enum DispatchKind {
    /// As a call of its recipient.
    Call,
    /// As the creation of a contract.
    Create,
}

/// The dispatch rule: a transaction with a recipient is a call, one
/// without is a creation.
pub open spec fn kind_of(tx: TransactionView) -> DispatchKind {
    if tx.to is Some {
        DispatchKind::Call
    } else {
        DispatchKind::Create
    }
}

/// How the transaction is to be executed.
pub fn dispatch_kind(tx: &Transaction) -> (r: DispatchKind)
    ensures
        r == kind_of(tx@),
        r == DispatchKind::Call <==> tx.to is Some,
        r == DispatchKind::Create <==> tx.to is None,
{
    if tx.to.is_some() {
        DispatchKind::Call
    } else {
        DispatchKind::Create
    }
}

/// By how much the execution of the target transaction is eased, so that
/// instrumented code, which uses more gas than the code that ran on the
/// chain, does not fail for want of gas or fee. With any of these the gas
/// accounting of the run differs from that of the chain.
#[derive(Clone, Copy, Debug, PartialEq, Eq, Hash, Structural)]
pub struct Relaxation {
    /// What the gas price, the priority fee and the fee cap are forced to.
    pub nominal_fee: u64,
    /// What the block's base fee is forced to.
    pub base_fee: u64,
    /// By how much the gas limits of the block and of the target
    /// transaction are multiplied.
    pub gas_limit_factor: u64,
}

/// The relaxation in use where none is chosen: fees of 1 and gas limits
/// times 2000.
pub open spec fn standard_relaxation() -> Relaxation {
    Relaxation { nominal_fee: 1, base_fee: 1, gas_limit_factor: 2000 }
}

impl Relaxation {
    /// The relaxation in use where none is chosen.
    pub fn standard() -> (r: Relaxation)
        ensures
            r == standard_relaxation(),
    {
        Relaxation { nominal_fee: 1, base_fee: 1, gas_limit_factor: 2000 }
    }
}

impl Default for Relaxation {
    fn default() -> (r: Relaxation)
        ensures
            r == standard_relaxation(),
    {
        Relaxation::standard()
    }
}

/// The product of a gas limit and a factor, where it fits into 64 bits.
pub open spec fn scaled(limit: U256, factor: u64) -> Option<u64> {
    if limit.value() * factor <= u64::MAX {
        Some((limit.value() * factor) as u64)
    } else {
        None
    }
}

/// The product of a gas limit and a factor, where it fits into 64 bits.
pub fn scale_gas(limit: &U256, factor: u64) -> (r: Option<u64>)
    ensures
        r == scaled(*limit, factor),
{
    if factor == 0 {
        assert(limit.value() * 0 == 0);
        return Some(0);
    }
    match limit.to_u64() {
        Some(gas) => {
            assert(gas * factor <= 0xffff_ffff_ffff_ffff * 0xffff_ffff_ffff_ffff) by (nonlinear_arith)
                requires
                    gas <= 0xffff_ffff_ffff_ffff,
                    factor <= 0xffff_ffff_ffff_ffff,
            ;
            let product: u128 = (gas as u128) * (factor as u128);
            if product <= u64::MAX as u128 {
                Some(product as u64)
            } else {
                None
            }
        },
        None => {
            assert(limit.value() * factor >= limit.value()) by (nonlinear_arith)
                requires
                    factor >= 1,
            ;
            None
        },
    }
}

/// The block fields that an execution runs under.
#[derive(Clone, Copy, Debug, PartialEq, Eq, Hash)]
pub struct BlockContext {
    /// The block's number.
    pub number: u64,
    /// When the block was produced.
    pub timestamp: U256,
    /// Who receives the fees.
    pub coinbase: Address,
    /// The block's difficulty.
    pub difficulty: U256,
    /// The block's randomness.
    pub prevrandao: Option<H256>,
    /// The base fee, forced to its nominal value.
    pub basefee: U256,
    /// The gas limit, scaled up.
    pub gas_limit: u64,
}

/// The block context for executing in the block `block`, whose number is
/// `number`: the block's own fields, but the base fee forced to its
/// nominal value and the gas limit multiplied by the relaxation's factor.
/// A gas limit that leaves 64 bits is an unsupported chain configuration.
pub open spec fn block_context(number: u64, block: BlockView, relaxation: Relaxation) -> Result<
    BlockContext,
    SimulationError,
> {
    match scaled(block.gas_limit, relaxation.gas_limit_factor) {
        Some(gas_limit) => Ok(
            BlockContext {
                number,
                timestamp: block.timestamp,
                coinbase: match block.author {
                    Some(author) => author,
                    None => zero_address(),
                },
                difficulty: block.difficulty,
                prevrandao: block.mix_hash,
                basefee: U256 { hi: 0, lo: relaxation.base_fee as u128 },
                gas_limit,
            },
        ),
        None => Err(SimulationError::UnsupportedChainConfig),
    }
}

/// Works out the block context under which the transactions of `block` are
/// executed.
pub fn configure_env_for_executor(tx_block_number: u64, block: &Block, relaxation: &Relaxation) -> (r:
    Result<BlockContext, SimulationError>)
    ensures
        r == block_context(tx_block_number, block@, *relaxation),
{
    let gas_limit = match scale_gas(&block.gas_limit, relaxation.gas_limit_factor) {
        Some(gas_limit) => gas_limit,
        None => {
            return Err(SimulationError::UnsupportedChainConfig);
        },
    };
    let coinbase = match block.author {
        Some(author) => author,
        None => Address::zero(),
    };
    Ok(
        BlockContext {
            number: tx_block_number,
            timestamp: block.timestamp,
            coinbase,
            difficulty: block.difficulty,
            prevrandao: block.mix_hash,
            basefee: U256::from_u64(relaxation.base_fee),
            gas_limit,
        },
    )
}

/// The versions of the execution rules that a compiler can target.
#[derive(Clone, Copy, Debug, PartialEq, Eq, Hash, Structural)]
pub enum EvmVersion {
    Homestead,
    TangerineWhistle,
    SpuriousDragon,
    Byzantium,
    Constantinople,
    Petersburg,
    Istanbul,
    Berlin,
    London,
    Paris,
    Shanghai,
}

/// The versions of the execution rules that the backend is run under.
#[derive(Clone, Copy, Debug, PartialEq, Eq, Hash, Structural)]
pub enum SpecId {
    Istanbul,
    Berlin,
    London,
    Merge,
}

/// The backend's rules for a compiler target, where they are supported.
pub open spec fn spec_of(evm: EvmVersion) -> Option<SpecId> {
    match evm {
        EvmVersion::Istanbul => Some(SpecId::Istanbul),
        EvmVersion::Berlin => Some(SpecId::Berlin),
        EvmVersion::London => Some(SpecId::London),
        EvmVersion::Paris => Some(SpecId::Merge),
        _ => None,
    }
}

/// The backend's rules for a compiler target. Targets before Istanbul and
/// after Paris are an unsupported chain configuration.
pub fn evm_spec(evm: &EvmVersion) -> (r: Result<SpecId, SimulationError>)
    ensures
        r is Ok <==> spec_of(*evm) is Some,
        r matches Ok(id) ==> Some(id) == spec_of(*evm),
        r matches Err(e) ==> e == SimulationError::UnsupportedChainConfig,
{
    match evm {
        EvmVersion::Istanbul => Ok(SpecId::Istanbul),
        EvmVersion::Berlin => Ok(SpecId::Berlin),
        EvmVersion::London => Ok(SpecId::London),
        EvmVersion::Paris => Ok(SpecId::Merge),
        _ => Err(SimulationError::UnsupportedChainConfig),
    }
}

/// The working copy of a transaction under a relaxation: the gas price,
/// the priority fee and the fee cap forced to the nominal fee, all else as
/// in the record.
pub open spec fn relaxed(tx: TransactionView, relaxation: Relaxation) -> TransactionView {
    TransactionView {
        gas_price: Some(U256 { hi: 0, lo: relaxation.nominal_fee as u128 }),
        max_priority_fee_per_gas: Some(U256 { hi: 0, lo: relaxation.nominal_fee as u128 }),
        max_fee_per_gas: Some(U256 { hi: 0, lo: relaxation.nominal_fee as u128 }),
        ..tx
    }
}

/// The working copy of a transaction under a relaxation. The record itself
/// stays as it is.
pub fn relax_transaction(tx: &Transaction, relaxation: &Relaxation) -> (r: Transaction)
    ensures
        r@ == relaxed(tx@, *relaxation),
{
    let mut copy = tx.clone();
    copy.gas_price = Some(U256::from_u64(relaxation.nominal_fee));
    copy.max_priority_fee_per_gas = Some(U256::from_u64(relaxation.nominal_fee));
    copy.max_fee_per_gas = Some(U256::from_u64(relaxation.nominal_fee));
    copy
}

/// One execution to perform on the backend.
#[derive(Debug, PartialEq, Eq)]
pub struct ExecutionRequest {
    /// The block context to execute under.
    pub block: BlockContext,
    /// The transaction whose fields make up the execution.
    pub tx: Transaction,
    /// The gas limit of the execution.
    pub gas_limit: u64,
    /// Whether to execute as a call or as a creation.
    pub kind: DispatchKind,
}

/// The mathematical value of an [`ExecutionRequest`].
pub ghost struct ExecutionRequestView {
    pub block: BlockContext,
    pub tx: TransactionView,
    pub gas_limit: u64,
    pub kind: DispatchKind,
}

impl View for ExecutionRequest {
    type V = ExecutionRequestView;

    open spec fn view(&self) -> ExecutionRequestView {
        ExecutionRequestView {
            block: self.block,
            tx: self.tx@,
            gas_limit: self.gas_limit,
            kind: self.kind,
        }
    }
}

/// The view of a request or an error.
pub open spec fn request_view(r: Result<ExecutionRequest, SimulationError>) -> Result<
    ExecutionRequestView,
    SimulationError,
> {
    match r {
        Ok(request) => Ok(request@),
        Err(e) => Err(e),
    }
}

/// The execution of the target transaction: its relaxed working copy, its
/// gas limit multiplied by the relaxation's factor, dispatched by the
/// record's recipient. A gas limit that leaves 64 bits cannot be executed.
pub open spec fn target_execution(
    block: BlockContext,
    tx: TransactionView,
    relaxation: Relaxation,
) -> Result<ExecutionRequestView, SimulationError> {
    match scaled(tx.gas, relaxation.gas_limit_factor) {
        Some(gas_limit) => Ok(
            ExecutionRequestView {
                block,
                tx: relaxed(tx, relaxation),
                gas_limit,
                kind: kind_of(tx),
            },
        ),
        None => Err(SimulationError::Execution),
    }
}

/// The execution of a transaction that precedes the target: as the chain
/// ran it, with its own fees and gas limit.
pub open spec fn replay_execution(block: BlockContext, tx: TransactionView) -> Result<
    ExecutionRequestView,
    SimulationError,
> {
    match scaled(tx.gas, 1) {
        Some(gas_limit) => Ok(ExecutionRequestView { block, tx, gas_limit, kind: kind_of(tx) }),
        None => Err(SimulationError::Execution),
    }
}

/// The request to execute the target transaction.
pub fn target_request(block: &BlockContext, tx: &Transaction, relaxation: &Relaxation) -> (r: Result<
    ExecutionRequest,
    SimulationError,
>)
    ensures
        request_view(r) == target_execution(*block, tx@, *relaxation),
{
    match scale_gas(&tx.gas, relaxation.gas_limit_factor) {
        Some(gas_limit) => Ok(
            ExecutionRequest {
                block: *block,
                tx: relax_transaction(tx, relaxation),
                gas_limit,
                kind: dispatch_kind(tx),
            },
        ),
        None => Err(SimulationError::Execution),
    }
}

/// The request to execute a transaction that precedes the target.
pub fn replay_request(block: &BlockContext, tx: &Transaction) -> (r: Result<
    ExecutionRequest,
    SimulationError,
>)
    ensures
        request_view(r) == replay_execution(*block, tx@),
{
    match scale_gas(&tx.gas, 1) {
        Some(gas_limit) => Ok(
            ExecutionRequest { block: *block, tx: tx.clone(), gas_limit, kind: dispatch_kind(tx) },
        ),
        None => Err(SimulationError::Execution),
    }
}

/// Every execution is dispatched by the recipient of its transaction: a
/// call where there is one, a creation where there is none, and never
/// both. Relaxing a transaction does not change how it is dispatched.
pub proof fn law_dispatch_rule(block: BlockContext, tx: TransactionView, relaxation: Relaxation)
    ensures
        tx.to is Some ==> kind_of(tx) == DispatchKind::Call,
        tx.to is None ==> kind_of(tx) == DispatchKind::Create,
        kind_of(relaxed(tx, relaxation)) == kind_of(tx),
        target_execution(block, tx, relaxation) matches Ok(request) ==> request.kind == kind_of(tx),
        replay_execution(block, tx) matches Ok(request) ==> request.kind == kind_of(tx),
{
}

} // verus!
