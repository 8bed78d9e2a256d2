//! The state reconstructor: what brings a backend that is pinned before the
//! target's block to the state just before the target transaction, either
//! by replaying the block's earlier transactions or by applying the traced
//! pre-state.

use vstd::prelude::*;
use crate::error::SimulationError;
use crate::overrides::{Entries, StateOverride};
use crate::prestate::{apply_pre_state, overrides_view, prestate_overrides, PreStateFrame};
use crate::transaction::{
    lemma_transactions_view_push, transactions_view, Block, Transaction, TransactionView,
};

verus! {

/// Whether `tx` stands at place `index` of its block.
pub open spec fn is_target(tx: TransactionView, index: u64) -> bool {
    tx.transaction_index == Some(index)
}

/// Whether `tx` stands before place `index` of its block.
pub open spec fn precedes(tx: TransactionView, index: u64) -> bool {
    tx.transaction_index matches Some(i) && i < index
}

/// The position, from `from` on, of the first transaction at place
/// `index`; the length of `txs` where there is none.
pub open spec fn target_position(txs: Seq<TransactionView>, index: u64, from: int) -> int
    decreases txs.len() - from,
{
    if 0 <= from < txs.len() && !is_target(txs[from], index) {
        target_position(txs, index, from + 1)
    } else {
        from
    }
}

/// The transactions that are listed before the target.
pub open spec fn listed_before(txs: Seq<TransactionView>, index: u64) -> Seq<TransactionView> {
    txs.take(target_position(txs, index, 0))
}

/// The transactions to replay before the transaction at place `index`, in
/// the order of the block: of those listed before it, the ones whose place
/// is less than `index`. A transaction without a place among those listed
/// before the target is a failed chain lookup.
pub open spec fn replay_plan(txs: Seq<TransactionView>, index: u64) -> Result<
    Seq<TransactionView>,
    SimulationError,
> {
    let head = listed_before(txs, index);
    if exists|i: int| 0 <= i < head.len() && (#[trigger] head[i]).transaction_index is None {
        Err(SimulationError::ChainLookup)
    } else {
        Ok(head.filter(|tx: TransactionView| precedes(tx, index)))
    }
}

/// The view of a list of transactions or an error.
pub open spec fn plan_of(r: Result<Vec<Transaction>, SimulationError>) -> Result<
    Seq<TransactionView>,
    SimulationError,
> {
    match r {
        Ok(txs) => Ok(transactions_view(txs@)),
        Err(e) => Err(e),
    }
}

/// Where no transaction from `from` up to `to` is the target and the
/// target or the end of the list follows, the target's position is `to`.
pub proof fn lemma_target_position_is(txs: Seq<TransactionView>, index: u64, from: int, to: int)
    requires
        0 <= from <= to <= txs.len(),
        forall|p: int| from <= p < to ==> !is_target(#[trigger] txs[p], index),
        to < txs.len() ==> is_target(txs[to], index),
    ensures
        target_position(txs, index, from) == to,
    decreases to - from,
{
    if from < to {
        lemma_target_position_is(txs, index, from + 1, to);
    }
}

/// In a block whose transactions stand at their places, the plan for the
/// transaction at place `index` is exactly the transactions before it.
pub proof fn law_replay_is_the_predecessors(txs: Seq<TransactionView>, index: u64)
    requires
        index <= txs.len(),
        forall|i: int| 0 <= i < txs.len() ==> (#[trigger] txs[i]).transaction_index == Some(i as u64),
    ensures
        replay_plan(txs, index) == Ok::<Seq<TransactionView>, SimulationError>(txs.take(index as int)),
{
    lemma_target_position_is(txs, index, 0, index as int);
    let head = txs.take(index as int);
    let pred = |tx: TransactionView| precedes(tx, index);
    assert forall|i: int| 0 <= i < head.len() implies pred(#[trigger] head[i]) by {
        assert(head[i] == txs[i]);
    }
    lemma_filter_all(head, pred);
}

/// A filter that every element passes keeps the sequence.
proof fn lemma_filter_all(s: Seq<TransactionView>, pred: spec_fn(TransactionView) -> bool)
    requires
        forall|i: int| 0 <= i < s.len() ==> pred(#[trigger] s[i]),
    ensures
        s.filter(pred) == s,
    decreases s.len(),
{
    reveal(Seq::filter);
    if s.len() > 0 {
        lemma_filter_all(s.drop_last(), pred);
        assert(s.drop_last().push(s.last()) =~= s);
    }
}

/// Lists the transactions to replay, in order, so that the backend comes to
/// the state just before the transaction at place `tx_index` of `block`.
///
/// The list stops at the first transaction at place `tx_index`; of the
/// transactions before it, those at a lesser place are replayed.
pub fn prepare_fork_state_plain(block: &Block, tx_index: u64) -> (r: Result<
    Vec<Transaction>,
    SimulationError,
>)
    ensures
        plan_of(r) == replay_plan(block@.transactions, tx_index),
{
    let ghost txs = block@.transactions;
    let ghost pred = |tx: TransactionView| precedes(tx, tx_index);
    let mut out: Vec<Transaction> = Vec::new();
    let mut i: usize = 0;
    let mut stop = false;
    assert(txs.take(0) =~= Seq::<TransactionView>::empty());
    assert(transactions_view(out@) =~= Seq::<TransactionView>::empty());
    proof {
        reveal(Seq::filter);
    }
    while i < block.transactions.len() && !stop
        invariant
            i <= block.transactions.len(),
            txs == transactions_view(block.transactions@),
            pred == |tx: TransactionView| precedes(tx, tx_index),
            forall|p: int| 0 <= p < i ==> !is_target(#[trigger] txs[p], tx_index),
            forall|p: int| 0 <= p < i ==> (#[trigger] txs[p]).transaction_index is Some,
            stop ==> i < block.transactions.len() && is_target(txs[i as int], tx_index),
            transactions_view(out@) == txs.take(i as int).filter(pred),
        decreases block.transactions.len() - i + (if stop { 0int } else { 1int }),
    {
        let tx = &block.transactions[i];
        assert(tx@ == txs[i as int]);
        match tx.transaction_index {
            Some(place) => {
                if place == tx_index {
                    stop = true;
                } else {
                    proof {
                        txs.take(i as int).lemma_filter_push(tx@, pred);
                        assert(txs.take(i as int).push(tx@) =~= txs.take(i + 1));
                    }
                    if place < tx_index {
                        let copy = tx.clone();
                        proof {
                            lemma_transactions_view_push(out@, copy);
                        }
                        out.push(copy);
                    }
                    i += 1;
                }
            },
            None => {
                proof {
                    assert(forall|p: int| 0 <= p <= i ==> !is_target(#[trigger] txs[p], tx_index));
                    let to = target_position(txs, tx_index, i + 1);
                    lemma_target_position_from(txs, tx_index, 0, i + 1);
                    lemma_target_position_bounds(txs, tx_index, i + 1);
                    let head = listed_before(txs, tx_index);
                    assert(head[i as int] == txs[i as int]);
                }
                return Err(SimulationError::ChainLookup);
            },
        }
    }
    proof {
        lemma_target_position_is(txs, tx_index, 0, i as int);
        let head = listed_before(txs, tx_index);
        assert forall|p: int| 0 <= p < head.len() implies (#[trigger] head[p]).transaction_index
            is Some by {
            assert(head[p] == txs[p]);
        }
    }
    Ok(out)
}

/// Where no transaction from `from` up to `to` is the target, the target's
/// position from `from` on is its position from `to` on.
pub proof fn lemma_target_position_from(txs: Seq<TransactionView>, index: u64, from: int, to: int)
    requires
        0 <= from <= to <= txs.len(),
        forall|p: int| from <= p < to ==> !is_target(#[trigger] txs[p], index),
    ensures
        target_position(txs, index, from) == target_position(txs, index, to),
    decreases to - from,
{
    if from < to {
        lemma_target_position_from(txs, index, from + 1, to);
    }
}

/// The target's position from `from` on lies between `from` and the end.
pub proof fn lemma_target_position_bounds(txs: Seq<TransactionView>, index: u64, from: int)
    requires
        0 <= from <= txs.len(),
    ensures
        from <= target_position(txs, index, from) <= txs.len(),
    decreases txs.len() - from,
{
    if from < txs.len() && !is_target(txs[from], index) {
        lemma_target_position_bounds(txs, index, from + 1);
    }
}

/// What a debug trace of a transaction came back as.
#[derive(Debug, PartialEq, Eq)]
pub enum GethTrace {
    /// The frame of the pre-state tracer.
    PreStateTracer(PreStateFrame),
    /// Anything else.
    Other,
}

/// What a trace comes to: the override set of a pre-state frame;
/// `UnsupportedTraceFormat` for anything else.
pub open spec fn trace_overrides(trace: GethTrace) -> Result<Entries, SimulationError> {
    match trace {
        GethTrace::PreStateTracer(frame) => prestate_overrides(frame),
        GethTrace::Other => Err(SimulationError::UnsupportedTraceFormat),
    }
}

/// Turns the debug trace of the target transaction into the override set
/// that brings the backend to the state just before that transaction,
/// without any replay.
pub fn prepare_fork_state_debug(trace: &GethTrace) -> (r: Result<StateOverride, SimulationError>)
    ensures
        overrides_view(r) == trace_overrides(*trace),
{
    match trace {
        GethTrace::PreStateTracer(frame) => apply_pre_state(frame),
        GethTrace::Other => Err(SimulationError::UnsupportedTraceFormat),
    }
}

} // verus!
