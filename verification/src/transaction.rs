//! Transactions and blocks as the chain reports them.

use vstd::prelude::*;
use crate::word::{Address, H256, U256};

verus! {

/// A mined transaction. The record of the target transaction is never
/// changed; what is executed is a working copy.
#[derive(Debug, PartialEq, Eq)]
pub struct Transaction {
    /// The transaction's hash.
    pub hash: H256,
    /// The hash of the block that holds it; `None` while it is pending.
    pub block_hash: Option<H256>,
    /// The number of that block.
    pub block_number: Option<u64>,
    /// Its place in that block.
    pub transaction_index: Option<u64>,
    /// The sender.
    pub from: Address,
    /// The recipient; `None` where the transaction creates a contract.
    pub to: Option<Address>,
    /// The call data.
    pub input: Vec<u8>,
    /// The gas limit.
    pub gas: U256,
    /// The gas price.
    pub gas_price: Option<U256>,
    /// The most that is paid to the block's producer per unit of gas.
    pub max_priority_fee_per_gas: Option<U256>,
    /// The most that is paid per unit of gas in all.
    pub max_fee_per_gas: Option<U256>,
    /// The value sent along.
    pub value: U256,
    /// The sender's nonce.
    pub nonce: U256,
}

/// The mathematical value of a [`Transaction`].
pub ghost struct TransactionView {
    pub hash: H256,
    pub block_hash: Option<H256>,
    pub block_number: Option<u64>,
    pub transaction_index: Option<u64>,
    pub from: Address,
    pub to: Option<Address>,
    pub input: Seq<u8>,
    pub gas: U256,
    pub gas_price: Option<U256>,
    pub max_priority_fee_per_gas: Option<U256>,
    pub max_fee_per_gas: Option<U256>,
    pub value: U256,
    pub nonce: U256,
}

impl View for Transaction {
    type V = TransactionView;

    open spec fn view(&self) -> TransactionView {
        TransactionView {
            hash: self.hash,
            block_hash: self.block_hash,
            block_number: self.block_number,
            transaction_index: self.transaction_index,
            from: self.from,
            to: self.to,
            input: self.input@,
            gas: self.gas,
            gas_price: self.gas_price,
            max_priority_fee_per_gas: self.max_priority_fee_per_gas,
            max_fee_per_gas: self.max_fee_per_gas,
            value: self.value,
            nonce: self.nonce,
        }
    }
}

impl Clone for Transaction {
    fn clone(&self) -> (r: Transaction)
        ensures
            r@ == self@,
    {
        let input = self.input.clone();
        assert(input@ =~= self.input@);
        Transaction {
            hash: self.hash,
            block_hash: self.block_hash,
            block_number: self.block_number,
            transaction_index: self.transaction_index,
            from: self.from,
            to: self.to,
            input,
            gas: self.gas,
            gas_price: self.gas_price,
            max_priority_fee_per_gas: self.max_priority_fee_per_gas,
            max_fee_per_gas: self.max_fee_per_gas,
            value: self.value,
            nonce: self.nonce,
        }
    }
}

/// The views of transactions, one for one.
pub open spec fn transactions_view(txs: Seq<Transaction>) -> Seq<TransactionView> {
    Seq::new(txs.len(), |i: int| txs[i]@)
}

/// The views of transactions with one more are the views with one more.
pub proof fn lemma_transactions_view_push(txs: Seq<Transaction>, tx: Transaction)
    ensures
        transactions_view(txs.push(tx)) == transactions_view(txs).push(tx@),
{
    assert(transactions_view(txs.push(tx)) =~= transactions_view(txs).push(tx@));
}

/// A block with its transactions in their order.
#[derive(Debug, PartialEq, Eq)]
pub struct Block {
    /// When the block was produced.
    pub timestamp: U256,
    /// Who produced it.
    pub author: Option<Address>,
    /// The block's difficulty.
    pub difficulty: U256,
    /// The block's mix hash, which serves as its randomness.
    pub mix_hash: Option<H256>,
    /// The gas that the block's transactions may use together.
    pub gas_limit: U256,
    /// The block's transactions.
    pub transactions: Vec<Transaction>,
}

/// The mathematical value of a [`Block`].
pub ghost struct BlockView {
    pub timestamp: U256,
    pub author: Option<Address>,
    pub difficulty: U256,
    pub mix_hash: Option<H256>,
    pub gas_limit: U256,
    pub transactions: Seq<TransactionView>,
}

impl View for Block {
    type V = BlockView;

    open spec fn view(&self) -> BlockView {
        BlockView {
            timestamp: self.timestamp,
            author: self.author,
            difficulty: self.difficulty,
            mix_hash: self.mix_hash,
            gas_limit: self.gas_limit,
            transactions: transactions_view(self.transactions@),
        }
    }
}

} // verus!
