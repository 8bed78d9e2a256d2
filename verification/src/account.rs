//! Accounts as the execution backend holds them, and the operations by
//! which the backend is changed.

use vstd::prelude::*;
use crate::codec::{keccak256, keccak256_digest};
use crate::word::{Address, H256, U256};

verus! {

/// One storage slot of an account.
#[derive(Clone, Copy, Debug, PartialEq, Eq, Hash, Structural)]
pub struct StorageSlot {
    /// The slot's number.
    pub key: U256,
    /// What the slot holds.
    pub value: U256,
}

/// What the backend keeps of an account besides its storage.
#[derive(Debug, PartialEq, Eq)]
pub struct AccountInfo {
    /// The number of transactions sent from the account.
    pub nonce: u64,
    /// The account's balance.
    pub balance: U256,
    /// The Keccak-256 digest of the account's code.
    pub code_hash: H256,
    /// The account's code, where the backend has loaded it.
    pub code: Option<Vec<u8>>,
}

/// The mathematical value of an [`AccountInfo`].
pub ghost struct AccountInfoView {
    pub nonce: u64,
    pub balance: U256,
    pub code_hash: Seq<u8>,
    pub code: Option<Seq<u8>>,
}

/// The view of optional bytes.
pub open spec fn bytes_view(bytes: Option<Vec<u8>>) -> Option<Seq<u8>> {
    match bytes {
        Some(b) => Some(b@),
        None => None,
    }
}

impl View for AccountInfo {
    type V = AccountInfoView;

    open spec fn view(&self) -> AccountInfoView {
        AccountInfoView {
            nonce: self.nonce,
            balance: self.balance,
            code_hash: self.code_hash.bytes@,
            code: bytes_view(self.code),
        }
    }
}

/// The account that the backend assumes where it knows none: no nonce, no
/// balance, empty code.
pub open spec fn empty_account() -> AccountInfoView {
    AccountInfoView {
        nonce: 0,
        balance: U256 { hi: 0, lo: 0 },
        code_hash: keccak256_digest(Seq::empty()),
        code: Some(Seq::empty()),
    }
}

/// A copy of optional bytes.
pub fn copy_bytes(bytes: &Option<Vec<u8>>) -> (r: Option<Vec<u8>>)
    ensures
        bytes_view(r) == bytes_view(*bytes),
{
    match bytes {
        Some(b) => {
            let c = b.clone();
            assert(c@ =~= b@);
            Some(c)
        },
        None => None,
    }
}

impl AccountInfo {
    /// The account that stands for an unknown one.
    pub fn empty() -> (r: AccountInfo)
        ensures
            r@ == empty_account(),
    {
        let code: Vec<u8> = Vec::new();
        let code_hash = keccak256(code.as_slice());
        AccountInfo { nonce: 0, balance: U256::zero(), code_hash, code: Some(code) }
    }
}

impl Clone for AccountInfo {
    fn clone(&self) -> (r: AccountInfo)
        ensures
            r@ == self@,
    {
        AccountInfo {
            nonce: self.nonce,
            balance: self.balance,
            code_hash: self.code_hash,
            code: copy_bytes(&self.code),
        }
    }
}

/// The view of an account that may be missing.
pub open spec fn info_view(info: Option<AccountInfo>) -> Option<AccountInfoView> {
    match info {
        Some(i) => Some(i@),
        None => None,
    }
}

/// The views of accounts that may be missing, one for one.
pub open spec fn infos_view(infos: Seq<Option<AccountInfo>>) -> Seq<Option<AccountInfoView>> {
    Seq::new(infos.len(), |i: int| info_view(infos[i]))
}

/// One change to the backend.
#[derive(Debug, PartialEq, Eq)]
pub enum BackendOp {
    /// Store the account's nonce, balance and code.
    InsertAccountInfo { address: Address, info: AccountInfo },
    /// Drop all storage of the account and store these slots instead.
    ReplaceStorage { address: Address, slots: Vec<StorageSlot> },
    /// Store one slot and leave the others as they are.
    InsertStorageSlot { address: Address, key: U256, value: U256 },
}

/// The mathematical value of a [`BackendOp`].
pub ghost enum BackendOpView {
    InsertAccountInfo { address: Address, info: AccountInfoView },
    ReplaceStorage { address: Address, slots: Seq<StorageSlot> },
    InsertStorageSlot { address: Address, key: U256, value: U256 },
}

impl View for BackendOp {
    type V = BackendOpView;

    open spec fn view(&self) -> BackendOpView {
        match *self {
            BackendOp::InsertAccountInfo { address, info } => BackendOpView::InsertAccountInfo {
                address,
                info: info@,
            },
            BackendOp::ReplaceStorage { address, slots } => BackendOpView::ReplaceStorage {
                address,
                slots: slots@,
            },
            BackendOp::InsertStorageSlot { address, key, value } => BackendOpView::InsertStorageSlot {
                address,
                key,
                value,
            },
        }
    }
}

/// The views of a list of operations, one for one.
pub open spec fn ops_view(ops: Seq<BackendOp>) -> Seq<BackendOpView> {
    Seq::new(ops.len(), |i: int| ops[i]@)
}

} // verus!
