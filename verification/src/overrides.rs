//! Per-account overrides and their application to the backend.
//!
//! An override set never touches the backend by itself: applying it yields
//! the backend operations to perform, in order, or an error and no
//! operation at all.

use vstd::prelude::*;
use crate::account::{
    copy_bytes, bytes_view, empty_account, info_view, infos_view, ops_view, AccountInfo,
    AccountInfoView, BackendOp, BackendOpView, StorageSlot,
};
use crate::codec::{keccak256, keccak256_digest};
use crate::error::SimulationError;
use crate::word::{Address, H256, U256};

verus! {

/// What to force onto one account. Each part that is `None` leaves the
/// account as the fork has it.
#[derive(Debug, PartialEq, Eq)]
pub struct AccountOverride {
    /// The nonce to set.
    pub nonce: Option<u64>,
    /// The code to set; its hash follows from it.
    pub code: Option<Vec<u8>>,
    /// The balance to set.
    pub balance: Option<U256>,
    /// Storage that replaces all storage of the account.
    pub state: Option<Vec<StorageSlot>>,
    /// Slots to write over the storage that the account has.
    pub state_diff: Option<Vec<StorageSlot>>,
}

/// The mathematical value of an [`AccountOverride`].
pub ghost struct AccountOverrideView {
    pub nonce: Option<u64>,
    pub code: Option<Seq<u8>>,
    pub balance: Option<U256>,
    pub state: Option<Seq<StorageSlot>>,
    pub state_diff: Option<Seq<StorageSlot>>,
}

/// The view of an optional list of slots.
pub open spec fn slots_view(slots: Option<Vec<StorageSlot>>) -> Option<Seq<StorageSlot>> {
    match slots {
        Some(s) => Some(s@),
        None => None,
    }
}

impl View for AccountOverride {
    type V = AccountOverrideView;

    open spec fn view(&self) -> AccountOverrideView {
        AccountOverrideView {
            nonce: self.nonce,
            code: bytes_view(self.code),
            balance: self.balance,
            state: slots_view(self.state),
            state_diff: slots_view(self.state_diff),
        }
    }
}

/// The override that forces nothing.
pub open spec fn no_override() -> AccountOverrideView {
    AccountOverrideView { nonce: None, code: None, balance: None, state: None, state_diff: None }
}

/// A copy of an optional list of slots.
pub fn copy_slots(slots: &Option<Vec<StorageSlot>>) -> (r: Option<Vec<StorageSlot>>)
    ensures
        slots_view(r) == slots_view(*slots),
{
    match slots {
        Some(s) => {
            let mut c: Vec<StorageSlot> = Vec::new();
            let mut i: usize = 0;
            while i < s.len()
                invariant
                    i <= s.len(),
                    c@ == s@.take(i as int),
                decreases s.len() - i,
            {
                c.push(s[i]);
                i += 1;
                assert(c@ =~= s@.take(i as int));
            }
            assert(s@.take(s.len() as int) =~= s@);
            Some(c)
        },
        None => None,
    }
}

impl AccountOverride {
    /// The override that forces nothing.
    pub fn none() -> (r: AccountOverride)
        ensures
            r@ == no_override(),
    {
        AccountOverride { nonce: None, code: None, balance: None, state: None, state_diff: None }
    }

    /// The override that forces the account's code and nothing else.
    pub fn with_code(code: Vec<u8>) -> (r: AccountOverride)
        ensures
            r@ == (AccountOverrideView { code: Some(code@), ..no_override() }),
    {
        AccountOverride { nonce: None, code: Some(code), balance: None, state: None, state_diff: None }
    }

    /// Whether the override sets both `state` and `state_diff`.
    pub fn is_conflicting(&self) -> (r: bool)
        ensures
            r == conflicting(self@),
    {
        self.state.is_some() && self.state_diff.is_some()
    }
}

impl Clone for AccountOverride {
    fn clone(&self) -> (r: AccountOverride)
        ensures
            r@ == self@,
    {
        AccountOverride {
            nonce: self.nonce,
            code: copy_bytes(&self.code),
            balance: self.balance,
            state: copy_slots(&self.state),
            state_diff: copy_slots(&self.state_diff),
        }
    }
}

impl Default for AccountOverride {
    fn default() -> (r: AccountOverride)
        ensures
            r@ == no_override(),
    {
        AccountOverride::none()
    }
}

/// Whether an override asks both to replace and to patch the storage.
pub open spec fn conflicting(account: AccountOverrideView) -> bool {
    account.state is Some && account.state_diff is Some
}

/// The entries of an override set: each address with its override.
pub type Entries = Seq<(Address, AccountOverrideView)>;

/// Whether some entry is for `address`.
pub open spec fn has_address(entries: Entries, address: Address) -> bool {
    exists|i: int| 0 <= i < entries.len() && (#[trigger] entries[i]).0 == address
}

/// Whether no address occurs twice.
pub open spec fn distinct_addresses(entries: Entries) -> bool {
    forall|i: int, j: int|
        0 <= i < j < entries.len() ==> (#[trigger] entries[i]).0 != (#[trigger] entries[j]).0
}

/// The entries after `address` has been given `account`: in place of the
/// entry that `address` had, else at the end.
pub open spec fn inserted(entries: Entries, address: Address, account: AccountOverrideView) -> Entries {
    if has_address(entries, address) {
        Seq::new(
            entries.len(),
            |i: int|
                if entries[i].0 == address {
                    (address, account)
                } else {
                    entries[i]
                },
        )
    } else {
        entries.push((address, account))
    }
}

/// One entry of an override set.
#[derive(Debug, PartialEq, Eq)]
struct OverrideEntry {
    address: Address,
    account: AccountOverride,
}

/// A set of overrides, one per address, in the order in which the addresses
/// were first given.
#[derive(Debug, PartialEq, Eq)]
pub struct StateOverride {
    entries: Vec<OverrideEntry>,
}

impl View for StateOverride {
    type V = Entries;

    closed spec fn view(&self) -> Entries {
        Seq::new(self.entries@.len(), |i: int| (self.entries@[i].address, self.entries@[i].account@))
    }
}

impl StateOverride {
    #[verifier::type_invariant]
    spec fn inv(&self) -> bool {
        distinct_addresses(self@)
    }

    /// The empty set.
    pub fn new() -> (r: StateOverride)
        ensures
            r@ == Seq::<(Address, AccountOverrideView)>::empty(),
    {
        let r = StateOverride { entries: Vec::new() };
        assert(r@ =~= Seq::<(Address, AccountOverrideView)>::empty());
        r
    }

    /// The number of accounts in the set, none of which occurs twice.
    pub fn len(&self) -> (r: usize)
        ensures
            r == self@.len(),
            distinct_addresses(self@),
    {
        proof {
            use_type_invariant(self);
        }
        self.entries.len()
    }

    /// The address of the entry at `index`.
    pub fn address_at(&self, index: usize) -> (r: Option<Address>)
        ensures
            r == (if index < self@.len() {
                Some(self@[index as int].0)
            } else {
                None
            }),
    {
        if index < self.entries.len() {
            Some(self.entries[index].address)
        } else {
            None
        }
    }

    /// The override of the entry at `index`.
    pub fn account_at(&self, index: usize) -> (r: Option<&AccountOverride>)
        ensures
            index < self@.len() <==> r is Some,
            r matches Some(a) ==> a@ == self@[index as int].1,
    {
        if index < self.entries.len() {
            Some(&self.entries[index].account)
        } else {
            None
        }
    }

    /// The addresses of the set, in its order.
    pub fn addresses(&self) -> (r: Vec<Address>)
        ensures
            r@ == self@.map_values(|e: (Address, AccountOverrideView)| e.0),
    {
        let mut out: Vec<Address> = Vec::new();
        let mut i: usize = 0;
        while i < self.entries.len()
            invariant
                i <= self.entries.len(),
                out@ == self@.map_values(|e: (Address, AccountOverrideView)| e.0).take(i as int),
            decreases self.entries.len() - i,
        {
            out.push(self.entries[i].address);
            i += 1;
            assert(out@ =~= self@.map_values(|e: (Address, AccountOverrideView)| e.0).take(i as int));
        }
        assert(out@ =~= self@.map_values(|e: (Address, AccountOverrideView)| e.0));
        out
    }

    /// Gives `address` the override `account`, in place of the one it had.
    pub fn insert(&mut self, address: Address, account: AccountOverride)
        ensures
            final(self)@ == inserted(old(self)@, address, account@),
    {
        proof {
            use_type_invariant(&*self);
        }
        let ghost before = self@;
        let mut found: Option<usize> = None;
        let mut i: usize = 0;
        while i < self.entries.len() && found.is_none()
            invariant
                i <= self.entries.len(),
                self@ == before,
                found is None ==> forall|j: int| 0 <= j < i ==> (#[trigger] before[j]).0 != address,
                found matches Some(k) ==> k < before.len() && before[k as int].0 == address,
            decreases self.entries.len() - i + (if found is None { 1int } else { 0int }),
        {
            if self.entries[i].address.same(&address) {
                found = Some(i);
            } else {
                i += 1;
            }
        }
        let mut entries: Vec<OverrideEntry> = Vec::new();
        core::mem::swap(&mut entries, &mut self.entries);
        match found {
            Some(k) => {
                entries[k] = OverrideEntry { address, account };
            },
            None => {
                assert(!has_address(before, address));
                entries.push(OverrideEntry { address, account });
            },
        }
        let ghost after = Seq::new(entries@.len(), |j: int| (entries@[j].address, entries@[j].account@));
        assert(after =~= inserted(before, address, account@));
        assert(distinct_addresses(after));
        let r = StateOverride { entries };
        assert(r@ =~= after);
        *self = r;
    }
}

/// The account `base` with each part that the override gives put in its
/// place, where new code comes with `digest` as its hash.
pub open spec fn info_given(
    base: AccountInfoView,
    account: AccountOverrideView,
    digest: Seq<u8>,
) -> AccountInfoView {
    AccountInfoView {
        nonce: match account.nonce {
            Some(nonce) => nonce,
            None => base.nonce,
        },
        balance: match account.balance {
            Some(balance) => balance,
            None => base.balance,
        },
        code_hash: if account.code is Some {
            digest
        } else {
            base.code_hash
        },
        code: match account.code {
            Some(code) => Some(code),
            None => base.code,
        },
    }
}

/// The account after an override: the account that the backend has, or the
/// empty one where it has none, with each part that the override gives put
/// in its place. New code brings its Keccak-256 digest as its hash.
pub open spec fn info_after(
    current: Option<AccountInfoView>,
    account: AccountOverrideView,
) -> AccountInfoView {
    info_given(
        match current {
            Some(info) => info,
            None => empty_account(),
        },
        account,
        match account.code {
            Some(code) => keccak256_digest(code),
            None => Seq::empty(),
        },
    )
}

/// The operations that write one slot each, for the slots of a patch.
pub open spec fn patch_ops(address: Address, slots: Seq<StorageSlot>) -> Seq<BackendOpView> {
    Seq::new(
        slots.len(),
        |i: int|
            BackendOpView::InsertStorageSlot { address, key: slots[i].key, value: slots[i].value },
    )
}

/// The storage operations of an override without a conflict: one
/// replacement for `state`, one write per slot for `state_diff`.
pub open spec fn storage_ops(address: Address, account: AccountOverrideView) -> Seq<BackendOpView> {
    match (account.state, account.state_diff) {
        (Some(slots), None) => seq![BackendOpView::ReplaceStorage { address, slots }],
        (None, Some(slots)) => patch_ops(address, slots),
        _ => Seq::empty(),
    }
}

/// The operations for one account: its info first, then its storage.
pub open spec fn account_ops(
    address: Address,
    current: Option<AccountInfoView>,
    account: AccountOverrideView,
) -> Seq<BackendOpView> {
    seq![BackendOpView::InsertAccountInfo { address, info: info_after(current, account) }]
        + storage_ops(address, account)
}

/// The operations for the first `n` entries, entry by entry.
pub open spec fn ops_upto(
    entries: Entries,
    current: Seq<Option<AccountInfoView>>,
    n: nat,
) -> Seq<BackendOpView>
    decreases n,
{
    if n == 0 {
        Seq::empty()
    } else {
        ops_upto(entries, current, (n - 1) as nat) + account_ops(
            entries[n - 1].0,
            current[n - 1],
            entries[n - 1].1,
        )
    }
}

/// Whether some entry sets both `state` and `state_diff`.
pub open spec fn any_conflict(entries: Entries) -> bool {
    exists|i: int| 0 <= i < entries.len() && conflicting((#[trigger] entries[i]).1)
}

/// What applying an override set comes to, where `current[i]` is the
/// account that the backend has for the address of entry `i`: an error and
/// nothing to do where an entry conflicts or an account was not read, else
/// the operations of all entries in order.
pub open spec fn planned_ops(
    entries: Entries,
    current: Seq<Option<AccountInfoView>>,
) -> Result<Seq<BackendOpView>, SimulationError> {
    if any_conflict(entries) {
        Err(SimulationError::ConflictingOverride)
    } else if current.len() != entries.len() {
        Err(SimulationError::Execution)
    } else {
        Ok(ops_upto(entries, current, entries.len()))
    }
}

/// The view of a plan: the views of its operations, or its error.
pub open spec fn plan_view(
    plan: Result<Vec<BackendOp>, SimulationError>,
) -> Result<Seq<BackendOpView>, SimulationError> {
    match plan {
        Ok(ops) => Ok(ops_view(ops@)),
        Err(e) => Err(e),
    }
}

/// The account `base` after the override, where `code_hash` is the hash
/// of the override's code.
pub fn override_info_given(base: AccountInfo, account: &AccountOverride, code_hash: H256) -> (r:
    AccountInfo)
    ensures
        r@ == info_given(base@, account@, code_hash.bytes@),
{
    let mut info = base;
    if let Some(nonce) = account.nonce {
        info.nonce = nonce;
    }
    if let Some(code) = &account.code {
        info.code_hash = code_hash;
        let copy = code.clone();
        assert(copy@ =~= code@);
        info.code = Some(copy);
    }
    if let Some(balance) = account.balance {
        info.balance = balance;
    }
    info
}

/// The account's info after the override: the account that the backend
/// has, or the empty one, with the override put onto it and the hash of new
/// code worked out.
pub fn override_info(current: &Option<AccountInfo>, account: &AccountOverride) -> (r: AccountInfo)
    ensures
        r@ == info_after(info_view(*current), account@),
{
    let base = match current {
        Some(info) => info.clone(),
        None => AccountInfo::empty(),
    };
    let code_hash = match &account.code {
        Some(code) => keccak256(code.as_slice()),
        None => base.code_hash,
    };
    override_info_given(base, account, code_hash)
}

impl StateOverride {
    /// Whether some account of the set sets both `state` and `state_diff`.
    pub fn has_conflict(&self) -> (r: bool)
        ensures
            r == any_conflict(self@),
    {
        let mut i: usize = 0;
        while i < self.entries.len()
            invariant
                i <= self.entries.len(),
                forall|j: int| 0 <= j < i ==> !conflicting((#[trigger] self@[j]).1),
            decreases self.entries.len() - i,
        {
            if self.entries[i].account.is_conflicting() {
                assert(conflicting(self@[i as int].1));
                return true;
            }
            i += 1;
        }
        false
    }
}

/// Works out how to apply an override set to the backend.
///
/// `current` holds, for each entry of the set in order, the account that
/// the backend has for that address (`None` where it has none). For each
/// account the result stores the info first (nonce, then code with its
/// hash, then balance, each only where given) and then the storage: one
/// replacement for `state`, one write per slot for `state_diff`.
///
/// Where any account sets both `state` and `state_diff` the result is
/// `ConflictingOverride` and no operation, so that the backend stays as it
/// is.
pub fn apply_state_override(
    overrides: &StateOverride,
    current: &Vec<Option<AccountInfo>>,
) -> (r: Result<Vec<BackendOp>, SimulationError>)
    ensures
        plan_view(r) == planned_ops(overrides@, infos_view(current@)),
{
    if overrides.has_conflict() {
        return Err(SimulationError::ConflictingOverride);
    }
    if current.len() != overrides.len() {
        return Err(SimulationError::Execution);
    }
    let ghost entries = overrides@;
    let ghost infos = infos_view(current@);
    let mut ops: Vec<BackendOp> = Vec::new();
    let mut i: usize = 0;
    while i < overrides.entries.len()
        invariant
            i <= overrides.entries.len(),
            overrides.entries.len() == current.len(),
            entries == overrides@,
            infos == infos_view(current@),
            !any_conflict(entries),
            ops_view(ops@) == ops_upto(entries, infos, i as nat),
        decreases overrides.entries.len() - i,
    {
        let entry = &overrides.entries[i];
        let address = entry.address;
        let ghost before = ops_view(ops@);
        let ghost account = entries[i as int].1;
        assert(entry.account@ == account);
        assert(!conflicting(account));
        let info = override_info(&current[i], &entry.account);
        ops.push(BackendOp::InsertAccountInfo { address, info });
        match (&entry.account.state, &entry.account.state_diff) {
            (Some(slots), None) => {
                let copy = copy_slots(&entry.account.state);
                ops.push(BackendOp::ReplaceStorage { address, slots: copy.unwrap() });
            },
            (None, Some(slots)) => {
                let ghost head = ops_view(ops@);
                let mut k: usize = 0;
                while k < slots.len()
                    invariant
                        k <= slots.len(),
                        ops_view(ops@) == head + patch_ops(address, slots@).take(k as int),
                    decreases slots.len() - k,
                {
                    let ghost prev = ops_view(ops@);
                    let op = BackendOp::InsertStorageSlot {
                        address,
                        key: slots[k].key,
                        value: slots[k].value,
                    };
                    assert(op@ == patch_ops(address, slots@)[k as int]);
                    ops.push(op);
                    assert(ops_view(ops@) =~= prev.push(op@));
                    k += 1;
                    assert(patch_ops(address, slots@).take(k as int) =~= patch_ops(address, slots@).take(
                        k - 1,
                    ).push(op@));
                    assert(ops_view(ops@) =~= head + patch_ops(address, slots@).take(k as int));
                }
                assert(patch_ops(address, slots@).take(slots@.len() as int) =~= patch_ops(
                    address,
                    slots@,
                ));
            },
            _ => {},
        }
        assert(ops_view(ops@) =~= before + account_ops(address, infos[i as int], account));
        i += 1;
    }
    Ok(ops)
}

} // verus!
