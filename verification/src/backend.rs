//! What the backend operations mean, as a mathematical model of the
//! backend's state, and what follows for override sets.

use vstd::prelude::*;
use crate::account::{AccountInfoView, BackendOpView, StorageSlot};
use crate::error::SimulationError;
use crate::overrides::{
    account_ops, any_conflict, conflicting, distinct_addresses, has_address, info_after, ops_upto,
    patch_ops, planned_ops, storage_ops, AccountOverrideView, Entries,
};
use crate::word::{Address, U256};

verus! {

/// The state of a forked backend: the accounts it knows and the storage
/// slots that hold something. A slot that is not in `storage` reads as zero.
pub ghost struct ForkState {
    pub accounts: Map<Address, AccountInfoView>,
    pub storage: Map<(Address, U256), U256>,
}

impl ForkState {
    /// What the slot `key` of `address` reads as.
    pub open spec fn slot(self, address: Address, key: U256) -> U256 {
        if self.storage.contains_key((address, key)) {
            self.storage[(address, key)]
        } else {
            U256 { hi: 0, lo: 0 }
        }
    }
}

/// What the last slot of `slots` with this key holds, if there is one.
pub open spec fn last_written(slots: Seq<StorageSlot>, key: U256) -> Option<U256>
    decreases slots.len(),
{
    if slots.len() == 0 {
        None
    } else if slots.last().key == key {
        Some(slots.last().value)
    } else {
        last_written(slots.drop_last(), key)
    }
}

/// The state after one operation.
pub open spec fn after_op(state: ForkState, op: BackendOpView) -> ForkState {
    match op {
        BackendOpView::InsertAccountInfo { address, info } => ForkState {
            accounts: state.accounts.insert(address, info),
            storage: state.storage,
        },
        BackendOpView::ReplaceStorage { address, slots } => ForkState {
            accounts: state.accounts,
            storage: Map::new(
                |k: (Address, U256)|
                    if k.0 == address {
                        last_written(slots, k.1) is Some
                    } else {
                        state.storage.contains_key(k)
                    },
                |k: (Address, U256)|
                    if k.0 == address {
                        last_written(slots, k.1)->0
                    } else {
                        state.storage[k]
                    },
            ),
        },
        BackendOpView::InsertStorageSlot { address, key, value } => ForkState {
            accounts: state.accounts,
            storage: state.storage.insert((address, key), value),
        },
    }
}

/// The state after a list of operations, performed in order.
pub open spec fn after_ops(state: ForkState, ops: Seq<BackendOpView>) -> ForkState
    decreases ops.len(),
{
    if ops.len() == 0 {
        state
    } else {
        after_op(after_ops(state, ops.drop_last()), ops.last())
    }
}

/// The state after a plan: where the plan is an error, the state as it was.
pub open spec fn after_plan(
    state: ForkState,
    plan: Result<Seq<BackendOpView>, SimulationError>,
) -> ForkState {
    match plan {
        Ok(ops) => after_ops(state, ops),
        Err(_) => state,
    }
}

/// What a slot reads as after an override of its account, given what it
/// read as before: under `state` the last value named for it, else zero;
/// under `state_diff` the last value named for it, else what it was.
pub open spec fn slot_after(account: AccountOverrideView, key: U256, before: U256) -> U256 {
    match (account.state, account.state_diff) {
        (Some(slots), None) => match last_written(slots, key) {
            Some(v) => v,
            None => U256 { hi: 0, lo: 0 },
        },
        (None, Some(slots)) => match last_written(slots, key) {
            Some(v) => v,
            None => before,
        },
        _ => before,
    }
}

/// Performing a list of one operation is performing that operation.
pub proof fn lemma_after_single(state: ForkState, op: BackendOpView)
    ensures
        after_ops(state, seq![op]) == after_op(state, op),
{
    assert(seq![op].drop_last() =~= Seq::<BackendOpView>::empty());
    assert(after_ops(state, seq![op].drop_last()) == state);
}

/// Performing `first + second` is performing `first`, then `second`.
pub proof fn lemma_after_ops_concat(
    state: ForkState,
    first: Seq<BackendOpView>,
    second: Seq<BackendOpView>,
)
    ensures
        after_ops(state, first + second) == after_ops(after_ops(state, first), second),
    decreases second.len(),
{
    if second.len() == 0 {
        assert(first + second =~= first);
    } else {
        assert((first + second).drop_last() =~= first + second.drop_last());
        assert((first + second).last() == second.last());
        lemma_after_ops_concat(state, first, second.drop_last());
    }
}

/// Writing the slots of a patch one by one leaves each slot with the last
/// value named for it, and every other slot and every account as it was.
pub proof fn lemma_patch_ops(state: ForkState, address: Address, slots: Seq<StorageSlot>)
    ensures
        after_ops(state, patch_ops(address, slots)).accounts == state.accounts,
        forall|a: Address, k: U256|
            #[trigger] after_ops(state, patch_ops(address, slots)).slot(a, k) == (if a == address
                && last_written(slots, k) is Some {
                last_written(slots, k)->0
            } else {
                state.slot(a, k)
            }),
    decreases slots.len(),
{
    if slots.len() > 0 {
        let init = slots.drop_last();
        lemma_patch_ops(state, address, init);
        assert(patch_ops(address, slots).drop_last() =~= patch_ops(address, init));
        let mid = after_ops(state, patch_ops(address, init));
        let end = after_ops(state, patch_ops(address, slots));
        assert(end == after_op(mid, patch_ops(address, slots).last()));
        assert forall|a: Address, k: U256| #[trigger]
            end.slot(a, k) == (if a == address && last_written(slots, k) is Some {
                last_written(slots, k)->0
            } else {
                state.slot(a, k)
            }) by {
            let _ = mid.slot(a, k);
        }
    }
}

/// The operations of one account leave the account with its overridden
/// info and its slots as `slot_after` says; other accounts keep both.
pub proof fn lemma_account_ops(
    state: ForkState,
    address: Address,
    current: Option<AccountInfoView>,
    account: AccountOverrideView,
)
    requires
        !conflicting(account),
    ensures
        after_ops(state, account_ops(address, current, account)).accounts == state.accounts.insert(
            address,
            info_after(current, account),
        ),
        forall|a: Address, k: U256|
            #[trigger] after_ops(state, account_ops(address, current, account)).slot(a, k) == (if a
                == address {
                slot_after(account, k, state.slot(a, k))
            } else {
                state.slot(a, k)
            }),
{
    let head = seq![BackendOpView::InsertAccountInfo { address, info: info_after(current, account) }];
    let tail = storage_ops(address, account);
    lemma_after_ops_concat(state, head, tail);
    lemma_after_single(state, head[0]);
    assert(head =~= seq![head[0]]);
    let mid = after_ops(state, head);
    match (account.state, account.state_diff) {
        (Some(slots), None) => {
            lemma_after_single(mid, tail[0]);
            assert(tail =~= seq![tail[0]]);
        },
        (None, Some(slots)) => {
            lemma_patch_ops(mid, address, slots);
        },
        _ => {},
    }
    let end = after_ops(mid, tail);
    assert forall|a: Address, k: U256| #[trigger]
        end.slot(a, k) == (if a == address {
            slot_after(account, k, state.slot(a, k))
        } else {
            state.slot(a, k)
        }) by {
        let _ = mid.slot(a, k);
    }
}

/// After the operations of the first `n` entries of a set without
/// conflicts and without a repeated address, each of those accounts has its
/// overridden info and its slots as `slot_after` says, and every other
/// account is as it was.
pub proof fn lemma_ops_upto(
    state: ForkState,
    entries: Entries,
    current: Seq<Option<AccountInfoView>>,
    n: nat,
)
    requires
        n <= entries.len(),
        current.len() == entries.len(),
        distinct_addresses(entries),
        !any_conflict(entries),
    ensures
        forall|i: int, k: U256|
            0 <= i < n ==> #[trigger] after_ops(state, ops_upto(entries, current, n)).slot(
                entries[i].0,
                k,
            ) == slot_after(entries[i].1, k, state.slot(entries[i].0, k)),
        forall|a: Address, k: U256|
            (forall|i: int| 0 <= i < n ==> (#[trigger] entries[i]).0 != a) ==> #[trigger] after_ops(
                state,
                ops_upto(entries, current, n),
            ).slot(a, k) == state.slot(a, k),
        forall|i: int|
            0 <= i < n ==> after_ops(state, ops_upto(entries, current, n)).accounts.contains_key(
                (#[trigger] entries[i]).0,
            ) && after_ops(state, ops_upto(entries, current, n)).accounts[entries[i].0]
                == info_after(current[i], entries[i].1),
        forall|a: Address|
            (forall|i: int| 0 <= i < n ==> (#[trigger] entries[i]).0 != a) ==> (#[trigger] after_ops(
                state,
                ops_upto(entries, current, n),
            ).accounts.contains_key(a) == state.accounts.contains_key(a)) && after_ops(
                state,
                ops_upto(entries, current, n),
            ).accounts[a] == state.accounts[a],
    decreases n,
{
    if n > 0 {
        let m = (n - 1) as nat;
        lemma_ops_upto(state, entries, current, m);
        let (address, account) = entries[n - 1];
        assert(!conflicting(entries[n - 1].1));
        let mid = after_ops(state, ops_upto(entries, current, m));
        let ops = account_ops(address, current[n - 1], account);
        lemma_after_ops_concat(state, ops_upto(entries, current, m), ops);
        lemma_account_ops(mid, address, current[n - 1], account);
        let end = after_ops(state, ops_upto(entries, current, n));
        assert(end == after_ops(mid, ops));
        assert forall|i: int, k: U256| 0 <= i < n implies #[trigger] end.slot(entries[i].0, k)
            == slot_after(entries[i].1, k, state.slot(entries[i].0, k)) by {
            if i == n - 1 {
                assert(forall|j: int| 0 <= j < m ==> (#[trigger] entries[j]).0 != address);
                let _ = mid.slot(address, k);
            } else {
                assert(entries[i].0 != entries[n - 1].0);
                let _ = mid.slot(entries[i].0, k);
            }
        }
        assert forall|a: Address, k: U256|
            (forall|i: int| 0 <= i < n ==> (#[trigger] entries[i]).0 != a) implies #[trigger] end.slot(
            a,
            k,
        ) == state.slot(a, k) by {
            assert(entries[n - 1].0 != a);
            assert(forall|i: int| 0 <= i < m ==> (#[trigger] entries[i]).0 != a);
            let _ = mid.slot(a, k);
        }
        assert forall|i: int| 0 <= i < n implies end.accounts.contains_key((#[trigger] entries[i]).0)
            && end.accounts[entries[i].0] == info_after(current[i], entries[i].1) by {
            if i != n - 1 {
                assert(entries[i].0 != entries[n - 1].0);
            }
        }
        assert forall|a: Address|
            (forall|i: int| 0 <= i < n ==> (#[trigger] entries[i]).0 != a) implies (
        #[trigger] end.accounts.contains_key(a) == state.accounts.contains_key(a))
            && end.accounts[a] == state.accounts[a] by {
            assert(entries[n - 1].0 != a);
            assert(forall|i: int| 0 <= i < m ==> (#[trigger] entries[i]).0 != a);
            let _ = mid.accounts.contains_key(a);
        }
    }
}

/// An override set in which an account sets both `state` and `state_diff`
/// is refused as conflicting, and the backend stays as it was: no account
/// and no slot changes.
pub proof fn law_conflict_leaves_backend(
    state: ForkState,
    entries: Entries,
    current: Seq<Option<AccountInfoView>>,
)
    requires
        any_conflict(entries),
    ensures
        planned_ops(entries, current) == Err::<Seq<BackendOpView>, SimulationError>(
            SimulationError::ConflictingOverride,
        ),
        after_plan(state, planned_ops(entries, current)) == state,
{
}

/// After an override set has been applied, every slot of an account of the
/// set reads as `slot_after` says of it, and the account has its
/// overridden info.
pub proof fn law_overridden_account(
    state: ForkState,
    entries: Entries,
    current: Seq<Option<AccountInfoView>>,
    i: int,
    key: U256,
)
    requires
        distinct_addresses(entries),
        planned_ops(entries, current) is Ok,
        0 <= i < entries.len(),
    ensures
        after_plan(state, planned_ops(entries, current)).slot(entries[i].0, key) == slot_after(
            entries[i].1,
            key,
            state.slot(entries[i].0, key),
        ),
        after_plan(state, planned_ops(entries, current)).accounts.contains_key(entries[i].0),
        after_plan(state, planned_ops(entries, current)).accounts[entries[i].0] == info_after(
            current[i],
            entries[i].1,
        ),
{
    lemma_ops_upto(state, entries, current, entries.len());
}

/// Under a `state_diff` override, a slot that the diff does not name reads
/// as it did before the override.
pub proof fn law_patch_keeps_unnamed_slots(
    state: ForkState,
    entries: Entries,
    current: Seq<Option<AccountInfoView>>,
    i: int,
    key: U256,
)
    requires
        distinct_addresses(entries),
        planned_ops(entries, current) is Ok,
        0 <= i < entries.len(),
        entries[i].1.state_diff is Some,
        last_written(entries[i].1.state_diff->0, key) is None,
    ensures
        after_plan(state, planned_ops(entries, current)).slot(entries[i].0, key) == state.slot(
            entries[i].0,
            key,
        ),
{
    law_overridden_account(state, entries, current, i, key);
    assert(!conflicting(entries[i].1));
}

/// Under a `state` override, a slot that the new storage does not name
/// reads as zero, whatever it held before.
pub proof fn law_replace_clears_unnamed_slots(
    state: ForkState,
    entries: Entries,
    current: Seq<Option<AccountInfoView>>,
    i: int,
    key: U256,
)
    requires
        distinct_addresses(entries),
        planned_ops(entries, current) is Ok,
        0 <= i < entries.len(),
        entries[i].1.state is Some,
        last_written(entries[i].1.state->0, key) is None,
    ensures
        after_plan(state, planned_ops(entries, current)).slot(entries[i].0, key) == (U256 {
            hi: 0,
            lo: 0,
        }),
{
    law_overridden_account(state, entries, current, i, key);
    assert(!conflicting(entries[i].1));
}

/// An account that the override set does not name keeps its info and all
/// its slots.
pub proof fn law_other_accounts_untouched(
    state: ForkState,
    entries: Entries,
    current: Seq<Option<AccountInfoView>>,
    address: Address,
    key: U256,
)
    requires
        distinct_addresses(entries),
        !has_address(entries, address),
    ensures
        after_plan(state, planned_ops(entries, current)).slot(address, key) == state.slot(
            address,
            key,
        ),
        after_plan(state, planned_ops(entries, current)).accounts.contains_key(address)
            == state.accounts.contains_key(address),
        after_plan(state, planned_ops(entries, current)).accounts[address]
            == state.accounts[address],
{
    if planned_ops(entries, current) is Ok {
        lemma_ops_upto(state, entries, current, entries.len());
        assert(forall|i: int| 0 <= i < entries.len() ==> (#[trigger] entries[i]).0 != address);
        let end = after_ops(state, ops_upto(entries, current, entries.len()));
        let _ = end.slot(address, key);
        let _ = end.accounts.contains_key(address);
    }
}

} // verus!
