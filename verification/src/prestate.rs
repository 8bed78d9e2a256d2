//! The pre-state trace of a transaction, and the override set that puts
//! the traced accounts onto the backend.

use vstd::prelude::*;
use vstd::string::StrSliceExecFns;
use crate::account::StorageSlot;
use crate::codec::{hex_decode, hex_decoded};
use crate::error::SimulationError;
use crate::overrides::{
    any_conflict, copy_slots, inserted, slots_view, AccountOverride, AccountOverrideView, Entries,
    StateOverride,
};
use crate::word::{Address, U256};

verus! {

/// One account as a pre-state trace reports it.
#[derive(Debug, PartialEq, Eq)]
pub struct AccountState {
    /// The balance before the transaction.
    pub balance: Option<U256>,
    /// The code before the transaction: two leading characters, then hex.
    pub code: Option<String>,
    /// The nonce before the transaction.
    pub nonce: Option<U256>,
    /// The slots that the transaction touched, as they were before it.
    pub storage: Option<Vec<StorageSlot>>,
}

/// The mathematical value of an [`AccountState`].
pub ghost struct AccountStateView {
    pub balance: Option<U256>,
    pub code: Option<Seq<char>>,
    pub nonce: Option<U256>,
    pub storage: Option<Seq<StorageSlot>>,
}

/// The view of an optional text.
pub open spec fn text_view(text: Option<String>) -> Option<Seq<char>> {
    match text {
        Some(t) => Some(t@),
        None => None,
    }
}

impl View for AccountState {
    type V = AccountStateView;

    open spec fn view(&self) -> AccountStateView {
        AccountStateView {
            balance: self.balance,
            code: text_view(self.code),
            nonce: self.nonce,
            storage: slots_view(self.storage),
        }
    }
}

/// The traced accounts of one trace, each with its address.
pub type Traced = Seq<(Address, AccountStateView)>;

/// The view of a list of traced accounts, one for one.
pub open spec fn traced_view(accounts: Seq<(Address, AccountState)>) -> Traced {
    Seq::new(accounts.len(), |i: int| (accounts[i].0, accounts[i].1@))
}

/// A trace in the default mode: the accounts before the transaction.
#[derive(Debug, PartialEq, Eq)]
pub struct PreStateMode {
    /// The accounts that the transaction touched.
    pub accounts: Vec<(Address, AccountState)>,
}

/// A trace in the diff mode: the accounts before and after the transaction.
#[derive(Debug, PartialEq, Eq)]
pub struct DiffMode {
    /// The accounts before the transaction.
    pub pre: Vec<(Address, AccountState)>,
    /// The accounts after the transaction.
    pub post: Vec<(Address, AccountState)>,
}

/// What a pre-state tracer returns.
#[derive(Debug, PartialEq, Eq)]
pub enum PreStateFrame {
    /// The default mode.
    Default(PreStateMode),
    /// The diff mode, which cannot be applied.
    Diff(DiffMode),
}

/// The accounts of a trace in the default mode; `None` for the diff mode.
pub open spec fn frame_accounts(frame: PreStateFrame) -> Option<Traced> {
    match frame {
        PreStateFrame::Default(mode) => Some(traced_view(mode.accounts@)),
        PreStateFrame::Diff(_) => None,
    }
}

/// The bytes of traced code: the text without its first two characters,
/// decoded as hex.
pub open spec fn traced_code(code: Seq<char>) -> Option<Seq<u8>> {
    if code.len() >= 2 {
        hex_decoded(code.skip(2))
    } else {
        None
    }
}

/// Whether a traced account can be turned into an override: its nonce fits
/// in 64 bits and its code decodes.
pub open spec fn traced_ok(account: AccountStateView) -> bool {
    &&& account.nonce matches Some(n) ==> n.value() <= u64::MAX
    &&& account.code matches Some(c) ==> traced_code(c) is Some
}

/// The override that puts a traced account onto the backend: its nonce,
/// code and balance, and its storage in place of all storage of the
/// account. It never patches.
pub open spec fn traced_override(account: AccountStateView) -> AccountOverrideView {
    AccountOverrideView {
        nonce: match account.nonce {
            Some(n) => Some(n.value() as u64),
            None => None,
        },
        code: match account.code {
            Some(c) => traced_code(c),
            None => None,
        },
        balance: account.balance,
        state: account.storage,
        state_diff: None,
    }
}

/// Whether each of the first `n` traced accounts can be turned into an
/// override.
pub open spec fn all_traced_ok(accounts: Traced, n: nat) -> bool {
    forall|i: int| 0 <= i < n ==> traced_ok((#[trigger] accounts[i]).1)
}

/// The override set of the first `n` traced accounts, an account that is
/// traced twice taking its later state.
pub open spec fn traced_overrides(accounts: Traced, n: nat) -> Entries
    decreases n,
{
    if n == 0 {
        Seq::empty()
    } else {
        inserted(
            traced_overrides(accounts, (n - 1) as nat),
            accounts[n - 1].0,
            traced_override(accounts[n - 1].1),
        )
    }
}

/// What a trace comes to: the override set of its accounts, or
/// `UnsupportedTraceFormat` where it is in the diff mode or one of its
/// accounts cannot be turned into an override.
pub open spec fn prestate_overrides(frame: PreStateFrame) -> Result<Entries, SimulationError> {
    match frame_accounts(frame) {
        Some(accounts) => if all_traced_ok(accounts, accounts.len()) {
            Ok(traced_overrides(accounts, accounts.len()))
        } else {
            Err(SimulationError::UnsupportedTraceFormat)
        },
        None => Err(SimulationError::UnsupportedTraceFormat),
    }
}

/// The view of an override set or an error.
pub open spec fn overrides_view(
    r: Result<StateOverride, SimulationError>,
) -> Result<Entries, SimulationError> {
    match r {
        Ok(set) => Ok(set@),
        Err(e) => Err(e),
    }
}

/// The bytes of traced code.
pub fn decode_traced_code(code: &str) -> (r: Option<Vec<u8>>)
    ensures
        r is Some <==> traced_code(code@) is Some,
        r matches Some(bytes) ==> bytes@ == traced_code(code@)->0,
{
    let n = code.unicode_len();
    if n < 2 {
        return None;
    }
    let body = code.substring_char(2, n);
    assert(body@ =~= code@.skip(2));
    hex_decode(body)
}

/// The override that puts a traced account onto the backend, where there
/// is one.
pub fn override_of_traced(account: &AccountState) -> (r: Option<AccountOverride>)
    ensures
        r is Some <==> traced_ok(account@),
        r matches Some(o) ==> o@ == traced_override(account@),
{
    let nonce = match &account.nonce {
        Some(n) => match n.to_u64() {
            Some(v) => Some(v),
            None => {
                return None;
            },
        },
        None => None,
    };
    let code = match &account.code {
        Some(c) => match decode_traced_code(c.as_str()) {
            Some(bytes) => Some(bytes),
            None => {
                return None;
            },
        },
        None => None,
    };
    Some(
        AccountOverride {
            nonce,
            code,
            balance: account.balance,
            state: copy_slots(&account.storage),
            state_diff: None,
        },
    )
}

/// Turns the pre-state trace of the target transaction into the override
/// set that puts the traced accounts onto the backend.
///
/// Each traced account becomes one override with its nonce, code and
/// balance, and with its storage as `state`, never as `state_diff`. A trace
/// in the diff mode, a nonce beyond 64 bits and code that is not hex are
/// `UnsupportedTraceFormat`.
pub fn apply_pre_state(pre_state: &PreStateFrame) -> (r: Result<StateOverride, SimulationError>)
    ensures
        overrides_view(r) == prestate_overrides(*pre_state),
{
    let mode = match pre_state {
        PreStateFrame::Default(mode) => mode,
        PreStateFrame::Diff(_) => {
            return Err(SimulationError::UnsupportedTraceFormat);
        },
    };
    let ghost accounts = traced_view(mode.accounts@);
    let mut set = StateOverride::new();
    let mut i: usize = 0;
    while i < mode.accounts.len()
        invariant
            i <= mode.accounts.len(),
            accounts == traced_view(mode.accounts@),
            frame_accounts(*pre_state) == Some(accounts),
            all_traced_ok(accounts, i as nat),
            set@ == traced_overrides(accounts, i as nat),
        decreases mode.accounts.len() - i,
    {
        let address = mode.accounts[i].0;
        match override_of_traced(&mode.accounts[i].1) {
            Some(account) => {
                set.insert(address, account);
            },
            None => {
                assert(accounts[i as int].1 == mode.accounts@[i as int].1@);
                assert(!traced_ok(accounts[i as int].1));
                return Err(SimulationError::UnsupportedTraceFormat);
            },
        }
        i += 1;
    }
    Ok(set)
}

/// The override set of a trace never patches storage: each of its
/// overrides replaces the storage of its account or leaves it alone, so
/// that none conflicts.
pub proof fn law_traced_overrides_never_patch(accounts: Traced, n: nat)
    ensures
        forall|i: int|
            0 <= i < traced_overrides(accounts, n).len() ==> (#[trigger] traced_overrides(
                accounts,
                n,
            )[i]).1.state_diff is None,
        !any_conflict(traced_overrides(accounts, n)),
    decreases n,
{
    if n > 0 {
        law_traced_overrides_never_patch(accounts, (n - 1) as nat);
    }
}

} // verus!
