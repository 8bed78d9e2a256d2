use log3_lib::account::StorageSlot;
use log3_lib::error::SimulationError;
use log3_lib::overrides::AccountOverride;
use log3_lib::prestate::{
    apply_pre_state, decode_traced_code, override_of_traced, AccountState, DiffMode, PreStateFrame,
    PreStateMode,
};
use log3_lib::reconstruct::{prepare_fork_state_debug, GethTrace};
use log3_lib::word::{Address, U256};

fn traced_address(last: u8) -> Address {
    let mut bytes = [0u8; 20];
    bytes[19] = last;
    Address { bytes }
}

fn untouched() -> AccountState {
    AccountState { balance: None, code: None, nonce: None, storage: None }
}

#[test]
fn a_traced_account_becomes_a_replacing_override() {
    let account = AccountState {
        balance: Some(U256::from_u64(12)),
        code: Some("0x6080ff".to_string()),
        nonce: Some(U256::from_u64(4)),
        storage: Some(vec![StorageSlot { key: U256::from_u64(1), value: U256::from_u64(2) }]),
    };
    let frame = PreStateFrame::Default(PreStateMode { accounts: vec![(traced_address(1), account)] });
    let set = apply_pre_state(&frame).unwrap();
    assert_eq!(set.len(), 1);
    assert_eq!(set.address_at(0), Some(traced_address(1)));
    assert_eq!(
        set.account_at(0).unwrap(),
        &AccountOverride {
            nonce: Some(4),
            code: Some(vec![0x60, 0x80, 0xff]),
            balance: Some(U256::from_u64(12)),
            state: Some(vec![StorageSlot { key: U256::from_u64(1), value: U256::from_u64(2) }]),
            state_diff: None,
        }
    );
}

#[test]
fn a_traced_account_without_values_forces_nothing() {
    assert_eq!(override_of_traced(&untouched()), Some(AccountOverride::none()));
}

#[test]
fn the_diff_mode_is_an_unsupported_trace() {
    let frame = PreStateFrame::Diff(DiffMode { pre: vec![], post: vec![] });
    assert_eq!(apply_pre_state(&frame), Err(SimulationError::UnsupportedTraceFormat));
    assert_eq!(SimulationError::UnsupportedTraceFormat.message(), "unsupported trace format");
}

#[test]
fn a_trace_of_another_tracer_is_an_unsupported_trace() {
    assert_eq!(prepare_fork_state_debug(&GethTrace::Other), Err(SimulationError::UnsupportedTraceFormat));
    let frame = PreStateFrame::Default(PreStateMode { accounts: vec![] });
    assert_eq!(prepare_fork_state_debug(&GethTrace::PreStateTracer(frame)).unwrap().len(), 0);
}

#[test]
fn a_nonce_beyond_64_bits_is_an_unsupported_trace() {
    let account = AccountState { nonce: Some(U256 { hi: 0, lo: 1u128 << 64 }), ..untouched() };
    assert_eq!(override_of_traced(&account), None);
    let frame = PreStateFrame::Default(PreStateMode { accounts: vec![(traced_address(1), account)] });
    assert_eq!(apply_pre_state(&frame), Err(SimulationError::UnsupportedTraceFormat));
}

#[test]
fn code_that_is_no_hex_is_an_unsupported_trace() {
    let account = AccountState { code: Some("0x60zz".to_string()), ..untouched() };
    let frame = PreStateFrame::Default(PreStateMode {
        accounts: vec![(traced_address(1), untouched()), (traced_address(2), account)],
    });
    assert_eq!(apply_pre_state(&frame), Err(SimulationError::UnsupportedTraceFormat));
}

#[test]
fn traced_code_loses_two_characters_and_is_decoded() {
    assert_eq!(decode_traced_code("0x"), Some(vec![]));
    assert_eq!(decode_traced_code("0x00ff"), Some(vec![0x00, 0xff]));
    assert_eq!(decode_traced_code("0xAbCd"), Some(vec![0xab, 0xcd]));
    assert_eq!(decode_traced_code("zz1234"), Some(vec![0x12, 0x34]));
    assert_eq!(decode_traced_code("0x0x12"), Some(vec![0x12]));
    assert_eq!(decode_traced_code("0x0X12"), Some(vec![0x12]));
    assert_eq!(decode_traced_code("0x123"), None);
    assert_eq!(decode_traced_code("0x0x1"), None);
    assert_eq!(decode_traced_code("0"), None);
    assert_eq!(decode_traced_code(""), None);
    assert_eq!(decode_traced_code("0x12 34"), None);
    assert_eq!(decode_traced_code("0x\u{e9}1"), None);
}

#[test]
fn an_account_traced_twice_takes_its_later_state() {
    let first = AccountState { nonce: Some(U256::from_u64(1)), ..untouched() };
    let second = AccountState { nonce: Some(U256::from_u64(2)), ..untouched() };
    let frame = PreStateFrame::Default(PreStateMode {
        accounts: vec![(traced_address(1), first), (traced_address(2), untouched()), (traced_address(1), second)],
    });
    let set = apply_pre_state(&frame).unwrap();
    assert_eq!(set.addresses(), vec![traced_address(1), traced_address(2)]);
    assert_eq!(set.account_at(0).unwrap().nonce, Some(2));
}
