use log3_lib::error::SimulationError;
use log3_lib::models::{Log3Json, Log3Res, MethodType};

#[test]
fn zero_selects_the_replay_and_any_other_number_the_trace() {
    assert_eq!(MethodType::from(0), MethodType::Plain);
    assert_eq!(MethodType::from(1), MethodType::Prestate);
    assert_eq!(MethodType::from(2), MethodType::Prestate);
    assert_eq!(MethodType::from(255), MethodType::Prestate);
}

#[test]
fn the_trace_is_the_default_method() {
    assert_eq!(MethodType::default(), MethodType::Prestate);
    let mut request = Log3Json {
        chainid: 1,
        etherscan_api_key: "key".to_string(),
        contract_address: "0x00".to_string(),
        tx_hash: "0x01".to_string(),
        endpoint: "http://localhost:8545".to_string(),
        method: None,
    };
    assert_eq!(request.method_or_default(), MethodType::Prestate);
    request.method = Some(MethodType::Plain);
    assert_eq!(request.method_or_default(), MethodType::Plain);
    assert_eq!(request.clone(), request);
}

#[test]
fn an_answer_holds_the_lines() {
    let answer = Log3Res { log_lines: vec!["a".to_string(), "b".to_string()] };
    assert_eq!(answer.log_lines.len(), 2);
    assert_eq!(answer.clone(), answer);
}

#[test]
fn every_error_has_its_text() {
    assert_eq!(SimulationError::SourceFetch.message(), "contract source could not be fetched");
    assert_eq!(SimulationError::Compile.message(), "patched source did not compile");
    assert_eq!(SimulationError::UnsupportedChainConfig.message(), "unsupported chain configuration");
    assert_eq!(SimulationError::Execution.message(), "execution failed at the backend");
}
