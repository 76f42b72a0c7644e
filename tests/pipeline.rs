use base64::Engine;
use cosmrs::proto::tendermint::v0_38::abci::{ExecTxResult, ResponseFinalizeBlock};
use prost::Message;
use test_tube_inj::account::{init_account_request, sort_by_denom};
use test_tube_inj::base_app::BaseApp;
use test_tube_inj::signer::{create_signed_tx, AnyMsg};
use test_tube_inj::decimal::decimal_string;
use test_tube_inj::error::{DecodeError, EncodeError, RunnerError};
use test_tube_inj::exec::{encode_tx, simulation_fee, tx_outcome, Action, Event, Execution, Phase};
use test_tube_inj::fee::{
    custom_fee, estimate_fee, fee_amount, Fee, INJECTIVE_MIN_GAS_PRICE, scaled_gas_limit, Coin, FeeSetting, GasAdjustment,
};
use test_tube_inj::query::{finish_query, query_call};
use test_tube_inj::raw::{adapt, adapt_encoded};
use test_tube_inj::wasm::{resolve_label, Wasm, INSTANTIATE_TYPE_URL};

fn b64(bytes: &[u8]) -> String {
    base64::engine::general_purpose::STANDARD.encode(bytes)
}

fn auto_setting(num: u64, den: u64) -> FeeSetting {
    FeeSetting::Auto { gas_price: Coin::new(2500, "inj"), gas_adjustment: GasAdjustment::new(num, den) }
}

fn custom_setting() -> FeeSetting {
    FeeSetting::Custom { amount: Coin::new(7000, "inj"), gas_limit: 300000 }
}

/// A successful raw result whose payload is a gas-usage message with `gas_used` set.
fn gas_info_result(gas_used: u64) -> String {
    let mut frame = vec![0u8, 0x10];
    let mut v = gas_used;
    loop {
        let byte = (v & 0x7f) as u8;
        v >>= 7;
        if v == 0 {
            frame.push(byte);
            break;
        }
        frame.push(byte | 0x80);
    }
    b64(&frame)
}

/// A successful raw result whose payload is a block response with one transaction result.
fn block_result(code: u32, log: &str, data: &[u8]) -> String {
    use_block_response(Some((code, log, data)))
}

fn use_block_response(tx: Option<(u32, &str, &[u8])>) -> String {
    let mut response = ResponseFinalizeBlock::default();
    if let Some((code, log, data)) = tx {
        response.tx_results.push(ExecTxResult {
            code,
            log: log.to_string(),
            data: data.to_vec().into(),
            ..Default::default()
        });
    }
    let mut frame = vec![0u8];
    frame.extend(response.encode_to_vec());
    b64(&frame)
}

#[test]
fn simulated_gas_is_scaled_and_priced() {
    let fee = estimate_fee(100000, &auto_setting(13, 10));
    assert_eq!(fee.gas_limit, 130000);
    assert_eq!(fee.amount.amount, 130000u128 * 2500);
    assert_eq!(fee.amount.denom, "inj");
}

#[test]
fn gas_limit_rounds_up() {
    assert_eq!(scaled_gas_limit(3, GasAdjustment::new(13, 10)), 4);
    assert_eq!(scaled_gas_limit(10, GasAdjustment::new(13, 10)), 13);
    assert_eq!(scaled_gas_limit(0, GasAdjustment::new(13, 10)), 0);
    assert_eq!(scaled_gas_limit(7, GasAdjustment::new(1, 1)), 7);
}

#[test]
fn gas_limit_and_amount_saturate() {
    assert_eq!(scaled_gas_limit(u64::MAX, GasAdjustment::new(2, 1)), u64::MAX);
    assert_eq!(fee_amount(u64::MAX, u128::MAX), u128::MAX);
    assert_eq!(fee_amount(4, 5), 20);
}

#[test]
fn fee_setting_tells_whether_to_estimate() {
    assert!(auto_setting(13, 10).requires_estimation());
    assert!(!custom_setting().requires_estimation());
    let fee = custom_fee(&custom_setting());
    assert_eq!(fee.gas_limit, 300000);
    assert_eq!(fee.amount, Coin::new(7000, "inj"));
}

#[test]
fn raw_success_gives_payload() {
    assert_eq!(adapt(vec![0, 5, 6]), Ok(vec![5, 6]));
    assert_eq!(adapt(vec![0]), Ok(vec![]));
}

#[test]
fn raw_failures_keep_message() {
    let mut q = vec![1u8];
    q.extend_from_slice(b"not found");
    assert_eq!(adapt(q), Err(RunnerError::QueryError { msg: "not found".to_string() }));
    let mut e = vec![2u8];
    e.extend_from_slice(b"out of gas");
    assert_eq!(adapt(e), Err(RunnerError::ExecuteError { msg: "out of gas".to_string() }));
}

#[test]
fn raw_malformed_results_are_decode_errors() {
    assert_eq!(adapt(vec![]), Err(RunnerError::DecodeError(DecodeError::EmptyResult)));
    assert_eq!(
        adapt(vec![9, 1]),
        Err(RunnerError::DecodeError(DecodeError::UnknownResultCode { code: 9 }))
    );
    assert_eq!(adapt(vec![2, 0xff, 0xfe]), Err(RunnerError::DecodeError(DecodeError::Utf8Error)));
}

#[test]
fn encoded_raw_result_is_unwrapped() {
    assert_eq!(adapt_encoded("AAUG"), Ok(vec![5, 6]));
    assert_eq!(
        adapt_encoded("not base64!"),
        Err(RunnerError::DecodeError(DecodeError::Base64DecodeError))
    );
}

#[test]
fn custom_execution_skips_simulation() {
    let (mut ex, first) = Execution::start(custom_setting(), "inj");
    assert_eq!(ex.phase, Phase::SignCommit);
    match first {
        Action::Sign { fee } => assert_eq!(fee.gas_limit, 300000),
        other => panic!("unexpected {:?}", other),
    }
    let signed = Event::Signed { tx: vec![1, 2, 3] };
    assert!(ex.accepts(&signed));
    assert_eq!(ex.step(signed), Action::FinalizeBlock { tx_base64: "AQID".to_string() });
    assert_eq!(ex.phase, Phase::AwaitBlock);
    let done = ex.step(Event::Response { raw: block_result(0, "", &[42]) });
    assert_eq!(done, Action::Finish { result: Ok(vec![42]) });
    assert_eq!(ex.phase, Phase::Done);
    assert!(!ex.accepts(&Event::Response { raw: String::new() }));
}

#[test]
fn auto_execution_simulates_then_commits() {
    let (mut ex, first) = Execution::start(auto_setting(13, 10), "inj");
    match first {
        Action::Sign { fee } => {
            assert_eq!(fee.gas_limit, 0);
            assert_eq!(fee.amount.amount, 0);
            assert_eq!(fee.amount.denom, "inj");
        },
        other => panic!("unexpected {:?}", other),
    }
    assert_eq!(
        ex.step(Event::Signed { tx: vec![1, 2, 3] }),
        Action::Simulate { tx_base64: "AQID".to_string() }
    );
    match ex.step(Event::Response { raw: gas_info_result(100000) }) {
        Action::Sign { fee } => {
            assert_eq!(fee.gas_limit, 130000);
            assert_eq!(fee.amount.amount, 325000000);
        },
        other => panic!("unexpected {:?}", other),
    }
    assert_eq!(ex.phase, Phase::SignCommit);
    assert_eq!(
        ex.step(Event::Signed { tx: vec![4] }),
        Action::FinalizeBlock { tx_base64: "BA==".to_string() }
    );
    let failed = ex.step(Event::Response { raw: b64(b"\x02rejected") });
    assert_eq!(
        failed,
        Action::Finish { result: Err(RunnerError::ExecuteError { msg: "rejected".to_string() }) }
    );
}

#[test]
fn failed_simulation_ends_execution() {
    let (mut ex, _) = Execution::start(auto_setting(13, 10), "inj");
    ex.step(Event::Signed { tx: vec![1] });
    let r = ex.step(Event::Response { raw: b64(b"\x02bad msg") });
    assert_eq!(r, Action::Finish { result: Err(RunnerError::ExecuteError { msg: "bad msg".to_string() }) });
    assert_eq!(ex.phase, Phase::Done);
}

#[test]
fn malformed_gas_info_is_a_decode_error() {
    let (mut ex, _) = Execution::start(auto_setting(13, 10), "inj");
    ex.step(Event::Signed { tx: vec![1] });
    match ex.step(Event::Response { raw: b64(&[0, 0x10]) }) {
        Action::Finish { result: Err(RunnerError::DecodeError(DecodeError::ProtoDecodeError { .. })) } => {},
        other => panic!("unexpected {:?}", other),
    }
}

#[test]
fn query_is_encoded_and_answers_decode_alike() {
    let call = query_call("/cosmos.bank.v1beta1.Query/Balance", &vec![1, 2, 3]);
    assert_eq!(call.path, "/cosmos.bank.v1beta1.Query/Balance");
    assert_eq!(call.request_base64, "AQID");
    let raw = b64(&[0, 7, 8]);
    assert_eq!(finish_query(&raw), finish_query(&raw));
    assert_eq!(finish_query(&raw), Ok(vec![7, 8]));
    assert_eq!(
        finish_query(&b64(b"\x01unknown path")),
        Err(RunnerError::QueryError { msg: "unknown path".to_string() })
    );
}

#[test]
fn decimal_amounts() {
    assert_eq!(decimal_string(0), "0");
    assert_eq!(decimal_string(1_000_000), "1000000");
    assert_eq!(decimal_string(u128::MAX), u128::MAX.to_string());
}

#[test]
fn empty_label_becomes_space() {
    assert_eq!(resolve_label(None), " ");
    assert_eq!(resolve_label(Some("")), " ");
    assert_eq!(resolve_label(Some("counter")), "counter");
    let msg = Wasm.instantiate(1, b"{}".to_vec(), None, Some(""), &[Coin::new(1_000_000, "inj")], "inj1abc");
    assert_eq!(msg.label, " ");
    assert_eq!(msg.admin, "");
    assert_eq!(msg.code_id, 1);
    assert_eq!(msg.funds[0].amount, "1000000");
    assert_eq!(msg.funds[0].denom, "inj");
    assert_eq!(INSTANTIATE_TYPE_URL, "/cosmwasm.wasm.v1.MsgInstantiateContract");
}

#[test]
fn other_contract_messages() {
    let w = Wasm;
    let s = w.store_code(&[0, 97, 115, 109], None, "inj1abc");
    assert_eq!(s.wasm_byte_code, vec![0, 97, 115, 109]);
    let e = w.execute("inj1contract", b"{\"inc\":{}}".to_vec(), &[], "inj1abc");
    assert_eq!(e.contract, "inj1contract");
    assert!(e.funds.is_empty());
    let m = w.migrate(2, "inj1contract", b"{}".to_vec(), "inj1abc");
    assert_eq!(m.code_id, 2);
    let q = w.query("inj1contract", b"{\"count\":{}}".to_vec());
    assert_eq!(q.address, "inj1contract");
}

#[test]
fn coins_sorted_by_denom() {
    let sorted = sort_by_denom(&[Coin::new(1, "uosmo"), Coin::new(2, "inj"), Coin::new(3, "atom")]);
    let denoms: Vec<&str> = sorted.iter().map(|c| c.denom.as_str()).collect();
    assert_eq!(denoms, vec!["atom", "inj", "uosmo"]);
    assert!(sort_by_denom(&[]).is_empty());
}

#[test]
fn account_request_is_sorted_json() {
    let json = init_account_request(&[Coin::new(1_000_000, "inj"), Coin::new(5, "atom")]).unwrap();
    assert_eq!(json, r#"[{"denom":"atom","amount":"5"},{"denom":"inj","amount":"1000000"}]"#);
    assert_eq!(init_account_request(&[]).unwrap(), "[]");
    let _ = EncodeError::JsonEncodeError { msg: String::new() };
}

fn key_text() -> String {
    b64(&[1u8; 32])
}

fn app() -> BaseApp {
    BaseApp::new(1, "inj", "injective-777", "inj", GasAdjustment::new(13, 10))
}

#[test]
fn new_account_has_chain_prefix() {
    let account = app().init_account_from_key(&key_text()).unwrap();
    assert_eq!(account.prefix(), "inj");
    let address = account.address().unwrap();
    assert!(address.starts_with("inj1"));
    assert!(address.len() > 4);
    assert!(account.fee_setting().requires_estimation());
    match account.fee_setting() {
        FeeSetting::Auto { gas_price, gas_adjustment } => {
            assert_eq!(gas_price, &Coin::new(INJECTIVE_MIN_GAS_PRICE, "inj"));
            assert_eq!(*gas_adjustment, GasAdjustment::new(13, 10));
        },
        other => panic!("unexpected {:?}", other),
    }
}

#[test]
fn bad_key_text_is_rejected() {
    assert!(matches!(
        app().init_account_from_key("%%"),
        Err(RunnerError::DecodeError(DecodeError::Base64DecodeError))
    ));
    assert!(matches!(
        app().init_account_from_key(&b64(&[0u8; 32])),
        Err(RunnerError::DecodeError(DecodeError::SigningKeyDecodeError { .. }))
    ));
}

#[test]
fn validator_account_uses_inj_prefix() {
    let account =
        BaseApp::validator_account_from_key(&key_text(), "inj".to_string(), GasAdjustment::new(3, 2)).unwrap();
    assert!(account.address().unwrap().starts_with("inj1"));
    let other = BaseApp::account_from_key_text(&key_text(), "cosmos", custom_setting()).unwrap();
    assert!(other.address().unwrap().starts_with("cosmos1"));
    let bad = BaseApp::account_from_key_text(&key_text(), "INJ", custom_setting()).unwrap();
    assert_eq!(bad.address(), None);
}

#[test]
fn signed_tx_is_deterministic() {
    let a = app();
    let account = a.init_account_from_key(&key_text()).unwrap();
    let msgs = vec![AnyMsg { type_url: "/cosmos.bank.v1beta1.MsgSend".to_string(), value: vec![10, 3, 97, 98, 99] }];
    let fee = Fee { amount: Coin::new(5000, "inj"), gas_limit: 200000 };
    let tx = a.create_signed_tx(&msgs, &account, 3, 7, &fee).unwrap();
    assert!(!tx.is_empty());
    assert_eq!(a.create_signed_tx(&msgs, &account, 3, 7, &fee).unwrap(), tx);
    assert_ne!(a.create_signed_tx(&msgs, &account, 4, 7, &fee).unwrap(), tx);
}

#[test]
fn signing_rejects_bad_chain_id_and_denom() {
    let account = app().init_account_from_key(&key_text()).unwrap();
    let fee = Fee { amount: Coin::new(5000, "inj"), gas_limit: 1 };
    assert!(matches!(
        create_signed_tx(&vec![], &account, "", 0, 0, &fee),
        Err(RunnerError::EncodeError(EncodeError::InvalidChainId { .. }))
    ));
    let bad_fee = Fee { amount: Coin::new(5000, "x"), gas_limit: 1 };
    assert!(matches!(
        create_signed_tx(&vec![], &account, "injective-777", 0, 0, &bad_fee),
        Err(RunnerError::EncodeError(EncodeError::InvalidDenom { .. }))
    ));
}

#[test]
fn execution_from_app_follows_signer_setting() {
    let a = app();
    let account = a.init_account_from_key(&key_text()).unwrap();
    let (ex, action) = a.start_execution(&account);
    assert_eq!(ex.phase, Phase::SignSimulation);
    match action {
        Action::Sign { fee } => assert_eq!(fee.amount, Coin::new(0, "inj")),
        other => panic!("unexpected {:?}", other),
    }
}

#[test]
fn account_request_reads_back_as_the_sorted_coins() {
    let json = init_account_request(&[Coin::new(7, "uatom"), Coin::new(1_000_000, "inj")]).unwrap();
    let back: Vec<cosmwasm_std::Coin> = serde_json::from_str(&json).unwrap();
    assert_eq!(back, vec![cosmwasm_std::Coin::new(1_000_000u128, "inj"), cosmwasm_std::Coin::new(7u128, "uatom")]);
}

#[test]
fn encoded_tx_is_base64_of_bytes() {
    assert_eq!(encode_tx(&vec![]), "");
    assert_eq!(encode_tx(&vec![0xff, 0x00]), "/wA=");
    let fee = simulation_fee("inj");
    assert_eq!(fee.gas_limit, 0);
    assert_eq!(fee.amount, Coin::new(0, "inj"));
}

#[test]
fn block_transaction_outcome() {
    assert_eq!(tx_outcome(0, "ok".to_string(), vec![1, 2]), Ok(vec![1, 2]));
    assert_eq!(
        tx_outcome(5, "insufficient funds".to_string(), vec![]),
        Err(RunnerError::ExecuteError { msg: "insufficient funds".to_string() })
    );
}

#[test]
fn key_bytes_must_be_a_scalar_below_the_order() {
    let order: [u8; 32] = [
        0xFF, 0xFF, 0xFF, 0xFF, 0xFF, 0xFF, 0xFF, 0xFF, 0xFF, 0xFF, 0xFF, 0xFF, 0xFF, 0xFF, 0xFF, 0xFE,
        0xBA, 0xAE, 0xDC, 0xE6, 0xAF, 0x48, 0xA0, 0x3B, 0xBF, 0xD2, 0x5E, 0x8C, 0xD0, 0x36, 0x41, 0x41,
    ];
    let mut below = order;
    below[31] = 0x40;
    assert!(BaseApp::account_from_key_text(&b64(&order), "inj", custom_setting()).is_err());
    assert!(BaseApp::account_from_key_text(&b64(&below), "inj", custom_setting()).is_ok());
    assert!(BaseApp::account_from_key_text(&b64(&[7u8; 24]), "inj", custom_setting()).is_ok());
    assert!(BaseApp::account_from_key_text(&b64(&[7u8; 23]), "inj", custom_setting()).is_err());
    assert!(BaseApp::account_from_key_text(&b64(&[7u8; 33]), "inj", custom_setting()).is_err());
}

#[test]
fn block_response_decides_the_outcome() {
    let (mut ex, _) = Execution::start(custom_setting(), "inj");
    ex.step(Event::Signed { tx: vec![1] });
    assert_eq!(
        ex.step(Event::Response { raw: block_result(11, "out of gas", &[]) }),
        Action::Finish { result: Err(RunnerError::ExecuteError { msg: "out of gas".to_string() }) }
    );
    let (mut ex, _) = Execution::start(custom_setting(), "inj");
    ex.step(Event::Signed { tx: vec![1] });
    assert_eq!(
        ex.step(Event::Response { raw: use_block_response(None) }),
        Action::Finish { result: Err(RunnerError::DecodeError(DecodeError::MissingTxResult)) }
    );
    let (mut ex, _) = Execution::start(custom_setting(), "inj");
    ex.step(Event::Signed { tx: vec![1] });
    match ex.step(Event::Response { raw: b64(&[0, 0x0a]) }) {
        Action::Finish { result: Err(RunnerError::DecodeError(DecodeError::ProtoDecodeError { .. })) } => {},
        other => panic!("unexpected {:?}", other),
    }
}

#[test]
fn equal_denominations_keep_their_order() {
    let sorted = sort_by_denom(&[Coin::new(3, "inj"), Coin::new(1, "atom"), Coin::new(2, "inj")]);
    assert_eq!(sorted, vec![Coin::new(1, "atom"), Coin::new(3, "inj"), Coin::new(2, "inj")]);
}
