use alloy::consensus::TxEnvelope;
use alloy::eips::eip2718::Decodable2718;
use cryptoheir::commands::prepare::{compose, CallRequest, Observed};
use cryptoheir::commands::sign::{execute, Review, SignOutcome};
use cryptoheir::crypto::{
    assemble_signed, check_signer, fee_market_tx, legacy_tx, sign_eip1559, sign_legacy,
    sign_transaction, sign_transaction_at, stamp_signed,
};
use cryptoheir::error::Error;
use cryptoheir::network::{get_gas_prices, FeeHistory, GasPrices, GasQuote};
use cryptoheir::types::{
    Address, Metadata, NetworkInfo, TransactionData, TransactionMode, TxHash, TxParams,
};
use cryptoheir::uint::U256;
use cryptoheir::validate::{validate, Warning};

const KEY: &str = "0xac0974bec39a17e36ba4a6b4d238ff944bacb478cbed5efcae784d7bf4f2ff80";
const KEY_ADDRESS: &str = "0xf39Fd6e51aad88F6F4ce6aB8827279cffFb92266";
const OTHER_KEY: &str = "0x59c6995e998f97a5a0044966f0945389dc9e86dae88c7a8412f4603b6b78690d";

fn address(text: &str) -> Address {
    let parsed: alloy::primitives::Address = text.parse().unwrap();
    Address::from_bytes(parsed.into_array())
}

fn metadata(chain_id: u64) -> Metadata {
    Metadata {
        network: NetworkInfo { name: "sepolia".to_string(), chain_id, rpc_url: None },
        estimated_cost: "0.000063".to_string(),
        timestamp: "2024-01-01T00:00:00+00:00".to_string(),
        prepared: true,
        signed: false,
        signed_at: None,
    }
}

fn fee_market_body() -> TransactionData {
    TransactionData {
        tx_type: 2,
        from: address(KEY_ADDRESS),
        to: Some(address("0x70997970C51812dc3A010C7d01b50e0d17dc79C8")),
        data: vec![0xde, 0xad, 0xbe, 0xef],
        nonce: 4,
        chain_id: 11155111,
        gas_limit: U256::from_u64(21000),
        max_fee_per_gas: Some(U256::from_u64(3_000_000_000)),
        max_priority_fee_per_gas: Some(U256::from_u64(1_500_000_000)),
        gas_price: None,
        value: None,
    }
}

fn legacy_body() -> TransactionData {
    TransactionData {
        tx_type: 0,
        max_fee_per_gas: None,
        max_priority_fee_per_gas: None,
        gas_price: Some(U256::from_u64(20_000_000_000)),
        ..fee_market_body()
    }
}

fn descriptor(body: TransactionData) -> TxParams {
    TxParams {
        mode: TransactionMode::Call,
        function_name: Some("deposit".to_string()),
        params: None,
        metadata: metadata(body.chain_id),
        transaction: body,
    }
}

fn recovered(raw: &[u8]) -> (alloy::primitives::Address, alloy::primitives::B256) {
    let mut bytes = raw;
    let envelope = TxEnvelope::decode_2718(&mut bytes).unwrap();
    assert!(bytes.is_empty());
    let hash = envelope.signature_hash();
    (envelope.signature().recover_address_from_prehash(&hash).unwrap(), hash)
}

#[test]
fn composed_call_is_signed_by_its_sender() {
    let prices = match get_gas_prices(FeeHistory::Available { latest_base_fee: Some(750_000_000) }) {
        GasQuote::Priced(p) => p,
        GasQuote::AskGasPrice => panic!("fee history was there"),
    };
    let request = CallRequest {
        mode: TransactionMode::Call,
        function_name: Some("claim".to_string()),
        params: None,
        to: Some(address("0x70997970C51812dc3A010C7d01b50e0d17dc79C8")),
        data: vec![1, 2, 3, 4],
        value: None,
    };
    let seen = Observed {
        chain_id: Some(11155111),
        nonce: Some(4),
        gas_estimate: Some(17_500),
        prices: Some(prices),
    };
    let d = compose(address(KEY_ADDRESS), "sepolia", request, seen, "2024-01-01T00:00:00+00:00".to_string())
        .unwrap();
    assert_eq!(d.transaction.tx_type, 2);
    assert_eq!(d.transaction.chain_id, 11155111);
    assert_eq!(d.transaction.nonce, 4);
    assert_eq!(d.transaction.gas_limit, U256::from_u64(21000));
    assert_eq!(d.transaction.max_fee_per_gas, Some(U256::from_u64(3_000_000_000)));
    assert_eq!(d.transaction.max_priority_fee_per_gas, Some(U256::from_u64(1_500_000_000)));
    assert_eq!(d.transaction.gas_price, None);
    assert_eq!(validate(&d), Ok(vec![]));

    let signed = sign_transaction(&d, KEY).unwrap();
    let (signer, hash) = recovered(&signed.signed_transaction);
    assert_eq!(signer.into_array(), d.transaction.from.bytes);
    assert_eq!(signed.from, d.transaction.from);
    assert_eq!(hash.0, signed.tx_hash.bytes);
    assert_eq!(signed.signed_transaction[0], 2);
    assert_eq!(signed.predicted_contract_address, None);
    assert!(signed.metadata.signed);
    assert!(signed.metadata.prepared);
    assert!(signed.metadata.signed_at.is_some());

    let again = sign_transaction(&d, KEY).unwrap();
    assert_eq!(again.tx_hash, signed.tx_hash);
    assert_eq!(again.signed_transaction, signed.signed_transaction);
}

#[test]
fn signing_at_a_given_time_is_reproducible() {
    let d = descriptor(fee_market_body());
    let a = sign_transaction_at(&d, KEY, "2024-05-05T10:00:00+00:00".to_string()).unwrap();
    let b = sign_transaction_at(&d, KEY, "2024-05-05T10:00:00+00:00".to_string()).unwrap();
    assert_eq!(a, b);
    assert_eq!(a.metadata.signed_at, Some("2024-05-05T10:00:00+00:00".to_string()));
    assert_eq!(a.metadata.timestamp, d.metadata.timestamp);
    assert_eq!(a.metadata.estimated_cost, d.metadata.estimated_cost);
    assert_eq!(a.metadata.network, d.metadata.network);
    assert_eq!(a.mode, TransactionMode::Call);
}

#[test]
fn signed_hash_depends_on_the_body() {
    let a = sign_eip1559(&fee_market_body(), KEY).unwrap();
    let mut other = fee_market_body();
    other.nonce = 5;
    let b = sign_eip1559(&other, KEY).unwrap();
    assert_ne!(a.1, b.1);
    assert_ne!(a.0, b.0);
    assert_ne!(a.0, fee_market_body().data);
    assert_ne!(a.1.bytes.to_vec(), a.0);
}

#[test]
fn legacy_body_is_signed_in_legacy_shape() {
    let (raw, hash) = sign_legacy(&legacy_body(), KEY).unwrap();
    let (signer, signed_hash) = recovered(&raw);
    assert_eq!(signer.into_array(), address(KEY_ADDRESS).bytes);
    assert_eq!(signed_hash.0, hash.bytes);
    assert!(raw[0] >= 0xc0);
    let signed = sign_transaction_at(&descriptor(legacy_body()), KEY, "t".to_string()).unwrap();
    assert_eq!(signed.signed_transaction, raw);
    assert_eq!(signed.tx_hash, hash);
}

#[test]
fn deployment_predicts_its_contract_address() {
    let mut body = fee_market_body();
    body.to = None;
    let mut d = descriptor(body);
    d.mode = TransactionMode::Deploy;
    d.function_name = None;
    let signed = sign_transaction_at(&d, KEY, "t".to_string()).unwrap();
    let sender: alloy::primitives::Address = KEY_ADDRESS.parse().unwrap();
    assert_eq!(
        signed.predicted_contract_address,
        Some(Address::from_bytes(sender.create(4).into_array()))
    );
    assert_ne!(signed.predicted_contract_address, Some(address(KEY_ADDRESS)));
    assert_eq!(signed.mode, TransactionMode::Deploy);
}

#[test]
fn wrong_key_is_a_signer_mismatch() {
    let d = descriptor(fee_market_body());
    assert_eq!(sign_transaction(&d, OTHER_KEY), Err(Error::SignerMismatch));
    assert_eq!(sign_transaction_at(&d, OTHER_KEY, "t".to_string()), Err(Error::SignerMismatch));
}

#[test]
fn bad_key_text_is_an_invalid_key() {
    let d = descriptor(fee_market_body());
    for key in ["", "0x1234", "not a key", "0x0000000000000000000000000000000000000000000000000000000000000000"] {
        assert_eq!(sign_transaction(&d, key), Err(Error::InvalidPrivateKey));
    }
}

#[test]
fn key_without_prefix_is_read() {
    let d = descriptor(fee_market_body());
    let with = sign_transaction_at(&d, KEY, "t".to_string()).unwrap();
    let without = sign_transaction_at(&d, &KEY[2..], "t".to_string()).unwrap();
    assert_eq!(with, without);
}

#[test]
fn other_transaction_types_are_not_signed() {
    let mut body = fee_market_body();
    body.tx_type = 1;
    assert_eq!(
        sign_transaction(&descriptor(body), KEY),
        Err(Error::UnsupportedTransactionType { tx_type: 1 })
    );
}

#[test]
fn missing_fee_fields_stop_the_signer() {
    let mut body = fee_market_body();
    body.max_fee_per_gas = None;
    assert_eq!(sign_eip1559(&body, KEY), Err(Error::MissingFeeMarketField));
    let mut body = fee_market_body();
    body.max_priority_fee_per_gas = None;
    assert_eq!(sign_transaction(&descriptor(body), KEY), Err(Error::MissingFeeMarketField));
    let mut body = legacy_body();
    body.gas_price = None;
    assert_eq!(sign_legacy(&body, KEY), Err(Error::MissingGasPrice));
}

#[test]
fn numbers_too_wide_for_the_wire_are_refused() {
    let mut body = fee_market_body();
    body.gas_limit = U256::from_u128(1u128 << 64);
    assert_eq!(fee_market_tx(&body), Err(Error::AmountOutOfRange));
    assert_eq!(sign_eip1559(&body, KEY), Err(Error::AmountOutOfRange));
    let mut body = fee_market_body();
    body.max_fee_per_gas = Some(U256 { l0: 0, l1: 0, l2: 1, l3: 0 });
    assert_eq!(fee_market_tx(&body), Err(Error::AmountOutOfRange));
    let mut body = legacy_body();
    body.gas_price = Some(U256 { l0: 0, l1: 0, l2: 0, l3: 1 });
    assert_eq!(legacy_tx(&body), Err(Error::AmountOutOfRange));
}

#[test]
fn wire_shapes_carry_the_body() {
    let tx = fee_market_tx(&fee_market_body()).unwrap();
    assert_eq!(tx.chain_id, 11155111);
    assert_eq!(tx.nonce, 4);
    assert_eq!(tx.gas_limit, 21000);
    assert_eq!(tx.max_fee_per_gas, 3_000_000_000);
    assert_eq!(tx.max_priority_fee_per_gas, 1_500_000_000);
    assert_eq!(tx.value, U256::zero());
    assert_eq!(tx.input, vec![0xde, 0xad, 0xbe, 0xef]);
    let mut body = legacy_body();
    body.value = Some(U256::from_u64(9));
    let tx = legacy_tx(&body).unwrap();
    assert_eq!(tx.gas_price, 20_000_000_000);
    assert_eq!(tx.value, U256::from_u64(9));
    assert_eq!(tx.to, body.to);
}

#[test]
fn signer_check_tells_its_three_cases() {
    let from = address(KEY_ADDRESS);
    assert_eq!(check_signer(Some(from), &from), Ok(()));
    assert_eq!(
        check_signer(Some(address("0x70997970C51812dc3A010C7d01b50e0d17dc79C8")), &from),
        Err(Error::SignerMismatch)
    );
    assert_eq!(check_signer(None, &from), Err(Error::InvalidPrivateKey));
}

#[test]
fn stamping_changes_only_the_signing_fields() {
    let mut before = metadata(1);
    before.signed_at = Some("old".to_string());
    let after = stamp_signed(&before, "new".to_string());
    assert_eq!(
        after,
        Metadata { signed: true, signed_at: Some("new".to_string()), ..metadata(1) }
    );
}

#[test]
fn assembling_keeps_the_contract_only_for_deployments() {
    let d = descriptor(fee_market_body());
    let hash = TxHash::from_bytes([7; 32]);
    let contract = address("0x70997970C51812dc3A010C7d01b50e0d17dc79C8");
    let call = assemble_signed(&d, vec![1, 2], hash, contract, "t".to_string());
    assert_eq!(call.predicted_contract_address, None);
    assert_eq!(call.signed_transaction, vec![1, 2]);
    assert_eq!(call.tx_hash, hash);
    assert_eq!(call.from, d.transaction.from);
    let mut deploy = descriptor(fee_market_body());
    deploy.mode = TransactionMode::Deploy;
    let made = assemble_signed(&deploy, vec![1, 2], hash, contract, "t".to_string());
    assert_eq!(made.predicted_contract_address, Some(contract));
}

#[test]
fn validator_rejects_type_2_with_only_a_gas_price() {
    let mut body = fee_market_body();
    body.max_fee_per_gas = None;
    body.max_priority_fee_per_gas = None;
    body.gas_price = Some(U256::from_u64(1));
    let verdict = validate(&descriptor(body));
    assert_eq!(verdict, Err(Error::MissingFeeMarketField));
    assert!(Error::MissingFeeMarketField.message().contains("issing fee-market field"));
}

#[test]
fn validator_checks_in_order() {
    let mut d = descriptor(fee_market_body());
    d.metadata.prepared = false;
    d.transaction.tx_type = 9;
    assert_eq!(validate(&d), Err(Error::NotPrepared));
    d.metadata.prepared = true;
    assert_eq!(validate(&d), Err(Error::UnsupportedTransactionType { tx_type: 9 }));
    let mut body = legacy_body();
    body.gas_price = None;
    assert_eq!(validate(&descriptor(body)), Err(Error::MissingGasPrice));
    let mut body = fee_market_body();
    body.max_priority_fee_per_gas = None;
    assert_eq!(validate(&descriptor(body)), Err(Error::MissingFeeMarketField));
}

#[test]
fn validator_passes_well_priced_bodies() {
    assert_eq!(validate(&descriptor(fee_market_body())), Ok(vec![]));
    assert_eq!(validate(&descriptor(legacy_body())), Ok(vec![]));
}

#[test]
fn validator_warns_of_surplus_fields_and_signed_descriptors() {
    let mut body = fee_market_body();
    body.gas_price = Some(U256::from_u64(1));
    assert_eq!(validate(&descriptor(body)), Ok(vec![Warning::SurplusGasPrice]));
    let mut body = legacy_body();
    body.max_fee_per_gas = Some(U256::from_u64(1));
    let mut d = descriptor(body);
    d.metadata.signed = true;
    assert_eq!(validate(&d), Ok(vec![Warning::AlreadySigned, Warning::SurplusFeeMarketField]));
}

#[test]
fn signing_phase_signs_what_was_approved() {
    let d = descriptor(fee_market_body());
    for review in [Review::Approved, Review::Skipped] {
        match execute(&d, review, Some(KEY), "t".to_string()) {
            Ok(SignOutcome::Signed { signed, warnings }) => {
                assert_eq!(signed, sign_transaction_at(&d, KEY, "t".to_string()).unwrap());
                assert_eq!(warnings, vec![]);
            }
            other => panic!("not signed: {:?}", other),
        }
    }
}

#[test]
fn signing_phase_cancels_on_rejection() {
    let d = descriptor(fee_market_body());
    assert_eq!(execute(&d, Review::Rejected, Some(KEY), "t".to_string()), Ok(SignOutcome::Cancelled));
    assert_eq!(execute(&d, Review::Rejected, None, "t".to_string()), Ok(SignOutcome::Cancelled));
}

#[test]
fn signing_phase_validates_first() {
    let mut d = descriptor(fee_market_body());
    d.metadata.prepared = false;
    assert_eq!(execute(&d, Review::Rejected, None, "t".to_string()), Err(Error::NotPrepared));
    assert_eq!(execute(&d, Review::Approved, Some(KEY), "t".to_string()), Err(Error::NotPrepared));
}

#[test]
fn signing_phase_needs_the_key() {
    let d = descriptor(fee_market_body());
    assert_eq!(execute(&d, Review::Approved, None, "t".to_string()), Err(Error::MissingPrivateKey));
    assert_eq!(execute(&d, Review::Approved, Some(OTHER_KEY), "t".to_string()), Err(Error::SignerMismatch));
}

#[test]
fn clock_gives_a_date_and_seconds() {
    let moment = cryptoheir::clock::now();
    assert!(moment.unix_seconds > 1_600_000_000);
    assert!(moment.rfc3339.contains('T'));
    assert!(moment.rfc3339.len() >= 20);
}

#[test]
fn clock_text_and_numbers_are_one_instant() {
    let moment = cryptoheir::clock::now();
    let read = chrono::DateTime::parse_from_rfc3339(&moment.rfc3339).unwrap();
    assert_eq!(read.timestamp(), moment.unix_seconds);
    assert_eq!(read.timestamp_subsec_nanos(), moment.subsec_nanos);
    assert!(moment.rfc3339.ends_with("+00:00"));
    let again = chrono::DateTime::from_timestamp(moment.unix_seconds, moment.subsec_nanos).unwrap();
    assert_eq!(again.to_rfc3339(), moment.rfc3339);
}

#[test]
fn price_variants_never_mix() {
    match get_gas_prices(FeeHistory::Available { latest_base_fee: Some(1) }) {
        GasQuote::Priced(GasPrices::FeeMarket { .. }) => {}
        other => panic!("{:?}", other),
    }
}
