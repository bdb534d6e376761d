use cryptoheir::commands::mnemonic::{check_word_count, DEFAULT_ACCOUNT_INDEX, GENERATED_WORDS};
use cryptoheir::commands::prepare::{
    compose, execute, parse_amount, prepare_accept_fee_collector, prepare_claim, prepare_deploy,
    prepare_deposit, prepare_extend_deadline, prepare_reclaim, prepare_transfer_fee_collector,
    request_for, CallRequest, Observed, Operation,
};
use cryptoheir::contract::{
    encode_accept_fee_collector, encode_claim, encode_deposit, encode_extend_deadline,
    encode_reclaim, encode_transfer_fee_collector, load_bytecode, selector_of,
};
use cryptoheir::error::Error;
use cryptoheir::hex::parse_address;
use cryptoheir::network::GasPrices;
use cryptoheir::types::{Address, CallArgs, Config, TransactionMode};
use cryptoheir::uint::U256;
use cryptoheir::validate::validate;

const NOW: i64 = 1_700_000_000;

fn addr(byte: u8) -> Address {
    Address::from_bytes([byte; 20])
}

fn selector(signature: &str) -> Vec<u8> {
    alloy::primitives::keccak256(signature.as_bytes())[..4].to_vec()
}

fn word(n: u64) -> Vec<u8> {
    let mut w = vec![0u8; 24];
    w.extend_from_slice(&n.to_be_bytes());
    w
}

fn address_word(a: &Address) -> Vec<u8> {
    let mut w = vec![0u8; 12];
    w.extend_from_slice(&a.bytes);
    w
}

fn config() -> Config {
    Config {
        signer_address: Some(addr(0xaa)),
        private_key: None,
        infura_api_key: Some("KEY".to_string()),
        rpc_url: None,
        contract_address: Some(addr(0xcc)),
    }
}

fn fee_market() -> GasPrices {
    GasPrices::FeeMarket {
        max_fee_per_gas: U256::from_u64(3_000_000_000),
        max_priority_fee_per_gas: U256::from_u64(1_500_000_000),
    }
}

fn seen(prices: GasPrices) -> Observed {
    Observed { chain_id: Some(11155111), nonce: Some(4), gas_estimate: Some(17_500), prices: Some(prices) }
}

fn call() -> CallRequest {
    prepare_claim(addr(0xcc), U256::from_u64(7)).unwrap()
}

#[test]
fn deposit_selector_is_the_known_one() {
    assert_eq!(selector("claim(uint256)"), vec![0x37, 0x96, 0x07, 0xf5]);
    let hash = alloy::primitives::keccak256("claim(uint256)".as_bytes());
    assert_eq!(selector_of(&hash.0), vec![0x37, 0x96, 0x07, 0xf5]);
}

#[test]
fn deposit_of_native_currency_is_encoded_with_its_value() {
    let amount = U256::from_u64(1_500_000_000_000_000_000);
    let (data, value) = encode_deposit(addr(0xbb), amount, NOW as u64 + 1, None, NOW).unwrap();
    let mut expected = selector("deposit(address,uint256,uint256,address)");
    expected.extend(address_word(&addr(0xbb)));
    expected.extend(word(1_500_000_000_000_000_000));
    expected.extend(word(NOW as u64 + 1));
    expected.extend(vec![0u8; 32]);
    assert_eq!(data, expected);
    assert_eq!(data.len(), 4 + 4 * 32);
    assert_eq!(value, Some(amount));
}

#[test]
fn deposit_of_a_token_sends_no_value() {
    let amount = U256 { l0: 1, l1: 2, l2: 3, l3: 4 };
    let (data, value) = encode_deposit(addr(0xbb), amount, u64::MAX, Some(addr(0xdd)), NOW).unwrap();
    assert_eq!(value, None);
    let wide = alloy::primitives::U256::from_limbs([1, 2, 3, 4]);
    assert_eq!(&data[4 + 32..4 + 64], &wide.to_be_bytes::<32>()[..]);
    assert_eq!(&data[4 + 64..4 + 96], &word(u64::MAX)[..]);
    assert_eq!(&data[4 + 96..], &address_word(&addr(0xdd))[..]);
    assert_eq!(data[4 + 32 + 7], 4);
    assert_eq!(data[4 + 32 + 31], 1);
}

#[test]
fn deposit_needs_a_positive_amount_and_a_future_deadline() {
    assert_eq!(
        encode_deposit(addr(1), U256::zero(), NOW as u64 + 10, None, NOW),
        Err(Error::NonPositiveAmount)
    );
    assert_eq!(
        encode_deposit(addr(1), U256::from_u64(1), NOW as u64, None, NOW),
        Err(Error::DeadlinePassed)
    );
    assert_eq!(
        encode_deposit(addr(1), U256::from_u64(1), NOW as u64 - 1, None, NOW),
        Err(Error::DeadlinePassed)
    );
    assert_eq!(encode_deposit(addr(1), U256::zero(), 0, None, NOW), Err(Error::NonPositiveAmount));
    assert!(encode_deposit(addr(1), U256::from_u64(1), 0, None, -5).is_ok());
}

#[test]
fn other_calls_are_encoded() {
    let mut claim = selector("claim(uint256)");
    claim.extend(word(7));
    assert_eq!(encode_claim(U256::from_u64(7)), Ok(claim));
    let mut reclaim = selector("reclaim(uint256)");
    reclaim.extend(word(8));
    assert_eq!(encode_reclaim(U256::from_u64(8)), Ok(reclaim));
    let mut extend = selector("extendDeadline(uint256,uint256)");
    extend.extend(word(9));
    extend.extend(word(NOW as u64 + 5));
    assert_eq!(encode_extend_deadline(U256::from_u64(9), NOW as u64 + 5, NOW), Ok(extend));
    assert_eq!(
        encode_extend_deadline(U256::from_u64(9), NOW as u64, NOW),
        Err(Error::DeadlinePassed)
    );
    let mut transfer = selector("transferFeeCollector(address)");
    transfer.extend(address_word(&addr(0x42)));
    assert_eq!(encode_transfer_fee_collector(addr(0x42)), Ok(transfer));
    assert_eq!(encode_accept_fee_collector(), Ok(selector("acceptFeeCollector()")));
}

#[test]
fn bytecode_is_read_from_hex() {
    assert_eq!(load_bytecode(Some("0x6080")), Ok(vec![0x60, 0x80]));
    assert_eq!(load_bytecode(Some("60806040")), Ok(vec![0x60, 0x80, 0x60, 0x40]));
    assert_eq!(load_bytecode(Some("0Xabcdef")), Ok(vec![0xab, 0xcd, 0xef]));
    assert_eq!(load_bytecode(Some("ABCDEF")), Ok(vec![0xab, 0xcd, 0xef]));
    assert_eq!(load_bytecode(None), Err(Error::BytecodeNotFound));
    assert_eq!(load_bytecode(Some("0x")), Err(Error::EmptyBytecode));
    assert_eq!(load_bytecode(Some("")), Err(Error::EmptyBytecode));
    assert_eq!(load_bytecode(Some("0x608")), Err(Error::InvalidBytecode));
    assert_eq!(load_bytecode(Some("0xzz")), Err(Error::InvalidBytecode));
    assert_eq!(load_bytecode(Some("0x60 80")), Err(Error::InvalidBytecode));
}

#[test]
fn addresses_are_read_from_hex() {
    let text = "0xf39Fd6e51aad88F6F4ce6aB8827279cffFb92266";
    let expected: alloy::primitives::Address = text.parse().unwrap();
    assert_eq!(parse_address(text), Some(Address::from_bytes(expected.into_array())));
    assert_eq!(parse_address(&text[2..]), Some(Address::from_bytes(expected.into_array())));
    assert_eq!(parse_address(&text.to_lowercase()), Some(Address::from_bytes(expected.into_array())));
    assert_eq!(parse_address("0x1234"), None);
    assert_eq!(parse_address(""), None);
    assert_eq!(parse_address("0xf39Fd6e51aad88F6F4ce6aB8827279cffFb9226g"), None);
    assert_eq!(parse_address("0xf39Fd6e51aad88F6F4ce6aB8827279cffFb9226600"), None);
}

#[test]
fn configuration_reads_its_addresses() {
    let c = Config::from_values(
        Some("0xf39Fd6e51aad88F6F4ce6aB8827279cffFb92266"),
        Some("key"),
        None,
        Some("http://node"),
        Some("not an address"),
    );
    assert_eq!(c.signer_address, parse_address("0xf39Fd6e51aad88F6F4ce6aB8827279cffFb92266"));
    assert!(c.signer_address.is_some());
    assert_eq!(c.private_key, Some("key".to_string()));
    assert_eq!(c.infura_api_key, None);
    assert_eq!(c.rpc_url, Some("http://node".to_string()));
    assert_eq!(c.contract_address, None);
}

#[test]
fn amounts_are_read_in_the_native_unit() {
    assert_eq!(parse_amount("1"), Ok(U256::from_u64(1_000_000_000_000_000_000)));
    assert_eq!(parse_amount("1.5"), Ok(U256::from_u64(1_500_000_000_000_000_000)));
    assert_eq!(parse_amount("0.000000000000000001"), Ok(U256::from_u64(1)));
    assert_eq!(parse_amount("0"), Ok(U256::zero()));
    assert_eq!(parse_amount("-1"), Err(Error::NonPositiveAmount));
    assert_eq!(parse_amount("abc"), Err(Error::InvalidAmount));
    assert_eq!(parse_amount("1,5"), Err(Error::InvalidAmount));
    assert_eq!(parse_amount("1.5\u{e9}"), Err(Error::InvalidAmount));
    assert_eq!(parse_amount("0.0000000000000000000\u{e9}"), Err(Error::InvalidAmount));
}

#[test]
fn deposit_request_carries_what_the_user_gave() {
    let request = prepare_deposit(addr(0xcc), addr(0xbb), "1.5", NOW as u64 + 60, None, NOW).unwrap();
    let (data, value) = encode_deposit(
        addr(0xbb),
        U256::from_u64(1_500_000_000_000_000_000),
        NOW as u64 + 60,
        None,
        NOW,
    )
    .unwrap();
    assert_eq!(
        request,
        CallRequest {
            mode: TransactionMode::Call,
            function_name: Some("deposit".to_string()),
            params: Some(CallArgs::Deposit {
                beneficiary: addr(0xbb),
                amount: "1.5".to_string(),
                deadline: NOW as u64 + 60,
                token: None,
            }),
            to: Some(addr(0xcc)),
            data,
            value,
        }
    );
    assert_eq!(
        prepare_deposit(addr(0xcc), addr(0xbb), "0", NOW as u64 + 60, None, NOW),
        Err(Error::NonPositiveAmount)
    );
    assert_eq!(
        prepare_deposit(addr(0xcc), addr(0xbb), "-2", NOW as u64 + 60, None, NOW),
        Err(Error::NonPositiveAmount)
    );
    assert_eq!(
        prepare_deposit(addr(0xcc), addr(0xbb), "x", 0, None, NOW),
        Err(Error::InvalidAmount)
    );
    assert_eq!(
        prepare_deposit(addr(0xcc), addr(0xbb), "1", NOW as u64, None, NOW),
        Err(Error::DeadlinePassed)
    );
}

#[test]
fn other_requests_name_their_function() {
    let claim = prepare_claim(addr(0xcc), U256::from_u64(7)).unwrap();
    assert_eq!(claim.function_name, Some("claim".to_string()));
    assert_eq!(claim.params, Some(CallArgs::Claim { id: U256::from_u64(7) }));
    assert_eq!(claim.data, encode_claim(U256::from_u64(7)).unwrap());
    assert_eq!(claim.to, Some(addr(0xcc)));
    assert_eq!(claim.value, None);
    assert_eq!(claim.mode, TransactionMode::Call);
    let reclaim = prepare_reclaim(addr(0xcc), U256::from_u64(7)).unwrap();
    assert_eq!(reclaim.function_name, Some("reclaim".to_string()));
    assert_eq!(reclaim.data, encode_reclaim(U256::from_u64(7)).unwrap());
    let extend = prepare_extend_deadline(addr(0xcc), U256::from_u64(7), NOW as u64 + 1, NOW).unwrap();
    assert_eq!(extend.function_name, Some("extendDeadline".to_string()));
    assert_eq!(
        extend.params,
        Some(CallArgs::ExtendDeadline { id: U256::from_u64(7), new_deadline: NOW as u64 + 1 })
    );
    assert_eq!(
        prepare_extend_deadline(addr(0xcc), U256::from_u64(7), 5, NOW),
        Err(Error::DeadlinePassed)
    );
    let transfer = prepare_transfer_fee_collector(addr(0xcc), addr(0x42)).unwrap();
    assert_eq!(transfer.function_name, Some("transferFeeCollector".to_string()));
    assert_eq!(transfer.data, encode_transfer_fee_collector(addr(0x42)).unwrap());
    let accept = prepare_accept_fee_collector(addr(0xcc)).unwrap();
    assert_eq!(accept.function_name, Some("acceptFeeCollector".to_string()));
    assert_eq!(accept.params, None);
    assert_eq!(accept.data.len(), 4);
}

#[test]
fn deployment_request_holds_the_bytecode() {
    let request = prepare_deploy(Some("0x60806040")).unwrap();
    assert_eq!(
        request,
        CallRequest {
            mode: TransactionMode::Deploy,
            function_name: None,
            params: None,
            to: None,
            data: vec![0x60, 0x80, 0x60, 0x40],
            value: None,
        }
    );
    assert_eq!(prepare_deploy(None), Err(Error::BytecodeNotFound));
    assert_eq!(prepare_deploy(Some("0x")), Err(Error::EmptyBytecode));
}

#[test]
fn contract_comes_from_the_operation_or_the_configuration() {
    let op = Operation::Claim { id: U256::from_u64(1), contract: Some(addr(0x01)) };
    assert_eq!(request_for(&op, &config(), None, NOW).unwrap().to, Some(addr(0x01)));
    let op = Operation::Claim { id: U256::from_u64(1), contract: None };
    assert_eq!(request_for(&op, &config(), None, NOW).unwrap().to, Some(addr(0xcc)));
    let mut bare = config();
    bare.contract_address = None;
    for op in [
        Operation::Claim { id: U256::from_u64(1), contract: None },
        Operation::Reclaim { id: U256::from_u64(1), contract: None },
        Operation::ExtendDeadline { id: U256::from_u64(1), new_deadline: u64::MAX, contract: None },
        Operation::TransferFeeCollector { new_collector: addr(2), contract: None },
        Operation::AcceptFeeCollector { contract: None },
        Operation::Deposit {
            beneficiary: addr(2),
            amount: "not a number".to_string(),
            deadline: 0,
            token: None,
            contract: None,
        },
    ] {
        assert_eq!(request_for(&op, &bare, None, NOW), Err(Error::MissingContractAddress));
    }
    assert!(request_for(&Operation::Deploy, &bare, Some("0x60"), NOW).is_ok());
}

#[test]
fn composing_starts_with_the_configuration() {
    let op = Operation::Claim { id: U256::from_u64(1), contract: None };
    let p = execute(&op, Some("mainnet"), None, &config(), None, NOW).unwrap();
    assert_eq!(p.rpc_url, "https://mainnet.infura.io/v3/KEY");
    assert_eq!(p.network_name, "mainnet");
    assert_eq!(p.from, addr(0xaa));
    assert_eq!(p.request, prepare_claim(addr(0xcc), U256::from_u64(1)).unwrap());

    let p = execute(&op, None, Some("http://node:8545"), &config(), None, NOW).unwrap();
    assert_eq!(p.rpc_url, "http://node:8545");
    assert_eq!(p.network_name, "custom");

    let mut c = config();
    c.rpc_url = Some("http://env".to_string());
    let p = execute(&op, Some("mainnet"), None, &c, None, NOW).unwrap();
    assert_eq!(p.rpc_url, "http://env");
    let p = execute(&op, None, None, &config(), None, NOW).unwrap();
    assert_eq!(p.rpc_url, "https://sepolia.infura.io/v3/KEY");
}

#[test]
fn configuration_errors_come_in_order() {
    let op = Operation::Claim { id: U256::from_u64(1), contract: None };
    let nothing = Config {
        signer_address: None,
        private_key: None,
        infura_api_key: None,
        rpc_url: None,
        contract_address: None,
    };
    assert_eq!(execute(&op, None, None, &nothing, None, NOW), Err(Error::MissingRpcUrl));
    assert_eq!(
        execute(&op, None, Some("http://node"), &nothing, None, NOW),
        Err(Error::MissingSignerAddress)
    );
    let mut with_signer = nothing.clone();
    with_signer.signer_address = Some(addr(0xaa));
    assert_eq!(
        execute(&op, None, Some("http://node"), &with_signer, None, NOW),
        Err(Error::MissingContractAddress)
    );
    assert_eq!(
        execute(&Operation::Deploy, None, Some("http://node"), &with_signer, None, NOW),
        Err(Error::BytecodeNotFound)
    );
    assert_eq!(Error::MissingRpcUrl.message(), "No RPC URL provided or configured");
    assert_eq!(Error::MissingSignerAddress.message(), "SIGNER_ADDRESS not set in environment");
    assert_eq!(Error::MissingPrivateKey.message(), "PRIVATE_KEY not set in environment");
    assert_eq!(
        Error::MissingContractAddress.message(),
        "Contract address required (use --contract or set CONTRACT_ADDRESS)"
    );
}

#[test]
fn composed_descriptor_is_priced_by_the_fee_market() {
    let d = compose(addr(0xaa), "sepolia", call(), seen(fee_market()), "now".to_string()).unwrap();
    assert_eq!(d.mode, TransactionMode::Call);
    assert_eq!(d.function_name, Some("claim".to_string()));
    assert_eq!(d.transaction.tx_type, 2);
    assert_eq!(d.transaction.from, addr(0xaa));
    assert_eq!(d.transaction.to, Some(addr(0xcc)));
    assert_eq!(d.transaction.data, call().data);
    assert_eq!(d.transaction.nonce, 4);
    assert_eq!(d.transaction.chain_id, 11155111);
    assert_eq!(d.transaction.gas_limit, U256::from_u64(21_000));
    assert_eq!(d.transaction.max_fee_per_gas, Some(U256::from_u64(3_000_000_000)));
    assert_eq!(d.transaction.max_priority_fee_per_gas, Some(U256::from_u64(1_500_000_000)));
    assert_eq!(d.transaction.gas_price, None);
    assert_eq!(d.transaction.value, None);
    assert_eq!(d.metadata.network.name, "sepolia");
    assert_eq!(d.metadata.network.chain_id, 11155111);
    assert_eq!(d.metadata.network.rpc_url, None);
    assert_eq!(d.metadata.estimated_cost, "0.000063");
    assert_eq!(d.metadata.timestamp, "now");
    assert!(d.metadata.prepared);
    assert!(!d.metadata.signed);
    assert_eq!(d.metadata.signed_at, None);
    assert_eq!(validate(&d), Ok(vec![]));
}

#[test]
fn composed_descriptor_is_priced_by_the_gas_price() {
    let prices = GasPrices::Legacy { gas_price: U256::from_u64(20_000_000_000) };
    let d = compose(addr(0xaa), "anvil", call(), seen(prices), "now".to_string()).unwrap();
    assert_eq!(d.transaction.tx_type, 0);
    assert_eq!(d.transaction.gas_price, Some(U256::from_u64(20_000_000_000)));
    assert_eq!(d.transaction.max_fee_per_gas, None);
    assert_eq!(d.transaction.max_priority_fee_per_gas, None);
    assert_eq!(d.metadata.estimated_cost, "0.000420");
    assert_eq!(validate(&d), Ok(vec![]));
}

#[test]
fn estimated_cost_includes_the_value_sent() {
    let request = prepare_deposit(addr(0xcc), addr(0xbb), "1.5", NOW as u64 + 60, None, NOW).unwrap();
    let d = compose(addr(0xaa), "sepolia", request, seen(fee_market()), "now".to_string()).unwrap();
    assert_eq!(d.metadata.estimated_cost, "1.500063");
    assert_eq!(d.transaction.value, Some(U256::from_u64(1_500_000_000_000_000_000)));
}

#[test]
fn composing_needs_every_network_fact() {
    for missing in 0..4 {
        let mut facts = seen(fee_market());
        match missing {
            0 => facts.chain_id = None,
            1 => facts.nonce = None,
            2 => facts.gas_estimate = None,
            _ => facts.prices = None,
        }
        assert_eq!(
            compose(addr(0xaa), "sepolia", call(), facts, "now".to_string()),
            Err(Error::Rpc)
        );
    }
}

#[test]
fn cost_beyond_256_bits_is_refused() {
    let huge = U256 { l0: u64::MAX, l1: u64::MAX, l2: u64::MAX, l3: u64::MAX };
    let prices = GasPrices::Legacy { gas_price: huge };
    assert_eq!(
        compose(addr(0xaa), "sepolia", call(), seen(prices), "now".to_string()),
        Err(Error::CostOverflow)
    );
    let mut request = call();
    request.value = Some(huge);
    assert_eq!(
        compose(addr(0xaa), "sepolia", request, seen(fee_market()), "now".to_string()),
        Err(Error::CostOverflow)
    );
}

#[test]
fn every_error_has_its_text() {
    assert_eq!(Error::NotPrepared.message(), "Transaction has not been prepared");
    assert_eq!(Error::MissingGasPrice.message(), "gas_price required for legacy transaction");
    assert_eq!(
        Error::UnsupportedTransactionType { tx_type: 7 }.message(),
        "Unsupported transaction type: 7"
    );
    assert_eq!(
        Error::UnsupportedTransactionType { tx_type: 255 }.message(),
        "Unsupported transaction type: 255"
    );
    assert_eq!(Error::EmptyBytecode.message(), "Contract bytecode is empty");
    assert_eq!(Error::BytecodeNotFound.message(), "Bytecode not found in artifact");
    assert_eq!(
        Error::SignerMismatch.message(),
        "Private key address does not match transaction from address"
    );
    for e in [
        Error::InvalidAmount,
        Error::NonPositiveAmount,
        Error::DeadlinePassed,
        Error::InvalidBytecode,
        Error::AmountOutOfRange,
        Error::CostOverflow,
        Error::InvalidPrivateKey,
        Error::SigningFailed,
        Error::HashDivergence,
        Error::Rpc,
        Error::UnexpectedEvent,
    ] {
        assert!(!e.message().is_empty());
    }
}

#[test]
fn mnemonic_phrases_have_12_or_24_words() {
    assert_eq!(check_word_count(12), Ok(()));
    assert_eq!(check_word_count(24), Ok(()));
    for words in [0usize, 1, 11, 13, 18, 23, 25] {
        assert_eq!(check_word_count(words), Err(Error::MnemonicWordCount { words: words as u64 }));
    }
    assert_eq!(
        Error::MnemonicWordCount { words: 13 }.message(),
        "Invalid mnemonic: expected 12 or 24 words, got 13"
    );
    assert_eq!(DEFAULT_ACCOUNT_INDEX, 0);
    assert_eq!(check_word_count(GENERATED_WORDS), Ok(()));
}
