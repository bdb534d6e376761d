use cryptoheir::commands::sign::Review;
use cryptoheir::tui::{
    create_transaction_details, display_transaction_summary, handle_key, DetailLine, Key,
    KeyOutcome, Tone,
};
use cryptoheir::types::{
    Address, CallArgs, Metadata, NetworkInfo, TransactionData, TransactionMode, TxParams,
};
use cryptoheir::uint::U256;

const SENDER: &str = "0xf39Fd6e51aad88F6F4ce6aB8827279cffFb92266";
const CONTRACT: &str = "0x70997970C51812dc3A010C7d01b50e0d17dc79C8";

fn address(text: &str) -> Address {
    let parsed: alloy::primitives::Address = text.parse().unwrap();
    Address::from_bytes(parsed.into_array())
}

fn descriptor() -> TxParams {
    TxParams {
        mode: TransactionMode::Call,
        function_name: Some("deposit".to_string()),
        params: Some(CallArgs::Deposit {
            beneficiary: address(CONTRACT),
            amount: "1.5".to_string(),
            deadline: 1_800_000_000,
            token: None,
        }),
        transaction: TransactionData {
            tx_type: 2,
            from: address(SENDER),
            to: Some(address(CONTRACT)),
            data: vec![1, 2, 3],
            nonce: 4,
            chain_id: 11155111,
            gas_limit: U256::from_u64(21000),
            max_fee_per_gas: Some(U256::from_u64(3_000_000_000)),
            max_priority_fee_per_gas: Some(U256::from_u64(1_500_000_000)),
            gas_price: None,
            value: Some(U256::from_u64(1_500_000_000_000_000_000)),
        },
        metadata: Metadata {
            network: NetworkInfo { name: "sepolia".to_string(), chain_id: 11155111, rpc_url: None },
            estimated_cost: "1.500063".to_string(),
            timestamp: "2024-01-01T00:00:00+00:00".to_string(),
            prepared: true,
            signed: false,
            signed_at: None,
        },
    }
}

fn row(label: &str, value: &str, tone: Tone) -> DetailLine {
    DetailLine { label: label.to_string(), value: value.to_string(), tone }
}

#[test]
fn keys_decide_or_scroll() {
    for key in [Key::Char('y'), Key::Char('Y'), Key::Enter] {
        assert_eq!(handle_key(3, key), KeyOutcome::Decided(Review::Approved));
    }
    for key in [Key::Char('n'), Key::Char('N'), Key::Char('q'), Key::Esc] {
        assert_eq!(handle_key(3, key), KeyOutcome::Decided(Review::Rejected));
    }
    assert_eq!(handle_key(3, Key::Down), KeyOutcome::Scrolled(4));
    assert_eq!(handle_key(3, Key::Char('j')), KeyOutcome::Scrolled(4));
    assert_eq!(handle_key(3, Key::Up), KeyOutcome::Scrolled(2));
    assert_eq!(handle_key(3, Key::Char('k')), KeyOutcome::Scrolled(2));
    assert_eq!(handle_key(3, Key::PageDown), KeyOutcome::Scrolled(13));
    assert_eq!(handle_key(13, Key::PageUp), KeyOutcome::Scrolled(3));
    assert_eq!(handle_key(3, Key::Other), KeyOutcome::Scrolled(3));
    assert_eq!(handle_key(3, Key::Char('x')), KeyOutcome::Scrolled(3));
    assert_eq!(handle_key(3, Key::Char('Q')), KeyOutcome::Scrolled(3));
}

#[test]
fn scrolling_stops_at_both_ends() {
    assert_eq!(handle_key(0, Key::Up), KeyOutcome::Scrolled(0));
    assert_eq!(handle_key(4, Key::PageUp), KeyOutcome::Scrolled(0));
    assert_eq!(handle_key(u16::MAX, Key::Down), KeyOutcome::Scrolled(u16::MAX));
    assert_eq!(handle_key(u16::MAX - 3, Key::PageDown), KeyOutcome::Scrolled(u16::MAX));
}

#[test]
fn details_show_the_whole_descriptor() {
    let lines = create_transaction_details(&descriptor());
    assert_eq!(
        lines,
        vec![
            row("Network: ", "sepolia (Chain ID: 11155111)", Tone::Network),
            row("", "", Tone::Plain),
            row("Mode: ", "Call", Tone::Marked),
            row("Function: ", "deposit", Tone::Name),
            row("", "", Tone::Plain),
            row("From: ", SENDER, Tone::Plain),
            row("To: ", CONTRACT, Tone::Plain),
            row("", "", Tone::Plain),
            row("Value: ", "1500000000000000000 wei", Tone::Marked),
            row("Nonce: ", "4", Tone::Plain),
            row("Gas Limit: ", "21000", Tone::Plain),
            row("Max Fee Per Gas: ", "3 gwei", Tone::Plain),
            row("Priority Fee: ", "1 gwei", Tone::Plain),
            row("", "", Tone::Plain),
            row("Estimated Cost: ", "1.500063 ETH", Tone::Cost),
            row("", "", Tone::Plain),
            row("Parameters:", "", Tone::Heading),
            row("  beneficiary: ", CONTRACT, Tone::Plain),
            row("  amount: ", "1.5", Tone::Plain),
            row("  deadline: ", "1800000000", Tone::Plain),
            row("  token: ", "native currency", Tone::Plain),
        ]
    );
}

#[test]
fn details_of_a_legacy_deployment() {
    let mut d = descriptor();
    d.mode = TransactionMode::Deploy;
    d.function_name = None;
    d.params = None;
    d.transaction.tx_type = 0;
    d.transaction.to = None;
    d.transaction.value = Some(U256::zero());
    d.transaction.max_fee_per_gas = None;
    d.transaction.max_priority_fee_per_gas = None;
    d.transaction.gas_price = Some(U256::from_u64(20_999_999_999));
    let lines = create_transaction_details(&d);
    assert_eq!(
        lines,
        vec![
            row("Network: ", "sepolia (Chain ID: 11155111)", Tone::Network),
            row("", "", Tone::Plain),
            row("Mode: ", "Deploy", Tone::Marked),
            row("", "", Tone::Plain),
            row("From: ", SENDER, Tone::Plain),
            row("To: ", "Contract Creation", Tone::Creation),
            row("", "", Tone::Plain),
            row("Nonce: ", "4", Tone::Plain),
            row("Gas Limit: ", "21000", Tone::Plain),
            row("Gas Price: ", "20 gwei", Tone::Plain),
            row("", "", Tone::Plain),
            row("Estimated Cost: ", "1.500063 ETH", Tone::Cost),
            row("", "", Tone::Plain),
        ]
    );
}

#[test]
fn details_of_the_other_calls() {
    let mut d = descriptor();
    d.params = Some(CallArgs::ExtendDeadline { id: U256::from_u64(9), new_deadline: 5 });
    let lines = create_transaction_details(&d);
    assert_eq!(
        lines[lines.len() - 3..].to_vec(),
        vec![
            row("Parameters:", "", Tone::Heading),
            row("  id: ", "9", Tone::Plain),
            row("  new deadline: ", "5", Tone::Plain),
        ]
    );
    d.params = Some(CallArgs::TransferFeeCollector { new_collector: address(SENDER) });
    let lines = create_transaction_details(&d);
    assert_eq!(lines[lines.len() - 1], row("  new collector: ", SENDER, Tone::Plain));
    d.params = Some(CallArgs::Claim { id: U256::from_u64(12) });
    let lines = create_transaction_details(&d);
    assert_eq!(lines[lines.len() - 1], row("  id: ", "12", Tone::Plain));
    d.params = Some(CallArgs::Deposit {
        beneficiary: address(CONTRACT),
        amount: "2".to_string(),
        deadline: 1,
        token: Some(address(SENDER)),
    });
    let lines = create_transaction_details(&d);
    assert_eq!(lines[lines.len() - 1], row("  token: ", SENDER, Tone::Plain));
}

#[test]
fn summary_lists_the_essentials() {
    assert_eq!(
        display_transaction_summary(&descriptor()),
        vec![
            "Transaction Review".to_string(),
            "Network: sepolia (chain ID: 11155111)".to_string(),
            "Mode: Call".to_string(),
            "Function: deposit".to_string(),
            format!("From: {}", SENDER),
            format!("To: {}", CONTRACT),
            "Nonce: 4".to_string(),
            "Gas Limit: 21000".to_string(),
            "Estimated Cost: 1.500063 ETH".to_string(),
        ]
    );
    let mut d = descriptor();
    d.mode = TransactionMode::Deploy;
    d.function_name = None;
    d.transaction.to = None;
    assert_eq!(
        display_transaction_summary(&d),
        vec![
            "Transaction Review".to_string(),
            "Network: sepolia (chain ID: 11155111)".to_string(),
            "Mode: Deploy".to_string(),
            format!("From: {}", SENDER),
            "Nonce: 4".to_string(),
            "Gas Limit: 21000".to_string(),
            "Estimated Cost: 1.500063 ETH".to_string(),
        ]
    );
}
