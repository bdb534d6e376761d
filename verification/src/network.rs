//! What the composer and the broadcaster decide about the network: which
//! endpoint to use, how to price gas, how to read a receipt.

use crate::error::Error;
use crate::hex::{hash_text, hex_text};
use crate::types::{address_of, Address, TxHash, TxReceipt};
use crate::uint::{
    decimal_digit, decimal_text, limb_base, u256_modulus, uint_checked_add, uint_div_rem, U256,
};
use vstd::prelude::*;
use vstd::string::StringExecFns;

verus! {

/// Whether two strings hold the same text.
pub fn str_eq(a: &str, b: &str) -> (r: bool)
    ensures
        r == (a@ == b@),
{
    let x = String::from_str(a);
    let y = String::from_str(b);
    x == y
}

/// The Infura subdomain of a network that Infura serves, by either of its
/// names.
pub open spec fn infura_subdomain(network: Seq<char>) -> Option<Seq<char>> {
    if network == "mainnet"@ || network == "ethereum"@ {
        Some("mainnet"@)
    } else if network == "sepolia"@ {
        Some("sepolia"@)
    } else if network == "holesky"@ {
        Some("holesky"@)
    } else if network == "polygon"@ || network == "polygon-mainnet"@ {
        Some("polygon-mainnet"@)
    } else if network == "polygon-amoy"@ {
        Some("polygon-amoy"@)
    } else if network == "arbitrum"@ || network == "arbitrum-mainnet"@ {
        Some("arbitrum-mainnet"@)
    } else if network == "arbitrum-sepolia"@ {
        Some("arbitrum-sepolia"@)
    } else if network == "optimism"@ || network == "optimism-mainnet"@ {
        Some("optimism-mainnet"@)
    } else if network == "optimism-sepolia"@ {
        Some("optimism-sepolia"@)
    } else if network == "base"@ || network == "base-mainnet"@ {
        Some("base-mainnet"@)
    } else if network == "base-sepolia"@ {
        Some("base-sepolia"@)
    } else if network == "linea"@ || network == "linea-mainnet"@ {
        Some("linea-mainnet"@)
    } else if network == "linea-sepolia"@ {
        Some("linea-sepolia"@)
    } else {
        None
    }
}

/// Whether the name stands for a node on this machine.
pub open spec fn is_local_network(network: Seq<char>) -> bool {
    network == "localhost"@ || network == "anvil"@ || network == "hardhat"@
}

/// The endpoint of a network: Infura's, where Infura serves it and a key is
/// there; the local node's for a local name; none otherwise.
pub open spec fn rpc_url_of(network: Seq<char>, infura_key: Option<Seq<char>>) -> Option<Seq<char>> {
    match infura_subdomain(network) {
        Some(sub) => match infura_key {
            Some(key) => Some("https://"@ + sub + ".infura.io/v3/"@ + key),
            None => None,
        },
        None => if is_local_network(network) {
            Some("http://localhost:8545"@)
        } else {
            None
        },
    }
}

/// The Infura subdomain of a network, if Infura serves it.
fn subdomain(network: &str) -> (r: Option<&'static str>)
    ensures
        match r {
            Some(s) => infura_subdomain(network@) == Some(s@),
            None => infura_subdomain(network@) is None,
        },
{
    if str_eq(network, "mainnet") || str_eq(network, "ethereum") {
        Some("mainnet")
    } else if str_eq(network, "sepolia") {
        Some("sepolia")
    } else if str_eq(network, "holesky") {
        Some("holesky")
    } else if str_eq(network, "polygon") || str_eq(network, "polygon-mainnet") {
        Some("polygon-mainnet")
    } else if str_eq(network, "polygon-amoy") {
        Some("polygon-amoy")
    } else if str_eq(network, "arbitrum") || str_eq(network, "arbitrum-mainnet") {
        Some("arbitrum-mainnet")
    } else if str_eq(network, "arbitrum-sepolia") {
        Some("arbitrum-sepolia")
    } else if str_eq(network, "optimism") || str_eq(network, "optimism-mainnet") {
        Some("optimism-mainnet")
    } else if str_eq(network, "optimism-sepolia") {
        Some("optimism-sepolia")
    } else if str_eq(network, "base") || str_eq(network, "base-mainnet") {
        Some("base-mainnet")
    } else if str_eq(network, "base-sepolia") {
        Some("base-sepolia")
    } else if str_eq(network, "linea") || str_eq(network, "linea-mainnet") {
        Some("linea-mainnet")
    } else if str_eq(network, "linea-sepolia") {
        Some("linea-sepolia")
    } else {
        None
    }
}

/// The text of an optional string slice.
pub open spec fn slice_text(o: Option<&str>) -> Option<Seq<char>> {
    match o {
        Some(s) => Some(s@),
        None => None,
    }
}

/// The endpoint of a network by its name.
pub fn get_rpc_url(network: &str, infura_key: Option<&str>) -> (r: Option<String>)
    ensures
        crate::types::text_of(r) == rpc_url_of(network@, slice_text(infura_key)),
{
    match subdomain(network) {
        Some(sub) => match infura_key {
            Some(key) => Some(
                String::from_str("https://").concat(sub).concat(".infura.io/v3/").concat(key),
            ),
            None => None,
        },
        None => {
            if str_eq(network, "localhost") || str_eq(network, "anvil") || str_eq(network, "hardhat") {
                Some(String::from_str("http://localhost:8545"))
            } else {
                None
            }
        },
    }
}

/// The base fee taken where the fee history names none: one gwei.
pub const DEFAULT_BASE_FEE: u128 = 1_000_000_000;

/// The tip offered on a fee-market transaction: one and a half gwei.
pub const PRIORITY_FEE: u128 = 1_500_000_000;

/// The polls for a receipt that one broadcast makes at most.
pub const MAX_ATTEMPTS: u32 = 60;

/// The seconds between two polls.
pub const POLL_INTERVAL_SECS: u64 = 5;

/// How a transaction pays for gas: by the fee market, or by one price. Never
/// both.
#[derive(Clone, Copy, Debug, PartialEq, Eq, Structural)]
pub enum GasPrices {
    FeeMarket { max_fee_per_gas: U256, max_priority_fee_per_gas: U256 },
    Legacy { gas_price: U256 },
}

/// What the node said when asked for its recent fees.
#[derive(Clone, Copy, Debug, PartialEq, Eq, Structural)]
pub enum FeeHistory {
    /// The query failed: the network knows no fee market.
    Unavailable,
    /// The query was answered, with the base fee of the latest block if it
    /// names one.
    Available { latest_base_fee: Option<u128> },
}

/// What pricing decides after the fee history.
#[derive(Clone, Copy, Debug, PartialEq, Eq, Structural)]
pub enum GasQuote {
    /// The prices are settled.
    Priced(GasPrices),
    /// The single gas price has to be asked for.
    AskGasPrice,
}

/// The fee cap for a base fee: twice the base fee plus the tip, so that the
/// base fee may double before the transaction stalls.
pub open spec fn max_fee_for(latest_base_fee: Option<u128>) -> nat {
    let base: nat = match latest_base_fee {
        Some(b) => b as nat,
        None => DEFAULT_BASE_FEE as nat,
    };
    2 * base + PRIORITY_FEE as nat
}

/// 2^256 is above every sum of three 128-bit numbers.
proof fn lemma_modulus_large()
    ensures
        u256_modulus() > 4 * 0x1_0000_0000_0000_0000_0000_0000_0000_0000,
{
    let b = limb_base() as int;
    assert(b * b == 0x1_0000_0000_0000_0000_0000_0000_0000_0000) by (nonlinear_arith)
        requires
            b == 0x1_0000_0000_0000_0000,
    ;
    assert(b * b * b * b >= 5 * (b * b)) by (nonlinear_arith)
        requires
            b >= 5,
    ;
}

/// Prices gas from the fee history: by the fee market where the history is
/// there, else by asking for the single gas price. A missing history is no
/// error.
pub fn get_gas_prices(history: FeeHistory) -> (r: GasQuote)
    ensures
        match history {
            FeeHistory::Unavailable => r == GasQuote::AskGasPrice,
            FeeHistory::Available { latest_base_fee } => {
                &&& r matches GasQuote::Priced(
                    GasPrices::FeeMarket { max_fee_per_gas, max_priority_fee_per_gas },
                )
                &&& max_fee_per_gas@ == max_fee_for(latest_base_fee)
                &&& max_priority_fee_per_gas@ == PRIORITY_FEE
            },
        },
{
    match history {
        FeeHistory::Unavailable => GasQuote::AskGasPrice,
        FeeHistory::Available { latest_base_fee } => {
            let base = U256::from_u128(
                match latest_base_fee {
                    Some(b) => b,
                    None => DEFAULT_BASE_FEE,
                },
            );
            let tip = U256::from_u128(PRIORITY_FEE);
            proof {
                lemma_modulus_large();
            }
            let doubled = uint_checked_add(base, base).unwrap();
            let max_fee = uint_checked_add(doubled, tip).unwrap();
            GasQuote::Priced(
                GasPrices::FeeMarket { max_fee_per_gas: max_fee, max_priority_fee_per_gas: tip },
            )
        },
    }
}

/// The pricing of a network without a fee market, from its gas price.
pub fn legacy_gas_prices(gas_price: u128) -> (r: GasPrices)
    ensures
        r matches GasPrices::Legacy { gas_price: p } && p@ == gas_price,
{
    GasPrices::Legacy { gas_price: U256::from_u128(gas_price) }
}

/// The gas limit for an estimate: the estimate and a fifth more, rounded up.
pub open spec fn buffered_gas(estimate: u64) -> nat {
    ((estimate as nat * 120 + 99) / 100) as nat
}

/// The gas limit to offer for what the node estimated.
pub fn estimate_gas(estimate: u64) -> (r: U256)
    ensures
        r@ == buffered_gas(estimate),
{
    let wide: u128 = estimate as u128;
    U256::from_u128((wide * 120 + 99) / 100)
}

/// Six decimal digits, with leading zeros.
pub open spec fn six_digits(n: nat) -> Seq<char> {
    seq![
        decimal_digit(n / 100000 % 10),
        decimal_digit(n / 10000 % 10),
        decimal_digit(n / 1000 % 10),
        decimal_digit(n / 100 % 10),
        decimal_digit(n / 10 % 10),
        decimal_digit(n % 10),
    ]
}

/// An amount of wei in the native unit, with six digits after the point,
/// rounded to the nearest (a half rounds up).
pub open spec fn eth_text(wei: nat) -> Seq<char> {
    let micro = (wei + 500_000_000_000) / 1_000_000_000_000;
    decimal_text(micro / 1_000_000) + seq!['.'] + six_digits(micro % 1_000_000)
}

/// One decimal digit as text.
fn digit_str(d: u64) -> (r: &'static str)
    requires
        d < 10,
    ensures
        r@ == seq![decimal_digit(d as nat)],
{
    proof {
        reveal_strlit("0");
        reveal_strlit("1");
        reveal_strlit("2");
        reveal_strlit("3");
        reveal_strlit("4");
        reveal_strlit("5");
        reveal_strlit("6");
        reveal_strlit("7");
        reveal_strlit("8");
        reveal_strlit("9");
    }
    let r = if d == 0 {
        "0"
    } else if d == 1 {
        "1"
    } else if d == 2 {
        "2"
    } else if d == 3 {
        "3"
    } else if d == 4 {
        "4"
    } else if d == 5 {
        "5"
    } else if d == 6 {
        "6"
    } else if d == 7 {
        "7"
    } else if d == 8 {
        "8"
    } else {
        "9"
    };
    assert(r@ =~= seq![decimal_digit(d as nat)]);
    r
}

/// An amount of wei as text in the native unit.
pub fn format_eth(wei: U256) -> (r: String)
    ensures
        r@ == eth_text(wei@),
{
    let (q, m) = uint_div_rem(wei, U256::from_u64(1_000_000_000_000));
    let rest: u64 = m.as_u64().unwrap();
    proof {
        lemma_modulus_large();
        crate::uint::lemma_u256_bounded(wei);
    }
    let micro = if rest >= 500_000_000_000 {
        uint_checked_add(q, U256::from_u64(1)).unwrap()
    } else {
        q
    };
    assert(micro@ == (wei@ + 500_000_000_000) / 1_000_000_000_000);
    let (whole, part) = uint_div_rem(micro, U256::from_u64(1_000_000));
    let f: u64 = part.as_u64().unwrap();
    let mut out = whole.to_decimal_string();
    proof {
        reveal_strlit(".");
    }
    out.append(".");
    out.append(digit_str(f / 100000 % 10));
    out.append(digit_str(f / 10000 % 10));
    out.append(digit_str(f / 1000 % 10));
    out.append(digit_str(f / 100 % 10));
    out.append(digit_str(f / 10 % 10));
    out.append(digit_str(f % 10));
    assert(out@ =~= eth_text(wei@));
    out
}

/// A receipt as the node reports it. Block number and block hash are missing
/// while the transaction is not yet in a block for good.
#[derive(Clone, Copy, Debug, PartialEq, Eq)]
pub struct NodeReceipt {
    pub transaction_hash: TxHash,
    pub block_number: Option<u64>,
    pub block_hash: Option<TxHash>,
    pub from: Address,
    pub to: Option<Address>,
    pub gas_used: u64,
    pub status: bool,
    pub contract_address: Option<Address>,
}

impl NodeReceipt {
    /// Whether the receipt names its block: only then is it final.
    pub open spec fn is_final(self) -> bool {
        self.block_number is Some && self.block_hash is Some
    }
}

/// The receipt that the library hands out for a final receipt of the node.
pub open spec fn final_receipt(receipt: NodeReceipt) -> crate::types::TxReceiptView {
    crate::types::TxReceiptView {
        transaction_hash: receipt.transaction_hash@,
        block_number: receipt.block_number->0,
        block_hash: "0x"@ + hex_text(receipt.block_hash->0@),
        from: receipt.from@,
        to: address_of(receipt.to),
        gas_used: decimal_text(receipt.gas_used as nat),
        status: if receipt.status {
            1
        } else {
            0
        },
        contract_address: address_of(receipt.contract_address),
        metadata: Seq::empty(),
    }
}

/// Reads the node's receipt. A receipt without block number or block hash is
/// not yet final and gives `None`; none is handed out half filled.
pub fn receipt_to_tx_receipt(receipt: &NodeReceipt) -> (r: Option<TxReceipt>)
    ensures
        match r {
            Some(t) => receipt.is_final() && t@ == final_receipt(*receipt),
            None => !receipt.is_final(),
        },
{
    let block_number = match receipt.block_number {
        Some(n) => n,
        None => {
            return None;
        },
    };
    let block_hash = match &receipt.block_hash {
        Some(h) => hash_text(h),
        None => {
            return None;
        },
    };
    let t = TxReceipt {
        transaction_hash: receipt.transaction_hash,
        block_number,
        block_hash,
        from: receipt.from,
        to: receipt.to,
        gas_used: U256::from_u64(receipt.gas_used).to_decimal_string(),
        status: if receipt.status {
            1
        } else {
            0
        },
        contract_address: receipt.contract_address,
        metadata: Vec::new(),
    };
    assert(t@.metadata =~= Seq::empty());
    Some(t)
}

/// Where the wait for a receipt stands after one poll.
#[derive(Clone, Debug, PartialEq, Eq)]
pub enum ReceiptWait {
    /// The receipt is final.
    Confirmed(TxReceipt),
    /// Not yet: sleep for the polling interval, then poll again. `attempts`
    /// counts the polls made.
    Pending { attempts: u32 },
    /// The polling budget is spent.
    TimedOut,
}

/// [`ReceiptWait`] as a mathematical value.
pub enum ReceiptWaitView {
    Confirmed(crate::types::TxReceiptView),
    Pending { attempts: u32 },
    TimedOut,
}

impl View for ReceiptWait {
    type V = ReceiptWaitView;

    open spec fn view(&self) -> ReceiptWaitView {
        match self {
            ReceiptWait::Confirmed(t) => ReceiptWaitView::Confirmed(t@),
            ReceiptWait::Pending { attempts } => ReceiptWaitView::Pending { attempts: *attempts },
            ReceiptWait::TimedOut => ReceiptWaitView::TimedOut,
        }
    }
}

/// What one poll leads to, after `attempts` polls without a final receipt:
/// a final receipt confirms; anything else is one more attempt, which either
/// spends the budget or leads to the next poll.
pub open spec fn receipt_wait(attempts: u32, answer: Option<NodeReceipt>) -> ReceiptWaitView {
    if answer is Some && answer->0.is_final() {
        ReceiptWaitView::Confirmed(final_receipt(answer->0))
    } else if attempts + 1 >= MAX_ATTEMPTS {
        ReceiptWaitView::TimedOut
    } else {
        ReceiptWaitView::Pending { attempts: (attempts + 1) as u32 }
    }
}

/// Takes the answer to one poll for the receipt, `attempts` polls having gone
/// without a final one. A missing or unfinished receipt is no error: it is
/// waited out until the budget of `MAX_ATTEMPTS` polls is spent.
pub fn wait_for_receipt(attempts: u32, answer: Option<&NodeReceipt>) -> (r: ReceiptWait)
    ensures
        r@ == receipt_wait(
            attempts,
            match answer {
                Some(n) => Some(*n),
                None => None,
            },
        ),
{
    if let Some(node) = answer {
        if let Some(t) = receipt_to_tx_receipt(node) {
            return ReceiptWait::Confirmed(t);
        }
    }
    if attempts >= MAX_ATTEMPTS - 1 {
        ReceiptWait::TimedOut
    } else {
        ReceiptWait::Pending { attempts: attempts + 1 }
    }
}

/// The endpoint to use. In order of precedence: the one given on the command
/// line, the one the environment configures, the one the transaction carries,
/// the one that belongs to the network's name (`sepolia` where none is
/// given).
pub open spec fn resolved_rpc_url(
    given: Option<Seq<char>>,
    configured: Option<Seq<char>>,
    embedded: Option<Seq<char>>,
    network: Option<Seq<char>>,
    infura_key: Option<Seq<char>>,
) -> Result<Seq<char>, Error> {
    if given is Some {
        Ok(given->0)
    } else if configured is Some {
        Ok(configured->0)
    } else if embedded is Some {
        Ok(embedded->0)
    } else {
        let name = match network {
            Some(n) => n,
            None => "sepolia"@,
        };
        match rpc_url_of(name, infura_key) {
            Some(url) => Ok(url),
            None => Err(Error::MissingRpcUrl),
        }
    }
}

/// Picks the endpoint to connect to, or reports that none is configured. This
/// is settled before any work on the network.
pub fn resolve_rpc_url(
    given: Option<&str>,
    configured: Option<&str>,
    embedded: Option<&str>,
    network: Option<&str>,
    infura_key: Option<&str>,
) -> (r: Result<String, Error>)
    ensures
        match r {
            Ok(url) => resolved_rpc_url(
                slice_text(given),
                slice_text(configured),
                slice_text(embedded),
                slice_text(network),
                slice_text(infura_key),
            ) == Ok::<Seq<char>, Error>(url@),
            Err(e) => resolved_rpc_url(
                slice_text(given),
                slice_text(configured),
                slice_text(embedded),
                slice_text(network),
                slice_text(infura_key),
            ) == Err::<Seq<char>, Error>(e),
        },
{
    if let Some(url) = given {
        return Ok(String::from_str(url));
    }
    if let Some(url) = configured {
        return Ok(String::from_str(url));
    }
    if let Some(url) = embedded {
        return Ok(String::from_str(url));
    }
    let name = match network {
        Some(n) => n,
        None => "sepolia",
    };
    match get_rpc_url(name, infura_key) {
        Some(url) => Ok(url),
        None => Err(Error::MissingRpcUrl),
    }
}

} // verus!
