//! The composing phase: from an operation and what the network was seen to
//! say, to an unsigned descriptor.
//!
//! [`execute`] settles everything that needs no network: the endpoint, the
//! signer, the contract, the call data. The caller then asks the network for
//! chain id, nonce and gas figures, and [`compose`] builds the descriptor.

use crate::contract::{
    accept_fee_collector_signature, address_word, bytecode_of, claim_signature, deposit_call,
    deposit_value, encode_accept_fee_collector, encode_claim, encode_deposit,
    encode_extend_deadline, encode_reclaim, encode_transfer_fee_collector,
    extend_deadline_signature, function_selector, load_bytecode, reclaim_signature,
    transfer_fee_collector_signature, uint_word,
};
use crate::error::Error;
use crate::network::{eth_text, format_eth, resolve_rpc_url, resolved_rpc_url, slice_text, GasPrices};
use crate::types::{
    address_of, amount_of, args_of, text_of, Address, CallArgs, CallArgsView, Config, Metadata,
    MetadataView, NetworkInfo, NetworkInfoView, TransactionData, TransactionDataView,
    TransactionMode, TxParams, TxParamsView,
};
use crate::uint::{u256_modulus, uint_checked_add, uint_checked_mul, U256};
use vstd::prelude::*;
use vstd::string::StringExecFns;

verus! {

/// What the user asks for.
#[derive(Clone, Debug, PartialEq, Eq)]
pub enum Operation {
    /// Deploy a new contract.
    Deploy,
    /// Deposit funds into an inheritance.
    Deposit {
        beneficiary: Address,
        /// The amount in the native unit, as decimal text.
        amount: String,
        /// Unix time in seconds.
        deadline: u64,
        /// The token to deposit; absent for the native currency.
        token: Option<Address>,
        contract: Option<Address>,
    },
    /// Claim an inheritance, as its beneficiary.
    Claim { id: U256, contract: Option<Address> },
    /// Take an inheritance back, as its owner, before the deadline.
    Reclaim { id: U256, contract: Option<Address> },
    /// Move the deadline of an inheritance.
    ExtendDeadline { id: U256, new_deadline: u64, contract: Option<Address> },
    /// Hand the fee collector's role over (first of two steps).
    TransferFeeCollector { new_collector: Address, contract: Option<Address> },
    /// Accept the fee collector's role (second of two steps).
    AcceptFeeCollector { contract: Option<Address> },
}

/// [`Operation`] as a mathematical value.
pub enum OperationView {
    Deploy,
    Deposit {
        beneficiary: Seq<u8>,
        amount: Seq<char>,
        deadline: u64,
        token: Option<Seq<u8>>,
        contract: Option<Seq<u8>>,
    },
    Claim { id: nat, contract: Option<Seq<u8>> },
    Reclaim { id: nat, contract: Option<Seq<u8>> },
    ExtendDeadline { id: nat, new_deadline: u64, contract: Option<Seq<u8>> },
    TransferFeeCollector { new_collector: Seq<u8>, contract: Option<Seq<u8>> },
    AcceptFeeCollector { contract: Option<Seq<u8>> },
}

impl View for Operation {
    type V = OperationView;

    open spec fn view(&self) -> OperationView {
        match self {
            Operation::Deploy => OperationView::Deploy,
            Operation::Deposit { beneficiary, amount, deadline, token, contract } => OperationView::Deposit {
                beneficiary: beneficiary@,
                amount: amount@,
                deadline: *deadline,
                token: address_of(*token),
                contract: address_of(*contract),
            },
            Operation::Claim { id, contract } => OperationView::Claim {
                id: id@,
                contract: address_of(*contract),
            },
            Operation::Reclaim { id, contract } => OperationView::Reclaim {
                id: id@,
                contract: address_of(*contract),
            },
            Operation::ExtendDeadline { id, new_deadline, contract } => OperationView::ExtendDeadline {
                id: id@,
                new_deadline: *new_deadline,
                contract: address_of(*contract),
            },
            Operation::TransferFeeCollector { new_collector, contract } => OperationView::TransferFeeCollector {
                new_collector: new_collector@,
                contract: address_of(*contract),
            },
            Operation::AcceptFeeCollector { contract } => OperationView::AcceptFeeCollector {
                contract: address_of(*contract),
            },
        }
    }
}

/// What is to be sent, before any gas figure is known.
#[derive(Clone, Debug, PartialEq, Eq)]
pub struct CallRequest {
    pub mode: TransactionMode,
    pub function_name: Option<String>,
    pub params: Option<CallArgs>,
    /// Absent for a deployment.
    pub to: Option<Address>,
    pub data: Vec<u8>,
    pub value: Option<U256>,
}

/// [`CallRequest`] as a mathematical value.
pub struct CallRequestView {
    pub mode: TransactionMode,
    pub function_name: Option<Seq<char>>,
    pub params: Option<CallArgsView>,
    pub to: Option<Seq<u8>>,
    pub data: Seq<u8>,
    pub value: Option<nat>,
}

impl View for CallRequest {
    type V = CallRequestView;

    open spec fn view(&self) -> CallRequestView {
        CallRequestView {
            mode: self.mode,
            function_name: text_of(self.function_name),
            params: args_of(self.params),
            to: address_of(self.to),
            data: self.data@,
            value: amount_of(self.value),
        }
    }
}

/// The amount in wei that a decimal amount of the native unit stands for
/// (times 10^18; digits beyond the eighteenth after the point are dropped).
pub uninterp spec fn parsed_ether(amount: Seq<char>) -> Option<nat>;

/// `parse_ether` of alloy. It cuts the text by bytes, which only ASCII text
/// is sure to survive; the precondition leaves other text out.
#[verifier::external_body]
pub(crate) fn parse_ether(amount: &str) -> (r: Option<U256>)
    requires
        amount.is_ascii(),
    ensures
        amount_of(r) == parsed_ether(amount@),
{
    let parsed = alloy::primitives::utils::parse_ether(amount).ok();
    parsed.map(|v| v.into_limbs()).map(|l| U256 { l0: l[0], l1: l[1], l2: l[2], l3: l[3] })
}

/// The wei of an amount given as text: ASCII, without a minus sign, a decimal
/// number to alloy's reading.
pub open spec fn amount_in_wei(amount: Seq<char>) -> Result<nat, Error> {
    if !vstd::utf8::is_ascii_chars(amount) {
        Err(Error::InvalidAmount)
    } else if amount.len() > 0 && amount[0] == '-' {
        Err(Error::NonPositiveAmount)
    } else {
        match parsed_ether(amount) {
            Some(wei) => Ok(wei),
            None => Err(Error::InvalidAmount),
        }
    }
}

/// Reads an amount of the native unit.
pub fn parse_amount(amount: &str) -> (r: Result<U256, Error>)
    ensures
        match r {
            Ok(wei) => amount_in_wei(amount@) == Ok::<nat, Error>(wei@),
            Err(e) => amount_in_wei(amount@) == Err::<nat, Error>(e),
        },
{
    if !amount.is_ascii() {
        return Err(Error::InvalidAmount);
    }
    if amount.unicode_len() > 0 && amount.get_char(0) == '-' {
        return Err(Error::NonPositiveAmount);
    }
    match parse_ether(amount) {
        Some(wei) => Ok(wei),
        None => Err(Error::InvalidAmount),
    }
}

/// The request that deploys the contract: its bytecode as call data, sent to
/// no address.
pub open spec fn deploy_request(bytecode_object: Option<Seq<char>>) -> Result<CallRequestView, Error> {
    match bytecode_of(bytecode_object) {
        Err(e) => Err(e),
        Ok(bytecode) => Ok(
            CallRequestView {
                mode: TransactionMode::Deploy,
                function_name: None,
                params: None,
                to: None,
                data: bytecode,
                value: None,
            },
        ),
    }
}

/// Prepares the deployment: the call data is the bytecode that the compiled
/// contract's artifact holds as hex text.
pub fn prepare_deploy(bytecode_object: Option<&str>) -> (r: Result<CallRequest, Error>)
    ensures
        match r {
            Ok(request) => deploy_request(slice_text(bytecode_object)) == Ok::<CallRequestView, Error>(
                request@,
            ),
            Err(e) => deploy_request(slice_text(bytecode_object)) == Err::<CallRequestView, Error>(e),
        },
{
    match load_bytecode(bytecode_object) {
        Err(e) => Err(e),
        Ok(data) => Ok(
            CallRequest {
                mode: TransactionMode::Deploy,
                function_name: None,
                params: None,
                to: None,
                data,
                value: None,
            },
        ),
    }
}

/// A call of the contract.
pub open spec fn call_request(
    contract: Seq<u8>,
    function_name: Seq<char>,
    params: Option<CallArgsView>,
    data: Seq<u8>,
    value: Option<nat>,
) -> CallRequestView {
    CallRequestView {
        mode: TransactionMode::Call,
        function_name: Some(function_name),
        params,
        to: Some(contract),
        data,
        value,
    }
}

/// The request that deposits: the amount has to be a positive decimal number
/// and the deadline has to lie after `now`. A deposit of the native currency
/// sends the amount along.
pub open spec fn deposit_request(
    contract: Seq<u8>,
    beneficiary: Seq<u8>,
    amount: Seq<char>,
    deadline: u64,
    token: Option<Seq<u8>>,
    now: i64,
) -> Result<CallRequestView, Error> {
    match amount_in_wei(amount) {
        Err(e) => Err(e),
        Ok(wei) => if wei == 0 {
            Err(Error::NonPositiveAmount)
        } else if deadline <= now {
            Err(Error::DeadlinePassed)
        } else {
            Ok(
                call_request(
                    contract,
                    "deposit"@,
                    Some(CallArgsView::Deposit { beneficiary, amount, deadline, token }),
                    deposit_call(beneficiary, wei, deadline, token),
                    deposit_value(wei, token),
                ),
            )
        },
    }
}

/// Prepares a deposit.
pub fn prepare_deposit(
    contract: Address,
    beneficiary: Address,
    amount: &str,
    deadline: u64,
    token: Option<Address>,
    now: i64,
) -> (r: Result<CallRequest, Error>)
    ensures
        match r {
            Ok(request) => deposit_request(
                contract@,
                beneficiary@,
                amount@,
                deadline,
                address_of(token),
                now,
            ) == Ok::<CallRequestView, Error>(request@),
            Err(e) => deposit_request(contract@, beneficiary@, amount@, deadline, address_of(token), now)
                == Err::<CallRequestView, Error>(e),
        },
{
    let wei = match parse_amount(amount) {
        Ok(w) => w,
        Err(e) => {
            return Err(e);
        },
    };
    match encode_deposit(beneficiary, wei, deadline, token, now) {
        Err(e) => Err(e),
        Ok((data, value)) => Ok(
            CallRequest {
                mode: TransactionMode::Call,
                function_name: Some(String::from_str("deposit")),
                params: Some(
                    CallArgs::Deposit { beneficiary, amount: String::from_str(amount), deadline, token },
                ),
                to: Some(contract),
                data,
                value,
            },
        ),
    }
}

/// Prepares the claim of the inheritance `id`.
pub fn prepare_claim(contract: Address, id: U256) -> (r: Result<CallRequest, Error>)
    ensures
        r matches Ok(request) && request@ == call_request(
            contract@,
            "claim"@,
            Some(CallArgsView::Claim { id: id@ }),
            function_selector(claim_signature()) + uint_word(id@),
            None,
        ),
{
    match encode_claim(id) {
        Err(e) => Err(e),
        Ok(data) => Ok(
            CallRequest {
                mode: TransactionMode::Call,
                function_name: Some(String::from_str("claim")),
                params: Some(CallArgs::Claim { id }),
                to: Some(contract),
                data,
                value: None,
            },
        ),
    }
}

/// Prepares the reclaim of the inheritance `id`.
pub fn prepare_reclaim(contract: Address, id: U256) -> (r: Result<CallRequest, Error>)
    ensures
        r matches Ok(request) && request@ == call_request(
            contract@,
            "reclaim"@,
            Some(CallArgsView::Reclaim { id: id@ }),
            function_selector(reclaim_signature()) + uint_word(id@),
            None,
        ),
{
    match encode_reclaim(id) {
        Err(e) => Err(e),
        Ok(data) => Ok(
            CallRequest {
                mode: TransactionMode::Call,
                function_name: Some(String::from_str("reclaim")),
                params: Some(CallArgs::Reclaim { id }),
                to: Some(contract),
                data,
                value: None,
            },
        ),
    }
}

/// The request that moves a deadline: the new one has to lie after `now`.
pub open spec fn extend_deadline_request(contract: Seq<u8>, id: nat, new_deadline: u64, now: i64) -> Result<
    CallRequestView,
    Error,
> {
    if new_deadline <= now {
        Err(Error::DeadlinePassed)
    } else {
        Ok(
            call_request(
                contract,
                "extendDeadline"@,
                Some(CallArgsView::ExtendDeadline { id, new_deadline }),
                function_selector(extend_deadline_signature()) + uint_word(id) + uint_word(
                    new_deadline as nat,
                ),
                None,
            ),
        )
    }
}

/// Prepares the extension of the deadline of the inheritance `id`.
pub fn prepare_extend_deadline(contract: Address, id: U256, new_deadline: u64, now: i64) -> (r: Result<
    CallRequest,
    Error,
>)
    ensures
        match r {
            Ok(request) => extend_deadline_request(contract@, id@, new_deadline, now) == Ok::<
                CallRequestView,
                Error,
            >(request@),
            Err(e) => extend_deadline_request(contract@, id@, new_deadline, now) == Err::<
                CallRequestView,
                Error,
            >(e),
        },
{
    match encode_extend_deadline(id, new_deadline, now) {
        Err(e) => Err(e),
        Ok(data) => Ok(
            CallRequest {
                mode: TransactionMode::Call,
                function_name: Some(String::from_str("extendDeadline")),
                params: Some(CallArgs::ExtendDeadline { id, new_deadline }),
                to: Some(contract),
                data,
                value: None,
            },
        ),
    }
}

/// Prepares the hand-over of the fee collector's role.
pub fn prepare_transfer_fee_collector(contract: Address, new_collector: Address) -> (r: Result<
    CallRequest,
    Error,
>)
    ensures
        r matches Ok(request) && request@ == call_request(
            contract@,
            "transferFeeCollector"@,
            Some(CallArgsView::TransferFeeCollector { new_collector: new_collector@ }),
            function_selector(transfer_fee_collector_signature()) + address_word(new_collector@),
            None,
        ),
{
    match encode_transfer_fee_collector(new_collector) {
        Err(e) => Err(e),
        Ok(data) => Ok(
            CallRequest {
                mode: TransactionMode::Call,
                function_name: Some(String::from_str("transferFeeCollector")),
                params: Some(CallArgs::TransferFeeCollector { new_collector }),
                to: Some(contract),
                data,
                value: None,
            },
        ),
    }
}

/// Prepares the acceptance of the fee collector's role.
pub fn prepare_accept_fee_collector(contract: Address) -> (r: Result<CallRequest, Error>)
    ensures
        r matches Ok(request) && request@ == call_request(
            contract@,
            "acceptFeeCollector"@,
            None,
            function_selector(accept_fee_collector_signature()),
            None,
        ),
{
    match encode_accept_fee_collector() {
        Err(e) => Err(e),
        Ok(data) => Ok(
            CallRequest {
                mode: TransactionMode::Call,
                function_name: Some(String::from_str("acceptFeeCollector")),
                params: None,
                to: Some(contract),
                data,
                value: None,
            },
        ),
    }
}

/// What `execute` settles: where to connect, who sends, and what is sent.
#[derive(Clone, Debug, PartialEq, Eq)]
pub struct Prepared {
    pub rpc_url: String,
    /// The network's name; `custom` where none was given.
    pub network_name: String,
    pub from: Address,
    pub request: CallRequest,
}

/// [`Prepared`] as a mathematical value.
pub struct PreparedView {
    pub rpc_url: Seq<char>,
    pub network_name: Seq<char>,
    pub from: Seq<u8>,
    pub request: CallRequestView,
}

impl View for Prepared {
    type V = PreparedView;

    open spec fn view(&self) -> PreparedView {
        PreparedView {
            rpc_url: self.rpc_url@,
            network_name: self.network_name@,
            from: self.from@,
            request: self.request@,
        }
    }
}

/// The contract that an operation addresses: the one given with it, else the
/// configured one.
pub open spec fn contract_for(given: Option<Seq<u8>>, config: crate::types::ConfigView) -> Result<
    Seq<u8>,
    Error,
> {
    match given {
        Some(c) => Ok(c),
        None => match config.contract_address {
            Some(c) => Ok(c),
            None => Err(Error::MissingContractAddress),
        },
    }
}

/// Picks the contract to address.
fn resolve_contract(given: &Option<Address>, config: &Config) -> (r: Result<Address, Error>)
    ensures
        match r {
            Ok(c) => contract_for(address_of(*given), config@) == Ok::<Seq<u8>, Error>(c@),
            Err(e) => contract_for(address_of(*given), config@) == Err::<Seq<u8>, Error>(e),
        },
{
    match given {
        Some(c) => Ok(*c),
        None => match config.contract_address {
            Some(c) => Ok(c),
            None => Err(Error::MissingContractAddress),
        },
    }
}

/// The request for an operation. Every operation but the deployment needs a
/// contract to address.
pub open spec fn requested(
    operation: OperationView,
    config: crate::types::ConfigView,
    bytecode_object: Option<Seq<char>>,
    now: i64,
) -> Result<CallRequestView, Error> {
    match operation {
        OperationView::Deploy => deploy_request(bytecode_object),
        OperationView::Deposit { beneficiary, amount, deadline, token, contract } => match contract_for(
            contract,
            config,
        ) {
            Err(e) => Err(e),
            Ok(c) => deposit_request(c, beneficiary, amount, deadline, token, now),
        },
        OperationView::Claim { id, contract } => match contract_for(contract, config) {
            Err(e) => Err(e),
            Ok(c) => Ok(
                call_request(
                    c,
                    "claim"@,
                    Some(CallArgsView::Claim { id }),
                    function_selector(claim_signature()) + uint_word(id),
                    None,
                ),
            ),
        },
        OperationView::Reclaim { id, contract } => match contract_for(contract, config) {
            Err(e) => Err(e),
            Ok(c) => Ok(
                call_request(
                    c,
                    "reclaim"@,
                    Some(CallArgsView::Reclaim { id }),
                    function_selector(reclaim_signature()) + uint_word(id),
                    None,
                ),
            ),
        },
        OperationView::ExtendDeadline { id, new_deadline, contract } => match contract_for(
            contract,
            config,
        ) {
            Err(e) => Err(e),
            Ok(c) => extend_deadline_request(c, id, new_deadline, now),
        },
        OperationView::TransferFeeCollector { new_collector, contract } => match contract_for(
            contract,
            config,
        ) {
            Err(e) => Err(e),
            Ok(c) => Ok(
                call_request(
                    c,
                    "transferFeeCollector"@,
                    Some(CallArgsView::TransferFeeCollector { new_collector }),
                    function_selector(transfer_fee_collector_signature()) + address_word(
                        new_collector,
                    ),
                    None,
                ),
            ),
        },
        OperationView::AcceptFeeCollector { contract } => match contract_for(contract, config) {
            Err(e) => Err(e),
            Ok(c) => Ok(
                call_request(
                    c,
                    "acceptFeeCollector"@,
                    None,
                    function_selector(accept_fee_collector_signature()),
                    None,
                ),
            ),
        },
    }
}

/// Builds the request for an operation.
pub fn request_for(operation: &Operation, config: &Config, bytecode_object: Option<&str>, now: i64) -> (r:
    Result<CallRequest, Error>)
    ensures
        match r {
            Ok(request) => requested(operation@, config@, slice_text(bytecode_object), now) == Ok::<
                CallRequestView,
                Error,
            >(request@),
            Err(e) => requested(operation@, config@, slice_text(bytecode_object), now) == Err::<
                CallRequestView,
                Error,
            >(e),
        },
{
    match operation {
        Operation::Deploy => prepare_deploy(bytecode_object),
        Operation::Deposit { beneficiary, amount, deadline, token, contract } => {
            match resolve_contract(contract, config) {
                Err(e) => Err(e),
                Ok(c) => prepare_deposit(c, *beneficiary, amount.as_str(), *deadline, *token, now),
            }
        },
        Operation::Claim { id, contract } => match resolve_contract(contract, config) {
            Err(e) => Err(e),
            Ok(c) => prepare_claim(c, *id),
        },
        Operation::Reclaim { id, contract } => match resolve_contract(contract, config) {
            Err(e) => Err(e),
            Ok(c) => prepare_reclaim(c, *id),
        },
        Operation::ExtendDeadline { id, new_deadline, contract } => {
            match resolve_contract(contract, config) {
                Err(e) => Err(e),
                Ok(c) => prepare_extend_deadline(c, *id, *new_deadline, now),
            }
        },
        Operation::TransferFeeCollector { new_collector, contract } => {
            match resolve_contract(contract, config) {
                Err(e) => Err(e),
                Ok(c) => prepare_transfer_fee_collector(c, *new_collector),
            }
        },
        Operation::AcceptFeeCollector { contract } => match resolve_contract(contract, config) {
            Err(e) => Err(e),
            Ok(c) => prepare_accept_fee_collector(c),
        },
    }
}

/// What the composing phase settles before any work on the network, in this
/// order: the endpoint, the signer's address, the request.
pub open spec fn prepared(
    operation: OperationView,
    network: Option<Seq<char>>,
    rpc_url: Option<Seq<char>>,
    config: crate::types::ConfigView,
    bytecode_object: Option<Seq<char>>,
    now: i64,
) -> Result<PreparedView, Error> {
    match resolved_rpc_url(rpc_url, config.rpc_url, None, network, config.infura_api_key) {
        Err(e) => Err(e),
        Ok(url) => match config.signer_address {
            None => Err(Error::MissingSignerAddress),
            Some(from) => match requested(operation, config, bytecode_object, now) {
                Err(e) => Err(e),
                Ok(request) => Ok(
                    PreparedView {
                        rpc_url: url,
                        network_name: match network {
                            Some(n) => n,
                            None => "custom"@,
                        },
                        from,
                        request,
                    },
                ),
            },
        },
    }
}

/// The text of an optional string, as a slice.
fn as_slice(o: &Option<String>) -> (r: Option<&str>)
    ensures
        slice_text(r) == text_of(*o),
{
    match o {
        Some(s) => Some(s.as_str()),
        None => None,
    }
}

/// Starts the composing phase: settles the endpoint, the signer and the
/// request for `operation`. `network` and `rpc_url` are what the command line
/// gave; `bytecode_object` is the hex text of the compiled contract, read
/// only for a deployment; `now` is the present time in seconds since the Unix
/// epoch.
pub fn execute(
    operation: &Operation,
    network: Option<&str>,
    rpc_url: Option<&str>,
    config: &Config,
    bytecode_object: Option<&str>,
    now: i64,
) -> (r: Result<Prepared, Error>)
    ensures
        match r {
            Ok(p) => prepared(
                operation@,
                slice_text(network),
                slice_text(rpc_url),
                config@,
                slice_text(bytecode_object),
                now,
            ) == Ok::<PreparedView, Error>(p@),
            Err(e) => prepared(
                operation@,
                slice_text(network),
                slice_text(rpc_url),
                config@,
                slice_text(bytecode_object),
                now,
            ) == Err::<PreparedView, Error>(e),
        },
{
    let url = match resolve_rpc_url(
        rpc_url,
        as_slice(&config.rpc_url),
        None,
        network,
        as_slice(&config.infura_api_key),
    ) {
        Ok(u) => u,
        Err(e) => {
            return Err(e);
        },
    };
    let from = match config.signer_address {
        Some(a) => a,
        None => {
            return Err(Error::MissingSignerAddress);
        },
    };
    let request = match request_for(operation, config, bytecode_object, now) {
        Ok(q) => q,
        Err(e) => {
            return Err(e);
        },
    };
    let network_name = match network {
        Some(n) => String::from_str(n),
        None => String::from_str("custom"),
    };
    Ok(Prepared { rpc_url: url, network_name, from, request })
}

/// What the network was seen to say. A figure is missing where the call for
/// it failed.
#[derive(Clone, Copy, Debug, PartialEq, Eq, Structural)]
pub struct Observed {
    pub chain_id: Option<u64>,
    /// The count of the sender's transactions so far.
    pub nonce: Option<u64>,
    /// The node's estimate of the gas that the request uses.
    pub gas_estimate: Option<u64>,
    pub prices: Option<GasPrices>,
}

/// The price of one unit of gas that a transaction may cost at most.
pub open spec fn price_per_gas(prices: GasPrices) -> nat {
    match prices {
        GasPrices::FeeMarket { max_fee_per_gas, .. } => max_fee_per_gas@,
        GasPrices::Legacy { gas_price } => gas_price@,
    }
}

/// What a transaction may cost at most: the gas limit at the price per unit,
/// and the value sent.
pub open spec fn estimated_cost(gas_limit: nat, prices: GasPrices, value: Option<nat>) -> nat {
    gas_limit * price_per_gas(prices) + match value {
        Some(v) => v,
        None => 0,
    }
}

/// The body of a descriptor: type 2 with the two fee-market fields, or type 0
/// with the gas price; never both.
pub open spec fn body_of(
    from: Seq<u8>,
    request: CallRequestView,
    chain_id: u64,
    nonce: u64,
    gas_limit: nat,
    prices: GasPrices,
) -> TransactionDataView {
    TransactionDataView {
        tx_type: match prices {
            GasPrices::FeeMarket { .. } => 2,
            GasPrices::Legacy { .. } => 0,
        },
        from,
        to: request.to,
        data: request.data,
        nonce,
        chain_id,
        gas_limit,
        max_fee_per_gas: match prices {
            GasPrices::FeeMarket { max_fee_per_gas, .. } => Some(max_fee_per_gas@),
            GasPrices::Legacy { .. } => None,
        },
        max_priority_fee_per_gas: match prices {
            GasPrices::FeeMarket { max_priority_fee_per_gas, .. } => Some(max_priority_fee_per_gas@),
            GasPrices::Legacy { .. } => None,
        },
        gas_price: match prices {
            GasPrices::FeeMarket { .. } => None,
            GasPrices::Legacy { gas_price } => Some(gas_price@),
        },
        value: request.value,
    }
}

/// The descriptor for a request and what the network was seen to say. It
/// needs every figure; the gas limit is the estimate with its margin; the
/// descriptor is marked as prepared and not signed.
pub open spec fn composed(
    from: Seq<u8>,
    network_name: Seq<char>,
    request: CallRequestView,
    seen: Observed,
    timestamp: Seq<char>,
) -> Result<TxParamsView, Error> {
    if seen.chain_id is None || seen.nonce is None || seen.gas_estimate is None || seen.prices
        is None {
        Err(Error::Rpc)
    } else {
        let gas_limit = crate::network::buffered_gas(seen.gas_estimate->0);
        let prices = seen.prices->0;
        let cost = estimated_cost(gas_limit, prices, request.value);
        if cost >= u256_modulus() {
            Err(Error::CostOverflow)
        } else {
            Ok(
                TxParamsView {
                    mode: request.mode,
                    function_name: request.function_name,
                    params: request.params,
                    transaction: body_of(
                        from,
                        request,
                        seen.chain_id->0,
                        seen.nonce->0,
                        gas_limit,
                        prices,
                    ),
                    metadata: MetadataView {
                        network: NetworkInfoView {
                            name: network_name,
                            chain_id: seen.chain_id->0,
                            rpc_url: None,
                        },
                        estimated_cost: eth_text(cost),
                        timestamp,
                        prepared: true,
                        signed: false,
                        signed_at: None,
                    },
                },
            )
        }
    }
}

/// Builds the descriptor for a request from what the network was seen to
/// say, composed at `timestamp`. Nothing is stored or sent.
pub fn compose(
    from: Address,
    network_name: &str,
    request: CallRequest,
    seen: Observed,
    timestamp: String,
) -> (r: Result<TxParams, Error>)
    ensures
        match r {
            Ok(d) => composed(from@, network_name@, request@, seen, timestamp@) == Ok::<
                TxParamsView,
                Error,
            >(d@),
            Err(e) => composed(from@, network_name@, request@, seen, timestamp@) == Err::<
                TxParamsView,
                Error,
            >(e),
        },
{
    let (chain_id, nonce, estimate, prices) = match (
        seen.chain_id,
        seen.nonce,
        seen.gas_estimate,
        seen.prices,
    ) {
        (Some(c), Some(n), Some(g), Some(p)) => (c, n, g, p),
        _ => {
            return Err(Error::Rpc);
        },
    };
    let gas_limit = crate::network::estimate_gas(estimate);
    let price = match prices {
        GasPrices::FeeMarket { max_fee_per_gas, .. } => max_fee_per_gas,
        GasPrices::Legacy { gas_price } => gas_price,
    };
    let sent = match request.value {
        Some(v) => v,
        None => U256::zero(),
    };
    let gas_cost = match uint_checked_mul(gas_limit, price) {
        Some(c) => c,
        None => {
            return Err(Error::CostOverflow);
        },
    };
    let cost = match uint_checked_add(gas_cost, sent) {
        Some(c) => c,
        None => {
            return Err(Error::CostOverflow);
        },
    };
    let (tx_type, max_fee_per_gas, max_priority_fee_per_gas, gas_price) = match prices {
        GasPrices::FeeMarket { max_fee_per_gas, max_priority_fee_per_gas } => (
            2u8,
            Some(max_fee_per_gas),
            Some(max_priority_fee_per_gas),
            None,
        ),
        GasPrices::Legacy { gas_price } => (0u8, None, None, Some(gas_price)),
    };
    Ok(
        TxParams {
            mode: request.mode,
            function_name: request.function_name,
            params: request.params,
            transaction: TransactionData {
                tx_type,
                from,
                to: request.to,
                data: request.data,
                nonce,
                chain_id,
                gas_limit,
                max_fee_per_gas,
                max_priority_fee_per_gas,
                gas_price,
                value: request.value,
            },
            metadata: Metadata {
                network: NetworkInfo { name: String::from_str(network_name), chain_id, rpc_url: None },
                estimated_cost: format_eth(cost),
                timestamp,
                prepared: true,
                signed: false,
                signed_at: None,
            },
        },
    )
}

/// What the composer builds is what the validator asks for: a composed
/// descriptor is prepared, not signed, priced by exactly the fee family of
/// its type, and passes validation without a warning.
pub proof fn lemma_composed_is_valid(
    from: Seq<u8>,
    network_name: Seq<char>,
    request: CallRequestView,
    seen: Observed,
    timestamp: Seq<char>,
)
    requires
        composed(from, network_name, request, seen, timestamp) is Ok,
    ensures
        ({
            let d = composed(from, network_name, request, seen, timestamp)->Ok_0;
            &&& d.metadata.prepared
            &&& !d.metadata.signed
            &&& d.transaction.well_priced()
            &&& d.transaction.chain_id == d.metadata.network.chain_id
            &&& crate::validate::validation(d) == Ok::<Seq<crate::validate::Warning>, Error>(
                Seq::empty(),
            )
        }),
{
    let d = composed(from, network_name, request, seen, timestamp)->Ok_0;
    assert(crate::validate::warnings_of(d) =~= Seq::empty());
}

} // verus!
