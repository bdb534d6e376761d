//! The values that pass from phase to phase: the unsigned descriptor, the
//! signed transaction and the receipt, with the mathematical view of each.

use crate::uint::U256;
use vstd::prelude::*;
use vstd::string::StringExecFns;

verus! {

/// The text of an optional string.
pub open spec fn text_of(o: Option<String>) -> Option<Seq<char>> {
    match o {
        Some(s) => Some(s@),
        None => None,
    }
}

/// The value of an optional number.
pub open spec fn amount_of(o: Option<U256>) -> Option<nat> {
    match o {
        Some(v) => Some(v@),
        None => None,
    }
}

/// The bytes of an optional address.
pub open spec fn address_of(o: Option<Address>) -> Option<Seq<u8>> {
    match o {
        Some(a) => Some(a@),
        None => None,
    }
}

/// A copy of an optional string.
pub fn duplicate_text(o: &Option<String>) -> (r: Option<String>)
    ensures
        text_of(r) == text_of(*o),
{
    match o {
        Some(s) => Some(s.clone()),
        None => None,
    }
}

/// An account or contract address: 20 bytes.
#[derive(Clone, Copy, Debug, PartialEq, Eq)]
pub struct Address {
    pub bytes: [u8; 20],
}

impl View for Address {
    type V = Seq<u8>;

    open spec fn view(&self) -> Seq<u8> {
        self.bytes@
    }
}

impl Address {
    /// The address with these bytes.
    pub fn from_bytes(bytes: [u8; 20]) -> (r: Address)
        ensures
            r@ == bytes@,
    {
        Address { bytes }
    }

    /// The address of twenty zero bytes, which stands for the native currency
    /// where a token is asked for.
    pub fn zero() -> (r: Address)
        ensures
            r@ == Seq::new(20, |i: int| 0u8),
    {
        let r = Address { bytes: [0u8; 20] };
        assert(r@ =~= Seq::new(20, |i: int| 0u8));
        r
    }

    /// Whether two addresses hold the same bytes.
    pub fn same_as(&self, other: &Address) -> (r: bool)
        ensures
            r == (self@ == other@),
    {
        let mut i: usize = 0;
        while i < 20
            invariant
                i <= 20,
                forall|j: int| 0 <= j < i ==> self.bytes@[j] == other.bytes@[j],
            decreases 20 - i,
        {
            if self.bytes[i] != other.bytes[i] {
                return false;
            }
            i += 1;
        }
        assert(self@ =~= other@);
        true
    }
}

/// A 32-byte hash: the identity of a transaction, or of a block.
#[derive(Clone, Copy, Debug, PartialEq, Eq)]
pub struct TxHash {
    pub bytes: [u8; 32],
}

impl View for TxHash {
    type V = Seq<u8>;

    open spec fn view(&self) -> Seq<u8> {
        self.bytes@
    }
}

impl TxHash {
    /// The hash with these bytes.
    pub fn from_bytes(bytes: [u8; 32]) -> (r: TxHash)
        ensures
            r@ == bytes@,
    {
        TxHash { bytes }
    }

    /// Whether two hashes hold the same bytes.
    pub fn same_as(&self, other: &TxHash) -> (r: bool)
        ensures
            r == (self@ == other@),
    {
        let mut i: usize = 0;
        while i < 32
            invariant
                i <= 32,
                forall|j: int| 0 <= j < i ==> self.bytes@[j] == other.bytes@[j],
            decreases 32 - i,
        {
            if self.bytes[i] != other.bytes[i] {
                return false;
            }
            i += 1;
        }
        assert(self@ =~= other@);
        true
    }
}

/// The network a transaction is meant for.
#[derive(Clone, Debug, PartialEq, Eq)]
pub struct NetworkInfo {
    pub name: String,
    pub chain_id: u64,
    pub rpc_url: Option<String>,
}

/// [`NetworkInfo`] as a mathematical value.
pub struct NetworkInfoView {
    pub name: Seq<char>,
    pub chain_id: u64,
    pub rpc_url: Option<Seq<char>>,
}

impl View for NetworkInfo {
    type V = NetworkInfoView;

    open spec fn view(&self) -> NetworkInfoView {
        NetworkInfoView { name: self.name@, chain_id: self.chain_id, rpc_url: text_of(self.rpc_url) }
    }
}

impl NetworkInfo {
    /// A copy.
    pub fn duplicate(&self) -> (r: NetworkInfo)
        ensures
            r@ == self@,
    {
        NetworkInfo {
            name: self.name.clone(),
            chain_id: self.chain_id,
            rpc_url: duplicate_text(&self.rpc_url),
        }
    }
}

/// Whether a transaction creates a contract or calls one.
#[derive(Clone, Copy, Debug, PartialEq, Eq, Structural)]
pub enum TransactionMode {
    Deploy,
    Call,
}

/// The body of a transaction. `tx_type` 2 is priced by the fee market
/// (`max_fee_per_gas`, `max_priority_fee_per_gas`), `tx_type` 0 by one
/// `gas_price`.
#[derive(Clone, Debug, PartialEq, Eq)]
pub struct TransactionData {
    pub tx_type: u8,
    pub from: Address,
    /// Absent for a contract creation.
    pub to: Option<Address>,
    pub data: Vec<u8>,
    pub nonce: u64,
    pub chain_id: u64,
    pub gas_limit: U256,
    pub max_fee_per_gas: Option<U256>,
    pub max_priority_fee_per_gas: Option<U256>,
    pub gas_price: Option<U256>,
    /// Native currency sent along.
    pub value: Option<U256>,
}

/// [`TransactionData`] as a mathematical value.
pub struct TransactionDataView {
    pub tx_type: u8,
    pub from: Seq<u8>,
    pub to: Option<Seq<u8>>,
    pub data: Seq<u8>,
    pub nonce: u64,
    pub chain_id: u64,
    pub gas_limit: nat,
    pub max_fee_per_gas: Option<nat>,
    pub max_priority_fee_per_gas: Option<nat>,
    pub gas_price: Option<nat>,
    pub value: Option<nat>,
}

impl View for TransactionData {
    type V = TransactionDataView;

    open spec fn view(&self) -> TransactionDataView {
        TransactionDataView {
            tx_type: self.tx_type,
            from: self.from@,
            to: address_of(self.to),
            data: self.data@,
            nonce: self.nonce,
            chain_id: self.chain_id,
            gas_limit: self.gas_limit@,
            max_fee_per_gas: amount_of(self.max_fee_per_gas),
            max_priority_fee_per_gas: amount_of(self.max_priority_fee_per_gas),
            gas_price: amount_of(self.gas_price),
            value: amount_of(self.value),
        }
    }
}

impl TransactionDataView {
    /// Exactly one fee family is there, the one that `tx_type` selects.
    pub open spec fn well_priced(self) -> bool {
        ||| self.tx_type == 2 && self.max_fee_per_gas is Some && self.max_priority_fee_per_gas is Some
            && self.gas_price is None
        ||| self.tx_type == 0 && self.gas_price is Some && self.max_fee_per_gas is None
            && self.max_priority_fee_per_gas is None
    }
}

/// What is known about a transaction besides its body.
#[derive(Clone, Debug, PartialEq, Eq)]
pub struct Metadata {
    pub network: NetworkInfo,
    /// Gas and value together, in the native unit, for a human reader.
    pub estimated_cost: String,
    /// When the descriptor was composed.
    pub timestamp: String,
    pub prepared: bool,
    pub signed: bool,
    pub signed_at: Option<String>,
}

/// [`Metadata`] as a mathematical value.
pub struct MetadataView {
    pub network: NetworkInfoView,
    pub estimated_cost: Seq<char>,
    pub timestamp: Seq<char>,
    pub prepared: bool,
    pub signed: bool,
    pub signed_at: Option<Seq<char>>,
}

impl View for Metadata {
    type V = MetadataView;

    open spec fn view(&self) -> MetadataView {
        MetadataView {
            network: self.network@,
            estimated_cost: self.estimated_cost@,
            timestamp: self.timestamp@,
            prepared: self.prepared,
            signed: self.signed,
            signed_at: text_of(self.signed_at),
        }
    }
}

impl Metadata {
    /// A copy.
    pub fn duplicate(&self) -> (r: Metadata)
        ensures
            r@ == self@,
    {
        Metadata {
            network: self.network.duplicate(),
            estimated_cost: self.estimated_cost.clone(),
            timestamp: self.timestamp.clone(),
            prepared: self.prepared,
            signed: self.signed,
            signed_at: duplicate_text(&self.signed_at),
        }
    }
}

/// The arguments of a call, as the user gave them: the record that a
/// descriptor carries for the operator.
#[derive(Clone, Debug, PartialEq, Eq)]
pub enum CallArgs {
    Deposit {
        beneficiary: Address,
        /// The amount in the native unit, as decimal text.
        amount: String,
        /// Unix time in seconds.
        deadline: u64,
        /// The token deposited; absent for the native currency.
        token: Option<Address>,
    },
    Claim { id: U256 },
    Reclaim { id: U256 },
    ExtendDeadline {
        id: U256,
        /// Unix time in seconds.
        new_deadline: u64,
    },
    TransferFeeCollector { new_collector: Address },
}

/// [`CallArgs`] as a mathematical value.
pub enum CallArgsView {
    Deposit { beneficiary: Seq<u8>, amount: Seq<char>, deadline: u64, token: Option<Seq<u8>> },
    Claim { id: nat },
    Reclaim { id: nat },
    ExtendDeadline { id: nat, new_deadline: u64 },
    TransferFeeCollector { new_collector: Seq<u8> },
}

impl View for CallArgs {
    type V = CallArgsView;

    open spec fn view(&self) -> CallArgsView {
        match self {
            CallArgs::Deposit { beneficiary, amount, deadline, token } => CallArgsView::Deposit {
                beneficiary: beneficiary@,
                amount: amount@,
                deadline: *deadline,
                token: address_of(*token),
            },
            CallArgs::Claim { id } => CallArgsView::Claim { id: id@ },
            CallArgs::Reclaim { id } => CallArgsView::Reclaim { id: id@ },
            CallArgs::ExtendDeadline { id, new_deadline } => CallArgsView::ExtendDeadline {
                id: id@,
                new_deadline: *new_deadline,
            },
            CallArgs::TransferFeeCollector { new_collector } => CallArgsView::TransferFeeCollector {
                new_collector: new_collector@,
            },
        }
    }
}

/// The arguments of an optional record.
pub open spec fn args_of(o: Option<CallArgs>) -> Option<CallArgsView> {
    match o {
        Some(a) => Some(a@),
        None => None,
    }
}

/// An unsigned transaction with what was planned around it: what the
/// composer hands to the signer.
#[derive(Clone, Debug, PartialEq, Eq)]
pub struct TxParams {
    pub mode: TransactionMode,
    pub function_name: Option<String>,
    pub params: Option<CallArgs>,
    pub transaction: TransactionData,
    pub metadata: Metadata,
}

/// [`TxParams`] as a mathematical value.
pub struct TxParamsView {
    pub mode: TransactionMode,
    pub function_name: Option<Seq<char>>,
    pub params: Option<CallArgsView>,
    pub transaction: TransactionDataView,
    pub metadata: MetadataView,
}

impl View for TxParams {
    type V = TxParamsView;

    open spec fn view(&self) -> TxParamsView {
        TxParamsView {
            mode: self.mode,
            function_name: text_of(self.function_name),
            params: args_of(self.params),
            transaction: self.transaction@,
            metadata: self.metadata@,
        }
    }
}

/// A signed transaction, ready to be broadcast.
#[derive(Clone, Debug, PartialEq, Eq)]
pub struct SignedTx {
    /// The signed encoding as the network takes it.
    pub signed_transaction: Vec<u8>,
    /// The hash that was signed, by which the transaction is known.
    pub tx_hash: TxHash,
    pub mode: TransactionMode,
    pub from: Address,
    /// Where the contract will live; only for a deployment.
    pub predicted_contract_address: Option<Address>,
    pub metadata: Metadata,
}

/// [`SignedTx`] as a mathematical value.
pub struct SignedTxView {
    pub signed_transaction: Seq<u8>,
    pub tx_hash: Seq<u8>,
    pub mode: TransactionMode,
    pub from: Seq<u8>,
    pub predicted_contract_address: Option<Seq<u8>>,
    pub metadata: MetadataView,
}

impl View for SignedTx {
    type V = SignedTxView;

    open spec fn view(&self) -> SignedTxView {
        SignedTxView {
            signed_transaction: self.signed_transaction@,
            tx_hash: self.tx_hash@,
            mode: self.mode,
            from: self.from@,
            predicted_contract_address: address_of(self.predicted_contract_address),
            metadata: self.metadata@,
        }
    }
}

/// The outcome of a transaction once a block holds it.
#[derive(Clone, Debug, PartialEq, Eq)]
pub struct TxReceipt {
    pub transaction_hash: TxHash,
    pub block_number: u64,
    /// `0x` and 64 hex digits.
    pub block_hash: String,
    pub from: Address,
    pub to: Option<Address>,
    /// In decimal digits.
    pub gas_used: String,
    /// 1 for success, 0 for failure.
    pub status: u64,
    pub contract_address: Option<Address>,
    /// Free-form additions, by name; empty as the library makes it.
    pub metadata: Vec<(String, String)>,
}

/// [`TxReceipt`] as a mathematical value.
pub struct TxReceiptView {
    pub transaction_hash: Seq<u8>,
    pub block_number: u64,
    pub block_hash: Seq<char>,
    pub from: Seq<u8>,
    pub to: Option<Seq<u8>>,
    pub gas_used: Seq<char>,
    pub status: u64,
    pub contract_address: Option<Seq<u8>>,
    pub metadata: Seq<(Seq<char>, Seq<char>)>,
}

impl View for TxReceipt {
    type V = TxReceiptView;

    open spec fn view(&self) -> TxReceiptView {
        TxReceiptView {
            transaction_hash: self.transaction_hash@,
            block_number: self.block_number,
            block_hash: self.block_hash@,
            from: self.from@,
            to: address_of(self.to),
            gas_used: self.gas_used@,
            status: self.status,
            contract_address: address_of(self.contract_address),
            metadata: Seq::new(self.metadata@.len(), |i: int| (self.metadata@[i].0@, self.metadata@[i].1@)),
        }
    }
}

/// What the environment configures: who signs, with which key, through which
/// endpoint, on which contract.
#[derive(Clone, Debug, PartialEq, Eq)]
pub struct Config {
    pub signer_address: Option<Address>,
    pub private_key: Option<String>,
    pub infura_api_key: Option<String>,
    pub rpc_url: Option<String>,
    pub contract_address: Option<Address>,
}

/// [`Config`] as a mathematical value.
pub struct ConfigView {
    pub signer_address: Option<Seq<u8>>,
    pub private_key: Option<Seq<char>>,
    pub infura_api_key: Option<Seq<char>>,
    pub rpc_url: Option<Seq<char>>,
    pub contract_address: Option<Seq<u8>>,
}

impl View for Config {
    type V = ConfigView;

    open spec fn view(&self) -> ConfigView {
        ConfigView {
            signer_address: address_of(self.signer_address),
            private_key: text_of(self.private_key),
            infura_api_key: text_of(self.infura_api_key),
            rpc_url: text_of(self.rpc_url),
            contract_address: address_of(self.contract_address),
        }
    }
}

/// The address that an optional text names, if it names one.
pub open spec fn configured_address(text: Option<Seq<char>>) -> Option<Seq<u8>> {
    match text {
        Some(t) => crate::hex::parsed_address(t),
        None => None,
    }
}

/// A copy of an optional string slice.
fn owned(o: Option<&str>) -> (r: Option<String>)
    ensures
        text_of(r) == crate::network::slice_text(o),
{
    match o {
        Some(s) => Some(String::from_str(s)),
        None => None,
    }
}

impl Config {
    /// The configuration for the values that the environment holds under
    /// `SIGNER_ADDRESS`, `PRIVATE_KEY`, `INFURA_API_KEY`, `RPC_URL` and
    /// `CONTRACT_ADDRESS`. An address that cannot be read counts as not set.
    pub fn from_values(
        signer_address: Option<&str>,
        private_key: Option<&str>,
        infura_api_key: Option<&str>,
        rpc_url: Option<&str>,
        contract_address: Option<&str>,
    ) -> (r: Config)
        ensures
            r@ == (ConfigView {
                signer_address: configured_address(crate::network::slice_text(signer_address)),
                private_key: crate::network::slice_text(private_key),
                infura_api_key: crate::network::slice_text(infura_api_key),
                rpc_url: crate::network::slice_text(rpc_url),
                contract_address: configured_address(crate::network::slice_text(contract_address)),
            }),
    {
        Config {
            signer_address: match signer_address {
                Some(t) => crate::hex::parse_address(t),
                None => None,
            },
            private_key: owned(private_key),
            infura_api_key: owned(infura_api_key),
            rpc_url: owned(rpc_url),
            contract_address: match contract_address {
                Some(t) => crate::hex::parse_address(t),
                None => None,
            },
        }
    }
}

} // verus!
