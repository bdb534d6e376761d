//! The signer: binds a private key to a descriptor. No network is touched
//! here.
//!
//! Hashing, signing and the wire encoding are alloy's. Each is named by a
//! function without a body, and the contracts below say how the signer puts
//! them together.

use crate::clock::current_moment;
use crate::error::Error;
use crate::types::{
    address_of, Address, Metadata, MetadataView, SignedTx, SignedTxView, TransactionData,
    TransactionDataView, TransactionMode, TxHash, TxParams, TxParamsView,
};
use crate::uint::U256;
use alloy::consensus::SignableTransaction;
use alloy::eips::eip2718::Encodable2718;
use alloy::signers::SignerSync;
use vstd::prelude::*;

verus! {

/// A fee-market transaction in the shape that goes on the wire.
#[derive(Clone, Debug, PartialEq, Eq)]
pub struct FeeMarketTx {
    pub chain_id: u64,
    pub nonce: u64,
    pub gas_limit: u64,
    pub max_fee_per_gas: u128,
    pub max_priority_fee_per_gas: u128,
    pub to: Option<Address>,
    pub value: U256,
    pub input: Vec<u8>,
}

/// [`FeeMarketTx`] as a mathematical value.
pub struct FeeMarketTxView {
    pub chain_id: u64,
    pub nonce: u64,
    pub gas_limit: u64,
    pub max_fee_per_gas: u128,
    pub max_priority_fee_per_gas: u128,
    pub to: Option<Seq<u8>>,
    pub value: nat,
    pub input: Seq<u8>,
}

impl View for FeeMarketTx {
    type V = FeeMarketTxView;

    open spec fn view(&self) -> FeeMarketTxView {
        FeeMarketTxView {
            chain_id: self.chain_id,
            nonce: self.nonce,
            gas_limit: self.gas_limit,
            max_fee_per_gas: self.max_fee_per_gas,
            max_priority_fee_per_gas: self.max_priority_fee_per_gas,
            to: address_of(self.to),
            value: self.value@,
            input: self.input@,
        }
    }
}

/// A legacy transaction in the shape that goes on the wire.
#[derive(Clone, Debug, PartialEq, Eq)]
pub struct LegacyTx {
    pub chain_id: u64,
    pub nonce: u64,
    pub gas_price: u128,
    pub gas_limit: u64,
    pub to: Option<Address>,
    pub value: U256,
    pub input: Vec<u8>,
}

/// [`LegacyTx`] as a mathematical value.
pub struct LegacyTxView {
    pub chain_id: u64,
    pub nonce: u64,
    pub gas_price: u128,
    pub gas_limit: u64,
    pub to: Option<Seq<u8>>,
    pub value: nat,
    pub input: Seq<u8>,
}

impl View for LegacyTx {
    type V = LegacyTxView;

    open spec fn view(&self) -> LegacyTxView {
        LegacyTxView {
            chain_id: self.chain_id,
            nonce: self.nonce,
            gas_price: self.gas_price,
            gas_limit: self.gas_limit,
            to: address_of(self.to),
            value: self.value@,
            input: self.input@,
        }
    }
}

/// The address that belongs to a private key, where the text is a valid key.
pub uninterp spec fn key_address(private_key: Seq<char>) -> Option<Seq<u8>>;

/// The hash that binds a signature to a fee-market transaction.
pub uninterp spec fn fee_market_signing_hash(tx: FeeMarketTxView) -> Seq<u8>;

/// The hash that binds a signature to a legacy transaction.
pub uninterp spec fn legacy_signing_hash(tx: LegacyTxView) -> Seq<u8>;

/// The signature of a hash under a private key: 65 bytes, where it can be
/// made.
pub uninterp spec fn signature_of(private_key: Seq<char>, hash: Seq<u8>) -> Option<Seq<u8>>;

/// The wire encoding of a fee-market transaction with its signature.
pub uninterp spec fn fee_market_encoding(tx: FeeMarketTxView, signature: Seq<u8>) -> Option<Seq<u8>>;

/// The wire encoding of a legacy transaction with its signature.
pub uninterp spec fn legacy_encoding(tx: LegacyTxView, signature: Seq<u8>) -> Option<Seq<u8>>;

/// The address of the contract that a sender's transaction with this nonce
/// creates.
pub uninterp spec fn created_address(sender: Seq<u8>, nonce: u64) -> Seq<u8>;

/// The `FromStr` of alloy's `PrivateKeySigner`, and the address it derived:
/// `None` where the text is no key (not 64 hex digits, with or without `0x`,
/// or no valid scalar of the curve).
#[verifier::external_body]
pub(crate) fn address_of_key(private_key: &str) -> (r: Option<Address>)
    ensures
        address_of(r) == key_address(private_key@),
{
    let parsed: Result<alloy::signers::local::PrivateKeySigner, _> = private_key.parse();
    parsed.ok().map(|signer| Address { bytes: signer.address().into_array() })
}

/// `signature_hash` of alloy's `TxEip1559`, with an empty access list: the
/// Keccak-256 hash of the transaction's encoding for signing.
#[verifier::external_body]
pub(crate) fn hash_fee_market(tx: &FeeMarketTx) -> (r: TxHash)
    ensures
        r@ == fee_market_signing_hash(tx@),
{
    let t = alloy::consensus::TxEip1559 {
        chain_id: tx.chain_id,
        nonce: tx.nonce,
        gas_limit: tx.gas_limit,
        max_fee_per_gas: tx.max_fee_per_gas,
        max_priority_fee_per_gas: tx.max_priority_fee_per_gas,
        to: tx.to.map(|a| alloy::primitives::Address::from(a.bytes)).into(),
        value: alloy::primitives::U256::from_limbs([tx.value.l0, tx.value.l1, tx.value.l2, tx.value.l3]),
        input: tx.input.clone().into(),
        access_list: Default::default(),
    };
    TxHash { bytes: t.signature_hash().0 }
}

/// `signature_hash` of alloy's `TxLegacy`, with the chain id set: the
/// Keccak-256 hash of the transaction's encoding for signing.
#[verifier::external_body]
pub(crate) fn hash_legacy(tx: &LegacyTx) -> (r: TxHash)
    ensures
        r@ == legacy_signing_hash(tx@),
{
    let t = alloy::consensus::TxLegacy {
        chain_id: Some(tx.chain_id),
        nonce: tx.nonce,
        gas_price: tx.gas_price,
        gas_limit: tx.gas_limit,
        to: tx.to.map(|a| alloy::primitives::Address::from(a.bytes)).into(),
        value: alloy::primitives::U256::from_limbs([tx.value.l0, tx.value.l1, tx.value.l2, tx.value.l3]),
        input: tx.input.clone().into(),
    };
    TxHash { bytes: t.signature_hash().0 }
}

/// `sign_hash_sync` of alloy's `PrivateKeySigner`, made from the key's text:
/// the signature as 65 bytes (`as_bytes`: r, s, v), `None` where the text is
/// no key or the signing fails.
#[verifier::external_body]
pub(crate) fn sign_hash(private_key: &str, hash: &TxHash) -> (r: Option<[u8; 65]>)
    ensures
        match r {
            Some(s) => signature_of(private_key@, hash@) == Some(s@),
            None => signature_of(private_key@, hash@) is None,
        },
{
    let signer: alloy::signers::local::PrivateKeySigner = private_key.parse().ok()?;
    let signature = signer.sign_hash_sync(&alloy::primitives::B256::from(hash.bytes)).ok()?;
    Some(signature.as_bytes())
}

/// `encoded_2718` of alloy's `TxEnvelope` for a `TxEip1559` with an empty
/// access list and the signature read by `Signature::from_raw_array`; `None`
/// where those 65 bytes are no signature.
#[verifier::external_body]
pub(crate) fn encode_fee_market(tx: &FeeMarketTx, signature: &[u8; 65]) -> (r: Option<Vec<u8>>)
    ensures
        match r {
            Some(raw) => fee_market_encoding(tx@, signature@) == Some(raw@),
            None => fee_market_encoding(tx@, signature@) is None,
        },
{
    let t = alloy::consensus::TxEip1559 {
        chain_id: tx.chain_id,
        nonce: tx.nonce,
        gas_limit: tx.gas_limit,
        max_fee_per_gas: tx.max_fee_per_gas,
        max_priority_fee_per_gas: tx.max_priority_fee_per_gas,
        to: tx.to.map(|a| alloy::primitives::Address::from(a.bytes)).into(),
        value: alloy::primitives::U256::from_limbs([tx.value.l0, tx.value.l1, tx.value.l2, tx.value.l3]),
        input: tx.input.clone().into(),
        access_list: Default::default(),
    };
    let signature = alloy::primitives::Signature::from_raw_array(signature).ok()?;
    Some(alloy::consensus::TxEnvelope::Eip1559(t.into_signed(signature)).encoded_2718())
}

/// `encoded_2718` of alloy's `TxEnvelope` for a `TxLegacy` with the chain id
/// set and the signature read by `Signature::from_raw_array`; `None` where
/// those 65 bytes are no signature.
#[verifier::external_body]
pub(crate) fn encode_legacy(tx: &LegacyTx, signature: &[u8; 65]) -> (r: Option<Vec<u8>>)
    ensures
        match r {
            Some(raw) => legacy_encoding(tx@, signature@) == Some(raw@),
            None => legacy_encoding(tx@, signature@) is None,
        },
{
    let t = alloy::consensus::TxLegacy {
        chain_id: Some(tx.chain_id),
        nonce: tx.nonce,
        gas_price: tx.gas_price,
        gas_limit: tx.gas_limit,
        to: tx.to.map(|a| alloy::primitives::Address::from(a.bytes)).into(),
        value: alloy::primitives::U256::from_limbs([tx.value.l0, tx.value.l1, tx.value.l2, tx.value.l3]),
        input: tx.input.clone().into(),
    };
    let signature = alloy::primitives::Signature::from_raw_array(signature).ok()?;
    Some(alloy::consensus::TxEnvelope::Legacy(t.into_signed(signature)).encoded_2718())
}

/// `Address::create` of alloy: the address of the contract that `sender`
/// creates with `nonce` (the last 20 bytes of the hash of the two, RLP
/// encoded).
#[verifier::external_body]
pub(crate) fn create_address(sender: &Address, nonce: u64) -> (r: Address)
    ensures
        r@ == created_address(sender@, nonce),
{
    Address { bytes: alloy::primitives::Address::from(sender.bytes).create(nonce).into_array() }
}

/// The fee-market shape of a body: it needs both fee fields, and numbers that
/// fit the fields on the wire. A missing value counts as zero.
pub open spec fn fee_market_tx_of(body: TransactionDataView) -> Result<FeeMarketTxView, Error> {
    if body.max_fee_per_gas is None || body.max_priority_fee_per_gas is None {
        Err(Error::MissingFeeMarketField)
    } else if body.gas_limit > u64::MAX || body.max_fee_per_gas->0 > u128::MAX
        || body.max_priority_fee_per_gas->0 > u128::MAX {
        Err(Error::AmountOutOfRange)
    } else {
        Ok(
            FeeMarketTxView {
                chain_id: body.chain_id,
                nonce: body.nonce,
                gas_limit: body.gas_limit as u64,
                max_fee_per_gas: body.max_fee_per_gas->0 as u128,
                max_priority_fee_per_gas: body.max_priority_fee_per_gas->0 as u128,
                to: body.to,
                value: match body.value {
                    Some(v) => v,
                    None => 0,
                },
                input: body.data,
            },
        )
    }
}

/// The legacy shape of a body: it needs the gas price, and numbers that fit
/// the fields on the wire. A missing value counts as zero.
pub open spec fn legacy_tx_of(body: TransactionDataView) -> Result<LegacyTxView, Error> {
    if body.gas_price is None {
        Err(Error::MissingGasPrice)
    } else if body.gas_limit > u64::MAX || body.gas_price->0 > u128::MAX {
        Err(Error::AmountOutOfRange)
    } else {
        Ok(
            LegacyTxView {
                chain_id: body.chain_id,
                nonce: body.nonce,
                gas_price: body.gas_price->0 as u128,
                gas_limit: body.gas_limit as u64,
                to: body.to,
                value: match body.value {
                    Some(v) => v,
                    None => 0,
                },
                input: body.data,
            },
        )
    }
}

/// A copy of bytes.
fn duplicate_bytes(bytes: &Vec<u8>) -> (r: Vec<u8>)
    ensures
        r@ == bytes@,
{
    let r = bytes.clone();
    assert(r@ =~= bytes@);
    r
}

/// Puts a body into the fee-market shape.
pub fn fee_market_tx(body: &TransactionData) -> (r: Result<FeeMarketTx, Error>)
    ensures
        match r {
            Ok(tx) => fee_market_tx_of(body@) == Ok::<FeeMarketTxView, Error>(tx@),
            Err(e) => fee_market_tx_of(body@) == Err::<FeeMarketTxView, Error>(e),
        },
{
    let max_fee = match body.max_fee_per_gas {
        Some(v) => v,
        None => {
            return Err(Error::MissingFeeMarketField);
        },
    };
    let tip = match body.max_priority_fee_per_gas {
        Some(v) => v,
        None => {
            return Err(Error::MissingFeeMarketField);
        },
    };
    match (body.gas_limit.as_u64(), max_fee.as_u128(), tip.as_u128()) {
        (Some(gas_limit), Some(max_fee_per_gas), Some(max_priority_fee_per_gas)) => Ok(
            FeeMarketTx {
                chain_id: body.chain_id,
                nonce: body.nonce,
                gas_limit,
                max_fee_per_gas,
                max_priority_fee_per_gas,
                to: body.to,
                value: match body.value {
                    Some(v) => v,
                    None => U256::zero(),
                },
                input: duplicate_bytes(&body.data),
            },
        ),
        _ => Err(Error::AmountOutOfRange),
    }
}

/// Puts a body into the legacy shape.
pub fn legacy_tx(body: &TransactionData) -> (r: Result<LegacyTx, Error>)
    ensures
        match r {
            Ok(tx) => legacy_tx_of(body@) == Ok::<LegacyTxView, Error>(tx@),
            Err(e) => legacy_tx_of(body@) == Err::<LegacyTxView, Error>(e),
        },
{
    let price = match body.gas_price {
        Some(v) => v,
        None => {
            return Err(Error::MissingGasPrice);
        },
    };
    match (body.gas_limit.as_u64(), price.as_u128()) {
        (Some(gas_limit), Some(gas_price)) => Ok(
            LegacyTx {
                chain_id: body.chain_id,
                nonce: body.nonce,
                gas_price,
                gas_limit,
                to: body.to,
                value: match body.value {
                    Some(v) => v,
                    None => U256::zero(),
                },
                input: duplicate_bytes(&body.data),
            },
        ),
        _ => Err(Error::AmountOutOfRange),
    }
}

/// What signing a fee-market body gives: the signed encoding and the hash
/// that was signed.
pub open spec fn signed_fee_market(body: TransactionDataView, private_key: Seq<char>) -> Result<
    (Seq<u8>, Seq<u8>),
    Error,
> {
    match fee_market_tx_of(body) {
        Err(e) => Err(e),
        Ok(tx) => {
            let hash = fee_market_signing_hash(tx);
            match signature_of(private_key, hash) {
                None => Err(Error::SigningFailed),
                Some(signature) => match fee_market_encoding(tx, signature) {
                    None => Err(Error::SigningFailed),
                    Some(raw) => Ok((raw, hash)),
                },
            }
        },
    }
}

/// What signing a legacy body gives: the signed encoding and the hash that
/// was signed.
pub open spec fn signed_legacy(body: TransactionDataView, private_key: Seq<char>) -> Result<
    (Seq<u8>, Seq<u8>),
    Error,
> {
    match legacy_tx_of(body) {
        Err(e) => Err(e),
        Ok(tx) => {
            let hash = legacy_signing_hash(tx);
            match signature_of(private_key, hash) {
                None => Err(Error::SigningFailed),
                Some(signature) => match legacy_encoding(tx, signature) {
                    None => Err(Error::SigningFailed),
                    Some(raw) => Ok((raw, hash)),
                },
            }
        },
    }
}

/// Signs a fee-market (type 2) body. The hash handed back is the one the
/// signature was made over.
pub fn sign_eip1559(tx_data: &TransactionData, private_key: &str) -> (r: Result<
    (Vec<u8>, TxHash),
    Error,
>)
    ensures
        match r {
            Ok((raw, hash)) => signed_fee_market(tx_data@, private_key@) == Ok::<
                (Seq<u8>, Seq<u8>),
                Error,
            >((raw@, hash@)),
            Err(e) => signed_fee_market(tx_data@, private_key@) == Err::<(Seq<u8>, Seq<u8>), Error>(
                e,
            ),
        },
{
    let tx = match fee_market_tx(tx_data) {
        Ok(tx) => tx,
        Err(e) => {
            return Err(e);
        },
    };
    let hash = hash_fee_market(&tx);
    let signature = match sign_hash(private_key, &hash) {
        Some(s) => s,
        None => {
            return Err(Error::SigningFailed);
        },
    };
    match encode_fee_market(&tx, &signature) {
        Some(raw) => Ok((raw, hash)),
        None => Err(Error::SigningFailed),
    }
}

/// Signs a legacy (type 0) body. The hash handed back is the one the
/// signature was made over.
pub fn sign_legacy(tx_data: &TransactionData, private_key: &str) -> (r: Result<
    (Vec<u8>, TxHash),
    Error,
>)
    ensures
        match r {
            Ok((raw, hash)) => signed_legacy(tx_data@, private_key@) == Ok::<
                (Seq<u8>, Seq<u8>),
                Error,
            >((raw@, hash@)),
            Err(e) => signed_legacy(tx_data@, private_key@) == Err::<(Seq<u8>, Seq<u8>), Error>(e),
        },
{
    let tx = match legacy_tx(tx_data) {
        Ok(tx) => tx,
        Err(e) => {
            return Err(e);
        },
    };
    let hash = hash_legacy(&tx);
    let signature = match sign_hash(private_key, &hash) {
        Some(s) => s,
        None => {
            return Err(Error::SigningFailed);
        },
    };
    match encode_legacy(&tx, &signature) {
        Some(raw) => Ok((raw, hash)),
        None => Err(Error::SigningFailed),
    }
}

/// Whether a key may sign for `from`: its address has to be `from`. A text
/// that is no key has no address.
pub open spec fn signer_checked(derived: Option<Seq<u8>>, from: Seq<u8>) -> Result<(), Error> {
    match derived {
        None => Err(Error::InvalidPrivateKey),
        Some(a) => if a == from {
            Ok(())
        } else {
            Err(Error::SignerMismatch)
        },
    }
}

/// Holds the address derived from the key against the transaction's `from`.
/// A mismatch means that key and descriptor do not belong together; trying
/// again does not help.
pub fn check_signer(derived: Option<Address>, from: &Address) -> (r: Result<(), Error>)
    ensures
        r == signer_checked(address_of(derived), from@),
{
    match derived {
        None => Err(Error::InvalidPrivateKey),
        Some(a) => if a.same_as(from) {
            Ok(())
        } else {
            Err(Error::SignerMismatch)
        },
    }
}

/// The metadata of a signed transaction: that of the descriptor, marked as
/// signed at the given time. Nothing else changes; `prepared` stays as it was.
pub open spec fn stamped(metadata: MetadataView, signed_at: Seq<char>) -> MetadataView {
    MetadataView { signed: true, signed_at: Some(signed_at), ..metadata }
}

/// Marks metadata as signed at the given time.
pub fn stamp_signed(metadata: &Metadata, signed_at: String) -> (r: Metadata)
    ensures
        r@ == stamped(metadata@, signed_at@),
{
    Metadata {
        network: metadata.network.duplicate(),
        estimated_cost: metadata.estimated_cost.clone(),
        timestamp: metadata.timestamp.clone(),
        prepared: metadata.prepared,
        signed: true,
        signed_at: Some(signed_at),
    }
}

/// The signed transaction for a descriptor, its signed encoding, the hash
/// that was signed, the address a deployment will create its contract at,
/// and the time of signing.
pub open spec fn assembled(
    tx_params: TxParamsView,
    raw: Seq<u8>,
    hash: Seq<u8>,
    contract: Seq<u8>,
    signed_at: Seq<char>,
) -> SignedTxView {
    SignedTxView {
        signed_transaction: raw,
        tx_hash: hash,
        mode: tx_params.mode,
        from: tx_params.transaction.from,
        predicted_contract_address: if tx_params.mode == TransactionMode::Deploy {
            Some(contract)
        } else {
            None
        },
        metadata: stamped(tx_params.metadata, signed_at),
    }
}

/// Puts the signed transaction together. The contract address is kept only
/// for a deployment.
pub fn assemble_signed(
    tx_params: &TxParams,
    raw: Vec<u8>,
    hash: TxHash,
    contract: Address,
    signed_at: String,
) -> (r: SignedTx)
    ensures
        r@ == assembled(tx_params@, raw@, hash@, contract@, signed_at@),
{
    SignedTx {
        signed_transaction: raw,
        tx_hash: hash,
        mode: tx_params.mode,
        from: tx_params.transaction.from,
        predicted_contract_address: match tx_params.mode {
            TransactionMode::Deploy => Some(contract),
            TransactionMode::Call => None,
        },
        metadata: stamp_signed(&tx_params.metadata, signed_at),
    }
}

/// What signing a descriptor at a given time gives. The key's address has to
/// be the transaction's `from`; the body is signed in the shape that its type
/// names; the content hash is the hash that was signed.
pub open spec fn signed_transaction(
    tx_params: TxParamsView,
    private_key: Seq<char>,
    signed_at: Seq<char>,
) -> Result<SignedTxView, Error> {
    let body = tx_params.transaction;
    match signer_checked(key_address(private_key), body.from) {
        Err(e) => Err(e),
        Ok(_) => {
            let signed = if body.tx_type == 2 {
                signed_fee_market(body, private_key)
            } else if body.tx_type == 0 {
                signed_legacy(body, private_key)
            } else {
                Err(Error::UnsupportedTransactionType { tx_type: body.tx_type })
            };
            match signed {
                Err(e) => Err(e),
                Ok((raw, hash)) => Ok(
                    assembled(tx_params, raw, hash, created_address(body.from, body.nonce), signed_at),
                ),
            }
        },
    }
}

/// What holds of every signed transaction. The key that signed is the key of
/// the sender: its address is `from`. The content hash is the hash that the
/// signature was made over, and the signed encoding is that of the body with
/// this signature. A contract address is predicted exactly for a deployment.
/// Of the metadata only the signing fields change: `signed` is set and the
/// time of signing stamped; `prepared` and the rest stay as they were.
pub proof fn lemma_signed_by_sender(tx_params: TxParamsView, private_key: Seq<char>, signed_at: Seq<char>)
    requires
        signed_transaction(tx_params, private_key, signed_at) is Ok,
    ensures
        ({
            let body = tx_params.transaction;
            let signed = signed_transaction(tx_params, private_key, signed_at)->Ok_0;
            &&& key_address(private_key) == Some(body.from)
            &&& signed.from == body.from
            &&& signed.mode == tx_params.mode
            &&& signature_of(private_key, signed.tx_hash) is Some
            &&& body.tx_type == 2 ==> fee_market_tx_of(body) is Ok && signed.tx_hash
                == fee_market_signing_hash(fee_market_tx_of(body)->Ok_0) && fee_market_encoding(
                fee_market_tx_of(body)->Ok_0,
                signature_of(private_key, signed.tx_hash)->0,
            ) == Some(signed.signed_transaction)
            &&& body.tx_type != 2 ==> body.tx_type == 0 && legacy_tx_of(body) is Ok && signed.tx_hash
                == legacy_signing_hash(legacy_tx_of(body)->Ok_0) && legacy_encoding(
                legacy_tx_of(body)->Ok_0,
                signature_of(private_key, signed.tx_hash)->0,
            ) == Some(signed.signed_transaction)
            &&& signed.predicted_contract_address is Some <==> tx_params.mode
                == TransactionMode::Deploy
            &&& signed.metadata.signed
            &&& signed.metadata.signed_at == Some(signed_at)
            &&& signed.metadata.prepared == tx_params.metadata.prepared
            &&& signed.metadata.network == tx_params.metadata.network
            &&& signed.metadata.estimated_cost == tx_params.metadata.estimated_cost
            &&& signed.metadata.timestamp == tx_params.metadata.timestamp
        }),
{
}

/// Signs a descriptor with a private key, stamping the given time of signing.
pub fn sign_transaction_at(tx_params: &TxParams, private_key: &str, signed_at: String) -> (r:
    Result<SignedTx, Error>)
    ensures
        match r {
            Ok(signed) => signed_transaction(tx_params@, private_key@, signed_at@) == Ok::<
                SignedTxView,
                Error,
            >(signed@),
            Err(e) => signed_transaction(tx_params@, private_key@, signed_at@) == Err::<
                SignedTxView,
                Error,
            >(e),
        },
{
    let body = &tx_params.transaction;
    match check_signer(address_of_key(private_key), &body.from) {
        Err(e) => {
            return Err(e);
        },
        Ok(_) => {},
    }
    let signed = if body.tx_type == 2 {
        sign_eip1559(body, private_key)
    } else if body.tx_type == 0 {
        sign_legacy(body, private_key)
    } else {
        Err(Error::UnsupportedTransactionType { tx_type: body.tx_type })
    };
    match signed {
        Err(e) => Err(e),
        Ok((raw, hash)) => {
            let contract = create_address(&body.from, body.nonce);
            Ok(assemble_signed(tx_params, raw, hash, contract, signed_at))
        },
    }
}

/// Signs a descriptor with a private key, at the present moment. Whatever the
/// clock says, the result is that of [`sign_transaction_at`] for some time of
/// signing.
pub fn sign_transaction(tx_params: &TxParams, private_key: &str) -> (r: Result<SignedTx, Error>)
    ensures
        exists|signed_at: Seq<char>|
            match r {
                Ok(signed) => #[trigger] signed_transaction(tx_params@, private_key@, signed_at)
                    == Ok::<SignedTxView, Error>(signed@),
                Err(e) => signed_transaction(tx_params@, private_key@, signed_at) == Err::<
                    SignedTxView,
                    Error,
                >(e),
            },
{
    let moment = current_moment();
    let ghost signed_at = moment.rfc3339@;
    let r = sign_transaction_at(tx_params, private_key, moment.rfc3339);
    assert(match r {
        Ok(signed) => signed_transaction(tx_params@, private_key@, signed_at) == Ok::<
            SignedTxView,
            Error,
        >(signed@),
        Err(e) => signed_transaction(tx_params@, private_key@, signed_at) == Err::<
            SignedTxView,
            Error,
        >(e),
    });
    r
}

} // verus!
