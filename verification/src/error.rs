//! What can go wrong, and how each failure is worded.

use crate::uint::{decimal_text, U256};
use vstd::prelude::*;
use vstd::string::StringExecFns;

verus! {

/// A failure of one of the three phases. None is retried by the library; the
/// one retry boundary is a second run of the broadcast.
#[derive(Clone, Copy, Debug, PartialEq, Eq, Structural)]
pub enum Error {
    /// No endpoint from the command line, the environment, the transaction
    /// or the network's name.
    MissingRpcUrl,
    /// The environment names no signer address.
    MissingSignerAddress,
    /// The environment holds no private key.
    MissingPrivateKey,
    /// Neither the command line nor the environment names the contract.
    MissingContractAddress,
    /// The descriptor was never prepared.
    NotPrepared,
    /// A fee-market transaction lacks its fee cap or its tip.
    MissingFeeMarketField,
    /// A legacy transaction lacks its gas price.
    MissingGasPrice,
    /// The transaction type is neither 0 nor 2.
    UnsupportedTransactionType { tx_type: u8 },
    /// The amount is no decimal number of the native unit.
    InvalidAmount,
    /// The amount is zero.
    NonPositiveAmount,
    /// The deadline is not in the future.
    DeadlinePassed,
    /// The contract artifact holds no bytecode.
    BytecodeNotFound,
    /// The bytecode is not hex.
    InvalidBytecode,
    /// The bytecode is empty.
    EmptyBytecode,
    /// Gas limit or fee is too wide for its field on the wire.
    AmountOutOfRange,
    /// Gas cost and value together do not fit in 256 bits.
    CostOverflow,
    /// The private key is not a valid key.
    InvalidPrivateKey,
    /// The key's address is not the transaction's `from`.
    SignerMismatch,
    /// The signature could not be made or encoded.
    SigningFailed,
    /// The connected network is not the one the transaction was signed for.
    ChainIdMismatch { expected: u64, actual: u64 },
    /// The network knows the transaction under another hash than the signer's.
    HashDivergence,
    /// A call to the node failed.
    Rpc,
    /// No receipt within the polling budget.
    Timeout,
    /// An answer came that the broadcast was not waiting for.
    UnexpectedEvent,
    /// A mnemonic phrase has neither 12 nor 24 words.
    MnemonicWordCount { words: u64 },
}

/// The text of each failure.
pub open spec fn error_text(e: Error) -> Seq<char> {
    match e {
        Error::MissingRpcUrl => "No RPC URL provided or configured"@,
        Error::MissingSignerAddress => "SIGNER_ADDRESS not set in environment"@,
        Error::MissingPrivateKey => "PRIVATE_KEY not set in environment"@,
        Error::MissingContractAddress => "Contract address required (use --contract or set CONTRACT_ADDRESS)"@,
        Error::NotPrepared => "Transaction has not been prepared"@,
        Error::MissingFeeMarketField => "Missing fee-market field: max_fee_per_gas and max_priority_fee_per_gas are required for EIP-1559"@,
        Error::MissingGasPrice => "gas_price required for legacy transaction"@,
        Error::UnsupportedTransactionType { tx_type } => "Unsupported transaction type: "@
            + decimal_text(tx_type as nat),
        Error::InvalidAmount => "Amount is not a decimal number"@,
        Error::NonPositiveAmount => "Amount must be greater than zero"@,
        Error::DeadlinePassed => "Deadline must be in the future"@,
        Error::BytecodeNotFound => "Bytecode not found in artifact"@,
        Error::InvalidBytecode => "Contract bytecode is not valid hex"@,
        Error::EmptyBytecode => "Contract bytecode is empty"@,
        Error::AmountOutOfRange => "Gas limit or fee does not fit its transaction field"@,
        Error::CostOverflow => "Estimated cost does not fit in 256 bits"@,
        Error::InvalidPrivateKey => "Private key is not valid"@,
        Error::SignerMismatch => "Private key address does not match transaction from address"@,
        Error::SigningFailed => "Transaction could not be signed"@,
        Error::ChainIdMismatch { expected, actual } => "Chain ID mismatch! Expected "@ + decimal_text(
            expected as nat,
        ) + ", but connected to "@ + decimal_text(actual as nat),
        Error::HashDivergence => "Transaction hash from the network differs from the signed hash"@,
        Error::Rpc => "RPC call failed"@,
        Error::Timeout => "Timeout waiting for transaction receipt. Check a block explorer for the transaction; on a local test network, mine a block; then run broadcast again, which will not submit twice."@,
        Error::UnexpectedEvent => "Unexpected answer for the state of the broadcast"@,
        Error::MnemonicWordCount { words } => "Invalid mnemonic: expected 12 or 24 words, got "@
            + decimal_text(words as nat),
    }
}

impl Error {
    /// The failure in words.
    pub fn message(&self) -> (r: String)
        ensures
            r@ == error_text(*self),
    {
        match self {
            Error::MissingRpcUrl => String::from_str("No RPC URL provided or configured"),
            Error::MissingSignerAddress => String::from_str("SIGNER_ADDRESS not set in environment"),
            Error::MissingPrivateKey => String::from_str("PRIVATE_KEY not set in environment"),
            Error::MissingContractAddress => String::from_str(
                "Contract address required (use --contract or set CONTRACT_ADDRESS)",
            ),
            Error::NotPrepared => String::from_str("Transaction has not been prepared"),
            Error::MissingFeeMarketField => String::from_str(
                "Missing fee-market field: max_fee_per_gas and max_priority_fee_per_gas are required for EIP-1559",
            ),
            Error::MissingGasPrice => String::from_str("gas_price required for legacy transaction"),
            Error::UnsupportedTransactionType { tx_type } => {
                let n: u64 = *tx_type as u64;
                let number = U256::from_u64(n).to_decimal_string();
                String::from_str("Unsupported transaction type: ").concat(number.as_str())
            },
            Error::InvalidAmount => String::from_str("Amount is not a decimal number"),
            Error::NonPositiveAmount => String::from_str("Amount must be greater than zero"),
            Error::DeadlinePassed => String::from_str("Deadline must be in the future"),
            Error::BytecodeNotFound => String::from_str("Bytecode not found in artifact"),
            Error::InvalidBytecode => String::from_str("Contract bytecode is not valid hex"),
            Error::EmptyBytecode => String::from_str("Contract bytecode is empty"),
            Error::AmountOutOfRange => String::from_str(
                "Gas limit or fee does not fit its transaction field",
            ),
            Error::CostOverflow => String::from_str("Estimated cost does not fit in 256 bits"),
            Error::InvalidPrivateKey => String::from_str("Private key is not valid"),
            Error::SignerMismatch => String::from_str(
                "Private key address does not match transaction from address",
            ),
            Error::SigningFailed => String::from_str("Transaction could not be signed"),
            Error::ChainIdMismatch { expected, actual } => {
                let want = U256::from_u64(*expected).to_decimal_string();
                let got = U256::from_u64(*actual).to_decimal_string();
                String::from_str("Chain ID mismatch! Expected ").concat(want.as_str()).concat(
                    ", but connected to ",
                ).concat(got.as_str())
            },
            Error::HashDivergence => String::from_str(
                "Transaction hash from the network differs from the signed hash",
            ),
            Error::Rpc => String::from_str("RPC call failed"),
            Error::Timeout => String::from_str(
                "Timeout waiting for transaction receipt. Check a block explorer for the transaction; on a local test network, mine a block; then run broadcast again, which will not submit twice.",
            ),
            Error::UnexpectedEvent => String::from_str(
                "Unexpected answer for the state of the broadcast",
            ),
            Error::MnemonicWordCount { words } => {
                let count = U256::from_u64(*words).to_decimal_string();
                String::from_str("Invalid mnemonic: expected 12 or 24 words, got ").concat(
                    count.as_str(),
                )
            },
        }
    }
}

} // verus!
