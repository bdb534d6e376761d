//! The calls of the inheritance contract, as bytes: a four-byte selector and
//! one 32-byte word for each argument.

use crate::error::Error;
use crate::types::{amount_of, Address};
use crate::hex::{hex_decode, hex_decoded};
use crate::uint::{big_endian, uint_to_be_bytes, U256};
use vstd::prelude::*;
use vstd::string::StringSliceAdditionalSpecFns;

verus! {

/// The Keccak-256 hash of bytes: 32 bytes.
pub uninterp spec fn keccak256_of(data: Seq<u8>) -> Seq<u8>;

/// `keccak256` of alloy: the Keccak-256 hash.
#[verifier::external_body]
pub(crate) fn keccak256(data: &[u8]) -> (r: [u8; 32])
    ensures
        r@ == keccak256_of(data@),
{
    alloy::primitives::keccak256(data).0
}

/// The selector of a function: the first four bytes of the hash of its
/// signature.
pub open spec fn function_selector(signature: Seq<u8>) -> Seq<u8> {
    keccak256_of(signature).subrange(0, 4)
}

/// An address as a 32-byte word: twelve zero bytes, then the address.
pub open spec fn address_word(a: Seq<u8>) -> Seq<u8> {
    Seq::new(12, |i: int| 0u8) + a
}

/// A number as a 32-byte word, most significant byte first.
pub open spec fn uint_word(n: nat) -> Seq<u8> {
    big_endian(n, 32)
}

/// The signature of `deposit`.
pub open spec fn deposit_signature() -> Seq<u8> {
    "deposit(address,uint256,uint256,address)".spec_bytes()
}

/// The signature of `claim`.
pub open spec fn claim_signature() -> Seq<u8> {
    "claim(uint256)".spec_bytes()
}

/// The signature of `reclaim`.
pub open spec fn reclaim_signature() -> Seq<u8> {
    "reclaim(uint256)".spec_bytes()
}

/// The signature of `extendDeadline`.
pub open spec fn extend_deadline_signature() -> Seq<u8> {
    "extendDeadline(uint256,uint256)".spec_bytes()
}

/// The signature of `transferFeeCollector`.
pub open spec fn transfer_fee_collector_signature() -> Seq<u8> {
    "transferFeeCollector(address)".spec_bytes()
}

/// The signature of `acceptFeeCollector`.
pub open spec fn accept_fee_collector_signature() -> Seq<u8> {
    "acceptFeeCollector()".spec_bytes()
}

/// The selector that a signature's hash holds: its first four bytes.
pub fn selector_of(hash: &[u8; 32]) -> (r: Vec<u8>)
    ensures
        r@ == hash@.subrange(0, 4),
{
    let mut out: Vec<u8> = Vec::new();
    out.push(hash[0]);
    out.push(hash[1]);
    out.push(hash[2]);
    out.push(hash[3]);
    assert(out@ =~= hash@.subrange(0, 4));
    out
}

/// The selector of a function by its signature.
fn selector(signature: &str) -> (r: Vec<u8>)
    ensures
        r@ == function_selector(signature.spec_bytes()),
{
    let hash = keccak256(signature.as_bytes());
    selector_of(&hash)
}

/// Appends an address as a word.
pub fn push_address(out: &mut Vec<u8>, a: &Address)
    ensures
        final(out)@ == old(out)@ + address_word(a@),
{
    let ghost before = out@;
    let mut i: usize = 0;
    while i < 12
        invariant
            i <= 12,
            out@ == before + Seq::new(i as nat, |j: int| 0u8),
        decreases 12 - i,
    {
        out.push(0u8);
        i += 1;
        assert(out@ =~= before + Seq::new(i as nat, |j: int| 0u8));
    }
    let mut k: usize = 0;
    while k < 20
        invariant
            k <= 20,
            out@ == before + Seq::new(12, |j: int| 0u8) + a@.subrange(0, k as int),
        decreases 20 - k,
    {
        out.push(a.bytes[k]);
        k += 1;
        assert(out@ =~= before + Seq::new(12, |j: int| 0u8) + a@.subrange(0, k as int));
    }
    assert(a@.subrange(0, 20) =~= a@);
    assert(out@ =~= before + address_word(a@));
}

/// Appends a number as a word.
pub fn push_uint(out: &mut Vec<u8>, n: &U256)
    ensures
        final(out)@ == old(out)@ + uint_word(n@),
{
    let word = uint_to_be_bytes(*n);
    out.extend_from_slice(word.as_slice());
}

/// What a deposit sends along: the amount for a deposit of the native
/// currency, nothing for a deposit of a token.
pub open spec fn deposit_value(amount: nat, token: Option<Seq<u8>>) -> Option<nat> {
    match token {
        None => Some(amount),
        Some(_) => None,
    }
}

/// The call data of a deposit. A deposit of the native currency names the
/// zero address as its token.
pub open spec fn deposit_call(
    beneficiary: Seq<u8>,
    amount: nat,
    deadline: u64,
    token: Option<Seq<u8>>,
) -> Seq<u8> {
    function_selector(deposit_signature()) + address_word(beneficiary) + uint_word(amount)
        + uint_word(deadline as nat) + address_word(
        match token {
            Some(t) => t,
            None => Seq::new(20, |i: int| 0u8),
        },
    )
}

/// Encodes a deposit, as call data and the value to send with it.
///
/// The amount has to be positive and the deadline has to lie after `now`
/// (both in seconds since the Unix epoch).
pub fn encode_deposit(
    beneficiary: Address,
    amount: U256,
    deadline: u64,
    token: Option<Address>,
    now: i64,
) -> (r: Result<(Vec<u8>, Option<U256>), Error>)
    ensures
        match r {
            Ok((data, value)) => {
                &&& amount@ != 0
                &&& deadline > now
                &&& data@ == deposit_call(
                    beneficiary@,
                    amount@,
                    deadline,
                    crate::types::address_of(token),
                )
                &&& amount_of(value) == deposit_value(amount@, crate::types::address_of(token))
            },
            Err(e) => if amount@ == 0 {
                e == Error::NonPositiveAmount
            } else {
                e == Error::DeadlinePassed && deadline <= now
            },
        },
{
    if amount.is_zero() {
        return Err(Error::NonPositiveAmount);
    }
    if now >= 0 && deadline <= now as u64 {
        return Err(Error::DeadlinePassed);
    }
    let (token_address, value) = match token {
        Some(t) => (t, None),
        None => (Address::zero(), Some(amount)),
    };
    let mut data = selector("deposit(address,uint256,uint256,address)");
    push_address(&mut data, &beneficiary);
    push_uint(&mut data, &amount);
    push_uint(&mut data, &U256::from_u64(deadline));
    push_address(&mut data, &token_address);
    Ok((data, value))
}

/// Encodes a claim of the inheritance `id`.
pub fn encode_claim(id: U256) -> (r: Result<Vec<u8>, Error>)
    ensures
        r matches Ok(data) && data@ == function_selector(claim_signature()) + uint_word(id@),
{
    let mut data = selector("claim(uint256)");
    push_uint(&mut data, &id);
    Ok(data)
}

/// Encodes a reclaim of the inheritance `id`.
pub fn encode_reclaim(id: U256) -> (r: Result<Vec<u8>, Error>)
    ensures
        r matches Ok(data) && data@ == function_selector(reclaim_signature()) + uint_word(id@),
{
    let mut data = selector("reclaim(uint256)");
    push_uint(&mut data, &id);
    Ok(data)
}

/// Encodes the extension of the deadline of the inheritance `id`. The new
/// deadline has to lie after `now`.
pub fn encode_extend_deadline(id: U256, new_deadline: u64, now: i64) -> (r: Result<Vec<u8>, Error>)
    ensures
        match r {
            Ok(data) => new_deadline > now && data@ == function_selector(extend_deadline_signature())
                + uint_word(id@) + uint_word(new_deadline as nat),
            Err(e) => e == Error::DeadlinePassed && new_deadline <= now,
        },
{
    if now >= 0 && new_deadline <= now as u64 {
        return Err(Error::DeadlinePassed);
    }
    let mut data = selector("extendDeadline(uint256,uint256)");
    push_uint(&mut data, &id);
    push_uint(&mut data, &U256::from_u64(new_deadline));
    Ok(data)
}

/// Encodes the hand-over of the fee collector's role.
pub fn encode_transfer_fee_collector(new_collector: Address) -> (r: Result<Vec<u8>, Error>)
    ensures
        r matches Ok(data) && data@ == function_selector(transfer_fee_collector_signature())
            + address_word(new_collector@),
{
    let mut data = selector("transferFeeCollector(address)");
    push_address(&mut data, &new_collector);
    Ok(data)
}

/// Encodes the acceptance of the fee collector's role.
pub fn encode_accept_fee_collector() -> (r: Result<Vec<u8>, Error>)
    ensures
        r matches Ok(data) && data@ == function_selector(accept_fee_collector_signature()),
{
    Ok(selector("acceptFeeCollector()"))
}

/// The bytecode that a compiled contract's artifact holds under
/// `bytecode.object`, if it holds any.
pub open spec fn bytecode_of(object: Option<Seq<char>>) -> Result<Seq<u8>, Error> {
    match object {
        None => Err(Error::BytecodeNotFound),
        Some(text) => match hex_decoded(text) {
            None => Err(Error::InvalidBytecode),
            Some(bytes) => if bytes.len() == 0 {
                Err(Error::EmptyBytecode)
            } else {
                Ok(bytes)
            },
        },
    }
}

/// Reads the deployment payload from the hex text that the contract's
/// artifact holds. It has to be there, be hex, and not be empty.
pub fn load_bytecode(object: Option<&str>) -> (r: Result<Vec<u8>, Error>)
    ensures
        match r {
            Ok(bytes) => bytecode_of(crate::network::slice_text(object)) == Ok::<Seq<u8>, Error>(
                bytes@,
            ),
            Err(e) => bytecode_of(crate::network::slice_text(object)) == Err::<Seq<u8>, Error>(e),
        },
{
    match object {
        None => Err(Error::BytecodeNotFound),
        Some(text) => match hex_decode(text) {
            None => Err(Error::InvalidBytecode),
            Some(bytes) => if bytes.len() == 0 {
                Err(Error::EmptyBytecode)
            } else {
                Ok(bytes)
            },
        },
    }
}

} // verus!
