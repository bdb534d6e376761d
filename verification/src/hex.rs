//! Bytes as hex text, and back.

use crate::types::{Address, TxHash};
use crate::uint::{decimal_digit, digit_value};
use vstd::prelude::*;

verus! {

/// One hex digit in lower case.
pub open spec fn hex_digit(n: nat) -> char {
    if n < 10 {
        decimal_digit(n)
    } else if n == 10 {
        'a'
    } else if n == 11 {
        'b'
    } else if n == 12 {
        'c'
    } else if n == 13 {
        'd'
    } else if n == 14 {
        'e'
    } else {
        'f'
    }
}

/// Bytes as hex digits in lower case, two for each byte.
pub open spec fn hex_text(bytes: Seq<u8>) -> Seq<char>
    decreases bytes.len(),
{
    if bytes.len() == 0 {
        Seq::empty()
    } else {
        hex_text(bytes.drop_last()).push(hex_digit(bytes.last() as nat / 16)).push(
            hex_digit(bytes.last() as nat % 16),
        )
    }
}

/// The `Debug` text of alloy's `B256`: `0x`, then the 32 bytes as hex digits
/// in lower case.
#[verifier::external_body]
pub(crate) fn hash_text(hash: &TxHash) -> (r: String)
    ensures
        r@ == "0x"@ + hex_text(hash@),
{
    format!("{:?}", alloy::primitives::B256::from(hash.bytes))
}

/// What a character counts as a hex digit.
pub open spec fn hex_value(c: char) -> Option<nat> {
    match digit_value(c) {
        Some(d) => if d < 16 {
            Some(d)
        } else {
            None
        },
        None => None,
    }
}

/// The bytes that pairs of hex digits stand for; `None` for an odd number of
/// characters or a character that is no hex digit.
pub open spec fn hex_pairs(s: Seq<char>) -> Option<Seq<u8>>
    decreases s.len(),
{
    if s.len() == 0 {
        Some(Seq::empty())
    } else if s.len() == 1 {
        None
    } else {
        match (
            hex_pairs(s.subrange(0, s.len() - 2)),
            hex_value(s[s.len() - 2]),
            hex_value(s[s.len() - 1]),
        ) {
            (Some(bytes), Some(high), Some(low)) => Some(bytes.push((high * 16 + low) as u8)),
            _ => None,
        }
    }
}

/// The bytes that hex text stands for, with or without `0x` before it.
pub open spec fn hex_decoded(s: Seq<char>) -> Option<Seq<u8>> {
    if s.len() >= 2 && s[0] == '0' && (s[1] == 'x' || s[1] == 'X') {
        hex_pairs(s.skip(2))
    } else {
        hex_pairs(s)
    }
}

/// `hex::decode` of alloy (const-hex): it strips `0x` or `0X`, takes hex
/// digits of either case two by two, and fails on an odd length and on any
/// other character.
#[verifier::external_body]
pub(crate) fn hex_decode(text: &str) -> (r: Option<Vec<u8>>)
    ensures
        match r {
            Some(bytes) => hex_decoded(text@) == Some(bytes@),
            None => hex_decoded(text@) is None,
        },
{
    alloy::primitives::hex::decode(text).ok()
}

/// A hex digit's character counts as that digit.
proof fn lemma_hex_digit_value(n: nat)
    requires
        n < 16,
    ensures
        hex_value(hex_digit(n)) == Some(n),
        hex_digit(n) != 'x' && hex_digit(n) != 'X',
{
}

/// What `hex_text` writes has two characters for each byte and is read back
/// as the bytes it was written for.
pub proof fn lemma_hex_text(bytes: Seq<u8>)
    ensures
        hex_text(bytes).len() == 2 * bytes.len(),
        hex_pairs(hex_text(bytes)) == Some(bytes),
        bytes.len() > 0 ==> hex_text(bytes)[1] != 'x' && hex_text(bytes)[1] != 'X',
    decreases bytes.len(),
{
    if bytes.len() > 0 {
        let head = bytes.drop_last();
        let last = bytes.last() as nat;
        lemma_hex_text(head);
        lemma_hex_digit_value(last / 16);
        lemma_hex_digit_value(last % 16);
        let t = hex_text(bytes);
        assert(t.subrange(0, t.len() - 2) =~= hex_text(head));
        assert(t[t.len() - 2] == hex_digit(last / 16));
        assert(t[t.len() - 1] == hex_digit(last % 16));
        assert(((last / 16) * 16 + last % 16) as u8 == bytes.last());
        assert(head.push(bytes.last()) =~= bytes);
        if head.len() > 0 {
            assert(t[1] == hex_text(head)[1]);
        }
    }
}

/// Writing bytes as hex and reading the text back gives the bytes, with and
/// without `0x` before the digits.
pub proof fn lemma_hex_round_trip(bytes: Seq<u8>)
    ensures
        hex_decoded(hex_text(bytes)) == Some(bytes),
        hex_decoded("0x"@ + hex_text(bytes)) == Some(bytes),
{
    lemma_hex_text(bytes);
    reveal_strlit("0x");
    let prefixed = "0x"@ + hex_text(bytes);
    assert(prefixed.skip(2) =~= hex_text(bytes));
    assert(prefixed[0] == '0' && prefixed[1] == 'x');
}

/// The `FromStr` of alloy's `Address`: 40 hex digits of either case, with or
/// without `0x` before them; no checksum is asked for.
#[verifier::external_body]
pub(crate) fn address_from_str(text: &str) -> (r: Option<Address>)
    ensures
        match r {
            Some(a) => hex_decoded(text@) == Some(a@),
            None => !(hex_decoded(text@) matches Some(bytes) && bytes.len() == 20),
        },
{
    let parsed: Result<alloy::primitives::Address, _> = text.parse();
    parsed.ok().map(|a| Address { bytes: a.into_array() })
}

/// The address that a text names.
pub open spec fn parsed_address(text: Seq<char>) -> Option<Seq<u8>> {
    match hex_decoded(text) {
        Some(bytes) => if bytes.len() == 20 {
            Some(bytes)
        } else {
            None
        },
        None => None,
    }
}

/// Reads an address from hex text.
pub fn parse_address(text: &str) -> (r: Option<Address>)
    ensures
        crate::types::address_of(r) == parsed_address(text@),
{
    address_from_str(text)
}

} // verus!
