//! 256-bit unsigned integers, held as four 64-bit limbs.
//!
//! The arithmetic itself is done by `ruint` (the `U256` of `alloy::primitives`);
//! this module states what each operation returns over the mathematical value
//! of the limbs.

use vstd::prelude::*;

verus! {

/// 2^64, the weight of the second limb.
pub open spec fn limb_base() -> nat {
    0x1_0000_0000_0000_0000
}

/// 2^256, one more than the largest value a [`U256`] holds.
pub open spec fn u256_modulus() -> nat {
    limb_base() * limb_base() * limb_base() * limb_base()
}

/// The value of four limbs, least significant first.
pub open spec fn limbs_value(l0: u64, l1: u64, l2: u64, l3: u64) -> nat {
    (l0 as nat) + (l1 as nat) * limb_base() + (l2 as nat) * limb_base() * limb_base() + (l3 as nat)
        * limb_base() * limb_base() * limb_base()
}

/// An unsigned integer below 2^256.
#[derive(Clone, Copy, Debug, PartialEq, Eq, Structural)]
pub struct U256 {
    /// Bits 0..64.
    pub l0: u64,
    /// Bits 64..128.
    pub l1: u64,
    /// Bits 128..192.
    pub l2: u64,
    /// Bits 192..256.
    pub l3: u64,
}

impl View for U256 {
    type V = nat;

    open spec fn view(&self) -> nat {
        limbs_value(self.l0, self.l1, self.l2, self.l3)
    }
}

/// Every `U256` is below 2^256.
pub proof fn lemma_u256_bounded(x: U256)
    ensures
        x@ < u256_modulus(),
{
    let b = limb_base() as int;
    let v1 = x.l1 as int;
    let v2 = x.l2 as int;
    let v3 = x.l3 as int;
    assert(v1 * b <= (b - 1) * b) by (nonlinear_arith)
        requires
            0 <= v1 <= b - 1,
            b > 0,
    ;
    assert(v2 * b * b <= (b - 1) * b * b) by (nonlinear_arith)
        requires
            0 <= v2 <= b - 1,
            b > 0,
    ;
    assert(v3 * b * b * b <= (b - 1) * b * b * b) by (nonlinear_arith)
        requires
            0 <= v3 <= b - 1,
            b > 0,
    ;
    assert((b - 1) + (b - 1) * b + (b - 1) * b * b + (b - 1) * b * b * b == b * b * b * b - 1)
        by (nonlinear_arith);
}

/// Two `U256` with the same value have the same limbs.
pub proof fn lemma_u256_view_injective(x: U256, y: U256)
    requires
        x@ == y@,
    ensures
        x == y,
{
    let b = limb_base() as int;
    let hx = (x.l1 as int) + (x.l2 as int) * b + (x.l3 as int) * b * b;
    let hy = (y.l1 as int) + (y.l2 as int) * b + (y.l3 as int) * b * b;
    assert(x@ == (x.l0 as int) + hx * b) by (nonlinear_arith)
        requires
            x@ == (x.l0 as int) + (x.l1 as int) * b + (x.l2 as int) * b * b + (x.l3 as int) * b * b
                * b,
            hx == (x.l1 as int) + (x.l2 as int) * b + (x.l3 as int) * b * b,
    ;
    assert(y@ == (y.l0 as int) + hy * b) by (nonlinear_arith)
        requires
            y@ == (y.l0 as int) + (y.l1 as int) * b + (y.l2 as int) * b * b + (y.l3 as int) * b * b
                * b,
            hy == (y.l1 as int) + (y.l2 as int) * b + (y.l3 as int) * b * b,
    ;
    lemma_split_unique(x.l0 as int, hx, y.l0 as int, hy);
    let gx = (x.l2 as int) + (x.l3 as int) * b;
    let gy = (y.l2 as int) + (y.l3 as int) * b;
    assert(hx == (x.l1 as int) + gx * b) by (nonlinear_arith)
        requires
            hx == (x.l1 as int) + (x.l2 as int) * b + (x.l3 as int) * b * b,
            gx == (x.l2 as int) + (x.l3 as int) * b,
    ;
    assert(hy == (y.l1 as int) + gy * b) by (nonlinear_arith)
        requires
            hy == (y.l1 as int) + (y.l2 as int) * b + (y.l3 as int) * b * b,
            gy == (y.l2 as int) + (y.l3 as int) * b,
    ;
    lemma_split_unique(x.l1 as int, gx, y.l1 as int, gy);
    lemma_split_unique(x.l2 as int, x.l3 as int, y.l2 as int, y.l3 as int);
}

/// A number has one low limb and one high part.
proof fn lemma_split_unique(lo1: int, hi1: int, lo2: int, hi2: int)
    requires
        0 <= lo1 < limb_base(),
        0 <= lo2 < limb_base(),
        lo1 + hi1 * limb_base() == lo2 + hi2 * limb_base(),
    ensures
        lo1 == lo2,
        hi1 == hi2,
{
    let b = limb_base() as int;
    assert(hi1 == hi2) by (nonlinear_arith)
        requires
            0 <= lo1 < b,
            0 <= lo2 < b,
            lo1 + hi1 * b == lo2 + hi2 * b,
    ;
}

impl U256 {
    /// Zero.
    pub fn zero() -> (r: U256)
        ensures
            r@ == 0,
    {
        U256 { l0: 0, l1: 0, l2: 0, l3: 0 }
    }

    /// The `U256` with the value of `x`.
    pub fn from_u64(x: u64) -> (r: U256)
        ensures
            r@ == x,
    {
        U256 { l0: x, l1: 0, l2: 0, l3: 0 }
    }

    /// The `U256` with the value of `x`.
    pub fn from_u128(x: u128) -> (r: U256)
        ensures
            r@ == x,
    {
        let lo: u64 = (x & 0xffff_ffff_ffff_ffff) as u64;
        let hi: u64 = (x >> 64) as u64;
        assert(x == (x & 0xffff_ffff_ffff_ffff) + (x >> 64) * 0x1_0000_0000_0000_0000) by (bit_vector);
        assert((x & 0xffff_ffff_ffff_ffff) < 0x1_0000_0000_0000_0000) by (bit_vector);
        assert((x >> 64) < 0x1_0000_0000_0000_0000) by (bit_vector);
        U256 { l0: lo, l1: hi, l2: 0, l3: 0 }
    }

    /// Whether the value is zero.
    pub fn is_zero(&self) -> (r: bool)
        ensures
            r == (self@ == 0),
    {
        self.l0 == 0 && self.l1 == 0 && self.l2 == 0 && self.l3 == 0
    }

    /// The value as a `u64`, if it fits.
    pub fn as_u64(&self) -> (r: Option<u64>)
        ensures
            r == (if self@ <= u64::MAX {
                Some(self@ as u64)
            } else {
                None
            }),
    {
        if self.l1 == 0 && self.l2 == 0 && self.l3 == 0 {
            Some(self.l0)
        } else {
            proof {
                lemma_high_limbs(*self);
            }
            None
        }
    }

    /// The value as a `u128`, if it fits.
    pub fn as_u128(&self) -> (r: Option<u128>)
        ensures
            r == (if self@ <= u128::MAX {
                Some(self@ as u128)
            } else {
                None
            }),
    {
        if self.l2 == 0 && self.l3 == 0 {
            let lo: u128 = self.l0 as u128;
            let hi: u128 = self.l1 as u128;
            assert(hi * 0x1_0000_0000_0000_0000 <= 0xffff_ffff_ffff_ffff * 0x1_0000_0000_0000_0000)
                by (nonlinear_arith)
                requires
                    hi <= 0xffff_ffff_ffff_ffff,
            ;
            Some(lo + hi * 0x1_0000_0000_0000_0000)
        } else {
            proof {
                lemma_high_limbs(*self);
            }
            None
        }
    }

    /// The value in decimal digits, without sign or leading zeros.
    pub fn to_decimal_string(&self) -> (r: String)
        ensures
            r@ == decimal_text(self@),
    {
        uint_to_string(*self)
    }

    /// Reads a number from text: decimal digits, or digits in base 16, 8 or 2
    /// after the prefix `0x`, `0o` or `0b`; `_` may separate digits.
    pub fn parse(text: &str) -> (r: Option<U256>)
        ensures
            match r {
                Some(v) => parsed_uint(text@) == Some(v@),
                None => parsed_uint(text@) is None,
            },
    {
        uint_from_str(text)
    }
}

/// A `U256` with a limb set above the first is at least 2^64, and one with a
/// limb set above the second is at least 2^128.
proof fn lemma_high_limbs(x: U256)
    ensures
        (x.l1 != 0 || x.l2 != 0 || x.l3 != 0) ==> x@ > u64::MAX,
        (x.l2 != 0 || x.l3 != 0) ==> x@ > u128::MAX,
{
    let b = limb_base() as int;
    let v1 = x.l1 as int;
    let v2 = x.l2 as int;
    let v3 = x.l3 as int;
    assert(v1 * b >= 0 && (v1 >= 1 ==> v1 * b >= b)) by (nonlinear_arith)
        requires
            v1 >= 0,
            b > 0,
    ;
    assert(v2 * b * b >= 0 && (v2 >= 1 ==> v2 * b * b >= b * b)) by (nonlinear_arith)
        requires
            v2 >= 0,
            b > 0,
    ;
    assert(v3 * b * b * b >= 0 && (v3 >= 1 ==> v3 * b * b * b >= b * b)) by (nonlinear_arith)
        requires
            v3 >= 0,
            b >= 1,
    ;
    assert(b * b == 0x1_0000_0000_0000_0000_0000_0000_0000_0000) by (nonlinear_arith)
        requires
            b == 0x1_0000_0000_0000_0000,
    ;
}

/// The character of one decimal digit.
pub open spec fn decimal_digit(d: nat) -> char {
    if d == 0 {
        '0'
    } else if d == 1 {
        '1'
    } else if d == 2 {
        '2'
    } else if d == 3 {
        '3'
    } else if d == 4 {
        '4'
    } else if d == 5 {
        '5'
    } else if d == 6 {
        '6'
    } else if d == 7 {
        '7'
    } else if d == 8 {
        '8'
    } else {
        '9'
    }
}

/// A number in decimal digits: no sign, no leading zero but for zero itself.
pub open spec fn decimal_text(n: nat) -> Seq<char>
    decreases n,
{
    if n < 10 {
        seq![decimal_digit(n)]
    } else {
        decimal_text(n / 10).push(decimal_digit(n % 10))
    }
}

/// What a character counts as a digit: `0`-`9`, then the letters of either
/// case from 10 on.
pub open spec fn digit_value(c: char) -> Option<nat> {
    if '0' <= c && c <= '9' {
        Some((c as nat - '0' as nat) as nat)
    } else if 'a' <= c && c <= 'z' {
        Some((c as nat - 'a' as nat + 10) as nat)
    } else if 'A' <= c && c <= 'Z' {
        Some((c as nat - 'A' as nat + 10) as nat)
    } else {
        None
    }
}

/// The value of a run of digits in a base of at most 36. `_` is skipped; a
/// character that is no digit of the base makes the whole run invalid.
pub open spec fn digits_value(s: Seq<char>, radix: nat) -> Option<nat>
    decreases s.len(),
{
    if s.len() == 0 {
        Some(0)
    } else {
        match digits_value(s.drop_last(), radix) {
            None => None,
            Some(v) => {
                if s.last() == '_' {
                    Some(v)
                } else {
                    match digit_value(s.last()) {
                        Some(d) => if d < radix {
                            Some(v * radix + d)
                        } else {
                            None
                        },
                        None => None,
                    }
                }
            },
        }
    }
}

/// The base that a number's text is written in, by its first two characters.
pub open spec fn text_radix(s: Seq<char>) -> nat {
    if s.len() >= 2 && s[0] == '0' && (s[1] == 'x' || s[1] == 'X') {
        16
    } else if s.len() >= 2 && s[0] == '0' && (s[1] == 'o' || s[1] == 'O') {
        8
    } else if s.len() >= 2 && s[0] == '0' && (s[1] == 'b' || s[1] == 'B') {
        2
    } else {
        10
    }
}

/// The number that a text stands for, where it is one below 2^256.
pub open spec fn parsed_uint(s: Seq<char>) -> Option<nat> {
    let radix = text_radix(s);
    let digits = if radix == 10 {
        s
    } else {
        s.skip(2)
    };
    match digits_value(digits, radix) {
        Some(v) => if v < u256_modulus() {
            Some(v)
        } else {
            None
        },
        None => None,
    }
}

/// A number as `len` bytes, most significant first (the number modulo
/// 256^`len`, where it is larger).
pub open spec fn big_endian(n: nat, len: nat) -> Seq<u8>
    decreases len,
{
    if len == 0 {
        Seq::empty()
    } else {
        big_endian(n / 256, (len - 1) as nat).push((n % 256) as u8)
    }
}

/// A decimal digit's character counts as that digit.
proof fn lemma_decimal_digit_value(d: nat)
    requires
        d < 10,
    ensures
        digit_value(decimal_digit(d)) == Some(d),
        '0' <= decimal_digit(d) && decimal_digit(d) <= '9',
{
}

/// What `decimal_text` writes is made of decimal digits alone and is read as
/// the number it was written for.
pub proof fn lemma_decimal_text(n: nat)
    ensures
        decimal_text(n).len() >= 1,
        forall|i: int|
            0 <= i < decimal_text(n).len() ==> '0' <= #[trigger] decimal_text(n)[i]
                && decimal_text(n)[i] <= '9',
        digits_value(decimal_text(n), 10) == Some(n),
    decreases n,
{
    if n < 10 {
        lemma_decimal_digit_value(n);
        let t = decimal_text(n);
        assert(t.drop_last() =~= Seq::<char>::empty());
        assert(digits_value(t.drop_last(), 10) == Some(0nat));
    } else {
        lemma_decimal_text(n / 10);
        lemma_decimal_digit_value(n % 10);
        let t = decimal_text(n);
        let head = decimal_text(n / 10);
        assert(t.drop_last() =~= head);
        assert(t.last() == decimal_digit(n % 10));
        assert((n / 10) * 10 + n % 10 == n);
    }
}

/// Writing a number in decimal and reading the text back gives the number:
/// a wide integer survives its string encoding exactly. Whatever `U256` is
/// read back from the text of `x` is `x`, limb for limb.
pub proof fn lemma_decimal_round_trip(x: U256)
    ensures
        parsed_uint(decimal_text(x@)) == Some(x@),
        forall|y: U256| parsed_uint(decimal_text(x@)) == Some(#[trigger] y@) ==> y == x,
{
    assert forall|y: U256| parsed_uint(decimal_text(x@)) == Some(#[trigger] y@) implies y == x by {
        lemma_decimal_value(x);
        lemma_u256_view_injective(x, y);
    }
    lemma_decimal_value(x);
}

/// The text of a number is read as that number.
proof fn lemma_decimal_value(x: U256)
    ensures
        parsed_uint(decimal_text(x@)) == Some(x@),
{
    lemma_decimal_text(x@);
    lemma_u256_bounded(x);
    let t = decimal_text(x@);
    if t.len() >= 2 {
        assert('0' <= t[1] && t[1] <= '9');
    }
    assert(text_radix(t) == 10);
}

/// `Uint::checked_add` of ruint: the sum of the two numbers, `None` exactly
/// where the sum is 2^256 or more. The limbs go in and come out least
/// significant first (`from_limbs`, `into_limbs`).
#[verifier::external_body]
pub(crate) fn uint_checked_add(a: U256, b: U256) -> (r: Option<U256>)
    ensures
        match r {
            Some(v) => v@ == a@ + b@,
            None => a@ + b@ >= u256_modulus(),
        },
{
    let x = alloy::primitives::U256::from_limbs([a.l0, a.l1, a.l2, a.l3]);
    let y = alloy::primitives::U256::from_limbs([b.l0, b.l1, b.l2, b.l3]);
    x.checked_add(y).map(|v| v.into_limbs()).map(|l| U256 { l0: l[0], l1: l[1], l2: l[2], l3: l[3] })
}

/// `Uint::checked_mul` of ruint: the product of the two numbers, `None`
/// exactly where the product is 2^256 or more.
#[verifier::external_body]
pub(crate) fn uint_checked_mul(a: U256, b: U256) -> (r: Option<U256>)
    ensures
        match r {
            Some(v) => v@ == a@ * b@,
            None => a@ * b@ >= u256_modulus(),
        },
{
    let x = alloy::primitives::U256::from_limbs([a.l0, a.l1, a.l2, a.l3]);
    let y = alloy::primitives::U256::from_limbs([b.l0, b.l1, b.l2, b.l3]);
    x.checked_mul(y).map(|v| v.into_limbs()).map(|l| U256 { l0: l[0], l1: l[1], l2: l[2], l3: l[3] })
}

/// `Uint::div_rem` of ruint: quotient and remainder. It panics on a zero
/// divisor, which the precondition leaves out.
#[verifier::external_body]
pub(crate) fn uint_div_rem(a: U256, b: U256) -> (r: (U256, U256))
    requires
        b@ != 0,
    ensures
        r.0@ == a@ / b@,
        r.1@ == a@ % b@,
{
    let x = alloy::primitives::U256::from_limbs([a.l0, a.l1, a.l2, a.l3]);
    let y = alloy::primitives::U256::from_limbs([b.l0, b.l1, b.l2, b.l3]);
    let (q, m) = x.div_rem(y);
    let (q, m) = (q.into_limbs(), m.into_limbs());
    (U256 { l0: q[0], l1: q[1], l2: q[2], l3: q[3] }, U256 { l0: m[0], l1: m[1], l2: m[2], l3: m[3] })
}

/// The `Display` of ruint's `Uint`: the number in decimal digits.
#[verifier::external_body]
pub(crate) fn uint_to_string(a: U256) -> (r: String)
    ensures
        r@ == decimal_text(a@),
{
    alloy::primitives::U256::from_limbs([a.l0, a.l1, a.l2, a.l3]).to_string()
}

/// The `FromStr` of ruint's `Uint`: it picks the base by the prefix (`0x`,
/// `0o`, `0b`, in either case; decimal without one), skips `_`, takes letters
/// of either case as digits, and fails on any other character, on a digit that
/// the base does not have, and on a value of 2^256 or more. An empty run of
/// digits is zero.
#[verifier::external_body]
pub(crate) fn uint_from_str(text: &str) -> (r: Option<U256>)
    ensures
        match r {
            Some(v) => parsed_uint(text@) == Some(v@),
            None => parsed_uint(text@) is None,
        },
{
    let parsed: Result<alloy::primitives::U256, _> = text.parse();
    parsed.ok().map(|v| v.into_limbs()).map(|l| U256 { l0: l[0], l1: l[1], l2: l[2], l3: l[3] })
}

/// `Uint::to_be_bytes_vec` of ruint: the 32 bytes of the number, most
/// significant first.
#[verifier::external_body]
pub(crate) fn uint_to_be_bytes(a: U256) -> (r: Vec<u8>)
    ensures
        r@ == big_endian(a@, 32),
{
    alloy::primitives::U256::from_limbs([a.l0, a.l1, a.l2, a.l3]).to_be_bytes_vec()
}

} // verus!
