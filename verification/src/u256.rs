//! Unsigned 256-bit integers, the numbers of the chain. The arithmetic is that of `alloy_primitives`.
use vstd::arithmetic::power::pow;
use vstd::prelude::*;

use crate::bytes::be_number;
use crate::num::{dec_text, digits_number};


verus! {

/// An unsigned 256-bit integer in four limbs, the least significant first.
#[derive(Clone, Copy)]
pub struct U256 {
    pub limbs: [u64; 4],
}

/// One more than the largest 256-bit number.
pub open spec fn word_base() -> nat {
    0x1_0000_0000_0000_0000_0000_0000_0000_0000_0000_0000_0000_0000_0000_0000_0000_0000nat
}

/// The number that four limbs state.
pub open spec fn limbs_number(l: Seq<u64>) -> nat {
    (l[0] + 0x1_0000_0000_0000_0000int * l[1] + 0x1_0000_0000_0000_0000_0000_0000_0000_0000int * l[2]
        + 0x1_0000_0000_0000_0000_0000_0000_0000_0000_0000_0000_0000_0000int * l[3]) as nat
}

impl View for U256 {
    type V = nat;

    open spec fn view(&self) -> nat {
        limbs_number(self.limbs@)
    }
}

/// The digits of a text without its underscores.
pub open spec fn without_underscores(s: Seq<char>) -> Seq<char> {
    s.filter(|c: char| c != '_')
}

/// The number below two to the 256 that a text states in decimal; underscores do not count, and no
/// digit at all states zero.
pub open spec fn parsed_u256(s: Seq<char>) -> Option<nat> {
    match digits_number(without_underscores(s), 10) {
        Some(n) => if n < word_base() {
            Some(n)
        } else {
            None
        },
        None => None,
    }
}

/// `Uint::from_str_radix` in base ten: underscores are skipped, no digit states zero, and any other
/// character or a number of more than 256 bits is refused.
#[verifier::external_body]
fn uint_from_decimal(s: &str) -> (r: Option<U256>)
    ensures
        match r {
            Some(n) => parsed_u256(s@) == Some(n@),
            None => parsed_u256(s@) is None,
        },
{
    let n = alloy_primitives::U256::from_str_radix(s, 10).ok()?;
    Some(U256 { limbs: n.into_limbs() })
}

/// `Display` of `Uint`: the decimal digits.
#[verifier::external_body]
fn uint_to_decimal(n: &U256) -> (r: String)
    ensures
        r@ == dec_text(n@),
{
    alloy_primitives::U256::from_limbs(n.limbs).to_string()
}

/// `Uint::checked_mul`: the product, unless it needs more than 256 bits.
#[verifier::external_body]
fn uint_checked_mul(a: &U256, b: &U256) -> (r: Option<U256>)
    ensures
        match r {
            Some(p) => p@ == a@ * b@,
            None => a@ * b@ >= word_base(),
        },
{
    let x = alloy_primitives::U256::from_limbs(a.limbs);
    let y = alloy_primitives::U256::from_limbs(b.limbs);
    x.checked_mul(y).map(|p| U256 { limbs: p.into_limbs() })
}

/// `Uint::wrapping_mul`, which is also the operator `*`: the product modulo two to the 256.
#[verifier::external_body]
fn uint_wrapping_mul(a: &U256, b: &U256) -> (r: U256)
    ensures
        r@ == (a@ * b@) % word_base(),
{
    let x = alloy_primitives::U256::from_limbs(a.limbs);
    let y = alloy_primitives::U256::from_limbs(b.limbs);
    U256 { limbs: x.wrapping_mul(y).into_limbs() }
}

/// `Uint::saturating_mul`: the product, or the largest number where it needs more than 256 bits.
#[verifier::external_body]
fn uint_saturating_mul(a: &U256, b: &U256) -> (r: U256)
    ensures
        r@ == (if a@ * b@ < word_base() { a@ * b@ } else { (word_base() - 1) as nat }),
{
    let x = alloy_primitives::U256::from_limbs(a.limbs);
    let y = alloy_primitives::U256::from_limbs(b.limbs);
    U256 { limbs: x.saturating_mul(y).into_limbs() }
}

/// `Uint::saturating_add`: the sum, or the largest number where it needs more than 256 bits.
#[verifier::external_body]
fn uint_saturating_add(a: &U256, b: &U256) -> (r: U256)
    ensures
        r@ == (if a@ + b@ < word_base() { a@ + b@ } else { (word_base() - 1) as nat }),
{
    let x = alloy_primitives::U256::from_limbs(a.limbs);
    let y = alloy_primitives::U256::from_limbs(b.limbs);
    U256 { limbs: x.saturating_add(y).into_limbs() }
}

/// `Uint::wrapping_sub`, which is also the operator `-`; here without wrapping.
#[verifier::external_body]
fn uint_sub(a: &U256, b: &U256) -> (r: U256)
    requires
        b@ <= a@,
    ensures
        r@ == a@ - b@,
{
    let x = alloy_primitives::U256::from_limbs(a.limbs);
    let y = alloy_primitives::U256::from_limbs(b.limbs);
    U256 { limbs: x.wrapping_sub(y).into_limbs() }
}

/// `Uint::wrapping_div`, which is also the operator `/`: the quotient rounded down. It panics on zero.
#[verifier::external_body]
fn uint_div(a: &U256, b: &U256) -> (r: U256)
    requires
        b@ > 0,
    ensures
        r@ == a@ / b@,
{
    let x = alloy_primitives::U256::from_limbs(a.limbs);
    let y = alloy_primitives::U256::from_limbs(b.limbs);
    U256 { limbs: x.wrapping_div(y).into_limbs() }
}

/// `Uint::to_be_bytes`: 32 bytes, most significant first.
#[verifier::external_body]
fn uint_to_be_bytes(n: &U256) -> (r: [u8; 32])
    ensures
        be_number(r@) == n@,
{
    alloy_primitives::U256::from_limbs(n.limbs).to_be_bytes::<32>()
}

/// `Uint::from_be_slice`: the number of bytes with the most significant first. It panics on more than
/// 32 bytes.
#[verifier::external_body]
fn uint_from_be_slice(b: &[u8]) -> (r: U256)
    requires
        b@.len() <= 32,
    ensures
        r@ == be_number(b@),
{
    U256 { limbs: alloy_primitives::U256::from_be_slice(b).into_limbs() }
}

/// The 32 bytes that state the number `n`, most significant first.
pub open spec fn be_word(n: nat) -> Seq<u8> {
    be_digits(n, 32)
}

/// The last `len` base-256 digits of `n`, most significant first.
pub open spec fn be_digits(n: nat, len: nat) -> Seq<u8>
    decreases len,
{
    if len == 0 {
        Seq::empty()
    } else {
        be_digits(n / 256, (len - 1) as nat).push((n % 256) as u8)
    }
}

/// Bytes are the digits of the number that they state.
pub proof fn lemma_be_digits(b: Seq<u8>)
    ensures
        be_digits(be_number(b), b.len()) == b,
    decreases b.len(),
{
    if b.len() == 0 {
        assert(be_digits(be_number(b), 0) =~= b);
    } else {
        lemma_be_digits(b.drop_last());
        let n = be_number(b.drop_last());
        assert((256 * n + b.last() as nat) / 256 == n);
        assert((256 * n + b.last() as nat) % 256 == b.last() as nat);
        assert(be_digits(be_number(b), b.len()) =~= b);
    }
}

impl U256 {
    /// The number zero.
    pub fn zero() -> (r: U256)
        ensures
            r@ == 0,
    {
        U256 { limbs: [0, 0, 0, 0] }
    }

    /// The largest number.
    pub fn max() -> (r: U256)
        ensures
            r@ == word_base() - 1,
    {
        U256 {
            limbs: [
                0xffff_ffff_ffff_ffff,
                0xffff_ffff_ffff_ffff,
                0xffff_ffff_ffff_ffff,
                0xffff_ffff_ffff_ffff,
            ],
        }
    }

    /// The number `n`.
    pub fn of_u64(n: u64) -> (r: U256)
        ensures
            r@ == n,
    {
        U256 { limbs: [n, 0, 0, 0] }
    }

    /// The number `n`.
    pub fn of_u128(n: u128) -> (r: U256)
        ensures
            r@ == n,
    {
        let low: u64 = (n % 0x1_0000_0000_0000_0000) as u64;
        let high: u64 = (n / 0x1_0000_0000_0000_0000) as u64;
        U256 { limbs: [low, high, 0, 0] }
    }

    /// The number as a `u128`, where it fits.
    pub fn to_u128(&self) -> (r: Option<u128>)
        ensures
            match r {
                Some(n) => n == self@,
                None => self@ > u128::MAX,
            },
    {
        if self.limbs[2] == 0 && self.limbs[3] == 0 {
            Some(self.limbs[0] as u128 + 0x1_0000_0000_0000_0000 * self.limbs[1] as u128)
        } else {
            None
        }
    }

    /// Whether the number is zero.
    pub fn is_zero(&self) -> (r: bool)
        ensures
            r == (self@ == 0),
    {
        self.limbs[0] == 0 && self.limbs[1] == 0 && self.limbs[2] == 0 && self.limbs[3] == 0
    }

    /// Whether the number is less than `other`.
    pub fn less(&self, other: &U256) -> (r: bool)
        ensures
            r == (self@ < other@),
    {
        if self.limbs[3] != other.limbs[3] {
            self.limbs[3] < other.limbs[3]
        } else if self.limbs[2] != other.limbs[2] {
            self.limbs[2] < other.limbs[2]
        } else if self.limbs[1] != other.limbs[1] {
            self.limbs[1] < other.limbs[1]
        } else {
            self.limbs[0] < other.limbs[0]
        }
    }

    /// The smaller of the two numbers.
    pub fn min(self, other: U256) -> (r: U256)
        ensures
            r@ == (if self@ <= other@ { self@ } else { other@ }),
    {
        if other.less(&self) {
            other
        } else {
            self
        }
    }

    /// The product, unless it needs more than 256 bits.
    pub fn checked_mul(&self, other: &U256) -> (r: Option<U256>)
        ensures
            match r {
                Some(p) => p@ == self@ * other@,
                None => self@ * other@ >= word_base(),
            },
    {
        uint_checked_mul(self, other)
    }

    /// The product modulo two to the 256.
    pub fn wrapping_mul(&self, other: &U256) -> (r: U256)
        ensures
            r@ == (self@ * other@) % word_base(),
    {
        uint_wrapping_mul(self, other)
    }

    /// The product, or the largest number where it needs more than 256 bits.
    pub fn saturating_mul(&self, other: &U256) -> (r: U256)
        ensures
            r@ == (if self@ * other@ < word_base() {
                self@ * other@
            } else {
                (word_base() - 1) as nat
            }),
    {
        uint_saturating_mul(self, other)
    }

    /// The sum, or the largest number where it needs more than 256 bits.
    pub fn saturating_add(&self, other: &U256) -> (r: U256)
        ensures
            r@ == (if self@ + other@ < word_base() {
                self@ + other@
            } else {
                (word_base() - 1) as nat
            }),
    {
        uint_saturating_add(self, other)
    }

    /// The difference.
    pub fn minus(&self, other: &U256) -> (r: U256)
        requires
            other@ <= self@,
        ensures
            r@ == self@ - other@,
    {
        uint_sub(self, other)
    }

    /// The quotient rounded down.
    pub fn div(&self, other: &U256) -> (r: U256)
        requires
            other@ > 0,
        ensures
            r@ == self@ / other@,
    {
        uint_div(self, other)
    }

    /// The 32 bytes that state the number, most significant first.
    pub fn to_be_bytes(&self) -> (r: [u8; 32])
        ensures
            r@ == be_word(self@),
    {
        let r = uint_to_be_bytes(self);
        proof {
            lemma_be_digits(r@);
        }
        r
    }

    /// The number that at most 32 bytes state, most significant first.
    pub fn from_be_slice(b: &[u8]) -> (r: U256)
        requires
            b@.len() <= 32,
        ensures
            r@ == be_number(b@),
    {
        uint_from_be_slice(b)
    }

    /// Reads decimal digits; underscores do not count.
    pub fn from_decimal(s: &str) -> (r: Option<U256>)
        ensures
            match r {
                Some(n) => parsed_u256(s@) == Some(n@),
                None => parsed_u256(s@) is None,
            },
    {
        uint_from_decimal(s)
    }

    /// The decimal digits.
    pub fn decimal(&self) -> (r: String)
        ensures
            r@ == dec_text(self@),
    {
        uint_to_decimal(self)
    }
}

/// The last `len` digits of a number that has no more state the number.
proof fn lemma_digits_state(n: nat, len: nat)
    requires
        n < pow(256, len),
    ensures
        be_number(be_digits(n, len)) == n,
    decreases len,
{
    reveal(pow);
    if len > 0 {
        let front = be_digits(n / 256, (len - 1) as nat);
        assert(n / 256 < pow(256, (len - 1) as nat)) by (nonlinear_arith)
            requires
                n < 256 * pow(256, (len - 1) as nat),
        ;
        lemma_digits_state(n / 256, (len - 1) as nat);
        assert(be_digits(n, len).drop_last() =~= front);
    }
}

/// The word of a number states the number.
pub proof fn law_word_round_trip(n: nat)
    requires
        n < word_base(),
    ensures
        be_number(be_word(n)) == n,
        be_word(n).len() == 32,
{
    assert(pow(256, 32) == word_base()) by {
        reveal_with_fuel(pow, 33);
    }
    lemma_digits_state(n, 32);
    lemma_digits_length(n, 32);
}

/// The word of any number has 32 bytes.
pub proof fn lemma_word_len(n: nat)
    ensures
        be_word(n).len() == 32,
{
    lemma_digits_length(n, 32);
}

proof fn lemma_digits_length(n: nat, len: nat)
    ensures
        be_digits(n, len).len() == len,
    decreases len,
{
    if len > 0 {
        lemma_digits_length(n / 256, (len - 1) as nat);
    }
}

/// A 256-bit integer states a number below two to the 256.
pub proof fn lemma_u256_bound(n: U256)
    ensures
        n@ < word_base(),
{
}

} // verus!
