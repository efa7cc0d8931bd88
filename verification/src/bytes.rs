//! Bytes: hexadecimal text, big-endian numbers and the Keccak hash.
use vstd::prelude::*;

use crate::num::{digit_char, digit_value};
use crate::text::{cat2, has_prefix, without_prefixes};

verus! {

/// The bytes `b` as lower-case hexadecimal digits, two to a byte.
pub open spec fn hex_of(b: Seq<u8>) -> Seq<char> {
    Seq::new(
        2 * b.len(),
        |i: int|
            digit_char(
                if i % 2 == 0 {
                    b[i / 2] as int / 16
                } else {
                    b[i / 2] as int % 16
                },
            ),
    )
}

/// The value of a hexadecimal digit, or 0 for any other character.
pub open spec fn hex_digit(c: char) -> int {
    match digit_value(c, 16) {
        Some(d) => d,
        None => 0,
    }
}

/// Whether every character is a hexadecimal digit.
pub open spec fn all_hex(t: Seq<char>) -> bool {
    forall|i: int| 0 <= i < t.len() ==> digit_value(#[trigger] t[i], 16) is Some
}

/// The bytes that hexadecimal digits state, two to a byte.
pub open spec fn hex_bytes(t: Seq<char>) -> Option<Seq<u8>> {
    if t.len() % 2 == 0 && all_hex(t) {
        Some(
            Seq::new(
                (t.len() / 2) as nat,
                |i: int| (16 * hex_digit(t[2 * i]) + hex_digit(t[2 * i + 1])) as u8,
            ),
        )
    } else {
        None
    }
}

/// The number that the bytes `b` state, most significant byte first.
pub open spec fn be_number(b: Seq<u8>) -> nat
    decreases b.len(),
{
    if b.len() == 0 {
        0
    } else {
        256 * be_number(b.drop_last()) + b.last() as nat
    }
}

/// The text of the error that `hex::decode` gives on `t`.
pub uninterp spec fn hex_error_text(t: Seq<char>) -> Seq<char>;

/// `hex::encode`: two lower-case digits to a byte.
#[verifier::external_body]
pub(crate) fn hex_encode(b: &[u8]) -> (r: String)
    ensures
        r@ == hex_of(b@),
{
    hex::encode(b)
}

/// `hex::decode`: reads two digits of either case to a byte and refuses an odd number of characters
/// or any other character. The text of the error only has a name.
#[verifier::external_body]
pub(crate) fn hex_decode(t: &str) -> (r: Result<Vec<u8>, String>)
    ensures
        match r {
            Ok(b) => hex_bytes(t@) == Some(b@),
            Err(e) => hex_bytes(t@) is None && e@ == hex_error_text(t@),
        },
{
    hex::decode(t).map_err(|e| e.to_string())
}

/// The Keccak-256 hash of `b`.
pub uninterp spec fn keccak(b: Seq<u8>) -> Seq<u8>;

/// `sha3::Keccak256::digest`: a hash of 32 bytes.
#[verifier::external_body]
pub(crate) fn keccak256(b: &[u8]) -> (r: [u8; 32])
    ensures
        r@ == keccak(b@),
{
    <sha3::Keccak256 as sha3::Digest>::digest(b).into()
}

/// The text `0x` and the bytes in hexadecimal.
pub open spec fn hex_0x(b: Seq<u8>) -> Seq<char> {
    "0x"@ + hex_of(b)
}

/// The text `0x` and the bytes in hexadecimal.
pub fn to_hex_0x(b: &[u8]) -> (r: String)
    ensures
        r@ == hex_0x(b@),
{
    let t = hex_encode(b);
    cat2("0x", t.as_str())
}

/// Reading the hexadecimal digits of some bytes gives the bytes back.
pub proof fn law_hex_round_trip(b: Seq<u8>)
    ensures
        hex_bytes(hex_of(b)) == Some(b),
{
    let t = hex_of(b);
    assert forall|i: int| 0 <= i < t.len() implies digit_value(#[trigger] t[i], 16) is Some by {
        let x = b[i / 2] as int;
        assert(0 <= x / 16 < 16 && 0 <= x % 16 < 16);
    }
    assert forall|i: int| 0 <= i < b.len() implies hex_bytes(t)->0[i] == b[i] by {
        let x = b[i] as int;
        assert(t[2 * i] == digit_char(x / 16));
        assert(t[2 * i + 1] == digit_char(x % 16));
        assert(hex_digit(t[2 * i]) == x / 16);
        assert(hex_digit(t[2 * i + 1]) == x % 16);
    }
    assert(hex_bytes(t)->0 =~= b);
}

/// A hexadecimal digit is no `x`.
pub proof fn lemma_digit_not_x(d: int)
    requires
        0 <= d < 16,
    ensures
        digit_char(d) != 'x',
{
}

/// The prefix `0x` stands before hexadecimal digits once.
pub proof fn lemma_strip_hex_0x(b: Seq<u8>)
    ensures
        without_prefixes(hex_0x(b), "0x"@) == hex_of(b),
{
    reveal_strlit("0x");
    let p = "0x"@;
    let t = hex_of(b);
    let s = hex_0x(b);
    assert(p.len() == 2 && p[0] == '0' && p[1] == 'x');
    assert(s.take(2) =~= p);
    assert(s.skip(2) =~= t);
    if has_prefix(t, p) {
        assert(t.take(2)[1] == 'x');
        let x = b[0] as int;
        assert(t[1] == digit_char(x % 16));
        lemma_digit_not_x(x % 16);
    }
    assert(without_prefixes(s, p) == without_prefixes(t, p));
}

/// Leading zero bytes do not change the number.
pub proof fn lemma_be_leading_zeros(b: Seq<u8>, n: int)
    requires
        0 <= n <= b.len(),
        forall|i: int| 0 <= i < n ==> b[i] == 0,
    ensures
        be_number(b) == be_number(b.skip(n)),
    decreases b.len(),
{
    if n == b.len() {
        if b.len() > 0 {
            lemma_be_leading_zeros(b.drop_last(), n - 1);
            assert(b.drop_last().skip(n - 1).len() == 0);
        }
        assert(b.skip(n).len() == 0);
    } else {
        lemma_be_leading_zeros(b.drop_last(), n);
        assert(b.skip(n).drop_last() =~= b.drop_last().skip(n));
        assert(b.skip(n).last() == b.last());
    }
}

} // verus!
