//! Numbers as text: decimal and hexadecimal digits, read and written.
use vstd::prelude::*;

use crate::text::{cat2, chars_of};

verus! {

/// The character of the digit `d` in base sixteen, in lower case.
pub open spec fn digit_char(d: int) -> char {
    if d < 10 {
        (48 + d) as char
    } else {
        (87 + d) as char
    }
}

/// The value of the digit `c` in base `radix`.
pub open spec fn digit_value(c: char, radix: int) -> Option<int> {
    let d = if '0' <= c && c <= '9' {
        c as int - 48
    } else if 'a' <= c && c <= 'z' {
        c as int - 87
    } else if 'A' <= c && c <= 'Z' {
        c as int - 55
    } else {
        99
    };
    if d < radix {
        Some(d)
    } else {
        None
    }
}

/// `n` written in base `radix` without leading zeros.
pub open spec fn radix_text(n: nat, radix: nat) -> Seq<char>
    decreases n,
{
    if radix < 2 || n < radix {
        seq![digit_char(n as int)]
    } else {
        proof {
            assert(n / radix < n) by (nonlinear_arith)
                requires
                    n >= radix,
                    radix >= 2,
            ;
        }
        radix_text(n / radix, radix).push(digit_char((n % radix) as int))
    }
}

/// `n` in decimal.
pub open spec fn dec_text(n: nat) -> Seq<char> {
    radix_text(n, 10)
}

/// `n` in hexadecimal, in lower case and without a prefix.
pub open spec fn hex_text(n: nat) -> Seq<char> {
    radix_text(n, 16)
}

/// `n` in decimal, with a minus sign where it is negative.
pub open spec fn int_text(n: int) -> Seq<char> {
    if n < 0 {
        seq!['-'] + dec_text((-n) as nat)
    } else {
        dec_text(n as nat)
    }
}

/// What the digits `s` mean in base `radix`, if they all are digits.
pub open spec fn digits_number(s: Seq<char>, radix: int) -> Option<nat>
    decreases s.len(),
{
    if s.len() == 0 {
        Some(0)
    } else {
        match (digits_number(s.drop_last(), radix), digit_value(s.last(), radix)) {
            (Some(v), Some(d)) => Some((v * radix + d) as nat),
            _ => None,
        }
    }
}

/// The unsigned number that a text states in base `radix`: an optional plus sign and at least one
/// digit, with a value of at most `max`.
pub open spec fn parsed_uint(s: Seq<char>, radix: int, max: nat) -> Option<nat> {
    let digits = if s.len() > 0 && s[0] == '+' {
        s.skip(1)
    } else {
        s
    };
    if digits.len() == 0 {
        None
    } else {
        match digits_number(digits, radix) {
            Some(v) => if v <= max {
                Some(v)
            } else {
                None
            },
            None => None,
        }
    }
}

/// The signed 64-bit number that a text states in decimal: an optional sign and at least one digit.
pub open spec fn parsed_i64(s: Seq<char>) -> Option<i64> {
    let digits = if s.len() > 0 && (s[0] == '+' || s[0] == '-') {
        s.skip(1)
    } else {
        s
    };
    if digits.len() == 0 {
        None
    } else {
        match digits_number(digits, 10) {
            Some(v) => if s[0] == '-' && v <= 0x8000_0000_0000_0000 {
                Some((-v) as i64)
            } else if s[0] != '-' && v < 0x8000_0000_0000_0000 {
                Some(v as i64)
            } else {
                None
            },
            None => None,
        }
    }
}

/// The character of the digit `d`.
pub fn digit(d: u8) -> (c: char)
    requires
        d < 16,
    ensures
        c == digit_char(d as int),
{
    if d < 10 {
        (48 + d) as char
    } else {
        (87 + d) as char
    }
}

/// The value of the digit `c` in base `radix`.
pub fn digit_of(c: char, radix: u32) -> (r: Option<u32>)
    requires
        radix <= 36,
    ensures
        match r {
            Some(d) => digit_value(c, radix as int) == Some(d as int) && d < radix,
            None => digit_value(c, radix as int) is None,
        },
{
    let n = c as u32;
    let d: u32 = if '0' <= c && c <= '9' {
        n - 48
    } else if 'a' <= c && c <= 'z' {
        n - 87
    } else if 'A' <= c && c <= 'Z' {
        n - 55
    } else {
        99
    };
    if d < radix {
        Some(d)
    } else {
        None
    }
}

/// Writes `n` in base `radix`.
fn write_radix(n: u128, radix: u128) -> (r: String)
    requires
        2 <= radix <= 16,
    ensures
        r@ == radix_text(n as nat, radix as nat),
    decreases n,
{
    if n < radix {
        let mut s = String::new();
        s.push(digit(n as u8));
        assert(s@ =~= seq![digit_char(n as int)]);
        s
    } else {
        assert(n / radix < n && n % radix < radix) by (nonlinear_arith)
            requires
                2 <= radix,
                n >= radix,
        ;
        let mut s = write_radix(n / radix, radix);
        s.push(digit((n % radix) as u8));
        s
    }
}

/// `n` in decimal.
pub fn dec(n: u64) -> (r: String)
    ensures
        r@ == dec_text(n as nat),
{
    write_radix(n as u128, 10)
}

/// `n` in decimal.
pub fn dec_u128(n: u128) -> (r: String)
    ensures
        r@ == dec_text(n as nat),
{
    write_radix(n, 10)
}

/// `n` in decimal.
pub fn dec_usize(n: usize) -> (r: String)
    ensures
        r@ == dec_text(n as nat),
{
    write_radix(n as u128, 10)
}

/// `n` in decimal, with a minus sign where it is negative.
pub fn dec_i64(n: i64) -> (r: String)
    ensures
        r@ == int_text(n as int),
{
    dec_i128(n as i128)
}

/// `n` in decimal, with a minus sign where it is negative.
pub fn dec_i128(n: i128) -> (r: String)
    requires
        n > i128::MIN,
    ensures
        r@ == int_text(n as int),
{
    if n < 0 {
        let t = write_radix((-n) as u128, 10);
        cat2(minus().as_str(), t.as_str())
    } else {
        write_radix(n as u128, 10)
    }
}

fn minus() -> (r: String)
    ensures
        r@ == seq!['-'],
{
    let mut s = String::new();
    s.push('-');
    assert(s@ =~= seq!['-']);
    s
}

/// `n` in hexadecimal with the prefix `0x`.
pub fn hex_u128(n: u128) -> (r: String)
    ensures
        r@ == "0x"@ + hex_text(n as nat),
{
    let t = write_radix(n, 16);
    cat2("0x", t.as_str())
}

/// Longer digits do not mean less.
proof fn lemma_prefix_smaller(s: Seq<char>, i: int, radix: int)
    requires
        0 <= i <= s.len(),
        radix >= 1,
    ensures
        match (digits_number(s.take(i), radix), digits_number(s, radix)) {
            (Some(a), Some(b)) => a <= b,
            (None, Some(_)) => false,
            _ => true,
        },
    decreases s.len() - i,
{
    if i == s.len() {
        assert(s.take(i) =~= s);
    } else {
        lemma_prefix_smaller(s, i + 1, radix);
        assert(s.take(i + 1).drop_last() =~= s.take(i));
        assert(s.take(i + 1).last() == s[i]);
        match (digits_number(s.take(i), radix), digit_value(s[i], radix)) {
            (Some(v), Some(d)) => {
                assert(v * radix + d >= v) by (nonlinear_arith)
                    requires
                        radix >= 1,
                        d >= 0,
                        v >= 0,
                ;
            },
            _ => {},
        }
    }
}

/// Reads the digits of `a` from position `from` on.
fn read_digits(a: &Vec<char>, from: usize, radix: u32, max: u128) -> (r: Option<u128>)
    requires
        from <= a@.len(),
        1 <= radix <= 36,
    ensures
        match r {
            Some(v) => digits_number(a@.skip(from as int), radix as int) == Some(v as nat) && v
                <= max,
            None => match digits_number(a@.skip(from as int), radix as int) {
                Some(v) => v > max,
                None => true,
            },
        },
{
    let ghost all = a@.skip(from as int);
    let mut acc: u128 = 0;
    let mut i: usize = from;
    assert(all.take(0).len() == 0);
    while i < a.len()
        invariant
            all == a@.skip(from as int),
            from <= i <= a@.len(),
            1 <= radix <= 36,
            acc <= max,
            digits_number(all.take(i - from), radix as int) == Some(acc as nat),
        decreases a@.len() - i,
    {
        proof {
            assert(all.take(i + 1 - from).drop_last() =~= all.take(i - from));
            assert(all.take(i + 1 - from).last() == a@[i as int]);
            lemma_prefix_smaller(all, i + 1 - from, radix as int);
        }
        match digit_of(a[i], radix) {
            None => {
                return None;
            },
            Some(d) => {
                let d = d as u128;
                if d > max {
                    assert(acc * radix + d > max) by (nonlinear_arith)
                        requires
                            d > max,
                            acc >= 0,
                            radix >= 1,
                    ;
                    return None;
                }
                let room: u128 = (max - d) / (radix as u128);
                if acc > room {
                    assert(acc * radix + d > max) by (nonlinear_arith)
                        requires
                            acc > (max - d) / (radix as int),
                            radix >= 1,
                            d <= max,
                    ;
                    return None;
                }
                assert(acc * radix + d <= max && acc * radix >= 0) by (nonlinear_arith)
                    requires
                        acc <= (max - d) / (radix as int),
                        radix >= 1,
                        d <= max,
                        acc >= 0,
                ;
                acc = acc * (radix as u128) + d;
                i += 1;
            },
        }
    }
    assert(all.take(i - from) =~= all);
    Some(acc)
}

/// Reads an unsigned number as `from_str_radix` of the standard integers does.
pub fn parse_uint(s: &str, radix: u32, max: u128) -> (r: Option<u128>)
    requires
        1 <= radix <= 36,
    ensures
        match r {
            Some(v) => parsed_uint(s@, radix as int, max as nat) == Some(v as nat),
            None => parsed_uint(s@, radix as int, max as nat) is None,
        },
{
    let a = chars_of(s);
    let from: usize = if a.len() > 0 && a[0] == '+' {
        1
    } else {
        0
    };
    assert(s@.skip(0) =~= s@);
    if a.len() == from {
        return None;
    }
    read_digits(&a, from, radix, max)
}

/// Reads a decimal `u64`.
pub fn parse_u64(s: &str) -> (r: Option<u64>)
    ensures
        match r {
            Some(v) => parsed_uint(s@, 10, u64::MAX as nat) == Some(v as nat),
            None => parsed_uint(s@, 10, u64::MAX as nat) is None,
        },
{
    match parse_uint(s, 10, u64::MAX as u128) {
        Some(v) => Some(v as u64),
        None => None,
    }
}

/// Reads a decimal `i64`.
pub fn parse_i64(s: &str) -> (r: Option<i64>)
    ensures
        r == parsed_i64(s@),
{
    let a = chars_of(s);
    let from: usize = if a.len() > 0 && (a[0] == '+' || a[0] == '-') {
        1
    } else {
        0
    };
    assert(s@.skip(0) =~= s@);
    if a.len() == from {
        return None;
    }
    match read_digits(&a, from, 10, 0x8000_0000_0000_0000) {
        Some(v) => {
            if a[0] == '-' {
                Some((-(v as i128)) as i64)
            } else if v < 0x8000_0000_0000_0000 {
                Some(v as i64)
            } else {
                None
            }
        },
        None => None,
    }
}

/// The text of the error that `u32::from_str` gives.
pub uninterp spec fn u32_error_text(s: Seq<char>) -> Seq<char>;

/// `u32::from_str`: an optional plus sign and at least one digit. The text of the error only has a name.
#[verifier::external_body]
pub(crate) fn u32_from_text(s: &str) -> (r: Result<u32, String>)
    ensures
        match r {
            Ok(n) => parsed_uint(s@, 10, u32::MAX as nat) == Some(n as nat),
            Err(e) => parsed_uint(s@, 10, u32::MAX as nat) is None && e@ == u32_error_text(s@),
        },
{
    s.parse::<u32>().map_err(|e| e.to_string())
}

/// The text of the error that `u64::from_str_radix` gives in base sixteen.
pub uninterp spec fn u64_hex_error_text(s: Seq<char>) -> Seq<char>;

/// `u64::from_str_radix` in base sixteen: an optional plus sign and at least one digit. The text of the
/// error only has a name.
#[verifier::external_body]
pub(crate) fn u64_from_hex(s: &str) -> (r: Result<u64, String>)
    ensures
        match r {
            Ok(n) => parsed_uint(s@, 16, u64::MAX as nat) == Some(n as nat),
            Err(e) => parsed_uint(s@, 16, u64::MAX as nat) is None && e@ == u64_hex_error_text(s@),
        },
{
    u64::from_str_radix(s, 16).map_err(|e| e.to_string())
}

/// The text of the error that `u128::from_str_radix` gives in base sixteen.
pub uninterp spec fn u128_hex_error_text(s: Seq<char>) -> Seq<char>;

/// `u128::from_str_radix` in base sixteen: an optional plus sign and at least one digit. The text of the
/// error only has a name.
#[verifier::external_body]
pub(crate) fn u128_from_hex(s: &str) -> (r: Result<u128, String>)
    ensures
        match r {
            Ok(n) => parsed_uint(s@, 16, u128::MAX as nat) == Some(n as nat),
            Err(e) => parsed_uint(s@, 16, u128::MAX as nat) is None && e@ == u128_hex_error_text(s@),
        },
{
    u128::from_str_radix(s, 16).map_err(|e| e.to_string())
}

/// Decimal digits are digits, at least one, and state their number.
pub proof fn lemma_dec_text(n: nat)
    ensures
        dec_text(n).len() > 0,
        forall|i: int| 0 <= i < dec_text(n).len() ==> '0' <= #[trigger] dec_text(n)[i] <= '9',
        digits_number(dec_text(n), 10) == Some(n),
    decreases n,
{
    if n < 10 {
        let s = dec_text(n);
        assert(s =~= seq![digit_char(n as int)]);
        assert(s.drop_last().len() == 0);
        assert(digits_number(s.drop_last(), 10) == Some(0nat));
    } else {
        lemma_dec_text(n / 10);
        let s = dec_text(n);
        assert(s.drop_last() =~= dec_text(n / 10));
        assert(s.last() == digit_char((n % 10) as int));
        assert forall|i: int| 0 <= i < s.len() implies '0' <= #[trigger] s[i] <= '9' by {
            if i < s.len() - 1 {
                assert(s[i] == dec_text(n / 10)[i]);
            }
        }
    }
}

/// Reading the decimal digits of a number gives the number back.
pub proof fn law_dec_round_trip(n: nat, max: nat)
    requires
        n <= max,
    ensures
        parsed_uint(dec_text(n), 10, max) == Some(n),
{
    lemma_dec_text(n);
    assert(dec_text(n)[0] != '+');
}

/// Reading the decimal digits of a signed number gives the number back.
pub proof fn law_int_round_trip(n: i64)
    ensures
        parsed_i64(int_text(n as int)) == Some(n),
{
    if n < 0 {
        let m = (-(n as int)) as nat;
        lemma_dec_text(m);
        let s = int_text(n as int);
        assert(s[0] == '-');
        assert(s.skip(1) =~= dec_text(m));
    } else {
        lemma_dec_text(n as nat);
        let s = int_text(n as int);
        assert(s[0] == dec_text(n as nat)[0]);
    }
}

/// Different numbers have different decimal digits.
pub proof fn law_dec_injective(a: nat, b: nat)
    requires
        dec_text(a) == dec_text(b),
    ensures
        a == b,
{
    lemma_dec_text(a);
    lemma_dec_text(b);
}

/// The hexadecimal digits of a number are digits that state the number; none of them is an `x`.
pub proof fn lemma_hex_text(n: nat)
    ensures
        hex_text(n).len() > 0,
        forall|i: int|
            0 <= i < hex_text(n).len() ==> #[trigger] hex_text(n)[i] != 'x' && hex_text(n)[i] != '+',
        digits_number(hex_text(n), 16) == Some(n),
    decreases n,
{
    if n < 16 {
        let s = hex_text(n);
        assert(s =~= seq![digit_char(n as int)]);
        assert(s.drop_last().len() == 0);
        assert(digits_number(s.drop_last(), 16) == Some(0nat));
    } else {
        lemma_hex_text(n / 16);
        let s = hex_text(n);
        assert(s.drop_last() =~= hex_text(n / 16));
        assert(s.last() == digit_char((n % 16) as int));
        assert forall|i: int| 0 <= i < s.len() implies #[trigger] s[i] != 'x' && s[i] != '+' by {
            if i < s.len() - 1 {
                assert(s[i] == hex_text(n / 16)[i]);
            }
        }
    }
}

/// Reading the hexadecimal digits of a number gives the number back.
pub proof fn law_hex_text_round_trip(n: nat, max: nat)
    requires
        n <= max,
    ensures
        parsed_uint(hex_text(n), 16, max) == Some(n),
{
    lemma_hex_text(n);
    assert(hex_text(n)[0] != '+');
}

} // verus!
