//! Account addresses: 20 bytes, read from and written as hexadecimal text.
use vstd::prelude::*;

use crate::bytes::{be_number, hex_0x, hex_bytes, to_hex_0x};
use crate::u256::lemma_be_digits;

verus! {

/// An account address.
#[derive(Clone, Copy)]
pub struct Address {
    pub bytes: [u8; 20],
}

impl View for Address {
    type V = Seq<u8>;

    open spec fn view(&self) -> Seq<u8> {
        self.bytes@
    }
}

/// The bytes of the address zero.
pub open spec fn zero_address() -> Seq<u8> {
    Seq::new(20, |i: int| 0u8)
}

/// A text without the prefix `0x` or `0X`.
pub open spec fn without_0x(s: Seq<char>) -> Seq<char> {
    if s.len() >= 2 && s[0] == '0' && (s[1] == 'x' || s[1] == 'X') {
        s.skip(2)
    } else {
        s
    }
}

/// The address that a text states: 40 hexadecimal digits, with or without the prefix.
pub open spec fn parsed_address(s: Seq<char>) -> Option<Seq<u8>> {
    if without_0x(s).len() == 40 {
        hex_bytes(without_0x(s))
    } else {
        None
    }
}

/// The text of the error that `Address::from_str` gives on `s`.
pub uninterp spec fn address_error_text(s: Seq<char>) -> Seq<char>;

/// `Address::from_str` of `alloy_primitives`: 40 hexadecimal digits of either case, with or without the
/// prefix `0x` or `0X`. The text of the error only has a name.
#[verifier::external_body]
fn address_from_str(s: &str) -> (r: Result<Address, String>)
    ensures
        match r {
            Ok(a) => parsed_address(s@) == Some(a@),
            Err(e) => parsed_address(s@) is None && e@ == address_error_text(s@),
        },
{
    match s.parse::<alloy_primitives::Address>() {
        Ok(a) => Ok(Address { bytes: a.into_array() }),
        Err(e) => Err(e.to_string()),
    }
}

/// Of two byte strings of one length, the one with the smaller byte at the first difference states
/// the smaller number.
proof fn lemma_first_difference(a: Seq<u8>, b: Seq<u8>, i: int)
    requires
        a.len() == b.len(),
        0 <= i < a.len(),
        a.take(i) == b.take(i),
        a[i] < b[i],
    ensures
        be_number(a) < be_number(b),
    decreases a.len(),
{
    if i == a.len() - 1 {
        assert(a.drop_last() =~= a.take(i));
        assert(b.drop_last() =~= b.take(i));
    } else {
        assert(a.drop_last().take(i) =~= a.take(i));
        assert(b.drop_last().take(i) =~= b.take(i));
        lemma_first_difference(a.drop_last(), b.drop_last(), i);
    }
}

/// Byte strings of one length that state one number are equal.
pub proof fn lemma_be_injective(a: Seq<u8>, b: Seq<u8>)
    requires
        a.len() == b.len(),
        be_number(a) == be_number(b),
    ensures
        a == b,
{
    lemma_be_digits(a);
    lemma_be_digits(b);
}

impl Address {
    /// Reads an address.
    pub fn parse(s: &str) -> (r: Result<Address, String>)
        ensures
            match r {
                Ok(a) => parsed_address(s@) == Some(a@),
                Err(e) => parsed_address(s@) is None && e@ == address_error_text(s@),
            },
    {
        address_from_str(s)
    }

    /// The address zero.
    pub fn zero() -> (r: Address)
        ensures
            r@ == zero_address(),
    {
        let r = Address { bytes: [0u8; 20] };
        assert(r@ =~= zero_address());
        r
    }

    /// The text `0x` and 40 lower-case digits.
    pub fn lower(&self) -> (r: String)
        ensures
            r@ == hex_0x(self@),
    {
        to_hex_0x(self.bytes.as_slice())
    }

    /// Whether both are the same address.
    pub fn same(&self, other: &Address) -> (r: bool)
        ensures
            r == (self@ == other@),
    {
        let mut i: usize = 0;
        while i < 20
            invariant
                i <= 20,
                self@.len() == 20,
                other@.len() == 20,
                forall|j: int| 0 <= j < i ==> self@[j] == other@[j],
            decreases 20 - i,
        {
            if self.bytes[i] != other.bytes[i] {
                return false;
            }
            i += 1;
        }
        assert(self@ =~= other@);
        true
    }

    /// Whether the address is zero.
    pub fn is_zero(&self) -> (r: bool)
        ensures
            r == (self@ == zero_address()),
    {
        self.same(&Address::zero())
    }

    /// Whether the address comes before `other` in the order of their numbers.
    pub fn before(&self, other: &Address) -> (r: bool)
        ensures
            r == (be_number(self@) < be_number(other@)),
    {
        let mut i: usize = 0;
        while i < 20
            invariant
                i <= 20,
                self@.len() == 20,
                other@.len() == 20,
                forall|j: int| 0 <= j < i ==> self@[j] == other@[j],
            decreases 20 - i,
        {
            if self.bytes[i] != other.bytes[i] {
                proof {
                    assert(self@.take(i as int) =~= other@.take(i as int));
                    if self@[i as int] < other@[i as int] {
                        lemma_first_difference(self@, other@, i as int);
                    } else {
                        lemma_first_difference(other@, self@, i as int);
                    }
                }
                return self.bytes[i] < other.bytes[i];
            }
            i += 1;
        }
        assert(self@ =~= other@);
        false
    }

    /// The address in the last 20 of the 32 bytes that start at `at`.
    pub fn from_word(b: &Vec<u8>, at: usize) -> (r: Address)
        requires
            at + 32 <= b.len(),
        ensures
            r@ == b@.subrange(at + 12, at + 32),
    {
        let mut bytes = [0u8; 20];
        let mut i: usize = 0;
        while i < 20
            invariant
                i <= 20,
                at + 32 <= b.len(),
                forall|j: int| 0 <= j < i ==> bytes@[j] == b@[at + 12 + j],
            decreases 20 - i,
        {
            bytes[i] = b[at + 12 + i];
            i += 1;
        }
        let r = Address { bytes };
        assert(r@ =~= b@.subrange(at + 12, at + 32));
        r
    }
}

/// The bytes of a sequence of addresses.
pub open spec fn address_views(v: Seq<Address>) -> Seq<Seq<u8>> {
    v.map_values(|a: Address| a@)
}

/// Whether the addresses stand in strictly ascending order.
pub open spec fn ascending(v: Seq<Seq<u8>>) -> bool {
    forall|i: int, j: int| 0 <= i < j < v.len() ==> be_number(#[trigger] v[i]) < be_number(#[trigger] v[j])
}

/// Puts `a` at its place in an ascending list, unless it is there already.
pub fn insert_ascending(v: &mut Vec<Address>, a: Address)
    requires
        ascending(address_views(old(v)@)),
    ensures
        ascending(address_views(final(v)@)),
        address_views(final(v)@).to_set() == address_views(old(v)@).to_set().insert(a@),
{
    let ghost before = address_views(v@);
    let mut i: usize = 0;
    while i < v.len() && v[i].before(&a)
        invariant
            i <= v@.len(),
            before == address_views(v@),
            forall|j: int| 0 <= j < i ==> be_number(before[j]) < be_number(a@),
        decreases v@.len() - i,
    {
        i += 1;
    }
    if i < v.len() && v[i].same(&a) {
        proof {
            assert(before[i as int] == a@);
            assert(before.to_set() =~= before.to_set().insert(a@));
        }
        return;
    }
    proof {
        if i < v@.len() {
            assert(be_number(before[i as int]) >= be_number(a@));
            if be_number(before[i as int]) == be_number(a@) {
                assert(v@[i as int]@.len() == 20 && a@.len() == 20);
                lemma_be_injective(before[i as int], a@);
            }
        }
    }
    v.insert(i, a);
    proof {
        let after = address_views(v@);
        assert(after =~= before.insert(i as int, a@));
        assert forall|x: Seq<u8>| after.to_set().contains(x) == before.to_set().insert(a@).contains(x) by {
            if after.contains(x) {
                let k = choose|k: int| 0 <= k < after.len() && after[k] == x;
                if k < i {
                    assert(before[k] == x);
                } else if k > i {
                    assert(before[k - 1] == x);
                }
            }
            if before.contains(x) {
                let k = choose|k: int| 0 <= k < before.len() && before[k] == x;
                if k < i {
                    assert(after[k] == x);
                } else {
                    assert(after[k + 1] == x);
                }
            }
            assert(after[i as int] == a@);
        }
        assert(after.to_set() =~= before.to_set().insert(a@));
    }
}

/// The addresses of `v` in ascending order, each once.
pub fn sorted_addresses(v: &Vec<Address>) -> (r: Vec<Address>)
    ensures
        ascending(address_views(r@)),
        address_views(r@).to_set() == address_views(v@).to_set(),
{
    let mut r: Vec<Address> = Vec::new();
    let n = v.len();
    proof {
        assert(address_views(r@).to_set() =~= address_views(v@.take(0)).to_set());
    }
    for i in 0..n
        invariant
            n == v@.len(),
            ascending(address_views(r@)),
            address_views(r@).to_set() == address_views(v@.take(i as int)).to_set(),
    {
        insert_ascending(&mut r, v[i]);
        proof {
            let front = address_views(v@.take(i as int));
            let more = address_views(v@.take(i + 1));
            assert(more =~= front.push(v@[i as int]@));
            assert forall|x: Seq<u8>| more.to_set().contains(x) == front.to_set().insert(v@[i as int]@).contains(x) by {
                if front.contains(x) {
                    let k = choose|k: int| 0 <= k < front.len() && front[k] == x;
                    assert(more[k] == x);
                }
                assert(more[i as int] == v@[i as int]@);
            }
            assert(more.to_set() =~= front.to_set().insert(v@[i as int]@));
        }
    }
    assert(v@.take(n as int) =~= v@);
    r
}

/// Lists of addresses in ascending order with the same members are the same list.
pub proof fn law_ascending_unique(a: Seq<Seq<u8>>, b: Seq<Seq<u8>>)
    requires
        ascending(a),
        ascending(b),
        a.to_set() == b.to_set(),
    ensures
        a == b,
    decreases a.len(),
{
    if a.len() == 0 {
        if b.len() > 0 {
            assert(b.to_set().contains(b[0]));
            assert(a.contains(b[0]));
        }
        assert(a =~= b);
    } else {
        assert(a.to_set().contains(a.last()));
        assert(b.contains(a.last()));
        assert(b.to_set().contains(b.last()));
        assert(a.contains(b.last()));
        let i = choose|i: int| 0 <= i < b.len() && b[i] == a.last();
        let j = choose|j: int| 0 <= j < a.len() && a[j] == b.last();
        assert(a.last() == b.last());
        let x = a.drop_last();
        let y = b.drop_last();
        assert forall|t: Seq<u8>| x.to_set().contains(t) == y.to_set().contains(t) by {
            if x.contains(t) {
                let k = choose|k: int| 0 <= k < x.len() && x[k] == t;
                assert(a[k] == t);
                assert(a.to_set().contains(t));
                assert(b.contains(t));
                let m = choose|m: int| 0 <= m < b.len() && b[m] == t;
                assert(m < b.len() - 1);
                assert(y[m] == t);
            }
            if y.contains(t) {
                let k = choose|k: int| 0 <= k < y.len() && y[k] == t;
                assert(b[k] == t);
                assert(b.to_set().contains(t));
                assert(a.contains(t));
                let m = choose|m: int| 0 <= m < a.len() && a[m] == t;
                assert(m < a.len() - 1);
                assert(x[m] == t);
            }
        }
        assert(x.to_set() =~= y.to_set());
        law_ascending_unique(x, y);
        assert(a =~= x.push(a.last()));
        assert(b =~= y.push(b.last()));
    }
}

/// A text that begins with `0x`, in either case, is read without it, and one that does not is read as it is.
pub proof fn law_0x_is_left_out(s: Seq<char>)
    ensures
        without_0x(seq!['0', 'x'] + s) == s,
        without_0x(seq!['0', 'X'] + s) == s,
        s.len() < 2 || s[0] != '0' || (s[1] != 'x' && s[1] != 'X') ==> without_0x(s) == s,
{
    assert((seq!['0', 'x'] + s).skip(2) =~= s);
    assert((seq!['0', 'X'] + s).skip(2) =~= s);
}

} // verus!
