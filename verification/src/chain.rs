//! The contract interface: how calls are encoded, how replies are decoded, and the commit hash.
use vstd::prelude::*;
use vstd::string::*;
use vstd::utf8::encode_utf8;

use crate::address::Address;
use crate::bytes::{be_number, keccak, keccak256, lemma_be_leading_zeros};
use crate::u256::{be_word, law_word_round_trip, lemma_word_len, word_base, U256};

verus! {

/// The first four bytes of the hash of a function's signature.
pub open spec fn selector_of(sig: Seq<char>) -> Seq<u8> {
    Seq::new(4, |i: int| keccak(encode_utf8(sig))[i])
}

/// The bytes of a sequence of words.
pub open spec fn word_views(v: Seq<[u8; 32]>) -> Seq<Seq<u8>> {
    v.map_values(|w: [u8; 32]| w@)
}

/// Words one after the other.
pub open spec fn flat(ws: Seq<Seq<u8>>) -> Seq<u8>
    decreases ws.len(),
{
    if ws.len() == 0 {
        Seq::empty()
    } else {
        flat(ws.drop_last()) + ws.last()
    }
}

/// A list of words as an argument: its length, then the words.
pub open spec fn list_tail(ws: Seq<Seq<u8>>) -> Seq<u8> {
    be_word(ws.len()) + flat(ws)
}

/// Bytes as an argument: their number, then the bytes filled up with zeros to whole words.
pub open spec fn bytes_tail(b: Seq<u8>) -> Seq<u8> {
    be_word(b.len()) + b + Seq::new(((32 - b.len() as int % 32) % 32) as nat, |i: int| 0u8)
}

/// The word that holds an address.
pub open spec fn address_word(a: Seq<u8>) -> Seq<u8> {
    Seq::new(12, |i: int| 0u8) + a
}

/// The word that holds a boolean.
pub open spec fn bool_word(b: bool) -> Seq<u8> {
    be_word(if b { 1 } else { 0 })
}

/// The word that holds a signed number.
pub open spec fn int_word(n: int) -> Seq<u8> {
    be_word(
        if n < 0 {
            (word_base() + n) as nat
        } else {
            n as nat
        },
    )
}

/// A call whose arguments are words: the selector of the signature, then the words.
pub open spec fn static_call(sig: Seq<char>, args: Seq<Seq<u8>>) -> Seq<u8> {
    selector_of(sig) + flat(args)
}

/// `abi::encode_sequence` of `alloy_sol_types` on words alone: the words one after the other.
#[verifier::external_body]
fn encode_words(args: &Vec<[u8; 32]>) -> (r: Vec<u8>)
    ensures
        r@ == flat(word_views(args@)),
{
    alloy_sol_types::abi::encode_sequence(
        &alloy_sol_types::abi::token::DynSeqToken(
            args.iter().map(|w| alloy_sol_types::abi::token::WordToken::new(*w)).collect(),
        ),
    )
}

/// `abi::encode_sequence` on three words and a list: the words, the offset of the list, the list.
#[verifier::external_body]
fn encode_words_then_list(a: &[u8; 32], b: &[u8; 32], c: &[u8; 32], list: &Vec<[u8; 32]>) -> (r: Vec<u8>)
    ensures
        r@ == a@ + b@ + c@ + be_word(128) + list_tail(word_views(list@)),
{
    alloy_sol_types::abi::encode_sequence(
        &(
            alloy_sol_types::abi::token::WordToken::new(*a),
            alloy_sol_types::abi::token::WordToken::new(*b),
            alloy_sol_types::abi::token::WordToken::new(*c),
            alloy_sol_types::abi::token::DynSeqToken(
                list.iter().map(|w| alloy_sol_types::abi::token::WordToken::new(*w)).collect(),
            ),
        ),
    )
}

/// `abi::encode_sequence` on two words, bytes and a word: the words with the offset of the bytes in
/// third place, then the bytes.
#[verifier::external_body]
fn encode_bytes_third_of_four(a: &[u8; 32], b: &[u8; 32], t: &[u8], d: &[u8; 32]) -> (r: Vec<u8>)
    ensures
        r@ == a@ + b@ + be_word(128) + d@ + bytes_tail(t@),
{
    alloy_sol_types::abi::encode_sequence(
        &(
            alloy_sol_types::abi::token::WordToken::new(*a),
            alloy_sol_types::abi::token::WordToken::new(*b),
            alloy_sol_types::abi::token::PackedSeqToken(t),
            alloy_sol_types::abi::token::WordToken::new(*d),
        ),
    )
}

/// `abi::encode_sequence` on two words and bytes: the words, the offset of the bytes, the bytes.
#[verifier::external_body]
fn encode_bytes_third_of_three(a: &[u8; 32], b: &[u8; 32], t: &[u8]) -> (r: Vec<u8>)
    ensures
        r@ == a@ + b@ + be_word(96) + bytes_tail(t@),
{
    alloy_sol_types::abi::encode_sequence(
        &(
            alloy_sol_types::abi::token::WordToken::new(*a),
            alloy_sol_types::abi::token::WordToken::new(*b),
            alloy_sol_types::abi::token::PackedSeqToken(t),
        ),
    )
}

/// `abi::encode_sequence` on a list alone: the offset of the list, the list.
#[verifier::external_body]
fn encode_list(list: &Vec<[u8; 32]>) -> (r: Vec<u8>)
    ensures
        r@ == be_word(32) + list_tail(word_views(list@)),
{
    alloy_sol_types::abi::encode_sequence(
        &(
            alloy_sol_types::abi::token::DynSeqToken(
                list.iter().map(|w| alloy_sol_types::abi::token::WordToken::new(*w)).collect(),
            ),
        ),
    )
}

/// `abi::encode_sequence` on a word and a list: the word, the offset of the list, the list.
#[verifier::external_body]
fn encode_word_then_list(a: &[u8; 32], list: &Vec<[u8; 32]>) -> (r: Vec<u8>)
    ensures
        r@ == a@ + be_word(64) + list_tail(word_views(list@)),
{
    alloy_sol_types::abi::encode_sequence(
        &(
            alloy_sol_types::abi::token::WordToken::new(*a),
            alloy_sol_types::abi::token::DynSeqToken(
                list.iter().map(|w| alloy_sol_types::abi::token::WordToken::new(*w)).collect(),
            ),
        ),
    )
}

/// The text of the error that decoding `raw` as the types `types` gives.
pub uninterp spec fn abi_error_text(types: Seq<char>, raw: Seq<u8>) -> Seq<char>;

/// Word number `i` of a reply.
pub open spec fn word_at(raw: Seq<u8>, i: int) -> Seq<u8> {
    raw.subrange(32 * i, 32 * i + 32)
}

/// Whether a word holds a number below two to the `8 * n`.
pub open spec fn narrow(word: Seq<u8>, n: int) -> bool {
    forall|i: int| 0 <= i < 32 - n ==> #[trigger] word[i] == 0
}

/// `SolType::abi_decode_sequence` with validation as `uint256`: exactly one word, any number.
#[verifier::external_body]
fn decode_uint(raw: &[u8]) -> (r: Result<U256, String>)
    ensures
        match r {
            Ok(n) => raw@.len() == 32 && n@ == be_number(raw@),
            Err(e) => raw@.len() != 32 && e@ == abi_error_text("uint256"@, raw@),
        },
{
    <(alloy_sol_types::sol_data::Uint<256>,) as alloy_sol_types::SolType>::abi_decode_sequence(raw, true)
        .map(|t| U256 { limbs: t.0.into_limbs() })
        .map_err(|e| e.to_string())
}

/// `SolType::abi_decode_sequence` with validation as `address`: exactly one word, its first twelve bytes
/// zero.
#[verifier::external_body]
fn decode_address(raw: &[u8]) -> (r: Result<Address, String>)
    ensures
        match r {
            Ok(a) => raw@.len() == 32 && narrow(raw@, 20) && a@ == raw@.skip(12),
            Err(e) => !(raw@.len() == 32 && narrow(raw@, 20)) && e@ == abi_error_text("address"@, raw@),
        },
{
    <(alloy_sol_types::sol_data::Address,) as alloy_sol_types::SolType>::abi_decode_sequence(raw, true)
        .map(|t| Address { bytes: t.0.into_array() })
        .map_err(|e| e.to_string())
}

/// `SolType::abi_decode_sequence` with validation as `bool`: exactly one word, its first 31 bytes zero;
/// the value is whether the word is not zero.
#[verifier::external_body]
fn decode_bool(raw: &[u8]) -> (r: Result<bool, String>)
    ensures
        match r {
            Ok(b) => raw@.len() == 32 && narrow(raw@, 1) && b == (raw@[31] != 0),
            Err(e) => !(raw@.len() == 32 && narrow(raw@, 1)) && e@ == abi_error_text("bool"@, raw@),
        },
{
    <(alloy_sol_types::sol_data::Bool,) as alloy_sol_types::SolType>::abi_decode_sequence(raw, true)
        .map(|t| t.0)
        .map_err(|e| e.to_string())
}

/// `SolType::abi_decode_sequence` with validation as `int24`: exactly one word that is the sign extension
/// of its last three bytes.
#[verifier::external_body]
fn decode_int24(raw: &[u8]) -> (r: Result<i32, String>)
    ensures
        match r {
            Ok(n) => -0x80_0000 <= n < 0x80_0000 && raw@ == int_word(n as int),
            Err(e) => (forall|n: int| -0x80_0000 <= n < 0x80_0000 ==> raw@ != #[trigger] int_word(n)) && e@
                == abi_error_text("int24"@, raw@),
        },
{
    <(alloy_sol_types::sol_data::Int<24>,) as alloy_sol_types::SolType>::abi_decode_sequence(raw, true)
        .map(|t| t.0.as_i32())
        .map_err(|e| e.to_string())
}

/// An offer to sell a token.
#[derive(Clone, Copy)]
pub struct Listing {
    pub seller: Address,
    pub price_wei: U256,
    pub listed_at: u64,
}

/// Whether a reply is a listing: an address, a number and a 64-bit number.
pub open spec fn listing_reply(raw: Seq<u8>) -> bool {
    raw.len() == 96 && narrow(word_at(raw, 0), 20) && narrow(word_at(raw, 2), 8)
}

/// The seller that a listing names.
pub open spec fn listed_seller(raw: Seq<u8>) -> Seq<u8> {
    raw.subrange(12, 32)
}

/// The price that a listing states.
pub open spec fn listed_price(raw: Seq<u8>) -> nat {
    be_number(word_at(raw, 1))
}

/// The time that a listing states.
pub open spec fn listed_time(raw: Seq<u8>) -> nat {
    be_number(word_at(raw, 2))
}

/// `SolType::abi_decode_sequence` with validation as a struct of `address`, `uint256` and `uint64`:
/// exactly three words, the unused bytes of the first and the last zero.
#[verifier::external_body]
fn decode_listing(raw: &[u8]) -> (r: Result<Listing, String>)
    ensures
        match r {
            Ok(l) => listing_reply(raw@) && l.seller@ == listed_seller(raw@) && l.price_wei@
                == listed_price(raw@) && l.listed_at == listed_time(raw@),
            Err(e) => !listing_reply(raw@) && e@ == abi_error_text("(address,uint256,uint64)"@, raw@),
        },
{
    <((
        alloy_sol_types::sol_data::Address,
        alloy_sol_types::sol_data::Uint<256>,
        alloy_sol_types::sol_data::Uint<64>,
    ),) as alloy_sol_types::SolType>::abi_decode_sequence(raw, true)
        .map(|t| Listing {
            seller: Address { bytes: t.0.0.into_array() },
            price_wei: U256 { limbs: t.0.1.into_limbs() },
            listed_at: t.0.2,
        })
        .map_err(|e| e.to_string())
}

/// Whether a reply is a quote: an amount, a 160-bit price, a 32-bit count and a gas estimate.
pub open spec fn quote_reply(raw: Seq<u8>) -> bool {
    raw.len() == 128 && narrow(word_at(raw, 1), 20) && narrow(word_at(raw, 2), 4)
}

/// `SolType::abi_decode_sequence` with validation as `uint256`, `uint160`, `uint32` and `uint256`: exactly
/// four words, the unused bytes of the second and the third zero. The first number is handed out.
#[verifier::external_body]
fn decode_quote(raw: &[u8]) -> (r: Result<U256, String>)
    ensures
        match r {
            Ok(n) => quote_reply(raw@) && n@ == be_number(word_at(raw@, 0)),
            Err(e) => !quote_reply(raw@) && e@ == abi_error_text("uint256,uint160,uint32,uint256"@, raw@),
        },
{
    <(
        alloy_sol_types::sol_data::Uint<256>,
        alloy_sol_types::sol_data::Uint<160>,
        alloy_sol_types::sol_data::Uint<32>,
        alloy_sol_types::sol_data::Uint<256>,
    ) as alloy_sol_types::SolType>::abi_decode_sequence(raw, true)
        .map(|t| U256 { limbs: t.0.into_limbs() })
        .map_err(|e| e.to_string())
}

/// The first four bytes of the hash of a signature.
fn selector(sig: &str) -> (r: Vec<u8>)
    ensures
        r@ == selector_of(sig@),
{
    let h = keccak256(sig.as_bytes());
    let mut r: Vec<u8> = Vec::new();
    r.push(h[0]);
    r.push(h[1]);
    r.push(h[2]);
    r.push(h[3]);
    assert(r@ =~= selector_of(sig@));
    r
}

/// The bytes of `a`, then those of `b`.
fn chain_bytes(a: Vec<u8>, b: &[u8]) -> (r: Vec<u8>)
    ensures
        r@ == a@ + b@,
{
    let mut r = a;
    let n = b.len();
    let ghost front = r@;
    for i in 0..n
        invariant
            n == b@.len(),
            r@ == front + b@.take(i as int),
    {
        r.push(b[i]);
        assert(r@ =~= front + b@.take(i + 1));
    }
    assert(b@.take(n as int) =~= b@);
    r
}

/// A call whose arguments are words.
pub fn call(sig: &str, args: &Vec<[u8; 32]>) -> (r: Vec<u8>)
    ensures
        r@ == static_call(sig@, word_views(args@)),
{
    let tail = encode_words(args);
    chain_bytes(selector(sig), tail.as_slice())
}

/// A call without arguments.
pub fn call0(sig: &str) -> (r: Vec<u8>)
    ensures
        r@ == static_call(sig@, Seq::empty()),
{
    let args: Vec<[u8; 32]> = Vec::new();
    let r = call(sig, &args);
    assert(word_views(args@) =~= Seq::empty());
    r
}

/// A call with one word.
pub fn call1(sig: &str, a: [u8; 32]) -> (r: Vec<u8>)
    ensures
        r@ == static_call(sig@, seq![a@]),
{
    let mut args: Vec<[u8; 32]> = Vec::new();
    args.push(a);
    let r = call(sig, &args);
    assert(word_views(args@) =~= seq![a@]);
    r
}

/// A call with two words.
pub fn call2(sig: &str, a: [u8; 32], b: [u8; 32]) -> (r: Vec<u8>)
    ensures
        r@ == static_call(sig@, seq![a@, b@]),
{
    let mut args: Vec<[u8; 32]> = Vec::new();
    args.push(a);
    args.push(b);
    let r = call(sig, &args);
    assert(word_views(args@) =~= seq![a@, b@]);
    r
}

/// A call with three words.
pub fn call3(sig: &str, a: [u8; 32], b: [u8; 32], c: [u8; 32]) -> (r: Vec<u8>)
    ensures
        r@ == static_call(sig@, seq![a@, b@, c@]),
{
    let mut args: Vec<[u8; 32]> = Vec::new();
    args.push(a);
    args.push(b);
    args.push(c);
    let r = call(sig, &args);
    assert(word_views(args@) =~= seq![a@, b@, c@]);
    r
}

/// A call with three words and a list.
pub(crate) fn call_words_list(sig: &str, a: [u8; 32], b: [u8; 32], c: [u8; 32], list: &Vec<[u8; 32]>) -> (r: Vec<u8>)
    ensures
        r@ == selector_of(sig@) + (a@ + b@ + c@ + be_word(128) + list_tail(word_views(list@))),
{
    let tail = encode_words_then_list(&a, &b, &c, list);
    chain_bytes(selector(sig), tail.as_slice())
}

/// A call with two words, bytes and a word.
pub(crate) fn call_words_bytes_word(sig: &str, a: [u8; 32], b: [u8; 32], t: &[u8], d: [u8; 32]) -> (r: Vec<u8>)
    ensures
        r@ == selector_of(sig@) + (a@ + b@ + be_word(128) + d@ + bytes_tail(t@)),
{
    let tail = encode_bytes_third_of_four(&a, &b, t, &d);
    chain_bytes(selector(sig), tail.as_slice())
}

/// A call with two words and bytes.
pub(crate) fn call_words_bytes(sig: &str, a: [u8; 32], b: [u8; 32], t: &[u8]) -> (r: Vec<u8>)
    ensures
        r@ == selector_of(sig@) + (a@ + b@ + be_word(96) + bytes_tail(t@)),
{
    let tail = encode_bytes_third_of_three(&a, &b, t);
    chain_bytes(selector(sig), tail.as_slice())
}

/// A call with a list.
pub(crate) fn call_list(sig: &str, list: &Vec<[u8; 32]>) -> (r: Vec<u8>)
    ensures
        r@ == selector_of(sig@) + (be_word(32) + list_tail(word_views(list@))),
{
    let tail = encode_list(list);
    chain_bytes(selector(sig), tail.as_slice())
}

/// A call with a word and a list.
pub(crate) fn call_word_list(sig: &str, a: [u8; 32], list: &Vec<[u8; 32]>) -> (r: Vec<u8>)
    ensures
        r@ == selector_of(sig@) + (a@ + be_word(64) + list_tail(word_views(list@))),
{
    let tail = encode_word_then_list(&a, list);
    chain_bytes(selector(sig), tail.as_slice())
}

/// The word that holds the number `n`.
pub fn uint_arg(n: u64) -> (r: [u8; 32])
    ensures
        r@ == be_word(n as nat),
{
    U256::of_u64(n).to_be_bytes()
}

/// The word that holds an address.
pub fn address_arg(a: &Address) -> (r: [u8; 32])
    ensures
        r@ == address_word(a@),
{
    let mut r = [0u8; 32];
    let mut i: usize = 0;
    while i < 20
        invariant
            i <= 20,
            a@.len() == 20,
            forall|j: int| 0 <= j < 12 ==> r@[j] == 0,
            forall|j: int| 0 <= j < i ==> r@[12 + j] == a@[j],
        decreases 20 - i,
    {
        r[12 + i] = a.bytes[i];
        i += 1;
    }
    assert(r@ =~= address_word(a@));
    r
}

/// The word that holds a boolean.
pub fn bool_arg(b: bool) -> (r: [u8; 32])
    ensures
        r@ == bool_word(b),
{
    if b {
        uint_arg(1)
    } else {
        uint_arg(0)
    }
}

/// The word that holds a signed number.
pub fn int_arg(n: i32) -> (r: [u8; 32])
    ensures
        r@ == int_word(n as int),
{
    if n < 0 {
        let m: u64 = (-(n as i64) - 1) as u64;
        U256::max().minus(&U256::of_u64(m)).to_be_bytes()
    } else {
        uint_arg(n as u64)
    }
}

/// The words that hold some addresses.
pub open spec fn address_words(v: Seq<Address>) -> Seq<Seq<u8>> {
    v.map_values(|a: Address| address_word(a@))
}

/// The words that hold some addresses.
pub fn address_args(v: &Vec<Address>) -> (r: Vec<[u8; 32]>)
    ensures
        word_views(r@) == address_words(v@),
{
    let mut r: Vec<[u8; 32]> = Vec::new();
    let n = v.len();
    for i in 0..n
        invariant
            n == v@.len(),
            r@.len() == i,
            forall|j: int| 0 <= j < i ==> (#[trigger] r@[j])@ == address_word(v@[j]@),
    {
        let w = address_arg(&v[i]);
        r.push(w);
    }
    assert(word_views(r@) =~= address_words(v@));
    r
}

/// The words that hold some numbers.
pub open spec fn uint_words(v: Seq<u64>) -> Seq<Seq<u8>> {
    v.map_values(|n: u64| be_word(n as nat))
}

/// The words that hold some numbers.
pub fn uint_args(v: &Vec<u64>) -> (r: Vec<[u8; 32]>)
    ensures
        word_views(r@) == uint_words(v@),
{
    let mut r: Vec<[u8; 32]> = Vec::new();
    let n = v.len();
    for i in 0..n
        invariant
            n == v@.len(),
            r@.len() == i,
            forall|j: int| 0 <= j < i ==> (#[trigger] r@[j])@ == be_word(v@[j] as nat),
    {
        let w = uint_arg(v[i]);
        r.push(w);
    }
    assert(word_views(r@) =~= uint_words(v@));
    r
}

/// What a reply states as one number, or the error.
pub open spec fn uint_result(raw: Seq<u8>) -> Result<nat, Seq<char>> {
    if raw.len() == 32 {
        Ok(be_number(raw))
    } else {
        Err(abi_error_text("uint256"@, raw))
    }
}

/// Reads a reply that is one number.
pub fn read_uint(raw: &Vec<u8>) -> (r: Result<U256, String>)
    ensures
        match r {
            Ok(n) => uint_result(raw@) == Ok::<nat, Seq<char>>(n@),
            Err(e) => uint_result(raw@) == Err::<nat, Seq<char>>(e@),
        },
{
    decode_uint(raw.as_slice())
}

/// What a reply states as one address, or the error.
pub open spec fn address_result(raw: Seq<u8>) -> Result<Seq<u8>, Seq<char>> {
    if raw.len() == 32 && narrow(raw, 20) {
        Ok(raw.skip(12))
    } else {
        Err(abi_error_text("address"@, raw))
    }
}

/// Reads a reply that is one address.
pub fn read_address(raw: &Vec<u8>) -> (r: Result<Address, String>)
    ensures
        match r {
            Ok(a) => address_result(raw@) == Ok::<Seq<u8>, Seq<char>>(a@),
            Err(e) => address_result(raw@) == Err::<Seq<u8>, Seq<char>>(e@),
        },
{
    decode_address(raw.as_slice())
}

/// What a reply states as one boolean, or the error.
pub open spec fn bool_result(raw: Seq<u8>) -> Result<bool, Seq<char>> {
    if raw.len() == 32 && narrow(raw, 1) {
        Ok(raw[31] != 0)
    } else {
        Err(abi_error_text("bool"@, raw))
    }
}

/// Reads a reply that is one boolean.
pub fn read_bool(raw: &Vec<u8>) -> (r: Result<bool, String>)
    ensures
        match r {
            Ok(b) => bool_result(raw@) == Ok::<bool, Seq<char>>(b),
            Err(e) => bool_result(raw@) == Err::<bool, Seq<char>>(e@),
        },
{
    decode_bool(raw.as_slice())
}

/// Reads a reply that is one signed 24-bit number.
pub fn read_int24(raw: &Vec<u8>) -> (r: Result<i32, String>)
    ensures
        match r {
            Ok(n) => -0x80_0000 <= n < 0x80_0000 && raw@ == int_word(n as int),
            Err(e) => (forall|n: int| -0x80_0000 <= n < 0x80_0000 ==> raw@ != #[trigger] int_word(n)) && e@
                == abi_error_text("int24"@, raw@),
        },
{
    decode_int24(raw.as_slice())
}

/// Reads a reply that is a listing.
pub fn read_listing(raw: &Vec<u8>) -> (r: Result<Listing, String>)
    ensures
        match r {
            Ok(l) => listing_reply(raw@) && l.seller@ == listed_seller(raw@) && l.price_wei@
                == listed_price(raw@) && l.listed_at == listed_time(raw@),
            Err(e) => !listing_reply(raw@) && e@ == abi_error_text("(address,uint256,uint64)"@, raw@),
        },
{
    decode_listing(raw.as_slice())
}

/// What a reply states as the amount of a quote, or the error.
pub open spec fn quote_result(raw: Seq<u8>) -> Result<nat, Seq<char>> {
    if quote_reply(raw) {
        Ok(be_number(word_at(raw, 0)))
    } else {
        Err(abi_error_text("uint256,uint160,uint32,uint256"@, raw))
    }
}

/// Reads the amount of a quote.
pub fn read_quote(raw: &Vec<u8>) -> (r: Result<U256, String>)
    ensures
        match r {
            Ok(n) => quote_result(raw@) == Ok::<nat, Seq<char>>(n@),
            Err(e) => quote_result(raw@) == Err::<nat, Seq<char>>(e@),
        },
{
    decode_quote(raw.as_slice())
}

/// The hash that a commit binds: of the answer, the agent and the nonce, in this order.
pub open spec fn commit_digest(answer: Seq<char>, agent: Seq<u8>, nonce: Seq<u8>) -> Seq<u8> {
    Seq::new(32, |i: int| keccak(encode_utf8(answer) + agent + nonce)[i])
}

/// The hash that a commit binds, as the contract computes it at reveal from the guess, the sender and
/// the nonce.
pub fn commit_hash(answer: &str, agent: &Address, nonce: &[u8; 32]) -> (r: [u8; 32])
    ensures
        r@ == commit_digest(answer@, agent@, nonce@),
        r@ == keccak(encode_utf8(answer@) + agent@ + nonce@),
{
    let empty: Vec<u8> = Vec::new();
    let a = chain_bytes(empty, answer.as_bytes());
    let b = chain_bytes(a, agent.bytes.as_slice());
    let c = chain_bytes(b, nonce.as_slice());
    assert(c@ =~= encode_utf8(answer@) + agent@ + nonce@);
    let r = keccak256(c.as_slice());
    assert(r@ =~= commit_digest(answer@, agent@, nonce@));
    r
}

/// Argument number `i` of a call: the word that begins 32 bytes after the one before, behind the four bytes of the
/// selector.
pub open spec fn arg_at(data: Seq<u8>, i: int) -> Seq<u8> {
    data.subrange(4 + 32 * i, 36 + 32 * i)
}

/// The word of an address states the same number as the address.
pub proof fn law_address_word(a: Seq<u8>)
    requires
        a.len() == 20,
    ensures
        be_number(address_word(a)) == be_number(a),
        address_result(address_word(a)) == Ok::<Seq<u8>, Seq<char>>(a),
{
    let w = address_word(a);
    lemma_be_leading_zeros(w, 12);
    assert(w.skip(12) =~= a);
}

/// Words that follow each other can be cut apart again.
pub proof fn lemma_flat(ws: Seq<Seq<u8>>)
    requires
        forall|j: int| 0 <= j < ws.len() ==> (#[trigger] ws[j]).len() == 32,
    ensures
        flat(ws).len() == 32 * ws.len(),
        forall|i: int| 0 <= i < ws.len() ==> #[trigger] flat(ws).subrange(32 * i, 32 * i + 32) == ws[i],
    decreases ws.len(),
{
    if ws.len() > 0 {
        let front = ws.drop_last();
        assert forall|j: int| 0 <= j < front.len() implies (#[trigger] front[j]).len() == 32 by {
            assert(front[j] == ws[j]);
        }
        lemma_flat(front);
        assert(ws.last() == ws[ws.len() - 1]);
        assert forall|i: int| 0 <= i < ws.len() implies #[trigger] flat(ws).subrange(32 * i, 32 * i + 32)
            == ws[i] by {
            if i < front.len() {
                assert(flat(ws).subrange(32 * i, 32 * i + 32) =~= flat(front).subrange(32 * i, 32 * i + 32));
                assert(front[i] == ws[i]);
            } else {
                assert(flat(ws).subrange(32 * i, 32 * i + 32) =~= ws.last());
            }
        }
    }
}

/// The arguments of a call whose arguments are words can be read off the call data.
pub proof fn lemma_static_args(sig: Seq<char>, args: Seq<Seq<u8>>)
    requires
        forall|j: int| 0 <= j < args.len() ==> (#[trigger] args[j]).len() == 32,
    ensures
        static_call(sig, args).len() == 4 + 32 * args.len(),
        static_call(sig, args).take(4) == selector_of(sig),
        forall|i: int| 0 <= i < args.len() ==> #[trigger] arg_at(static_call(sig, args), i) == args[i],
{
    lemma_flat(args);
    let d = static_call(sig, args);
    assert(d.take(4) =~= selector_of(sig));
    assert forall|i: int| 0 <= i < args.len() implies #[trigger] arg_at(d, i) == args[i] by {
        assert(arg_at(d, i) =~= flat(args).subrange(32 * i, 32 * i + 32));
    }
}

/// The word of a number has 32 bytes, and those of an address as many where the address has 20.
pub proof fn lemma_word_lengths()
    ensures
        forall|n: nat| (#[trigger] be_word(n)).len() == 32,
        forall|a: Seq<u8>| a.len() == 20 ==> (#[trigger] address_word(a)).len() == 32,
        forall|n: nat| n < word_base() ==> be_number(#[trigger] be_word(n)) == n,
        forall|a: Seq<u8>| a.len() == 20 ==> address_result(#[trigger] address_word(a)) == Ok::<Seq<u8>, Seq<char>>(a),
{
    assert forall|n: nat| (#[trigger] be_word(n)).len() == 32 by {
        lemma_word_len(n);
    }
    assert forall|n: nat| n < word_base() implies be_number(#[trigger] be_word(n)) == n by {
        law_word_round_trip(n);
    }
    assert forall|a: Seq<u8>| a.len() == 20 implies address_result(#[trigger] address_word(a)) == Ok::<Seq<u8>, Seq<char>>(a) by {
        law_address_word(a);
    }
}

/// A number that is written as a word is read back as the same number.
pub proof fn law_uint_reply(n: nat)
    requires
        n < word_base(),
    ensures
        uint_result(be_word(n)) == Ok::<nat, Seq<char>>(n),
{
    law_word_round_trip(n);
}

/// The hash that a commit binds is the hash of bytes that begin with the answer, go on with the twenty bytes of
/// the agent and end with the nonce, as the contract packs them at reveal.
pub proof fn law_commit_hash_packs(answer: Seq<char>, agent: Seq<u8>, nonce: Seq<u8>, packed: Seq<u8>)
    requires
        agent.len() == 20,
        nonce.len() == 32,
        packed.len() == encode_utf8(answer).len() + 52,
        packed.take(encode_utf8(answer).len() as int) == encode_utf8(answer),
        packed.subrange(encode_utf8(answer).len() as int, encode_utf8(answer).len() as int + 20) == agent,
        packed.skip(encode_utf8(answer).len() as int + 20) == nonce,
    ensures
        commit_digest(answer, agent, nonce).len() == 32,
        forall|i: int| 0 <= i < 32 ==> #[trigger] commit_digest(answer, agent, nonce)[i] == keccak(packed)[i],
{
    let n = encode_utf8(answer).len() as int;
    assert(packed =~= packed.take(n) + packed.subrange(n, n + 20) + packed.skip(n + 20));
}

/// A list of words at the end of call data can be read off: its length, then its words.
pub proof fn lemma_list_tail(ws: Seq<Seq<u8>>)
    requires
        forall|j: int| 0 <= j < ws.len() ==> (#[trigger] ws[j]).len() == 32,
    ensures
        list_tail(ws).len() == 32 + 32 * ws.len(),
        list_tail(ws).take(32) == be_word(ws.len()),
        forall|i: int| 0 <= i < ws.len() ==> #[trigger] list_tail(ws).subrange(32 + 32 * i, 64 + 32 * i) == ws[i],
{
    lemma_flat(ws);
    lemma_word_lengths();
    let t = list_tail(ws);
    assert(t.take(32) =~= be_word(ws.len()));
    assert forall|i: int| 0 <= i < ws.len() implies #[trigger] t.subrange(32 + 32 * i, 64 + 32 * i) == ws[i] by {
        assert(t.subrange(32 + 32 * i, 64 + 32 * i) =~= flat(ws).subrange(32 * i, 32 * i + 32));
    }
}

/// A signed number is encoded as itself where it is not negative, and else by its distance below the base of a word.
pub proof fn law_signed_word(n: int)
    requires
        -word_base() < n < word_base(),
    ensures
        int_word(n).len() == 32,
        n >= 0 ==> be_number(int_word(n)) == n,
        n < 0 ==> be_number(int_word(n)) == word_base() + n,
{
    let m = if n < 0 { (word_base() + n) as nat } else { n as nat };
    law_word_round_trip(m);
    lemma_word_len(m);
}

} // verus!
