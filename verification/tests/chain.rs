use ardi_agent::address::{sorted_addresses, Address};
use ardi_agent::bytes::to_hex_0x;
use ardi_agent::chain;
use ardi_agent::known;
use ardi_agent::u256::U256;
use sha3::{Digest, Keccak256};

fn address(text: &str) -> Address {
    match Address::parse(text) {
        Ok(a) => a,
        Err(e) => panic!("{}", e),
    }
}

fn word(hex_text: &str) -> Vec<u8> {
    hex::decode(format!("{:0>64}", hex_text)).unwrap()
}

fn words(list: &[&str]) -> Vec<u8> {
    let mut r = Vec::new();
    for w in list {
        r.extend(word(w));
    }
    r
}

#[test]
fn commit_hash_matches_v3_layout() {
    let agent: [u8; 20] = hex::decode("46a1eee3d800799726faaf18f28360eb2e97ad63").unwrap().try_into().unwrap();
    let nonce: [u8; 32] = [0x11u8; 32];

    let mut h = Keccak256::new();
    h.update(b"bitcoin");
    h.update(agent);
    h.update(nonce);
    let expected: [u8; 32] = h.finalize().into();

    assert_eq!(chain::commit_hash("bitcoin", &Address { bytes: agent }, &nonce), expected);
}

#[test]
fn commit_hash_depends_on_every_part() {
    let a = Address { bytes: [1u8; 20] };
    let b = Address { bytes: [2u8; 20] };
    let base = chain::commit_hash("x", &a, &[3u8; 32]);
    assert_ne!(base, chain::commit_hash("y", &a, &[3u8; 32]));
    assert_ne!(base, chain::commit_hash("x", &b, &[3u8; 32]));
    assert_ne!(base, chain::commit_hash("x", &a, &[4u8; 32]));
}

#[test]
fn selectors_are_the_first_four_bytes_of_the_hash() {
    assert_eq!(to_hex_0x(&chain::call0("WETH()")), "0xad5c4648");
    assert_eq!(to_hex_0x(&chain::call1("ownerOf(uint256)", chain::uint_arg(7)))[..10], *"0x6352211e");
}

#[test]
fn static_arguments_follow_the_selector() {
    let spender = address("0x91734696e8164cbf79b666569d2504b0e21218f6");
    let data = chain::call2("approve(address,uint256)", chain::address_arg(&spender), chain::uint_arg(255));
    assert_eq!(
        to_hex_0x(&data),
        "0x095ea7b300000000000000000000000091734696e8164cbf79b666569d2504b0e21218f600000000000000000000000000000000000000000000000000000000000000ff"
    );
    let flag = chain::call2("setApprovalForAll(address,bool)", chain::address_arg(&spender), chain::bool_arg(true));
    assert_eq!(flag[..4], [0xa2, 0x2c, 0xb4, 0x65]);
    assert_eq!(flag[67], 1);
    let three = chain::call3(
        "transferFrom(address,address,uint256)",
        chain::address_arg(&spender),
        chain::address_arg(&spender),
        chain::uint_arg(1),
    );
    assert_eq!(three[..4], [0x23, 0xb8, 0x72, 0xdd]);
    assert_eq!(three.len(), 100);
}

#[test]
fn signed_argument_is_two_complement() {
    assert_eq!(chain::int_arg(-2), [&[0xffu8; 31][..], &[0xfeu8][..]].concat()[..]);
    assert_eq!(chain::int_arg(200)[31], 200);
    assert_eq!(chain::int_arg(200)[..31], [0u8; 31]);
}

#[test]
fn uint_reply_is_one_word() {
    let n = chain::read_uint(&word("ff00")).unwrap();
    assert_eq!(n.to_u128(), Some(0xff00));
    assert!(chain::read_uint(&Vec::new()).is_err());
    assert!(chain::read_uint(&vec![0u8; 31]).is_err());
    assert!(chain::read_uint(&vec![0u8; 64]).is_err());
}

#[test]
fn address_reply_is_narrow() {
    let a = chain::read_address(&word("91734696e8164cbf79b666569d2504b0e21218f6")).unwrap();
    assert_eq!(a.lower(), "0x91734696e8164cbf79b666569d2504b0e21218f6");
    assert!(chain::read_address(&vec![0xffu8; 32]).is_err());
    assert!(chain::read_address(&vec![0u8; 20]).is_err());
}

#[test]
fn bool_reply_is_narrow() {
    assert_eq!(chain::read_bool(&word("1")), Ok(true));
    assert_eq!(chain::read_bool(&word("0")), Ok(false));
    assert_eq!(chain::read_bool(&word("2")), Ok(true));
    assert!(chain::read_bool(&word("100")).is_err());
    assert!(chain::read_bool(&Vec::new()).is_err());
}

#[test]
fn tick_spacing_reply_is_signed() {
    assert_eq!(chain::read_int24(&word("c8")), Ok(200));
    let mut minus_one = vec![0xffu8; 32];
    assert_eq!(chain::read_int24(&minus_one), Ok(-1));
    minus_one[0] = 0;
    assert!(chain::read_int24(&minus_one).is_err());
    assert!(chain::read_int24(&word("800000")).is_err());
    assert!(chain::read_int24(&vec![0u8; 31]).is_err());
}

#[test]
fn listing_reply_has_three_words() {
    let raw = words(&["91734696e8164cbf79b666569d2504b0e21218f6", "de0b6b3a7640000", "65"]);
    let l = chain::read_listing(&raw).unwrap();
    assert_eq!(l.seller.lower(), "0x91734696e8164cbf79b666569d2504b0e21218f6");
    assert_eq!(l.price_wei.to_u128(), Some(1_000_000_000_000_000_000));
    assert_eq!(l.listed_at, 0x65);
    assert!(chain::read_listing(&raw[..95].to_vec()).is_err());
    assert!(chain::read_listing(&words(&["0", "0", "10000000000000000"])).is_err());
    assert!(chain::read_listing(&vec![0xffu8; 96]).is_err());
}

#[test]
fn quote_reply_starts_with_the_amount() {
    let n = chain::read_quote(&words(&["2a", "1", "2", "3"])).unwrap();
    assert_eq!(n.to_u128(), Some(42));
    assert!(chain::read_quote(&words(&["2a"])).is_err());
    assert!(chain::read_quote(&words(&["2a", "1", "100000000", "3"])).is_err());
}

#[test]
fn address_text_is_hex_with_or_without_prefix() {
    let with = address("0x91734696e8164cbf79b666569d2504b0e21218f6");
    let without = address("91734696E8164CBF79B666569D2504B0E21218F6");
    assert!(with.same(&without));
    assert!(Address::parse("0x91734696").is_err());
    assert!(Address::parse("0x91734696e8164cbf79b666569d2504b0e21218zz").is_err());
    assert!(Address::parse("").is_err());
    assert!(Address::zero().is_zero());
    assert!(!with.is_zero());
}

#[test]
fn address_word_round_trip() {
    let a = address("0x91734696e8164cbf79b666569d2504b0e21218f6");
    let w = chain::address_arg(&a);
    assert_eq!(w[..12], [0u8; 12]);
    assert!(Address::from_word(&w.to_vec(), 0).same(&a));
    assert!(chain::read_address(&w.to_vec()).unwrap().same(&a));
}

#[test]
fn addresses_are_sorted_without_repeats() {
    let a = Address { bytes: [1u8; 20] };
    let b = Address { bytes: [2u8; 20] };
    let c = Address { bytes: [3u8; 20] };
    let r = sorted_addresses(&vec![c, a, b, a, c]);
    assert_eq!(r.len(), 3);
    assert!(r[0].same(&a) && r[1].same(&b) && r[2].same(&c));
    assert!(a.before(&b) && !b.before(&a) && !a.before(&a));
}

#[test]
fn known_contracts_have_their_addresses() {
    assert!(known::weth().same(&address("0x4200000000000000000000000000000000000006")));
    assert!(known::usdc().same(&address("0x833589fCD6eDb6E08f4c7C32D4f71b54bdA02913")));
    assert!(known::awp().same(&address("0x0000A1050AcF9DEA8af9c2E74f0D7CF43f1000A1")));
    assert!(known::ve_awp().same(&address("0x0000b534C63D78212f1BDCc315165852793A00A8")));
    assert!(known::awp_allocator().same(&address("0x0000D6BB5e040E35081b3AaF59DD71b21C9800AA")));
    assert!(known::uni_v3_router().same(&address("0x2626664c2603336E57B271c5C0b26F421741e481")));
    assert!(known::uni_v3_quoter().same(&address("0x3d4e44Eb1374240CE5F1B871ab261CD16335B76a")));
    assert!(known::aero_cl_router().same(&address("0xcbBb8035cAc7D4B3Ca7aBb74cF7BdF900215Ce0D")));
    assert!(known::aero_cl_quoter().same(&address("0x3d4C22254F86f64B7eC90ab8F7aeC1FBFD271c6C")));
    assert!(known::aero_usdc_awp_pool().same(&address("0x1d561b036d84a24c2bf38898a65bb65e5353f6c4")));
    assert!(known::epoch_draw().same(&address("0xA57d8E6646E063FFd6eae579d4f327b689dA5DC3")));
}

#[test]
fn word_arithmetic_matches_the_integers() {
    let a = U256::of_u128(1_000_000_000_000_000_000_000);
    let b = U256::of_u64(7);
    assert_eq!(a.checked_mul(&b).unwrap().decimal(), "7000000000000000000000");
    assert_eq!(a.wrapping_mul(&b).decimal(), "7000000000000000000000");
    assert_eq!(a.saturating_mul(&b).decimal(), "7000000000000000000000");
    assert_eq!(a.saturating_add(&b).decimal(), "1000000000000000000007");
    assert_eq!(a.minus(&b).decimal(), "999999999999999999993");
    assert_eq!(a.div(&b).decimal(), "142857142857142857142");
    assert!(b.less(&a) && !a.less(&b) && !a.less(&a));
    assert_eq!(a.min(b).decimal(), "7");
    assert!(U256::zero().is_zero());
    assert!(!b.is_zero());
    assert_eq!(a.to_u128(), Some(1_000_000_000_000_000_000_000));
}

#[test]
fn word_arithmetic_at_the_top() {
    let top = U256::max();
    let two = U256::of_u64(2);
    assert_eq!(top.decimal(), "115792089237316195423570985008687907853269984665640564039457584007913129639935");
    assert!(top.checked_mul(&two).is_none());
    assert_eq!(top.saturating_mul(&two).decimal(), top.decimal());
    assert_eq!(top.saturating_add(&two).decimal(), top.decimal());
    assert_eq!(
        top.wrapping_mul(&two).decimal(),
        "115792089237316195423570985008687907853269984665640564039457584007913129639934"
    );
    assert_eq!(top.to_u128(), None);
    assert_eq!(top.to_be_bytes(), [0xffu8; 32]);
}

#[test]
fn word_text_and_bytes_round_trip() {
    let n = U256::from_decimal("340282366920938463463374607431768211456").unwrap();
    assert_eq!(n.to_u128(), None);
    assert_eq!(n.decimal(), "340282366920938463463374607431768211456");
    assert_eq!(U256::from_be_slice(&n.to_be_bytes()).decimal(), n.decimal());
    assert_eq!(U256::from_decimal("1_000").unwrap().decimal(), "1000");
    assert!(U256::from_decimal("12x").is_none());
    assert!(U256::from_decimal("115792089237316195423570985008687907853269984665640564039457584007913129639936").is_none());
}
