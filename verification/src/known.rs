//! The contracts on Base mainnet.
use vstd::prelude::*;

use crate::address::Address;

verus! {

/// Wrapped ETH. Its address is `0x4200000000000000000000000000000000000006`.
pub open spec fn weth_bytes() -> Seq<u8> {
    seq![
        0x42u8, 0x00u8, 0x00u8, 0x00u8, 0x00u8, 0x00u8, 0x00u8, 0x00u8, 0x00u8, 0x00u8,
        0x00u8, 0x00u8, 0x00u8, 0x00u8, 0x00u8, 0x00u8, 0x00u8, 0x00u8, 0x00u8, 0x06u8,
    ]
}

/// Wrapped ETH.
pub fn weth() -> (r: Address)
    ensures
        r@ == weth_bytes(),
{
    let bytes: [u8; 20] = [
        0x42, 0x00, 0x00, 0x00, 0x00, 0x00, 0x00, 0x00, 0x00, 0x00,
        0x00, 0x00, 0x00, 0x00, 0x00, 0x00, 0x00, 0x00, 0x00, 0x06,
    ];
    let r = Address { bytes };
    assert(r@ =~= weth_bytes());
    r
}

/// The dollar token. Its address is `0x833589fCD6eDb6E08f4c7C32D4f71b54bdA02913`.
pub open spec fn usdc_bytes() -> Seq<u8> {
    seq![
        0x83u8, 0x35u8, 0x89u8, 0xfcu8, 0xd6u8, 0xedu8, 0xb6u8, 0xe0u8, 0x8fu8, 0x4cu8,
        0x7cu8, 0x32u8, 0xd4u8, 0xf7u8, 0x1bu8, 0x54u8, 0xbdu8, 0xa0u8, 0x29u8, 0x13u8,
    ]
}

/// The dollar token.
pub fn usdc() -> (r: Address)
    ensures
        r@ == usdc_bytes(),
{
    let bytes: [u8; 20] = [
        0x83, 0x35, 0x89, 0xfc, 0xd6, 0xed, 0xb6, 0xe0, 0x8f, 0x4c,
        0x7c, 0x32, 0xd4, 0xf7, 0x1b, 0x54, 0xbd, 0xa0, 0x29, 0x13,
    ];
    let r = Address { bytes };
    assert(r@ =~= usdc_bytes());
    r
}

/// The staking token. Its address is `0x0000A1050AcF9DEA8af9c2E74f0D7CF43f1000A1`.
pub open spec fn awp_bytes() -> Seq<u8> {
    seq![
        0x00u8, 0x00u8, 0xa1u8, 0x05u8, 0x0au8, 0xcfu8, 0x9du8, 0xeau8, 0x8au8, 0xf9u8,
        0xc2u8, 0xe7u8, 0x4fu8, 0x0du8, 0x7cu8, 0xf4u8, 0x3fu8, 0x10u8, 0x00u8, 0xa1u8,
    ]
}

/// The staking token.
pub fn awp() -> (r: Address)
    ensures
        r@ == awp_bytes(),
{
    let bytes: [u8; 20] = [
        0x00, 0x00, 0xa1, 0x05, 0x0a, 0xcf, 0x9d, 0xea, 0x8a, 0xf9,
        0xc2, 0xe7, 0x4f, 0x0d, 0x7c, 0xf4, 0x3f, 0x10, 0x00, 0xa1,
    ];
    let r = Address { bytes };
    assert(r@ =~= awp_bytes());
    r
}

/// The contract that locks the staking token. Its address is `0x0000b534C63D78212f1BDCc315165852793A00A8`.
pub open spec fn ve_awp_bytes() -> Seq<u8> {
    seq![
        0x00u8, 0x00u8, 0xb5u8, 0x34u8, 0xc6u8, 0x3du8, 0x78u8, 0x21u8, 0x2fu8, 0x1bu8,
        0xdcu8, 0xc3u8, 0x15u8, 0x16u8, 0x58u8, 0x52u8, 0x79u8, 0x3au8, 0x00u8, 0xa8u8,
    ]
}

/// The contract that locks the staking token.
pub fn ve_awp() -> (r: Address)
    ensures
        r@ == ve_awp_bytes(),
{
    let bytes: [u8; 20] = [
        0x00, 0x00, 0xb5, 0x34, 0xc6, 0x3d, 0x78, 0x21, 0x2f, 0x1b,
        0xdc, 0xc3, 0x15, 0x16, 0x58, 0x52, 0x79, 0x3a, 0x00, 0xa8,
    ];
    let r = Address { bytes };
    assert(r@ =~= ve_awp_bytes());
    r
}

/// The contract that allocates locked stake to agents. Its address is `0x0000D6BB5e040E35081b3AaF59DD71b21C9800AA`.
pub open spec fn awp_allocator_bytes() -> Seq<u8> {
    seq![
        0x00u8, 0x00u8, 0xd6u8, 0xbbu8, 0x5eu8, 0x04u8, 0x0eu8, 0x35u8, 0x08u8, 0x1bu8,
        0x3au8, 0xafu8, 0x59u8, 0xddu8, 0x71u8, 0xb2u8, 0x1cu8, 0x98u8, 0x00u8, 0xaau8,
    ]
}

/// The contract that allocates locked stake to agents.
pub fn awp_allocator() -> (r: Address)
    ensures
        r@ == awp_allocator_bytes(),
{
    let bytes: [u8; 20] = [
        0x00, 0x00, 0xd6, 0xbb, 0x5e, 0x04, 0x0e, 0x35, 0x08, 0x1b,
        0x3a, 0xaf, 0x59, 0xdd, 0x71, 0xb2, 0x1c, 0x98, 0x00, 0xaa,
    ];
    let r = Address { bytes };
    assert(r@ =~= awp_allocator_bytes());
    r
}

/// The router of the exchange for ETH and dollars. Its address is `0x2626664c2603336E57B271c5C0b26F421741e481`.
pub open spec fn uni_v3_router_bytes() -> Seq<u8> {
    seq![
        0x26u8, 0x26u8, 0x66u8, 0x4cu8, 0x26u8, 0x03u8, 0x33u8, 0x6eu8, 0x57u8, 0xb2u8,
        0x71u8, 0xc5u8, 0xc0u8, 0xb2u8, 0x6fu8, 0x42u8, 0x17u8, 0x41u8, 0xe4u8, 0x81u8,
    ]
}

/// The router of the exchange for ETH and dollars.
pub fn uni_v3_router() -> (r: Address)
    ensures
        r@ == uni_v3_router_bytes(),
{
    let bytes: [u8; 20] = [
        0x26, 0x26, 0x66, 0x4c, 0x26, 0x03, 0x33, 0x6e, 0x57, 0xb2,
        0x71, 0xc5, 0xc0, 0xb2, 0x6f, 0x42, 0x17, 0x41, 0xe4, 0x81,
    ];
    let r = Address { bytes };
    assert(r@ =~= uni_v3_router_bytes());
    r
}

/// The quoter of the exchange for ETH and dollars. Its address is `0x3d4e44Eb1374240CE5F1B871ab261CD16335B76a`.
pub open spec fn uni_v3_quoter_bytes() -> Seq<u8> {
    seq![
        0x3du8, 0x4eu8, 0x44u8, 0xebu8, 0x13u8, 0x74u8, 0x24u8, 0x0cu8, 0xe5u8, 0xf1u8,
        0xb8u8, 0x71u8, 0xabu8, 0x26u8, 0x1cu8, 0xd1u8, 0x63u8, 0x35u8, 0xb7u8, 0x6au8,
    ]
}

/// The quoter of the exchange for ETH and dollars.
pub fn uni_v3_quoter() -> (r: Address)
    ensures
        r@ == uni_v3_quoter_bytes(),
{
    let bytes: [u8; 20] = [
        0x3d, 0x4e, 0x44, 0xeb, 0x13, 0x74, 0x24, 0x0c, 0xe5, 0xf1,
        0xb8, 0x71, 0xab, 0x26, 0x1c, 0xd1, 0x63, 0x35, 0xb7, 0x6a,
    ];
    let r = Address { bytes };
    assert(r@ =~= uni_v3_quoter_bytes());
    r
}

/// The router of the exchange for dollars and the staking token. Its address is `0xcbBb8035cAc7D4B3Ca7aBb74cF7BdF900215Ce0D`.
pub open spec fn aero_cl_router_bytes() -> Seq<u8> {
    seq![
        0xcbu8, 0xbbu8, 0x80u8, 0x35u8, 0xcau8, 0xc7u8, 0xd4u8, 0xb3u8, 0xcau8, 0x7au8,
        0xbbu8, 0x74u8, 0xcfu8, 0x7bu8, 0xdfu8, 0x90u8, 0x02u8, 0x15u8, 0xceu8, 0x0du8,
    ]
}

/// The router of the exchange for dollars and the staking token.
pub fn aero_cl_router() -> (r: Address)
    ensures
        r@ == aero_cl_router_bytes(),
{
    let bytes: [u8; 20] = [
        0xcb, 0xbb, 0x80, 0x35, 0xca, 0xc7, 0xd4, 0xb3, 0xca, 0x7a,
        0xbb, 0x74, 0xcf, 0x7b, 0xdf, 0x90, 0x02, 0x15, 0xce, 0x0d,
    ];
    let r = Address { bytes };
    assert(r@ =~= aero_cl_router_bytes());
    r
}

/// The quoter of the exchange for dollars and the staking token. Its address is `0x3d4C22254F86f64B7eC90ab8F7aeC1FBFD271c6C`.
pub open spec fn aero_cl_quoter_bytes() -> Seq<u8> {
    seq![
        0x3du8, 0x4cu8, 0x22u8, 0x25u8, 0x4fu8, 0x86u8, 0xf6u8, 0x4bu8, 0x7eu8, 0xc9u8,
        0x0au8, 0xb8u8, 0xf7u8, 0xaeu8, 0xc1u8, 0xfbu8, 0xfdu8, 0x27u8, 0x1cu8, 0x6cu8,
    ]
}

/// The quoter of the exchange for dollars and the staking token.
pub fn aero_cl_quoter() -> (r: Address)
    ensures
        r@ == aero_cl_quoter_bytes(),
{
    let bytes: [u8; 20] = [
        0x3d, 0x4c, 0x22, 0x25, 0x4f, 0x86, 0xf6, 0x4b, 0x7e, 0xc9,
        0x0a, 0xb8, 0xf7, 0xae, 0xc1, 0xfb, 0xfd, 0x27, 0x1c, 0x6c,
    ];
    let r = Address { bytes };
    assert(r@ =~= aero_cl_quoter_bytes());
    r
}

/// The pool of dollars and the staking token. Its address is `0x1d561b036d84a24c2bf38898a65bb65e5353f6c4`.
pub open spec fn aero_usdc_awp_pool_bytes() -> Seq<u8> {
    seq![
        0x1du8, 0x56u8, 0x1bu8, 0x03u8, 0x6du8, 0x84u8, 0xa2u8, 0x4cu8, 0x2bu8, 0xf3u8,
        0x88u8, 0x98u8, 0xa6u8, 0x5bu8, 0xb6u8, 0x5eu8, 0x53u8, 0x53u8, 0xf6u8, 0xc4u8,
    ]
}

/// The pool of dollars and the staking token.
pub fn aero_usdc_awp_pool() -> (r: Address)
    ensures
        r@ == aero_usdc_awp_pool_bytes(),
{
    let bytes: [u8; 20] = [
        0x1d, 0x56, 0x1b, 0x03, 0x6d, 0x84, 0xa2, 0x4c, 0x2b, 0xf3,
        0x88, 0x98, 0xa6, 0x5b, 0xb6, 0x5e, 0x53, 0x53, 0xf6, 0xc4,
    ];
    let r = Address { bytes };
    assert(r@ =~= aero_usdc_awp_pool_bytes());
    r
}

/// The contract that takes commits. Its address is `0xA57d8E6646E063FFd6eae579d4f327b689dA5DC3`.
pub open spec fn epoch_draw_bytes() -> Seq<u8> {
    seq![
        0xa5u8, 0x7du8, 0x8eu8, 0x66u8, 0x46u8, 0xe0u8, 0x63u8, 0xffu8, 0xd6u8, 0xeau8,
        0xe5u8, 0x79u8, 0xd4u8, 0xf3u8, 0x27u8, 0xb6u8, 0x89u8, 0xdau8, 0x5du8, 0xc3u8,
    ]
}

/// The contract that takes commits.
pub fn epoch_draw() -> (r: Address)
    ensures
        r@ == epoch_draw_bytes(),
{
    let bytes: [u8; 20] = [
        0xa5, 0x7d, 0x8e, 0x66, 0x46, 0xe0, 0x63, 0xff, 0xd6, 0xea,
        0xe5, 0x79, 0xd4, 0xf3, 0x27, 0xb6, 0x89, 0xda, 0x5d, 0xc3,
    ];
    let r = Address { bytes };
    assert(r@ =~= epoch_draw_bytes());
    r
}

} // verus!
