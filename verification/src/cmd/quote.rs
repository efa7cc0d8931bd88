//! How much ETH buys some AWP: two quotes from the chain, scaled to the amount.
use vstd::prelude::*;

use crate::address::Address;
use crate::bytes::be_number;
use crate::chain::{
    abi_error_text, address_arg, address_result, address_word, arg_at, call, call0, call1, call2, int_arg, int_word,
    lemma_static_args, lemma_word_lengths, quote_result, read_int24, read_quote, selector_of, static_call, uint_arg,
    word_views,
};
use crate::fault::{caused_v, fault_v, Fault};
use crate::flow::{stray, stray_v, Action, ActionV, Reply, Step};
use crate::known::{
    aero_cl_quoter, aero_cl_quoter_bytes, aero_usdc_awp_pool, aero_usdc_awp_pool_bytes, awp, awp_bytes,
    uni_v3_quoter, uni_v3_quoter_bytes, usdc, usdc_bytes, weth, weth_bytes,
};
use crate::u256::{be_word, word_base, U256};

verus! {

/// The dollars of the first quote: 100 USDC.
pub const PROBE_USDC: u64 = 100_000_000;

/// The ETH of the second quote: 0.001 ETH.
pub const PROBE_ETH_WEI: u64 = 1_000_000_000_000_000;

/// The fee of the pool of ETH and dollars, in millionths.
pub const ETH_USDC_FEE: u64 = 500;

/// The product of two numbers, cut off to a word.
pub open spec fn times(a: nat, b: nat) -> nat {
    (a * b) % word_base()
}

/// What remains of an amount after the slippage, in basis points.
pub open spec fn slipped(amount: nat, bps: u32) -> nat {
    times(amount, (10_000 - bps) as nat) / 10_000
}

/// What remains of an amount after the slippage, in basis points.
pub fn apply_slippage(amount: &U256, bps: u32) -> (r: U256)
    requires
        bps <= 10_000,
    ensures
        r@ == slipped(amount@, bps),
{
    amount.wrapping_mul(&U256::of_u64((10_000 - bps) as u64)).div(&U256::of_u64(10_000))
}

/// An amount and five percent more, so that the swap does not fall short.
pub open spec fn buffered(amount: nat) -> nat {
    times(amount, 105) / 100
}

/// An amount and five percent more.
pub fn with_buffer(amount: &U256) -> (r: U256)
    ensures
        r@ == buffered(amount@),
{
    amount.wrapping_mul(&U256::of_u64(105)).div(&U256::of_u64(100))
}

/// The slippage keeps an amount between the part that was asked for and the whole, up to rounding.
pub proof fn law_slippage_bounds(amount: nat, bps: u32)
    requires
        bps <= 10_000,
        amount * 10_000 < word_base(),
    ensures
        slipped(amount, bps) <= amount,
        slipped(amount, bps) * 10_000 <= amount * (10_000 - bps) < (slipped(amount, bps) + 1) * 10_000,
{
    let k = (10_000 - bps) as nat;
    assert(amount * k <= amount * 10_000) by (nonlinear_arith)
        requires
            k <= 10_000,
    ;
    let p = amount * k;
    vstd::arithmetic::div_mod::lemma_small_mod(p, word_base());
    assert(slipped(amount, bps) == p / 10_000);
    assert(p == 10_000 * (p / 10_000) + p % 10_000);
}

/// The buffer never makes an amount smaller.
pub proof fn law_buffer_adds(amount: nat)
    requires
        amount * 105 < word_base(),
    ensures
        amount <= buffered(amount),
        buffered(amount) * 100 <= amount * 105 < (buffered(amount) + 1) * 100,
{
    vstd::arithmetic::div_mod::lemma_small_mod(amount * 105, word_base());
}

/// What a purchase costs.
#[derive(Clone, Copy)]
pub struct Quote {
    /// The dollars that buy the AWP, at the quoted rate.
    pub usdc_needed: U256,
    /// The dollars with the buffer.
    pub usdc_buffer: U256,
    /// The wei that buy the dollars with the buffer, at the quoted rate.
    pub eth_needed: U256,
}

/// Fetching the quotes for some AWP.
pub enum Quoting {
    /// The tick spacing of the pool is read.
    Tick(u128, bool),
    /// The rate of dollars to AWP is read.
    Rate(u128, bool),
    /// The rate of ETH to dollars is read.
    Eth(U256, bool),
}

/// A balance that a token contract is asked for.
pub open spec fn balance_call(owner: Seq<u8>) -> Seq<u8> {
    static_call("balanceOf(address)"@, seq![address_word(owner)])
}

/// The action that asks a token contract for a balance.
pub fn ask_balance(token: Address, owner: &Address) -> (r: Action)
    ensures
        r@ == ActionV::View(token@, balance_call(owner@)),
{
    Action::View(token, call1("balanceOf(address)", address_arg(owner)))
}

/// An allowance that a token contract is asked for.
pub open spec fn allowance_call(owner: Seq<u8>, spender: Seq<u8>) -> Seq<u8> {
    static_call("allowance(address,address)"@, seq![address_word(owner), address_word(spender)])
}

/// The action that asks a token contract for an allowance.
pub fn ask_allowance(token: Address, owner: &Address, spender: &Address) -> (r: Action)
    ensures
        r@ == ActionV::View(token@, allowance_call(owner@, spender@)),
{
    Action::View(token, call2("allowance(address,address)", address_arg(owner), address_arg(spender)))
}

/// The action that reads the tick spacing of the pool of dollars and AWP.
pub open spec fn tick_action() -> ActionV {
    ActionV::View(aero_usdc_awp_pool_bytes(), static_call("tickSpacing()"@, Seq::empty()))
}

/// The action that reads the tick spacing of the pool of dollars and AWP.
pub fn ask_tick() -> (r: Action)
    ensures
        r@ == tick_action(),
{
    Action::View(aero_usdc_awp_pool(), call0("tickSpacing()"))
}

/// Whether a reply is one signed 24-bit number.
pub open spec fn tick_reply(raw: Seq<u8>) -> bool {
    exists|n: int| -0x80_0000 <= n < 0x80_0000 && raw == #[trigger] int_word(n)
}

/// The word of the tick spacing that a reply states, or the error.
pub open spec fn tick_result(raw: Seq<u8>) -> Result<Seq<u8>, Seq<char>> {
    if tick_reply(raw) {
        Ok(raw)
    } else {
        Err(abi_error_text("int24"@, raw))
    }
}

/// Reads the tick spacing, as the word that later calls hold.
pub fn read_tick(raw: &Vec<u8>) -> (r: Result<[u8; 32], String>)
    ensures
        match r {
            Ok(w) => tick_result(raw@) == Ok::<Seq<u8>, Seq<char>>(w@),
            Err(e) => tick_result(raw@) == Err::<Seq<u8>, Seq<char>>(e@),
        },
{
    match read_int24(raw) {
        Ok(n) => Ok(int_arg(n)),
        Err(e) => Err(e),
    }
}

/// The call that asks how much AWP the first quote buys.
pub open spec fn rate_call(tick: Seq<u8>) -> Seq<u8> {
    static_call(
        "quoteExactInputSingle((address,address,uint256,int24,uint160))"@,
        seq![
            address_word(usdc_bytes()),
            address_word(awp_bytes()),
            be_word(PROBE_USDC as nat),
            tick,
            be_word(0),
        ],
    )
}

fn ask_rate(tick: [u8; 32]) -> (r: Action)
    ensures
        r@ == ActionV::View(aero_cl_quoter_bytes(), rate_call(tick@)),
{
    let mut args: Vec<[u8; 32]> = Vec::new();
    args.push(address_arg(&usdc()));
    args.push(address_arg(&awp()));
    args.push(uint_arg(PROBE_USDC));
    args.push(tick);
    args.push(uint_arg(0));
    let data = call("quoteExactInputSingle((address,address,uint256,int24,uint160))", &args);
    assert(word_views(args@) =~= seq![
        address_word(usdc_bytes()),
        address_word(awp_bytes()),
        be_word(PROBE_USDC as nat),
        tick@,
        be_word(0),
    ]);
    Action::View(aero_cl_quoter(), data)
}

/// The call that asks how many dollars the ETH of the second quote buys.
pub open spec fn eth_call() -> Seq<u8> {
    static_call(
        "quoteExactInputSingle((address,address,uint256,uint24,uint160))"@,
        seq![
            address_word(weth_bytes()),
            address_word(usdc_bytes()),
            be_word(PROBE_ETH_WEI as nat),
            be_word(ETH_USDC_FEE as nat),
            be_word(0),
        ],
    )
}

fn ask_eth() -> (r: Action)
    ensures
        r@ == ActionV::View(uni_v3_quoter_bytes(), eth_call()),
{
    let mut args: Vec<[u8; 32]> = Vec::new();
    args.push(address_arg(&weth()));
    args.push(address_arg(&usdc()));
    args.push(uint_arg(PROBE_ETH_WEI));
    args.push(uint_arg(ETH_USDC_FEE));
    args.push(uint_arg(0));
    let data = call("quoteExactInputSingle((address,address,uint256,uint24,uint160))", &args);
    assert(word_views(args@) =~= seq![
        address_word(weth_bytes()),
        address_word(usdc_bytes()),
        be_word(PROBE_ETH_WEI as nat),
        be_word(ETH_USDC_FEE as nat),
        be_word(0),
    ]);
    Action::View(uni_v3_quoter(), data)
}

/// Whether a step ends with this error, told with what failed where that is asked for.
pub open spec fn unquoted(r: Step<Quoting, Result<Quote, Fault>>, f: Seq<Seq<char>>, told: bool, what: Seq<char>) -> bool {
    r matches Step::End(Err(g)) && g@ == (if told {
        caused_v(what, f)
    } else {
        f
    })
}

fn unquote(f: Fault, told: bool, what: &str) -> (r: Step<Quoting, Result<Quote, Fault>>)
    ensures
        unquoted(r, f@, told, what@),
{
    if told {
        Step::End(Err(f.because(what)))
    } else {
        Step::End(Err(f))
    }
}

/// The error of a quote of nothing for dollars.
pub open spec fn drained_v() -> Seq<Seq<char>> {
    fault_v("Aerodrome quoter returned 0 AWP for 100 USDC probe — pool may be drained"@)
}

/// What comes next with the rate of dollars to AWP.
pub open spec fn rate_next(need: u128, told: bool, raw: Seq<u8>, r: Step<Quoting, Result<Quote, Fault>>) -> bool {
    match quote_result(raw) {
        Err(e) => unquoted(r, fault_v(e), told, "quote usdc→awp probe"@),
        Ok(got) => if got == 0 {
            r matches Step::End(Err(g)) && g@ == drained_v()
        } else {
            &&& r matches Step::Act(Quoting::Eth(n, t), a)
            &&& n@ == (PROBE_USDC as nat * need as nat) / got
            &&& t == told
            &&& a@ == ActionV::View(uni_v3_quoter_bytes(), eth_call())
        },
    }
}

/// Goes on with the rate of dollars to AWP: the dollars grow with the AWP.
pub fn with_rate(need: u128, told: bool, raw: &Vec<u8>) -> (r: Step<Quoting, Result<Quote, Fault>>)
    ensures
        rate_next(need, told, raw@, r),
{
    match read_quote(raw) {
        Err(e) => unquote(Fault::new(e), told, "quote usdc→awp probe"),
        Ok(got) => {
            if got.is_zero() {
                return Step::End(
                    Err(
                        Fault::of(
                            "Aerodrome quoter returned 0 AWP for 100 USDC probe — pool may be drained",
                        ),
                    ),
                );
            }
            proof {
                assert(PROBE_USDC as nat * need as nat <= 100_000_000 * 0xffff_ffff_ffff_ffff_ffff_ffff_ffff_ffffnat)
                    by (nonlinear_arith)
                    requires
                        PROBE_USDC == 100_000_000,
                        need <= 0xffff_ffff_ffff_ffff_ffff_ffff_ffff_ffff,
                ;
                vstd::arithmetic::div_mod::lemma_small_mod(PROBE_USDC as nat * need as nat, word_base());
            }
            let n = U256::of_u64(PROBE_USDC).wrapping_mul(&U256::of_u128(need)).div(&got);
            Step::Act(Quoting::Eth(n, told), ask_eth())
        },
    }
}

/// What comes of the rate of ETH to dollars.
pub open spec fn eth_next(usdc_needed: U256, told: bool, raw: Seq<u8>, r: Step<Quoting, Result<Quote, Fault>>) -> bool {
    let what = "quote eth→usdc"@;
    match quote_result(raw) {
        Err(e) => unquoted(r, fault_v(e), told, what),
        Ok(got) => if got == 0 {
            unquoted(r, fault_v("Uni V3 quoter returned 0 USDC for 0.001 ETH"@), told, what)
        } else if PROBE_ETH_WEI as nat * buffered(usdc_needed@) >= word_base() {
            unquoted(r, fault_v("eth*usdc overflow"@), told, what)
        } else {
            &&& r matches Step::End(Ok(q))
            &&& q.usdc_needed == usdc_needed
            &&& q.usdc_buffer@ == buffered(usdc_needed@)
            &&& q.eth_needed@ == (PROBE_ETH_WEI as nat * buffered(usdc_needed@)) / got
        },
    }
}

/// Ends with the rate of ETH to dollars: the ETH grows with the dollars.
pub fn with_eth(usdc_needed: U256, told: bool, raw: &Vec<u8>) -> (r: Step<Quoting, Result<Quote, Fault>>)
    ensures
        eth_next(usdc_needed, told, raw@, r),
{
    match read_quote(raw) {
        Err(e) => unquote(Fault::new(e), told, "quote eth→usdc"),
        Ok(got) => {
            if got.is_zero() {
                return unquote(
                    Fault::of("Uni V3 quoter returned 0 USDC for 0.001 ETH"),
                    told,
                    "quote eth→usdc",
                );
            }
            let usdc_buffer = with_buffer(&usdc_needed);
            match U256::of_u64(PROBE_ETH_WEI).checked_mul(&usdc_buffer) {
                None => unquote(Fault::of("eth*usdc overflow"), told, "quote eth→usdc"),
                Some(p) => Step::End(
                    Ok(Quote { usdc_needed, usdc_buffer, eth_needed: p.div(&got) }),
                ),
            }
        },
    }
}

/// What comes next when quotes are fetched.
pub open spec fn quoting_next(s: Quoting, reply: Reply, r: Step<Quoting, Result<Quote, Fault>>) -> bool {
    match (s, reply) {
        (Quoting::Tick(need, told), Reply::Bytes(Ok(raw))) => match tick_result(raw@) {
            Err(e) => unquoted(r, fault_v(e), told, "quote usdc→awp probe"@),
            Ok(tick) => {
                &&& r matches Step::Act(Quoting::Rate(n, t), a)
                &&& n == need
                &&& t == told
                &&& a@ == ActionV::View(aero_cl_quoter_bytes(), rate_call(tick))
            },
        },
        (Quoting::Tick(_, told), Reply::Bytes(Err(f))) => unquoted(r, f@, told, "quote usdc→awp probe"@),
        (Quoting::Rate(need, told), Reply::Bytes(Ok(raw))) => rate_next(need, told, raw@, r),
        (Quoting::Rate(_, told), Reply::Bytes(Err(f))) => unquoted(r, f@, told, "quote usdc→awp probe"@),
        (Quoting::Eth(n, told), Reply::Bytes(Ok(raw))) => eth_next(n, told, raw@, r),
        (Quoting::Eth(_, told), Reply::Bytes(Err(f))) => unquoted(r, f@, told, "quote eth→usdc"@),
        _ => r matches Step::End(Err(g)) && g@ == stray_v(),
    }
}

/// Starts to fetch the quotes for some AWP.
pub fn quote(need: u128, told: bool) -> (r: Step<Quoting, Result<Quote, Fault>>)
    ensures
        r matches Step::Act(Quoting::Tick(n, t), a) && n == need && t == told && a@ == tick_action(),
{
    Step::Act(Quoting::Tick(need, told), ask_tick())
}

impl Quoting {
    /// Goes on with the reply.
    pub fn step(self, reply: Reply) -> (r: Step<Quoting, Result<Quote, Fault>>)
        ensures
            quoting_next(self, reply, r),
    {
        match (self, reply) {
            (Quoting::Tick(need, told), Reply::Bytes(Ok(raw))) => match read_tick(&raw) {
                Err(e) => unquote(Fault::new(e), told, "quote usdc→awp probe"),
                Ok(tick) => Step::Act(Quoting::Rate(need, told), ask_rate(tick)),
            },
            (Quoting::Tick(_, told), Reply::Bytes(Err(f))) => unquote(f, told, "quote usdc→awp probe"),
            (Quoting::Rate(need, told), Reply::Bytes(Ok(raw))) => with_rate(need, told, &raw),
            (Quoting::Rate(_, told), Reply::Bytes(Err(f))) => unquote(f, told, "quote usdc→awp probe"),
            (Quoting::Eth(n, told), Reply::Bytes(Ok(raw))) => with_eth(n, told, &raw),
            (Quoting::Eth(_, told), Reply::Bytes(Err(f))) => unquote(f, told, "quote eth→usdc"),
            _ => Step::End(Err(stray())),
        }
    }
}

/// The quotes are asked for in the direction of the swaps: what 100 dollars give in AWP, at the tick spacing that
/// the pool stated, and what 0.001 ETH give in dollars.
pub proof fn law_quotes_ask_for_the_swaps(s: Quoting, reply: Reply, r: Step<Quoting, Result<Quote, Fault>>)
    requires
        quoting_next(s, reply, r),
    ensures
        r matches Step::Act(Quoting::Rate(need, _), a) ==> ({
            &&& s matches Quoting::Tick(n, _)
            &&& n == need
            &&& reply matches Reply::Bytes(Ok(raw))
            &&& a@ matches ActionV::View(to, data)
            &&& to == aero_cl_quoter_bytes()
            &&& data.take(4) == selector_of("quoteExactInputSingle((address,address,uint256,int24,uint160))"@)
            &&& address_result(arg_at(data, 0)) == Ok::<Seq<u8>, Seq<char>>(usdc_bytes())
            &&& address_result(arg_at(data, 1)) == Ok::<Seq<u8>, Seq<char>>(awp_bytes())
            &&& be_number(arg_at(data, 2)) == 100_000_000
            &&& arg_at(data, 3) == raw@
            &&& be_number(arg_at(data, 4)) == 0
        }),
        r matches Step::Act(Quoting::Eth(_, _), a) ==> ({
            &&& a@ matches ActionV::View(to, data)
            &&& to == uni_v3_quoter_bytes()
            &&& data.take(4) == selector_of("quoteExactInputSingle((address,address,uint256,uint24,uint160))"@)
            &&& address_result(arg_at(data, 0)) == Ok::<Seq<u8>, Seq<char>>(weth_bytes())
            &&& address_result(arg_at(data, 1)) == Ok::<Seq<u8>, Seq<char>>(usdc_bytes())
            &&& be_number(arg_at(data, 2)) == 1_000_000_000_000_000
            &&& be_number(arg_at(data, 3)) == 500
            &&& be_number(arg_at(data, 4)) == 0
        }),
{
    lemma_word_lengths();
    if let (Step::Act(Quoting::Rate(_, _), _), Reply::Bytes(Ok(raw))) = (r, reply) {
        let n = choose|n: int| -0x80_0000 <= n < 0x80_0000 && raw@ == #[trigger] int_word(n);
        let args = seq![address_word(usdc_bytes()), address_word(awp_bytes()), be_word(PROBE_USDC as nat), raw@, be_word(0)];
        lemma_static_args("quoteExactInputSingle((address,address,uint256,int24,uint160))"@, args);
        assert(arg_at(static_call("quoteExactInputSingle((address,address,uint256,int24,uint160))"@, args), 0) == address_word(usdc_bytes()));
        assert(arg_at(static_call("quoteExactInputSingle((address,address,uint256,int24,uint160))"@, args), 1) == address_word(awp_bytes()));
        assert(arg_at(static_call("quoteExactInputSingle((address,address,uint256,int24,uint160))"@, args), 2) == be_word(PROBE_USDC as nat));
        assert(arg_at(static_call("quoteExactInputSingle((address,address,uint256,int24,uint160))"@, args), 3) == raw@);
        assert(arg_at(static_call("quoteExactInputSingle((address,address,uint256,int24,uint160))"@, args), 4) == be_word(0));
    }
    if let Step::Act(Quoting::Eth(_, _), _) = r {
        let args = seq![address_word(weth_bytes()), address_word(usdc_bytes()), be_word(PROBE_ETH_WEI as nat), be_word(ETH_USDC_FEE as nat), be_word(0)];
        lemma_static_args("quoteExactInputSingle((address,address,uint256,uint24,uint160))"@, args);
        assert(arg_at(static_call("quoteExactInputSingle((address,address,uint256,uint24,uint160))"@, args), 0) == address_word(weth_bytes()));
        assert(arg_at(static_call("quoteExactInputSingle((address,address,uint256,uint24,uint160))"@, args), 1) == address_word(usdc_bytes()));
        assert(arg_at(static_call("quoteExactInputSingle((address,address,uint256,uint24,uint160))"@, args), 2) == be_word(PROBE_ETH_WEI as nat));
        assert(arg_at(static_call("quoteExactInputSingle((address,address,uint256,uint24,uint160))"@, args), 3) == be_word(ETH_USDC_FEE as nat));
        assert(arg_at(static_call("quoteExactInputSingle((address,address,uint256,uint24,uint160))"@, args), 4) == be_word(0));
    }
}

/// The dollars are those that buy the AWP at the rate that was quoted, rounded down, and the ETH those that buy the
/// dollars with five percent on top.
pub proof fn law_prices_follow_the_rates(s: Quoting, reply: Reply, r: Step<Quoting, Result<Quote, Fault>>)
    requires
        quoting_next(s, reply, r),
    ensures
        r matches Step::Act(Quoting::Eth(usdc, _), _) ==> ({
            &&& s matches Quoting::Rate(need, _)
            &&& reply matches Reply::Bytes(Ok(raw))
            &&& quote_result(raw@) matches Ok(got)
            &&& usdc@ * got <= 100_000_000 * need < (usdc@ + 1) * got
        }),
        r matches Step::End(Ok(q)) ==> ({
            &&& s matches Quoting::Eth(usdc, _)
            &&& reply matches Reply::Bytes(Ok(raw))
            &&& quote_result(raw@) matches Ok(got)
            &&& q.usdc_needed@ == usdc@
            &&& usdc@ * 105 < word_base() ==> q.usdc_buffer@ * 100 <= usdc@ * 105 < (q.usdc_buffer@ + 1) * 100
            &&& q.eth_needed@ * got <= 1_000_000_000_000_000 * q.usdc_buffer@ < (q.eth_needed@ + 1) * got
        }),
{
    if let (Quoting::Rate(need, _), Reply::Bytes(Ok(raw))) = (s, reply) {
        if let (Ok(got), Step::Act(Quoting::Eth(usdc, _), _)) = (quote_result(raw@), r) {
            lemma_quotient(PROBE_USDC as nat * need as nat, got);
        }
    }
    if let (Quoting::Eth(usdc, _), Reply::Bytes(Ok(raw))) = (s, reply) {
        if let (Ok(got), Step::End(Ok(q))) = (quote_result(raw@), r) {
            lemma_quotient(PROBE_ETH_WEI as nat * buffered(usdc@), got);
            if usdc@ * 105 < word_base() {
                law_buffer_adds(usdc@);
            }
        }
    }
}

/// A quotient rounds down.
proof fn lemma_quotient(a: nat, b: nat)
    requires
        b > 0,
    ensures
        (a / b) * b <= a < (a / b + 1) * b,
{
    vstd::arithmetic::div_mod::lemma_fundamental_div_mod(a as int, b as int);
    assert(b * (a / b) == (a / b) * b) by (nonlinear_arith);
    assert((a / b + 1) * b == (a / b) * b + b) by (nonlinear_arith);
}

/// An allowance is asked for with the owner first and the spender second.
pub proof fn law_allowance_names_owner_and_spender(owner: Seq<u8>, spender: Seq<u8>)
    requires
        owner.len() == 20,
        spender.len() == 20,
    ensures
        allowance_call(owner, spender).take(4) == selector_of("allowance(address,address)"@),
        address_result(arg_at(allowance_call(owner, spender), 0)) == Ok::<Seq<u8>, Seq<char>>(owner),
        address_result(arg_at(allowance_call(owner, spender), 1)) == Ok::<Seq<u8>, Seq<char>>(spender),
{
    lemma_word_lengths();
        let args = seq![address_word(owner), address_word(spender)];
        lemma_static_args("allowance(address,address)"@, args);
        assert(arg_at(static_call("allowance(address,address)"@, args), 0) == address_word(owner));
        assert(arg_at(static_call("allowance(address,address)"@, args), 1) == address_word(spender));
}

} // verus!
