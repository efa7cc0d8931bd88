//! Buying AWP with ETH, by way of dollars. The two swaps are separate transactions: what the first one bought
//! is kept where the second one fails.
use vstd::prelude::*;

use crate::address::Address;
use crate::bytes::{be_number, hex_0x};
use crate::chain::{
    address_arg, address_result, address_word, arg_at, call, int_word, lemma_static_args, lemma_word_lengths,
    read_uint, selector_of, static_call, uint_arg, uint_result, word_views,
};
use crate::clock::{later, later_v, unix_now};
use crate::cmd::quote::{
    allowance_call, apply_slippage, ask_allowance, ask_balance, ask_tick, balance_call, law_slippage_bounds, quote,
    quoting_next, read_tick, slipped, tick_action, tick_result, Quote, Quoting, ETH_USDC_FEE,
};
use crate::fault::{fault_v, Fault};
use crate::flow::{
    stray, stray_v, tx_fault, tx_fault_v, unsettled, unsettled_v, Action, ActionV, Amount, Reply, Shown, Step, TxRequest,
    TxRequestV,
};
use crate::known::{
    aero_cl_router, aero_cl_router_bytes, aero_usdc_awp_pool_bytes, awp, awp_bytes, uni_v3_router,
    uni_v3_router_bytes, usdc, usdc_bytes, weth, weth_bytes,
};
use crate::num::{dec, dec_text};
use crate::text::{cat2, cat3, cat4, cat5, cat7, lowercase, lowercase_text, text_eq, texts, trim, trimmed};
use crate::tx::calldata_approve;
use crate::u256::{be_word, lemma_u256_bound, word_base, U256};

verus! {

/// What is kept back for gas: 0.0015 ETH.
pub const ETH_GAS_BUFFER_WEI: u128 = 1_500_000_000_000_000;

/// How many seconds the second swap may take.
pub const SWAP_DEADLINE_SEC: u32 = 600;

/// Who buys how much.
pub struct Buyer {
    pub agent: Address,
    /// The AWP to be bought, in its smallest unit.
    pub need: u128,
    /// The same in AWP, with four decimals.
    pub need_d4: String,
    /// The slippage in basis points, at most 10 000.
    pub slip_bps: u32,
    /// Whether the buyer need not be asked.
    pub skip_prompt: bool,
}

/// A purchase with its price.
pub struct Deal {
    pub buyer: Buyer,
    /// The dollars with the buffer.
    pub usdc_buffer: U256,
    /// The fewest dollars that the first swap may give.
    pub usdc_min: U256,
    /// The least AWP that the second swap may give.
    pub awp_min: U256,
    /// Whether the wallet holds the dollars with the buffer already.
    pub held: bool,
    /// The wei that are swapped; none where the dollars are held.
    pub eth: u128,
    /// The wei that are swapped and those kept back for gas.
    pub total: u128,
}

/// Buying AWP.
pub enum Buying {
    /// The amount is told.
    Target(Buyer),
    /// The quotes are fetched.
    Quotes(Buyer, Quoting),
    /// The dollars that the wallet holds are read.
    Held(Buyer, Quote),
    /// The price is written in ETH.
    Prices(Deal),
    /// The price is told.
    Told(Deal, Shown, Shown),
    /// The balance is read.
    Funds(Deal, Shown, Shown),
    /// The balance is written in ETH.
    FundsShown(Deal, Shown, Shown, u128),
    /// The balance is told.
    FundsTold(Deal, Shown, Shown, u128, String),
    /// The buyer is asked.
    Asked(Deal, Shown),
    /// The first swap is told.
    First(Deal),
    /// The first swap is made.
    FirstTx(Deal),
    /// Its hash is told.
    FirstTold(Deal),
    /// The dollars are read.
    Dollars(Deal),
    /// The dollars do not suffice; they are written as such.
    DollarsShort,
    /// The dollars are written as such.
    DollarsShown(Deal, U256),
    /// The dollars are told.
    DollarsTold(Deal, U256),
    /// What the exchange may take is read.
    Allowance(Deal, U256),
    /// The approval is told.
    Approve(Deal, U256),
    /// The exchange is allowed to take the dollars.
    ApproveTx(Deal, U256),
    /// The second swap is told.
    Second(Deal, U256),
    /// The tick spacing of the pool is read.
    Tick(Deal, U256),
    /// The second swap is made.
    SecondTx,
    /// Its hash is told.
    SecondTold,
}

/// Whether a step ends with this error.
pub open spec fn stops<S>(r: Step<S, Result<(), Fault>>, f: Seq<Seq<char>>) -> bool {
    r matches Step::End(Err(g)) && g@ == f
}

/// Ends with an error.
pub fn stop<S>(f: Fault) -> (r: Step<S, Result<(), Fault>>)
    ensures
        stops(r, f@),
{
    Step::End(Err(f))
}

/// The action that prints one line.
pub fn say1(a: String) -> (r: Action)
    ensures
        r@ == ActionV::Say(seq![a@]),
{
    let mut v: Vec<String> = Vec::new();
    v.push(a);
    assert(texts(v@) =~= seq![a@]);
    Action::Say(v)
}

/// The action that prints two lines.
pub fn say2(a: String, b: String) -> (r: Action)
    ensures
        r@ == ActionV::Say(seq![a@, b@]),
{
    let mut v: Vec<String> = Vec::new();
    v.push(a);
    v.push(b);
    assert(texts(v@) =~= seq![a@, b@]);
    Action::Say(v)
}

/// The line that tells the hash of a transaction.
pub open spec fn hash_line(h: Seq<char>) -> Seq<char> {
    "   tx: "@ + h
}

/// An amount of wei in ETH.
pub open spec fn eth_of(wei: u128) -> Amount {
    Amount { units: wei, decimals: 18 }
}

/// An amount of dollars.
pub open spec fn usdc_of(units: u128) -> Amount {
    Amount { units, decimals: 6 }
}

/// What some wei are worth at 4000 dollars per ETH.
pub open spec fn usd_of(wei: u128) -> Amount {
    if wei * 4 <= u128::MAX {
        Amount { units: (wei * 4) as u128, decimals: 15 }
    } else {
        Amount { units: ((wei / 1000) * 4) as u128, decimals: 12 }
    }
}

/// What some wei are worth at 4000 dollars per ETH.
fn in_dollars(wei: u128) -> (r: Amount)
    ensures
        r == usd_of(wei),
{
    if wei <= u128::MAX / 4 {
        Amount { units: wei * 4, decimals: 15 }
    } else {
        Amount { units: (wei / 1000) * 4, decimals: 12 }
    }
}

/// The wei that are to be swapped where the wallet holds some dollars: none if they cover the purchase.
pub open spec fn eth_to_swap(q: Quote, have: nat) -> nat {
    if have >= q.usdc_buffer@ {
        0
    } else {
        q.eth_needed@
    }
}

/// What comes next with the quotes and the dollars that the wallet holds.
pub open spec fn deal_next(b: Buyer, q: Quote, have: nat, r: Step<Buying, Result<(), Fault>>) -> bool {
    if eth_to_swap(q, have) + ETH_GAS_BUFFER_WEI > u128::MAX {
        stops(r, fault_v("quote out of range"@))
    } else {
        &&& r matches Step::Act(Buying::Prices(d), a)
        &&& d.buyer == b
        &&& d.held == (have >= q.usdc_buffer@)
        &&& d.usdc_buffer == q.usdc_buffer
        &&& d.usdc_min@ == slipped(q.usdc_needed@, cap_bps(b.slip_bps))
        &&& d.awp_min@ == slipped(b.need as nat, cap_bps(b.slip_bps))
        &&& d.eth == eth_to_swap(q, have)
        &&& d.total == d.eth + ETH_GAS_BUFFER_WEI
        &&& a@ == ActionV::Show(seq![eth_of(d.eth), usd_of(d.eth), eth_of(d.total)])
    }
}

/// A slippage, at most all of the amount.
pub open spec fn cap_bps(bps: u32) -> u32 {
    if bps > 10_000 {
        10_000
    } else {
        bps
    }
}

/// Goes on with the quotes and the dollars that the wallet holds.
pub fn with_quotes(b: Buyer, q: Quote, have: &U256) -> (r: Step<Buying, Result<(), Fault>>)
    ensures
        deal_next(b, q, have@, r),
{
    let held = !have.less(&q.usdc_buffer);
    let eth: u128 = if held {
        0
    } else {
        match q.eth_needed.to_u128() {
            Some(n) => n,
            None => {
                return stop(Fault::of("quote out of range"));
            },
        }
    };
    if eth > u128::MAX - ETH_GAS_BUFFER_WEI {
        return stop(Fault::of("quote out of range"));
    }
    let total = eth + ETH_GAS_BUFFER_WEI;
    let bps: u32 = if b.slip_bps > 10_000 {
        10_000
    } else {
        b.slip_bps
    };
    let usdc_min = apply_slippage(&q.usdc_needed, bps);
    let awp_min = apply_slippage(&U256::of_u128(b.need), bps);
    let mut v: Vec<Amount> = Vec::new();
    v.push(Amount { units: eth, decimals: 18 });
    v.push(in_dollars(eth));
    v.push(Amount { units: total, decimals: 18 });
    assert(v@ =~= seq![eth_of(eth), usd_of(eth), eth_of(total)]);
    Step::Act(
        Buying::Prices(
            Deal { buyer: b, usdc_buffer: q.usdc_buffer, usdc_min, awp_min, held, eth, total },
        ),
        Action::Show(v),
    )
}

/// Basis points as a percentage with two decimals.
pub open spec fn percent_text(bps: u32) -> Seq<char> {
    dec_text((bps / 100) as nat) + "."@ + dec_text((bps % 100 / 10) as nat) + dec_text(
        (bps % 10) as nat,
    )
}

fn percent(bps: u32) -> (r: String)
    ensures
        r@ == percent_text(bps),
{
    let a = dec((bps / 100) as u64);
    let b = dec((bps % 100 / 10) as u64);
    let c = dec((bps % 10) as u64);
    cat4(a.as_str(), ".", b.as_str(), c.as_str())
}

/// The lines that tell the price.
pub open spec fn price_lines(bps: u32, eth: Seq<char>, usd: Seq<char>, total: Seq<char>) -> Seq<Seq<char>> {
    seq![
        "   spend ETH         : "@ + eth + " (~"@ + usd + " USD if $4000/ETH)"@,
        "   buffer (gas)      : 0.001500 ETH"@,
        "   total burn        : "@ + total + " ETH (recommended top-up: 0.01 ETH)"@,
        "   slippage          : "@ + percent_text(bps) + "% (--slippage to override)"@,
        "   route             : ETH → USDC (Uni V3 0.05%) → AWP (Aerodrome CL)"@,
    ]
}

fn tell_price(bps: u32, eth: &str, usd: &str, total: &str) -> (r: Action)
    ensures
        r@ == ActionV::Say(price_lines(bps, eth@, usd@, total@)),
{
    let p = percent(bps);
    let mut v: Vec<String> = Vec::new();
    v.push(cat5("   spend ETH         : ", eth, " (~", usd, " USD if $4000/ETH)"));
    v.push("   buffer (gas)      : 0.001500 ETH".to_owned());
    v.push(cat3("   total burn        : ", total, " ETH (recommended top-up: 0.01 ETH)"));
    v.push(cat3("   slippage          : ", p.as_str(), "% (--slippage to override)"));
    v.push("   route             : ETH → USDC (Uni V3 0.05%) → AWP (Aerodrome CL)".to_owned());
    assert(texts(v@) =~= price_lines(bps, eth@, usd@, total@));
    Action::Say(v)
}

/// What comes next once the buyer agrees.
pub open spec fn first_next(d: Deal, eth: Shown, r: Step<Buying, Result<(), Fault>>) -> bool {
    &&& r matches Step::Act(Buying::First(e), a)
    &&& e == d
    &&& a@ == ActionV::Say(
        seq!["\n→ swap ETH → USDC ("@ + eth.plain@ + " on Uniswap V3 0.05%)"@],
    )
}

fn tell_first(d: Deal, eth: &Shown) -> (r: Step<Buying, Result<(), Fault>>)
    ensures
        first_next(d, *eth, r),
{
    let a = say1(cat3("\n→ swap ETH → USDC (", eth.plain.as_str(), " on Uniswap V3 0.05%)"));
    Step::Act(Buying::First(d), a)
}

/// What comes next once the buyer agrees, or need not be asked: where the dollars are held already, the first
/// swap is skipped.
pub open spec fn agreed_next(d: Deal, eth: Shown, r: Step<Buying, Result<(), Fault>>) -> bool {
    if d.held {
        &&& r matches Step::Act(Buying::DollarsTold(e, n), a)
        &&& e == d
        &&& n == d.usdc_buffer
        &&& a@ == ActionV::Say(seq!["\n   ✓ USDC already in the wallet — skipping ETH → USDC swap"@])
    } else {
        first_next(d, eth, r)
    }
}

fn when_agreed(d: Deal, eth: &Shown) -> (r: Step<Buying, Result<(), Fault>>)
    ensures
        agreed_next(d, *eth, r),
{
    if d.held {
        let n = d.usdc_buffer;
        let a = say1("\n   ✓ USDC already in the wallet — skipping ETH → USDC swap".to_owned());
        Step::Act(Buying::DollarsTold(d, n), a)
    } else {
        tell_first(d, eth)
    }
}

/// What comes next once the balance is told.
pub open spec fn funds_next(
    d: Deal,
    eth: Shown,
    total: Shown,
    wei: u128,
    have: Seq<char>,
    r: Step<Buying, Result<(), Fault>>,
) -> bool {
    if wei < d.total {
        stops(
            r,
            fault_v(
                "ETH balance "@ + have + " < required "@ + total.d6@ + ". Top up your wallet ("@
                    + hex_0x(d.buyer.agent@) + ") on Base mainnet."@,
            ),
        )
    } else if d.buyer.skip_prompt {
        agreed_next(d, eth, r)
    } else {
        &&& r matches Step::Act(Buying::Asked(e, s), a)
        &&& e == d
        &&& s == eth
        &&& a@ == ActionV::Ask("\nProceed with buy? [y/N]: "@)
    }
}

fn with_funds(d: Deal, eth: Shown, total: &Shown, wei: u128, have: &str) -> (r: Step<Buying, Result<(), Fault>>)
    ensures
        funds_next(d, eth, *total, wei, have@, r),
{
    if wei < d.total {
        let agent = d.buyer.agent.lower();
        return stop(
            Fault::new(
                cat7(
                    "ETH balance ",
                    have,
                    " < required ",
                    total.d6.as_str(),
                    ". Top up your wallet (",
                    agent.as_str(),
                    ") on Base mainnet.",
                ),
            ),
        );
    }
    if d.buyer.skip_prompt {
        when_agreed(d, &eth)
    } else {
        Step::Act(Buying::Asked(d, eth), Action::Ask("\nProceed with buy? [y/N]: ".to_owned()))
    }
}

/// Whether an answer means yes.
pub open spec fn agrees(line: Seq<char>) -> bool {
    let t = lowercase_text(trimmed(line));
    t == "y"@ || t == "yes"@
}

/// Whether an answer means yes.
pub fn is_yes(line: &str) -> (r: bool)
    ensures
        r == agrees(line@),
{
    let t = trim(line);
    let l = lowercase(t.as_str());
    text_eq(l.as_str(), "y") || text_eq(l.as_str(), "yes")
}

/// The transaction that swaps ETH for dollars.
pub open spec fn first_tx(d: Deal) -> ActionV {
    ActionV::Transact(
        TxRequestV {
            from: d.buyer.agent@,
            to: uni_v3_router_bytes(),
            data: static_call(
                "exactInputSingle((address,address,uint24,address,uint256,uint256,uint160))"@,
                seq![
                    address_word(weth_bytes()),
                    address_word(usdc_bytes()),
                    be_word(ETH_USDC_FEE as nat),
                    address_word(d.buyer.agent@),
                    be_word(d.eth as nat),
                    be_word(d.usdc_min@),
                    be_word(0),
                ],
            ),
            value_wei: d.eth,
            gas_limit: 300_000,
        },
    )
}

/// The transaction that swaps ETH for dollars.
pub fn build_eth_to_usdc_tx(d: &Deal) -> (r: Action)
    ensures
        r@ == first_tx(*d),
{
    let mut args: Vec<[u8; 32]> = Vec::new();
    args.push(address_arg(&weth()));
    args.push(address_arg(&usdc()));
    args.push(uint_arg(ETH_USDC_FEE));
    args.push(address_arg(&d.buyer.agent));
    args.push(U256::of_u128(d.eth).to_be_bytes());
    args.push(d.usdc_min.to_be_bytes());
    args.push(uint_arg(0));
    let data = call(
        "exactInputSingle((address,address,uint24,address,uint256,uint256,uint160))",
        &args,
    );
    assert(word_views(args@) =~= seq![
        address_word(weth_bytes()),
        address_word(usdc_bytes()),
        be_word(ETH_USDC_FEE as nat),
        address_word(d.buyer.agent@),
        be_word(d.eth as nat),
        be_word(d.usdc_min@),
        be_word(0),
    ]);
    Action::Transact(
        TxRequest {
            from: d.buyer.agent,
            to: uni_v3_router(),
            data,
            value_wei: d.eth,
            gas_limit: 300_000,
        },
    )
}

/// The smaller of two numbers.
pub open spec fn least(a: nat, b: nat) -> nat {
    if a <= b {
        a
    } else {
        b
    }
}

/// What comes next with the dollars.
pub open spec fn dollars_next(d: Deal, raw: Seq<u8>, r: Step<Buying, Result<(), Fault>>) -> bool {
    match uint_result(raw) {
        Err(e) => stops(r, fault_v(e)),
        Ok(have) => if have < d.usdc_min@ {
            if d.usdc_min@ > u128::MAX {
                stops(r, fault_v("amount out of range"@))
            } else {
                &&& r matches Step::Act(Buying::DollarsShort, a)
                &&& a@ == ActionV::Show(seq![usdc_of(have as u128), usdc_of(d.usdc_min@ as u128)])
            }
        } else if have > u128::MAX {
            stops(r, fault_v("amount out of range"@))
        } else {
            let used = least(have, d.usdc_buffer@);
            &&& r matches Step::Act(Buying::DollarsShown(e, n), a)
            &&& e == d
            &&& n@ == used
            &&& a@ == ActionV::Show(seq![usdc_of(have as u128), usdc_of(used as u128)])
        },
    }
}

fn show_dollars(a: u128, b: u128) -> (r: Action)
    ensures
        r@ == ActionV::Show(seq![usdc_of(a), usdc_of(b)]),
{
    let mut v: Vec<Amount> = Vec::new();
    v.push(Amount { units: a, decimals: 6 });
    v.push(Amount { units: b, decimals: 6 });
    assert(v@ =~= seq![usdc_of(a), usdc_of(b)]);
    Action::Show(v)
}

/// Goes on with the dollars.
pub fn with_dollars(d: Deal, raw: &Vec<u8>) -> (r: Step<Buying, Result<(), Fault>>)
    ensures
        dollars_next(d, raw@, r),
{
    match read_uint(raw) {
        Err(e) => stop(Fault::new(e)),
        Ok(have) => {
            if have.less(&d.usdc_min) {
                return match (have.to_u128(), d.usdc_min.to_u128()) {
                    (Some(a), Some(b)) => Step::Act(Buying::DollarsShort, show_dollars(a, b)),
                    _ => stop(Fault::of("amount out of range")),
                };
            }
            let used = have.min(d.usdc_buffer);
            match (have.to_u128(), used.to_u128()) {
                (Some(a), Some(b)) => Step::Act(Buying::DollarsShown(d, used), show_dollars(a, b)),
                _ => stop(Fault::of("amount out of range")),
            }
        },
    }
}

/// What comes next with the allowance of the exchange.
pub open spec fn allowance_next(d: Deal, used: U256, raw: Seq<u8>, r: Step<Buying, Result<(), Fault>>) -> bool {
    match uint_result(raw) {
        Err(e) => stops(r, fault_v(e)),
        Ok(allowed) => if allowed < used@ {
            &&& r matches Step::Act(Buying::Approve(e, n), a)
            &&& e == d
            &&& n == used
            &&& a@ == ActionV::Say(seq!["→ approve USDC → Aerodrome CL router"@])
        } else {
            &&& r matches Step::Act(Buying::Second(e, n), a)
            &&& e == d
            &&& n == used
            &&& a@ == ActionV::Say(
                seq![
                    "   ✓ USDC already approved to Aerodrome router"@,
                    "→ swap USDC → AWP (Aerodrome Slipstream)"@,
                ],
            )
        },
    }
}

fn with_allowance(d: Deal, used: U256, raw: &Vec<u8>) -> (r: Step<Buying, Result<(), Fault>>)
    ensures
        allowance_next(d, used, raw@, r),
{
    match read_uint(raw) {
        Err(e) => stop(Fault::new(e)),
        Ok(allowed) => {
            if allowed.less(&used) {
                Step::Act(
                    Buying::Approve(d, used),
                    say1("→ approve USDC → Aerodrome CL router".to_owned()),
                )
            } else {
                Step::Act(
                    Buying::Second(d, used),
                    say2(
                        "   ✓ USDC already approved to Aerodrome router".to_owned(),
                        "→ swap USDC → AWP (Aerodrome Slipstream)".to_owned(),
                    ),
                )
            }
        },
    }
}

/// The transaction that allows `spender` to take any amount of a token.
pub open spec fn approve_tx(from: Seq<u8>, token: Seq<u8>, spender: Seq<u8>) -> ActionV {
    ActionV::Submit(
        TxRequestV {
            from,
            to: token,
            data: static_call(
                "approve(address,uint256)"@,
                seq![address_word(spender), be_word((word_base() - 1) as nat)],
            ),
            value_wei: 0,
            gas_limit: 100_000,
        },
    )
}

/// The transaction that allows `spender` to take any amount of a token.
pub fn build_approve_tx(from: Address, token: Address, spender: &Address) -> (r: Action)
    ensures
        r@ == approve_tx(from@, token@, spender@),
{
    Action::Submit(
        TxRequest {
            from,
            to: token,
            data: calldata_approve(spender, &U256::max()),
            value_wei: 0,
            gas_limit: 100_000,
        },
    )
}

/// The transaction that swaps dollars for AWP, at the time `now`.
pub open spec fn second_tx(d: Deal, used: U256, tick: Seq<u8>, now: i64) -> ActionV {
    ActionV::Submit(
        TxRequestV {
            from: d.buyer.agent@,
            to: aero_cl_router_bytes(),
            data: static_call(
                "exactInputSingle((address,address,int24,address,uint256,uint256,uint256,uint160))"@,
                seq![
                    address_word(usdc_bytes()),
                    address_word(awp_bytes()),
                    tick,
                    address_word(d.buyer.agent@),
                    be_word(later_v(now, SWAP_DEADLINE_SEC as nat)),
                    be_word(used@),
                    be_word(d.awp_min@),
                    be_word(0),
                ],
            ),
            value_wei: 0,
            gas_limit: 500_000,
        },
    )
}

/// The transaction that swaps dollars for AWP, at the time `now`.
pub fn build_usdc_to_awp_tx(d: &Deal, used: &U256, tick: [u8; 32], now: i64) -> (r: Action)
    ensures
        r@ == second_tx(*d, *used, tick@, now),
{
    let deadline = later(now, SWAP_DEADLINE_SEC);
    let mut args: Vec<[u8; 32]> = Vec::new();
    args.push(address_arg(&usdc()));
    args.push(address_arg(&awp()));
    args.push(tick);
    args.push(address_arg(&d.buyer.agent));
    args.push(uint_arg(deadline));
    args.push(used.to_be_bytes());
    args.push(d.awp_min.to_be_bytes());
    args.push(uint_arg(0));
    let data = call(
        "exactInputSingle((address,address,int24,address,uint256,uint256,uint256,uint160))",
        &args,
    );
    assert(word_views(args@) =~= seq![
        address_word(usdc_bytes()),
        address_word(awp_bytes()),
        tick@,
        address_word(d.buyer.agent@),
        be_word(later_v(now, SWAP_DEADLINE_SEC as nat)),
        be_word(used@),
        be_word(d.awp_min@),
        be_word(0),
    ]);
    Action::Submit(
        TxRequest {
            from: d.buyer.agent,
            to: aero_cl_router(),
            data,
            value_wei: 0,
            gas_limit: 500_000,
        },
    )
}

/// What comes next with a step of the quotes.
pub open spec fn quotes_next(b: Buyer, q: Step<Quoting, Result<Quote, Fault>>, r: Step<Buying, Result<(), Fault>>) -> bool {
    match q {
        Step::Act(s, a) => {
            &&& r matches Step::Act(Buying::Quotes(c, t), x)
            &&& c == b
            &&& t == s
            &&& x == a
        },
        Step::End(Ok(x)) => {
            &&& r matches Step::Act(Buying::Held(c, p), a)
            &&& c == b
            &&& p == x
            &&& a@ == ActionV::View(usdc_bytes(), balance_call(b.agent@))
        },
        Step::End(Err(f)) => stops(r, f@),
    }
}

fn go_quotes(b: Buyer, q: Step<Quoting, Result<Quote, Fault>>) -> (r: Step<Buying, Result<(), Fault>>)
    ensures
        quotes_next(b, q, r),
{
    match q {
        Step::Act(s, a) => Step::Act(Buying::Quotes(b, s), a),
        Step::End(Ok(x)) => {
            let a = ask_balance(usdc(), &b.agent);
            Step::Act(Buying::Held(b, x), a)
        },
        Step::End(Err(f)) => stop(f),
    }
}

/// What comes next when AWP is bought.
pub open spec fn buying_next(s: Buying, reply: Reply, r: Step<Buying, Result<(), Fault>>) -> bool {
    match (s, reply) {
        (Buying::Target(b), Reply::Done(Ok(_))) => {
            &&& r matches Step::Act(Buying::Quotes(c, Quoting::Tick(n, told)), a)
            &&& c == b
            &&& n == b.need
            &&& told
            &&& a@ == tick_action()
        },
        (Buying::Quotes(b, q), x) => exists|y: Step<Quoting, Result<Quote, Fault>>| #[trigger]
            quoting_next(q, x, y) && quotes_next(b, y, r),
        (Buying::Held(b, q), Reply::Bytes(Ok(raw))) => match uint_result(raw@) {
            Err(e) => stops(r, fault_v(e)),
            Ok(have) => deal_next(b, q, have, r),
        },
        (Buying::Held(_, _), Reply::Bytes(Err(f))) => stops(r, f@),
        (Buying::Prices(d), Reply::Shown(v)) => if v@.len() == 3 {
            &&& r matches Step::Act(Buying::Told(e, eth, total), a)
            &&& e == d
            &&& eth == v@[0]
            &&& total == v@[2]
            &&& a@ == ActionV::Say(
                price_lines(d.buyer.slip_bps, v@[0].d6@, v@[1].d2@, v@[2].d6@),
            )
        } else {
            stops(r, stray_v())
        },
        (Buying::Told(d, eth, total), Reply::Done(Ok(_))) => {
            &&& r matches Step::Act(Buying::Funds(e, x, y), a)
            &&& e == d
            &&& x == eth
            &&& y == total
            &&& a@ == ActionV::EthBalance(d.buyer.agent@)
        },
        (Buying::Funds(d, eth, total), Reply::Wei(Ok(n))) => {
            &&& r matches Step::Act(Buying::FundsShown(e, x, y, m), a)
            &&& e == d
            &&& x == eth
            &&& y == total
            &&& m == n
            &&& a@ == ActionV::Show(seq![eth_of(n)])
        },
        (Buying::Funds(_, _, _), Reply::Wei(Err(f))) => stops(r, f@),
        (Buying::FundsShown(d, eth, total, n), Reply::Shown(v)) => if v@.len() == 1 {
            &&& r matches Step::Act(Buying::FundsTold(e, x, y, m, t), a)
            &&& e == d
            &&& x == eth
            &&& y == total
            &&& m == n
            &&& t@ == v@[0].d6@
            &&& a@ == ActionV::Say(seq!["   wallet ETH balance: "@ + v@[0].d6@])
        } else {
            stops(r, stray_v())
        },
        (Buying::FundsTold(d, eth, total, n, t), Reply::Done(Ok(_))) => funds_next(
            d,
            eth,
            total,
            n,
            t@,
            r,
        ),
        (Buying::Asked(d, eth), Reply::Text(Ok(line))) => if agrees(line@) {
            agreed_next(d, eth, r)
        } else {
            stops(r, fault_v("aborted by user"@))
        },
        (Buying::Asked(_, _), Reply::Text(Err(f))) => stops(r, f@),
        (Buying::First(d), Reply::Done(Ok(_))) => {
            &&& r matches Step::Act(Buying::FirstTx(e), a)
            &&& e == d
            &&& a@ == first_tx(d)
        },
        (Buying::FirstTx(d), Reply::Sent(Ok((h, true)))) => {
            &&& r matches Step::Act(Buying::FirstTold(e), a)
            &&& e == d
            &&& a@ == ActionV::Say(seq![hash_line(h@)])
        },
        (Buying::FirstTx(_), Reply::Sent(e)) => stops(r, unsettled_v(e, "ETH→USDC swap tx"@)),
        (Buying::FirstTold(d), Reply::Done(Ok(_))) => {
            &&& r matches Step::Act(Buying::Dollars(e), a)
            &&& e == d
            &&& a@ == ActionV::View(usdc_bytes(), balance_call(d.buyer.agent@))
        },
        (Buying::Dollars(d), Reply::Bytes(Ok(raw))) => dollars_next(d, raw@, r),
        (Buying::Dollars(_), Reply::Bytes(Err(f))) => stops(r, f@),
        (Buying::DollarsShort, Reply::Shown(v)) => if v@.len() == 2 {
            stops(
                r,
                fault_v(
                    "ETH→USDC swap landed but USDC balance "@ + v@[0].d4@ + " < expected min "@
                        + v@[1].d4@ + " — slippage or RPC stale"@,
                ),
            )
        } else {
            stops(r, stray_v())
        },
        (Buying::DollarsShown(d, used), Reply::Shown(v)) => if v@.len() == 2 {
            &&& r matches Step::Act(Buying::DollarsTold(e, n), a)
            &&& e == d
            &&& n == used
            &&& a@ == ActionV::Say(
                seq![
                    "   ✓ have "@ + v@[0].d4@ + " USDC; using "@ + v@[1].d4@ + " for AWP swap"@,
                ],
            )
        } else {
            stops(r, stray_v())
        },
        (Buying::DollarsTold(d, used), Reply::Done(Ok(_))) => {
            &&& r matches Step::Act(Buying::Allowance(e, n), a)
            &&& e == d
            &&& n == used
            &&& a@ == ActionV::View(
                usdc_bytes(),
                allowance_call(d.buyer.agent@, aero_cl_router_bytes()),
            )
        },
        (Buying::Allowance(d, used), Reply::Bytes(Ok(raw))) => allowance_next(d, used, raw@, r),
        (Buying::Allowance(_, _), Reply::Bytes(Err(f))) => stops(r, f@),
        (Buying::Approve(d, used), Reply::Done(Ok(_))) => {
            &&& r matches Step::Act(Buying::ApproveTx(e, n), a)
            &&& e == d
            &&& n == used
            &&& a@ == approve_tx(d.buyer.agent@, usdc_bytes(), aero_cl_router_bytes())
        },
        (Buying::ApproveTx(d, used), Reply::Submitted(Ok(h))) => {
            &&& r matches Step::Act(Buying::Second(e, n), a)
            &&& e == d
            &&& n == used
            &&& a@ == ActionV::Say(
                seq![hash_line(h@), "→ swap USDC → AWP (Aerodrome Slipstream)"@],
            )
        },
        (Buying::ApproveTx(_, _), Reply::Submitted(Err(e))) => stops(r, tx_fault_v(e, "USDC approve"@)),
        (Buying::Second(d, used), Reply::Done(Ok(_))) => {
            &&& r matches Step::Act(Buying::Tick(e, n), a)
            &&& e == d
            &&& n == used
            &&& a@ == tick_action()
        },
        (Buying::Tick(d, used), Reply::Bytes(Ok(raw))) => match tick_result(raw@) {
            Err(e) => stops(r, fault_v(e)),
            Ok(tick) => r matches Step::Act(Buying::SecondTx, a) && exists|now: i64|
                a@ == #[trigger] second_tx(d, used, tick, now),
        },
        (Buying::Tick(_, _), Reply::Bytes(Err(f))) => stops(r, f@),
        (Buying::SecondTx, Reply::Submitted(Ok(h))) => {
            r matches Step::Act(Buying::SecondTold, a) && a@ == ActionV::Say(seq![hash_line(h@)])
        },
        (Buying::SecondTx, Reply::Submitted(Err(e))) => stops(r, tx_fault_v(e, "USDC→AWP swap tx"@)),
        (Buying::SecondTold, Reply::Done(Ok(_))) => r matches Step::End(Ok(_)),
        (_, Reply::Done(Err(f))) => stops(r, f@),
        _ => stops(r, stray_v()),
    }
}

/// Starts to buy AWP.
pub fn do_buy(b: Buyer) -> (r: Step<Buying, Result<(), Fault>>)
    ensures
        r matches Step::Act(Buying::Target(c), a) && c == b && a@ == ActionV::Say(
            seq![
                "\n📊 Quote (live, on-chain — no API key)"@,
                "   target AWP needed: "@ + b.need_d4@,
            ],
        ),
{
    let a = say2(
        "\n📊 Quote (live, on-chain — no API key)".to_owned(),
        cat2("   target AWP needed: ", b.need_d4.as_str()),
    );
    Step::Act(Buying::Target(b), a)
}

fn show_eth(n: u128) -> (r: Action)
    ensures
        r@ == ActionV::Show(seq![eth_of(n)]),
{
    let mut v: Vec<Amount> = Vec::new();
    v.push(Amount { units: n, decimals: 18 });
    assert(v@ =~= seq![eth_of(n)]);
    Action::Show(v)
}

fn tell_hash(h: &str) -> (r: Action)
    ensures
        r@ == ActionV::Say(seq![hash_line(h@)]),
{
    say1(cat2("   tx: ", h))
}

impl Buying {
    /// Goes on with the reply.
    pub fn step(self, reply: Reply) -> (r: Step<Buying, Result<(), Fault>>)
        ensures
            buying_next(self, reply, r),
    {
        match (self, reply) {
            (Buying::Target(b), Reply::Done(Ok(_))) => {
                let q = quote(b.need, true);
                go_quotes(b, q)
            },
            (Buying::Quotes(b, q), x) => {
                let ghost (q0, x0) = (q, x);
                let y = q.step(x);
                let ghost y0 = y;
                let r = go_quotes(b, y);
                assert(quoting_next(q0, x0, y0) && quotes_next(b, y0, r));
                r
            },
            (Buying::Held(b, q), Reply::Bytes(Ok(raw))) => match read_uint(&raw) {
                Err(e) => stop(Fault::new(e)),
                Ok(have) => with_quotes(b, q, &have),
            },
            (Buying::Held(_, _), Reply::Bytes(Err(f))) => stop(f),
            (Buying::Prices(d), Reply::Shown(v)) => {
                let mut v = v;
                if v.len() != 3 {
                    return stop(stray());
                }
                let a = tell_price(
                    d.buyer.slip_bps,
                    v[0].d6.as_str(),
                    v[1].d2.as_str(),
                    v[2].d6.as_str(),
                );
                let total = v.pop();
                let _ = v.pop();
                let eth = v.pop();
                match (eth, total) {
                    (Some(x), Some(y)) => Step::Act(Buying::Told(d, x, y), a),
                    _ => stop(stray()),
                }
            },
            (Buying::Told(d, eth, total), Reply::Done(Ok(_))) => {
                let a = Action::EthBalance(d.buyer.agent);
                Step::Act(Buying::Funds(d, eth, total), a)
            },
            (Buying::Funds(d, eth, total), Reply::Wei(Ok(n))) => Step::Act(
                Buying::FundsShown(d, eth, total, n),
                show_eth(n),
            ),
            (Buying::Funds(_, _, _), Reply::Wei(Err(f))) => stop(f),
            (Buying::FundsShown(d, eth, total, n), Reply::Shown(v)) => {
                if v.len() != 1 {
                    return stop(stray());
                }
                let a = say1(cat2("   wallet ETH balance: ", v[0].d6.as_str()));
                Step::Act(Buying::FundsTold(d, eth, total, n, v[0].d6.clone()), a)
            },
            (Buying::FundsTold(d, eth, total, n, t), Reply::Done(Ok(_))) => with_funds(
                d,
                eth,
                &total,
                n,
                t.as_str(),
            ),
            (Buying::Asked(d, eth), Reply::Text(Ok(line))) => {
                if is_yes(line.as_str()) {
                    when_agreed(d, &eth)
                } else {
                    stop(Fault::of("aborted by user"))
                }
            },
            (Buying::Asked(_, _), Reply::Text(Err(f))) => stop(f),
            (Buying::First(d), Reply::Done(Ok(_))) => {
                let a = build_eth_to_usdc_tx(&d);
                Step::Act(Buying::FirstTx(d), a)
            },
            (Buying::FirstTx(d), Reply::Sent(Ok((h, true)))) => Step::Act(
                Buying::FirstTold(d),
                tell_hash(h.as_str()),
            ),
            (Buying::FirstTx(_), Reply::Sent(e)) => stop(unsettled(e, "ETH→USDC swap tx")),
            (Buying::FirstTold(d), Reply::Done(Ok(_))) => {
                let a = ask_balance(usdc(), &d.buyer.agent);
                Step::Act(Buying::Dollars(d), a)
            },
            (Buying::Dollars(d), Reply::Bytes(Ok(raw))) => with_dollars(d, &raw),
            (Buying::Dollars(_), Reply::Bytes(Err(f))) => stop(f),
            (Buying::DollarsShort, Reply::Shown(v)) => {
                if v.len() != 2 {
                    return stop(stray());
                }
                stop(
                    Fault::new(
                        cat5(
                            "ETH→USDC swap landed but USDC balance ",
                            v[0].d4.as_str(),
                            " < expected min ",
                            v[1].d4.as_str(),
                            " — slippage or RPC stale",
                        ),
                    ),
                )
            },
            (Buying::DollarsShown(d, used), Reply::Shown(v)) => {
                if v.len() != 2 {
                    return stop(stray());
                }
                let a = say1(
                    cat5(
                        "   ✓ have ",
                        v[0].d4.as_str(),
                        " USDC; using ",
                        v[1].d4.as_str(),
                        " for AWP swap",
                    ),
                );
                Step::Act(Buying::DollarsTold(d, used), a)
            },
            (Buying::DollarsTold(d, used), Reply::Done(Ok(_))) => {
                let a = ask_allowance(usdc(), &d.buyer.agent, &aero_cl_router());
                Step::Act(Buying::Allowance(d, used), a)
            },
            (Buying::Allowance(d, used), Reply::Bytes(Ok(raw))) => with_allowance(d, used, &raw),
            (Buying::Allowance(_, _), Reply::Bytes(Err(f))) => stop(f),
            (Buying::Approve(d, used), Reply::Done(Ok(_))) => {
                let a = build_approve_tx(d.buyer.agent, usdc(), &aero_cl_router());
                Step::Act(Buying::ApproveTx(d, used), a)
            },
            (Buying::ApproveTx(d, used), Reply::Submitted(Ok(h))) => {
                let a = say2(
                    cat2("   tx: ", h.as_str()),
                    "→ swap USDC → AWP (Aerodrome Slipstream)".to_owned(),
                );
                Step::Act(Buying::Second(d, used), a)
            },
            (Buying::ApproveTx(_, _), Reply::Submitted(Err(e))) => stop(tx_fault(e, "USDC approve")),
            (Buying::Second(d, used), Reply::Done(Ok(_))) => Step::Act(
                Buying::Tick(d, used),
                ask_tick(),
            ),
            (Buying::Tick(d, used), Reply::Bytes(Ok(raw))) => match read_tick(&raw) {
                Err(e) => stop(Fault::new(e)),
                Ok(tick) => {
                    let now = unix_now();
                    let a = build_usdc_to_awp_tx(&d, &used, tick, now);
                    assert(a@ == second_tx(d, used, tick@, now));
                    Step::Act(Buying::SecondTx, a)
                },
            },
            (Buying::Tick(_, _), Reply::Bytes(Err(f))) => stop(f),
            (Buying::SecondTx, Reply::Submitted(Ok(h))) => Step::Act(
                Buying::SecondTold,
                tell_hash(h.as_str()),
            ),
            (Buying::SecondTx, Reply::Submitted(Err(e))) => stop(tx_fault(e, "USDC→AWP swap tx")),
            (Buying::SecondTold, Reply::Done(Ok(_))) => Step::End(Ok(())),
            (_, Reply::Done(Err(f))) => stop(f),
            _ => stop(stray()),
        }
    }
}

/// Nothing is sent before the balance covers what is to be spent and the gas, and, unless the buyer need not be
/// asked, before they agree.
pub proof fn law_first_swap_needs_funds_and_consent(s: Buying, reply: Reply, r: Step<Buying, Result<(), Fault>>)
    requires
        buying_next(s, reply, r),
    ensures
        (r matches Step::Act(n, _) && (n is First || (n is DollarsTold && !(s is DollarsShown)))) ==> ({
            ||| s matches Buying::FundsTold(e, _, _, wei, _) && wei >= e.total && e.buyer.skip_prompt
            ||| s is Asked && (reply matches Reply::Text(Ok(line)) && agrees(line@))
        }),
        r matches Step::Act(Buying::Asked(d, _), _) ==> (s matches Buying::FundsTold(e, _, _, wei, _) && e
            == d && wei >= d.total),
{
}

/// Where the wallet holds the dollars with the buffer already, as after a purchase that broke off between the
/// swaps, no ETH is set aside for a swap and none is swapped: once the buyer agrees, the allowance is next.
pub proof fn law_held_dollars_are_not_bought_again(s: Buying, reply: Reply, r: Step<Buying, Result<(), Fault>>)
    requires
        buying_next(s, reply, r),
    ensures
        (s matches Buying::Held(b, q) && (reply matches Reply::Bytes(Ok(raw)) && (uint_result(raw@) matches Ok(
            have,
        ) && have >= q.usdc_buffer@))) ==> (r matches Step::Act(Buying::Prices(d), _) && d.held && d.eth == 0
            && d.total == ETH_GAS_BUFFER_WEI),
        r matches Step::Act(Buying::First(d), _) ==> !d.held,
        r matches Step::Act(Buying::FirstTx(d), _) ==> s == Buying::First(d),
        s matches Buying::Asked(d, _) ==> (d.held && (reply matches Reply::Text(Ok(line)) && agrees(line@)) ==> (
        r matches Step::Act(Buying::DollarsTold(e, n), _) && e == d && n == d.usdc_buffer)),
        s matches Buying::DollarsTold(d, n) ==> (reply matches Reply::Done(Ok(_)) ==> (
        r matches Step::Act(Buying::Allowance(e, m), a) && e == d && m == n && a@ == ActionV::View(
            usdc_bytes(),
            allowance_call(d.buyer.agent@, aero_cl_router_bytes()),
        ))),
{
}

/// The first swap takes wrapped ETH for dollars, for the agent: it pays exactly the wei that are swapped, and asks
/// for no fewer dollars than the deal allows.
pub proof fn law_first_swap_buys_dollars(s: Buying, reply: Reply, r: Step<Buying, Result<(), Fault>>)
    requires
        buying_next(s, reply, r),
    ensures
        r matches Step::Act(Buying::FirstTx(d), a) ==> ({
            &&& a@ matches ActionV::Transact(t)
            &&& t.from == d.buyer.agent@
            &&& t.to == uni_v3_router_bytes()
            &&& t.value_wei == d.eth
            &&& t.data.take(4) == selector_of("exactInputSingle((address,address,uint24,address,uint256,uint256,uint160))"@)
            &&& t.gas_limit == 300_000
            &&& address_result(arg_at(t.data, 0)) == Ok::<Seq<u8>, Seq<char>>(weth_bytes())
            &&& address_result(arg_at(t.data, 1)) == Ok::<Seq<u8>, Seq<char>>(usdc_bytes())
            &&& be_number(arg_at(t.data, 2)) == 500
            &&& address_result(arg_at(t.data, 3)) == Ok::<Seq<u8>, Seq<char>>(d.buyer.agent@)
            &&& be_number(arg_at(t.data, 4)) == d.eth
            &&& be_number(arg_at(t.data, 5)) == d.usdc_min@
            &&& be_number(arg_at(t.data, 6)) == 0
        }),
{
    if let Step::Act(Buying::FirstTx(d), _) = r {
        lemma_word_lengths();
        lemma_u256_bound(d.usdc_min);
        let args = seq![address_word(weth_bytes()), address_word(usdc_bytes()), be_word(ETH_USDC_FEE as nat), address_word(d.buyer.agent@), be_word(d.eth as nat), be_word(d.usdc_min@), be_word(0)];
        lemma_static_args("exactInputSingle((address,address,uint24,address,uint256,uint256,uint160))"@, args);
        assert(arg_at(static_call("exactInputSingle((address,address,uint24,address,uint256,uint256,uint160))"@, args), 0) == address_word(weth_bytes()));
        assert(arg_at(static_call("exactInputSingle((address,address,uint24,address,uint256,uint256,uint160))"@, args), 1) == address_word(usdc_bytes()));
        assert(arg_at(static_call("exactInputSingle((address,address,uint24,address,uint256,uint256,uint160))"@, args), 2) == be_word(ETH_USDC_FEE as nat));
        assert(arg_at(static_call("exactInputSingle((address,address,uint24,address,uint256,uint256,uint160))"@, args), 3) == address_word(d.buyer.agent@));
        assert(arg_at(static_call("exactInputSingle((address,address,uint24,address,uint256,uint256,uint160))"@, args), 4) == be_word(d.eth as nat));
        assert(arg_at(static_call("exactInputSingle((address,address,uint24,address,uint256,uint256,uint160))"@, args), 5) == be_word(d.usdc_min@));
        assert(arg_at(static_call("exactInputSingle((address,address,uint24,address,uint256,uint256,uint160))"@, args), 6) == be_word(0));
    }
}

/// The second swap sells the dollars and buys AWP, for the agent: the dollars that were found, at the tick spacing
/// that the pool stated, for no less AWP than the deal allows, and it is void ten minutes later.
pub proof fn law_second_swap_buys_awp(s: Buying, reply: Reply, r: Step<Buying, Result<(), Fault>>)
    requires
        buying_next(s, reply, r),
    ensures
        r matches Step::Act(Buying::SecondTx, a) ==> ({
            &&& s matches Buying::Tick(d, used)
            &&& reply matches Reply::Bytes(Ok(raw))
            &&& a@ matches ActionV::Submit(t)
            &&& t.from == d.buyer.agent@
            &&& t.to == aero_cl_router_bytes()
            &&& t.value_wei == 0
            &&& t.data.take(4) == selector_of("exactInputSingle((address,address,int24,address,uint256,uint256,uint256,uint160))"@)
            &&& t.gas_limit == 500_000
            &&& address_result(arg_at(t.data, 0)) == Ok::<Seq<u8>, Seq<char>>(usdc_bytes())
            &&& address_result(arg_at(t.data, 1)) == Ok::<Seq<u8>, Seq<char>>(awp_bytes())
            &&& arg_at(t.data, 2) == raw@
            &&& address_result(arg_at(t.data, 3)) == Ok::<Seq<u8>, Seq<char>>(d.buyer.agent@)
            &&& exists|now: i64| be_number(arg_at(t.data, 4)) == #[trigger] later_v(now, 600)
            &&& be_number(arg_at(t.data, 5)) == used@
            &&& be_number(arg_at(t.data, 6)) == d.awp_min@
            &&& be_number(arg_at(t.data, 7)) == 0
        }),
{
    if let Step::Act(Buying::SecondTx, a) = r {
        if let (Buying::Tick(d, used), Reply::Bytes(Ok(raw))) = (s, reply) {
            let now = choose|now: i64| a@ == #[trigger] second_tx(d, used, raw@, now);
            let n = choose|n: int| -0x80_0000 <= n < 0x80_0000 && raw@ == #[trigger] int_word(n);
            lemma_word_lengths();
            lemma_u256_bound(used);
            lemma_u256_bound(d.awp_min);
            let args = seq![address_word(usdc_bytes()), address_word(awp_bytes()), raw@, address_word(d.buyer.agent@), be_word(later_v(now, SWAP_DEADLINE_SEC as nat)), be_word(used@), be_word(d.awp_min@), be_word(0)];
            lemma_static_args("exactInputSingle((address,address,int24,address,uint256,uint256,uint256,uint160))"@, args);
            assert(arg_at(static_call("exactInputSingle((address,address,int24,address,uint256,uint256,uint256,uint160))"@, args), 0) == address_word(usdc_bytes()));
            assert(arg_at(static_call("exactInputSingle((address,address,int24,address,uint256,uint256,uint256,uint160))"@, args), 1) == address_word(awp_bytes()));
            assert(arg_at(static_call("exactInputSingle((address,address,int24,address,uint256,uint256,uint256,uint160))"@, args), 2) == raw@);
            assert(arg_at(static_call("exactInputSingle((address,address,int24,address,uint256,uint256,uint256,uint160))"@, args), 3) == address_word(d.buyer.agent@));
            assert(arg_at(static_call("exactInputSingle((address,address,int24,address,uint256,uint256,uint256,uint160))"@, args), 4) == be_word(later_v(now, SWAP_DEADLINE_SEC as nat)));
            assert(arg_at(static_call("exactInputSingle((address,address,int24,address,uint256,uint256,uint256,uint160))"@, args), 5) == be_word(used@));
            assert(arg_at(static_call("exactInputSingle((address,address,int24,address,uint256,uint256,uint256,uint160))"@, args), 6) == be_word(d.awp_min@));
            assert(arg_at(static_call("exactInputSingle((address,address,int24,address,uint256,uint256,uint256,uint160))"@, args), 7) == be_word(0));
            assert(be_number(be_word(later_v(now, 600))) == later_v(now, 600));
        }
    }
}

/// What is read and allowed between the swaps is of the same agent, the same dollars and the same exchange: the
/// dollars of the agent are read, the exchange's allowance on them, and the exchange is allowed to take any amount
/// of them, exactly where it may not take what is used.
pub proof fn law_dollars_are_counted_and_allowed(s: Buying, reply: Reply, r: Step<Buying, Result<(), Fault>>)
    requires
        buying_next(s, reply, r),
    ensures
        (r matches Step::Act(Buying::Held(_, _), _) && s is Quotes) ==> ({
            &&& r matches Step::Act(Buying::Held(b, _), a)
            &&& a@ matches ActionV::View(to, data)
            &&& to == usdc_bytes()
            &&& data.take(4) == selector_of("balanceOf(address)"@)
            &&& address_result(arg_at(data, 0)) == Ok::<Seq<u8>, Seq<char>>(b.agent@)
        }),
        r matches Step::Act(Buying::Dollars(d), a) ==> ({
            &&& a@ matches ActionV::View(to, data)
            &&& to == usdc_bytes()
            &&& data.take(4) == selector_of("balanceOf(address)"@)
            &&& address_result(arg_at(data, 0)) == Ok::<Seq<u8>, Seq<char>>(d.buyer.agent@)
        }),
        r matches Step::Act(Buying::Allowance(d, _), a) ==> ({
            &&& a@ matches ActionV::View(to, data)
            &&& to == usdc_bytes()
            &&& data.take(4) == selector_of("allowance(address,address)"@)
            &&& address_result(arg_at(data, 0)) == Ok::<Seq<u8>, Seq<char>>(d.buyer.agent@)
            &&& address_result(arg_at(data, 1)) == Ok::<Seq<u8>, Seq<char>>(aero_cl_router_bytes())
        }),
        r matches Step::Act(Buying::ApproveTx(d, _), a) ==> ({
            &&& a@ matches ActionV::Submit(t)
            &&& t.from == d.buyer.agent@
            &&& t.to == usdc_bytes()
            &&& t.value_wei == 0
            &&& t.data.take(4) == selector_of("approve(address,uint256)"@)
            &&& t.gas_limit == 100_000
            &&& address_result(arg_at(t.data, 0)) == Ok::<Seq<u8>, Seq<char>>(aero_cl_router_bytes())
            &&& be_number(arg_at(t.data, 1)) == word_base() - 1
        }),
        s matches Buying::Allowance(d, used) ==> (reply matches Reply::Bytes(Ok(raw)) ==> (uint_result(
            raw@,
        ) matches Ok(n) ==> (r matches Step::Act(Buying::Approve(_, _), _) <==> n < used@) && (
        r matches Step::Act(Buying::Second(_, _), _) <==> n >= used@))),
{
    lemma_word_lengths();
    if let Step::Act(Buying::Held(b, _), _) = r {
        let args = seq![address_word(b.agent@)];
        lemma_static_args("balanceOf(address)"@, args);
        assert(arg_at(static_call("balanceOf(address)"@, args), 0) == address_word(b.agent@));
    }
    if let Step::Act(Buying::Dollars(d), _) = r {
        let args = seq![address_word(d.buyer.agent@)];
        lemma_static_args("balanceOf(address)"@, args);
        assert(arg_at(static_call("balanceOf(address)"@, args), 0) == address_word(d.buyer.agent@));
    }
    if let Step::Act(Buying::Allowance(d, _), _) = r {
        let args = seq![address_word(d.buyer.agent@), address_word(aero_cl_router_bytes())];
        lemma_static_args("allowance(address,address)"@, args);
        assert(arg_at(static_call("allowance(address,address)"@, args), 0) == address_word(d.buyer.agent@));
        assert(arg_at(static_call("allowance(address,address)"@, args), 1) == address_word(aero_cl_router_bytes()));
    }
    if let Step::Act(Buying::ApproveTx(d, _), _) = r {
        let args = seq![address_word(aero_cl_router_bytes()), be_word((word_base() - 1) as nat)];
        lemma_static_args("approve(address,uint256)"@, args);
        assert(arg_at(static_call("approve(address,uint256)"@, args), 0) == address_word(aero_cl_router_bytes()));
        assert(arg_at(static_call("approve(address,uint256)"@, args), 1) == be_word((word_base() - 1) as nat));
    }
}

/// The deal: the ETH that the quote asks for is swapped unless the dollars are there, 0.0015 ETH are kept back for
/// gas, and no swap may give less than what was quoted less the slippage.
pub proof fn law_deal_follows_the_quote(s: Buying, reply: Reply, r: Step<Buying, Result<(), Fault>>)
    requires
        buying_next(s, reply, r),
    ensures
        r matches Step::Act(Buying::Prices(d), _) ==> ({
            &&& s matches Buying::Held(b, q)
            &&& reply matches Reply::Bytes(Ok(raw))
            &&& uint_result(raw@) matches Ok(have)
            &&& d.buyer == b
            &&& d.held <==> q.usdc_buffer@ <= have
            &&& d.held ==> d.eth == 0
            &&& !d.held ==> d.eth == q.eth_needed@
            &&& d.total == d.eth + 1_500_000_000_000_000
            &&& d.usdc_buffer@ == q.usdc_buffer@
            &&& b.slip_bps <= 10_000 ==> d.awp_min@ * 10_000 <= b.need * (10_000 - b.slip_bps) < (d.awp_min@ + 1)
                * 10_000
            &&& b.slip_bps <= 10_000 && q.usdc_needed@ * 10_000 < word_base() ==> d.usdc_min@ * 10_000
                <= q.usdc_needed@ * (10_000 - b.slip_bps) < (d.usdc_min@ + 1) * 10_000
        }),
        r matches Step::Act(Buying::DollarsShown(d, used), _) ==> ({
            &&& s == Buying::Dollars(d)
            &&& reply matches Reply::Bytes(Ok(raw))
            &&& uint_result(raw@) matches Ok(have)
            &&& have >= d.usdc_min@
            &&& used@ <= have && used@ <= d.usdc_buffer@
            &&& used@ == have || used@ == d.usdc_buffer@
        }),
        r matches Step::Act(Buying::DollarsShort, _) ==> ({
            &&& s matches Buying::Dollars(d)
            &&& reply matches Reply::Bytes(Ok(raw))
            &&& uint_result(raw@) matches Ok(have)
            &&& have < d.usdc_min@
        }),
{
    if let Step::Act(Buying::Prices(d), _) = r {
        if let Buying::Held(b, q) = s {
            if b.slip_bps <= 10_000 {
                assert(b.need * 10_000 < word_base());
                law_slippage_bounds(b.need as nat, b.slip_bps);
                if q.usdc_needed@ * 10_000 < word_base() {
                    law_slippage_bounds(q.usdc_needed@, b.slip_bps);
                }
            }
        }
    }
}

/// Only a clear yes is a yes: the word, or its first letter, in any case and with spaces around it.
pub proof fn law_only_yes_agrees(line: Seq<char>)
    ensures
        agrees(line) <==> lowercase_text(trimmed(line)) == "y"@ || lowercase_text(trimmed(line)) == "yes"@,
        agrees(line) ==> lowercase_text(trimmed(line)).len() > 0,
{
    reveal_strlit("y");
    reveal_strlit("yes");
}

/// Before the second swap the tick spacing is asked of the pool of dollars and AWP; what is shown in between are the
/// amounts of the deal, in ETH and in dollars.
pub proof fn law_deal_is_shown(s: Buying, reply: Reply, r: Step<Buying, Result<(), Fault>>)
    requires
        buying_next(s, reply, r),
    ensures
        r matches Step::Act(Buying::Tick(_, _), a) ==> (a@ matches ActionV::View(to, data) && to
            == aero_usdc_awp_pool_bytes() && data == selector_of("tickSpacing()"@)),
        r matches Step::Act(Buying::Prices(d), a) ==> (a@ matches ActionV::Show(v) && v.len() == 3 && v[0].units == d.eth
            && v[0].decimals == 18 && v[2].units == d.total && v[2].decimals == 18 && (d.eth * 4 <= u128::MAX ==> v[1].units
            == d.eth * 4 && v[1].decimals == 15)),
        r matches Step::Act(Buying::Funds(d, _, _), a) ==> a@ == ActionV::EthBalance(d.buyer.agent@),
        r matches Step::Act(Buying::FundsShown(_, _, _, wei), a) ==> reply == Reply::Wei(Ok::<u128, Fault>(wei)) && (
        a@ matches ActionV::Show(v) && v.len() == 1 && v[0].units == wei && v[0].decimals == 18),
        r matches Step::Act(Buying::DollarsShown(d, used), a) ==> (a@ matches ActionV::Show(v) && v.len() == 2 && (
        reply matches Reply::Bytes(Ok(raw)) && uint_result(raw@) == Ok::<nat, Seq<char>>(v[0].units as nat)) && v[1].units
            == used@ && v[0].decimals == 6 && v[1].decimals == 6),
        s matches Buying::FundsTold(d, _, _, wei, _) ==> (reply matches Reply::Done(Ok(_)) ==> ((r is End) <==> wei
            < d.total)),
{
    if let Step::Act(Buying::Tick(_, _), _) = r {
        lemma_static_args("tickSpacing()"@, Seq::empty());
        let d = static_call("tickSpacing()"@, Seq::empty());
        assert(d =~= d.take(4));
    }
}

/// The price is told with the ether that is spent before what it is worth, and both before what is spent in all.
pub proof fn law_price_lines_keep_their_amounts(s: Buying, reply: Reply, r: Step<Buying, Result<(), Fault>>)
    requires
        buying_next(s, reply, r),
    ensures
        s matches Buying::Prices(d) ==> (reply matches Reply::Shown(v) ==> (v@.len() == 3 ==> ({
            &&& r matches Step::Act(Buying::Told(e, eth, total), a)
            &&& e == d && eth == v@[0] && total == v@[2]
            &&& a@ matches ActionV::Say(lines)
            &&& lines[0] == "   spend ETH         : "@ + v@[0].d6@ + " (~"@ + v@[1].d2@ + " USD if $4000/ETH)"@
            &&& lines[2] == "   total burn        : "@ + v@[2].d6@ + " ETH (recommended top-up: 0.01 ETH)"@
        }))),
        s matches Buying::FundsTold(d, eth, total, n, t) ==> (reply matches Reply::Done(Ok(_)) ==> ({
            &&& n < d.total ==> (r matches Step::End(Err(f)) && f@ == fault_v(
                "ETH balance "@ + t@ + " < required "@ + total.d6@ + ". Top up your wallet ("@ + hex_0x(d.buyer.agent@)
                    + ") on Base mainnet."@,
            ))
            &&& n >= d.total && !d.buyer.skip_prompt ==> (r matches Step::Act(Buying::Asked(e, x), _) && e == d && x == eth)
        })),
{
}

/// What is shown of the dollars is what there is, and then what is needed or what is used.
pub proof fn law_dollars_are_shown_in_order(d: Deal, raw: Seq<u8>, r: Step<Buying, Result<(), Fault>>)
    requires
        dollars_next(d, raw, r),
    ensures
        r matches Step::Act(Buying::DollarsShort, a) ==> (a@ matches ActionV::Show(v) && v.len() == 2 && uint_result(raw) == Ok::<
            nat,
            Seq<char>,
        >(v[0].units as nat) && v[1].units == d.usdc_min@ && v[0].units < v[1].units && v[0].decimals == 6 && v[1].decimals == 6),
        r matches Step::Act(Buying::DollarsShown(e, n), a) ==> (e == d && (a@ matches ActionV::Show(v) && v.len() == 2
            && uint_result(raw) == Ok::<nat, Seq<char>>(v[0].units as nat) && v[1].units == n@ && v[1].units <= v[0].units
            && v[0].decimals == 6 && v[1].decimals == 6)),
{
}

} // verus!
