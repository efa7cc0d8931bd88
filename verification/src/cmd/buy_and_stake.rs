//! buy-and-stake: buy the AWP that is missing, lock it and allocate it to the agent.
use vstd::prelude::*;

use crate::address::{address_error_text, parsed_address, Address};
use crate::bytes::{be_number, hex_0x};
use crate::chain::{
    address_result, address_word, arg_at, call0, lemma_static_args, lemma_word_lengths, read_uint, selector_of,
    static_call, uint_result,
};
use crate::cmd::buy::{
    buying_next, cap_bps, do_buy, say1, Buyer, Buying, ETH_GAS_BUFFER_WEI,
};
use crate::cmd::lock::{do_stake, locking_next, Lock, Locking, DAY_SEC};
use crate::cmd::quote::{
    allowance_call, apply_slippage, ask_balance, balance_call, law_slippage_bounds, quote, quoting_next, slipped,
    tick_action, Quote, Quoting,
};
use crate::cmd::stake::{
    read_min_stake_wei, threshold_call, threshold_or_default, ARDI_WORKNET_ID, MIN_STAKE_DEFAULT_WEI,
};
use crate::fault::{fault_v, Fault};
use crate::flow::{
    fail, fails, print, prints, stray, stray_v, Action, ActionV, Amount, Outcome, Reply, Shown, Step,
};
use crate::json::{empty_object, member, num_v, with_member, Json, JsonV};
use crate::known::{awp, awp_bytes, epoch_draw, epoch_draw_bytes, ve_awp_bytes};
use crate::num::{dec, dec_text, dec_u128, parsed_uint, u32_error_text, u32_from_text};
use crate::output::{next_v, success_v, Internal, Output, OutputV};
use crate::text::{cat2, cat3, cat5, cat7, has_prefix, trim, trimmed};
use crate::u256::{word_base, U256};

verus! {

/// One AWP in its smallest unit.
pub const ONE_AWP_WEI: u128 = 1_000_000_000_000_000_000;

/// The slippage where none is given: 3 percent.
pub const DEFAULT_SLIPPAGE_BPS: u32 = 300;

/// The highest slippage: 20 percent.
pub const MAX_SLIPPAGE_BPS: u32 = 2_000;

/// The days of a lock where none are given.
pub const DEFAULT_LOCK_DAYS: u32 = 3;

/// The longest lock: four years.
pub const MAX_LOCK_DAYS: u32 = 1_460;

/// What is to be done.
#[derive(Debug)]
pub struct BuyAndStakeArgs {
    /// The days of the lock; asked for where they are not given.
    pub lock_days: Option<u32>,
    /// The slippage in basis points.
    pub slippage_bps: Option<u32>,
    /// Whether no questions are asked.
    pub yes: bool,
    /// Whether only the price is told.
    pub quote_only: bool,
    /// The AWP to be bought, whatever is missing.
    pub buy_amount_awp: Option<u128>,
    /// Whether nothing is locked.
    pub no_stake: bool,
}

/// What is needed and what is there.
pub struct Plan {
    pub args: BuyAndStakeArgs,
    /// The agent's address as it was found.
    pub agent_text: String,
    pub agent: Address,
    pub slip_bps: u32,
    /// The stake that an agent needs.
    pub min: u128,
    /// The AWP that the agent has.
    pub have: u128,
    /// The AWP to be bought.
    pub need: u128,
}

/// A plan with its amounts written in AWP.
pub struct Terms {
    pub plan: Plan,
    pub min: Shown,
    pub have: Shown,
    pub need: Shown,
}

/// The buy-and-stake command.
pub enum BuyAndStake {
    /// The agent's address is looked for.
    Address(BuyAndStakeArgs),
    /// The stake that is needed is read.
    Threshold(BuyAndStakeArgs, String, Address),
    /// The AWP of the agent is read.
    Balance(BuyAndStakeArgs, String, Address, u128),
    /// The amounts are written in AWP.
    Amounts(Plan),
    /// It is asked whether the agent is eligible already.
    Eligible(Terms),
    /// The price is fetched, to be told.
    Quotes(Terms, Quoting),
    /// The balance is read, to be told.
    QuoteFunds(Terms, Option<Quote>),
    /// The amounts of the price are written as such.
    QuoteShown(Terms, bool),
    /// The AWP is bought.
    Buy(Terms, Buying),
    /// The AWP of the agent is read again.
    After(Terms),
    /// It is written as such.
    AfterShown(Terms, u128),
    /// It is told that there is enough.
    Ready(Terms),
    /// The days of the lock are asked for.
    Days(Terms),
    /// The lock is told.
    Told(Terms, u32),
    /// The AWP is locked.
    Stake(Terms, u32, Locking),
}

/// The slippage: the one that is given or else the usual one, but not above the highest.
pub open spec fn slippage(given: Option<u32>) -> u32 {
    let bps = match given {
        Some(b) => b,
        None => DEFAULT_SLIPPAGE_BPS,
    };
    if bps > MAX_SLIPPAGE_BPS {
        MAX_SLIPPAGE_BPS
    } else {
        bps
    }
}

fn choose_slippage(given: Option<u32>) -> (r: u32)
    ensures
        r == slippage(given),
{
    let bps: u32 = match given {
        Some(b) => b,
        None => DEFAULT_SLIPPAGE_BPS,
    };
    if bps > MAX_SLIPPAGE_BPS {
        MAX_SLIPPAGE_BPS
    } else {
        bps
    }
}

/// The AWP to be bought: what is asked for, or else what is missing.
pub open spec fn shortfall(asked: Option<u128>, min: u128, have: u128) -> int {
    match asked {
        Some(n) => n * ONE_AWP_WEI,
        None => if have >= min {
            0
        } else {
            min - have
        },
    }
}

/// The AWP to be bought, unless it is out of range.
pub fn amount_to_buy(asked: Option<u128>, min: u128, have: u128) -> (r: Option<u128>)
    ensures
        match r {
            Some(n) => n == shortfall(asked, min, have),
            None => shortfall(asked, min, have) > u128::MAX,
        },
{
    match asked {
        Some(n) => n.checked_mul(ONE_AWP_WEI),
        None => if have >= min {
            Some(0)
        } else {
            Some(min - have)
        },
    }
}

/// Buying what is missing leaves the agent with exactly the stake that is needed, where it did not have more.
pub proof fn law_shortfall_reaches_threshold(min: u128, have: u128)
    ensures
        have + shortfall(None, min, have) >= min,
        have < min ==> have + shortfall(None, min, have) == min,
        have >= min ==> shortfall(None, min, have) == 0,
{
}

/// What comes next with the AWP of the agent.
pub open spec fn plan_next(
    args: BuyAndStakeArgs,
    t: String,
    agent: Address,
    min: u128,
    raw: Seq<u8>,
    r: Step<BuyAndStake, Outcome>,
) -> bool {
    match uint_result(raw) {
        Err(e) => fails(r, fault_v(e)),
        Ok(have) => if have > u128::MAX || shortfall(args.buy_amount_awp, min, have as u128) > u128::MAX {
            fails(r, fault_v("amount out of range"@))
        } else {
            &&& r matches Step::Act(BuyAndStake::Amounts(p), a)
            &&& p.args == args
            &&& p.agent_text == t
            &&& p.agent == agent
            &&& p.slip_bps == slippage(args.slippage_bps)
            &&& p.min == min
            &&& p.have == have
            &&& p.need == shortfall(args.buy_amount_awp, min, have as u128)
            &&& a@ == ActionV::Show(seq![awp_of(p.min), awp_of(p.have), awp_of(p.need)])
        },
    }
}

/// An amount of AWP.
pub open spec fn awp_of(units: u128) -> Amount {
    Amount { units, decimals: 18 }
}

/// Goes on with the AWP of the agent.
pub fn with_balance(args: BuyAndStakeArgs, agent_text: String, agent: Address, min: u128, raw: &Vec<u8>) -> (r: Step<BuyAndStake, Outcome>)
    ensures
        plan_next(args, agent_text, agent, min, raw@, r),
{
    let have = match read_uint(raw) {
        Err(e) => {
            return fail(Fault::new(e));
        },
        Ok(n) => match n.to_u128() {
            Some(m) => m,
            None => {
                return fail(Fault::of("amount out of range"));
            },
        },
    };
    match amount_to_buy(args.buy_amount_awp, min, have) {
        None => fail(Fault::of("amount out of range")),
        Some(need) => {
            let slip_bps = choose_slippage(args.slippage_bps);
            let mut v: Vec<Amount> = Vec::new();
            v.push(Amount { units: min, decimals: 18 });
            v.push(Amount { units: have, decimals: 18 });
            v.push(Amount { units: need, decimals: 18 });
            assert(v@ =~= seq![awp_of(min), awp_of(have), awp_of(need)]);
            Step::Act(
                BuyAndStake::Amounts(Plan { args, agent_text, agent, slip_bps, min, have, need }),
                Action::Show(v),
            )
        },
    }
}

/// What comes next where the agent may need more AWP, or the price is asked for.
pub open spec fn terms_next(t: Terms, r: Step<BuyAndStake, Outcome>) -> bool {
    if t.plan.args.quote_only {
        if t.plan.need == 0 {
            &&& r matches Step::Act(BuyAndStake::QuoteFunds(u, None), a)
            &&& u == t
            &&& a@ == ActionV::EthBalance(t.plan.agent@)
        } else {
            &&& r matches Step::Act(BuyAndStake::Quotes(u, Quoting::Tick(n, told)), a)
            &&& u == t
            &&& n == t.plan.need
            &&& !told
            &&& a@ == tick_action()
        }
    } else if t.plan.need > 0 {
        &&& r matches Step::Act(BuyAndStake::Buy(u, Buying::Target(b)), a)
        &&& u == t
        &&& b.agent == t.plan.agent
        &&& b.need == t.plan.need
        &&& b.slip_bps == t.plan.slip_bps
        &&& b.skip_prompt == t.plan.args.yes
        &&& a@ == ActionV::Say(
            seq![
                "\n📊 Quote (live, on-chain — no API key)"@,
                "   target AWP needed: "@ + t.need.d4@,
            ],
        )
    } else {
        &&& r matches Step::Act(BuyAndStake::Ready(u), a)
        &&& u == t
        &&& a@ == ActionV::Say(
            seq![
                "✓ AWP balance already meets threshold ("@ + t.have.d4@ + " >= "@ + t.min.d0@
                    + ") — skipping swap"@,
            ],
        )
    }
}

/// Goes on where the agent may need more AWP, or the price is asked for.
pub fn with_terms(t: Terms) -> (r: Step<BuyAndStake, Outcome>)
    ensures
        terms_next(t, r),
{
    if t.plan.args.quote_only {
        if t.plan.need == 0 {
            let a = Action::EthBalance(t.plan.agent);
            return Step::Act(BuyAndStake::QuoteFunds(t, None), a);
        }
        match quote(t.plan.need, false) {
            Step::Act(q, a) => Step::Act(BuyAndStake::Quotes(t, q), a),
            Step::End(_) => fail(stray()),
        }
    } else if t.plan.need > 0 {
        let b = Buyer {
            agent: t.plan.agent,
            need: t.plan.need,
            need_d4: t.need.d4.clone(),
            slip_bps: t.plan.slip_bps,
            skip_prompt: t.plan.args.yes,
        };
        match do_buy(b) {
            Step::Act(s, a) => Step::Act(BuyAndStake::Buy(t, s), a),
            Step::End(_) => fail(stray()),
        }
    } else {
        let a = say1(
            cat5(
                "✓ AWP balance already meets threshold (",
                t.have.d4.as_str(),
                " >= ",
                t.min.d0.as_str(),
                ") — skipping swap",
            ),
        );
        Step::Act(BuyAndStake::Ready(t), a)
    }
}

/// The output where the agent is eligible already.
pub open spec fn eligible_v(t: Terms) -> OutputV {
    let o = with_member(empty_object(), "agent"@, JsonV::Str(t.plan.agent_text@));
    let o = with_member(o, "eligible"@, JsonV::Bool(true));
    let o = with_member(o, "worknet_id"@, num_v(ARDI_WORKNET_ID as int));
    success_v(
        "✓ agent is already eligible on Ardi worknet — nothing to buy or lock"@,
        o,
        next_v("commit_now"@, Some("ardi-agent context"@)),
    )
}

/// The output where the agent is eligible already.
pub fn already_eligible(t: &Terms) -> (r: Output)
    ensures
        r@ == eligible_v(*t),
{
    let o = Json::object().with("agent", Json::text(t.plan.agent_text.as_str())).with(
        "eligible",
        Json::Bool(true),
    ).with("worknet_id", Json::number(ARDI_WORKNET_ID));
    Output::success(
        "✓ agent is already eligible on Ardi worknet — nothing to buy or lock".to_owned(),
        o,
        Internal::run("commit_now", "ardi-agent context"),
    )
}

/// Whether the command is for an agent who is not eligible yet: no price is asked for, and no amount to be bought.
pub open spec fn fills_up(args: BuyAndStakeArgs) -> bool {
    !args.quote_only && args.buy_amount_awp is None
}

/// What comes next with the terms: where no amount is asked for, an agent who is eligible already needs nothing.
pub open spec fn shown_next(t: Terms, r: Step<BuyAndStake, Outcome>) -> bool {
    if fills_up(t.plan.args) {
        &&& r matches Step::Act(BuyAndStake::Eligible(u), a)
        &&& u == t
        &&& a@ == ActionV::Eligible(t.plan.agent_text@)
    } else {
        terms_next(t, r)
    }
}

fn when_shown(t: Terms) -> (r: Step<BuyAndStake, Outcome>)
    ensures
        shown_next(t, r),
{
    if !t.plan.args.quote_only && t.plan.args.buy_amount_awp.is_none() {
        let a = Action::Eligible(t.plan.agent_text.clone());
        return Step::Act(BuyAndStake::Eligible(t), a);
    }
    with_terms(t)
}

/// What comes next with a step of the quotes.
pub open spec fn quotes_next(t: Terms, q: Step<Quoting, Result<Quote, Fault>>, r: Step<BuyAndStake, Outcome>) -> bool {
    match q {
        Step::Act(s, a) => {
            &&& r matches Step::Act(BuyAndStake::Quotes(u, s2), a2)
            &&& u == t
            &&& s2 == s
            &&& a2 == a
        },
        Step::End(Ok(x)) => {
            &&& r matches Step::Act(BuyAndStake::QuoteFunds(u, Some(y)), a)
            &&& u == t
            &&& y == x
            &&& a@ == ActionV::EthBalance(t.plan.agent@)
        },
        Step::End(Err(f)) => fails(r, f@),
    }
}

fn go_quotes(t: Terms, q: Step<Quoting, Result<Quote, Fault>>) -> (r: Step<BuyAndStake, Outcome>)
    ensures
        quotes_next(t, q, r),
{
    match q {
        Step::Act(s, a) => Step::Act(BuyAndStake::Quotes(t, s), a),
        Step::End(Ok(x)) => {
            let a = Action::EthBalance(t.plan.agent);
            Step::Act(BuyAndStake::QuoteFunds(t, Some(x)), a)
        },
        Step::End(Err(f)) => fail(f),
    }
}

/// What comes next with the balance, where only the price is told.
pub open spec fn priced_next(t: Terms, q: Quote, wei: u128, r: Step<BuyAndStake, Outcome>) -> bool {
    let bps = cap_bps(t.plan.slip_bps);
    let usdc_min = slipped(q.usdc_needed@, bps);
    let awp_min = slipped(t.plan.need as nat, bps);
    if q.eth_needed@ + ETH_GAS_BUFFER_WEI > u128::MAX || usdc_min > u128::MAX || awp_min > u128::MAX {
        fails(r, fault_v("quote out of range"@))
    } else {
        let total = (q.eth_needed@ + ETH_GAS_BUFFER_WEI) as u128;
        &&& r matches Step::Act(BuyAndStake::QuoteShown(u, sufficient), a)
        &&& u == t
        &&& sufficient == (wei >= total)
        &&& a@ == ActionV::Show(
            seq![
                awp_of(q.eth_needed@ as u128),
                awp_of(total),
                Amount { units: usdc_min as u128, decimals: 6 },
                awp_of(awp_min as u128),
                awp_of(wei),
            ],
        )
    }
}

/// Goes on with the balance, where only the price is told.
pub fn with_price(t: Terms, q: Quote, wei: u128) -> (r: Step<BuyAndStake, Outcome>)
    ensures
        priced_next(t, q, wei, r),
{
    let bps: u32 = if t.plan.slip_bps > 10_000 {
        10_000
    } else {
        t.plan.slip_bps
    };
    let usdc_min = apply_slippage(&q.usdc_needed, bps);
    let awp_min = apply_slippage(&U256::of_u128(t.plan.need), bps);
    match (q.eth_needed.to_u128(), usdc_min.to_u128(), awp_min.to_u128()) {
        (Some(eth), Some(u), Some(w)) => {
            if eth > u128::MAX - ETH_GAS_BUFFER_WEI {
                return fail(Fault::of("quote out of range"));
            }
            let total = eth + ETH_GAS_BUFFER_WEI;
            let mut v: Vec<Amount> = Vec::new();
            v.push(Amount { units: eth, decimals: 18 });
            v.push(Amount { units: total, decimals: 18 });
            v.push(Amount { units: u, decimals: 6 });
            v.push(Amount { units: w, decimals: 18 });
            v.push(Amount { units: wei, decimals: 18 });
            assert(v@ =~= seq![
                awp_of(eth),
                awp_of(total),
                Amount { units: u, decimals: 6 },
                awp_of(w),
                awp_of(wei),
            ]);
            Step::Act(BuyAndStake::QuoteShown(t, wei >= total), Action::Show(v))
        },
        _ => fail(Fault::of("quote out of range")),
    }
}

/// The price as data.
pub open spec fn swap_data(bps: u32, v: Seq<Shown>, sufficient: bool) -> JsonV {
    let o = with_member(empty_object(), "spend_eth"@, JsonV::Num(v[0].json@));
    let o = with_member(o, "buffer_eth_for_gas"@, JsonV::Num("0.0015"@));
    let o = with_member(o, "total_burn_eth"@, JsonV::Num(v[1].json@));
    let o = with_member(o, "slippage_bps"@, num_v(bps as int));
    let o = with_member(o, "min_usdc_received"@, JsonV::Num(v[2].json@));
    let o = with_member(o, "min_awp_received"@, JsonV::Num(v[3].json@));
    let o = with_member(
        o,
        "route"@,
        JsonV::Str("ETH → USDC (Uniswap V3 0.05%) → AWP (Aerodrome CL)"@),
    );
    let o = with_member(o, "wallet_eth_balance"@, JsonV::Num(v[4].json@));
    with_member(o, "eth_sufficient"@, JsonV::Bool(sufficient))
}

fn swap(bps: u32, v: &Vec<Shown>, sufficient: bool) -> (r: Json)
    requires
        v@.len() == 5,
    ensures
        r@ == swap_data(bps, v@, sufficient),
{
    Json::object().with("spend_eth", Json::Num(v[0].json.clone())).with(
        "buffer_eth_for_gas",
        Json::Num("0.0015".to_owned()),
    ).with("total_burn_eth", Json::Num(v[1].json.clone())).with(
        "slippage_bps",
        Json::number(bps as u64),
    ).with("min_usdc_received", Json::Num(v[2].json.clone())).with(
        "min_awp_received",
        Json::Num(v[3].json.clone()),
    ).with("route", Json::text("ETH → USDC (Uniswap V3 0.05%) → AWP (Aerodrome CL)")).with(
        "wallet_eth_balance",
        Json::Num(v[4].json.clone()),
    ).with("eth_sufficient", Json::Bool(sufficient))
}

/// The choices of a lock as data.
pub open spec fn options_data() -> JsonV {
    let o = with_member(empty_object(), "default_lock_days"@, num_v(3));
    let o = with_member(o, "min_lock_days"@, num_v(1));
    let o = with_member(o, "max_lock_days"@, num_v(1460));
    with_member(
        o,
        "note"@,
        JsonV::Str(
            "Locked AWP cannot be withdrawn until expiry. Default 3 days keeps you flexible; longer locks are NOT required for Ardi eligibility."@,
        ),
    )
}

/// What to run next, with the slippage where it is not the usual one.
pub open spec fn next_step(bps: u32) -> Seq<char> {
    "Confirm with user, then run: ardi-agent buy-and-stake --yes --lock-days <N>"@ + (if bps
        != DEFAULT_SLIPPAGE_BPS {
        " --slippage "@ + dec_text(bps as nat)
    } else {
        ""@
    })
}

/// The output that tells the price.
pub open spec fn quoted_v(t: Terms, price: JsonV) -> OutputV {
    let o = with_member(empty_object(), "agent_address"@, JsonV::Str(hex_0x(t.plan.agent@)));
    let o = with_member(o, "current_awp"@, JsonV::Num(t.have.json@));
    let o = with_member(o, "threshold_awp"@, JsonV::Num(t.min.json@));
    let o = with_member(o, "needed_awp"@, JsonV::Num(t.need.json@));
    let o = with_member(o, "needs_swap"@, JsonV::Bool(t.plan.need != 0));
    let o = with_member(o, "swap"@, price);
    let o = with_member(o, "stake_options"@, options_data());
    let o = with_member(o, "next_step"@, JsonV::Str(next_step(t.plan.slip_bps)));
    success_v(
        "Quote ready — relay to user, confirm, then re-run with `--yes --lock-days N`"@,
        o,
        next_v(
            "await_user_confirmation"@,
            Some("ardi-agent buy-and-stake --yes --lock-days <USER_CHOICE>"@),
        ),
    )
}

/// The output that tells the price.
pub fn quote_only(t: &Terms, price: Json) -> (r: Output)
    ensures
        r@ == quoted_v(*t, price@),
{
    let options = Json::object().with("default_lock_days", Json::number(3)).with(
        "min_lock_days",
        Json::number(1),
    ).with("max_lock_days", Json::number(1460)).with(
        "note",
        Json::text(
            "Locked AWP cannot be withdrawn until expiry. Default 3 days keeps you flexible; longer locks are NOT required for Ardi eligibility.",
        ),
    );
    let extra = if t.plan.slip_bps != DEFAULT_SLIPPAGE_BPS {
        let b = dec(t.plan.slip_bps as u64);
        cat2(" --slippage ", b.as_str())
    } else {
        "".to_owned()
    };
    let next = cat2(
        "Confirm with user, then run: ardi-agent buy-and-stake --yes --lock-days <N>",
        extra.as_str(),
    );
    let o = Json::object().with("agent_address", Json::Str(t.plan.agent.lower())).with(
        "current_awp",
        Json::Num(t.have.json.clone()),
    ).with("threshold_awp", Json::Num(t.min.json.clone())).with(
        "needed_awp",
        Json::Num(t.need.json.clone()),
    ).with("needs_swap", Json::Bool(t.plan.need != 0)).with("swap", price).with(
        "stake_options",
        options,
    ).with("next_step", Json::Str(next));
    Output::success(
        "Quote ready — relay to user, confirm, then re-run with `--yes --lock-days N`".to_owned(),
        o,
        Internal::run(
            "await_user_confirmation",
            "ardi-agent buy-and-stake --yes --lock-days <USER_CHOICE>",
        ),
    )
}

/// What comes next with a step of the purchase.
pub open spec fn bought_next(t: Terms, b: Step<Buying, Result<(), Fault>>, r: Step<BuyAndStake, Outcome>) -> bool {
    match b {
        Step::Act(s, a) => {
            &&& r matches Step::Act(BuyAndStake::Buy(u, s2), a2)
            &&& u == t
            &&& s2 == s
            &&& a2 == a
        },
        Step::End(Ok(_)) => {
            &&& r matches Step::Act(BuyAndStake::After(u), a)
            &&& u == t
            &&& a@ == ActionV::View(awp_bytes(), balance_call(t.plan.agent@))
        },
        Step::End(Err(f)) => fails(r, f@),
    }
}

fn go_buy(t: Terms, b: Step<Buying, Result<(), Fault>>) -> (r: Step<BuyAndStake, Outcome>)
    ensures
        bought_next(t, b, r),
{
    match b {
        Step::Act(s, a) => Step::Act(BuyAndStake::Buy(t, s), a),
        Step::End(Ok(_)) => {
            let a = ask_balance(awp(), &t.plan.agent);
            Step::Act(BuyAndStake::After(t), a)
        },
        Step::End(Err(f)) => fail(f),
    }
}

/// What comes next with the AWP after the purchase. Where nothing is to be locked, any amount will do.
pub open spec fn after_next(t: Terms, have: u128, shown: Seq<char>, r: Step<BuyAndStake, Outcome>) -> bool {
    if have < t.plan.min && !t.plan.args.no_stake {
        fails(
            r,
            fault_v(
                "post-swap AWP balance "@ + shown + " < required "@ + t.min.plain@
                    + " — swap reverted or partial. Re-run buy-and-stake to retry only the missing piece."@,
            ),
        )
    } else {
        &&& r matches Step::Act(BuyAndStake::Ready(u), a)
        &&& u == t
        &&& a@ == ActionV::Say(
            seq!["✓ AWP balance now "@ + shown + " (target "@ + t.min.plain@ + ")"@],
        )
    }
}

/// Goes on with the AWP after the purchase.
pub fn with_after(t: Terms, have: u128, shown: &str) -> (r: Step<BuyAndStake, Outcome>)
    ensures
        after_next(t, have, shown@, r),
{
    if have < t.plan.min && !t.plan.args.no_stake {
        return fail(
            Fault::new(
                cat5(
                    "post-swap AWP balance ",
                    shown,
                    " < required ",
                    t.min.plain.as_str(),
                    " — swap reverted or partial. Re-run buy-and-stake to retry only the missing piece.",
                ),
            ),
        );
    }
    let a = say1(cat5("✓ AWP balance now ", shown, " (target ", t.min.plain.as_str(), ")"));
    Step::Act(BuyAndStake::Ready(t), a)
}

/// The output where nothing is locked.
pub open spec fn unlocked_v(t: Terms) -> OutputV {
    let o = with_member(empty_object(), "agent"@, JsonV::Str(t.plan.agent_text@));
    let o = with_member(
        o,
        "buy_amount_awp"@,
        num_v(
            match t.plan.args.buy_amount_awp {
                Some(n) => n as int,
                None => 0,
            },
        ),
    );
    let o = with_member(o, "no_stake"@, JsonV::Bool(true));
    success_v(
        "✓ swap done ("@ + t.min.plain@ + " AWP); --no-stake set, skipping lock + allocate"@,
        o,
        next_v("manual_stake_or_done"@, Some("ardi-agent stake"@)),
    )
}

/// The output where nothing is locked.
pub fn unlocked(t: &Terms) -> (r: Output)
    ensures
        r@ == unlocked_v(*t),
{
    let n: u128 = match t.plan.args.buy_amount_awp {
        Some(n) => n,
        None => 0,
    };
    let o = Json::object().with("agent", Json::text(t.plan.agent_text.as_str())).with(
        "buy_amount_awp",
        Json::Num(dec_u128(n)),
    ).with("no_stake", Json::Bool(true));
    Output::success(
        cat3(
            "✓ swap done (",
            t.min.plain.as_str(),
            " AWP); --no-stake set, skipping lock + allocate",
        ),
        o,
        Internal::run("manual_stake_or_done", "ardi-agent stake"),
    )
}

/// What comes next with the days of the lock.
pub open spec fn days_next(t: Terms, days: u32, r: Step<BuyAndStake, Outcome>) -> bool {
    if days == 0 {
        fails(r, fault_v("lock-days must be >= 1"@))
    } else if days > MAX_LOCK_DAYS {
        fails(r, fault_v("lock-days must be <= 1460"@))
    } else {
        &&& r matches Step::Act(BuyAndStake::Told(u, d), a)
        &&& u == t
        &&& d == days
        &&& a@ == ActionV::Say(
            seq![
                "→ locking "@ + t.min.plain@ + " AWP for "@ + dec_text(days as nat) + " day(s) ("@
                    + dec_text(days as nat * DAY_SEC as nat) + "s)"@,
            ],
        )
    }
}

/// Goes on with the days of the lock.
pub fn with_days(t: Terms, days: u32) -> (r: Step<BuyAndStake, Outcome>)
    ensures
        days_next(t, days, r),
{
    if days == 0 {
        return fail(Fault::of("lock-days must be >= 1"));
    }
    if days > MAX_LOCK_DAYS {
        return fail(Fault::of("lock-days must be <= 1460"));
    }
    let d = dec(days as u64);
    let s = dec(days as u64 * DAY_SEC);
    let a = say1(
        cat7(
            "→ locking ",
            t.min.plain.as_str(),
            " AWP for ",
            d.as_str(),
            " day(s) (",
            s.as_str(),
            "s)",
        ),
    );
    Step::Act(BuyAndStake::Told(t, days), a)
}

/// The days that an answer states; an empty answer means the usual ones.
pub open spec fn days_of(line: Seq<char>) -> Result<u32, Seq<Seq<char>>> {
    let t = trimmed(line);
    if t.len() == 0 {
        Ok(DEFAULT_LOCK_DAYS)
    } else {
        match parsed_uint(t, 10, u32::MAX as nat) {
            Some(n) => Ok(n as u32),
            None => Err(fault_v("invalid lock-days: "@ + u32_error_text(t))),
        }
    }
}

/// The days that an answer states.
pub fn read_days(line: &str) -> (r: Result<u32, Fault>)
    ensures
        match r {
            Ok(d) => days_of(line@) == Ok::<u32, Seq<Seq<char>>>(d),
            Err(f) => days_of(line@) == Err::<u32, Seq<Seq<char>>>(f@),
        },
{
    let t = trim(line);
    if t.as_str().unicode_len() == 0 {
        return Ok(DEFAULT_LOCK_DAYS);
    }
    match u32_from_text(t.as_str()) {
        Ok(d) => Ok(d),
        Err(e) => Err(Fault::new(cat2("invalid lock-days: ", e.as_str()))),
    }
}

/// What comes next once there is enough AWP.
pub open spec fn ready_next(t: Terms, r: Step<BuyAndStake, Outcome>) -> bool {
    if t.plan.args.no_stake {
        prints(r, unlocked_v(t))
    } else {
        match t.plan.args.lock_days {
            Some(d) => days_next(t, d, r),
            None => if t.plan.args.yes {
                days_next(t, DEFAULT_LOCK_DAYS, r)
            } else {
                &&& r matches Step::Act(BuyAndStake::Days(u), a)
                &&& u == t
                &&& a@ == ActionV::Ask("Lock duration in days (default 3, max 1460=4yr): "@)
            },
        }
    }
}

/// Goes on once there is enough AWP.
pub fn when_ready(t: Terms) -> (r: Step<BuyAndStake, Outcome>)
    ensures
        ready_next(t, r),
{
    if t.plan.args.no_stake {
        return print(unlocked(&t));
    }
    match t.plan.args.lock_days {
        Some(d) => with_days(t, d),
        None => if t.plan.args.yes {
            with_days(t, DEFAULT_LOCK_DAYS)
        } else {
            Step::Act(
                BuyAndStake::Days(t),
                Action::Ask("Lock duration in days (default 3, max 1460=4yr): ".to_owned()),
            )
        },
    }
}

/// The output where the AWP is locked and allocated.
pub open spec fn staked_v(t: Terms, days: u32) -> OutputV {
    let o = with_member(empty_object(), "agent"@, JsonV::Str(t.plan.agent_text@));
    let o = with_member(o, "stake_awp"@, JsonV::Num(t.min.json@));
    let o = with_member(o, "lock_days"@, num_v(days as int));
    let o = with_member(o, "worknet_id"@, num_v(ARDI_WORKNET_ID as int));
    success_v(
        "✓ "@ + t.min.plain@ + " AWP locked + allocated to agent on Ardi worknet. Eligible to commit."@,
        o,
        next_v("commit_now"@, Some("ardi-agent context"@)),
    )
}

/// The output where the AWP is locked and allocated.
pub fn staked(t: &Terms, days: u32) -> (r: Output)
    ensures
        r@ == staked_v(*t, days),
{
    let o = Json::object().with("agent", Json::text(t.plan.agent_text.as_str())).with(
        "stake_awp",
        Json::Num(t.min.json.clone()),
    ).with("lock_days", Json::number(days as u64)).with(
        "worknet_id",
        Json::number(ARDI_WORKNET_ID),
    );
    Output::success(
        cat3(
            "✓ ",
            t.min.plain.as_str(),
            " AWP locked + allocated to agent on Ardi worknet. Eligible to commit.",
        ),
        o,
        Internal::run("commit_now", "ardi-agent context"),
    )
}

/// What comes next with a step of the lock.
pub open spec fn locked_next(t: Terms, days: u32, l: Step<Locking, Result<(), Fault>>, r: Step<BuyAndStake, Outcome>) -> bool {
    match l {
        Step::Act(s, a) => {
            &&& r matches Step::Act(BuyAndStake::Stake(u, d, s2), a2)
            &&& u == t
            &&& d == days
            &&& s2 == s
            &&& a2 == a
        },
        Step::End(Ok(_)) => prints(r, staked_v(t, days)),
        Step::End(Err(f)) => fails(r, f@),
    }
}

fn go_lock(t: Terms, days: u32, l: Step<Locking, Result<(), Fault>>) -> (r: Step<BuyAndStake, Outcome>)
    ensures
        locked_next(t, days, l, r),
{
    match l {
        Step::Act(s, a) => Step::Act(BuyAndStake::Stake(t, days, s), a),
        Step::End(Ok(_)) => print(staked(&t, days)),
        Step::End(Err(f)) => fail(f),
    }
}

/// What is locked: the stake that is needed, for the days that were chosen.
pub open spec fn locks(l: Lock, t: Terms, days: u32) -> bool {
    &&& l.agent == t.plan.agent
    &&& l.amount == t.plan.min
    &&& l.amount_d0@ == t.min.d0@
    &&& l.days == days
}

/// What comes next in the buy-and-stake command.
pub open spec fn command_next(s: BuyAndStake, reply: Reply, r: Step<BuyAndStake, Outcome>) -> bool {
    match (s, reply) {
        (BuyAndStake::Address(args), Reply::Text(Ok(t))) => match parsed_address(t@) {
            None => fails(r, fault_v(address_error_text(t@))),
            Some(x) => {
                &&& r matches Step::Act(BuyAndStake::Threshold(b, u, agent), a)
                &&& b == args
                &&& u == t
                &&& agent@ == x
                &&& a@ == ActionV::View(epoch_draw_bytes(), threshold_call())
            },
        },
        (BuyAndStake::Address(_), Reply::Text(Err(f))) => fails(r, f@),
        (BuyAndStake::Threshold(args, t, agent), Reply::Bytes(b)) => if threshold_or_default(b) > u128::MAX {
            fails(r, fault_v("minStake out of range"@))
        } else {
            &&& r matches Step::Act(BuyAndStake::Balance(c, u, x, min), a)
            &&& c == args
            &&& u == t
            &&& x == agent
            &&& min == threshold_or_default(b)
            &&& a@ == ActionV::View(awp_bytes(), balance_call(agent@))
        },
        (BuyAndStake::Balance(args, t, agent, min), Reply::Bytes(Ok(raw))) => plan_next(
            args,
            t,
            agent,
            min,
            raw@,
            r,
        ),
        (BuyAndStake::Balance(_, _, _, _), Reply::Bytes(Err(f))) => fails(r, f@),
        (BuyAndStake::Amounts(p), Reply::Shown(v)) => if v@.len() == 3 {
            shown_next(Terms { plan: p, min: v@[0], have: v@[1], need: v@[2] }, r)
        } else {
            fails(r, stray_v())
        },
        (BuyAndStake::Eligible(t), Reply::Flag(Ok(true))) => prints(r, eligible_v(t)),
        (BuyAndStake::Eligible(t), Reply::Flag(Ok(false))) => terms_next(t, r),
        (BuyAndStake::Eligible(_), Reply::Flag(Err(f))) => fails(r, f@),
        (BuyAndStake::Quotes(t, q), x) => exists|y: Step<Quoting, Result<Quote, Fault>>| #[trigger]
            quoting_next(q, x, y) && quotes_next(t, y, r),
        (BuyAndStake::QuoteFunds(t, None), Reply::Wei(Ok(_))) => prints(r, quoted_v(t, JsonV::Null)),
        (BuyAndStake::QuoteFunds(t, Some(q)), Reply::Wei(Ok(n))) => priced_next(t, q, n, r),
        (BuyAndStake::QuoteFunds(_, _), Reply::Wei(Err(f))) => fails(r, f@),
        (BuyAndStake::QuoteShown(t, sufficient), Reply::Shown(v)) => if v@.len() == 5 {
            prints(r, quoted_v(t, swap_data(t.plan.slip_bps, v@, sufficient)))
        } else {
            fails(r, stray_v())
        },
        (BuyAndStake::Buy(t, b), x) => exists|y: Step<Buying, Result<(), Fault>>| #[trigger]
            buying_next(b, x, y) && bought_next(t, y, r),
        (BuyAndStake::After(t), Reply::Bytes(Ok(raw))) => match uint_result(raw@) {
            Err(e) => fails(r, fault_v(e)),
            Ok(n) => if n > u128::MAX {
                fails(r, fault_v("amount out of range"@))
            } else {
                &&& r matches Step::Act(BuyAndStake::AfterShown(u, m), a)
                &&& u == t
                &&& m == n
                &&& a@ == ActionV::Show(seq![awp_of(m)])
            },
        },
        (BuyAndStake::After(_), Reply::Bytes(Err(f))) => fails(r, f@),
        (BuyAndStake::AfterShown(t, n), Reply::Shown(v)) => if v@.len() == 1 {
            after_next(t, n, v@[0].plain@, r)
        } else {
            fails(r, stray_v())
        },
        (BuyAndStake::Ready(t), Reply::Done(Ok(_))) => ready_next(t, r),
        (BuyAndStake::Ready(_), Reply::Done(Err(f))) => fails(r, f@),
        (BuyAndStake::Days(t), Reply::Text(Ok(line))) => match days_of(line@) {
            Ok(d) => days_next(t, d, r),
            Err(f) => fails(r, f),
        },
        (BuyAndStake::Days(_), Reply::Text(Err(f))) => fails(r, f@),
        (BuyAndStake::Told(t, days), Reply::Done(Ok(_))) => exists|l: Lock, y: Step<
            Locking,
            Result<(), Fault>,
        >|
            #![trigger locks(l, t, days), locked_next(t, days, y, r)]
            locks(l, t, days) && (y matches Step::Act(Locking::Allowance(m), a) && m == l && a@
                == ActionV::View(
                awp_bytes(),
                allowance_call(l.agent@, ve_awp_bytes()),
            )) && locked_next(t, days, y, r),
        (BuyAndStake::Told(_, _), Reply::Done(Err(f))) => fails(r, f@),
        (BuyAndStake::Stake(t, days, l), x) => exists|y: Step<Locking, Result<(), Fault>>| #[trigger]
            locking_next(l, x, y) && locked_next(t, days, y, r),
        _ => fails(r, stray_v()),
    }
}

/// Starts the buy-and-stake command.
pub fn run(args: BuyAndStakeArgs) -> (r: Step<BuyAndStake, Outcome>)
    ensures
        r matches Step::Act(BuyAndStake::Address(b), a) && b == args && a@ == ActionV::Address,
{
    Step::Act(BuyAndStake::Address(args), Action::Address)
}

impl BuyAndStake {
    /// Goes on with the reply.
    pub fn step(self, reply: Reply) -> (r: Step<BuyAndStake, Outcome>)
        ensures
            command_next(self, reply, r),
    {
        match (self, reply) {
            (BuyAndStake::Address(args), Reply::Text(Ok(t))) => match Address::parse(t.as_str()) {
                Err(e) => fail(Fault::new(e)),
                Ok(agent) => Step::Act(
                    BuyAndStake::Threshold(args, t, agent),
                    Action::View(epoch_draw(), call0("minStake()")),
                ),
            },
            (BuyAndStake::Address(_), Reply::Text(Err(f))) => fail(f),
            (BuyAndStake::Threshold(args, t, agent), Reply::Bytes(b)) => {
                let min: u128 = match read_min_stake_wei(&b) {
                    Some(n) => match n.to_u128() {
                        Some(m) => m,
                        None => {
                            return fail(Fault::of("minStake out of range"));
                        },
                    },
                    None => MIN_STAKE_DEFAULT_WEI,
                };
                Step::Act(
                    BuyAndStake::Balance(args, t, agent, min),
                    ask_balance(awp(), &agent),
                )
            },
            (BuyAndStake::Balance(args, t, agent, min), Reply::Bytes(Ok(raw))) => with_balance(
                args,
                t,
                agent,
                min,
                &raw,
            ),
            (BuyAndStake::Balance(_, _, _, _), Reply::Bytes(Err(f))) => fail(f),
            (BuyAndStake::Amounts(p), Reply::Shown(v)) => {
                let mut v = v;
                if v.len() != 3 {
                    return fail(stray());
                }
                let z = v.pop();
                let y = v.pop();
                let x = v.pop();
                match (x, y, z) {
                    (Some(min), Some(have), Some(need)) => when_shown(
                        Terms { plan: p, min, have, need },
                    ),
                    _ => fail(stray()),
                }
            },
            (BuyAndStake::Eligible(t), Reply::Flag(Ok(true))) => print(already_eligible(&t)),
            (BuyAndStake::Eligible(t), Reply::Flag(Ok(false))) => with_terms(t),
            (BuyAndStake::Eligible(_), Reply::Flag(Err(f))) => fail(f),
            (BuyAndStake::Quotes(t, q), x) => {
                let ghost (q0, x0) = (q, x);
                let y = q.step(x);
                let ghost y0 = y;
                let r = go_quotes(t, y);
                assert(quoting_next(q0, x0, y0) && quotes_next(t, y0, r));
                r
            },
            (BuyAndStake::QuoteFunds(t, None), Reply::Wei(Ok(_))) => print(
                quote_only(&t, Json::Null),
            ),
            (BuyAndStake::QuoteFunds(t, Some(q)), Reply::Wei(Ok(n))) => with_price(t, q, n),
            (BuyAndStake::QuoteFunds(_, _), Reply::Wei(Err(f))) => fail(f),
            (BuyAndStake::QuoteShown(t, sufficient), Reply::Shown(v)) => {
                if v.len() != 5 {
                    return fail(stray());
                }
                let price = swap(t.plan.slip_bps, &v, sufficient);
                print(quote_only(&t, price))
            },
            (BuyAndStake::Buy(t, b), x) => {
                let ghost (b0, x0) = (b, x);
                let y = b.step(x);
                let ghost y0 = y;
                let r = go_buy(t, y);
                assert(buying_next(b0, x0, y0) && bought_next(t, y0, r));
                r
            },
            (BuyAndStake::After(t), Reply::Bytes(Ok(raw))) => match read_uint(&raw) {
                Err(e) => fail(Fault::new(e)),
                Ok(n) => match n.to_u128() {
                    None => fail(Fault::of("amount out of range")),
                    Some(m) => {
                        let mut v: Vec<Amount> = Vec::new();
                        v.push(Amount { units: m, decimals: 18 });
                        assert(v@ =~= seq![awp_of(m)]);
                        Step::Act(BuyAndStake::AfterShown(t, m), Action::Show(v))
                    },
                },
            },
            (BuyAndStake::After(_), Reply::Bytes(Err(f))) => fail(f),
            (BuyAndStake::AfterShown(t, n), Reply::Shown(v)) => {
                if v.len() != 1 {
                    return fail(stray());
                }
                with_after(t, n, v[0].plain.as_str())
            },
            (BuyAndStake::Ready(t), Reply::Done(Ok(_))) => when_ready(t),
            (BuyAndStake::Ready(_), Reply::Done(Err(f))) => fail(f),
            (BuyAndStake::Days(t), Reply::Text(Ok(line))) => match read_days(line.as_str()) {
                Ok(d) => with_days(t, d),
                Err(f) => fail(f),
            },
            (BuyAndStake::Days(_), Reply::Text(Err(f))) => fail(f),
            (BuyAndStake::Told(t, days), Reply::Done(Ok(_))) => {
                let l = Lock {
                    agent: t.plan.agent,
                    amount: t.plan.min,
                    amount_d0: t.min.d0.clone(),
                    days,
                };
                let ghost l0 = l;
                let y = do_stake(l);
                let ghost y0 = y;
                let r = go_lock(t, days, y);
                assert(locks(l0, t, days) && locked_next(t, days, y0, r));
                r
            },
            (BuyAndStake::Told(_, _), Reply::Done(Err(f))) => fail(f),
            (BuyAndStake::Stake(t, days, l), x) => {
                let ghost (l0, x0) = (l, x);
                let y = l.step(x);
                let ghost y0 = y;
                let r = go_lock(t, days, y);
                assert(locking_next(l0, x0, y0) && locked_next(t, days, y0, r));
                r
            },
            _ => fail(stray()),
        }
    }
}

/// Whether an action hands a transaction to the wallet.
pub open spec fn sends(a: ActionV) -> bool {
    a is Transact || a is Submit || a is Send
}

/// Whether the command is at a stage that only reads.
pub open spec fn only_reads(s: BuyAndStake) -> bool {
    match s {
        BuyAndStake::Address(args) => args.quote_only,
        BuyAndStake::Threshold(args, _, _) => args.quote_only,
        BuyAndStake::Balance(args, _, _, _) => args.quote_only,
        BuyAndStake::Amounts(p) => p.args.quote_only,
        BuyAndStake::Quotes(_, _) => true,
        BuyAndStake::QuoteFunds(_, _) => true,
        BuyAndStake::QuoteShown(_, _) => true,
        _ => false,
    }
}

/// Where only the price is asked for, the command sends nothing: it never leaves the stages that only read.
pub proof fn law_quote_only_sends_nothing(s: BuyAndStake, reply: Reply, r: Step<BuyAndStake, Outcome>)
    requires
        command_next(s, reply, r),
        only_reads(s),
    ensures
        r matches Step::Act(n, a) ==> only_reads(n) && !sends(a@),
{
}

/// Whether no amount is asked for and it is not known yet that the agent is not eligible.
pub open spec fn may_be_eligible(s: BuyAndStake) -> bool {
    match s {
        BuyAndStake::Address(args) => fills_up(args),
        BuyAndStake::Threshold(args, _, _) => fills_up(args),
        BuyAndStake::Balance(args, _, _, _) => fills_up(args),
        BuyAndStake::Amounts(p) => fills_up(p.args),
        BuyAndStake::Eligible(_) => true,
        _ => false,
    }
}

/// An agent who is eligible already, and for whom no amount is asked for, sends nothing. From the start on the
/// command stays at stages that send nothing until the answer to whether the agent is eligible; only a no leads
/// further, and a yes ends the command with success.
pub proof fn law_eligible_agent_sends_nothing(s: BuyAndStake, reply: Reply, r: Step<BuyAndStake, Outcome>)
    requires
        command_next(s, reply, r),
        may_be_eligible(s),
    ensures
        !(s is Eligible && reply == Reply::Flag(Ok(false))) ==> (r matches Step::Act(n, a) ==> may_be_eligible(n)
            && !sends(a@)),
        r matches Step::Act(BuyAndStake::Eligible(t), a) ==> a@ == ActionV::Eligible(t.plan.agent_text@),
        s matches BuyAndStake::Eligible(t) ==> (reply == Reply::Flag(Ok(true)) ==> prints(r, eligible_v(t))),
{
}

/// After a lock the agent, the stake, the days and the worknet are told.
pub proof fn law_stake_is_told(t: Terms, days: u32)
    ensures
        member(staked_v(t, days).data, "agent"@) == Some(JsonV::Str(t.plan.agent_text@)),
        member(staked_v(t, days).data, "stake_awp"@) == Some(JsonV::Num(t.min.json@)),
        member(staked_v(t, days).data, "lock_days"@) == Some(num_v(days as int)),
        member(staked_v(t, days).data, "worknet_id"@) == Some(num_v(845_300_000_014)),
        staked_v(t, days).status == "ok"@,
{
    reveal_strlit("agent");
    reveal_strlit("stake_awp");
    reveal_strlit("lock_days");
    reveal_strlit("worknet_id");
    assert("agent"@.len() == 5);
    assert("stake_awp"@.len() == 9 && "stake_awp"@[0] == 's');
    assert("lock_days"@.len() == 9 && "lock_days"@[0] == 'l');
    assert("worknet_id"@.len() == 10);
}

/// A quote tells what the agent has, what it needs and what is missing, each under its own name.
pub proof fn law_quote_is_told(t: Terms, price: JsonV)
    ensures
        member(quoted_v(t, price).data, "agent_address"@) == Some(JsonV::Str(hex_0x(t.plan.agent@))),
        member(quoted_v(t, price).data, "current_awp"@) == Some(JsonV::Num(t.have.json@)),
        member(quoted_v(t, price).data, "threshold_awp"@) == Some(JsonV::Num(t.min.json@)),
        member(quoted_v(t, price).data, "needed_awp"@) == Some(JsonV::Num(t.need.json@)),
        member(quoted_v(t, price).data, "needs_swap"@) == Some(JsonV::Bool(t.plan.need > 0)),
        member(quoted_v(t, price).data, "swap"@) == Some(price),
{
    reveal_strlit("agent_address");
    reveal_strlit("current_awp");
    reveal_strlit("threshold_awp");
    reveal_strlit("needed_awp");
    reveal_strlit("needs_swap");
    reveal_strlit("swap");
    reveal_strlit("stake_options");
    reveal_strlit("next_step");
    assert("agent_address"@.len() == 13 && "agent_address"@[0] == 'a');
    assert("threshold_awp"@.len() == 13 && "threshold_awp"@[0] == 't');
    assert("stake_options"@.len() == 13 && "stake_options"@[0] == 's');
    assert("current_awp"@.len() == 11);
    assert("needed_awp"@.len() == 10 && "needed_awp"@[4] == 'e');
    assert("needs_swap"@.len() == 10 && "needs_swap"@[4] == 's');
    assert("swap"@.len() == 4);
    assert("next_step"@.len() == 9);
}

/// The price of a quote tells what is spent, what that takes with the gas, the least that each swap gives, and whether the
/// balance covers it.
pub proof fn law_price_is_told(bps: u32, v: Seq<Shown>, sufficient: bool)
    ensures
        member(swap_data(bps, v, sufficient), "spend_eth"@) == Some(JsonV::Num(v[0].json@)),
        member(swap_data(bps, v, sufficient), "total_burn_eth"@) == Some(JsonV::Num(v[1].json@)),
        member(swap_data(bps, v, sufficient), "slippage_bps"@) == Some(num_v(bps as int)),
        member(swap_data(bps, v, sufficient), "min_usdc_received"@) == Some(JsonV::Num(v[2].json@)),
        member(swap_data(bps, v, sufficient), "min_awp_received"@) == Some(JsonV::Num(v[3].json@)),
        member(swap_data(bps, v, sufficient), "wallet_eth_balance"@) == Some(JsonV::Num(v[4].json@)),
        member(swap_data(bps, v, sufficient), "eth_sufficient"@) == Some(JsonV::Bool(sufficient)),
{
    reveal_strlit("spend_eth");
    reveal_strlit("total_burn_eth");
    reveal_strlit("slippage_bps");
    reveal_strlit("min_usdc_received");
    reveal_strlit("min_awp_received");
    reveal_strlit("wallet_eth_balance");
    reveal_strlit("eth_sufficient");
    reveal_strlit("buffer_eth_for_gas");
    reveal_strlit("route");
    assert("spend_eth"@.len() == 9);
    assert("total_burn_eth"@.len() == 14 && "total_burn_eth"@[0] == 't');
    assert("eth_sufficient"@.len() == 14 && "eth_sufficient"@[0] == 'e');
    assert("slippage_bps"@.len() == 12);
    assert("min_usdc_received"@.len() == 17);
    assert("min_awp_received"@.len() == 16);
    assert("wallet_eth_balance"@.len() == 18 && "wallet_eth_balance"@[0] == 'w');
    assert("buffer_eth_for_gas"@.len() == 18 && "buffer_eth_for_gas"@[0] == 'b');
    assert("route"@.len() == 5);
}

/// The stake that is needed and the AWP of the agent are read from the contracts that hold them: the threshold of the
/// draw contract, and the agent's balance of AWP, before and after a purchase.
pub proof fn law_stake_reads_threshold_and_balance(s: BuyAndStake, reply: Reply, r: Step<BuyAndStake, Outcome>)
    requires
        command_next(s, reply, r),
    ensures
        r matches Step::Act(BuyAndStake::Threshold(_, _, _), a) ==> (a@ matches ActionV::View(to, data) && to
            == epoch_draw_bytes() && data == selector_of("minStake()"@)),
        r matches Step::Act(BuyAndStake::Balance(_, _, agent, min), a) ==> ({
            &&& s matches BuyAndStake::Threshold(_, _, who)
            &&& who == agent
            &&& reply matches Reply::Bytes(b)
            &&& b is Ok && b->Ok_0@.len() == 32 ==> min == be_number(b->Ok_0@)
            &&& (b is Err || b->Ok_0@.len() != 32) ==> min == 10_000_000_000_000_000_000_000
            &&& a@ matches ActionV::View(to, data)
            &&& to == awp_bytes()
            &&& data.take(4) == selector_of("balanceOf(address)"@)
            &&& address_result(arg_at(data, 0)) == Ok::<Seq<u8>, Seq<char>>(agent@)
        }),
        r matches Step::Act(BuyAndStake::After(t), a) ==> (s is Buy && (a@ matches ActionV::View(to, data) && to
            == awp_bytes() && data.take(4) == selector_of("balanceOf(address)"@) && address_result(arg_at(data, 0)) == Ok::<Seq<u8>, Seq<char>>(t.plan.agent@))),
{
    lemma_word_lengths();
    if let Step::Act(BuyAndStake::Threshold(_, _, _), _) = r {
        lemma_static_args("minStake()"@, Seq::empty());
        let d = static_call("minStake()"@, Seq::empty());
        assert(d =~= d.take(4));
    }
    if let Step::Act(BuyAndStake::Balance(_, _, agent, _), _) = r {
        let args = seq![address_word(agent@)];
        lemma_static_args("balanceOf(address)"@, args);
        assert(arg_at(static_call("balanceOf(address)"@, args), 0) == address_word(agent@));
    }
    if let Step::Act(BuyAndStake::After(t), _) = r {
        let args = seq![address_word(t.plan.agent@)];
        lemma_static_args("balanceOf(address)"@, args);
        assert(arg_at(static_call("balanceOf(address)"@, args), 0) == address_word(t.plan.agent@));
    }
}

/// What is to be bought is what was asked for, in whole AWP, or else just what the agent lacks; the slippage is the one
/// that was given, three percent where none was, and never above twenty.
pub proof fn law_plan_fills_the_gap(s: BuyAndStake, reply: Reply, r: Step<BuyAndStake, Outcome>)
    requires
        command_next(s, reply, r),
    ensures
        r matches Step::Act(BuyAndStake::Amounts(p), _) ==> ({
            &&& s matches BuyAndStake::Balance(args, t, agent, min)
            &&& reply matches Reply::Bytes(Ok(raw))
            &&& uint_result(raw@) matches Ok(have)
            &&& p.agent == agent && p.agent_text == t && p.args == args
            &&& p.min == min
            &&& p.have == have
            &&& args.buy_amount_awp matches Some(n) ==> p.need == n * 1_000_000_000_000_000_000
            &&& args.buy_amount_awp is None && have >= min ==> p.need == 0
            &&& args.buy_amount_awp is None && have < min ==> have + p.need == min
            &&& p.slip_bps <= 2_000
            &&& args.slippage_bps is None ==> p.slip_bps == 300
            &&& args.slippage_bps matches Some(b) ==> (b <= 2_000 ==> p.slip_bps == b)
        }),
{
}

/// The AWP is bought exactly where some is to be bought, for the agent and in that amount; afterwards it is only locked
/// where it reaches the stake that is needed, and then that stake is locked, for one to 1460 days.
pub proof fn law_purchase_then_lock(s: BuyAndStake, reply: Reply, r: Step<BuyAndStake, Outcome>)
    requires
        command_next(s, reply, r),
    ensures
        (r matches Step::Act(BuyAndStake::Buy(t, _), _) && !(s is Buy)) ==> ({
            &&& r matches Step::Act(BuyAndStake::Buy(t, Buying::Target(b)), _)
            &&& t.plan.need > 0 && !t.plan.args.quote_only
            &&& b.agent == t.plan.agent
            &&& b.need == t.plan.need
            &&& b.slip_bps == t.plan.slip_bps
            &&& b.skip_prompt <==> t.plan.args.yes
        }),
        r matches Step::Act(BuyAndStake::Ready(t), _) ==> (s matches BuyAndStake::AfterShown(u, have) && u == t && (have
            >= t.plan.min || t.plan.args.no_stake)) || (!(s is AfterShown) && t.plan.need == 0),
        r matches Step::Act(BuyAndStake::AfterShown(_, have), _) ==> (s is After && (reply matches Reply::Bytes(Ok(raw))
            && uint_result(raw@) == Ok::<nat, Seq<char>>(have as nat))),
        r matches Step::Act(BuyAndStake::Told(t, days), _) ==> 1 <= days <= 1_460 && (s == BuyAndStake::Days(t) || (s
            == BuyAndStake::Ready(t) && !t.plan.args.no_stake)),
        r matches Step::Act(BuyAndStake::Days(t), _) ==> s == BuyAndStake::Ready(t) && !t.plan.args.no_stake,
        (r matches Step::Act(BuyAndStake::Stake(_, _, _), _) && s is Told) ==> ({
            &&& r matches Step::Act(BuyAndStake::Stake(t, days, Locking::Allowance(l)), a)
            &&& s == BuyAndStake::Told(t, days)
            &&& l.agent == t.plan.agent
            &&& l.amount == t.plan.min
            &&& l.days == days
            &&& a@ matches ActionV::View(to, data)
            &&& to == awp_bytes()
            &&& data.take(4) == selector_of("allowance(address,address)"@)
            &&& address_result(arg_at(data, 0)) == Ok::<Seq<u8>, Seq<char>>(t.plan.agent@)
            &&& address_result(arg_at(data, 1)) == Ok::<Seq<u8>, Seq<char>>(ve_awp_bytes())
        }),
{
    lemma_word_lengths();
    if let (Step::Act(BuyAndStake::Stake(t, _, _), _), BuyAndStake::Told(_, _)) = (r, s) {
        let args = seq![address_word(t.plan.agent@), address_word(ve_awp_bytes())];
        lemma_static_args("allowance(address,address)"@, args);
        assert(arg_at(static_call("allowance(address,address)"@, args), 0) == address_word(t.plan.agent@));
        assert(arg_at(static_call("allowance(address,address)"@, args), 1) == address_word(ve_awp_bytes()));
    }
}

/// A quote shows the ETH that is spent, the ETH with the gas, and what the swaps give at the least; the balance
/// suffices exactly where it covers the ETH with the gas.
pub proof fn law_quote_shows_the_price(t: Terms, q: Quote, wei: u128, r: Step<BuyAndStake, Outcome>)
    requires
        priced_next(t, q, wei, r),
        t.plan.slip_bps <= 10_000,
    ensures
        r matches Step::Act(n, a) ==> ({
            &&& n matches BuyAndStake::QuoteShown(u, sufficient)
            &&& u == t
            &&& sufficient <==> wei >= q.eth_needed@ + 1_500_000_000_000_000
            &&& a@ matches ActionV::Show(v)
            &&& v.len() == 5
            &&& v[0].units == q.eth_needed@ && v[0].decimals == 18
            &&& v[1].units == q.eth_needed@ + 1_500_000_000_000_000 && v[1].decimals == 18
            &&& v[2].decimals == 6
            &&& q.usdc_needed@ * 10_000 < word_base() ==> v[2].units * 10_000 <= q.usdc_needed@ * (10_000
                - t.plan.slip_bps) < (v[2].units + 1) * 10_000
            &&& v[3].units * 10_000 <= t.plan.need * (10_000 - t.plan.slip_bps) < (v[3].units + 1) * 10_000
            &&& v[3].decimals == 18
            &&& v[4].units == wei && v[4].decimals == 18
        }),
{
    assert(t.plan.need * 10_000 < word_base());
    law_slippage_bounds(t.plan.need as nat, t.plan.slip_bps);
    if q.usdc_needed@ * 10_000 < word_base() {
        law_slippage_bounds(q.usdc_needed@, t.plan.slip_bps);
    }
}

/// The days of a lock are those that are given, three where nobody is asked, and those of the answer where somebody is.
pub proof fn law_days_are_as_given(t: Terms, r: Step<BuyAndStake, Outcome>)
    requires
        ready_next(t, r),
        !t.plan.args.no_stake,
    ensures
        t.plan.args.lock_days matches Some(d) ==> (1 <= d <= 1_460 ==> (r matches Step::Act(BuyAndStake::Told(u, e), _) && u == t
            && e == d)),
        t.plan.args.lock_days is None && t.plan.args.yes ==> (r matches Step::Act(BuyAndStake::Told(u, e), _) && u == t && e
            == 3),
        t.plan.args.lock_days is None && !t.plan.args.yes ==> (r matches Step::Act(BuyAndStake::Days(u), a) && u == t && a@
            is Ask),
        t.plan.args.lock_days matches Some(d) ==> (d == 0 || d > 1_460 ==> r is End),
{
}

/// The agent is the one whose address was found, and the amounts that are shown, and kept as shown, are the stake that is
/// needed, the AWP that the agent has and the AWP to be bought.
pub proof fn law_amounts_keep_their_places(s: BuyAndStake, reply: Reply, r: Step<BuyAndStake, Outcome>)
    requires
        command_next(s, reply, r),
    ensures
        r matches Step::Act(BuyAndStake::Threshold(args, t, agent), _) ==> s == BuyAndStake::Address(args) && reply
            == Reply::Text(Ok::<String, Fault>(t)) && Some(agent@) == parsed_address(t@),
        r matches Step::Act(BuyAndStake::Amounts(p), a) ==> (a@ matches ActionV::Show(v) && v.len() == 3 && v[0].units
            == p.min && v[1].units == p.have && v[2].units == p.need && v[0].decimals == 18 && v[1].decimals == 18
            && v[2].decimals == 18),
        s matches BuyAndStake::Amounts(p) ==> (reply matches Reply::Shown(v) ==> (v@.len() == 3 ==> ({
            let t = Terms { plan: p, min: v@[0], have: v@[1], need: v@[2] };
            &&& r matches Step::Act(BuyAndStake::Eligible(u), _) ==> u == t
            &&& r matches Step::Act(BuyAndStake::Buy(u, _), _) ==> u == t
            &&& r matches Step::Act(BuyAndStake::Ready(u), _) ==> u == t
            &&& r matches Step::Act(BuyAndStake::Quotes(u, _), _) ==> u == t
            &&& r matches Step::Act(BuyAndStake::QuoteFunds(u, _), _) ==> u == t
            &&& r is Act
        }))),
        r matches Step::Act(BuyAndStake::QuoteFunds(t, _), a) ==> a@ == ActionV::EthBalance(t.plan.agent@),
        r matches Step::Act(BuyAndStake::AfterShown(_, have), a) ==> (a@ matches ActionV::Show(v) && v.len() == 1
            && v[0].units == have && v[0].decimals == 18),
        s matches BuyAndStake::Eligible(t) ==> (reply == Reply::Flag(Ok::<bool, Fault>(false)) ==> ({
            &&& t.plan.need > 0 && !t.plan.args.quote_only ==> (r matches Step::Act(BuyAndStake::Buy(u, _), _) && u == t)
            &&& t.plan.need == 0 && !t.plan.args.quote_only ==> (r matches Step::Act(BuyAndStake::Ready(u), _) && u == t)
        })),
        s matches BuyAndStake::Ready(t) ==> (reply matches Reply::Done(Ok(_)) ==> (t.plan.args.no_stake ==> (
        r matches Step::End(Outcome::Print(o)) && o@ == unlocked_v(t)))),
{
}

/// After the purchase the balance must reach the target, unless nothing is to be staked.
pub proof fn law_purchase_must_reach_the_target(t: Terms, have: u128, shown: Seq<char>, r: Step<BuyAndStake, Outcome>)
    requires
        after_next(t, have, shown, r),
    ensures
        r is Act <==> have >= t.plan.min || t.plan.args.no_stake,
        r is End ==> (r matches Step::End(Outcome::Fail(f)) && f@.len() > 0 && has_prefix(
            f@[0],
            "post-swap AWP balance "@ + shown + " < required "@ + t.min.plain@,
        )),
        r matches Step::Act(x, a) ==> x == BuyAndStake::Ready(t) && a@ == ActionV::Say(
            seq!["✓ AWP balance now "@ + shown + " (target "@ + t.min.plain@ + ")"@],
        ),
{
    let head = "post-swap AWP balance "@ + shown + " < required "@ + t.min.plain@;
    let tail = " — swap reverted or partial. Re-run buy-and-stake to retry only the missing piece."@;
    assert((head + tail).take(head.len() as int) =~= head);
}

} // verus!
