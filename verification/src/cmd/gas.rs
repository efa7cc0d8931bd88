//! gas: the balance that pays for transactions, and when to top it up.
use vstd::prelude::*;

use crate::address::{address_error_text, parsed_address, Address};
use crate::fault::{fault_v, Fault};
use crate::flow::{
    fail, fails, print, prints, stray, stray_v, Action, ActionV, Amount, Outcome, Reply, Shown, Step,
};
use crate::json::{empty_object, member, with_member, Json, JsonV};
use crate::num::{dec_text, dec_u128};
use crate::output::{error_v, next_v, success_v, Internal, InternalV, Output, OutputV};
use crate::text::{cat2, cat3, cat4, cat5, has_prefix, join, joined, texts};

verus! {

/// Below this balance new commits are refused: 0.003 ETH.
pub const MIN_WEI: u128 = 3_000_000_000_000_000;

/// Below this balance the agent warns: 0.01 ETH.
pub const REFILL_THRESHOLD_WEI: u128 = 10_000_000_000_000_000;

/// The balance of the agent.
pub struct GasCheck {
    /// The balance in wei.
    pub balance_wei: u128,
    /// The balance in ETH.
    pub balance: Shown,
    /// Whether it is at least the floor.
    pub sufficient: bool,
    /// Whether it is below the refill threshold.
    pub needs_refill_soon: bool,
}

/// Whether `g` judges a balance of `wei` rightly.
pub open spec fn judged(g: GasCheck, wei: u128) -> bool {
    &&& g.balance_wei == wei
    &&& g.sufficient == (wei >= 3_000_000_000_000_000)
    &&& g.needs_refill_soon == (wei < 10_000_000_000_000_000)
}

/// Checking a balance.
pub enum GasChecking {
    /// The balance is read.
    Wei,
    /// The balance is written in ETH.
    Eth(u128),
}

/// What comes next when a balance is checked.
pub open spec fn checking_next(s: GasChecking, reply: Reply, r: Step<GasChecking, Result<GasCheck, Fault>>) -> bool {
    match (s, reply) {
        (GasChecking::Wei, Reply::Wei(Ok(n))) => {
            &&& r matches Step::Act(GasChecking::Eth(m), a)
            &&& m == n
            &&& a@ == ActionV::Show(seq![Amount { units: n, decimals: 18 }])
        },
        (GasChecking::Wei, Reply::Wei(Err(f))) => r matches Step::End(Err(g)) && g == f,
        (GasChecking::Eth(n), Reply::Shown(v)) => if v@.len() > 0 {
            r matches Step::End(Ok(g)) && judged(g, n) && g.balance == v@.last()
        } else {
            r matches Step::End(Err(g)) && g@ == stray_v()
        },
        _ => r matches Step::End(Err(g)) && g@ == stray_v(),
    }
}

/// The error of an address that is none.
pub open spec fn bad_address(address: Seq<char>) -> Seq<Seq<char>> {
    fault_v("invalid address "@ + address + ": "@ + address_error_text(address))
}

/// Starts to check the balance of an address.
pub fn check_balance(address: &str) -> (r: Step<GasChecking, Result<GasCheck, Fault>>)
    ensures
        match parsed_address(address@) {
            Some(a) => r matches Step::Act(GasChecking::Wei, act) && act@ == ActionV::EthBalance(a),
            None => r matches Step::End(Err(f)) && f@ == bad_address(address@),
        },
{
    match Address::parse(address) {
        Ok(a) => Step::Act(GasChecking::Wei, Action::EthBalance(a)),
        Err(e) => Step::End(
            Err(Fault::new(cat4("invalid address ", address, ": ", e.as_str()))),
        ),
    }
}

impl GasChecking {
    /// Goes on with the reply.
    pub fn step(self, reply: Reply) -> (r: Step<GasChecking, Result<GasCheck, Fault>>)
        ensures
            checking_next(self, reply, r),
    {
        match (self, reply) {
            (GasChecking::Wei, Reply::Wei(Ok(n))) => {
                let mut v: Vec<Amount> = Vec::new();
                v.push(Amount { units: n, decimals: 18 });
                assert(v@ =~= seq![Amount { units: n, decimals: 18 }]);
                Step::Act(GasChecking::Eth(n), Action::Show(v))
            },
            (GasChecking::Wei, Reply::Wei(Err(f))) => Step::End(Err(f)),
            (GasChecking::Eth(n), Reply::Shown(v)) => {
                let mut v = v;
                match v.pop() {
                    Some(balance) => Step::End(
                        Ok(
                            GasCheck {
                                balance_wei: n,
                                balance,
                                sufficient: n >= MIN_WEI,
                                needs_refill_soon: n < REFILL_THRESHOLD_WEI,
                            },
                        ),
                    ),
                    None => Step::End(Err(stray())),
                }
            },
            _ => Step::End(Err(stray())),
        }
    }
}

/// The data of a warning.
pub open spec fn warning_data(level: Seq<char>, g: GasCheck, address: Seq<char>) -> JsonV {
    let o = with_member(empty_object(), "level"@, JsonV::Str(level));
    let o = with_member(o, "balance_eth"@, JsonV::Num(g.balance.json@));
    let o = with_member(o, "floor_eth"@, JsonV::Num("0.003"@));
    let o = with_member(o, "refill_threshold_eth"@, JsonV::Num("0.01"@));
    let o = with_member(o, "recommended_eth"@, JsonV::Num("0.05"@));
    let o = with_member(o, "fund_address"@, JsonV::Str(address));
    with_member(o, "fund_chain"@, JsonV::Str("Base mainnet (chain id 8453)"@))
}

/// The warning that a balance calls for, if it does.
pub open spec fn warning_v(address: Seq<char>, g: GasCheck) -> Option<(JsonV, Seq<char>)> {
    if !g.needs_refill_soon && g.sufficient {
        None
    } else if !g.sufficient {
        Some(
            (
                warning_data("critical"@, g, address),
                "⚠ CRITICAL: wallet has only "@ + g.balance.d6@
                    + " ETH (below 0.003000 floor) — new commits will be refused. Send 0.0500 ETH on Base mainnet to "@
                    + address + "."@,
            ),
        )
    } else {
        Some(
            (
                warning_data("warning"@, g, address),
                "⚠ Low balance: "@ + g.balance.d6@
                    + " ETH left (refill threshold 0.010000) — top up 0.0500 ETH on Base mainnet to "@
                    + address + " soon."@,
            ),
        )
    }
}

/// The warning that a balance calls for, if it does.
pub fn low_balance_warning(address: &str, g: &GasCheck) -> (r: Option<(Json, String)>)
    ensures
        match r {
            Some(w) => warning_v(address@, *g) == Some((w.0@, w.1@)),
            None => warning_v(address@, *g) is None,
        },
{
    if !g.needs_refill_soon && g.sufficient {
        return None;
    }
    let level = if !g.sufficient {
        "critical"
    } else {
        "warning"
    };
    let msg = if !g.sufficient {
        cat5(
            "⚠ CRITICAL: wallet has only ",
            g.balance.d6.as_str(),
            " ETH (below 0.003000 floor) — new commits will be refused. Send 0.0500 ETH on Base mainnet to ",
            address,
            ".",
        )
    } else {
        cat5(
            "⚠ Low balance: ",
            g.balance.d6.as_str(),
            " ETH left (refill threshold 0.010000) — top up 0.0500 ETH on Base mainnet to ",
            address,
            " soon.",
        )
    };
    let o = Json::object().with("level", Json::text(level)).with(
        "balance_eth",
        Json::Num(g.balance.json.clone()),
    ).with("floor_eth", Json::Num("0.003".to_owned())).with(
        "refill_threshold_eth",
        Json::Num("0.01".to_owned()),
    ).with("recommended_eth", Json::Num("0.05".to_owned())).with(
        "fund_address",
        Json::text(address),
    ).with("fund_chain", Json::text("Base mainnet (chain id 8453)"));
    Some((o, msg))
}

/// A message with the warning that the balance calls for. A balance that could not be read calls for none.
pub open spec fn warned_message(message: Seq<char>, address: Seq<char>, gas: Result<GasCheck, Fault>) -> Seq<char> {
    match gas {
        Ok(g) => match warning_v(address, g) {
            Some(w) => message + "\n\n"@ + w.1,
            None => message,
        },
        Err(_) => message,
    }
}

/// Data with the warning that the balance calls for.
pub open spec fn warned_data(data: JsonV, address: Seq<char>, gas: Result<GasCheck, Fault>) -> JsonV {
    match gas {
        Ok(g) => match warning_v(address, g) {
            Some(w) => with_member(data, "balance_warning"@, w.0),
            None => data,
        },
        Err(_) => data,
    }
}

/// A message and data with the warning that the balance calls for.
pub fn warn(message: String, data: Json, address: &str, gas: &Result<GasCheck, Fault>) -> (r: (String, Json))
    ensures
        r.0@ == warned_message(message@, address@, *gas),
        r.1@ == warned_data(data@, address@, *gas),
{
    match gas {
        Ok(g) => match low_balance_warning(address, g) {
            Some(w) => {
                let m = cat3(message.as_str(), "\n\n", w.1.as_str());
                (m, data.with("balance_warning", w.0))
            },
            None => (message, data),
        },
        Err(_) => (message, data),
    }
}

/// The gas command.
pub enum GasRun {
    /// The agent's address is looked for.
    Address,
    /// The balance is checked.
    Balance(String),
}

/// What the gas command says of a balance.
pub open spec fn gas_lines(address: Seq<char>, d6: Seq<char>) -> Seq<char> {
    joined(
        seq![
            "Wallet:        "@ + address,
            "Base ETH:      "@ + d6 + " ETH"@,
            "Floor:         0.003000 ETH (commits refused below)"@,
            "Refill at:     0.010000 ETH"@,
            "Recommended:   0.0500 ETH initial fund"@,
            ""@,
            "Per-epoch worst case: ~0.0017 ETH (full 5 commits + 5 reveals + 5 mints @ 1 gwei)"@,
            "Per-epoch typical:    ~0.0003 ETH (1-2 commits, occasional mint)"@,
            "0.05 ETH typically lasts 5-10 days at 6min × 15 riddles/epoch."@,
        ],
        "\n"@,
    )
}

/// What to do about a balance.
pub open spec fn gas_next(address: Seq<char>, g: GasCheck) -> InternalV {
    if !g.sufficient {
        next_v("fund_gas"@, Some("Send 0.0500 ETH on Base mainnet to "@ + address))
    } else if g.needs_refill_soon {
        next_v(
            "warn_refill_soon"@,
            Some("Top up to ~0.0500 ETH soon. Send to "@ + address + " on Base mainnet."@),
        )
    } else {
        next_v("ok"@, Some("ardi-agent preflight"@))
    }
}

/// What the gas command prints.
pub open spec fn gas_output(address: Seq<char>, g: GasCheck) -> OutputV {
    if g.sufficient {
        let o = with_member(empty_object(), "address"@, JsonV::Str(address));
        let o = with_member(o, "balance_eth"@, JsonV::Num(g.balance.json@));
        let o = with_member(o, "balance_wei"@, JsonV::Str(dec_text(g.balance_wei as nat)));
        let o = with_member(o, "needs_refill_soon"@, JsonV::Bool(g.needs_refill_soon));
        success_v(gas_lines(address, g.balance.d6@), o, gas_next(address, g))
    } else {
        error_v(
            gas_lines(address, g.balance.d6@),
            "INSUFFICIENT_GAS"@,
            "balance"@,
            true,
            "Send at least 0.0500 ETH to "@ + address
                + " on Base mainnet, then re-run `ardi-agent gas`."@,
            gas_next(address, g),
        )
    }
}

/// What comes next in the gas command.
pub open spec fn gas_run_next(s: GasRun, reply: Reply, r: Step<GasRun, Outcome>) -> bool {
    match (s, reply) {
        (GasRun::Address, Reply::Text(Ok(a))) => {
            &&& r matches Step::Act(GasRun::Balance(b), act)
            &&& b == a
            &&& act@ == ActionV::Balance(a@)
        },
        (GasRun::Balance(a), Reply::Gas(Ok(g))) => prints(r, gas_output(a@, g)),
        (GasRun::Address, Reply::Text(Err(f))) => fails(r, f@),
        (GasRun::Balance(_), Reply::Gas(Err(f))) => fails(r, f@),
        _ => fails(r, stray_v()),
    }
}

/// Starts the gas command.
pub fn run() -> (r: Step<GasRun, Outcome>)
    ensures
        r matches Step::Act(GasRun::Address, a) && a@ == ActionV::Address,
{
    Step::Act(GasRun::Address, Action::Address)
}

/// The document that the gas command prints.
pub fn report(address: &str, g: &GasCheck) -> (r: Output)
    ensures
        r@ == gas_output(address@, *g),
{
    let mut lines: Vec<String> = Vec::new();
    lines.push(cat2("Wallet:        ", address));
    lines.push(cat3("Base ETH:      ", g.balance.d6.as_str(), " ETH"));
    lines.push("Floor:         0.003000 ETH (commits refused below)".to_owned());
    lines.push("Refill at:     0.010000 ETH".to_owned());
    lines.push("Recommended:   0.0500 ETH initial fund".to_owned());
    lines.push("".to_owned());
    lines.push(
        "Per-epoch worst case: ~0.0017 ETH (full 5 commits + 5 reveals + 5 mints @ 1 gwei)".to_owned(),
    );
    lines.push("Per-epoch typical:    ~0.0003 ETH (1-2 commits, occasional mint)".to_owned());
    lines.push("0.05 ETH typically lasts 5-10 days at 6min × 15 riddles/epoch.".to_owned());
    assert(texts(lines@) =~= seq![
        "Wallet:        "@ + address@,
        "Base ETH:      "@ + g.balance.d6@ + " ETH"@,
        "Floor:         0.003000 ETH (commits refused below)"@,
        "Refill at:     0.010000 ETH"@,
        "Recommended:   0.0500 ETH initial fund"@,
        ""@,
        "Per-epoch worst case: ~0.0017 ETH (full 5 commits + 5 reveals + 5 mints @ 1 gwei)"@,
        "Per-epoch typical:    ~0.0003 ETH (1-2 commits, occasional mint)"@,
        "0.05 ETH typically lasts 5-10 days at 6min × 15 riddles/epoch."@,
    ]);
    let message = join(&lines, "\n");
    let next = if !g.sufficient {
        let c = cat2("Send 0.0500 ETH on Base mainnet to ", address);
        Internal::run("fund_gas", c.as_str())
    } else if g.needs_refill_soon {
        let c = cat3("Top up to ~0.0500 ETH soon. Send to ", address, " on Base mainnet.");
        Internal::run("warn_refill_soon", c.as_str())
    } else {
        Internal::run("ok", "ardi-agent preflight")
    };
    if g.sufficient {
        let o = Json::object().with("address", Json::text(address)).with(
            "balance_eth",
            Json::Num(g.balance.json.clone()),
        ).with("balance_wei", Json::Str(dec_u128(g.balance_wei))).with(
            "needs_refill_soon",
            Json::Bool(g.needs_refill_soon),
        );
        Output::success(message, o, next)
    } else {
        let s = cat3(
            "Send at least 0.0500 ETH to ",
            address,
            " on Base mainnet, then re-run `ardi-agent gas`.",
        );
        Output::error(message, "INSUFFICIENT_GAS", "balance", true, s.as_str(), next)
    }
}

impl GasRun {
    /// Goes on with the reply.
    pub fn step(self, reply: Reply) -> (r: Step<GasRun, Outcome>)
        ensures
            gas_run_next(self, reply, r),
    {
        match (self, reply) {
            (GasRun::Address, Reply::Text(Ok(a))) => {
                let act = Action::Balance(a.clone());
                Step::Act(GasRun::Balance(a), act)
            },
            (GasRun::Balance(a), Reply::Gas(Ok(g))) => print(report(a.as_str(), &g)),
            (GasRun::Address, Reply::Text(Err(f))) => fail(f),
            (GasRun::Balance(_), Reply::Gas(Err(f))) => fail(f),
            _ => fail(stray()),
        }
    }
}

/// A balance that passes the refill threshold calls for no warning; one below the floor calls for the
/// critical one.
pub proof fn law_warning_levels(address: Seq<char>, g: GasCheck, wei: u128)
    requires
        judged(g, wei),
    ensures
        warning_v(address, g) is None <==> wei >= REFILL_THRESHOLD_WEI,
        wei < MIN_WEI ==> (warning_v(address, g)->0).0 == warning_data("critical"@, g, address),
        MIN_WEI <= wei < REFILL_THRESHOLD_WEI ==> (warning_v(address, g)->0).0 == warning_data(
            "warning"@,
            g,
            address,
        ),
{
}

/// The balance is told in ETH and in wei where it suffices; else the code says that it does not.
pub proof fn law_balance_is_told(address: Seq<char>, g: GasCheck)
    requires
        g.sufficient,
    ensures
        member(gas_output(address, g).data, "address"@) == Some(JsonV::Str(address)),
        member(gas_output(address, g).data, "balance_eth"@) == Some(JsonV::Num(g.balance.json@)),
        member(gas_output(address, g).data, "balance_wei"@) == Some(JsonV::Str(dec_text(g.balance_wei as nat))),
        member(gas_output(address, g).data, "needs_refill_soon"@) == Some(JsonV::Bool(g.needs_refill_soon)),
{
    reveal_strlit("address");
    reveal_strlit("balance_eth");
    reveal_strlit("balance_wei");
    reveal_strlit("needs_refill_soon");
    assert("address"@.len() == 7);
    assert("balance_eth"@.len() == 11 && "balance_eth"@[8] == 'e');
    assert("balance_wei"@.len() == 11 && "balance_wei"@[8] == 'w');
    assert("needs_refill_soon"@.len() == 17);
}

/// A warning tells its level, the balance and where to send more.
pub proof fn law_warning_members(level: Seq<char>, g: GasCheck, address: Seq<char>)
    ensures
        member(warning_data(level, g, address), "level"@) == Some(JsonV::Str(level)),
        member(warning_data(level, g, address), "balance_eth"@) == Some(JsonV::Num(g.balance.json@)),
        member(warning_data(level, g, address), "fund_address"@) == Some(JsonV::Str(address)),
{
    reveal_strlit("level");
    reveal_strlit("balance_eth");
    reveal_strlit("fund_address");
    reveal_strlit("floor_eth");
    reveal_strlit("refill_threshold_eth");
    reveal_strlit("recommended_eth");
    reveal_strlit("fund_chain");
    assert("level"@.len() == 5);
    assert("balance_eth"@.len() == 11);
    assert("fund_address"@.len() == 12);
    assert("floor_eth"@.len() == 9);
    assert("refill_threshold_eth"@.len() == 20);
    assert("recommended_eth"@.len() == 15);
    assert("fund_chain"@.len() == 10);
}

/// A balance suffices from 0.003 ETH on, and is to be refilled below 0.01 ETH; what is judged is the balance that was
/// read.
pub proof fn law_balance_is_judged(s: GasChecking, reply: Reply, g: GasCheck)
    requires
        checking_next(s, reply, Step::End(Ok(g))),
    ensures
        s matches GasChecking::Eth(wei) && g.balance_wei == wei && (g.sufficient <==> wei >= 3_000_000_000_000_000) && (
        g.needs_refill_soon <==> wei < 10_000_000_000_000_000),
{
}

/// A low balance is told beside whatever else is told: with a message of its own and as data; a balance that is high enough
/// or not known changes nothing.
pub proof fn law_low_balance_is_added(message: Seq<char>, data: Map<Seq<char>, JsonV>, address: Seq<char>, g: GasCheck, f: Fault)
    ensures
        warning_v(address, g) matches Some(w) ==> member(warned_data(JsonV::Obj(data), address, Ok(g)), "balance_warning"@)
            == Some(w.0) && warned_message(message, address, Ok(g)) == message + "\n\n"@ + w.1,
        warning_v(address, g) is None ==> warned_data(JsonV::Obj(data), address, Ok(g)) == JsonV::Obj(data)
            && warned_message(message, address, Ok(g)) == message,
        warned_data(JsonV::Obj(data), address, Err(f)) == JsonV::Obj(data),
        warned_message(message, address, Err(f)) == message,
{
}

/// The report of the gas command names the wallet first and its balance second.
pub proof fn law_gas_report_names_wallet_and_balance(address: Seq<char>, g: GasCheck)
    ensures
        has_prefix(
            gas_output(address, g).message,
            "Wallet:        "@ + address + "\n"@ + "Base ETH:      "@ + g.balance.d6@ + " ETH"@,
        ),
{
    let parts = seq![
        "Wallet:        "@ + address,
        "Base ETH:      "@ + g.balance.d6@ + " ETH"@,
        "Floor:         0.003000 ETH (commits refused below)"@,
        "Refill at:     0.010000 ETH"@,
        "Recommended:   0.0500 ETH initial fund"@,
        ""@,
        "Per-epoch worst case: ~0.0017 ETH (full 5 commits + 5 reveals + 5 mints @ 1 gwei)"@,
        "Per-epoch typical:    ~0.0003 ETH (1-2 commits, occasional mint)"@,
        "0.05 ETH typically lasts 5-10 days at 6min × 15 riddles/epoch."@,
    ];
    let head = "Wallet:        "@ + address + "\n"@ + "Base ETH:      "@ + g.balance.d6@ + " ETH"@;
    assert(gas_lines(address, g.balance.d6@) == joined(parts, "\n"@));
    lemma_joined_begins(parts, "\n"@, 2);
    reveal_with_fuel(joined, 3);
    assert(parts.take(2).drop_last() =~= seq![parts[0]]);
    assert(joined(parts.take(2), "\n"@) =~= head);
}

/// A joined list begins with the join of its first parts.
proof fn lemma_joined_begins(parts: Seq<Seq<char>>, sep: Seq<char>, n: int)
    requires
        0 < n <= parts.len(),
    ensures
        has_prefix(joined(parts, sep), joined(parts.take(n), sep)),
    decreases parts.len(),
{
    if n == parts.len() {
        assert(parts.take(n) =~= parts);
        let j = joined(parts, sep);
        assert(j.take(j.len() as int) =~= j);
    } else {
        lemma_joined_begins(parts.drop_last(), sep, n);
        assert(parts.drop_last().take(n) =~= parts.take(n));
        let k = joined(parts.take(n), sep);
        let d = joined(parts.drop_last(), sep);
        assert(joined(parts, sep).take(k.len() as int) =~= d.take(k.len() as int));
    }
}

/// A warning is added behind a message and changes nothing of it.
pub proof fn law_warning_stands_behind_the_message(message: Seq<char>, address: Seq<char>, gas: Result<GasCheck, Fault>)
    ensures
        has_prefix(warned_message(message, address, gas), message),
        gas is Err ==> warned_message(message, address, gas) == message,
{
    assert(warned_message(message, address, gas).take(message.len() as int) =~= message);
}

} // verus!
