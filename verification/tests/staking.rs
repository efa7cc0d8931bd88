use ardi_agent::address::Address;
use ardi_agent::awp_rpc;
use ardi_agent::chain;
use ardi_agent::cmd;
use ardi_agent::cmd::buy_and_stake::BuyAndStakeArgs;
use ardi_agent::cmd::quote;
use ardi_agent::fault::Fault;
use ardi_agent::flow::{Action, Amount, Outcome, Reply, Shown, Step, TxFault, TxRequest};
use ardi_agent::json::Json;
use ardi_agent::known;
use ardi_agent::output::Output;
use ardi_agent::u256::U256;
use serde_json::Value;

const AGENT: &str = "0x46a1eee3d800799726faaf18f28360eb2e97ad63";
const OTHER: &str = "0x800d05fd8e251c288e22809b79d31f22ab088555";
const ARDI: u64 = 845300000014;
const KYA: u64 = 845300000012;
const ONE: u128 = 1_000_000_000_000_000_000;

/// The chain and the staking network, as a command sees them.
struct World {
    min_stake: Option<u128>,
    balances: Vec<u128>,
    dollars: Vec<u128>,
    allowance: u128,
    probe_awp: u128,
    probe_usdc: u128,
    wei: u128,
    stakes: Vec<(String, u64, u128)>,
    rows: Vec<(u64, String)>,
    totals: Vec<(u64, String)>,
    lines: Vec<String>,
    answers: Vec<String>,
    asked: Vec<String>,
    sent: Vec<TxRequest>,
    refuse_at: usize,
    revert_at: usize,
    checked: usize,
    env: Vec<(String, String)>,
}

fn world() -> World {
    World {
        min_stake: Some(10_000 * ONE),
        balances: vec![10_000 * ONE],
        dollars: vec![0],
        allowance: 0,
        probe_awp: 20_000 * ONE,
        probe_usdc: 4_000_000,
        wei: ONE,
        stakes: Vec::new(),
        rows: Vec::new(),
        totals: Vec::new(),
        lines: Vec::new(),
        answers: Vec::new(),
        asked: Vec::new(),
        sent: Vec::new(),
        refuse_at: 100,
        revert_at: 100,
        checked: 0,
        env: Vec::new(),
    }
}

fn show(a: &Amount) -> Shown {
    let x = (a.units as f64) / 10f64.powi(i32::from(a.decimals));
    Shown {
        plain: format!("{x}"),
        json: serde_json::to_string(&x).unwrap(),
        d0: format!("{x:.0}"),
        d2: format!("{x:.2}"),
        d4: format!("{x:.4}"),
        d6: format!("{x:.6}"),
    }
}

fn word(n: u128) -> Vec<u8> {
    let mut v = vec![0u8; 16];
    v.extend(n.to_be_bytes());
    v
}

fn quote_reply(n: u128) -> Vec<u8> {
    let mut v = word(n);
    v.extend(vec![0u8; 96]);
    v
}

fn starts(data: &[u8], sig: &str) -> bool {
    data[..4] == chain::call0(sig)[..]
}

fn view(w: &mut World, to: &Address, data: &[u8]) -> Result<Vec<u8>, Fault> {
    if starts(data, "minStake()") {
        return w.min_stake.map(word).ok_or(Fault::of("no threshold"));
    }
    if starts(data, "balanceOf(address)") {
        if to.same(&known::awp()) {
            let n = if w.balances.len() > 1 { w.balances.remove(0) } else { w.balances[0] };
            return Ok(word(n));
        }
        assert!(to.same(&known::usdc()));
        let n = if w.dollars.len() > 1 { w.dollars.remove(0) } else { w.dollars[0] };
        return Ok(word(n));
    }
    if starts(data, "allowance(address,address)") {
        return Ok(word(w.allowance));
    }
    if starts(data, "tickSpacing()") {
        return Ok(word(200));
    }
    if to.same(&known::aero_cl_quoter()) {
        return Ok(quote_reply(w.probe_awp));
    }
    if to.same(&known::uni_v3_quoter()) {
        return Ok(quote_reply(w.probe_usdc));
    }
    if starts(data, "getAgentStake(address,address,uint256)") {
        let staker = format!("0x{}", hex::encode(&data[16..36]));
        let worknet = u64::from_be_bytes(data[92..100].try_into().unwrap());
        return match w.stakes.iter().find(|(s, n, _)| *s == staker && *n == worknet) {
            Some((_, _, n)) => Ok(word(*n)),
            None => Err(Fault::of("no stake")),
        };
    }
    panic!("unexpected view")
}

fn perform(w: &mut World, action: Action) -> Reply {
    match action {
        Action::Address => Reply::Text(Ok(AGENT.to_string())),
        Action::Env(name) => {
            Reply::Maybe(w.env.iter().find(|(n, _)| *n == name).map(|(_, v)| v.clone()))
        }
        Action::View(to, data) => Reply::Bytes(view(w, &to, &data)),
        Action::Views(calls) => {
            let mut all = Vec::new();
            for c in &calls {
                all.push(view(w, &c.to, &c.data));
            }
            Reply::ManyBytes(all)
        }
        Action::EthBalance(_) => Reply::Wei(Ok(w.wei)),
        Action::Transact(t) => {
            if w.sent.len() == w.refuse_at {
                return Reply::Sent(Err(TxFault::Send(Fault::of("no funds"))));
            }
            w.sent.push(t);
            Reply::Sent(Ok((format!("0xt{}", w.sent.len()), w.sent.len() != w.revert_at)))
        }
        Action::Submit(t) => {
            if w.sent.len() == w.refuse_at {
                return Reply::Submitted(Err(TxFault::Send(Fault::of("no funds"))));
            }
            w.sent.push(t);
            Reply::Submitted(Ok(format!("0xt{}", w.sent.len())))
        }
        Action::Eligible(a) => {
            w.checked += 1;
            Reply::Flag(drive(w, cmd::stake::check_eligible_onchain(a), |s, r| s.step(r)))
        }
        Action::Awp(method, params) => {
            let worknet: u64 = params.get_str("worknetId").unwrap().parse().unwrap();
            assert_eq!(params.get_str("agent"), Some(AGENT));
            let list = if method == "staking.getAgentWorknetStake" { &w.totals } else { &w.rows };
            match list.iter().find(|(n, _)| *n == worknet) {
                Some((_, t)) => Reply::Doc(Ok(Json::parse(t).unwrap())),
                None => Reply::Doc(Err(Fault::of("down"))),
            }
        }
        Action::Show(amounts) => Reply::Shown(amounts.iter().map(show).collect()),
        Action::Say(lines) => {
            w.lines.extend(lines);
            Reply::Done(Ok(()))
        }
        Action::Ask(q) => {
            w.asked.push(q);
            Reply::Text(Ok(w.answers.remove(0)))
        }
        _ => panic!("unexpected action"),
    }
}

fn drive<S, R>(w: &mut World, first: Step<S, R>, next: fn(S, Reply) -> Step<S, R>) -> R {
    let mut at = first;
    for _ in 0..1000 {
        match at {
            Step::Act(s, a) => at = next(s, perform(w, a)),
            Step::End(r) => return r,
        }
    }
    panic!("no end")
}

fn printed(o: Outcome) -> Output {
    match o {
        Outcome::Print(p) => p,
        Outcome::Fail(f) => panic!("{}", f.full()),
    }
}

fn failed(o: Outcome) -> String {
    match o {
        Outcome::Print(p) => panic!("{}", p.message),
        Outcome::Fail(f) => f.full(),
    }
}

fn data(o: &Output) -> Value {
    serde_json::from_str(&o.data.render()).unwrap()
}

fn args() -> BuyAndStakeArgs {
    BuyAndStakeArgs {
        lock_days: Some(7),
        slippage_bps: None,
        yes: true,
        quote_only: false,
        buy_amount_awp: None,
        no_stake: false,
    }
}

fn buy(w: &mut World, a: BuyAndStakeArgs) -> Outcome {
    drive(w, cmd::buy_and_stake::run(a), |s, r| s.step(r))
}

fn stake(w: &mut World) -> Output {
    printed(drive(w, cmd::stake::run(), |s, r| s.step(r)))
}

fn eligible(w: &mut World) -> bool {
    let r = drive(w, cmd::stake::check_eligible_onchain(AGENT.to_string()), |s, r| s.step(r));
    match r {
        Ok(b) => b,
        Err(f) => panic!("{}", f.full()),
    }
}

fn number_arg(n: u128) -> [u8; 32] {
    U256::of_u128(n).to_be_bytes()
}

#[test]
fn enough_balance_is_locked_without_a_swap() {
    let mut w = world();
    let o = printed(buy(&mut w, args()));
    assert_eq!(o.message, "✓ 10000 AWP locked + allocated to agent on Ardi worknet. Eligible to commit.");
    assert_eq!(data(&o)["lock_days"], 7);
    assert_eq!(data(&o)["worknet_id"].as_u64(), Some(ARDI));
    assert_eq!(data(&o)["stake_awp"].to_string(), "10000.0");
    assert!(w.lines[0].starts_with("✓ AWP balance already meets threshold (10000.0000 >= 10000)"));
    assert!(w.asked.is_empty());

    let agent = Address::parse(AGENT).unwrap();
    assert_eq!(w.sent.len(), 3);
    assert!(w.sent[0].to.same(&known::awp()));
    assert_eq!(
        w.sent[0].data,
        chain::call2("approve(address,uint256)", chain::address_arg(&known::ve_awp()), U256::max().to_be_bytes())
    );
    assert!(w.sent[1].to.same(&known::ve_awp()));
    assert_eq!(
        w.sent[1].data,
        chain::call2("deposit(uint256,uint64)", number_arg(10_000 * ONE), chain::uint_arg(7 * 86_400))
    );
    assert!(w.sent[2].to.same(&known::awp_allocator()));
    assert_eq!(
        w.sent[2].data,
        chain::call(
            "allocate(address,address,uint256,uint256)",
            &vec![
                chain::address_arg(&agent),
                chain::address_arg(&agent),
                chain::uint_arg(ARDI),
                number_arg(10_000 * ONE)
            ]
        )
    );
    assert_eq!(w.sent[1].gas_limit, 500_000);
    assert_eq!(w.sent[2].gas_limit, 300_000);
}

#[test]
fn approval_is_skipped_when_it_is_there() {
    let mut w = world();
    w.allowance = 10_000 * ONE;
    printed(buy(&mut w, args()));
    assert_eq!(w.sent.len(), 2);
}

#[test]
fn lock_stops_at_the_first_transaction_that_is_not_sent() {
    let run = |allowance: u128, refuse_at: usize| {
        let mut w = world();
        w.allowance = allowance;
        w.refuse_at = refuse_at;
        let e = failed(buy(&mut w, args()));
        (e, w.sent.len())
    };
    assert_eq!(run(0, 0), ("AWP approve to veAWP: no funds".to_string(), 0));
    assert_eq!(run(0, 1), ("veAWP deposit: no funds".to_string(), 1));
    assert_eq!(run(0, 2), ("AWPAllocator allocate: no funds".to_string(), 2));
    assert_eq!(run(10_000 * ONE, 0), ("veAWP deposit: no funds".to_string(), 0));
    assert_eq!(run(10_000 * ONE - 1, 1), ("veAWP deposit: no funds".to_string(), 1));
    assert_eq!(run(10_000 * ONE, 1), ("AWPAllocator allocate: no funds".to_string(), 1));
}

#[test]
fn lock_goes_on_with_every_hash() {
    let mut w = world();
    w.revert_at = 1;
    printed(buy(&mut w, args()));
    assert_eq!(w.sent.len(), 3);
    assert!(w.sent.iter().all(|t| t.value_wei == 0));
    let told: Vec<&String> = w.lines.iter().filter(|l| l.starts_with("   tx: ")).collect();
    assert_eq!(told, vec!["   tx: 0xt1", "   tx: 0xt2", "   tx: 0xt3"]);
}

#[test]
fn eligible_agent_sends_nothing() {
    let mut w = poor();
    printed(buy(&mut w, args()));
    assert_eq!(w.sent.len(), 6);
    assert_eq!(w.checked, 1);

    // The same command again, once the lock is allocated.
    w.sent.clear();
    w.lines.clear();
    w.balances = vec![1_000 * ONE];
    w.stakes = vec![allocation(AGENT, ARDI, 10_000)];
    let o = printed(buy(&mut w, args()));
    assert!(w.sent.is_empty());
    assert!(w.lines.is_empty());
    assert_eq!(o.status, "ok");
    assert_eq!(data(&o)["agent"], AGENT);
    assert_eq!(data(&o)["eligible"], true);
    assert_eq!(data(&o)["worknet_id"].as_u64(), Some(ARDI));

    // Below the threshold there is something to do again.
    w.balances = vec![10_000 * ONE];
    w.stakes = vec![allocation(AGENT, ARDI, 9_999)];
    printed(buy(&mut w, args()));
    assert_eq!(w.sent.len(), 3);
}

#[test]
fn amount_is_bought_whether_eligible_or_not() {
    let mut w = poor();
    w.stakes = vec![allocation(AGENT, ARDI, 10_000)];
    w.balances = vec![2_000 * ONE, 2_100 * ONE];
    let mut a = args();
    a.buy_amount_awp = Some(100);
    a.no_stake = true;
    printed(buy(&mut w, a));
    assert_eq!(w.sent.len(), 3);
    assert_eq!(w.checked, 0);
}

#[test]
fn first_swap_that_reverts_ends_the_purchase() {
    let mut w = poor();
    w.revert_at = 1;
    assert_eq!(failed(buy(&mut w, args())), "ETH→USDC swap tx: transaction 0xt1 reverted");
    assert_eq!(w.sent.len(), 1);
}

fn poor() -> World {
    let mut w = world();
    w.balances = vec![2_000 * ONE, 11_000 * ONE];
    w.dollars = vec![0, 41_000_000];
    w
}

#[test]
fn shortfall_is_swapped_in_two_steps() {
    let mut w = poor();
    printed(buy(&mut w, args()));
    // 100 USDC buy 20000 AWP, so 8000 AWP need 40 USDC, and 42 USDC with the buffer.
    // 0.001 ETH buys 4 USDC, so 42 USDC need 0.0105 ETH.
    let agent = Address::parse(AGENT).unwrap();
    let first = &w.sent[0];
    assert!(first.to.same(&known::uni_v3_router()));
    assert_eq!(first.value_wei, 10_500_000_000_000_000);
    assert_eq!(
        first.data,
        chain::call(
            "exactInputSingle((address,address,uint24,address,uint256,uint256,uint160))",
            &vec![
                chain::address_arg(&known::weth()),
                chain::address_arg(&known::usdc()),
                chain::uint_arg(500),
                chain::address_arg(&agent),
                number_arg(10_500_000_000_000_000),
                number_arg(38_800_000),
                [0u8; 32]
            ]
        )
    );
    let approve = &w.sent[1];
    assert!(approve.to.same(&known::usdc()));
    let second = &w.sent[2];
    assert!(second.to.same(&known::aero_cl_router()));
    assert_eq!(second.value_wei, 0);
    let sig = "exactInputSingle((address,address,int24,address,uint256,uint256,uint256,uint160))";
    assert_eq!(second.data[..4], chain::call0(sig)[..]);
    assert_eq!(second.data[4 + 2 * 32..4 + 3 * 32], chain::int_arg(200));
    assert_eq!(second.data[4 + 5 * 32..4 + 6 * 32], number_arg(41_000_000));
    assert_eq!(second.data[4 + 6 * 32..4 + 7 * 32], number_arg(7_760 * ONE));
    assert_eq!(w.sent.len(), 6);
    assert!(w.lines.iter().any(|l| l == "✓ AWP balance now 11000 (target 10000)"));
    assert!(w.lines.iter().any(|l| l == "   slippage          : 3.00% (--slippage to override)"));
    assert!(w.lines.iter().any(|l| l == "   total burn        : 0.012000 ETH (recommended top-up: 0.01 ETH)"));
}

#[test]
fn no_more_dollars_are_used_than_planned() {
    let mut w = poor();
    w.dollars = vec![0, 1_000_000_000];
    w.allowance = 1_000_000_000_000;
    let mut a = args();
    a.no_stake = true;
    let o = printed(buy(&mut w, a));
    assert_eq!(w.sent.len(), 2);
    assert_eq!(w.sent[1].data[4 + 5 * 32..4 + 6 * 32], number_arg(42_000_000));
    assert_eq!(data(&o)["no_stake"], true);
    assert_eq!(data(&o)["buy_amount_awp"], 0);
}

#[test]
fn swap_refusals() {
    let mut w = poor();
    w.wei = 11_999_999_999_999_999;
    assert_eq!(
        failed(buy(&mut w, args())),
        format!("ETH balance 0.012000 < required 0.012000. Top up your wallet ({AGENT}) on Base mainnet.")
    );
    assert!(w.sent.is_empty());

    let mut w = poor();
    w.probe_awp = 0;
    assert_eq!(
        failed(buy(&mut w, args())),
        "Aerodrome quoter returned 0 AWP for 100 USDC probe — pool may be drained"
    );
    let mut w = poor();
    w.probe_usdc = 0;
    assert_eq!(failed(buy(&mut w, args())), "quote eth→usdc: Uni V3 quoter returned 0 USDC for 0.001 ETH");

    let mut w = poor();
    w.dollars = vec![0, 38_799_999];
    assert_eq!(
        failed(buy(&mut w, args())),
        "ETH→USDC swap landed but USDC balance 38.8000 < expected min 38.8000 — slippage or RPC stale"
    );
    assert_eq!(w.sent.len(), 1);

    let mut w = poor();
    w.balances = vec![2_000 * ONE, 9_999 * ONE];
    assert!(failed(buy(&mut w, args())).starts_with("post-swap AWP balance 9999 < required 10000 — "));

    let mut w = poor();
    w.refuse_at = 2;
    assert_eq!(failed(buy(&mut w, args())), "USDC→AWP swap tx: no funds");
}

#[test]
fn held_dollars_are_not_bought_again() {
    let mut w = poor();
    w.dollars = vec![42_000_000];
    w.wei = 1_500_000_000_000_000;
    printed(buy(&mut w, args()));
    assert!(w.sent[0].to.same(&known::usdc()));
    assert!(w.sent[1].to.same(&known::aero_cl_router()));
    assert_eq!(w.sent[1].data[4 + 5 * 32..4 + 6 * 32], number_arg(42_000_000));
    assert_eq!(w.sent.len(), 5);
    assert!(w.sent.iter().all(|t| t.value_wei == 0));
    assert!(w.lines.iter().any(|l| l == "   total burn        : 0.001500 ETH (recommended top-up: 0.01 ETH)"));

    let mut w = poor();
    w.dollars = vec![41_999_999, 83_000_000];
    printed(buy(&mut w, args()));
    assert!(w.sent[0].to.same(&known::uni_v3_router()));

    let mut w = poor();
    w.dollars = vec![42_000_000];
    w.answers = vec!["no\n".to_string()];
    let mut a = args();
    a.yes = false;
    assert_eq!(failed(buy(&mut w, a)), "aborted by user");
    assert!(w.sent.is_empty());
}

#[test]
fn failed_run_is_taken_up_where_it_broke_off() {
    let mut w = poor();
    w.dollars = vec![0, 42_000_000];
    w.refuse_at = 2;
    assert_eq!(failed(buy(&mut w, args())), "USDC→AWP swap tx: no funds");
    w.balances = vec![2_000 * ONE, 11_000 * ONE];
    w.allowance = 42_000_000;
    w.refuse_at = 100;
    w.sent.clear();
    printed(buy(&mut w, args()));
    assert!(w.sent[0].to.same(&known::aero_cl_router()));
}

#[test]
fn pure_swap_does_not_need_the_threshold() {
    let mut w = poor();
    w.balances = vec![2_000 * ONE, 2_100 * ONE];
    let mut a = args();
    a.buy_amount_awp = Some(100);
    a.no_stake = true;
    let o = printed(buy(&mut w, a));
    assert_eq!(o.status, "ok");
    assert_eq!(data(&o)["no_stake"], true);
    assert_eq!(w.sent.len(), 3);
}

#[test]
fn price_in_dollars_is_not_cut() {
    let mut w = poor();
    // 29761904761906 AWP need as many units of USDC, 31250000000001 with the buffer, and as many wei.
    w.probe_awp = 100_000_000 * ONE;
    w.probe_usdc = 1_000_000_000_000_000;
    w.dollars = vec![0, 40_000_000_000_000];
    let mut a = args();
    a.buy_amount_awp = Some(29_761_904_761_906);
    a.no_stake = true;
    printed(buy(&mut w, a));
    assert_eq!(w.sent[0].value_wei, 31_250_000_000_001);
    assert!(w.lines.iter().any(|l| l == "   spend ETH         : 0.000031 (~0.13 USD if $4000/ETH)"));
}

#[test]
fn consent_is_asked_for() {
    let mut w = poor();
    w.answers = vec!["n\n".to_string()];
    let mut a = args();
    a.yes = false;
    assert_eq!(failed(buy(&mut w, a)), "aborted by user");
    assert!(w.sent.is_empty());
    assert_eq!(w.asked, vec!["\nProceed with buy? [y/N]: ".to_string()]);

    let mut w = poor();
    w.answers = vec![" YES \n".to_string(), "\n".to_string()];
    let mut a = args();
    a.yes = false;
    a.lock_days = None;
    let o = printed(buy(&mut w, a));
    assert_eq!(data(&o)["lock_days"], 3);
    assert_eq!(w.asked[1], "Lock duration in days (default 3, max 1460=4yr): ");
}

#[test]
fn lock_days_are_bounded() {
    let run = |days: Option<u32>, yes: bool, line: &str| {
        let mut w = world();
        w.answers = vec![line.to_string()];
        let mut a = args();
        a.lock_days = days;
        a.yes = yes;
        buy(&mut w, a)
    };
    assert_eq!(failed(run(Some(0), true, "")), "lock-days must be >= 1");
    assert_eq!(failed(run(None, false, "0")), "lock-days must be >= 1");
    assert!(failed(run(None, false, "x\n")).starts_with("invalid lock-days: "));
    assert!(matches!(run(Some(1461), true, ""), Outcome::Fail(_)));
    assert_eq!(data(&printed(run(Some(1460), true, "")))["lock_days"], 1460);
    assert_eq!(data(&printed(run(None, true, "")))["lock_days"], 3);
    assert_eq!(data(&printed(run(None, false, " 12 \n")))["lock_days"], 12);
}

#[test]
fn quote_sends_nothing() {
    let mut w = poor();
    let mut a = args();
    a.quote_only = true;
    a.slippage_bps = Some(5000);
    let o = printed(buy(&mut w, a));
    let d = data(&o);
    assert!(w.sent.is_empty());
    assert_eq!(w.checked, 0);
    assert_eq!(d["needs_swap"], true);
    assert_eq!(d["needed_awp"].to_string(), "8000.0");
    assert_eq!(d["swap"]["spend_eth"].to_string(), "0.0105");
    assert_eq!(d["swap"]["total_burn_eth"].to_string(), "0.012");
    assert_eq!(d["swap"]["slippage_bps"], 2000);
    assert_eq!(d["swap"]["min_usdc_received"].to_string(), "32.0");
    assert_eq!(d["swap"]["min_awp_received"].to_string(), "6400.0");
    assert_eq!(d["swap"]["eth_sufficient"], true);
    assert!(d["next_step"].as_str().unwrap().ends_with(" --lock-days <N> --slippage 2000"));

    let mut w = world();
    let mut a = args();
    a.quote_only = true;
    let d = data(&printed(buy(&mut w, a)));
    assert_eq!(d["needs_swap"], false);
    assert_eq!(d["swap"], Value::Null);
    assert!(d["next_step"].as_str().unwrap().ends_with(" --lock-days <N>"));
}

#[test]
fn amount_to_buy_overrides_the_shortfall() {
    let mut w = world();
    w.dollars = vec![0, 1_000_000];
    let mut a = args();
    a.buy_amount_awp = Some(100);
    a.no_stake = true;
    let o = printed(buy(&mut w, a));
    // 100 AWP need 0.5 USDC, and 0.525 USDC with the buffer.
    assert_eq!(w.sent[0].value_wei, 131_250_000_000_000);
    assert_eq!(data(&o)["buy_amount_awp"], 100);
}

#[test]
fn slippage_and_buffer_formulas() {
    assert_eq!(quote::apply_slippage(&U256::of_u64(10_000), 300).decimal(), "9700");
    assert_eq!(quote::apply_slippage(&U256::of_u64(1), 1).decimal(), "0");
    assert_eq!(quote::apply_slippage(&U256::of_u64(77), 0).decimal(), "77");
    assert_eq!(quote::with_buffer(&U256::of_u64(40_000_000)).decimal(), "42000000");
}

fn allocation(staker: &str, worknet: u64, awp: u128) -> (String, u64, u128) {
    (staker.to_string(), worknet, awp * ONE)
}

fn backed_by(worknet: u64, staker: &str) -> (u64, String) {
    (
        worknet,
        format!(r#"[{{"chain_id":8453,"user_address":"{staker}","amount":1,"frozen":false}}]"#),
    )
}

#[test]
fn stake_finds_every_backer() {
    let mut w = world();
    w.rows = vec![backed_by(KYA, OTHER)];
    w.stakes = vec![allocation(AGENT, ARDI, 10), allocation(OTHER, KYA, 10_000)];
    let o = stake(&mut w);
    let d = data(&o);
    assert_eq!(d["eligible"], true);
    assert_eq!(d["chosen_staker"], OTHER);
    assert_eq!(d["chosen_worknet_id"], "845300000012");
    assert_eq!(d["chosen_stake_awp"].to_string(), "10000.0");
    assert_eq!(d["all_allocations"][0]["staker"], AGENT);
    assert_eq!(d["all_allocations"][0]["passes"], false);
    assert_eq!(d["all_allocations"][1]["passes"], true);
    assert!(o.message.contains("Threshold (each path):  10000 AWP (source: chain)"));
    assert!(o.message.contains(&format!("KYA  (845300000012)  staker={OTHER}  stake=10000.00 AWP  →  PASSES")));
    assert!(o.message.contains(&format!("Ardi (845300000014)  staker={AGENT}  stake=10.00 AWP  →  below threshold")));
}

#[test]
fn stake_by_oneself_is_enough() {
    let mut w = world();
    w.min_stake = Some(ONE / 2);
    w.stakes = vec![allocation(AGENT, ARDI, 1)];
    let d = data(&stake(&mut w));
    assert_eq!(d["via"], "self-stake");
    assert_eq!(d["min_stake_awp"].to_string(), "0.5");
}

#[test]
fn stake_guides_when_nothing_reaches() {
    let mut w = world();
    w.min_stake = None;
    let o = stake(&mut w);
    assert_eq!(o.error_code.as_deref(), Some("NOT_STAKED"));
    assert!(o.message.contains("Threshold (each path):  10000 AWP (source: fallback-constant)"));
    assert!(o.message.contains("No allocations found across known stakers."));
    assert!(o.message.contains("[A] 🟢 KYA delegated stake — easiest, no AWP needed"));
    let debug: Value = serde_json::from_str(&o.debug.render()).unwrap();
    assert_eq!(debug["via"], Value::Null);
    assert_eq!(debug["ve_awp_contract"], "0x0000b534C63D78212f1BDCc315165852793A00A8");
    assert_eq!(
        data(&o)["suggestion"],
        "Reach the 10000 AWP threshold on EITHER Ardi (845300000014) OR KYA (845300000012) worknet, then re-run."
    );
}

#[test]
fn eligibility_sums_what_the_network_states() {
    let mut w = world();
    w.totals = vec![
        (ARDI, r#"{"amount":"4000000000000000000000"}"#.to_string()),
        (KYA, r#"{"amount":"6000000000000000000000"}"#.to_string()),
    ];
    assert!(eligible(&mut w));
    w.totals[1].1 = r#"{"amount":"5999999999999999999999"}"#.to_string();
    assert!(!eligible(&mut w));
}

#[test]
fn eligibility_falls_back_to_the_chain() {
    let mut w = world();
    w.rows = vec![backed_by(ARDI, OTHER)];
    w.stakes = vec![allocation(AGENT, ARDI, 4_000), allocation(OTHER, KYA, 6_000)];
    assert!(eligible(&mut w));
    w.stakes[1] = allocation(OTHER, KYA, 5_999);
    assert!(!eligible(&mut w));
    w.min_stake = None;
    w.stakes[1] = allocation(OTHER, KYA, 6_000);
    assert!(eligible(&mut w));
}

#[test]
fn backers_need_a_positive_amount_only_when_asked() {
    let doc = Json::parse(&format!(
        r#"[{{"chain_id":1,"user_address":"{OTHER}","amount":"0","frozen":false}},
            {{"chain_id":1,"user_address":"nobody","amount":"5","frozen":false}},
            {{"chain_id":1,"user_address":"{AGENT}","amount":"x","frozen":false}}]"#
    ))
    .unwrap();
    let reply = Ok(doc);
    assert_eq!(awp_rpc::add_backers(Vec::new(), &reply, true).len(), 0);
    let all = awp_rpc::add_backers(Vec::new(), &reply, false);
    assert_eq!(all.len(), 2);
    assert_eq!(all[0].lower(), AGENT);
    assert_eq!(awp_rpc::add_backers(all, &Err(Fault::of("down")), true).len(), 2);
}
