//! preflight: check the wallet, the registration, the coordinator, the balance and the stake, in this order.
use vstd::prelude::*;

use crate::cmd::gas::GasCheck;
use crate::fault::top_v;
use crate::flow::{
    fail, fails, print, prints, stray, stray_v, Action, ActionV, Outcome, Reply, Step,
};
use crate::json::{empty_object, member, with_member, Json, JsonV};
use crate::output::{error_data, error_v, error_with_debug_v, next_at_v, success_v, Internal, Output, OutputV};
use crate::text::{cat2, cat3};
use crate::wallet::{setup_v, suggestion_v, WalletStatus};

verus! {

/// The preflight command.
pub enum Preflight {
    /// The agent's address is looked for.
    Address,
    /// There is none; the wallet is looked at.
    Wallet(String),
    /// The registration is seen to.
    Register(String),
    /// The coordinator is asked.
    Ping(String),
    /// The balance is checked.
    Gas(String),
    /// The stake is checked.
    Stake(String, GasCheck),
}

/// The state of the wallet as data.
pub open spec fn wallet_data(s: WalletStatus) -> JsonV {
    let o = with_member(empty_object(), "cli_installed"@, JsonV::Bool(s.cli_installed));
    let o = with_member(o, "wallet_dir_exists"@, JsonV::Bool(s.wallet_dir_exists));
    let o = with_member(o, "has_keystore"@, JsonV::Bool(s.has_keystore));
    let o = with_member(o, "can_receive"@, JsonV::Bool(s.can_receive));
    let o = with_member(o, "safe_to_init"@, JsonV::Bool(!s.has_keystore));
    with_member(empty_object(), "wallet"@, o)
}

/// The output where there is no address.
pub open spec fn no_address_v(e: Seq<char>, s: WalletStatus) -> OutputV {
    error_with_debug_v(
        "Cannot determine agent address: "@ + e,
        "WALLET_NOT_CONFIGURED"@,
        "dependency"@,
        false,
        suggestion_v(s.cli_installed, s.has_keystore, s.can_receive),
        wallet_data(s),
        next_at_v("configure_wallet"@, Some(setup_v(s.cli_installed, s.has_keystore)), "0/5"@),
    )
}

/// The output where there is no address.
pub fn no_address(e: &str, s: &WalletStatus) -> (r: Output)
    ensures
        r@ == no_address_v(e@, *s),
{
    let o = Json::object().with("cli_installed", Json::Bool(s.cli_installed)).with(
        "wallet_dir_exists",
        Json::Bool(s.wallet_dir_exists),
    ).with("has_keystore", Json::Bool(s.has_keystore)).with(
        "can_receive",
        Json::Bool(s.can_receive),
    ).with("safe_to_init", Json::Bool(s.safe_to_init()));
    let advice = s.suggestion();
    Output::error_with_debug(
        cat2("Cannot determine agent address: ", e),
        "WALLET_NOT_CONFIGURED",
        "dependency",
        false,
        advice.as_str(),
        Json::object().with("wallet", o),
        Internal::run_at("configure_wallet", s.setup_command(), "0/5"),
    )
}

/// The output where the registration could not be seen to.
pub open spec fn register_failed_v(e: Seq<char>) -> OutputV {
    error_v(
        "AWP registration step failed: "@ + e,
        "AWP_REGISTER_FAILED"@,
        "network"@,
        true,
        "Check internet connectivity to api.awp.sh, then re-run preflight."@,
        next_at_v("retry"@, Some("ardi-agent preflight"@), "1/5"@),
    )
}

fn register_failed(e: &str) -> (r: Output)
    ensures
        r@ == register_failed_v(e@),
{
    Output::error(
        cat2("AWP registration step failed: ", e),
        "AWP_REGISTER_FAILED",
        "network",
        true,
        "Check internet connectivity to api.awp.sh, then re-run preflight.",
        Internal::run_at("retry", "ardi-agent preflight", "1/5"),
    )
}

/// The output where the address is not registered yet.
pub open spec fn unregistered_v(message: Seq<char>) -> OutputV {
    error_v(
        message,
        "AWP_NOT_REGISTERED"@,
        "registration"@,
        true,
        "Wait 30s and re-run preflight."@,
        next_at_v("wait_and_retry"@, Some("ardi-agent preflight"@), "1/5"@),
    )
}

fn unregistered(message: String) -> (r: Output)
    ensures
        r@ == unregistered_v(message@),
{
    Output::error(
        message,
        "AWP_NOT_REGISTERED",
        "registration",
        true,
        "Wait 30s and re-run preflight.",
        Internal::run_at("wait_and_retry", "ardi-agent preflight", "1/5"),
    )
}

/// The output where the coordinator does not answer.
pub open spec fn unreachable_v(e: Seq<char>) -> OutputV {
    error_v(
        "Coordinator unreachable: "@ + e,
        "COORDINATOR_UNREACHABLE"@,
        "network"@,
        true,
        "Check ARDI_COORDINATOR_URL and your network. Default: https://api.ardinals.com"@,
        next_at_v("retry"@, Some("ardi-agent preflight"@), "2/5"@),
    )
}

fn unreachable_coordinator(e: &str) -> (r: Output)
    ensures
        r@ == unreachable_v(e@),
{
    Output::error(
        cat2("Coordinator unreachable: ", e),
        "COORDINATOR_UNREACHABLE",
        "network",
        true,
        "Check ARDI_COORDINATOR_URL and your network. Default: https://api.ardinals.com",
        Internal::run_at("retry", "ardi-agent preflight", "2/5"),
    )
}

/// The output where the balance is below the floor.
pub open spec fn poor_v(address: Seq<char>, d6: Seq<char>) -> OutputV {
    error_v(
        "Wallet has "@ + d6 + " ETH on Base — below the 0.003000 ETH safety floor."@,
        "INSUFFICIENT_GAS"@,
        "balance"@,
        true,
        "Send at least 0.0500 ETH to "@ + address + " on Base mainnet, then re-run preflight."@,
        next_at_v("fund_gas"@, Some("ardi-agent preflight"@), "3/5"@),
    )
}

fn poor(address: &str, d6: &str) -> (r: Output)
    ensures
        r@ == poor_v(address@, d6@),
{
    let advice = cat3(
        "Send at least 0.0500 ETH to ",
        address,
        " on Base mainnet, then re-run preflight.",
    );
    Output::error(
        cat3("Wallet has ", d6, " ETH on Base — below the 0.003000 ETH safety floor."),
        "INSUFFICIENT_GAS",
        "balance",
        true,
        advice.as_str(),
        Internal::run_at("fund_gas", "ardi-agent preflight", "3/5"),
    )
}

/// The output where the stake does not suffice.
pub open spec fn unstaked_v() -> OutputV {
    error_v(
        "Agent not yet staked / eligible on Ardi WorkNet."@,
        "NOT_STAKED"@,
        "stake"@,
        false,
        "Run `ardi-agent stake` to see the 3 paths to become eligible."@,
        next_at_v("guide_stake"@, Some("ardi-agent stake"@), "4/5"@),
    )
}

fn unstaked() -> (r: Output)
    ensures
        r@ == unstaked_v(),
{
    Output::error(
        "Agent not yet staked / eligible on Ardi WorkNet.".to_owned(),
        "NOT_STAKED",
        "stake",
        false,
        "Run `ardi-agent stake` to see the 3 paths to become eligible.",
        Internal::run_at("guide_stake", "ardi-agent stake", "4/5"),
    )
}

/// The output where all checks pass.
pub open spec fn ready_v(address: Seq<char>, g: GasCheck) -> OutputV {
    let o = with_member(empty_object(), "address"@, JsonV::Str(address));
    let o = with_member(o, "registered"@, JsonV::Bool(true));
    let o = with_member(o, "balance_eth"@, JsonV::Num(g.balance.json@));
    let o = with_member(o, "stake_eligible"@, JsonV::Bool(true));
    success_v(
        "Preflight passed. Agent "@ + address + " is ready to mine."@,
        o,
        next_at_v("ready"@, Some("ardi-agent context"@), "5/5"@),
    )
}

/// The output where all checks pass.
pub fn ready(address: &str, g: &GasCheck) -> (r: Output)
    ensures
        r@ == ready_v(address@, *g),
{
    let o = Json::object().with("address", Json::text(address)).with(
        "registered",
        Json::Bool(true),
    ).with("balance_eth", Json::Num(g.balance.json.clone())).with(
        "stake_eligible",
        Json::Bool(true),
    );
    Output::success(
        cat3("Preflight passed. Agent ", address, " is ready to mine."),
        o,
        Internal::run_at("ready", "ardi-agent context", "5/5"),
    )
}

/// What comes next in the preflight command.
pub open spec fn preflight_next(s: Preflight, reply: Reply, r: Step<Preflight, Outcome>) -> bool {
    match (s, reply) {
        (Preflight::Address, Reply::Text(Ok(t))) => {
            &&& r matches Step::Act(Preflight::Register(u), a)
            &&& u == t
            &&& a@ == ActionV::Register(t@)
        },
        (Preflight::Address, Reply::Text(Err(f))) => {
            &&& r matches Step::Act(Preflight::Wallet(e), a)
            &&& e@ == top_v(f@)
            &&& a@ == ActionV::Wallet
        },
        (Preflight::Wallet(e), Reply::Wallet(w)) => prints(r, no_address_v(e@, w)),
        (Preflight::Register(t), Reply::Registered(Ok(reg))) => if reg.registered {
            &&& r matches Step::Act(Preflight::Ping(u), a)
            &&& u == t
            &&& a@ == ActionV::Get("/v1/health"@)
        } else {
            prints(r, unregistered_v(reg.message@))
        },
        (Preflight::Register(_), Reply::Registered(Err(f))) => prints(
            r,
            register_failed_v(top_v(f@)),
        ),
        (Preflight::Ping(t), Reply::Doc(Ok(_))) => {
            &&& r matches Step::Act(Preflight::Gas(u), a)
            &&& u == t
            &&& a@ == ActionV::Balance(t@)
        },
        (Preflight::Ping(_), Reply::Doc(Err(f))) => prints(r, unreachable_v(top_v(f@))),
        (Preflight::Gas(t), Reply::Gas(Ok(g))) => if g.sufficient {
            &&& r matches Step::Act(Preflight::Stake(u, h), a)
            &&& u == t
            &&& h == g
            &&& a@ == ActionV::Eligible(t@)
        } else {
            prints(r, poor_v(t@, g.balance.d6@))
        },
        (Preflight::Gas(_), Reply::Gas(Err(f))) => fails(r, f@),
        (Preflight::Stake(t, g), Reply::Flag(Ok(eligible))) => if eligible {
            prints(r, ready_v(t@, g))
        } else {
            prints(r, unstaked_v())
        },
        (Preflight::Stake(_, _), Reply::Flag(Err(f))) => fails(r, f@),
        _ => fails(r, stray_v()),
    }
}

/// Starts the preflight command.
pub fn run() -> (r: Step<Preflight, Outcome>)
    ensures
        r matches Step::Act(Preflight::Address, a) && a@ == ActionV::Address,
{
    Step::Act(Preflight::Address, Action::Address)
}

impl Preflight {
    /// Goes on with the reply.
    pub fn step(self, reply: Reply) -> (r: Step<Preflight, Outcome>)
        ensures
            preflight_next(self, reply, r),
    {
        match (self, reply) {
            (Preflight::Address, Reply::Text(Ok(t))) => {
                let a = Action::Register(t.clone());
                Step::Act(Preflight::Register(t), a)
            },
            (Preflight::Address, Reply::Text(Err(f))) => Step::Act(
                Preflight::Wallet(f.top()),
                Action::Wallet,
            ),
            (Preflight::Wallet(e), Reply::Wallet(w)) => print(no_address(e.as_str(), &w)),
            (Preflight::Register(t), Reply::Registered(Ok(reg))) => {
                if reg.registered {
                    Step::Act(Preflight::Ping(t), Action::Get("/v1/health".to_owned()))
                } else {
                    print(unregistered(reg.message))
                }
            },
            (Preflight::Register(_), Reply::Registered(Err(f))) => {
                let e = f.top();
                print(register_failed(e.as_str()))
            },
            (Preflight::Ping(t), Reply::Doc(Ok(_))) => {
                let a = Action::Balance(t.clone());
                Step::Act(Preflight::Gas(t), a)
            },
            (Preflight::Ping(_), Reply::Doc(Err(f))) => {
                let e = f.top();
                print(unreachable_coordinator(e.as_str()))
            },
            (Preflight::Gas(t), Reply::Gas(Ok(g))) => {
                if g.sufficient {
                    let a = Action::Eligible(t.clone());
                    Step::Act(Preflight::Stake(t, g), a)
                } else {
                    print(poor(t.as_str(), g.balance.d6.as_str()))
                }
            },
            (Preflight::Gas(_), Reply::Gas(Err(f))) => fail(f),
            (Preflight::Stake(t, g), Reply::Flag(Ok(eligible))) => {
                if eligible {
                    print(ready(t.as_str(), &g))
                } else {
                    print(unstaked())
                }
            },
            (Preflight::Stake(_, _), Reply::Flag(Err(f))) => fail(f),
            _ => fail(stray()),
        }
    }
}

/// Preflight passes in one way only: with an agent whose address is known and registered, a coordinator that
/// answers, a balance that is at least the floor, and enough stake, checked in this order.
pub proof fn law_ready_needs_every_check(s: Preflight, reply: Reply, r: Step<Preflight, Outcome>)
    requires
        preflight_next(s, reply, r),
    ensures
        (r matches Step::End(Outcome::Print(o)) && o.status@ == "ok"@) ==> s is Stake && reply
            == Reply::Flag(Ok(true)),
        r matches Step::Act(Preflight::Stake(t, g), _) ==> s == Preflight::Gas(t) && reply
            == Reply::Gas(Ok(g)) && g.sufficient,
        r matches Step::Act(Preflight::Gas(t), _) ==> s == Preflight::Ping(t) && (reply matches Reply::Doc(
            d,
        ) && d is Ok),
        r matches Step::Act(Preflight::Ping(t), _) ==> s == Preflight::Register(t) && (
        reply matches Reply::Registered(Ok(reg)) && reg.registered),
        r matches Step::Act(Preflight::Register(t), _) ==> s is Address && reply == Reply::Text(Ok(t)),
{
    reveal_strlit("ok");
    reveal_strlit("error");
    assert("ok"@.len() == 2 && "error"@.len() == 5);
}

/// An agent that is ready is told with its address and its balance, registered and staked.
pub proof fn law_readiness_is_told(address: Seq<char>, g: GasCheck)
    ensures
        member(ready_v(address, g).data, "address"@) == Some(JsonV::Str(address)),
        member(ready_v(address, g).data, "registered"@) == Some(JsonV::Bool(true)),
        member(ready_v(address, g).data, "balance_eth"@) == Some(JsonV::Num(g.balance.json@)),
        member(ready_v(address, g).data, "stake_eligible"@) == Some(JsonV::Bool(true)),
        ready_v(address, g).internal.next_command == Some("ardi-agent context"@),
{
    reveal_strlit("address");
    reveal_strlit("registered");
    reveal_strlit("balance_eth");
    reveal_strlit("stake_eligible");
    assert("address"@.len() == 7);
    assert("registered"@.len() == 10);
    assert("balance_eth"@.len() == 11);
    assert("stake_eligible"@.len() == 14);
}

/// Each check that fails has its own code.
pub proof fn law_preflight_codes(s: Preflight, reply: Reply, r: Step<Preflight, Outcome>)
    requires
        preflight_next(s, reply, r),
    ensures
        s matches Preflight::Wallet(_) ==> (reply matches Reply::Wallet(_) ==> (r matches Step::End(Outcome::Print(o))
            && o@.error_code == Some("WALLET_NOT_CONFIGURED"@))),
        s matches Preflight::Register(_) ==> (reply matches Reply::Registered(Ok(x)) ==> (!x.registered ==> (
        r matches Step::End(Outcome::Print(o)) && o@.error_code == Some("AWP_NOT_REGISTERED"@)))),
        s matches Preflight::Ping(_) ==> (reply matches Reply::Doc(Err(_)) ==> (r matches Step::End(Outcome::Print(o))
            && o@.error_code == Some("COORDINATOR_UNREACHABLE"@))),
        s matches Preflight::Gas(_) ==> (reply matches Reply::Gas(Ok(g)) ==> (!g.sufficient ==> (r matches Step::End(
            Outcome::Print(o),
        ) && o@.error_code == Some("INSUFFICIENT_GAS"@)))),
        s matches Preflight::Stake(_, _) ==> (reply matches Reply::Flag(Ok(yes)) ==> (!yes ==> (r matches Step::End(
            Outcome::Print(o),
        ) && o@.error_code == Some("NOT_STAKED"@)))),
        s matches Preflight::Stake(t, g) ==> (reply matches Reply::Flag(Ok(yes)) ==> (yes ==> (r matches Step::End(
            Outcome::Print(o),
        ) && o@ == ready_v(t@, g)))),
        r matches Step::Act(Preflight::Register(t), a) ==> a@ == ActionV::Register(t@),
        r matches Step::Act(Preflight::Gas(t), a) ==> a@ == ActionV::Balance(t@),
        r matches Step::Act(Preflight::Stake(t, _), a) ==> a@ == ActionV::Eligible(t@),
{
}

/// A wallet without the gas is told its balance, and where to send more.
pub proof fn law_poor_wallet_is_told(s: Preflight, reply: Reply, r: Step<Preflight, Outcome>)
    requires
        preflight_next(s, reply, r),
    ensures
        s matches Preflight::Gas(t) ==> (reply matches Reply::Gas(Ok(g)) ==> (!g.sufficient ==> (r matches Step::End(
            Outcome::Print(o),
        ) && o@.message == "Wallet has "@ + g.balance.d6@ + " ETH on Base — below the 0.003000 ETH safety floor."@
            && o@.data == error_data(
            true,
            "Send at least 0.0500 ETH to "@ + t@ + " on Base mainnet, then re-run preflight."@,
        )))),
{
}

} // verus!
