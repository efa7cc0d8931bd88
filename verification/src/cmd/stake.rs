//! stake: who backs the agent, with how much, and whether that suffices.
use vstd::prelude::*;

use crate::address::{
    address_error_text, address_views, ascending, insert_ascending, parsed_address, sorted_addresses,
    Address,
};
use crate::awp_rpc::{
    add_backers, agent_worknet_stake, allocations_by_agent_worknet, allocations_params_v, backers,
    read_stake, stake_amount,
};
use crate::bytes::{be_number, hex_0x};
use crate::chain::{
    address_arg, address_result, address_word, arg_at, call0, call3, lemma_static_args, lemma_word_lengths,
    read_uint, selector_of, static_call, uint_arg, uint_result,
};
use crate::cmd::commits::set_or;
use crate::fault::{fault_v, Fault};
use crate::flow::{
    calls_view, fail, fails, print, prints, stray, stray_v, Action, ActionV, Amount, Outcome, Reply,
    Shown, Step, ViewCall,
};
use crate::json::{arr_v, empty_object, lemma_arr_push, member, with_member, Json, JsonV};
use crate::known::{awp_allocator, awp_allocator_bytes};
use crate::output::{
    error_with_debug_v, next_v, success_v, Internal, Output, OutputV,
};
use crate::schema::opt_text_view;
use crate::text::{cat2, cat3, cat5, cat9, join, joined, texts};
use crate::u256::{be_word, lemma_u256_bound, parsed_u256, word_base, U256};

verus! {

/// The stake that an agent needs where the chain does not say: 10 000 AWP.
pub const MIN_STAKE_DEFAULT_WEI: u128 = 10_000_000_000_000_000_000_000;

/// The worknet that agents stake in for themselves.
pub const ARDI_WORKNET_ID: u64 = 845_300_000_014;

/// The worknet of delegated stake.
pub const KYA_WORKNET_ID: u64 = 845_300_000_012;

/// The stake that the chain demands, if the reply states it.
pub open spec fn stated_threshold(reply: Result<Vec<u8>, Fault>) -> Option<nat> {
    match reply {
        Ok(raw) => match uint_result(raw@) {
            Ok(n) => Some(n),
            Err(_) => None,
        },
        Err(_) => None,
    }
}

/// The stake that the chain demands, if the reply states it.
pub fn read_min_stake_wei(reply: &Result<Vec<u8>, Fault>) -> (r: Option<U256>)
    ensures
        match r {
            Some(n) => stated_threshold(*reply) == Some(n@),
            None => stated_threshold(*reply) is None,
        },
{
    match reply {
        Ok(raw) => match read_uint(raw) {
            Ok(n) => Some(n),
            Err(_) => None,
        },
        Err(_) => None,
    }
}

/// The call that asks for the stake that an agent needs.
pub open spec fn threshold_call() -> Seq<u8> {
    static_call("minStake()"@, Seq::empty())
}

/// A sum that stays at the largest number where it would exceed it.
pub open spec fn capped_sum(a: nat, b: nat) -> nat {
    if a + b < word_base() {
        a + b
    } else {
        (word_base() - 1) as nat
    }
}

/// A staker and a worknet whose allocation is to be read.
#[derive(Clone, Copy)]
pub struct Probe {
    pub staker: Address,
    /// Whether the worknet is the one of the agents themselves.
    pub ardi: bool,
}

/// The number of a worknet.
pub open spec fn worknet_number(ardi: bool) -> nat {
    if ardi {
        845_300_000_014
    } else {
        845_300_000_012
    }
}

/// The number of a worknet as a text.
pub open spec fn worknet_text(ardi: bool) -> Seq<char> {
    if ardi {
        "845300000014"@
    } else {
        "845300000012"@
    }
}

fn worknet(ardi: bool) -> (r: &'static str)
    ensures
        r@ == worknet_text(ardi),
{
    if ardi {
        "845300000014"
    } else {
        "845300000012"
    }
}

/// Each staker with both worknets.
pub open spec fn probes_of(stakers: Seq<Address>) -> Seq<Probe>
    decreases stakers.len(),
{
    if stakers.len() == 0 {
        Seq::empty()
    } else {
        probes_of(stakers.drop_last()).push(Probe { staker: stakers.last(), ardi: true }).push(
            Probe { staker: stakers.last(), ardi: false },
        )
    }
}

/// Each staker with both worknets.
pub fn probes(stakers: &Vec<Address>) -> (r: Vec<Probe>)
    ensures
        r@ == probes_of(stakers@),
{
    let mut r: Vec<Probe> = Vec::new();
    let n = stakers.len();
    assert(r@ =~= probes_of(stakers@.take(0)));
    for i in 0..n
        invariant
            n == stakers@.len(),
            r@ == probes_of(stakers@.take(i as int)),
    {
        r.push(Probe { staker: stakers[i], ardi: true });
        r.push(Probe { staker: stakers[i], ardi: false });
        assert(stakers@.take(i + 1).drop_last() =~= stakers@.take(i as int));
    }
    assert(stakers@.take(n as int) =~= stakers@);
    r
}

/// The call that reads an allocation.
pub open spec fn allocation_call(p: Probe, agent: Seq<u8>) -> (Seq<u8>, Seq<u8>) {
    (
        awp_allocator_bytes(),
        static_call(
            "getAgentStake(address,address,uint256)"@,
            seq![address_word(p.staker@), address_word(agent), be_word(worknet_number(p.ardi))],
        ),
    )
}

/// The calls that read some allocations.
pub open spec fn allocation_calls(ps: Seq<Probe>, agent: Seq<u8>) -> Seq<(Seq<u8>, Seq<u8>)> {
    ps.map_values(|p: Probe| allocation_call(p, agent))
}

/// The calls that read some allocations.
pub fn ask_allocations(ps: &Vec<Probe>, agent: &Address) -> (r: Vec<ViewCall>)
    ensures
        calls_view(r@) == allocation_calls(ps@, agent@),
        forall|k: int|
            0 <= k < ps@.len() ==> address_result(arg_at((#[trigger] r@[k]).data@, 0)) == Ok::<Seq<u8>, Seq<char>>(
                ps@[k].staker@,
            ) && address_result(arg_at(r@[k].data@, 1)) == Ok::<Seq<u8>, Seq<char>>(agent@),
{
    let mut r: Vec<ViewCall> = Vec::new();
    let n = ps.len();
    for i in 0..n
        invariant
            n == ps@.len(),
            r@.len() == i,
            forall|j: int|
                0 <= j < i ==> ((#[trigger] r@[j]).to@, r@[j].data@) == allocation_call(
                    ps@[j],
                    agent@,
                ),
    {
        let id = if ps[i].ardi {
            ARDI_WORKNET_ID
        } else {
            KYA_WORKNET_ID
        };
        let data = call3(
            "getAgentStake(address,address,uint256)",
            address_arg(&ps[i].staker),
            address_arg(agent),
            uint_arg(id),
        );
        r.push(ViewCall { to: awp_allocator(), data });
    }
    assert(calls_view(r@) =~= allocation_calls(ps@, agent@));
    proof {
        assert forall|k: int| 0 <= k < ps@.len() implies address_result(arg_at((#[trigger] r@[k]).data@, 0)) == Ok::<
            Seq<u8>,
            Seq<char>,
        >(ps@[k].staker@) && address_result(arg_at(r@[k].data@, 1)) == Ok::<Seq<u8>, Seq<char>>(agent@) by {
            lemma_allocation_call(ps@[k], agent@);
        }
    }
    r
}

/// The amount that a reply states; a reply that cannot be had or read states none.
pub open spec fn stated_amount(reply: Result<Vec<u8>, Fault>) -> nat {
    match stated_threshold(reply) {
        Some(n) => n,
        None => 0,
    }
}

fn read_amount(reply: &Result<Vec<u8>, Fault>) -> (r: U256)
    ensures
        r@ == stated_amount(*reply),
{
    match read_min_stake_wei(reply) {
        Some(n) => n,
        None => U256::zero(),
    }
}

/// Checking whether an agent has enough stake.
pub enum Eligibility {
    /// The contract that is set is asked for.
    Draw(String, Address),
    /// The stake that is needed is read.
    Threshold(String, Address),
    /// The stake in the one worknet is asked for.
    FastArdi(String, Address, U256),
    /// The stake in the other worknet is asked for.
    FastKya(String, Address, U256, U256),
    /// The stakers of the one worknet are asked for.
    RowsArdi(String, Address, U256),
    /// The stakers of the other worknet are asked for.
    RowsKya(String, Address, U256, Vec<Address>),
    /// The allocations are read.
    Probes(U256),
}

/// Whether a step ends with this answer or error.
pub open spec fn ends_flag<S>(r: Step<S, Result<bool, Fault>>, x: Result<bool, Seq<Seq<char>>>) -> bool {
    match r {
        Step::End(Ok(b)) => x == Ok::<bool, Seq<Seq<char>>>(b),
        Step::End(Err(f)) => x == Err::<bool, Seq<Seq<char>>>(f@),
        Step::Act(_, _) => false,
    }
}

/// The stake so far with the one that the network states; nothing where the network does not answer.
pub open spec fn with_stated(total: nat, reply: Result<Json, Fault>) -> Option<nat> {
    match reply {
        Ok(v) => match stake_amount(v@) {
            Ok(t) => match parsed_u256(t) {
                Some(n) => Some(capped_sum(total, n)),
                None => Some(total),
            },
            Err(_) => None,
        },
        Err(_) => None,
    }
}

fn add_stated(total: U256, reply: &Result<Json, Fault>) -> (r: Option<U256>)
    ensures
        match r {
            Some(n) => with_stated(total@, *reply) == Some(n@),
            None => with_stated(total@, *reply) is None,
        },
{
    match reply {
        Ok(v) => match read_stake(v) {
            Ok(t) => match U256::from_decimal(t.as_str()) {
                Some(n) => Some(total.saturating_add(&n)),
                None => Some(total),
            },
            Err(_) => None,
        },
        Err(_) => None,
    }
}

/// The sum of the amounts that some replies state.
pub open spec fn stated_total(replies: Seq<Result<Vec<u8>, Fault>>) -> nat
    decreases replies.len(),
{
    if replies.len() == 0 {
        0
    } else {
        capped_sum(stated_total(replies.drop_last()), stated_amount(replies.last()))
    }
}

/// The sum of the amounts that some replies state.
pub fn add_up(replies: &Vec<Result<Vec<u8>, Fault>>) -> (r: U256)
    ensures
        r@ == stated_total(replies@),
{
    let mut total = U256::zero();
    let n = replies.len();
    assert(replies@.take(0).len() == 0);
    for i in 0..n
        invariant
            n == replies@.len(),
            total@ == stated_total(replies@.take(i as int)),
    {
        let x = read_amount(&replies[i]);
        total = total.saturating_add(&x);
        assert(replies@.take(i + 1).drop_last() =~= replies@.take(i as int));
    }
    assert(replies@.take(n as int) =~= replies@);
    total
}

/// The action that asks for the stake of an agent in a worknet.
pub open spec fn stake_action(address: Seq<char>, ardi: bool) -> ActionV {
    ActionV::Awp(
        "staking.getAgentWorknetStake"@,
        allocations_params_v(address, worknet_text(ardi), None),
    )
}

/// The action that asks for the stakers of an agent in a worknet.
pub open spec fn stakers_action(address: Seq<char>, ardi: bool) -> ActionV {
    ActionV::Awp(
        "staking.getAllocationsByAgentSubnet"@,
        allocations_params_v(address, worknet_text(ardi), None),
    )
}

/// What comes next with the threshold.
pub open spec fn fast_next(t: String, a: Address, min: nat, r: Step<Eligibility, Result<bool, Fault>>) -> bool {
    &&& r matches Step::Act(Eligibility::FastArdi(u, b, m), act)
    &&& u == t
    &&& b == a
    &&& m@ == min
    &&& act@ == stake_action(t@, true)
}

fn go_fast(t: String, a: Address, min: U256) -> (r: Step<Eligibility, Result<bool, Fault>>)
    ensures
        fast_next(t, a, min@, r),
{
    let act = agent_worknet_stake(t.as_str(), worknet(true));
    Step::Act(Eligibility::FastArdi(t, a, min), act)
}

/// What comes next where the network does not state the stake.
pub open spec fn slow_next(t: String, a: Address, min: U256, r: Step<Eligibility, Result<bool, Fault>>) -> bool {
    &&& r matches Step::Act(Eligibility::RowsArdi(u, b, m), act)
    &&& u == t
    &&& b == a
    &&& m == min
    &&& act@ == stakers_action(t@, true)
}

fn go_slow(t: String, a: Address, min: U256) -> (r: Step<Eligibility, Result<bool, Fault>>)
    ensures
        slow_next(t, a, min, r),
{
    let act = allocations_by_agent_worknet(t.as_str(), worknet(true), None);
    Step::Act(Eligibility::RowsArdi(t, a, min), act)
}

/// Whether `stakers` are these, each once, in ascending order.
pub open spec fn lists(stakers: Seq<Address>, members: Set<Seq<u8>>) -> bool {
    ascending(address_views(stakers)) && address_views(stakers).to_set() == members
}

/// The agent and the stakers that the network names for one worknet.
fn first_stakers(agent: Address, reply: &Result<Json, Fault>) -> (r: Vec<Address>)
    ensures
        lists(r@, backers(*reply, false).insert(agent@)),
{
    let mut v: Vec<Address> = Vec::new();
    assert(address_views(v@).to_set() =~= Set::empty());
    insert_ascending(&mut v, agent);
    let r = add_backers(v, reply, false);
    assert(address_views(r@).to_set() =~= backers(*reply, false).insert(agent@));
    r
}

/// The stakers so far and those that the network names for the other worknet.
fn more_stakers(known: &Vec<Address>, reply: &Result<Json, Fault>) -> (r: Vec<Address>)
    ensures
        lists(r@, address_views(known@).to_set().union(backers(*reply, false))),
{
    let v = sorted_addresses(known);
    add_backers(v, reply, false)
}

/// The known address of the contract that takes commits.
pub open spec fn draw_default() -> Seq<char> {
    "0xA57d8E6646E063FFd6eae579d4f327b689dA5DC3"@
}

fn draw_address(set: Option<String>) -> (r: Option<Address>)
    ensures
        match r {
            Some(a) => parsed_address(set_or(opt_text_view(set), draw_default())) == Some(a@),
            None => parsed_address(set_or(opt_text_view(set), draw_default())) is None,
        },
{
    let t = match set {
        Some(t) => t,
        None => "0xA57d8E6646E063FFd6eae579d4f327b689dA5DC3".to_owned(),
    };
    match Address::parse(t.as_str()) {
        Ok(a) => Some(a),
        Err(_) => None,
    }
}

/// The threshold that a reply states, or the default.
pub open spec fn threshold_or_default(reply: Result<Vec<u8>, Fault>) -> nat {
    match stated_threshold(reply) {
        Some(n) => n,
        None => MIN_STAKE_DEFAULT_WEI as nat,
    }
}

/// What comes next when the stake is checked. The network's own sums come first; where it does not state
/// them, the allocations of all known stakers are read from the chain and added up.
pub open spec fn eligibility_next(s: Eligibility, reply: Reply, r: Step<Eligibility, Result<bool, Fault>>) -> bool {
    match (s, reply) {
        (Eligibility::Draw(t, a), Reply::Maybe(set)) => match parsed_address(
            set_or(opt_text_view(set), draw_default()),
        ) {
            None => fast_next(t, a, MIN_STAKE_DEFAULT_WEI as nat, r),
            Some(d) => {
                &&& r matches Step::Act(Eligibility::Threshold(u, b), act)
                &&& u == t
                &&& b == a
                &&& act@ == ActionV::View(d, threshold_call())
            },
        },
        (Eligibility::Threshold(t, a), Reply::Bytes(b)) => fast_next(t, a, threshold_or_default(b), r),
        (Eligibility::FastArdi(t, a, min), Reply::Doc(d)) => match with_stated(0, d) {
            Some(n) => {
                &&& r matches Step::Act(Eligibility::FastKya(u, b, m, total), act)
                &&& u == t
                &&& b == a
                &&& m == min
                &&& total@ == n
                &&& act@ == stake_action(t@, false)
            },
            None => slow_next(t, a, min, r),
        },
        (Eligibility::FastKya(t, a, min, total), Reply::Doc(d)) => match with_stated(total@, d) {
            Some(n) => ends_flag(r, Ok(n >= min@)),
            None => slow_next(t, a, min, r),
        },
        (Eligibility::RowsArdi(t, a, min), Reply::Doc(d)) => {
            &&& r matches Step::Act(Eligibility::RowsKya(u, b, m, list), act)
            &&& u == t
            &&& b == a
            &&& m == min
            &&& lists(list@, backers(d, false).insert(a@))
            &&& act@ == stakers_action(t@, false)
        },
        (Eligibility::RowsKya(_, a, min, list), Reply::Doc(d)) => {
            &&& r matches Step::Act(Eligibility::Probes(m), act)
            &&& m == min
            &&& exists|stakers: Seq<Address>| #[trigger]
                lists(stakers, address_views(list@).to_set().union(backers(d, false))) && act@
                    == ActionV::Views(allocation_calls(probes_of(stakers), a@))
        },
        (Eligibility::Probes(min), Reply::ManyBytes(v)) => ends_flag(r, Ok(stated_total(v@) >= min@)),
        _ => ends_flag(r, Err(stray_v())),
    }
}

/// Starts to check whether an agent has enough stake.
pub fn check_eligible_onchain(agent: String) -> (r: Step<Eligibility, Result<bool, Fault>>)
    ensures
        match parsed_address(agent@) {
            None => ends_flag(r, Err(fault_v(address_error_text(agent@)))),
            Some(x) => r matches Step::Act(Eligibility::Draw(t, a), act) && t == agent && a@ == x && act@
                == ActionV::Env("ARDI_EPOCH_DRAW_ADDR"@),
        },
{
    match Address::parse(agent.as_str()) {
        Err(e) => Step::End(Err(Fault::new(e))),
        Ok(a) => Step::Act(
            Eligibility::Draw(agent, a),
            Action::Env("ARDI_EPOCH_DRAW_ADDR".to_owned()),
        ),
    }
}

impl Eligibility {
    /// Goes on with the reply.
    pub fn step(self, reply: Reply) -> (r: Step<Eligibility, Result<bool, Fault>>)
        ensures
            eligibility_next(self, reply, r),
    {
        match (self, reply) {
            (Eligibility::Draw(t, a), Reply::Maybe(set)) => match draw_address(set) {
                None => go_fast(t, a, U256::of_u128(MIN_STAKE_DEFAULT_WEI)),
                Some(d) => Step::Act(Eligibility::Threshold(t, a), Action::View(d, call0("minStake()"))),
            },
            (Eligibility::Threshold(t, a), Reply::Bytes(b)) => {
                let min = match read_min_stake_wei(&b) {
                    Some(n) => n,
                    None => U256::of_u128(MIN_STAKE_DEFAULT_WEI),
                };
                go_fast(t, a, min)
            },
            (Eligibility::FastArdi(t, a, min), Reply::Doc(d)) => match add_stated(U256::zero(), &d) {
                Some(n) => {
                    let act = agent_worknet_stake(t.as_str(), worknet(false));
                    Step::Act(Eligibility::FastKya(t, a, min, n), act)
                },
                None => go_slow(t, a, min),
            },
            (Eligibility::FastKya(t, a, min, total), Reply::Doc(d)) => match add_stated(total, &d) {
                Some(n) => Step::End(Ok(!n.less(&min))),
                None => go_slow(t, a, min),
            },
            (Eligibility::RowsArdi(t, a, min), Reply::Doc(d)) => {
                let list = first_stakers(a, &d);
                let act = allocations_by_agent_worknet(t.as_str(), worknet(false), None);
                Step::Act(Eligibility::RowsKya(t, a, min, list), act)
            },
            (Eligibility::RowsKya(_, a, min, list), Reply::Doc(d)) => {
                let stakers = more_stakers(&list, &d);
                let ps = probes(&stakers);
                let calls = ask_allocations(&ps, &a);
                assert(lists(stakers@, address_views(list@).to_set().union(backers(d, false))));
                Step::Act(Eligibility::Probes(min), Action::Views(calls))
            },
            (Eligibility::Probes(min), Reply::ManyBytes(v)) => {
                let total = add_up(&v);
                Step::End(Ok(!total.less(&min)))
            },
            _ => Step::End(Err(stray())),
        }
    }
}

/// An allocation that was found.
#[derive(Clone, Copy)]
pub struct CheckedAlloc {
    pub staker: Address,
    /// Whether the worknet is the one of the agents themselves.
    pub ardi: bool,
    pub stake_wei: u128,
    /// Whether it reaches the threshold by itself.
    pub passes: bool,
}

/// The amount that reply number `k` states.
pub open spec fn amount_at(replies: Seq<Result<Vec<u8>, Fault>>, k: int) -> nat {
    if 0 <= k < replies.len() {
        stated_amount(replies[k])
    } else {
        0
    }
}

/// Whether all amounts are in range.
pub open spec fn in_range(count: nat, replies: Seq<Result<Vec<u8>, Fault>>) -> bool {
    forall|k: int| 0 <= k < count ==> #[trigger] amount_at(replies, k) <= u128::MAX
}

/// The allocations above zero, in the order in which they were asked for.
pub open spec fn found_allocs(ps: Seq<Probe>, replies: Seq<Result<Vec<u8>, Fault>>, min: u128) -> Seq<CheckedAlloc>
    decreases ps.len(),
{
    if ps.len() == 0 {
        Seq::empty()
    } else {
        let front = found_allocs(ps.drop_last(), replies, min);
        let n = amount_at(replies, ps.len() - 1);
        if n == 0 {
            front
        } else {
            front.push(
                CheckedAlloc {
                    staker: ps.last().staker,
                    ardi: ps.last().ardi,
                    stake_wei: n as u128,
                    passes: n >= min,
                },
            )
        }
    }
}

/// The allocations above zero, unless an amount is out of range.
pub fn find_allocs(ps: &Vec<Probe>, replies: &Vec<Result<Vec<u8>, Fault>>, min: u128) -> (r: Option<Vec<CheckedAlloc>>)
    ensures
        match r {
            Some(v) => in_range(ps@.len(), replies@) && v@ == found_allocs(ps@, replies@, min),
            None => !in_range(ps@.len(), replies@),
        },
{
    let mut out: Vec<CheckedAlloc> = Vec::new();
    let n = ps.len();
    assert(ps@.take(0).len() == 0);
    for i in 0..n
        invariant
            n == ps@.len(),
            in_range(i as nat, replies@),
            out@ == found_allocs(ps@.take(i as int), replies@, min),
    {
        let x = if i < replies.len() {
            read_amount(&replies[i])
        } else {
            U256::zero()
        };
        assert(x@ == amount_at(replies@, i as int));
        assert(ps@.take(i + 1).drop_last() =~= ps@.take(i as int));
        match x.to_u128() {
            None => {
                return None;
            },
            Some(stake_wei) => {
                if stake_wei != 0 {
                    out.push(
                        CheckedAlloc {
                            staker: ps[i].staker,
                            ardi: ps[i].ardi,
                            stake_wei,
                            passes: stake_wei >= min,
                        },
                    );
                }
            },
        }
    }
    assert(ps@.take(n as int) =~= ps@);
    Some(out)
}

/// The place of the first allocation that reaches the threshold.
pub open spec fn first_passing(v: Seq<CheckedAlloc>) -> Option<int>
    decreases v.len(),
{
    if v.len() == 0 {
        None
    } else {
        match first_passing(v.drop_last()) {
            Some(i) => Some(i),
            None => if v.last().passes {
                Some(v.len() - 1)
            } else {
                None
            },
        }
    }
}

fn find_passing(v: &Vec<CheckedAlloc>) -> (r: Option<usize>)
    ensures
        match r {
            Some(i) => first_passing(v@) == Some(i as int) && i < v@.len(),
            None => first_passing(v@) is None,
        },
{
    let n = v.len();
    let mut r: Option<usize> = None;
    assert(v@.take(0).len() == 0);
    for i in 0..n
        invariant
            n == v@.len(),
            match r {
                Some(k) => first_passing(v@.take(i as int)) == Some(k as int) && k < i,
                None => first_passing(v@.take(i as int)) is None,
            },
    {
        assert(v@.take(i + 1).drop_last() =~= v@.take(i as int));
        if r.is_none() && v[i].passes {
            r = Some(i);
        }
    }
    assert(v@.take(n as int) =~= v@);
    r
}

/// The agent and the stake that it needs.
pub struct Demand {
    /// The agent's address as it was found.
    pub address: String,
    /// The agent.
    pub agent: Address,
    pub min_wei: u128,
    /// Whether the chain stated it.
    pub from_chain: bool,
}

/// The stake command.
pub enum Stake {
    /// The agent's address is looked for.
    Address,
    /// The contract that is set is asked for.
    Draw(String, Address),
    /// The stake that is needed is read.
    Threshold(String, Address),
    /// The stakers of the one worknet are asked for.
    RowsArdi(Demand),
    /// The stakers of the other worknet are asked for.
    RowsKya(Demand, Vec<Address>),
    /// The allocations are read.
    Probes(Demand, Vec<Probe>),
    /// The amounts are written in AWP.
    Amounts(Demand, Vec<CheckedAlloc>),
}

/// Where the threshold comes from.
pub open spec fn source_text(from_chain: bool) -> Seq<char> {
    if from_chain {
        "chain"@
    } else {
        "fallback-constant"@
    }
}

/// What an allocation says in a line.
pub open spec fn alloc_line(a: CheckedAlloc, d2: Seq<char>) -> Seq<char> {
    (if a.ardi {
        "Ardi"@
    } else {
        "KYA "@
    }) + " ("@ + worknet_text(a.ardi) + ")  staker="@ + hex_0x(a.staker@) + "  stake="@ + d2
        + " AWP  →  "@ + (if a.passes {
        "PASSES"@
    } else {
        "below threshold"@
    })
}

/// What an allocation says as data.
pub open spec fn alloc_data(a: CheckedAlloc, amount: Seq<char>) -> JsonV {
    let o = with_member(empty_object(), "staker"@, JsonV::Str(hex_0x(a.staker@)));
    let o = with_member(o, "worknet_id"@, JsonV::Str(worknet_text(a.ardi)));
    let o = with_member(o, "stake_awp"@, JsonV::Num(amount));
    with_member(o, "passes"@, JsonV::Bool(a.passes))
}

/// The lines on the allocations. The first amount is the threshold.
pub open spec fn alloc_lines(v: Seq<CheckedAlloc>, amounts: Seq<Shown>) -> Seq<Seq<char>> {
    if v.len() == 0 {
        seq!["No allocations found across known stakers."@]
    } else {
        Seq::new(v.len(), |i: int| alloc_line(v[i], amounts[i + 1].d2@))
    }
}

/// The allocations as data.
pub open spec fn alloc_list(v: Seq<CheckedAlloc>, amounts: Seq<Shown>) -> JsonV {
    JsonV::Arr(Seq::new(v.len(), |i: int| alloc_data(v[i], amounts[i + 1].json@)))
}

/// The lines that every answer begins with.
pub open spec fn first_lines(d: Demand, v: Seq<CheckedAlloc>, amounts: Seq<Shown>) -> Seq<Seq<char>> {
    seq![
        "Agent:                  "@ + d.address@,
        "Threshold (each path):  "@ + amounts[0].plain@ + " AWP (source: "@ + source_text(d.from_chain)
            + ")"@,
    ] + alloc_lines(v, amounts) + seq![
        "Status:                 "@ + (if first_passing(v) is Some {
            "ELIGIBLE"@
        } else {
            "NOT ELIGIBLE"@
        }),
    ]
}

fn write_alloc(a: &CheckedAlloc, d2: &str) -> (r: String)
    ensures
        r@ == alloc_line(*a, d2@),
{
    let label = if a.ardi {
        "Ardi"
    } else {
        "KYA "
    };
    let verdict = if a.passes {
        "PASSES"
    } else {
        "below threshold"
    };
    let s = a.staker.lower();
    cat9(label, " (", worknet(a.ardi), ")  staker=", s.as_str(), "  stake=", d2, " AWP  →  ", verdict)
}

fn write_lines(d: &Demand, v: &Vec<CheckedAlloc>, amounts: &Vec<Shown>, eligible: bool) -> (r: Vec<String>)
    requires
        amounts@.len() == v@.len() + 1,
        eligible == (first_passing(v@) is Some),
    ensures
        texts(r@) == first_lines(*d, v@, amounts@),
{
    let source = if d.from_chain {
        "chain"
    } else {
        "fallback-constant"
    };
    let mut lines: Vec<String> = Vec::new();
    lines.push(cat2("Agent:                  ", d.address.as_str()));
    lines.push(
        cat5("Threshold (each path):  ", amounts[0].plain.as_str(), " AWP (source: ", source, ")"),
    );
    let ghost head = texts(lines@);
    assert(head =~= seq![
        "Agent:                  "@ + d.address@,
        "Threshold (each path):  "@ + amounts@[0].plain@ + " AWP (source: "@ + source@ + ")"@,
    ]);
    let n = v.len();
    if n == 0 {
        lines.push("No allocations found across known stakers.".to_owned());
        assert(texts(lines@) =~= head + alloc_lines(v@, amounts@));
    } else {
        let ghost all = alloc_lines(v@, amounts@);
        assert(texts(lines@) =~= head + all.take(0));
        for i in 0..n
            invariant
                n == v@.len(),
                n > 0,
                amounts@.len() == n + 1,
                all == alloc_lines(v@, amounts@),
                texts(lines@) == head + all.take(i as int),
        {
            let ghost before = texts(lines@);
            let t = write_alloc(&v[i], amounts[i + 1].d2.as_str());
            lines.push(t);
            assert(texts(lines@) =~= before.push(t@));
            assert(all.take(i + 1) =~= all.take(i as int).push(t@));
            assert(texts(lines@) =~= head + all.take(i + 1));
        }
        assert(all.take(n as int) =~= all);
    }
    let ghost before = texts(lines@);
    lines.push(cat2("Status:                 ", if eligible {
        "ELIGIBLE"
    } else {
        "NOT ELIGIBLE"
    }));
    assert(texts(lines@) =~= first_lines(*d, v@, amounts@));
    lines
}

fn list_allocs(v: &Vec<CheckedAlloc>, amounts: &Vec<Shown>) -> (r: Json)
    requires
        amounts@.len() == v@.len() + 1,
    ensures
        r@ == alloc_list(v@, amounts@),
{
    let mut out: Vec<Json> = Vec::new();
    let n = v.len();
    let ghost all = alloc_list(v@, amounts@)->Arr_0;
    assert(arr_v(out@) =~= all.take(0));
    for i in 0..n
        invariant
            n == v@.len(),
            amounts@.len() == n + 1,
            all == alloc_list(v@, amounts@)->Arr_0,
            arr_v(out@) == all.take(i as int),
    {
        let x = Json::object().with("staker", Json::Str(v[i].staker.lower())).with(
            "worknet_id",
            Json::text(worknet(v[i].ardi)),
        ).with("stake_awp", Json::Num(amounts[i + 1].json.clone())).with(
            "passes",
            Json::Bool(v[i].passes),
        );
        proof {
            lemma_arr_push(out@, x);
            assert(all[i as int] == x@);
            assert(all.take(i + 1) =~= all.take(i as int).push(all[i as int]));
        }
        out.push(x);
    }
    assert(all.take(n as int) =~= all);
    Json::Arr(out)
}

/// How the agent came to the stake.
pub open spec fn path_text(a: CheckedAlloc, agent: Seq<u8>) -> Seq<char> {
    if a.staker@ == agent {
        "self-stake"@
    } else if !a.ardi {
        "kya-delegated"@
    } else {
        "delegated by "@ + hex_0x(a.staker@)
    }
}

/// The output where the stake suffices.
pub open spec fn eligible_v(d: Demand, v: Seq<CheckedAlloc>, amounts: Seq<Shown>, i: int) -> OutputV {
    let o = with_member(empty_object(), "address"@, JsonV::Str(d.address@));
    let o = with_member(o, "eligible"@, JsonV::Bool(true));
    let o = with_member(o, "via"@, JsonV::Str(path_text(v[i], d.agent@)));
    let o = with_member(o, "chosen_staker"@, JsonV::Str(hex_0x(v[i].staker@)));
    let o = with_member(o, "chosen_worknet_id"@, JsonV::Str(worknet_text(v[i].ardi)));
    let o = with_member(o, "chosen_stake_awp"@, JsonV::Num(amounts[i + 1].json@));
    let o = with_member(o, "min_stake_awp"@, JsonV::Num(amounts[0].json@));
    let o = with_member(o, "all_allocations"@, alloc_list(v, amounts));
    success_v(
        joined(
            first_lines(d, v, amounts) + seq![
                ""@,
                "Use --staker "@ + hex_0x(v[i].staker@)
                    + " on commit (or auto-detect via the skill)."@,
                "Run `ardi-agent preflight` to confirm full readiness."@,
            ],
            "\n"@,
        ),
        o,
        next_v("ready"@, Some("ardi-agent preflight"@)),
    )
}

/// The output where the stake suffices.
pub fn eligible(d: &Demand, v: &Vec<CheckedAlloc>, amounts: &Vec<Shown>, i: usize) -> (r: Output)
    requires
        amounts@.len() == v@.len() + 1,
        first_passing(v@) == Some(i as int),
        i < v@.len(),
    ensures
        r@ == eligible_v(*d, v@, amounts@, i as int),
{
    let chosen = v[i];
    let staker = chosen.staker.lower();
    let mut lines = write_lines(d, v, amounts, true);
    let ghost head = texts(lines@);
    lines.push("".to_owned());
    lines.push(
        cat3("Use --staker ", staker.as_str(), " on commit (or auto-detect via the skill)."),
    );
    lines.push("Run `ardi-agent preflight` to confirm full readiness.".to_owned());
    assert(texts(lines@) =~= head + seq![
        ""@,
        "Use --staker "@ + hex_0x(chosen.staker@) + " on commit (or auto-detect via the skill)."@,
        "Run `ardi-agent preflight` to confirm full readiness."@,
    ]);
    let path = if chosen.staker.same(&d.agent) {
        "self-stake".to_owned()
    } else if !chosen.ardi {
        "kya-delegated".to_owned()
    } else {
        cat2("delegated by ", staker.as_str())
    };
    assert(i + 1 < amounts.len());
    let o = Json::object().with("address", Json::text(d.address.as_str())).with(
        "eligible",
        Json::Bool(true),
    ).with("via", Json::Str(path)).with("chosen_staker", Json::Str(staker)).with(
        "chosen_worknet_id",
        Json::text(worknet(chosen.ardi)),
    ).with("chosen_stake_awp", Json::Num(amounts[i + 1].json.clone())).with(
        "min_stake_awp",
        Json::Num(amounts[0].json.clone()),
    ).with("all_allocations", list_allocs(v, amounts));
    Output::success(join(&lines, "\n"), o, Internal::run("ready", "ardi-agent preflight"))
}

/// The lines that tell the ways to enough stake.
pub open spec fn guide_lines(address: Seq<char>, min: Seq<char>) -> Seq<Seq<char>> {
    seq![
        ""@,
        "Pick a path (in order of recommendation):"@,
        ""@,
        "[A] 🟢 KYA delegated stake — easiest, no AWP needed"@,
        "    https://kya.link/"@,
        "    Tweet your agent address, KYA verifies on Twitter and sponsors"@,
        "    "@ + min + " AWP into worknet 845300000012. Wait 1-24h."@,
        ""@,
        "[B] 🟢 One-click buy + auto-stake — for users with ETH"@,
        "    Recommended: top up ~0.01 ETH (≈ $30-40) to your agent, then run:"@,
        "        ardi-agent buy-and-stake"@,
        "    Skill quotes ETH→USDC→AWP on-chain (Uniswap V3 + Aerodrome),"@,
        "    then auto-locks into veAWP and allocates to your agent."@,
        "    Your agent address: "@ + address,
        ""@,
        "[C] ⚪ Manual self-stake — if you already hold AWP"@,
        "    https://awp.pro/staking"@,
        "    Connect wallet, lock >= "@ + min + " AWP, allocate to:"@,
        "      agent: "@ + address,
        "      worknetId: 845300000014 (Ardi)"@,
        ""@,
        "After staking, wait ~10s, then re-run: ardi-agent stake"@,
    ]
}

fn push_guide(lines: &mut Vec<String>, address: &str, min: &str)
    ensures
        texts(final(lines)@) == texts(old(lines)@) + guide_lines(address@, min@),
{
    let ghost head = texts(lines@);
    lines.push("".to_owned());
    lines.push("Pick a path (in order of recommendation):".to_owned());
    lines.push("".to_owned());
    lines.push("[A] 🟢 KYA delegated stake — easiest, no AWP needed".to_owned());
    lines.push("    https://kya.link/".to_owned());
    lines.push("    Tweet your agent address, KYA verifies on Twitter and sponsors".to_owned());
    lines.push(cat3("    ", min, " AWP into worknet 845300000012. Wait 1-24h."));
    lines.push("".to_owned());
    lines.push("[B] 🟢 One-click buy + auto-stake — for users with ETH".to_owned());
    lines.push(
        "    Recommended: top up ~0.01 ETH (≈ $30-40) to your agent, then run:".to_owned(),
    );
    lines.push("        ardi-agent buy-and-stake".to_owned());
    lines.push("    Skill quotes ETH→USDC→AWP on-chain (Uniswap V3 + Aerodrome),".to_owned());
    lines.push("    then auto-locks into veAWP and allocates to your agent.".to_owned());
    lines.push(cat2("    Your agent address: ", address));
    lines.push("".to_owned());
    lines.push("[C] ⚪ Manual self-stake — if you already hold AWP".to_owned());
    lines.push("    https://awp.pro/staking".to_owned());
    lines.push(cat3("    Connect wallet, lock >= ", min, " AWP, allocate to:"));
    lines.push(cat2("      agent: ", address));
    lines.push("      worknetId: 845300000014 (Ardi)".to_owned());
    lines.push("".to_owned());
    lines.push("After staking, wait ~10s, then re-run: ardi-agent stake".to_owned());
    assert(texts(lines@) =~= head + guide_lines(address@, min@));
}

/// The output where the stake does not suffice.
pub open spec fn ineligible_v(d: Demand, v: Seq<CheckedAlloc>, amounts: Seq<Shown>) -> OutputV {
    let o = with_member(empty_object(), "address"@, JsonV::Str(d.address@));
    let o = with_member(o, "eligible"@, JsonV::Bool(false));
    let o = with_member(o, "via"@, JsonV::Null);
    let o = with_member(o, "ardi_worknet_id"@, JsonV::Str("845300000014"@));
    let o = with_member(o, "kya_worknet_id"@, JsonV::Str("845300000012"@));
    let o = with_member(o, "min_stake_awp"@, JsonV::Num(amounts[0].json@));
    let o = with_member(
        o,
        "ve_awp_contract"@,
        JsonV::Str("0x0000b534C63D78212f1BDCc315165852793A00A8"@),
    );
    let o = with_member(
        o,
        "awp_allocator_contract"@,
        JsonV::Str("0x0000D6BB5e040E35081b3AaF59DD71b21C9800AA"@),
    );
    let o = with_member(o, "all_allocations"@, alloc_list(v, amounts));
    error_with_debug_v(
        joined(first_lines(d, v, amounts) + guide_lines(d.address@, amounts[0].plain@), "\n"@),
        "NOT_STAKED"@,
        "stake"@,
        false,
        "Reach the "@ + amounts[0].plain@
            + " AWP threshold on EITHER Ardi (845300000014) OR KYA (845300000012) worknet, then re-run."@,
        o,
        next_v("stake_required"@, Some("ardi-agent stake"@)),
    )
}

/// The output where the stake does not suffice.
pub fn ineligible(d: &Demand, v: &Vec<CheckedAlloc>, amounts: &Vec<Shown>) -> (r: Output)
    requires
        amounts@.len() == v@.len() + 1,
        first_passing(v@) is None,
    ensures
        r@ == ineligible_v(*d, v@, amounts@),
{
    let mut lines = write_lines(d, v, amounts, false);
    push_guide(&mut lines, d.address.as_str(), amounts[0].plain.as_str());
    let advice = cat3(
        "Reach the ",
        amounts[0].plain.as_str(),
        " AWP threshold on EITHER Ardi (845300000014) OR KYA (845300000012) worknet, then re-run.",
    );
    let o = Json::object().with("address", Json::text(d.address.as_str())).with(
        "eligible",
        Json::Bool(false),
    ).with("via", Json::Null).with("ardi_worknet_id", Json::text("845300000014")).with(
        "kya_worknet_id",
        Json::text("845300000012"),
    ).with("min_stake_awp", Json::Num(amounts[0].json.clone())).with(
        "ve_awp_contract",
        Json::text("0x0000b534C63D78212f1BDCc315165852793A00A8"),
    ).with(
        "awp_allocator_contract",
        Json::text("0x0000D6BB5e040E35081b3AaF59DD71b21C9800AA"),
    ).with("all_allocations", list_allocs(v, amounts));
    Output::error_with_debug(
        join(&lines, "\n"),
        "NOT_STAKED",
        "stake",
        false,
        advice.as_str(),
        o,
        Internal::run("stake_required", "ardi-agent stake"),
    )
}

/// What the stake command prints, once the amounts are written in AWP.
pub open spec fn answer_v(d: Demand, v: Seq<CheckedAlloc>, amounts: Seq<Shown>) -> OutputV {
    match first_passing(v) {
        Some(i) => eligible_v(d, v, amounts, i),
        None => ineligible_v(d, v, amounts),
    }
}

/// The amounts that the answer shows: the threshold and the allocations.
pub open spec fn answer_amounts(min: u128, v: Seq<CheckedAlloc>) -> Seq<Amount> {
    seq![Amount { units: min, decimals: 18 }] + v.map_values(
        |a: CheckedAlloc| Amount { units: a.stake_wei, decimals: 18 },
    )
}

fn ask_amounts(min: u128, v: &Vec<CheckedAlloc>) -> (r: Action)
    ensures
        r@ == ActionV::Show(answer_amounts(min, v@)),
{
    let mut out: Vec<Amount> = Vec::new();
    out.push(Amount { units: min, decimals: 18 });
    let n = v.len();
    for i in 0..n
        invariant
            n == v@.len(),
            out@.len() == i + 1,
            out@[0] == (Amount { units: min, decimals: 18 }),
            forall|j: int|
                0 <= j < i ==> #[trigger] out@[j + 1] == (Amount {
                    units: v@[j].stake_wei,
                    decimals: 18,
                }),
    {
        out.push(Amount { units: v[i].stake_wei, decimals: 18 });
    }
    proof {
        let want = answer_amounts(min, v@);
        assert forall|k: int| 0 <= k < out@.len() implies out@[k] == want[k] by {
            if k > 0 {
                assert(out@[(k - 1) + 1] == want[k]);
            }
        }
        assert(out@ =~= want);
    }
    Action::Show(out)
}

/// What comes next with the threshold.
pub open spec fn demand_next(t: String, a: Address, stated: Option<nat>, r: Step<Stake, Outcome>) -> bool {
    if stated matches Some(n) && n > u128::MAX {
        fails(r, fault_v("minStake out of range"@))
    } else {
        &&& r matches Step::Act(Stake::RowsArdi(d), act)
        &&& d.address == t
        &&& d.agent == a
        &&& d.min_wei == (match stated {
            Some(n) => n,
            None => MIN_STAKE_DEFAULT_WEI as nat,
        })
        &&& d.from_chain == (stated is Some)
        &&& act@ == stakers_action(t@, true)
    }
}

fn with_demand(t: String, a: Address, stated: Option<U256>) -> (r: Step<Stake, Outcome>)
    ensures
        demand_next(
            t,
            a,
            match stated {
                Some(n) => Some(n@),
                None => None,
            },
            r,
        ),
{
    let (min_wei, from_chain) = match stated {
        Some(n) => match n.to_u128() {
            Some(m) => (m, true),
            None => {
                return fail(Fault::of("minStake out of range"));
            },
        },
        None => (MIN_STAKE_DEFAULT_WEI, false),
    };
    let act = allocations_by_agent_worknet(t.as_str(), worknet(true), None);
    Step::Act(Stake::RowsArdi(Demand { address: t, agent: a, min_wei, from_chain }), act)
}

/// What comes next in the stake command.
pub open spec fn stake_next(s: Stake, reply: Reply, r: Step<Stake, Outcome>) -> bool {
    match (s, reply) {
        (Stake::Address, Reply::Text(Ok(t))) => match parsed_address(t@) {
            None => fails(r, fault_v(address_error_text(t@))),
            Some(x) => {
                &&& r matches Step::Act(Stake::Draw(u, a), act)
                &&& u == t
                &&& a@ == x
                &&& act@ == ActionV::Env("ARDI_EPOCH_DRAW_ADDR"@)
            },
        },
        (Stake::Address, Reply::Text(Err(f))) => fails(r, f@),
        (Stake::Draw(t, a), Reply::Maybe(set)) => match parsed_address(
            set_or(opt_text_view(set), draw_default()),
        ) {
            None => demand_next(t, a, None, r),
            Some(x) => {
                &&& r matches Step::Act(Stake::Threshold(u, b), act)
                &&& u == t
                &&& b == a
                &&& act@ == ActionV::View(x, threshold_call())
            },
        },
        (Stake::Threshold(t, a), Reply::Bytes(b)) => demand_next(t, a, stated_threshold(b), r),
        (Stake::RowsArdi(d), Reply::Doc(x)) => {
            &&& r matches Step::Act(Stake::RowsKya(e, list), act)
            &&& e == d
            &&& lists(list@, backers(x, false).insert(d.agent@))
            &&& act@ == stakers_action(d.address@, false)
        },
        (Stake::RowsKya(d, list), Reply::Doc(x)) => {
            &&& r matches Step::Act(Stake::Probes(e, ps), act)
            &&& e == d
            &&& exists|stakers: Seq<Address>| #[trigger]
                lists(stakers, address_views(list@).to_set().union(backers(x, false))) && ps@
                    == probes_of(stakers)
            &&& act@ == ActionV::Views(allocation_calls(ps@, d.agent@))
        },
        (Stake::Probes(d, ps), Reply::ManyBytes(v)) => if !in_range(ps@.len(), v@) {
            fails(r, fault_v("stake out of range"@))
        } else {
            &&& r matches Step::Act(Stake::Amounts(e, list), act)
            &&& e == d
            &&& list@ == found_allocs(ps@, v@, d.min_wei)
            &&& act@ == ActionV::Show(answer_amounts(d.min_wei, list@))
        },
        (Stake::Amounts(d, list), Reply::Shown(v)) => if v@.len() == list@.len() + 1 {
            prints(r, answer_v(d, list@, v@))
        } else {
            fails(r, stray_v())
        },
        _ => fails(r, stray_v()),
    }
}

/// Starts the stake command.
pub fn run() -> (r: Step<Stake, Outcome>)
    ensures
        r matches Step::Act(Stake::Address, a) && a@ == ActionV::Address,
{
    Step::Act(Stake::Address, Action::Address)
}

impl Stake {
    /// Goes on with the reply.
    pub fn step(self, reply: Reply) -> (r: Step<Stake, Outcome>)
        ensures
            stake_next(self, reply, r),
    {
        match (self, reply) {
            (Stake::Address, Reply::Text(Ok(t))) => match Address::parse(t.as_str()) {
                Err(e) => fail(Fault::new(e)),
                Ok(a) => Step::Act(
                    Stake::Draw(t, a),
                    Action::Env("ARDI_EPOCH_DRAW_ADDR".to_owned()),
                ),
            },
            (Stake::Address, Reply::Text(Err(f))) => fail(f),
            (Stake::Draw(t, a), Reply::Maybe(set)) => match draw_address(set) {
                None => with_demand(t, a, None),
                Some(x) => Step::Act(Stake::Threshold(t, a), Action::View(x, call0("minStake()"))),
            },
            (Stake::Threshold(t, a), Reply::Bytes(b)) => with_demand(t, a, read_min_stake_wei(&b)),
            (Stake::RowsArdi(d), Reply::Doc(x)) => {
                let list = first_stakers(d.agent, &x);
                let act = allocations_by_agent_worknet(d.address.as_str(), worknet(false), None);
                Step::Act(Stake::RowsKya(d, list), act)
            },
            (Stake::RowsKya(d, list), Reply::Doc(x)) => {
                let stakers = more_stakers(&list, &x);
                let ps = probes(&stakers);
                let calls = ask_allocations(&ps, &d.agent);
                assert(lists(stakers@, address_views(list@).to_set().union(backers(x, false))));
                Step::Act(Stake::Probes(d, ps), Action::Views(calls))
            },
            (Stake::Probes(d, ps), Reply::ManyBytes(v)) => match find_allocs(&ps, &v, d.min_wei) {
                None => fail(Fault::of("stake out of range")),
                Some(list) => {
                    let act = ask_amounts(d.min_wei, &list);
                    Step::Act(Stake::Amounts(d, list), act)
                },
            },
            (Stake::Amounts(d, list), Reply::Shown(v)) => {
                if v.len() == 0 || v.len() - 1 != list.len() {
                    return fail(stray());
                }
                match find_passing(&list) {
                    Some(i) => print(eligible(&d, &list, &v, i)),
                    None => print(ineligible(&d, &list, &v)),
                }
            },
            _ => fail(stray()),
        }
    }
}

/// An allocation that reaches the threshold by itself makes the sum of the allocations reach it.
pub proof fn law_total_reaches_each(replies: Seq<Result<Vec<u8>, Fault>>, k: int, min: nat)
    requires
        0 <= k < replies.len(),
        stated_amount(replies[k]) >= min,
        min < word_base(),
    ensures
        stated_total(replies) >= min,
    decreases replies.len(),
{
    if k < replies.len() - 1 {
        law_total_reaches_each(replies.drop_last(), k, min);
        assert(replies.drop_last()[k] == replies[k]);
    }
}

/// The question for one allocation names the staker, then the agent, then the worknet.
proof fn lemma_allocation_call(p: Probe, agent: Seq<u8>)
    requires
        agent.len() == 20,
    ensures
        ({
            let data = allocation_call(p, agent).1;
            &&& allocation_call(p, agent).0 == awp_allocator_bytes()
            &&& data.take(4) == selector_of("getAgentStake(address,address,uint256)"@)
            &&& address_result(arg_at(data, 0)) == Ok::<Seq<u8>, Seq<char>>(p.staker@)
            &&& address_result(arg_at(data, 1)) == Ok::<Seq<u8>, Seq<char>>(agent)
            &&& be_number(arg_at(data, 2)) == (if p.ardi { 845_300_000_014nat } else { 845_300_000_012 })
        }),
{
    lemma_word_lengths();
        let args = seq![address_word(p.staker@), address_word(agent), be_word(worknet_number(p.ardi))];
        lemma_static_args("getAgentStake(address,address,uint256)"@, args);
        assert(arg_at(static_call("getAgentStake(address,address,uint256)"@, args), 0) == address_word(p.staker@));
        assert(arg_at(static_call("getAgentStake(address,address,uint256)"@, args), 1) == address_word(agent));
        assert(arg_at(static_call("getAgentStake(address,address,uint256)"@, args), 2) == be_word(worknet_number(p.ardi)));
}

/// Every staker is asked about on both worknets, one after the other: 845300000014, then 845300000012.
pub proof fn law_every_staker_is_probed(stakers: Seq<Address>)
    ensures
        probes_of(stakers).len() == 2 * stakers.len(),
        forall|i: int|
            0 <= i < stakers.len() ==> (#[trigger] stakers[i]) == probes_of(stakers)[2 * i].staker && stakers[i]
                == probes_of(stakers)[2 * i + 1].staker && probes_of(stakers)[2 * i].ardi && !probes_of(
                stakers,
            )[2 * i + 1].ardi,
    decreases stakers.len(),
{
    if stakers.len() > 0 {
        let front = stakers.drop_last();
        law_every_staker_is_probed(front);
        assert forall|i: int| 0 <= i < stakers.len() implies (#[trigger] stakers[i]) == probes_of(stakers)[2
            * i].staker && stakers[i] == probes_of(stakers)[2 * i + 1].staker && probes_of(stakers)[2 * i].ardi
            && !probes_of(stakers)[2 * i + 1].ardi by {
            if i < front.len() {
                assert(front[i] == stakers[i]);
                assert(probes_of(stakers)[2 * i] == probes_of(front)[2 * i]);
                assert(probes_of(stakers)[2 * i + 1] == probes_of(front)[2 * i + 1]);
            }
        }
    }
}

/// Every allocation that the stake command reads is one to the agent: call by call, by the staker that is asked
/// about, to the agent, on the worknet that is asked about.
pub proof fn law_stake_reads_allocations_to_the_agent(s: Stake, reply: Reply, r: Step<Stake, Outcome>)
    requires
        stake_next(s, reply, r),
    ensures
        r matches Step::Act(Stake::Probes(d, ps), a) ==> ({
            &&& a@ matches ActionV::Views(v)
            &&& v.len() == ps@.len()
            &&& forall|k: int|
                0 <= k < v.len() ==> ({
                    let data = (#[trigger] v[k]).1;
                    &&& v[k].0 == awp_allocator_bytes()
                    &&& data.take(4) == selector_of("getAgentStake(address,address,uint256)"@)
                    &&& address_result(arg_at(data, 0)) == Ok::<Seq<u8>, Seq<char>>(ps@[k].staker@)
                    &&& address_result(arg_at(data, 1)) == Ok::<Seq<u8>, Seq<char>>(d.agent@)
                    &&& be_number(arg_at(data, 2)) == (if ps@[k].ardi { 845_300_000_014nat } else { 845_300_000_012 })
                })
        }),
{
    if let Step::Act(Stake::Probes(d, ps), a) = r {
        let v = allocation_calls(ps@, d.agent@);
        assert forall|k: int| 0 <= k < v.len() implies (#[trigger] v[k]) == allocation_call(ps@[k], d.agent@) && v[k].0
            == awp_allocator_bytes() && ({
            let data = v[k].1;
            &&& data.take(4) == selector_of("getAgentStake(address,address,uint256)"@)
            &&& address_result(arg_at(data, 0)) == Ok::<Seq<u8>, Seq<char>>(ps@[k].staker@)
            &&& address_result(arg_at(data, 1)) == Ok::<Seq<u8>, Seq<char>>(d.agent@)
            &&& be_number(arg_at(data, 2)) == (if ps@[k].ardi { 845_300_000_014nat } else { 845_300_000_012 })
        }) by {
            lemma_allocation_call(ps@[k], d.agent@);
        }
    }
}

/// The check for eligibility reads allocations to the agent alone, and misses no backer: whoever is known to back the
/// agent is asked about on both worknets.
pub proof fn law_eligibility_reads_allocations_to_the_agent(
    s: Eligibility,
    reply: Reply,
    r: Step<Eligibility, Result<bool, Fault>>,
    b: Seq<u8>,
)
    requires
        eligibility_next(s, reply, r),
    ensures
        r matches Step::Act(Eligibility::Probes(_), a) ==> ({
            &&& s matches Eligibility::RowsKya(_, agent, _, list)
            &&& reply matches Reply::Doc(d)
            &&& a@ matches ActionV::Views(v)
            &&& forall|k: int|
                0 <= k < v.len() ==> ({
                    let data = (#[trigger] v[k]).1;
                    &&& v[k].0 == awp_allocator_bytes()
                    &&& data.take(4) == selector_of("getAgentStake(address,address,uint256)"@)
                    &&& address_result(arg_at(data, 1)) == Ok::<Seq<u8>, Seq<char>>(agent@)
                })
            &&& address_views(list@).contains(b) || backers(d, false).contains(b) ==> (exists|k: int|
                0 <= k < v.len() && address_result(arg_at((#[trigger] v[k]).1, 0)) == Ok::<Seq<u8>, Seq<char>>(b) && be_number(
                    arg_at(v[k].1, 2),
                ) == 845_300_000_014) && (exists|k: int|
                0 <= k < v.len() && address_result(arg_at((#[trigger] v[k]).1, 0)) == Ok::<Seq<u8>, Seq<char>>(b) && be_number(
                    arg_at(v[k].1, 2),
                ) == 845_300_000_012)
        }),
{
    if let (Step::Act(Eligibility::Probes(_), a), Eligibility::RowsKya(_, agent, _, list), Reply::Doc(d)) = (
        r,
        s,
        reply,
    ) {
        let members = address_views(list@).to_set().union(backers(d, false));
        let stakers = choose|stakers: Seq<Address>| #[trigger]
            lists(stakers, members) && a@ == ActionV::Views(allocation_calls(probes_of(stakers), agent@));
        let ps = probes_of(stakers);
        let v = allocation_calls(ps, agent@);
        assert forall|k: int| 0 <= k < v.len() implies (#[trigger] v[k]) == allocation_call(ps[k], agent@) && v[k].0
            == awp_allocator_bytes() && ({
            let data = v[k].1;
            &&& data.take(4) == selector_of("getAgentStake(address,address,uint256)"@)
            &&& address_result(arg_at(data, 0)) == Ok::<Seq<u8>, Seq<char>>(ps[k].staker@)
            &&& address_result(arg_at(data, 1)) == Ok::<Seq<u8>, Seq<char>>(agent@)
            &&& be_number(arg_at(data, 2)) == (if ps[k].ardi { 845_300_000_014nat } else { 845_300_000_012 })
        }) by {
            lemma_allocation_call(ps[k], agent@);
        }
        law_every_staker_is_probed(stakers);
        if address_views(list@).contains(b) || backers(d, false).contains(b) {
            assert(members.contains(b));
            assert(address_views(stakers).to_set().contains(b));
            let i = choose|i: int| 0 <= i < address_views(stakers).len() && address_views(stakers)[i] == b;
            assert(stakers[i]@ == b);
            assert(v[2 * i].0 == awp_allocator_bytes());
            assert(v[2 * i + 1].0 == awp_allocator_bytes());
        }
    }
}

/// The agent itself is among those who are asked about.
pub proof fn law_agent_is_asked_about(s: Eligibility, reply: Reply, r: Step<Eligibility, Result<bool, Fault>>)
    requires
        eligibility_next(s, reply, r),
    ensures
        r matches Step::Act(Eligibility::RowsKya(_, agent, _, list), _) ==> address_views(list@).contains(agent@),
{
    if let (Step::Act(Eligibility::RowsKya(_, agent, _, list), _), Eligibility::RowsArdi(_, _, _), Reply::Doc(d)) = (
        r,
        s,
        reply,
    ) {
        assert(backers(d, false).insert(agent@).contains(agent@));
        assert(address_views(list@).to_set().contains(agent@));
    }
}

/// The allocations add up: one more reply adds what it states as a number, nothing where it states none, and the
/// total stays at the largest number of the chain where the sum is larger.
pub proof fn law_total_adds(replies: Seq<Result<Vec<u8>, Fault>>, x: Result<Vec<u8>, Fault>)
    ensures
        stated_total(Seq::empty()) == 0,
        ({
            let n = match x {
                Ok(raw) => if raw@.len() == 32 {
                    be_number(raw@)
                } else {
                    0
                },
                Err(_) => 0,
            };
            let sum = stated_total(replies) + n;
            stated_total(replies.push(x)) == (if sum < word_base() {
                sum
            } else {
                (word_base() - 1) as nat
            })
        }),
{
    assert(replies.push(x).drop_last() =~= replies);
}

/// The agent is eligible exactly where the allocations, or the stakes that the network states on the two worknets,
/// add up to the stake that is needed.
pub proof fn law_eligible_is_reaching_the_threshold(
    s: Eligibility,
    reply: Reply,
    r: Step<Eligibility, Result<bool, Fault>>,
)
    requires
        eligibility_next(s, reply, r),
    ensures
        s matches Eligibility::Probes(min) ==> (reply matches Reply::ManyBytes(v) ==> (r matches Step::End(Ok(yes))
            && (yes <==> stated_total(v@) >= min@))),
        s matches Eligibility::FastKya(_, _, min, ardi) ==> (reply matches Reply::Doc(Ok(d)) ==> (stake_amount(
            d@,
        ) matches Ok(t) ==> (parsed_u256(t) matches Some(kya) ==> (r matches Step::End(Ok(yes)) && (yes <==> ardi@
            + kya >= min@))))),
        s matches Eligibility::FastArdi(_, _, _) ==> (reply matches Reply::Doc(Ok(d)) ==> (stake_amount(
            d@,
        ) matches Ok(t) ==> (parsed_u256(t) matches Some(ardi) ==> (r matches Step::Act(
            Eligibility::FastKya(_, _, _, total),
            _,
        ) && total@ == ardi)))),
        s matches Eligibility::Threshold(_, _) ==> (reply matches Reply::Bytes(Ok(raw)) ==> (raw@.len() == 32 ==> (
        r matches Step::Act(Eligibility::FastArdi(_, _, min), _) && min@ == be_number(raw@)))),
        r matches Step::Act(Eligibility::FastArdi(_, _, min), _) ==> (s is Threshold && (reply matches Reply::Bytes(
            Ok(raw),
        ) && raw@.len() == 32)) || min@ == 10_000_000_000_000_000_000_000,
{
    if let Eligibility::FastKya(_, _, min, ardi) = s {
        lemma_u256_bound(min);
        lemma_u256_bound(ardi);
    }
}

/// What the stake command lists is what was asked about: each allocation has the staker and the worknet of a question,
/// the amount that the chain stated in reply, which is not zero, and passes exactly where that reaches the threshold.
pub proof fn law_listed_allocation_was_stated(
    ps: Seq<Probe>,
    replies: Seq<Result<Vec<u8>, Fault>>,
    min: u128,
    j: int,
) -> (k: int)
    requires
        in_range(ps.len(), replies),
        0 <= j < found_allocs(ps, replies, min).len(),
    ensures
        0 <= k < ps.len(),
        found_allocs(ps, replies, min)[j].staker == ps[k].staker,
        found_allocs(ps, replies, min)[j].ardi == ps[k].ardi,
        found_allocs(ps, replies, min)[j].stake_wei == amount_at(replies, k),
        found_allocs(ps, replies, min)[j].stake_wei > 0,
        found_allocs(ps, replies, min)[j].passes <==> found_allocs(ps, replies, min)[j].stake_wei >= min,
    decreases ps.len(),
{
    let last = ps.len() - 1;
    let front = ps.drop_last();
    let a = found_allocs(front, replies, min);
    assert(amount_at(replies, last) <= u128::MAX);
    assert(in_range(front.len(), replies));
    if j < a.len() {
        let k = law_listed_allocation_was_stated(front, replies, min, j);
        assert(found_allocs(ps, replies, min)[j] == a[j]);
        k
    } else {
        last
    }
}

/// No allocation that the chain stated is left out of the list.
pub proof fn law_stated_allocation_is_listed(
    ps: Seq<Probe>,
    replies: Seq<Result<Vec<u8>, Fault>>,
    min: u128,
    k: int,
) -> (j: int)
    requires
        in_range(ps.len(), replies),
        0 <= k < ps.len(),
        amount_at(replies, k) > 0,
    ensures
        0 <= j < found_allocs(ps, replies, min).len(),
        found_allocs(ps, replies, min)[j].staker == ps[k].staker,
        found_allocs(ps, replies, min)[j].ardi == ps[k].ardi,
        found_allocs(ps, replies, min)[j].stake_wei == amount_at(replies, k),
    decreases ps.len(),
{
    let last = ps.len() - 1;
    let front = ps.drop_last();
    let a = found_allocs(front, replies, min);
    assert(amount_at(replies, last) <= u128::MAX);
    assert(in_range(front.len(), replies));
    if k < last {
        let j = law_stated_allocation_is_listed(front, replies, min, k);
        assert(found_allocs(ps, replies, min)[j] == a[j]);
        j
    } else {
        a.len() as int
    }
}

/// The allocation that is chosen is the first one that reaches the threshold.
pub proof fn law_first_that_passes_is_chosen(v: Seq<CheckedAlloc>)
    ensures
        match first_passing(v) {
            Some(i) => 0 <= i < v.len() && v[i].passes && forall|j: int| 0 <= j < i ==> !(#[trigger] v[j]).passes,
            None => forall|j: int| 0 <= j < v.len() ==> !(#[trigger] v[j]).passes,
        },
    decreases v.len(),
{
    if v.len() > 0 {
        let front = v.drop_last();
        law_first_that_passes_is_chosen(front);
        assert forall|j: int| 0 <= j < front.len() implies front[j] == #[trigger] v[j] by {
        }
    }
}

/// The stake command answers that the agent is eligible exactly where some allocation alone reaches the threshold, and
/// then names the staker, the worknet and the amount of the first such allocation.
pub proof fn law_stake_answer(d: Demand, v: Seq<CheckedAlloc>, amounts: Seq<Shown>, i: int)
    requires
        0 <= i < v.len(),
        v[i].passes,
        forall|j: int| 0 <= j < i ==> !(#[trigger] v[j]).passes,
    ensures
        answer_v(d, v, amounts).status == "ok"@,
        member(answer_v(d, v, amounts).data, "address"@) == Some(JsonV::Str(d.address@)),
        member(answer_v(d, v, amounts).data, "eligible"@) == Some(JsonV::Bool(true)),
        member(answer_v(d, v, amounts).data, "chosen_staker"@) == Some(JsonV::Str(hex_0x(v[i].staker@))),
        member(answer_v(d, v, amounts).data, "chosen_worknet_id"@) == Some(
            JsonV::Str(
                if v[i].ardi {
                    "845300000014"@
                } else {
                    "845300000012"@
                },
            ),
        ),
        member(answer_v(d, v, amounts).data, "chosen_stake_awp"@) == Some(JsonV::Num(amounts[i + 1].json@)),
        member(answer_v(d, v, amounts).data, "min_stake_awp"@) == Some(JsonV::Num(amounts[0].json@)),
{
    law_first_that_passes_is_chosen(v);
    reveal_strlit("address");
    reveal_strlit("eligible");
    reveal_strlit("via");
    reveal_strlit("chosen_staker");
    reveal_strlit("chosen_worknet_id");
    reveal_strlit("chosen_stake_awp");
    reveal_strlit("min_stake_awp");
    reveal_strlit("all_allocations");
    assert("address"@.len() == 7);
    assert("eligible"@.len() == 8);
    assert("via"@.len() == 3);
    assert("chosen_staker"@.len() == 13 && "chosen_staker"@[0] == 'c');
    assert("min_stake_awp"@.len() == 13 && "min_stake_awp"@[0] == 'm');
    assert("chosen_worknet_id"@.len() == 17);
    assert("chosen_stake_awp"@.len() == 16);
    assert("all_allocations"@.len() == 15);
}

/// Where no allocation reaches the threshold by itself, the stake command answers that the agent is not staked.
pub proof fn law_not_staked_answer(d: Demand, v: Seq<CheckedAlloc>, amounts: Seq<Shown>)
    requires
        forall|j: int| 0 <= j < v.len() ==> !(#[trigger] v[j]).passes,
    ensures
        answer_v(d, v, amounts).status == "error"@,
        answer_v(d, v, amounts).error_code == Some("NOT_STAKED"@),
{
    law_first_that_passes_is_chosen(v);
}

/// An allocation is what its own reply states: the number in its one word, and nothing where it is no number.
pub proof fn law_amount_is_its_reply(replies: Seq<Result<Vec<u8>, Fault>>, k: int)
    requires
        0 <= k < replies.len(),
    ensures
        replies[k] matches Ok(raw) ==> amount_at(replies, k) == (if raw@.len() == 32 {
            be_number(raw@)
        } else {
            0
        }),
        replies[k] is Err ==> amount_at(replies, k) == 0,
{
}

/// An allocation is told with its staker, its worknet, its amount and whether it passes.
pub proof fn law_allocation_is_told(a: CheckedAlloc, amount: Seq<char>)
    ensures
        member(alloc_data(a, amount), "staker"@) == Some(JsonV::Str(hex_0x(a.staker@))),
        member(alloc_data(a, amount), "worknet_id"@) == Some(JsonV::Str(if a.ardi { "845300000014"@ } else { "845300000012"@ })),
        member(alloc_data(a, amount), "stake_awp"@) == Some(JsonV::Num(amount)),
        member(alloc_data(a, amount), "passes"@) == Some(JsonV::Bool(a.passes)),
{
    reveal_strlit("staker");
    reveal_strlit("worknet_id");
    reveal_strlit("stake_awp");
    reveal_strlit("passes");
    assert("staker"@.len() == 6 && "staker"@[0] == 's');
    assert("passes"@.len() == 6 && "passes"@[0] == 'p');
    assert("worknet_id"@.len() == 10);
    assert("stake_awp"@.len() == 9);
}

/// The network is asked about the agent on both worknets: on 845300000014 first, then on 845300000012.
pub proof fn law_both_worknets_are_asked(s: Eligibility, reply: Reply, r: Step<Eligibility, Result<bool, Fault>>)
    requires
        eligibility_next(s, reply, r),
    ensures
        r matches Step::Act(Eligibility::FastArdi(t, _, _), a) ==> a@ == ActionV::Awp(
            "staking.getAgentWorknetStake"@,
            allocations_params_v(t@, "845300000014"@, None),
        ),
        r matches Step::Act(Eligibility::FastKya(t, _, _, _), a) ==> a@ == ActionV::Awp(
            "staking.getAgentWorknetStake"@,
            allocations_params_v(t@, "845300000012"@, None),
        ),
        r matches Step::Act(Eligibility::RowsArdi(t, _, _), a) ==> a@ == ActionV::Awp(
            "staking.getAllocationsByAgentSubnet"@,
            allocations_params_v(t@, "845300000014"@, None),
        ),
        r matches Step::Act(Eligibility::RowsKya(t, _, _, _), a) ==> a@ == ActionV::Awp(
            "staking.getAllocationsByAgentSubnet"@,
            allocations_params_v(t@, "845300000012"@, None),
        ),
        r matches Step::Act(Eligibility::FastArdi(t, b, _), _) ==> s == Eligibility::Draw(t, b) || s
            == Eligibility::Threshold(t, b),
        r matches Step::Act(Eligibility::Threshold(t, b), a) ==> s == Eligibility::Draw(t, b) && (a@ matches ActionV::View(
            _,
            data,
        ) && data == selector_of("minStake()"@)),
{
    if let Step::Act(Eligibility::Threshold(_, _), _) = r {
        lemma_static_args("minStake()"@, Seq::empty());
        let d = static_call("minStake()"@, Seq::empty());
        assert(d =~= d.take(4));
    }
}

/// The stake command asks about the same agent throughout: the backers of the agent on both worknets, the agent itself
/// among them, and the threshold that the chain states.
pub proof fn law_stake_asks_about_the_agent(s: Stake, reply: Reply, r: Step<Stake, Outcome>, b: Seq<u8>)
    requires
        stake_next(s, reply, r),
    ensures
        r matches Step::Act(Stake::Draw(t, agent), _) ==> s is Address && reply == Reply::Text(Ok::<String, Fault>(t))
            && Some(agent@) == parsed_address(t@),
        r matches Step::Act(Stake::RowsArdi(d), a) ==> ({
            &&& a@ == ActionV::Awp(
                "staking.getAllocationsByAgentSubnet"@,
                allocations_params_v(d.address@, "845300000014"@, None),
            )
            &&& s matches Stake::Threshold(t, agent) ==> t == d.address && agent == d.agent && (
            reply matches Reply::Bytes(x) && (x is Ok && x->Ok_0@.len() == 32 ==> d.from_chain && d.min_wei == be_number(
                x->Ok_0@,
            )) && (x is Err || x->Ok_0@.len() != 32 ==> !d.from_chain && d.min_wei == 10_000_000_000_000_000_000_000))
        }),
        r matches Step::Act(Stake::RowsKya(d, list), a) ==> ({
            &&& s == Stake::RowsArdi(d)
            &&& a@ == ActionV::Awp(
                "staking.getAllocationsByAgentSubnet"@,
                allocations_params_v(d.address@, "845300000012"@, None),
            )
            &&& reply matches Reply::Doc(x)
            &&& address_views(list@).contains(b) <==> b == d.agent@ || backers(x, false).contains(b)
        }),
        r matches Step::Act(Stake::Probes(d, ps), _) ==> ({
            &&& s matches Stake::RowsKya(e, list)
            &&& e == d
            &&& reply matches Reply::Doc(x)
            &&& address_views(list@).contains(b) || backers(x, false).contains(b) ==> (exists|k: int|
                0 <= k < ps@.len() && (#[trigger] ps@[k]).staker@ == b && ps@[k].ardi) && (exists|k: int|
                0 <= k < ps@.len() && (#[trigger] ps@[k]).staker@ == b && !ps@[k].ardi)
        }),
        r matches Step::Act(Stake::Amounts(d, list), _) ==> (s matches Stake::Probes(e, ps) && e == d && (
        reply matches Reply::ManyBytes(v) && list@ == found_allocs(ps@, v@, d.min_wei))),
{
    if let (Step::Act(Stake::RowsKya(d, list), _), Reply::Doc(x)) = (r, reply) {
        let set = backers(x, false).insert(d.agent@);
        assert(address_views(list@).to_set().contains(b) == set.contains(b));
    }
    if let (Step::Act(Stake::Probes(d, ps), _), Stake::RowsKya(_, list), Reply::Doc(x)) = (r, s, reply) {
        let members = address_views(list@).to_set().union(backers(x, false));
        let stakers = choose|stakers: Seq<Address>| #[trigger] lists(stakers, members) && ps@ == probes_of(stakers);
        law_every_staker_is_probed(stakers);
        if address_views(list@).contains(b) || backers(x, false).contains(b) {
            assert(members.contains(b));
            assert(address_views(stakers).to_set().contains(b));
            let i = choose|i: int| 0 <= i < address_views(stakers).len() && address_views(stakers)[i] == b;
            assert(stakers[i]@ == b);
            assert(ps@[2 * i].staker@ == b && ps@[2 * i].ardi);
            assert(ps@[2 * i + 1].staker@ == b && !ps@[2 * i + 1].ardi);
        }
    }
}

/// The amounts that are shown are the threshold and, behind it, the allocations in the order of the list.
pub proof fn law_shown_amounts_are_the_allocations(min: u128, v: Seq<CheckedAlloc>, i: int)
    requires
        0 <= i < v.len(),
    ensures
        answer_amounts(min, v).len() == v.len() + 1,
        answer_amounts(min, v)[0].units == min && answer_amounts(min, v)[0].decimals == 18,
        answer_amounts(min, v)[i + 1].units == v[i].stake_wei && answer_amounts(min, v)[i + 1].decimals == 18,
{
}

/// The list of allocations has one entry for each, with its own amount.
pub proof fn law_allocations_keep_their_amounts(v: Seq<CheckedAlloc>, amounts: Seq<Shown>, i: int)
    requires
        0 <= i < v.len(),
    ensures
        alloc_list(v, amounts) matches JsonV::Arr(a) && a.len() == v.len() && a[i] == alloc_data(v[i], amounts[i + 1].json@),
        alloc_lines(v, amounts).len() == v.len(),
        alloc_lines(v, amounts)[i] == alloc_line(v[i], amounts[i + 1].d2@),
{
}

/// The stake command asks for the draw contract that is set before it falls back to the known one.
pub proof fn law_draw_contract_that_is_set(s: Stake, reply: Reply, r: Step<Stake, Outcome>)
    requires
        stake_next(s, reply, r),
    ensures
        r matches Step::Act(Stake::Draw(_, _), a) ==> a@ == ActionV::Env("ARDI_EPOCH_DRAW_ADDR"@),
        s matches Stake::Draw(t, agent) ==> (reply matches Reply::Maybe(Some(x)) ==> (parsed_address(x@) matches Some(to) ==> (
        r matches Step::Act(Stake::Threshold(u, b), a) && u == t && b == agent && (a@ matches ActionV::View(c, data) && c == to
            && data == selector_of("minStake()"@))))),
{
    lemma_static_args("minStake()"@, Seq::empty());
    let d = static_call("minStake()"@, Seq::empty());
    assert(d =~= d.take(4));
}

/// The guide names the amount where it speaks of AWP and the address where it speaks of the agent.
pub proof fn law_guide_names_amount_and_agent(address: Seq<char>, min: Seq<char>)
    ensures
        guide_lines(address, min).contains("    "@ + min + " AWP into worknet 845300000012. Wait 1-24h."@),
        guide_lines(address, min).contains("    Connect wallet, lock >= "@ + min + " AWP, allocate to:"@),
        guide_lines(address, min).contains("    Your agent address: "@ + address),
        guide_lines(address, min).contains("      agent: "@ + address),
{
    let g = guide_lines(address, min);
    assert(g[6] == "    "@ + min + " AWP into worknet 845300000012. Wait 1-24h."@);
    assert(g[13] == "    Your agent address: "@ + address);
    assert(g[17] == "    Connect wallet, lock >= "@ + min + " AWP, allocate to:"@);
    assert(g[18] == "      agent: "@ + address);
}

} // verus!
