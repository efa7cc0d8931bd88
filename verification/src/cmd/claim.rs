//! claim: collect the rewards that the tokens of the agent have earned.
use vstd::prelude::*;

use crate::address::{address_error_text, parsed_address, Address};
use crate::bytes::be_number;
use crate::chain::{address_result, read_uint, selector_of, uint_result};
use crate::cmd::contracts::{contract_result, find_contract};
use crate::fault::{fault_v, Fault};
use crate::flow::{
    fail, fails, print, prints, stray, stray_v, unsettled, unsettled_v, Action, ActionV, Outcome, Reply,
    Step, TxRequest, TxRequestV,
};
use crate::json::{empty_object, member, numbers_v, with_member, Json, JsonV};
use crate::num::dec_text;
use crate::output::{next_v, success_v, Internal, Output, OutputV};
use crate::schema::opt_text_view;
use crate::text::cat5;
use crate::tx::{calldata_claim, calldata_pending, claim_call, law_claim_data, law_pending_data, pending_call};
use crate::u256::U256;

verus! {

/// The claim command.
pub enum Claim {
    /// The agent's address is looked for.
    Address(Vec<u64>),
    /// The configuration is fetched.
    Contracts(Vec<u64>, Address),
    /// The contract that is set is asked for.
    Distributor(Vec<u64>, Address, Json),
    /// What can be claimed is read.
    Pending(Vec<u64>, Address, Address),
    /// The transaction is made.
    Tx(Vec<u64>, U256),
}

/// The error where the contract is not known.
pub open spec fn no_distributor() -> Seq<char> {
    "server didn't return emission_distributor; set EMISSION_DISTRIBUTOR_ADDR env"@
}

/// The output where there is nothing to claim.
pub open spec fn nothing_v() -> OutputV {
    success_v(
        "Nothing to claim - pending balance is zero."@,
        with_member(empty_object(), "pending_wei"@, JsonV::Str("0"@)),
        next_v("skip"@, None),
    )
}

fn nothing() -> (r: Output)
    ensures
        r@ == nothing_v(),
{
    Output::success(
        "Nothing to claim - pending balance is zero.".to_owned(),
        Json::object().with("pending_wei", Json::text("0")),
        Internal::stop("skip"),
    )
}

/// The output of a claim that was made.
pub open spec fn claimed_v(tokens: Seq<u64>, pending: nat, tx: Seq<char>) -> OutputV {
    let o = with_member(empty_object(), "claim_tx"@, JsonV::Str(tx));
    let o = with_member(o, "amount_wei"@, JsonV::Str(dec_text(pending)));
    let o = with_member(o, "tokens"@, numbers_v(tokens));
    success_v(
        "Claimed "@ + dec_text(pending) + " ardi (tx "@ + tx + ")."@,
        o,
        next_v("done"@, None),
    )
}

/// The output of a claim that was made.
pub fn claimed(tokens: &Vec<u64>, pending: &U256, tx: &str) -> (r: Output)
    ensures
        r@ == claimed_v(tokens@, pending@, tx@),
{
    let n = pending.decimal();
    let m = cat5("Claimed ", n.as_str(), " ardi (tx ", tx, ").");
    let o = Json::object().with("claim_tx", Json::text(tx)).with("amount_wei", Json::Str(n)).with(
        "tokens",
        Json::numbers(tokens),
    );
    Output::success(m, o, Internal::stop("done"))
}

/// What comes next with the reply that states what can be claimed.
pub open spec fn pending_next(tokens: Vec<u64>, agent: Address, dist: Address, raw: Seq<u8>, r: Step<Claim, Outcome>) -> bool {
    match uint_result(raw) {
        Err(e) => fails(r, fault_v(e)),
        Ok(pending) => if pending == 0 {
            prints(r, nothing_v())
        } else {
            &&& r matches Step::Act(Claim::Tx(t, n), a)
            &&& t == tokens
            &&& n@ == pending
            &&& a@ == ActionV::Transact(
                TxRequestV {
                    from: agent@,
                    to: dist@,
                    data: claim_call(tokens@),
                    value_wei: 0,
                    gas_limit: 200_000,
                },
            )
        },
    }
}

/// Goes on with the reply that states what can be claimed.
pub fn with_pending(tokens: Vec<u64>, agent: Address, dist: Address, raw: &Vec<u8>) -> (r: Step<Claim, Outcome>)
    ensures
        pending_next(tokens, agent, dist, raw@, r),
{
    match read_uint(raw) {
        Err(e) => fail(Fault::new(e)),
        Ok(pending) => {
            if pending.is_zero() {
                return print(nothing());
            }
            let t = TxRequest {
                from: agent,
                to: dist,
                data: calldata_claim(&tokens),
                value_wei: 0,
                gas_limit: 200_000,
            };
            Step::Act(Claim::Tx(tokens, pending), Action::Transact(t))
        },
    }
}

/// What comes next in the claim command.
pub open spec fn claim_next(s: Claim, reply: Reply, r: Step<Claim, Outcome>) -> bool {
    match (s, reply) {
        (Claim::Address(tokens), Reply::Text(Ok(t))) => match parsed_address(t@) {
            None => fails(r, fault_v(address_error_text(t@))),
            Some(x) => {
                &&& r matches Step::Act(Claim::Contracts(v, agent), a)
                &&& v == tokens
                &&& agent@ == x
                &&& a@ == ActionV::Contracts
            },
        },
        (Claim::Address(_), Reply::Text(Err(f))) => fails(r, f@),
        (Claim::Contracts(tokens, agent), Reply::Doc(Ok(cfg))) => {
            &&& r matches Step::Act(Claim::Distributor(v, b, c), a)
            &&& v == tokens
            &&& b == agent
            &&& c == cfg
            &&& a@ == ActionV::Env("EMISSION_DISTRIBUTOR_ADDR"@)
        },
        (Claim::Distributor(tokens, agent, cfg), Reply::Maybe(set)) => match contract_result(
            cfg@,
            "emission_distributor"@,
            opt_text_view(set),
            no_distributor(),
        ) {
            Err(f) => fails(r, f),
            Ok(to) => {
                &&& r matches Step::Act(Claim::Pending(v, b, d), a)
                &&& v == tokens
                &&& b == agent
                &&& d@ == to
                &&& a@ == ActionV::View(to, pending_call(agent@, tokens@))
            },
        },
        (Claim::Pending(tokens, agent, dist), Reply::Bytes(Ok(raw))) => pending_next(
            tokens,
            agent,
            dist,
            raw@,
            r,
        ),
        (Claim::Pending(_, _, _), Reply::Bytes(Err(f))) => fails(r, f@),
        (Claim::Tx(tokens, n), Reply::Sent(Ok((h, true)))) => prints(r, claimed_v(tokens@, n@, h@)),
        (Claim::Tx(_, _), Reply::Sent(e)) => fails(r, unsettled_v(e, "send claim tx"@)),
        _ => fails(r, stray_v()),
    }
}

/// Starts the claim command.
pub fn run(token_ids: Vec<u64>) -> (r: Step<Claim, Outcome>)
    ensures
        r matches Step::Act(Claim::Address(v), a) && v == token_ids && a@ == ActionV::Address,
{
    Step::Act(Claim::Address(token_ids), Action::Address)
}

impl Claim {
    /// Goes on with the reply.
    pub fn step(self, reply: Reply) -> (r: Step<Claim, Outcome>)
        ensures
            claim_next(self, reply, r),
    {
        match (self, reply) {
            (Claim::Address(tokens), Reply::Text(Ok(t))) => match Address::parse(t.as_str()) {
                Ok(agent) => Step::Act(Claim::Contracts(tokens, agent), Action::Contracts),
                Err(x) => fail(Fault::new(x)),
            },
            (Claim::Address(_), Reply::Text(Err(f))) => fail(f),
            (Claim::Contracts(tokens, agent), Reply::Doc(Ok(cfg))) => Step::Act(
                Claim::Distributor(tokens, agent, cfg),
                Action::Env("EMISSION_DISTRIBUTOR_ADDR".to_owned()),
            ),
            (Claim::Distributor(tokens, agent, cfg), Reply::Maybe(set)) => match find_contract(
                &cfg,
                "emission_distributor",
                set,
                "server didn't return emission_distributor; set EMISSION_DISTRIBUTOR_ADDR env",
            ) {
                Err(f) => fail(f),
                Ok(dist) => {
                    let data = calldata_pending(&agent, &tokens);
                    Step::Act(Claim::Pending(tokens, agent, dist), Action::View(dist, data))
                },
            },
            (Claim::Pending(tokens, agent, dist), Reply::Bytes(Ok(raw))) => with_pending(
                tokens,
                agent,
                dist,
                &raw,
            ),
            (Claim::Pending(_, _, _), Reply::Bytes(Err(f))) => fail(f),
            (Claim::Tx(tokens, n), Reply::Sent(Ok((h, true)))) => print(claimed(&tokens, &n, h.as_str())),
            (Claim::Tx(_, _), Reply::Sent(e)) => fail(unsettled(e, "send claim tx")),
            _ => fail(stray()),
        }
    }
}

/// A claim is about the tokens that were named: the contract is asked what the agent can claim for them, and where
/// that is something, it is claimed for the same tokens, in the same order.
pub proof fn law_claim_names_the_tokens(s: Claim, reply: Reply, r: Step<Claim, Outcome>)
    requires
        claim_next(s, reply, r),
    ensures
        r matches Step::Act(Claim::Pending(tokens, agent, dist), a) ==> ({
            &&& a@ matches ActionV::View(to, data)
            &&& to == dist@
            &&& data.take(4) == selector_of("pendingFor(address,uint256[])"@)
            &&& address_result(data.subrange(4, 36)) == Ok::<Seq<u8>, Seq<char>>(agent@)
            &&& be_number(data.subrange(68, 100)) == tokens@.len()
            &&& forall|i: int|
                0 <= i < tokens@.len() ==> be_number(#[trigger] data.subrange(100 + 32 * i, 132 + 32 * i))
                    == tokens@[i]
        }),
        r matches Step::Act(Claim::Tx(tokens, pending), a) ==> ({
            &&& s matches Claim::Pending(named, agent, dist)
            &&& named == tokens
            &&& reply matches Reply::Bytes(Ok(raw))
            &&& uint_result(raw@) == Ok::<nat, Seq<char>>(pending@)
            &&& pending@ > 0
            &&& a@ matches ActionV::Transact(t)
            &&& t.from == agent@
            &&& t.to == dist@
            &&& t.value_wei == 0
            &&& t.data.take(4) == selector_of("claim(uint256[])"@)
            &&& t.gas_limit == 200_000
            &&& be_number(t.data.subrange(36, 68)) == tokens@.len()
            &&& forall|i: int|
                0 <= i < tokens@.len() ==> be_number(#[trigger] t.data.subrange(68 + 32 * i, 100 + 32 * i))
                    == tokens@[i]
        }),
{
    if let Step::Act(Claim::Pending(tokens, agent, _), _) = r {
        assert(tokens.len() == tokens@.len());
        law_pending_data(agent@, tokens@, pending_call(agent@, tokens@));
    }
    if let Step::Act(Claim::Tx(tokens, _), _) = r {
        assert(tokens.len() == tokens@.len());
        law_claim_data(tokens@, claim_call(tokens@));
    }
}

/// After a claim the amount that was pending, the transaction and the tokens are told.
pub proof fn law_claim_is_told(tokens: Seq<u64>, pending: nat, tx: Seq<char>)
    ensures
        member(claimed_v(tokens, pending, tx).data, "claim_tx"@) == Some(JsonV::Str(tx)),
        member(claimed_v(tokens, pending, tx).data, "amount_wei"@) == Some(JsonV::Str(dec_text(pending))),
        member(claimed_v(tokens, pending, tx).data, "tokens"@) == Some(numbers_v(tokens)),
        claimed_v(tokens, pending, tx).status == "ok"@,
{
    reveal_strlit("claim_tx");
    reveal_strlit("amount_wei");
    reveal_strlit("tokens");
    assert("claim_tx"@.len() == 8);
    assert("amount_wei"@.len() == 10);
    assert("tokens"@.len() == 6);
}

/// Something is claimed exactly where something is pending.
pub proof fn law_claim_takes_what_is_pending(s: Claim, reply: Reply, r: Step<Claim, Outcome>)
    requires
        claim_next(s, reply, r),
    ensures
        s matches Claim::Pending(tokens, _, _) ==> (reply matches Reply::Bytes(Ok(raw)) ==> (uint_result(raw@) matches Ok(n)
            ==> ((r matches Step::Act(Claim::Tx(_, _), _)) <==> n > 0))),
        s matches Claim::Address(tokens) ==> (r matches Step::Act(Claim::Contracts(v, _), _) ==> v == tokens),
        s matches Claim::Contracts(tokens, agent) ==> (r matches Step::Act(Claim::Distributor(v, b, _), _) ==> v == tokens
            && b == agent),
        s matches Claim::Distributor(tokens, agent, cfg) ==> (r matches Step::Act(Claim::Pending(v, b, d), _) ==> v == tokens
            && b == agent && (reply matches Reply::Maybe(set) && contract_result(
            cfg@,
            "emission_distributor"@,
            opt_text_view(set),
            no_distributor(),
        ) == Ok::<Seq<u8>, Seq<Seq<char>>>(d@))),
        r matches Step::Act(Claim::Contracts(_, agent), _) ==> (reply matches Reply::Text(Ok(t)) && Some(agent@)
            == parsed_address(t@)),
{
}

/// The contract of a claim may be set in the environment, and what was claimed is told.
pub proof fn law_claim_settings(s: Claim, reply: Reply, r: Step<Claim, Outcome>)
    requires
        claim_next(s, reply, r),
    ensures
        r matches Step::Act(Claim::Distributor(_, _, _), a) ==> a@ == ActionV::Env("EMISSION_DISTRIBUTOR_ADDR"@),
        s matches Claim::Tx(tokens, n) ==> (reply matches Reply::Sent(Ok((h, true))) ==> (r matches Step::End(
            Outcome::Print(o),
        ) && o@ == claimed_v(tokens@, n@, h@))),
        s matches Claim::Tx(_, _) ==> (reply matches Reply::Sent(Ok((_, false))) ==> (r matches Step::End(Outcome::Fail(_)))),
{
}

} // verus!
