//! repair: restore the durability of a token, for a fee in the reward token.
use vstd::prelude::*;

use crate::address::{address_error_text, parsed_address, Address};
use crate::bytes::be_number;
use crate::chain::{
    address_arg, address_result, address_word, arg_at, call1, call2, lemma_static_args, lemma_word_lengths,
    read_uint, selector_of, static_call, uint_arg, uint_result,
};
use crate::cmd::contracts::{contract_result, find_contract};
use crate::fault::{fault_v, Fault};
use crate::flow::{
    fail, fails, print, prints, stray, stray_v, unsettled, unsettled_v, Action, ActionV, Outcome, Reply,
    Step, TxRequest, TxRequestV,
};
use crate::json::{empty_object, member, num_v, with_member, Json, JsonV};
use crate::num::{dec, dec_text};
use crate::output::{next_v, success_v, Internal, Output, OutputV};
use crate::schema::opt_text_view;
use crate::text::cat5;
use crate::tx::{calldata_approve, calldata_repair};
use crate::u256::{be_word, lemma_u256_bound, word_base, U256};

verus! {

/// A repair whose contracts are known.
pub struct Job {
    pub token_id: u64,
    /// The agent.
    pub agent: Address,
    /// The token contract.
    pub nft: Address,
    /// The contract of the reward token.
    pub ardi: Address,
}

/// The repair command.
pub enum Repair {
    /// The agent's address is looked for.
    Address(u64),
    /// The configuration is fetched.
    Contracts(u64, Address),
    /// The token contract that is set is asked for.
    Nft(u64, Address, Json),
    /// The reward token that is set is asked for.
    Token(u64, Address, Json, Address),
    /// The fee is read.
    Fee(Job),
    /// What the token contract may take is read.
    Allowance(Job, U256),
    /// The token contract is allowed to take the fee.
    Approve(Job, U256),
    /// The transaction is made.
    Tx(Job, U256),
}

/// How much the token contract is allowed to take where it may not take the fee: twenty times the fee, so that
/// further repairs need no other approval.
pub open spec fn approval(fee: nat) -> nat {
    if fee * 20 < word_base() {
        fee * 20
    } else {
        (word_base() - 1) as nat
    }
}

/// The transaction that repairs the token.
pub open spec fn repair_tx(j: Job) -> ActionV {
    ActionV::Transact(
        TxRequestV {
            from: j.agent@,
            to: j.nft@,
            data: static_call("repair(uint256)"@, seq![be_word(j.token_id as nat)]),
            value_wei: 0,
            gas_limit: 350_000,
        },
    )
}

fn ask_repair(j: &Job) -> (r: Action)
    ensures
        r@ == repair_tx(*j),
{
    Action::Transact(
        TxRequest {
            from: j.agent,
            to: j.nft,
            data: calldata_repair(&U256::of_u64(j.token_id)),
            value_wei: 0,
            gas_limit: 350_000,
        },
    )
}

/// The transaction that allows the token contract to take the fee.
pub open spec fn approve_tx(j: Job, fee: nat) -> ActionV {
    ActionV::Transact(
        TxRequestV {
            from: j.agent@,
            to: j.ardi@,
            data: static_call(
                "approve(address,uint256)"@,
                seq![address_word(j.nft@), be_word(approval(fee))],
            ),
            value_wei: 0,
            gas_limit: 80_000,
        },
    )
}

fn ask_approval(j: &Job, fee: &U256) -> (r: Action)
    ensures
        r@ == approve_tx(*j, fee@),
{
    let amount = fee.saturating_mul(&U256::of_u64(20));
    Action::Transact(
        TxRequest {
            from: j.agent,
            to: j.ardi,
            data: calldata_approve(&j.nft, &amount),
            value_wei: 0,
            gas_limit: 80_000,
        },
    )
}

/// What comes next with the allowance: a repair, after an approval where the allowance is short of the fee.
pub open spec fn allowance_next(j: Job, fee: U256, raw: Seq<u8>, r: Step<Repair, Outcome>) -> bool {
    match uint_result(raw) {
        Err(e) => fails(r, fault_v(e)),
        Ok(allowance) => if allowance < fee@ {
            &&& r matches Step::Act(Repair::Approve(k, f), a)
            &&& k == j
            &&& f == fee
            &&& a@ == approve_tx(j, fee@)
        } else {
            &&& r matches Step::Act(Repair::Tx(k, f), a)
            &&& k == j
            &&& f == fee
            &&& a@ == repair_tx(j)
        },
    }
}

/// Goes on with the allowance.
pub fn with_allowance(j: Job, fee: U256, raw: &Vec<u8>) -> (r: Step<Repair, Outcome>)
    ensures
        allowance_next(j, fee, raw@, r),
{
    match read_uint(raw) {
        Err(e) => fail(Fault::new(e)),
        Ok(allowance) => {
            if allowance.less(&fee) {
                let a = ask_approval(&j, &fee);
                Step::Act(Repair::Approve(j, fee), a)
            } else {
                let a = ask_repair(&j);
                Step::Act(Repair::Tx(j, fee), a)
            }
        },
    }
}

/// The output of a repair that was asked for.
pub open spec fn repaired_v(token_id: u64, fee: nat, tx: Seq<char>) -> OutputV {
    let o = with_member(empty_object(), "token_id"@, num_v(token_id as int));
    let o = with_member(o, "repair_tx"@, JsonV::Str(tx));
    let o = with_member(o, "fee_wei"@, JsonV::Str(dec_text(fee)));
    let o = with_member(o, "expected_callback_seconds"@, num_v(30));
    success_v(
        "Repair requested for tokenId "@ + dec_text(token_id as nat) + " (fee "@ + dec_text(fee)
            + " ardi). Outcome lands ~30s after Chainlink VRF callback. 1% chance of failure → NFT becomes broken and requires fuse to revive."@,
        o,
        next_v("wait_vrf"@, Some("ardi-agent status"@)),
    )
}

/// The output of a repair that was asked for.
pub fn repaired(token_id: u64, fee: &U256, tx: &str) -> (r: Output)
    ensures
        r@ == repaired_v(token_id, fee@, tx@),
{
    let t = dec(token_id);
    let n = fee.decimal();
    let m = cat5(
        "Repair requested for tokenId ",
        t.as_str(),
        " (fee ",
        n.as_str(),
        " ardi). Outcome lands ~30s after Chainlink VRF callback. 1% chance of failure → NFT becomes broken and requires fuse to revive.",
    );
    let o = Json::object().with("token_id", Json::number(token_id)).with(
        "repair_tx",
        Json::text(tx),
    ).with("fee_wei", Json::Str(n)).with("expected_callback_seconds", Json::number(30));
    Output::success(m, o, Internal::run("wait_vrf", "ardi-agent status"))
}

/// What comes next in the repair command.
pub open spec fn repair_next(s: Repair, reply: Reply, r: Step<Repair, Outcome>) -> bool {
    match (s, reply) {
        (Repair::Address(token), Reply::Text(Ok(t))) => match parsed_address(t@) {
            None => fails(r, fault_v(address_error_text(t@))),
            Some(x) => {
                &&& r matches Step::Act(Repair::Contracts(u, agent), a)
                &&& u == token
                &&& agent@ == x
                &&& a@ == ActionV::Contracts
            },
        },
        (Repair::Address(_), Reply::Text(Err(f))) => fails(r, f@),
        (Repair::Contracts(token, agent), Reply::Doc(Ok(cfg))) => {
            &&& r matches Step::Act(Repair::Nft(u, b, c), a)
            &&& u == token
            &&& b == agent
            &&& c == cfg
            &&& a@ == ActionV::Env("ARDI_NFT_ADDR"@)
        },
        (Repair::Nft(token, agent, cfg), Reply::Maybe(set)) => match contract_result(
            cfg@,
            "ardi_nft"@,
            opt_text_view(set),
            "server didn't return ardi_nft address; set ARDI_NFT_ADDR env"@,
        ) {
            Err(f) => fails(r, f),
            Ok(to) => {
                &&& r matches Step::Act(Repair::Token(u, b, c, n), a)
                &&& u == token
                &&& b == agent
                &&& c == cfg
                &&& n@ == to
                &&& a@ == ActionV::Env("ARDI_TOKEN_ADDR"@)
            },
        },
        (Repair::Token(token, agent, cfg, nft), Reply::Maybe(set)) => match contract_result(
            cfg@,
            "ardi_token"@,
            opt_text_view(set),
            "server didn't return ardi_token address; set ARDI_TOKEN_ADDR env"@,
        ) {
            Err(f) => fails(r, f),
            Ok(ardi) => {
                &&& r matches Step::Act(Repair::Fee(j), a)
                &&& j.token_id == token
                &&& j.agent == agent
                &&& j.nft == nft
                &&& j.ardi@ == ardi
                &&& a@ == ActionV::View(
                    nft@,
                    static_call("repairFee(uint256)"@, seq![be_word(token as nat)]),
                )
            },
        },
        (Repair::Fee(j), Reply::Bytes(Ok(raw))) => match uint_result(raw@) {
            Err(e) => fails(r, fault_v(e)),
            Ok(fee) => {
                &&& r matches Step::Act(Repair::Allowance(k, f), a)
                &&& k == j
                &&& f@ == fee
                &&& a@ == ActionV::View(
                    j.ardi@,
                    static_call(
                        "allowance(address,address)"@,
                        seq![address_word(j.agent@), address_word(j.nft@)],
                    ),
                )
            },
        },
        (Repair::Fee(_), Reply::Bytes(Err(f))) => fails(r, f@),
        (Repair::Allowance(j, fee), Reply::Bytes(Ok(raw))) => allowance_next(j, fee, raw@, r),
        (Repair::Allowance(_, _), Reply::Bytes(Err(f))) => fails(r, f@),
        (Repair::Approve(j, fee), Reply::Sent(Ok((_, true)))) => {
            &&& r matches Step::Act(Repair::Tx(k, f), a)
            &&& k == j
            &&& f == fee
            &&& a@ == repair_tx(j)
        },
        (Repair::Approve(_, _), Reply::Sent(e)) => fails(r, unsettled_v(e, "send approve tx"@)),
        (Repair::Tx(j, fee), Reply::Sent(Ok((h, true)))) => prints(r, repaired_v(j.token_id, fee@, h@)),
        (Repair::Tx(_, _), Reply::Sent(e)) => fails(r, unsettled_v(e, "send repair tx"@)),
        _ => fails(r, stray_v()),
    }
}

/// Starts the repair command.
pub fn run(token_id: u64) -> (r: Step<Repair, Outcome>)
    ensures
        r matches Step::Act(Repair::Address(t), a) && t == token_id && a@ == ActionV::Address,
{
    Step::Act(Repair::Address(token_id), Action::Address)
}

impl Repair {
    /// Goes on with the reply.
    pub fn step(self, reply: Reply) -> (r: Step<Repair, Outcome>)
        ensures
            repair_next(self, reply, r),
    {
        match (self, reply) {
            (Repair::Address(token), Reply::Text(Ok(t))) => match Address::parse(t.as_str()) {
                Ok(agent) => Step::Act(Repair::Contracts(token, agent), Action::Contracts),
                Err(x) => fail(Fault::new(x)),
            },
            (Repair::Address(_), Reply::Text(Err(f))) => fail(f),
            (Repair::Contracts(token, agent), Reply::Doc(Ok(cfg))) => Step::Act(
                Repair::Nft(token, agent, cfg),
                Action::Env("ARDI_NFT_ADDR".to_owned()),
            ),
            (Repair::Nft(token, agent, cfg), Reply::Maybe(set)) => match find_contract(
                &cfg,
                "ardi_nft",
                set,
                "server didn't return ardi_nft address; set ARDI_NFT_ADDR env",
            ) {
                Err(f) => fail(f),
                Ok(nft) => Step::Act(
                    Repair::Token(token, agent, cfg, nft),
                    Action::Env("ARDI_TOKEN_ADDR".to_owned()),
                ),
            },
            (Repair::Token(token_id, agent, cfg, nft), Reply::Maybe(set)) => match find_contract(
                &cfg,
                "ardi_token",
                set,
                "server didn't return ardi_token address; set ARDI_TOKEN_ADDR env",
            ) {
                Err(f) => fail(f),
                Ok(ardi) => {
                    let data = call1("repairFee(uint256)", uint_arg(token_id));
                    Step::Act(
                        Repair::Fee(Job { token_id, agent, nft, ardi }),
                        Action::View(nft, data),
                    )
                },
            },
            (Repair::Fee(j), Reply::Bytes(Ok(raw))) => match read_uint(&raw) {
                Err(e) => fail(Fault::new(e)),
                Ok(fee) => {
                    let data = call2(
                        "allowance(address,address)",
                        address_arg(&j.agent),
                        address_arg(&j.nft),
                    );
                    let a = Action::View(j.ardi, data);
                    Step::Act(Repair::Allowance(j, fee), a)
                },
            },
            (Repair::Fee(_), Reply::Bytes(Err(f))) => fail(f),
            (Repair::Allowance(j, fee), Reply::Bytes(Ok(raw))) => with_allowance(j, fee, &raw),
            (Repair::Allowance(_, _), Reply::Bytes(Err(f))) => fail(f),
            (Repair::Approve(j, fee), Reply::Sent(Ok((_, true)))) => {
                let a = ask_repair(&j);
                Step::Act(Repair::Tx(j, fee), a)
            },
            (Repair::Approve(_, _), Reply::Sent(e)) => fail(unsettled(e, "send approve tx")),
            (Repair::Tx(j, fee), Reply::Sent(Ok((h, true)))) => print(
                repaired(j.token_id, &fee, h.as_str()),
            ),
            (Repair::Tx(_, _), Reply::Sent(e)) => fail(unsettled(e, "send repair tx")),
            _ => fail(stray()),
        }
    }
}

/// What is approved covers the fee, whatever the fee is.
pub proof fn law_approval_covers_fee(fee: nat)
    requires
        fee < word_base(),
    ensures
        fee <= approval(fee) < word_base(),
{
}

/// A repair is about one token: its fee is read, the token contract's allowance on the agent's reward tokens, the
/// token contract is allowed to take at least the fee where it may not yet, and the repair of that token is asked
/// for.
pub proof fn law_repair_names_token_and_fee(s: Repair, reply: Reply, r: Step<Repair, Outcome>)
    requires
        repair_next(s, reply, r),
    ensures
        r matches Step::Act(Repair::Fee(j), a) ==> ({
            &&& a@ matches ActionV::View(to, data)
            &&& to == j.nft@
            &&& data.take(4) == selector_of("repairFee(uint256)"@)
            &&& be_number(arg_at(data, 0)) == j.token_id
        }),
        r matches Step::Act(Repair::Allowance(j, _), a) ==> ({
            &&& a@ matches ActionV::View(to, data)
            &&& to == j.ardi@
            &&& data.take(4) == selector_of("allowance(address,address)"@)
            &&& address_result(arg_at(data, 0)) == Ok::<Seq<u8>, Seq<char>>(j.agent@)
            &&& address_result(arg_at(data, 1)) == Ok::<Seq<u8>, Seq<char>>(j.nft@)
        }),
        r matches Step::Act(Repair::Allowance(_, fee), _) ==> (reply matches Reply::Bytes(Ok(raw)) && uint_result(raw@)
            == Ok::<nat, Seq<char>>(fee@)),
        r matches Step::Act(Repair::Approve(j, fee), a) ==> ({
            &&& a@ matches ActionV::Transact(t)
            &&& t.from == j.agent@
            &&& t.to == j.ardi@
            &&& t.value_wei == 0
            &&& t.data.take(4) == selector_of("approve(address,uint256)"@)
            &&& t.gas_limit == 80_000
            &&& address_result(arg_at(t.data, 0)) == Ok::<Seq<u8>, Seq<char>>(j.nft@)
            &&& be_number(arg_at(t.data, 1)) >= fee@
            &&& be_number(arg_at(t.data, 1)) <= fee@ * 20
            &&& fee@ * 20 < word_base() ==> be_number(arg_at(t.data, 1)) == fee@ * 20
        }),
        r matches Step::Act(Repair::Tx(j, _), a) ==> ({
            &&& a@ matches ActionV::Transact(t)
            &&& t.from == j.agent@
            &&& t.to == j.nft@
            &&& t.value_wei == 0
            &&& t.data.take(4) == selector_of("repair(uint256)"@)
            &&& t.gas_limit == 350_000
            &&& be_number(arg_at(t.data, 0)) == j.token_id
        }),
        s matches Repair::Allowance(j, fee) ==> (reply matches Reply::Bytes(Ok(raw)) ==> (uint_result(
            raw@,
        ) matches Ok(n) ==> (r matches Step::Act(Repair::Approve(_, _), _) <==> n < fee@) && (
        r matches Step::Act(Repair::Tx(_, _), _) <==> n >= fee@))),
{
    lemma_word_lengths();
    if let Step::Act(Repair::Fee(j), _) = r {
        let args = seq![be_word(j.token_id as nat)];
        lemma_static_args("repairFee(uint256)"@, args);
        assert(arg_at(static_call("repairFee(uint256)"@, args), 0) == be_word(j.token_id as nat));
    }
    if let Step::Act(Repair::Allowance(j, _), _) = r {
        let args = seq![address_word(j.agent@), address_word(j.nft@)];
        lemma_static_args("allowance(address,address)"@, args);
        assert(arg_at(static_call("allowance(address,address)"@, args), 0) == address_word(j.agent@));
        assert(arg_at(static_call("allowance(address,address)"@, args), 1) == address_word(j.nft@));
    }
    if let Step::Act(Repair::Approve(j, fee), _) = r {
        lemma_u256_bound(fee);
        law_approval_covers_fee(fee@);
        let args = seq![address_word(j.nft@), be_word(approval(fee@))];
        lemma_static_args("approve(address,uint256)"@, args);
        assert(arg_at(static_call("approve(address,uint256)"@, args), 0) == address_word(j.nft@));
        assert(arg_at(static_call("approve(address,uint256)"@, args), 1) == be_word(approval(fee@)));
    }
    if let Step::Act(Repair::Tx(j, _), _) = r {
        let args = seq![be_word(j.token_id as nat)];
        lemma_static_args("repair(uint256)"@, args);
        assert(arg_at(static_call("repair(uint256)"@, args), 0) == be_word(j.token_id as nat));
    }
}

/// After a repair is asked for, the token, the transaction and the fee are told.
pub proof fn law_repair_is_told(token_id: u64, fee: nat, tx: Seq<char>)
    ensures
        member(repaired_v(token_id, fee, tx).data, "token_id"@) == Some(num_v(token_id as int)),
        member(repaired_v(token_id, fee, tx).data, "repair_tx"@) == Some(JsonV::Str(tx)),
        member(repaired_v(token_id, fee, tx).data, "fee_wei"@) == Some(JsonV::Str(dec_text(fee))),
        member(repaired_v(token_id, fee, tx).data, "expected_callback_seconds"@) == Some(num_v(30)),
        repaired_v(token_id, fee, tx).status == "ok"@,
{
    reveal_strlit("token_id");
    reveal_strlit("repair_tx");
    reveal_strlit("fee_wei");
    reveal_strlit("expected_callback_seconds");
    assert("token_id"@.len() == 8);
    assert("repair_tx"@.len() == 9);
    assert("fee_wei"@.len() == 7);
    assert("expected_callback_seconds"@.len() == 25);
}

/// The token that was named is the one that is repaired, by the agent, with the contracts that the configuration or the
/// environment names.
pub proof fn law_repair_keeps_the_token(s: Repair, reply: Reply, r: Step<Repair, Outcome>)
    requires
        repair_next(s, reply, r),
    ensures
        r matches Step::Act(Repair::Contracts(token, agent), _) ==> s == Repair::Address(token) && (
        reply matches Reply::Text(Ok(t)) && Some(agent@) == parsed_address(t@)),
        r matches Step::Act(Repair::Token(token, agent, cfg, nft), _) ==> s == Repair::Nft(token, agent, cfg) && (
        reply matches Reply::Maybe(set) && contract_result(
            cfg@,
            "ardi_nft"@,
            opt_text_view(set),
            "server didn't return ardi_nft address; set ARDI_NFT_ADDR env"@,
        ) == Ok::<Seq<u8>, Seq<Seq<char>>>(nft@)),
        r matches Step::Act(Repair::Fee(j), _) ==> (s matches Repair::Token(token, agent, cfg, nft) && j.token_id == token
            && j.agent == agent && j.nft == nft && (reply matches Reply::Maybe(set) && contract_result(
            cfg@,
            "ardi_token"@,
            opt_text_view(set),
            "server didn't return ardi_token address; set ARDI_TOKEN_ADDR env"@,
        ) == Ok::<Seq<u8>, Seq<Seq<char>>>(j.ardi@))),
        r matches Step::Act(Repair::Allowance(j, _), _) ==> s == Repair::Fee(j),
        s matches Repair::Approve(j, fee) ==> ((r matches Step::Act(Repair::Tx(k, f), _) && k == j && f == fee) <==> (
        reply matches Reply::Sent(Ok((_, true))))),
{
}

/// The contracts of a repair may be set in the environment.
pub proof fn law_repair_settings(s: Repair, reply: Reply, r: Step<Repair, Outcome>)
    requires
        repair_next(s, reply, r),
    ensures
        r matches Step::Act(Repair::Nft(_, _, _), a) ==> a@ == ActionV::Env("ARDI_NFT_ADDR"@),
        r matches Step::Act(Repair::Token(_, _, _, _), a) ==> a@ == ActionV::Env("ARDI_TOKEN_ADDR"@),
        r matches Step::Act(Repair::Contracts(_, _), a) ==> a@ == ActionV::Contracts,
        s matches Repair::Tx(j, fee) ==> (reply matches Reply::Sent(Ok((h, true))) ==> (r matches Step::End(Outcome::Print(o))
            && o@ == repaired_v(j.token_id, fee@, h@))),
        s matches Repair::Tx(_, _) ==> (reply matches Reply::Sent(Ok((_, false))) ==> (r matches Step::End(Outcome::Fail(_)))),
{
}

} // verus!
