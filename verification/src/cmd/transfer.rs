//! transfer: move a token from the agent's wallet to another address.
use vstd::prelude::*;

use crate::address::{address_error_text, parsed_address, zero_address, Address};
use crate::bytes::{be_number, hex_0x};
use crate::chain::{
    address_result, address_word, arg_at, call1, lemma_static_args, lemma_word_lengths, read_address, read_uint,
    selector_of, static_call, uint_arg, uint_result,
};
use crate::cmd::contracts::{contract_result, find_contract};
use crate::fault::{fault_v, Fault};
use crate::flow::{
    fail, fails, print, prints, stray, stray_v, unsettled, unsettled_v, Action, ActionV, Outcome, Reply,
    Step, TxRequest, TxRequestV,
};
use crate::json::{empty_object, member, num_v, with_member, Json, JsonV};
use crate::num::{dec, dec_text};
use crate::output::{error_v, next_v, success_v, Internal, Output, OutputV};
use crate::schema::opt_text_view;
use crate::text::{cat2, cat4, cat5, cat7, has_prefix};
use crate::tx::calldata_transfer_nft;
use crate::u256::{be_word, U256};

verus! {

/// A transfer whose parties are known.
pub struct Move {
    pub token_id: u64,
    /// The target as it was given.
    pub to_text: String,
    /// The agent.
    pub agent: Address,
    /// The target.
    pub to: Address,
}

/// The transfer command.
pub enum Transfer {
    /// The agent's address is looked for.
    Address(u64, String),
    /// The configuration is fetched.
    Contracts(Move),
    /// The token contract that is set is asked for.
    Nft(Move, Json),
    /// The owner is read.
    Owner(Move, Address),
    /// A repair under way is looked for.
    Repair(Move, Address),
    /// A fusion under way is looked for.
    Fuse(Move, Address, U256),
    /// The transaction is made.
    Tx(Move),
}

/// What comes next with the agent's address.
pub open spec fn parties_next(token: u64, to_text: String, agent_text: Seq<char>, r: Step<Transfer, Outcome>) -> bool {
    match (parsed_address(agent_text), parsed_address(to_text@)) {
        (None, _) => fails(r, fault_v(address_error_text(agent_text))),
        (Some(_), None) => fails(
            r,
            fault_v("--to is not a valid 0x-address: "@ + address_error_text(to_text@)),
        ),
        (Some(agent), Some(to)) => if to == zero_address() {
            fails(r, fault_v("--to cannot be zero address"@))
        } else if to == agent {
            fails(r, fault_v("--to is the agent's own address; nothing to transfer"@))
        } else {
            &&& r matches Step::Act(Transfer::Contracts(m), a)
            &&& m.token_id == token
            &&& m.to_text == to_text
            &&& m.agent@ == agent
            &&& m.to@ == to
            &&& a@ == ActionV::Contracts
        },
    }
}

/// Goes on with the agent's address.
pub fn with_parties(token_id: u64, to_text: String, agent_text: &str) -> (r: Step<Transfer, Outcome>)
    ensures
        parties_next(token_id, to_text, agent_text@, r),
{
    let agent = match Address::parse(agent_text) {
        Ok(a) => a,
        Err(e) => {
            return fail(Fault::new(e));
        },
    };
    let to = match Address::parse(to_text.as_str()) {
        Ok(a) => a,
        Err(e) => {
            return fail(Fault::new(cat2("--to is not a valid 0x-address: ", e.as_str())));
        },
    };
    if to.is_zero() {
        return fail(Fault::of("--to cannot be zero address"));
    }
    if to.same(&agent) {
        return fail(Fault::of("--to is the agent's own address; nothing to transfer"));
    }
    Step::Act(Transfer::Contracts(Move { token_id, to_text, agent, to }), Action::Contracts)
}

/// A call about the token.
pub open spec fn token_call(sig: Seq<char>, token: u64) -> Seq<u8> {
    static_call(sig, seq![be_word(token as nat)])
}

/// The output where the agent does not own the token.
pub open spec fn not_owner_v(token: u64, owner: Seq<u8>, agent: Seq<u8>) -> OutputV {
    error_v(
        "tokenId "@ + dec_text(token as nat) + " is owned by "@ + hex_0x(owner) + ", not by us ("@
            + hex_0x(agent) + "). Only the current owner can transfer."@,
        "NOT_TOKEN_OWNER"@,
        "validation"@,
        false,
        "Run `ardi-agent commits` to find a tokenId you own, or transfer was already done."@,
        next_v("rerun_listing"@, Some("ardi-agent commits"@)),
    )
}

fn not_owner(token: u64, owner: &Address, agent: &Address) -> (r: Output)
    ensures
        r@ == not_owner_v(token, owner@, agent@),
{
    let t = dec(token);
    let o = owner.lower();
    let a = agent.lower();
    Output::error(
        cat7(
            "tokenId ",
            t.as_str(),
            " is owned by ",
            o.as_str(),
            ", not by us (",
            a.as_str(),
            "). Only the current owner can transfer.",
        ),
        "NOT_TOKEN_OWNER",
        "validation",
        false,
        "Run `ardi-agent commits` to find a tokenId you own, or transfer was already done.",
        Internal::run("rerun_listing", "ardi-agent commits"),
    )
}

/// What locks a token.
pub open spec fn lock_name(repair: nat) -> Seq<char> {
    if repair != 0 {
        "repair"@
    } else {
        "fuse"@
    }
}

/// The output where the token is locked.
pub open spec fn locked_v(token: u64, to: Seq<char>, repair: nat) -> OutputV {
    error_v(
        "tokenId "@ + dec_text(token as nat) + " is locked by an in-flight "@ + lock_name(repair)
            + " VRF request. Wait for the callback to fire (~30s under normal Chainlink load), or after 6h call `ardi-agent` cleanup commands. Then retry."@,
        "TOKEN_LOCKED"@,
        "state"@,
        true,
        "Wait ~30s and retry; v3 blocks transfers while VRF is pending so the request can't be re-routed mid-flight."@,
        next_v(
            "wait_vrf"@,
            Some("ardi-agent transfer --token-id "@ + dec_text(token as nat) + " --to "@ + to),
        ),
    )
}

fn locked(token: u64, to: &str, repair: &U256) -> (r: Output)
    ensures
        r@ == locked_v(token, to@, repair@),
{
    let t = dec(token);
    let what = if !repair.is_zero() {
        "repair"
    } else {
        "fuse"
    };
    let c = cat4("ardi-agent transfer --token-id ", t.as_str(), " --to ", to);
    Output::error(
        cat5(
            "tokenId ",
            t.as_str(),
            " is locked by an in-flight ",
            what,
            " VRF request. Wait for the callback to fire (~30s under normal Chainlink load), or after 6h call `ardi-agent` cleanup commands. Then retry.",
        ),
        "TOKEN_LOCKED",
        "state",
        true,
        "Wait ~30s and retry; v3 blocks transfers while VRF is pending so the request can't be re-routed mid-flight.",
        Internal::run("wait_vrf", c.as_str()),
    )
}

/// The output of a transfer that was made.
pub open spec fn moved_v(m: Move, tx: Seq<char>) -> OutputV {
    let o = with_member(empty_object(), "token_id"@, num_v(m.token_id as int));
    let o = with_member(o, "from"@, JsonV::Str(hex_0x(m.agent@)));
    let o = with_member(o, "to"@, JsonV::Str(m.to_text@));
    let o = with_member(o, "tx_hash"@, JsonV::Str(tx));
    success_v(
        "Transferred Ardinal "@ + dec_text(m.token_id as nat) + " to "@ + m.to_text@
            + ". From this point on the new owner can repair / claim it from the browser without touching the agent's wallet."@,
        o,
        next_v("done"@, None),
    )
}

/// The output of a transfer that was made.
pub fn moved(m: &Move, tx: &str) -> (r: Output)
    ensures
        r@ == moved_v(*m, tx@),
{
    let t = dec(m.token_id);
    let text = cat5(
        "Transferred Ardinal ",
        t.as_str(),
        " to ",
        m.to_text.as_str(),
        ". From this point on the new owner can repair / claim it from the browser without touching the agent's wallet.",
    );
    let o = Json::object().with("token_id", Json::number(m.token_id)).with(
        "from",
        Json::Str(m.agent.lower()),
    ).with("to", Json::text(m.to_text.as_str())).with("tx_hash", Json::text(tx));
    Output::success(text, o, Internal::stop("done"))
}

/// What comes next with the owner.
pub open spec fn owner_next(m: Move, nft: Address, raw: Seq<u8>, r: Step<Transfer, Outcome>) -> bool {
    match address_result(raw) {
        Err(e) => fails(r, fault_v(e)),
        Ok(owner) => if owner != m.agent@ {
            prints(r, not_owner_v(m.token_id, owner, m.agent@))
        } else {
            &&& r matches Step::Act(Transfer::Repair(k, n), a)
            &&& k == m
            &&& n == nft
            &&& a@ == ActionV::View(nft@, token_call("pendingRepairOf(uint256)"@, m.token_id))
        },
    }
}

/// Goes on with the owner.
pub fn with_owner(m: Move, nft: Address, raw: &Vec<u8>) -> (r: Step<Transfer, Outcome>)
    ensures
        owner_next(m, nft, raw@, r),
{
    match read_address(raw) {
        Err(e) => fail(Fault::new(e)),
        Ok(owner) => {
            if !owner.same(&m.agent) {
                return print(not_owner(m.token_id, &owner, &m.agent));
            }
            let data = call1("pendingRepairOf(uint256)", uint_arg(m.token_id));
            Step::Act(Transfer::Repair(m, nft), Action::View(nft, data))
        },
    }
}

/// What comes next with the fusion under way.
pub open spec fn fuse_next(m: Move, nft: Address, repair: U256, raw: Seq<u8>, r: Step<Transfer, Outcome>) -> bool {
    match uint_result(raw) {
        Err(e) => fails(r, fault_v(e)),
        Ok(fuse) => if repair@ != 0 || fuse != 0 {
            prints(r, locked_v(m.token_id, m.to_text@, repair@))
        } else {
            &&& r matches Step::Act(Transfer::Tx(k), a)
            &&& k == m
            &&& a@ == ActionV::Transact(
                TxRequestV {
                    from: m.agent@,
                    to: nft@,
                    data: static_call(
                        "transferFrom(address,address,uint256)"@,
                        seq![address_word(m.agent@), address_word(m.to@), be_word(m.token_id as nat)],
                    ),
                    value_wei: 0,
                    gas_limit: 200_000,
                },
            )
        },
    }
}

/// Goes on with the fusion under way.
pub fn with_fuse(m: Move, nft: Address, repair: U256, raw: &Vec<u8>) -> (r: Step<Transfer, Outcome>)
    ensures
        fuse_next(m, nft, repair, raw@, r),
{
    match read_uint(raw) {
        Err(e) => fail(Fault::new(e)),
        Ok(fuse) => {
            if !repair.is_zero() || !fuse.is_zero() {
                return print(locked(m.token_id, m.to_text.as_str(), &repair));
            }
            let t = TxRequest {
                from: m.agent,
                to: nft,
                data: calldata_transfer_nft(&m.agent, &m.to, &U256::of_u64(m.token_id)),
                value_wei: 0,
                gas_limit: 200_000,
            };
            Step::Act(Transfer::Tx(m), Action::Transact(t))
        },
    }
}

/// What comes next in the transfer command.
pub open spec fn transfer_next(s: Transfer, reply: Reply, r: Step<Transfer, Outcome>) -> bool {
    match (s, reply) {
        (Transfer::Address(token, to), Reply::Text(Ok(t))) => parties_next(token, to, t@, r),
        (Transfer::Address(_, _), Reply::Text(Err(f))) => fails(r, f@),
        (Transfer::Contracts(m), Reply::Doc(Ok(cfg))) => {
            &&& r matches Step::Act(Transfer::Nft(k, c), a)
            &&& k == m
            &&& c == cfg
            &&& a@ == ActionV::Env("ARDI_NFT_ADDR"@)
        },
        (Transfer::Nft(m, cfg), Reply::Maybe(set)) => match contract_result(
            cfg@,
            "ardi_nft"@,
            opt_text_view(set),
            "server didn't return ardi_nft; set ARDI_NFT_ADDR env"@,
        ) {
            Err(f) => fails(r, f),
            Ok(nft) => {
                &&& r matches Step::Act(Transfer::Owner(k, n), a)
                &&& k == m
                &&& n@ == nft
                &&& a@ == ActionV::View(nft, token_call("ownerOf(uint256)"@, m.token_id))
            },
        },
        (Transfer::Owner(m, nft), Reply::Bytes(Ok(raw))) => owner_next(m, nft, raw@, r),
        (Transfer::Owner(_, _), Reply::Bytes(Err(f))) => fails(r, f@),
        (Transfer::Repair(m, nft), Reply::Bytes(Ok(raw))) => match uint_result(raw@) {
            Err(e) => fails(r, fault_v(e)),
            Ok(repair) => {
                &&& r matches Step::Act(Transfer::Fuse(k, n, x), a)
                &&& k == m
                &&& n == nft
                &&& x@ == repair
                &&& a@ == ActionV::View(nft@, token_call("pendingFuseOf(uint256)"@, m.token_id))
            },
        },
        (Transfer::Repair(_, _), Reply::Bytes(Err(f))) => fails(r, f@),
        (Transfer::Fuse(m, nft, repair), Reply::Bytes(Ok(raw))) => fuse_next(m, nft, repair, raw@, r),
        (Transfer::Fuse(_, _, _), Reply::Bytes(Err(f))) => fails(r, f@),
        (Transfer::Tx(m), Reply::Sent(Ok((h, true)))) => prints(r, moved_v(m, h@)),
        (Transfer::Tx(_), Reply::Sent(e)) => fails(r, unsettled_v(e, "send transferFrom tx"@)),
        _ => fails(r, stray_v()),
    }
}

/// Starts the transfer command.
pub fn run(token_id: u64, to: String) -> (r: Step<Transfer, Outcome>)
    ensures
        r matches Step::Act(Transfer::Address(t, u), a) && t == token_id && u == to && a@
            == ActionV::Address,
{
    Step::Act(Transfer::Address(token_id, to), Action::Address)
}

impl Transfer {
    /// Goes on with the reply.
    pub fn step(self, reply: Reply) -> (r: Step<Transfer, Outcome>)
        ensures
            transfer_next(self, reply, r),
    {
        match (self, reply) {
            (Transfer::Address(token, to), Reply::Text(Ok(t))) => with_parties(token, to, t.as_str()),
            (Transfer::Address(_, _), Reply::Text(Err(f))) => fail(f),
            (Transfer::Contracts(m), Reply::Doc(Ok(cfg))) => Step::Act(
                Transfer::Nft(m, cfg),
                Action::Env("ARDI_NFT_ADDR".to_owned()),
            ),
            (Transfer::Nft(m, cfg), Reply::Maybe(set)) => match find_contract(
                &cfg,
                "ardi_nft",
                set,
                "server didn't return ardi_nft; set ARDI_NFT_ADDR env",
            ) {
                Err(f) => fail(f),
                Ok(nft) => {
                    let data = call1("ownerOf(uint256)", uint_arg(m.token_id));
                    Step::Act(Transfer::Owner(m, nft), Action::View(nft, data))
                },
            },
            (Transfer::Owner(m, nft), Reply::Bytes(Ok(raw))) => with_owner(m, nft, &raw),
            (Transfer::Owner(_, _), Reply::Bytes(Err(f))) => fail(f),
            (Transfer::Repair(m, nft), Reply::Bytes(Ok(raw))) => match read_uint(&raw) {
                Err(e) => fail(Fault::new(e)),
                Ok(repair) => {
                    let data = call1("pendingFuseOf(uint256)", uint_arg(m.token_id));
                    Step::Act(Transfer::Fuse(m, nft, repair), Action::View(nft, data))
                },
            },
            (Transfer::Repair(_, _), Reply::Bytes(Err(f))) => fail(f),
            (Transfer::Fuse(m, nft, repair), Reply::Bytes(Ok(raw))) => with_fuse(m, nft, repair, &raw),
            (Transfer::Fuse(_, _, _), Reply::Bytes(Err(f))) => fail(f),
            (Transfer::Tx(m), Reply::Sent(Ok((h, true)))) => print(moved(&m, h.as_str())),
            (Transfer::Tx(_), Reply::Sent(e)) => fail(unsettled(e, "send transferFrom tx")),
            _ => fail(stray()),
        }
    }
}

/// A transfer is only sent where no repair and no fusion is under way, to an address that is neither zero nor
/// the agent's own.
pub proof fn law_transfer_guards(s: Transfer, reply: Reply, r: Step<Transfer, Outcome>)
    requires
        transfer_next(s, reply, r),
    ensures
        (r matches Step::Act(_, a) && a@ is Transact) ==> (s matches Transfer::Fuse(m, nft, repair) && repair@ == 0
            && (reply matches Reply::Bytes(Ok(raw)) && uint_result(raw@) == Ok::<nat, Seq<char>>(0))),
        r matches Step::Act(Transfer::Contracts(m), _) ==> m.to@ != zero_address() && m.to@ != m.agent@,
        r matches Step::Act(Transfer::Repair(m, nft), _) ==> (reply matches Reply::Bytes(Ok(raw))
            && address_result(raw@) == Ok::<Seq<u8>, Seq<char>>(m.agent@)),
{
}

/// A transfer is about one token: its owner, its repair and its fusion are asked for, and it is moved from the agent
/// to the target.
pub proof fn law_transfer_moves_the_token(s: Transfer, reply: Reply, r: Step<Transfer, Outcome>)
    requires
        transfer_next(s, reply, r),
    ensures
        r matches Step::Act(Transfer::Owner(m, nft), a) ==> ({
            &&& a@ matches ActionV::View(to, data)
            &&& to == nft@
            &&& data.take(4) == selector_of("ownerOf(uint256)"@)
            &&& be_number(arg_at(data, 0)) == m.token_id
        }),
        r matches Step::Act(Transfer::Repair(m, nft), a) ==> ({
            &&& a@ matches ActionV::View(to, data)
            &&& to == nft@
            &&& data.take(4) == selector_of("pendingRepairOf(uint256)"@)
            &&& be_number(arg_at(data, 0)) == m.token_id
        }),
        r matches Step::Act(Transfer::Fuse(m, nft, _), a) ==> ({
            &&& a@ matches ActionV::View(to, data)
            &&& to == nft@
            &&& data.take(4) == selector_of("pendingFuseOf(uint256)"@)
            &&& be_number(arg_at(data, 0)) == m.token_id
        }),
        r matches Step::Act(Transfer::Fuse(_, _, repair), _) ==> (reply matches Reply::Bytes(Ok(raw)) && uint_result(
            raw@,
        ) == Ok::<nat, Seq<char>>(repair@)),
        r matches Step::Act(Transfer::Tx(m), a) ==> ({
            &&& s matches Transfer::Fuse(k, nft, _)
            &&& k == m
            &&& a@ matches ActionV::Transact(t)
            &&& t.from == m.agent@
            &&& t.to == nft@
            &&& t.value_wei == 0
            &&& t.data.take(4) == selector_of("transferFrom(address,address,uint256)"@)
            &&& t.gas_limit == 200_000
            &&& address_result(arg_at(t.data, 0)) == Ok::<Seq<u8>, Seq<char>>(m.agent@)
            &&& address_result(arg_at(t.data, 1)) == Ok::<Seq<u8>, Seq<char>>(m.to@)
            &&& be_number(arg_at(t.data, 2)) == m.token_id
        }),
        r matches Step::Act(Transfer::Contracts(m), _) ==> (s matches Transfer::Address(token, to) && (
        reply matches Reply::Text(Ok(t)) && m.token_id == token && Some(m.agent@) == parsed_address(t@) && Some(m.to@)
            == parsed_address(to@))),
{
    lemma_word_lengths();
    if let Step::Act(Transfer::Owner(m, _), _) = r {
        let args = seq![be_word(m.token_id as nat)];
        lemma_static_args("ownerOf(uint256)"@, args);
        assert(arg_at(static_call("ownerOf(uint256)"@, args), 0) == be_word(m.token_id as nat));
    }
    if let Step::Act(Transfer::Repair(m, _), _) = r {
        let args = seq![be_word(m.token_id as nat)];
        lemma_static_args("pendingRepairOf(uint256)"@, args);
        assert(arg_at(static_call("pendingRepairOf(uint256)"@, args), 0) == be_word(m.token_id as nat));
    }
    if let Step::Act(Transfer::Fuse(m, _, _), _) = r {
        let args = seq![be_word(m.token_id as nat)];
        lemma_static_args("pendingFuseOf(uint256)"@, args);
        assert(arg_at(static_call("pendingFuseOf(uint256)"@, args), 0) == be_word(m.token_id as nat));
    }
    if let Step::Act(Transfer::Tx(m), _) = r {
        let args = seq![address_word(m.agent@), address_word(m.to@), be_word(m.token_id as nat)];
        lemma_static_args("transferFrom(address,address,uint256)"@, args);
        assert(arg_at(static_call("transferFrom(address,address,uint256)"@, args), 0) == address_word(m.agent@));
        assert(arg_at(static_call("transferFrom(address,address,uint256)"@, args), 1) == address_word(m.to@));
        assert(arg_at(static_call("transferFrom(address,address,uint256)"@, args), 2) == be_word(m.token_id as nat));
    }
}

/// After a transfer the token, both parties and the transaction are told.
pub proof fn law_transfer_is_told(m: Move, tx: Seq<char>)
    ensures
        member(moved_v(m, tx).data, "token_id"@) == Some(num_v(m.token_id as int)),
        member(moved_v(m, tx).data, "from"@) == Some(JsonV::Str(hex_0x(m.agent@))),
        member(moved_v(m, tx).data, "to"@) == Some(JsonV::Str(m.to_text@)),
        member(moved_v(m, tx).data, "tx_hash"@) == Some(JsonV::Str(tx)),
        moved_v(m, tx).status == "ok"@,
{
    reveal_strlit("token_id");
    reveal_strlit("from");
    reveal_strlit("to");
    reveal_strlit("tx_hash");
    assert("token_id"@.len() == 8);
    assert("from"@.len() == 4);
    assert("to"@.len() == 2);
    assert("tx_hash"@.len() == 7);
}

/// A token that the agent owns and that nothing locks is moved.
pub proof fn law_free_token_is_moved(s: Transfer, reply: Reply, r: Step<Transfer, Outcome>)
    requires
        transfer_next(s, reply, r),
    ensures
        s matches Transfer::Owner(m, _) ==> (reply matches Reply::Bytes(Ok(raw)) ==> (address_result(raw@) matches Ok(owner)
            ==> ((r matches Step::Act(Transfer::Repair(_, _), _)) <==> owner == m.agent@))),
        s matches Transfer::Fuse(_, _, repair) ==> (reply matches Reply::Bytes(Ok(raw)) ==> (uint_result(raw@) matches Ok(
            fuse,
        ) ==> ((r matches Step::Act(Transfer::Tx(_), _)) <==> repair@ == 0 && fuse == 0))),
        r matches Step::Act(Transfer::Repair(m, nft), _) ==> s == Transfer::Owner(m, nft),
        r matches Step::Act(Transfer::Fuse(m, nft, _), _) ==> s == Transfer::Repair(m, nft),
        r matches Step::Act(Transfer::Owner(m, _), _) ==> (s matches Transfer::Nft(k, _) && k == m),
        r matches Step::Act(Transfer::Nft(m, _), _) ==> s == Transfer::Contracts(m),
{
}

/// The token contract of a transfer is the one that the configuration names, or that is set in the environment.
pub proof fn law_transfer_settings(s: Transfer, reply: Reply, r: Step<Transfer, Outcome>)
    requires
        transfer_next(s, reply, r),
    ensures
        r matches Step::Act(Transfer::Nft(_, _), a) ==> a@ == ActionV::Env("ARDI_NFT_ADDR"@),
        r matches Step::Act(Transfer::Owner(_, nft), _) ==> (s matches Transfer::Nft(_, cfg) && (reply matches Reply::Maybe(set)
            && contract_result(
            cfg@,
            "ardi_nft"@,
            opt_text_view(set),
            "server didn't return ardi_nft; set ARDI_NFT_ADDR env"@,
        ) == Ok::<Seq<u8>, Seq<Seq<char>>>(nft@))),
        s matches Transfer::Tx(m) ==> (reply matches Reply::Sent(Ok((h, true))) ==> (r matches Step::End(Outcome::Print(o)) && o@
            == moved_v(m, h@))),
        s matches Transfer::Tx(_) ==> (reply matches Reply::Sent(Ok((_, false))) ==> (r matches Step::End(Outcome::Fail(_)))),
        s matches Transfer::Owner(m, _) ==> (reply matches Reply::Bytes(Ok(raw)) ==> (address_result(raw@) matches Ok(owner) ==> (
        owner != m.agent@ ==> (r matches Step::End(Outcome::Print(o)) && o@.error_code == Some("NOT_TOKEN_OWNER"@))))),
        s matches Transfer::Fuse(m, _, repair) ==> (reply matches Reply::Bytes(Ok(raw)) ==> (uint_result(raw@) matches Ok(fuse)
            ==> (repair@ != 0 || fuse != 0 ==> (r matches Step::End(Outcome::Print(o)) && o@.error_code == Some(
            "TOKEN_LOCKED"@,
        ))))),
{
}

/// One that does not own the token is told who does, and then who asked.
pub proof fn law_owner_is_named(s: Transfer, reply: Reply, r: Step<Transfer, Outcome>)
    requires
        transfer_next(s, reply, r),
    ensures
        s matches Transfer::Owner(m, _) ==> (reply matches Reply::Bytes(Ok(raw)) ==> (address_result(raw@) matches Ok(owner) ==> (
        owner != m.agent@ ==> (r matches Step::End(Outcome::Print(o)) && has_prefix(
            o@.message,
            "tokenId "@ + dec_text(m.token_id as nat) + " is owned by "@ + hex_0x(owner) + ", not by us ("@ + hex_0x(m.agent@),
        ))))),
{
    if let (Transfer::Owner(m, _), Reply::Bytes(Ok(raw))) = (s, reply) {
        if let Ok(owner) = address_result(raw@) {
            let head = "tokenId "@ + dec_text(m.token_id as nat) + " is owned by "@ + hex_0x(owner) + ", not by us ("@
                + hex_0x(m.agent@);
            assert(not_owner_v(m.token_id, owner, m.agent@).message.take(head.len() as int) =~= head);
        }
    }
}

} // verus!
