//! reveal: show the answer of a commit, with the salt that was kept.
use vstd::prelude::*;
use vstd::utf8::encode_utf8;

use crate::address::{address_error_text, parsed_address, Address};
use crate::bytes::{be_number, hex_0x, hex_bytes, hex_decode, hex_error_text, law_hex_round_trip, lemma_strip_hex_0x};
use crate::chain::{commit_digest, selector_of};
use crate::cmd::commit::{
    commit_next, entry_v, recorded, sealed_hash, with_commit, Commit, Sealed,
};
use crate::cmd::gas::{warn, warned_data, warned_message, GasCheck};
use crate::cmd::{
    inscribe_command, inscribe_command_v, named_contract, read_contract, reveal_command,
    reveal_command_v,
};
use crate::fault::{caused_v, fault_v, top_v, Fault};
use crate::flow::{
    fail, fails, print, prints, reverted_text, standing, standing_v, stray, stray_v, Action, ActionV,
    Outcome, Reply, Step, TxFault, TxRequest, TxRequestV,
};
use crate::json::{empty_object, json_pretty_text, member, num_v, with_member, Json, JsonV};
use crate::num::{dec, dec_text};
use crate::output::{error_v, next_v, success_v, Internal, Output, OutputV};
use crate::schema::opt_text_view;
use crate::state::{
    key_text, loaded, loaded_file, state_json, status_title, CommitStatus, PendingCommitV,
    State,
};
use crate::text::{cat2, cat3, cat5, cat7, strip_prefixes, without_prefixes};
use crate::tx::{
    calldata_reveal, commit_call, law_commit_data, law_reveal_data, law_reveal_names_the_commit, reveal_call,
    COMMIT_BOND_WEI,
};

verus! {

/// A reveal that passed the first checks.
pub struct Revelation {
    pub epoch_id: u64,
    pub word_id: u64,
    /// The agent's address as it was found.
    pub agent_text: String,
    /// The agent.
    pub agent: Address,
    /// The state file.
    pub file: Option<String>,
    /// The answer that was committed.
    pub answer: String,
    /// The salt that it was committed with.
    pub nonce: [u8; 32],
}

/// The reveal command.
pub enum Reveal {
    /// The agent's address is looked for.
    Address(u64, u64),
    /// The state is read.
    Known(u64, u64, String, Address),
    /// The epoch is fetched.
    Epoch(Revelation),
    /// The contract that is set is asked for.
    Override(Revelation),
    /// The current epoch is fetched, for the contract.
    Current(Revelation),
    /// The transaction is made.
    Tx(Revelation),
    /// The state is written.
    Saved(Revelation, String),
    /// The balance is checked.
    Warn(Revelation, String),
}

/// The output where nothing is known of the commit.
pub open spec fn no_commit_v(epoch: u64, word: u64) -> OutputV {
    error_v(
        "No local state for epoch="@ + dec_text(epoch as nat) + " word_id="@ + dec_text(word as nat)
            + "."@,
        "NO_LOCAL_COMMIT"@,
        "state"@,
        false,
        "Did you commit first? `ardi-agent commits` lists what we have. If you committed from a different machine, the salt is lost and reveal cannot be reconstructed — bond will be forfeited."@,
        next_v("list_state"@, Some("ardi-agent commits"@)),
    )
}

fn no_commit(epoch: u64, word: u64) -> (r: Output)
    ensures
        r@ == no_commit_v(epoch, word),
{
    let e = dec(epoch);
    let w = dec(word);
    Output::error(
        cat5("No local state for epoch=", e.as_str(), " word_id=", w.as_str(), "."),
        "NO_LOCAL_COMMIT",
        "state",
        false,
        "Did you commit first? `ardi-agent commits` lists what we have. If you committed from a different machine, the salt is lost and reveal cannot be reconstructed — bond will be forfeited.",
        Internal::run("list_state", "ardi-agent commits"),
    )
}

/// What to do about a commit that is not to be revealed.
pub open spec fn status_advice(s: CommitStatus) -> Seq<char> {
    match s {
        CommitStatus::Revealed => "Already revealed. Try `ardi-agent inscribe` next."@,
        CommitStatus::Inscribed => "Already inscribed. See `ardi-agent commits` for full state."@,
        CommitStatus::Lost => "VRF picked another winner — nothing more to do."@,
        _ => "Run `ardi-agent commits` to see full local state."@,
    }
}

/// The output where the commit is not to be revealed.
pub open spec fn wrong_status_v(s: CommitStatus) -> OutputV {
    error_v(
        "Status is "@ + status_title(s) + ", not committed — nothing to reveal."@,
        "WRONG_STATUS_FOR_REVEAL"@,
        "state"@,
        false,
        status_advice(s),
        next_v("review_state"@, Some("ardi-agent commits"@)),
    )
}

fn wrong_status(s: CommitStatus) -> (r: Output)
    ensures
        r@ == wrong_status_v(s),
{
    let advice = match s {
        CommitStatus::Revealed => "Already revealed. Try `ardi-agent inscribe` next.",
        CommitStatus::Inscribed => "Already inscribed. See `ardi-agent commits` for full state.",
        CommitStatus::Lost => "VRF picked another winner — nothing more to do.",
        _ => "Run `ardi-agent commits` to see full local state.",
    };
    Output::error(
        cat3("Status is ", s.title(), ", not committed — nothing to reveal."),
        "WRONG_STATUS_FOR_REVEAL",
        "state",
        false,
        advice,
        Internal::run("review_state", "ardi-agent commits"),
    )
}

/// The output where the contract is not known.
pub open spec fn no_contract_v() -> OutputV {
    error_v(
        "Could not resolve EpochDraw contract address."@,
        "SERVER_MISSING_CONTRACT_ADDR"@,
        "server"@,
        false,
        "Set ARDI_EPOCH_DRAW_ADDR env to override (mainnet default 0x21c2ebA5...)."@,
        next_v("blocked"@, None),
    )
}

fn no_contract() -> (r: Output)
    ensures
        r@ == no_contract_v(),
{
    Output::error(
        "Could not resolve EpochDraw contract address.".to_owned(),
        "SERVER_MISSING_CONTRACT_ADDR",
        "server",
        false,
        "Set ARDI_EPOCH_DRAW_ADDR env to override (mainnet default 0x21c2ebA5...).",
        Internal::stop("blocked"),
    )
}

/// The output where the transaction could not be sent.
pub open spec fn unsent_v(epoch: u64, word: u64, e: Seq<char>) -> OutputV {
    error_v(
        "Reveal tx broadcast failed: "@ + e,
        "REVEAL_TX_FAILED"@,
        "chain"@,
        true,
        "Common causes: (a) reveal window not yet open — server hasn't called publishAnswers; (b) tx underpriced; (c) RPC hiccup. Wait 30s then retry."@,
        next_v("retry_later"@, Some(reveal_command_v(epoch, word))),
    )
}

fn unsent(epoch: u64, word: u64, e: &str) -> (r: Output)
    ensures
        r@ == unsent_v(epoch, word, e@),
{
    let c = reveal_command(epoch, word);
    Output::error(
        cat2("Reveal tx broadcast failed: ", e),
        "REVEAL_TX_FAILED",
        "chain",
        true,
        "Common causes: (a) reveal window not yet open — server hasn't called publishAnswers; (b) tx underpriced; (c) RPC hiccup. Wait 30s then retry.",
        Internal::run("retry_later", c.as_str()),
    )
}

/// The salt that the state keeps as a text.
pub open spec fn salt_of(t: Seq<char>) -> Result<Seq<u8>, Seq<Seq<char>>> {
    let digits = without_prefixes(t, "0x"@);
    match hex_bytes(digits) {
        None => Err(
            caused_v(
                "invalid salt in state — file corrupted?"@,
                fault_v(hex_error_text(digits)),
            ),
        ),
        Some(b) => if b.len() != 32 {
            Err(fault_v("salt has wrong length"@))
        } else {
            Ok(b)
        },
    }
}

/// Reads the salt that the state keeps as a text.
pub fn read_salt(t: &str) -> (r: Result<[u8; 32], Fault>)
    ensures
        match r {
            Ok(b) => salt_of(t@) == Ok::<Seq<u8>, Seq<Seq<char>>>(b@),
            Err(f) => salt_of(t@) == Err::<Seq<u8>, Seq<Seq<char>>>(f@),
        },
{
    let digits = strip_prefixes(t, "0x");
    match hex_decode(digits.as_str()) {
        Err(e) => Err(Fault::new(e).because("invalid salt in state — file corrupted?")),
        Ok(b) => {
            if b.len() != 32 {
                return Err(Fault::of("salt has wrong length"));
            }
            let mut out = [0u8; 32];
            let mut i: usize = 0;
            while i < 32
                invariant
                    i <= 32,
                    b@.len() == 32,
                    forall|j: int| 0 <= j < i ==> out@[j] == b@[j],
                decreases 32 - i,
            {
                out[i] = b[i];
                i += 1;
            }
            assert(out@ =~= b@);
            Ok(out)
        },
    }
}

/// What comes next with the state.
pub open spec fn known_next(
    epoch: u64,
    word: u64,
    agent_text: String,
    agent: Address,
    file: Option<String>,
    r: Step<Reveal, Outcome>,
) -> bool {
    let st = loaded_file(opt_text_view(file));
    let key = key_text(epoch, word);
    if !st.dom().contains(key) {
        prints(r, no_commit_v(epoch, word))
    } else if st[key].status != CommitStatus::Committed {
        prints(r, wrong_status_v(st[key].status))
    } else {
        match salt_of(st[key].salt_hex) {
            Err(f) => fails(r, f),
            Ok(salt) => {
                &&& r matches Step::Act(Reveal::Epoch(p), a)
                &&& p.epoch_id == epoch
                &&& p.word_id == word
                &&& p.agent_text == agent_text
                &&& p.agent == agent
                &&& p.file == file
                &&& p.answer@ == st[key].answer
                &&& p.nonce@ == salt
                &&& a@ == ActionV::Get("/v1/epoch/"@ + dec_text(epoch as nat))
            },
        }
    }
}

/// Goes on with the state.
pub fn with_state(epoch: u64, word: u64, agent_text: String, agent: Address, file: Option<String>) -> (r: Step<Reveal, Outcome>)
    ensures
        known_next(epoch, word, agent_text, agent, file, r),
{
    let st = State::load(&file);
    match st.get(epoch, word) {
        None => print(no_commit(epoch, word)),
        Some(c) => {
            if c.status != CommitStatus::Committed {
                return print(wrong_status(c.status));
            }
            match read_salt(c.salt_hex.as_str()) {
                Err(f) => fail(f),
                Ok(nonce) => {
                    let e = dec(epoch);
                    let path = cat2("/v1/epoch/", e.as_str());
                    Step::Act(
                        Reveal::Epoch(
                            Revelation {
                                epoch_id: epoch,
                                word_id: word,
                                agent_text,
                                agent,
                                file,
                                answer: c.answer.clone(),
                                nonce,
                            },
                        ),
                        Action::Get(path),
                    )
                },
            }
        },
    }
}

/// What comes next with the text of the contract's address.
pub open spec fn contract_next(p: Revelation, contract: Seq<char>, r: Step<Reveal, Outcome>) -> bool {
    match parsed_address(contract) {
        None => prints(r, no_contract_v()),
        Some(to) => {
            &&& r matches Step::Act(Reveal::Tx(q), a)
            &&& q == p
            &&& a@ == ActionV::Transact(
                TxRequestV {
                    from: p.agent@,
                    to,
                    data: reveal_call(p.epoch_id, p.word_id, p.answer@, p.nonce@),
                    value_wei: 0,
                    gas_limit: 250_000,
                },
            )
        },
    }
}

/// Goes on with the text of the contract's address.
pub fn with_contract(p: Revelation, contract: &str) -> (r: Step<Reveal, Outcome>)
    ensures
        contract_next(p, contract@, r),
{
    match Address::parse(contract) {
        Err(_) => print(no_contract()),
        Ok(to) => {
            let t = TxRequest {
                from: p.agent,
                to,
                data: calldata_reveal(p.epoch_id, p.word_id, p.answer.as_str(), p.nonce),
                value_wei: 0,
                gas_limit: 250_000,
            };
            Step::Act(Reveal::Tx(p), Action::Transact(t))
        },
    }
}

/// The contract to reveal to: the one that the current epoch names, or else the known one.
pub open spec fn draw_contract(found: Result<Option<Json>, Fault>) -> Seq<char> {
    let default = "0xA57d8E6646E063FFd6eae579d4f327b689dA5DC3"@;
    match found {
        Ok(Some(v)) => match named_contract(v@, "epochDrawContract"@, "epoch_draw_contract"@) {
            Some(t) => t,
            None => default,
        },
        _ => default,
    }
}

/// The contract to reveal to.
pub fn read_draw_contract(found: &Result<Option<Json>, Fault>) -> (r: String)
    ensures
        r@ == draw_contract(*found),
{
    match found {
        Ok(Some(v)) => match read_contract(v, "epochDrawContract", "epoch_draw_contract") {
            Some(t) => t,
            None => "0xA57d8E6646E063FFd6eae579d4f327b689dA5DC3".to_owned(),
        },
        _ => "0xA57d8E6646E063FFd6eae579d4f327b689dA5DC3".to_owned(),
    }
}

/// The state once the reveal is in it.
pub open spec fn after_reveal(m: Map<Seq<char>, PendingCommitV>, epoch: u64, word: u64, tx: Seq<char>) -> Map<
    Seq<char>,
    PendingCommitV,
> {
    let key = key_text(epoch, word);
    if m.dom().contains(key) {
        m.insert(
            key,
            PendingCommitV { status: CommitStatus::Revealed, reveal_tx: Some(tx), ..m[key] },
        )
    } else {
        m
    }
}

/// The text of the state file once the reveal is in it. It is read back as the state with the reveal.
pub fn record(file: &Option<String>, epoch: u64, word: u64, tx: &str) -> (r: String)
    ensures
        r@ == json_pretty_text(
            state_json(after_reveal(loaded_file(opt_text_view(*file)), epoch, word, tx@)),
        ),
        loaded(r@)
            == after_reveal(loaded_file(opt_text_view(*file)), epoch, word, tx@),
{
    let mut st = State::load(file);
    match st.get_mut(epoch, word) {
        Some(c) => {
            c.status = CommitStatus::Revealed;
            c.reveal_tx = Some(tx.to_owned());
        },
        None => {},
    }
    st.to_text()
}

/// The output of a reveal that was made, with a warning where the balance calls for one.
pub open spec fn revealed_v(p: Revelation, tx: Seq<char>, gas: Result<GasCheck, Fault>) -> OutputV {
    let o = with_member(empty_object(), "epoch_id"@, num_v(p.epoch_id as int));
    let o = with_member(o, "word_id"@, num_v(p.word_id as int));
    let o = with_member(o, "tx_hash"@, JsonV::Str(tx));
    let message = "Reveal submitted: epoch="@ + dec_text(p.epoch_id as nat) + " word="@ + dec_text(
        p.word_id as nat,
    ) + " tx="@ + tx + ". Wait for VRF (~30s after request_draw), then run inscribe."@;
    success_v(
        warned_message(message, p.agent_text@, gas),
        warned_data(o, p.agent_text@, gas),
        next_v(
            "wait_vrf_then_inscribe"@,
            Some(inscribe_command_v(p.epoch_id, p.word_id)),
        ),
    )
}

/// The output of a reveal that was made.
pub fn revealed(p: &Revelation, tx: &str, gas: &Result<GasCheck, Fault>) -> (r: Output)
    ensures
        r@ == revealed_v(*p, tx@, *gas),
{
    let e = dec(p.epoch_id);
    let w = dec(p.word_id);
    let o = Json::object().with("epoch_id", Json::number(p.epoch_id)).with(
        "word_id",
        Json::number(p.word_id),
    ).with("tx_hash", Json::text(tx));
    let message = cat7(
        "Reveal submitted: epoch=",
        e.as_str(),
        " word=",
        w.as_str(),
        " tx=",
        tx,
        ". Wait for VRF (~30s after request_draw), then run inscribe.",
    );
    let (message, o) = warn(message, o, p.agent_text.as_str(), gas);
    let c = inscribe_command(p.epoch_id, p.word_id);
    Output::success(message, o, Internal::run("wait_vrf_then_inscribe", c.as_str()))
}

/// What comes next where the reveal is not known to be sent, or failed on the chain: the state stays as it is.
pub open spec fn unsent_next(p: Revelation, e: Result<(String, bool), TxFault>, r: Step<Reveal, Outcome>) -> bool {
    match e {
        Ok((h, _)) => prints(r, unsent_v(p.epoch_id, p.word_id, reverted_text(h@))),
        Err(TxFault::Build(f)) => fails(r, f@),
        Err(TxFault::Send(f)) => prints(r, unsent_v(p.epoch_id, p.word_id, top_v(f@))),
        Err(TxFault::Receipt(_, f)) => fails(r, f@),
    }
}

fn when_unsent(p: Revelation, e: Result<(String, bool), TxFault>) -> (r: Step<Reveal, Outcome>)
    ensures
        unsent_next(p, e, r),
{
    match e {
        Ok((h, _)) => {
            let t = cat3("transaction ", h.as_str(), " reverted");
            print(unsent(p.epoch_id, p.word_id, t.as_str()))
        },
        Err(TxFault::Build(f)) => fail(f),
        Err(TxFault::Send(f)) => {
            let t = f.top();
            print(unsent(p.epoch_id, p.word_id, t.as_str()))
        },
        Err(TxFault::Receipt(_, f)) => fail(f),
    }
}

/// What comes next in the reveal command.
pub open spec fn reveal_next(s: Reveal, reply: Reply, r: Step<Reveal, Outcome>) -> bool {
    match (s, reply) {
        (Reveal::Address(e, w), Reply::Text(Ok(t))) => match parsed_address(t@) {
            None => fails(r, fault_v(address_error_text(t@))),
            Some(a) => {
                &&& r matches Step::Act(Reveal::Known(x, y, u, b), act)
                &&& x == e
                &&& y == w
                &&& u == t
                &&& b@ == a
                &&& act@ == ActionV::Load
            },
        },
        (Reveal::Known(e, w, t, a), Reply::File(Ok(file))) => known_next(e, w, t, a, file, r),
        (Reveal::Epoch(p), Reply::Doc(Ok(_))) => {
            &&& r matches Step::Act(Reveal::Override(q), act)
            &&& q == p
            &&& act@ == ActionV::Env("ARDI_EPOCH_DRAW_ADDR"@)
        },
        (Reveal::Override(p), Reply::Maybe(Some(t))) => contract_next(p, t@, r),
        (Reveal::Override(p), Reply::Maybe(None)) => {
            &&& r matches Step::Act(Reveal::Current(q), act)
            &&& q == p
            &&& act@ == ActionV::TryGet("/v1/epoch/current"@)
        },
        (Reveal::Current(p), Reply::Found(found)) => contract_next(p, draw_contract(found), r),
        (Reveal::Tx(p), Reply::Sent(e)) => match standing_v(e) {
            Some(h) => {
                &&& r matches Step::Act(Reveal::Saved(q, g), act)
                &&& q == p
                &&& g == h
                &&& act@ == ActionV::Save(
                    json_pretty_text(
                        state_json(
                            after_reveal(
                                loaded_file(opt_text_view(p.file)),
                                p.epoch_id,
                                p.word_id,
                                h@,
                            ),
                        ),
                    ),
                )
            },
            None => unsent_next(p, e, r),
        },
        (Reveal::Saved(p, h), Reply::Done(Ok(_))) => {
            &&& r matches Step::Act(Reveal::Warn(q, g), act)
            &&& q == p
            &&& g == h
            &&& act@ == ActionV::Balance(p.agent_text@)
        },
        (Reveal::Warn(p, h), Reply::Gas(g)) => prints(r, revealed_v(p, h@, g)),
        (Reveal::Address(_, _), Reply::Text(Err(f))) => fails(r, f@),
        (Reveal::Known(_, _, _, _), Reply::File(Err(f))) => fails(r, f@),
        (Reveal::Epoch(_), Reply::Doc(Err(f))) => fails(r, f@),
        (Reveal::Saved(_, _), Reply::Done(Err(f))) => fails(r, f@),
        _ => fails(r, stray_v()),
    }
}

/// Starts the reveal command.
pub fn run(epoch_id: u64, word_id: u64) -> (r: Step<Reveal, Outcome>)
    ensures
        r matches Step::Act(Reveal::Address(e, w), a) && e == epoch_id && w == word_id && a@
            == ActionV::Address,
{
    Step::Act(Reveal::Address(epoch_id, word_id), Action::Address)
}

impl Reveal {
    /// Goes on with the reply.
    pub fn step(self, reply: Reply) -> (r: Step<Reveal, Outcome>)
        ensures
            reveal_next(self, reply, r),
    {
        match (self, reply) {
            (Reveal::Address(e, w), Reply::Text(Ok(t))) => match Address::parse(t.as_str()) {
                Ok(a) => Step::Act(Reveal::Known(e, w, t, a), Action::Load),
                Err(x) => fail(Fault::new(x)),
            },
            (Reveal::Known(e, w, t, a), Reply::File(Ok(file))) => with_state(e, w, t, a, file),
            (Reveal::Epoch(p), Reply::Doc(Ok(_))) => Step::Act(
                Reveal::Override(p),
                Action::Env("ARDI_EPOCH_DRAW_ADDR".to_owned()),
            ),
            (Reveal::Override(p), Reply::Maybe(set)) => match set {
                Some(t) => with_contract(p, t.as_str()),
                None => Step::Act(
                    Reveal::Current(p),
                    Action::TryGet("/v1/epoch/current".to_owned()),
                ),
            },
            (Reveal::Current(p), Reply::Found(found)) => {
                let t = read_draw_contract(&found);
                with_contract(p, t.as_str())
            },
            (Reveal::Tx(p), Reply::Sent(e)) => match standing(e) {
                Ok(h) => {
                    let t = record(&p.file, p.epoch_id, p.word_id, h.as_str());
                    Step::Act(Reveal::Saved(p, h), Action::Save(t))
                },
                Err(x) => when_unsent(p, x),
            },
            (Reveal::Saved(p, h), Reply::Done(Ok(_))) => {
                let a = Action::Balance(p.agent_text.clone());
                Step::Act(Reveal::Warn(p, h), a)
            },
            (Reveal::Warn(p, h), Reply::Gas(g)) => print(revealed(&p, h.as_str(), &g)),
            (Reveal::Address(_, _), Reply::Text(Err(f))) => fail(f),
            (Reveal::Known(_, _, _, _), Reply::File(Err(f))) => fail(f),
            (Reveal::Epoch(_), Reply::Doc(Err(f))) => fail(f),
            (Reveal::Saved(_, _), Reply::Done(Err(f))) => fail(f),
            _ => fail(stray()),
        }
    }
}

/// The answer and the salt that are kept of a commit are what was committed: the salt can be read back, and
/// with the answer and the agent it gives the hash that stands on the chain.
pub proof fn law_reveal_opens_commit(s: Sealed, tx: Seq<char>, now: i64)
    ensures
        ({
            let kept = entry_v(s, tx, now);
            &&& salt_of(kept.salt_hex) == Ok::<Seq<u8>, Seq<Seq<char>>>(s.salt@)
            &&& commit_digest(kept.answer, s.ready.agent@, s.salt@) == sealed_hash(s)
            &&& kept.commit_hash == hex_0x(commit_digest(kept.answer, s.ready.agent@, s.salt@))
        }),
{
    lemma_strip_hex_0x(s.salt@);
    law_hex_round_trip(s.salt@);
}

/// Where the state file holds what was kept of a commit, a reveal of it goes on, with the answer and the salt
/// that give the hash on the chain.
pub proof fn law_kept_commit_is_revealed(
    s: Sealed,
    tx: Seq<char>,
    now: i64,
    t: String,
    a: Address,
    file: Option<String>,
    r: Step<Reveal, Outcome>,
)
    requires
        loaded_file(opt_text_view(file)).dom().contains(key_text(s.ready.epoch_id, s.ready.args.word_id)),
        loaded_file(opt_text_view(file))[key_text(s.ready.epoch_id, s.ready.args.word_id)] == entry_v(s, tx, now),
        reveal_next(
            Reveal::Known(s.ready.epoch_id, s.ready.args.word_id, t, a),
            Reply::File(Ok(file)),
            r,
        ),
    ensures
        r matches Step::Act(Reveal::Epoch(p), _) && p.nonce@ == s.salt@ && p.answer@
            == s.ready.args.answer@ && commit_digest(p.answer@, s.ready.agent@, p.nonce@) == sealed_hash(s),
{
    law_reveal_opens_commit(s, tx, now);
}

/// What a commit sends and keeps is what the reveal of it opens: where the commit was sent with the hash of the
/// answer, the agent and the salt, and with the bond, and the file that it wrote is read, the reveal by the same
/// agent goes on, and it sends that answer and that salt, without a value.
pub proof fn law_reveal_opens_the_sent_commit(
    s: Sealed,
    n: usize,
    cap: Result<Vec<u8>, Fault>,
    sent: Step<Commit, Outcome>,
    h: String,
    file: Option<String>,
    kept: Step<Commit, Outcome>,
    saved: String,
    t: String,
    a: Address,
    begun: Step<Reveal, Outcome>,
    p: Revelation,
    at: Reveal,
    reply: Reply,
    shown: Step<Reveal, Outcome>,
)
    requires
        commit_next(Commit::Cap(s, n), Reply::Bytes(cap), sent),
        sent is Act,
        commit_next(Commit::Record(s, h), Reply::File(Ok(file)), kept),
        kept matches Step::Act(_, act) && act@ == ActionV::Save(saved@),
        a@ == s.ready.agent@,
        reveal_next(
            Reveal::Known(s.ready.epoch_id, s.ready.args.word_id, t, a),
            Reply::File(Ok(Some(saved))),
            begun,
        ),
        begun matches Step::Act(Reveal::Epoch(q), _) ==> q == p,
        at == Reveal::Override(p) || at == Reveal::Current(p),
        reveal_next(at, reply, shown),
    ensures
        sent matches Step::Act(_, act) && act@ == ActionV::Submit(
            TxRequestV {
                from: s.ready.agent@,
                to: s.to@,
                data: commit_call(
                    s.ready.epoch_id,
                    s.ready.args.word_id,
                    commit_digest(s.ready.args.answer@, s.ready.agent@, s.salt@),
                    s.stakers@,
                ),
                value_wei: COMMIT_BOND_WEI,
                gas_limit: 200_000,
            },
        ),
        begun is Act,
        shown matches Step::Act(_, act) ==> (act@ matches ActionV::Transact(tx) ==> tx.from == s.ready.agent@
            && tx.data == reveal_call(
            s.ready.epoch_id,
            s.ready.args.word_id,
            s.ready.args.answer@,
            s.salt@,
        ) && tx.value_wei == 0),
{
    let m = loaded_file(opt_text_view(file));
    let now = choose|now: i64|
        {
            &&& kept matches Step::Act(Commit::Saved(x, g), act)
            &&& x == s
            &&& g == h
            &&& act@ == ActionV::Save(#[trigger] recorded(opt_text_view(file), s, h@, now))
            &&& loaded(recorded(opt_text_view(file), s, h@, now)) == with_commit(m, s, h@, now)
        };
    assert(loaded_file(opt_text_view(Some(saved))) == with_commit(m, s, h@, now));
    law_kept_commit_is_revealed(s, h@, now, t, a, Some(saved), begun);
}

/// Recording a reveal leaves the answer and the salt, and all other commits, as they are.
pub proof fn law_reveal_keeps_the_rest(m: Map<Seq<char>, PendingCommitV>, epoch: u64, word: u64, tx: Seq<char>, k: Seq<char>)
    ensures
        ({
            let after = after_reveal(m, epoch, word, tx);
            &&& after.dom() == m.dom()
            &&& m.dom().contains(k) && k != key_text(epoch, word) ==> after[k] == m[k]
            &&& m.dom().contains(k) ==> after[k].answer == m[k].answer && after[k].salt_hex == m[k].salt_hex
        }),
{
    assert(after_reveal(m, epoch, word, tx).dom() =~= m.dom());
}

/// A reveal goes on only for a commit that is kept, not revealed yet and has a salt that can be read.
pub proof fn law_reveal_needs_a_commit(s: Reveal, reply: Reply, r: Step<Reveal, Outcome>)
    requires
        reveal_next(s, reply, r),
    ensures
        r matches Step::Act(Reveal::Epoch(p), _) ==> ({
            let m = loaded_file(opt_text_view(p.file));
            let key = key_text(p.epoch_id, p.word_id);
            &&& m.dom().contains(key)
            &&& m[key].status == CommitStatus::Committed
            &&& m[key].answer == p.answer@
            &&& salt_of(m[key].salt_hex) == Ok::<Seq<u8>, Seq<Seq<char>>>(p.nonce@)
        }),
{
}

/// A reveal names, on the bytes of its call data, the epoch and the word that were asked for, and opens them with the
/// answer and the salt that the state file keeps for them.
pub proof fn law_reveal_sends_the_kept_answer(s: Reveal, reply: Reply, r: Step<Reveal, Outcome>)
    requires
        reveal_next(s, reply, r),
    ensures
        r matches Step::Act(Reveal::Tx(p), a) ==> ({
            &&& s == Reveal::Override(p) || s == Reveal::Current(p)
            &&& a@ matches ActionV::Transact(t)
            &&& t.from == p.agent@
            &&& t.value_wei == 0
            &&& t.data.take(4) == selector_of("reveal(uint256,uint256,string,bytes32)"@)
            &&& t.gas_limit == 250_000
            &&& be_number(t.data.subrange(4, 36)) == p.epoch_id
            &&& be_number(t.data.subrange(36, 68)) == p.word_id
            &&& t.data.subrange(100, 132) == p.nonce@
            &&& t.data.subrange(164, 164 + encode_utf8(p.answer@).len() as int) == encode_utf8(p.answer@)
        }),
        r matches Step::Act(Reveal::Epoch(p), _) ==> (s matches Reveal::Known(e, w, t, a) && p.epoch_id == e && p.word_id
            == w && p.agent == a && p.agent_text == t),
        r matches Step::Act(Reveal::Epoch(p), a) ==> a@ == ActionV::Get("/v1/epoch/"@ + dec_text(p.epoch_id as nat)),
        r matches Step::Act(Reveal::Known(e, w, t, a), _) ==> s == Reveal::Address(e, w) && reply == Reply::Text(
            Ok::<String, Fault>(t),
        ) && Some(a@) == parsed_address(t@),
        r matches Step::Act(Reveal::Warn(p, h), a) ==> s == Reveal::Saved(p, h) && a@ == ActionV::Balance(p.agent_text@),
{
    if let Step::Act(Reveal::Tx(p), _) = r {
        law_reveal_data(p.epoch_id, p.word_id, p.answer@, p.nonce@, reveal_call(p.epoch_id, p.word_id, p.answer@, p.nonce@));
    }
}

/// On the bytes of the two transactions: the reveal names the epoch and the word in the same two words as the commit
/// that was sent, the commit carries the bond, and its third word is the hash of what the reveal opens.
pub proof fn law_reveal_matches_the_commit_on_bytes(
    x: Sealed,
    n: usize,
    cap: Result<Vec<u8>, Fault>,
    sent: Step<Commit, Outcome>,
    p: Revelation,
    at: Reveal,
    reply: Reply,
    shown: Step<Reveal, Outcome>,
)
    requires
        commit_next(Commit::Cap(x, n), Reply::Bytes(cap), sent),
        p.epoch_id == x.ready.epoch_id,
        p.word_id == x.ready.args.word_id,
        p.answer@ == x.ready.args.answer@,
        p.nonce@ == x.salt@,
        at == Reveal::Override(p) || at == Reveal::Current(p),
        reveal_next(at, reply, shown),
    ensures
        sent matches Step::Act(_, b) ==> (b@ matches ActionV::Submit(t) ==> ({
            &&& t.value_wei == 10_000_000_000_000
            &&& be_number(t.data.subrange(4, 36)) == x.ready.epoch_id
            &&& be_number(t.data.subrange(36, 68)) == x.ready.args.word_id
            &&& t.data.subrange(68, 100) == commit_digest(p.answer@, x.ready.agent@, p.nonce@)
            &&& shown matches Step::Act(Reveal::Tx(_), c) ==> (c@ matches ActionV::Transact(u) && u.data.subrange(4, 68)
                == t.data.subrange(4, 68))
        })),
{
    let h = sealed_hash(x);
    assert(x.stakers.len() == x.stakers@.len());
    law_reveal_names_the_commit(
        x.ready.epoch_id,
        x.ready.args.word_id,
        h,
        x.stakers@,
        p.answer@,
        p.nonce@,
        commit_call(x.ready.epoch_id, x.ready.args.word_id, h, x.stakers@),
        reveal_call(p.epoch_id, p.word_id, p.answer@, p.nonce@),
    );
    law_commit_data(
        x.ready.epoch_id,
        x.ready.args.word_id,
        h,
        x.stakers@,
        commit_call(x.ready.epoch_id, x.ready.args.word_id, h, x.stakers@),
    );
}

/// What a reveal leaves in the state is that it was made, under the hash of its transaction.
pub proof fn law_reveal_is_recorded(s: Reveal, reply: Reply, r: Step<Reveal, Outcome>, m: Map<Seq<char>, PendingCommitV>, e: u64, w: u64, tx: Seq<char>)
    requires
        reveal_next(s, reply, r),
    ensures
        m.dom().contains(key_text(e, w)) ==> after_reveal(m, e, w, tx)[key_text(e, w)].status == CommitStatus::Revealed
            && after_reveal(m, e, w, tx)[key_text(e, w)].reveal_tx == Some(tx),
        r matches Step::Act(Reveal::Saved(p, h), a) ==> ({
            &&& s == Reveal::Tx(p)
            &&& reply matches Reply::Sent(x)
            &&& (x matches Ok((g, ok)) && g == h && ok) || (x matches Err(TxFault::Receipt(g, _)) && g == h)
            &&& a@ matches ActionV::Save(text)
            &&& text == json_pretty_text(
                state_json(after_reveal(loaded_file(opt_text_view(p.file)), p.epoch_id, p.word_id, h@)),
            )
        }),
{
}

/// After a reveal the epoch, the word and the transaction are told, and the inscription of that word comes next.
pub proof fn law_reveal_is_told(p: Revelation, tx: Seq<char>, gas: Result<GasCheck, Fault>)
    ensures
        member(revealed_v(p, tx, gas).data, "epoch_id"@) == Some(num_v(p.epoch_id as int)),
        member(revealed_v(p, tx, gas).data, "word_id"@) == Some(num_v(p.word_id as int)),
        member(revealed_v(p, tx, gas).data, "tx_hash"@) == Some(JsonV::Str(tx)),
        revealed_v(p, tx, gas).status == "ok"@,
        revealed_v(p, tx, gas).internal.next_command == Some("ardi-agent inscribe --epoch "@ + dec_text(p.epoch_id as nat) + " --word-id "@ + dec_text(p.word_id as nat)),
{
    reveal_strlit("epoch_id");
    reveal_strlit("word_id");
    reveal_strlit("tx_hash");
    reveal_strlit("balance_warning");
    assert("epoch_id"@.len() == 8);
    assert("word_id"@.len() == 7 && "word_id"@[0] == 'w');
    assert("tx_hash"@.len() == 7 && "tx_hash"@[0] == 't');
    assert("balance_warning"@.len() == 15);
}

/// A reveal goes to the contract that is set, else to the one that the coordinator names as the draw contract, else to the
/// one that is known; it is sent wherever that is an address.
pub proof fn law_reveal_goes_to_the_draw(s: Reveal, reply: Reply, r: Step<Reveal, Outcome>, x: Seq<char>)
    requires
        reveal_next(s, reply, r),
    ensures
        s matches Reveal::Override(p) ==> (reply matches Reply::Maybe(Some(t)) ==> (parsed_address(t@) matches Some(to) ==> (
        r matches Step::Act(Reveal::Tx(q), a) && q == p && (a@ matches ActionV::Transact(u) && u.to == to)))),
        s matches Reveal::Current(p) ==> (reply matches Reply::Found(Ok(Some(v))) ==> (member(v@, "epochDrawContract"@)
            == Some(JsonV::Str(x)) ==> (parsed_address(x) matches Some(to) ==> (r matches Step::Act(Reveal::Tx(q), a) && q
            == p && (a@ matches ActionV::Transact(u) && u.to == to))))),
        s matches Reveal::Current(p) ==> (reply matches Reply::Found(Ok(None)) ==> (parsed_address(
            "0xA57d8E6646E063FFd6eae579d4f327b689dA5DC3"@,
        ) matches Some(to) ==> (r matches Step::Act(Reveal::Tx(q), a) && q == p && (a@ matches ActionV::Transact(u)
            && u.to == to)))),
        s matches Reveal::Known(e, w, _, _) ==> (reply matches Reply::File(Ok(file)) ==> ({
            let m = loaded_file(opt_text_view(file));
            let key = key_text(e, w);
            m.dom().contains(key) && m[key].status == CommitStatus::Committed && salt_of(m[key].salt_hex) is Ok ==> (
            r matches Step::Act(Reveal::Epoch(p), _) && p.answer@ == m[key].answer && salt_of(m[key].salt_hex) == Ok::<
                Seq<u8>,
                Seq<Seq<char>>,
            >(p.nonce@))
        })),
{
}

/// What a reveal needs is asked for where it stands: the state, the contract that is set, and the current epoch.
pub proof fn law_reveal_asks(s: Reveal, reply: Reply, r: Step<Reveal, Outcome>)
    requires
        reveal_next(s, reply, r),
    ensures
        r matches Step::Act(Reveal::Known(_, _, _, _), a) ==> a@ == ActionV::Load,
        r matches Step::Act(Reveal::Override(p), a) ==> s == Reveal::Epoch(p) && a@ == ActionV::Env("ARDI_EPOCH_DRAW_ADDR"@),
        r matches Step::Act(Reveal::Current(p), a) ==> s == Reveal::Override(p) && a@ == ActionV::TryGet("/v1/epoch/current"@),
        s matches Reveal::Warn(p, h) ==> (reply matches Reply::Gas(g) ==> (r matches Step::End(Outcome::Print(o)) && o@
            == revealed_v(p, h@, g))),
        s matches Reveal::Tx(p) ==> (reply matches Reply::Sent(Ok((_, false))) ==> (r matches Step::End(Outcome::Print(o))
            && o@.error_code == Some("REVEAL_TX_FAILED"@))),
        s matches Reveal::Tx(p) ==> (reply matches Reply::Sent(Err(TxFault::Send(_))) ==> (r matches Step::End(
            Outcome::Print(o),
        ) && o@.error_code == Some("REVEAL_TX_FAILED"@))),
{
}

/// A reveal that cannot be made names the word and its epoch, and one that was not sent is to be tried again for the same word.
pub proof fn law_reveal_refusals_name_the_word(s: Reveal, reply: Reply, r: Step<Reveal, Outcome>)
    requires
        reveal_next(s, reply, r),
    ensures
        s matches Reveal::Known(e, w, _, _) ==> (reply matches Reply::File(Ok(file)) ==> (!loaded_file(
            opt_text_view(file),
        ).dom().contains(key_text(e, w)) ==> (r matches Step::End(Outcome::Print(o)) && o@.error_code == Some(
            "NO_LOCAL_COMMIT"@,
        ) && o@.message == "No local state for epoch="@ + dec_text(e as nat) + " word_id="@ + dec_text(w as nat) + "."@))),
        s matches Reveal::Tx(p) ==> (r matches Step::End(Outcome::Print(o)) ==> o@.error_code == Some("REVEAL_TX_FAILED"@)
            && o@.internal.next_command == Some(
            "ardi-agent reveal --epoch "@ + dec_text(p.epoch_id as nat) + " --word-id "@ + dec_text(p.word_id as nat),
        )),
{
}

} // verus!
