//! inscribe: mint the token of a word that the draw gave to the agent.
use vstd::prelude::*;
use vstd::utf8::encode_utf8;
use vstd::slice::slice_subrange;

use crate::address::{address_error_text, parsed_address, zero_address, Address};
use crate::bytes::{be_number, hex_0x};
use crate::chain::{arg_at, call2, lemma_static_args, lemma_word_lengths, selector_of, static_call, uint_arg};
use crate::cmd::commits::{token_url, token_url_v, tx_url, tx_url_v};
use crate::cmd::gas::{warn, warned_data, warned_message, GasCheck};
use crate::cmd::{
    contract_text, inscribe_command, inscribe_command_v, resolve_contract, reveal_command,
    reveal_command_v,
};
use crate::fault::{fault_v, Fault};
use crate::flow::{
    fail, fails, print, prints, standing, standing_v, stray, stray_v, unsettled, unsettled_v, Action, ActionV,
    Outcome, Reply, Step, TxFault, TxRequest, TxRequestV,
};
use crate::json::{empty_object, json_pretty_text, member, num_v, with_member, Json, JsonV};
use crate::num::{dec, dec_text};
use crate::output::{error_v, next_v, success_v, Internal, Output, OutputV};
use crate::schema::opt_text_view;
use crate::state::{
    key_text, loaded, loaded_file, state_json, CommitStatus, PendingCommitV, State,
};
use crate::text::{cat2, cat3, cat4, cat5, quoted, quoted_text};
use crate::tx::{calldata_inscribe, inscribe_call, law_inscribe_data};
use crate::u256::{be_word, U256};

verus! {

/// An inscription that passed the first checks.
pub struct Minting {
    pub epoch_id: u64,
    pub word_id: u64,
    /// The agent's address as it was found.
    pub agent_text: String,
    /// The agent.
    pub agent: Address,
    /// The state file.
    pub file: Option<String>,
    /// The answer that was revealed.
    pub answer: String,
}

/// The inscribe command.
pub enum Inscribe {
    /// The agent's address is looked for.
    Address(u64, u64),
    /// The state is read.
    Known(u64, u64, String, Address),
    /// The epoch is fetched.
    Epoch(Minting),
    /// The current epoch is fetched, for the contracts.
    Current(Minting),
    /// The draw contract that is set is asked for.
    Draw(Minting, Result<Option<Json>, Fault>),
    /// The token contract that is set is asked for.
    Nft(Minting, Result<Option<Json>, Fault>, Address),
    /// The winner is read.
    Winner(Minting, Address, Address),
    /// The number of correct answers is read.
    Count(Minting),
    /// The state is written: there was no correct answer.
    NoPool(Minting),
    /// The state is written: another agent won.
    Beaten(Minting, Address),
    /// The transaction is made.
    Tx(Minting, Address),
    /// The state is written: the token is minted.
    Saved(Minting, Address, String, u64),
    /// The balance is checked.
    Warn(Minting, Address, String, u64),
}

/// The output where nothing is known of the commit.
pub open spec fn no_commit_v(epoch: u64, word: u64) -> OutputV {
    error_v(
        "No local state for epoch="@ + dec_text(epoch as nat) + " word_id="@ + dec_text(word as nat)
            + "."@,
        "NO_LOCAL_COMMIT"@,
        "state"@,
        false,
        "Inscribe requires a prior commit + reveal from THIS machine. If you committed elsewhere, the state file is on that machine."@,
        next_v("list_state"@, Some("ardi-agent commits"@)),
    )
}

fn no_commit(epoch: u64, word: u64) -> (r: Output)
    ensures
        r@ == no_commit_v(epoch, word),
{
    let e = dec(epoch);
    let w = dec(word);
    Output::error(
        cat5("No local state for epoch=", e.as_str(), " word_id=", w.as_str(), "."),
        "NO_LOCAL_COMMIT",
        "state",
        false,
        "Inscribe requires a prior commit + reveal from THIS machine. If you committed elsewhere, the state file is on that machine.",
        Internal::run("list_state", "ardi-agent commits"),
    )
}

/// The epoch, the word and the status of a commit.
pub open spec fn settled_data(epoch: u64, word: u64, status: Seq<char>) -> JsonV {
    let o = with_member(empty_object(), "epoch_id"@, num_v(epoch as int));
    let o = with_member(o, "word_id"@, num_v(word as int));
    with_member(o, "status"@, JsonV::Str(status))
}

fn settled(epoch: u64, word: u64, status: &str) -> (r: Json)
    ensures
        r@ == settled_data(epoch, word, status@),
{
    Json::object().with("epoch_id", Json::number(epoch)).with("word_id", Json::number(word)).with(
        "status",
        Json::text(status),
    )
}

/// The number of a token, or `None`.
pub open spec fn opt_number_text(n: Option<u64>) -> Seq<char> {
    match n {
        Some(n) => "Some("@ + dec_text(n as nat) + ")"@,
        None => "None"@,
    }
}

/// A text in quotes, or `None`.
pub open spec fn opt_quoted_text(t: Option<Seq<char>>) -> Seq<char> {
    match t {
        Some(t) => "Some("@ + quoted_text(t) + ")"@,
        None => "None"@,
    }
}

/// The output where the token is minted already.
pub open spec fn already_v(epoch: u64, word: u64, c: PendingCommitV) -> OutputV {
    success_v(
        "Already inscribed (token_id="@ + opt_number_text(c.token_id) + ", tx="@ + opt_quoted_text(
            c.inscribe_tx,
        ) + ")."@,
        settled_data(epoch, word, "inscribed"@),
        next_v("done"@, Some("ardi-agent commits"@)),
    )
}

fn already(epoch: u64, word: u64, token: Option<u64>, tx: &Option<String>) -> (r: Output)
    ensures
        forall|c: PendingCommitV|
            c.token_id == token && c.inscribe_tx == opt_text_view(*tx) ==> r@ == #[trigger] already_v(
                epoch,
                word,
                c,
            ),
{
    let t = match token {
        Some(n) => {
            let d = dec(n);
            cat3("Some(", d.as_str(), ")")
        },
        None => "None".to_owned(),
    };
    let h = match tx {
        Some(x) => {
            let q = quoted(x.as_str());
            cat3("Some(", q.as_str(), ")")
        },
        None => "None".to_owned(),
    };
    Output::success(
        cat5("Already inscribed (token_id=", t.as_str(), ", tx=", h.as_str(), ")."),
        settled(epoch, word, "inscribed"),
        Internal::run("done", "ardi-agent commits"),
    )
}

/// The output where the word is known to be lost.
pub open spec fn already_lost_v(epoch: u64, word: u64) -> OutputV {
    success_v(
        "Already marked lost (you weren't picked as winner). Nothing to inscribe."@,
        settled_data(epoch, word, "lost"@),
        next_v("skip"@, None),
    )
}

fn already_lost(epoch: u64, word: u64) -> (r: Output)
    ensures
        r@ == already_lost_v(epoch, word),
{
    Output::success(
        "Already marked lost (you weren't picked as winner). Nothing to inscribe.".to_owned(),
        settled(epoch, word, "lost"),
        Internal::stop("skip"),
    )
}

/// The output where the commit is not revealed yet.
pub open spec fn reveal_first_v(epoch: u64, word: u64) -> OutputV {
    error_v(
        "Cannot inscribe before reveal. Did you skip `reveal`?"@,
        "REVEAL_FIRST"@,
        "state"@,
        false,
        "Run: "@ + reveal_command_v(epoch, word),
        next_v("reveal_first"@, Some(reveal_command_v(epoch, word))),
    )
}

fn reveal_first(epoch: u64, word: u64) -> (r: Output)
    ensures
        r@ == reveal_first_v(epoch, word),
{
    let c = reveal_command(epoch, word);
    let s = cat2("Run: ", c.as_str());
    Output::error(
        "Cannot inscribe before reveal. Did you skip `reveal`?".to_owned(),
        "REVEAL_FIRST",
        "state",
        false,
        s.as_str(),
        Internal::run("reveal_first", c.as_str()),
    )
}

/// What comes next with the state.
pub open spec fn known_next(
    epoch: u64,
    word: u64,
    agent_text: String,
    agent: Address,
    file: Option<String>,
    r: Step<Inscribe, Outcome>,
) -> bool {
    let st = loaded_file(opt_text_view(file));
    let key = key_text(epoch, word);
    if !st.dom().contains(key) {
        prints(r, no_commit_v(epoch, word))
    } else {
        match st[key].status {
            CommitStatus::Inscribed => prints(r, already_v(epoch, word, st[key])),
            CommitStatus::Lost => prints(r, already_lost_v(epoch, word)),
            CommitStatus::Committed => prints(r, reveal_first_v(epoch, word)),
            _ => {
                &&& r matches Step::Act(Inscribe::Epoch(p), a)
                &&& p.epoch_id == epoch
                &&& p.word_id == word
                &&& p.agent_text == agent_text
                &&& p.agent == agent
                &&& p.file == file
                &&& p.answer@ == st[key].answer
                &&& a@ == ActionV::Get("/v1/epoch/"@ + dec_text(epoch as nat))
            },
        }
    }
}

/// Goes on with the state.
pub fn with_state(epoch: u64, word: u64, agent_text: String, agent: Address, file: Option<String>) -> (r: Step<Inscribe, Outcome>)
    ensures
        known_next(epoch, word, agent_text, agent, file, r),
{
    let st = State::load(&file);
    match st.get(epoch, word) {
        None => print(no_commit(epoch, word)),
        Some(c) => match c.status {
            CommitStatus::Inscribed => {
                let o = already(epoch, word, c.token_id, &c.inscribe_tx);
                assert(o@ == already_v(epoch, word, c@));
                print(o)
            },
            CommitStatus::Lost => print(already_lost(epoch, word)),
            CommitStatus::Committed => print(reveal_first(epoch, word)),
            _ => {
                let e = dec(epoch);
                let path = cat2("/v1/epoch/", e.as_str());
                let answer = c.answer.clone();
                Step::Act(
                    Inscribe::Epoch(
                        Minting { epoch_id: epoch, word_id: word, agent_text, agent, file, answer },
                    ),
                    Action::Get(path),
                )
            },
        },
    }
}

/// The call that asks for something of a word in an epoch.
pub open spec fn word_call(sig: Seq<char>, epoch: u64, word: u64) -> Seq<u8> {
    static_call(sig, seq![be_word(epoch as nat), be_word(word as nat)])
}

fn ask_word(sig: &str, epoch: u64, word: u64) -> (r: Vec<u8>)
    ensures
        r@ == word_call(sig@, epoch, word),
        be_number(r@.subrange(4, 36)) == epoch,
        be_number(r@.subrange(36, 68)) == word,
{
    let r = call2(sig, uint_arg(epoch), uint_arg(word));
    proof {
        lemma_word_lengths();
        let args = seq![be_word(epoch as nat), be_word(word as nat)];
        lemma_static_args(sig@, args);
        assert(arg_at(r@, 0) == args[0]);
        assert(arg_at(r@, 1) == args[1]);
    }
    r
}

/// What comes next with the winner of the word.
pub open spec fn winner_next(p: Minting, draw: Address, nft: Address, raw: Seq<u8>, r: Step<Inscribe, Outcome>) -> bool {
    if raw.len() < 32 {
        fails(r, fault_v("winners() returned <32 bytes"@))
    } else {
        let winner = raw.subrange(12, 32);
        if winner == zero_address() {
            &&& r matches Step::Act(Inscribe::Count(q), a)
            &&& q == p
            &&& a@ == ActionV::View(
                draw@,
                word_call("correctCount(uint256,uint256)"@, p.epoch_id, p.word_id),
            )
        } else if winner != p.agent@ {
            &&& r matches Step::Act(Inscribe::Beaten(q, w), a)
            &&& q == p
            &&& w@ == winner
            &&& a@ == ActionV::Save(
                json_pretty_text(
                    state_json(
                        after_loss(loaded_file(opt_text_view(p.file)), p.epoch_id, p.word_id),
                    ),
                ),
            )
        } else {
            &&& r matches Step::Act(Inscribe::Tx(q, n), a)
            &&& q == p
            &&& n == nft
            &&& a@ == ActionV::Transact(
                TxRequestV {
                    from: p.agent@,
                    to: nft@,
                    data: inscribe_call(p.epoch_id, p.word_id, p.answer@),
                    value_wei: 0,
                    gas_limit: 350_000,
                },
            )
        }
    }
}

/// Goes on with the winner of the word.
pub fn with_winner(p: Minting, draw: Address, nft: Address, raw: &Vec<u8>) -> (r: Step<Inscribe, Outcome>)
    ensures
        winner_next(p, draw, nft, raw@, r),
{
    if raw.len() < 32 {
        return fail(Fault::of("winners() returned <32 bytes"));
    }
    let winner = Address::from_word(raw, 0);
    if winner.is_zero() {
        let data = ask_word("correctCount(uint256,uint256)", p.epoch_id, p.word_id);
        Step::Act(Inscribe::Count(p), Action::View(draw, data))
    } else if !winner.same(&p.agent) {
        let t = record_loss(&p.file, p.epoch_id, p.word_id);
        Step::Act(Inscribe::Beaten(p, winner), Action::Save(t))
    } else {
        let t = TxRequest {
            from: p.agent,
            to: nft,
            data: calldata_inscribe(p.epoch_id, p.word_id, p.answer.as_str()),
            value_wei: 0,
            gas_limit: 350_000,
        };
        Step::Act(Inscribe::Tx(p, nft), Action::Transact(t))
    }
}

/// The state once the word is lost.
pub open spec fn after_loss(m: Map<Seq<char>, PendingCommitV>, epoch: u64, word: u64) -> Map<
    Seq<char>,
    PendingCommitV,
> {
    let key = key_text(epoch, word);
    if m.dom().contains(key) {
        m.insert(key, PendingCommitV { status: CommitStatus::Lost, ..m[key] })
    } else {
        m
    }
}

/// The text of the state file once the word is lost. It is read back as the state with the loss.
pub fn record_loss(file: &Option<String>, epoch: u64, word: u64) -> (r: String)
    ensures
        r@ == json_pretty_text(
            state_json(after_loss(loaded_file(opt_text_view(*file)), epoch, word)),
        ),
        loaded(r@)
            == after_loss(loaded_file(opt_text_view(*file)), epoch, word),
{
    let mut st = State::load(file);
    match st.get_mut(epoch, word) {
        Some(c) => {
            c.status = CommitStatus::Lost;
        },
        None => {},
    }
    st.to_text()
}

/// The state once the token is minted.
pub open spec fn after_mint(m: Map<Seq<char>, PendingCommitV>, epoch: u64, word: u64, tx: Seq<char>, token: u64) -> Map<
    Seq<char>,
    PendingCommitV,
> {
    let key = key_text(epoch, word);
    if m.dom().contains(key) {
        m.insert(
            key,
            PendingCommitV {
                status: CommitStatus::Inscribed,
                inscribe_tx: Some(tx),
                token_id: Some(token),
                ..m[key]
            },
        )
    } else {
        m
    }
}

/// The text of the state file once the token is minted. It is read back as the state with the token.
pub fn record_mint(file: &Option<String>, epoch: u64, word: u64, tx: &str, token: u64) -> (r: String)
    ensures
        r@ == json_pretty_text(
            state_json(after_mint(loaded_file(opt_text_view(*file)), epoch, word, tx@, token)),
        ),
        loaded(r@)
            == after_mint(loaded_file(opt_text_view(*file)), epoch, word, tx@, token),
{
    let mut st = State::load(file);
    match st.get_mut(epoch, word) {
        Some(c) => {
            c.status = CommitStatus::Inscribed;
            c.inscribe_tx = Some(tx.to_owned());
            c.token_id = Some(token);
        },
        None => {},
    }
    st.to_text()
}

/// How many correct answers a reply states; a reply that is too short states none.
pub open spec fn count_v(raw: Seq<u8>) -> nat {
    if raw.len() >= 32 {
        be_number(raw.subrange(0, 32))
    } else {
        0
    }
}

fn read_count(raw: &Vec<u8>) -> (r: U256)
    ensures
        r@ == count_v(raw@),
{
    if raw.len() >= 32 {
        U256::from_be_slice(slice_subrange(raw.as_slice(), 0, 32))
    } else {
        U256::zero()
    }
}

/// The output where nobody had the right answer.
pub open spec fn no_pool_v(p: Minting) -> OutputV {
    let o = with_member(empty_object(), "epoch_id"@, num_v(p.epoch_id as int));
    let o = with_member(o, "word_id"@, num_v(p.word_id as int));
    let o = with_member(o, "candidates"@, JsonV::Str("0"@));
    let o = with_member(o, "answer_was"@, JsonV::Str(p.answer@));
    let o = with_member(o, "vrf_state"@, JsonV::Str("no_candidate_pool"@));
    success_v(
        "No correct revealers for this riddle — your answer didn't match the canonical hash. Bond was refunded on reveal; nothing more to do here."@,
        o,
        next_v("no_candidate_pool"@, None),
    )
}

fn no_pool(p: &Minting) -> (r: Output)
    ensures
        r@ == no_pool_v(*p),
{
    let o = Json::object().with("epoch_id", Json::number(p.epoch_id)).with(
        "word_id",
        Json::number(p.word_id),
    ).with("candidates", Json::text("0")).with("answer_was", Json::text(p.answer.as_str())).with(
        "vrf_state",
        Json::text("no_candidate_pool"),
    );
    Output::success(
        "No correct revealers for this riddle — your answer didn't match the canonical hash. Bond was refunded on reveal; nothing more to do here.".to_owned(),
        o,
        Internal::stop("no_candidate_pool"),
    )
}

/// The output where the draw is still to come.
pub open spec fn pending_v(p: Minting, candidates: nat) -> OutputV {
    let o = with_member(empty_object(), "epoch_id"@, num_v(p.epoch_id as int));
    let o = with_member(o, "word_id"@, num_v(p.word_id as int));
    let o = with_member(o, "winner"@, JsonV::Str("0x0"@));
    let o = with_member(o, "candidates"@, JsonV::Str(dec_text(candidates)));
    let o = with_member(o, "vrf_state"@, JsonV::Str("pending"@));
    success_v(
        "VRF pending — "@ + dec_text(candidates)
            + " correct revealer(s), draw in flight. Base VRF callback usually lands in 1-3 min (worst case 10 min). Retry in 60s."@,
        o,
        next_v("wait_vrf"@, Some(inscribe_command_v(p.epoch_id, p.word_id))),
    )
}

fn pending(p: &Minting, candidates: &U256) -> (r: Output)
    ensures
        r@ == pending_v(*p, candidates@),
{
    let n = candidates.decimal();
    let m = cat3(
        "VRF pending — ",
        n.as_str(),
        " correct revealer(s), draw in flight. Base VRF callback usually lands in 1-3 min (worst case 10 min). Retry in 60s.",
    );
    let o = Json::object().with("epoch_id", Json::number(p.epoch_id)).with(
        "word_id",
        Json::number(p.word_id),
    ).with("winner", Json::text("0x0")).with("candidates", Json::Str(n)).with(
        "vrf_state",
        Json::text("pending"),
    );
    let c = inscribe_command(p.epoch_id, p.word_id);
    Output::success(m, o, Internal::run("wait_vrf", c.as_str()))
}

/// What comes next with the number of correct answers.
pub open spec fn count_next(p: Minting, candidates: nat, r: Step<Inscribe, Outcome>) -> bool {
    if candidates == 0 {
        &&& r matches Step::Act(Inscribe::NoPool(q), a)
        &&& q == p
        &&& a@ == ActionV::Save(
            json_pretty_text(
                state_json(after_loss(loaded_file(opt_text_view(p.file)), p.epoch_id, p.word_id)),
            ),
        )
    } else {
        prints(r, pending_v(p, candidates))
    }
}

fn with_count(p: Minting, candidates: U256) -> (r: Step<Inscribe, Outcome>)
    ensures
        count_next(p, candidates@, r),
{
    if candidates.is_zero() {
        let t = record_loss(&p.file, p.epoch_id, p.word_id);
        Step::Act(Inscribe::NoPool(p), Action::Save(t))
    } else {
        print(pending(&p, &candidates))
    }
}

/// The output where another agent won.
pub open spec fn beaten_v(p: Minting, winner: Seq<u8>) -> OutputV {
    let o = with_member(empty_object(), "epoch_id"@, num_v(p.epoch_id as int));
    let o = with_member(o, "word_id"@, num_v(p.word_id as int));
    let o = with_member(o, "winner"@, JsonV::Str(hex_0x(winner)));
    let o = with_member(o, "self"@, JsonV::Str(p.agent_text@));
    success_v(
        "Better luck next time — winner is "@ + hex_0x(winner) + ", not us."@,
        o,
        next_v("skip"@, None),
    )
}

fn beaten(p: &Minting, winner: &Address) -> (r: Output)
    ensures
        r@ == beaten_v(*p, winner@),
{
    let w = winner.lower();
    let m = cat3("Better luck next time — winner is ", w.as_str(), ", not us.");
    let o = Json::object().with("epoch_id", Json::number(p.epoch_id)).with(
        "word_id",
        Json::number(p.word_id),
    ).with("winner", Json::Str(w)).with("self", Json::text(p.agent_text.as_str()));
    Output::success(m, o, Internal::stop("skip"))
}

/// The output of a token that was minted, with a warning where the balance calls for one.
pub open spec fn minted_v(p: Minting, nft: Seq<u8>, tx: Seq<char>, token: u64, gas: Result<GasCheck, Fault>) -> OutputV {
    let page = token_url_v(hex_0x(nft), token as nat);
    let o = with_member(empty_object(), "epoch_id"@, num_v(p.epoch_id as int));
    let o = with_member(o, "word_id"@, num_v(p.word_id as int));
    let o = with_member(o, "tx_hash"@, JsonV::Str(tx));
    let o = with_member(o, "tx_url"@, JsonV::Str(tx_url_v(tx)));
    let o = with_member(o, "token_id"@, num_v(token as int));
    let o = with_member(o, "token_url"@, JsonV::Str(page));
    success_v(
        warned_message(
            "🎉 Inscribed Ardinal #"@ + dec_text(token as nat) + " — "@ + page,
            p.agent_text@,
            gas,
        ),
        warned_data(o, p.agent_text@, gas),
        next_v("celebrate"@, Some("ardi-agent commits"@)),
    )
}

/// The output of a token that was minted.
pub fn minted(p: &Minting, nft: &Address, tx: &str, token: u64, gas: &Result<GasCheck, Fault>) -> (r: Output)
    ensures
        r@ == minted_v(*p, nft@, tx@, token, *gas),
{
    let n = nft.lower();
    let page = token_url(n.as_str(), token);
    let t = dec(token);
    let m = cat4("🎉 Inscribed Ardinal #", t.as_str(), " — ", page.as_str());
    let o = Json::object().with("epoch_id", Json::number(p.epoch_id)).with(
        "word_id",
        Json::number(p.word_id),
    ).with("tx_hash", Json::text(tx)).with("tx_url", Json::Str(tx_url(tx))).with(
        "token_id",
        Json::number(token),
    ).with("token_url", Json::Str(page));
    let (m, o) = warn(m, o, p.agent_text.as_str(), gas);
    Output::success(m, o, Internal::run("celebrate", "ardi-agent commits"))
}

/// The address of the draw contract.
pub open spec fn draw_text(set: Option<Seq<char>>, found: Result<Option<Json>, Fault>) -> Seq<char> {
    contract_text(
        set,
        found,
        "epochDrawContract"@,
        "epoch_draw_contract"@,
        "0xA57d8E6646E063FFd6eae579d4f327b689dA5DC3"@,
    )
}

/// The address of the token contract.
pub open spec fn nft_text(set: Option<Seq<char>>, found: Result<Option<Json>, Fault>) -> Seq<char> {
    contract_text(
        set,
        found,
        "ardiNftContract"@,
        "ardi_nft_contract"@,
        "0xf68425D0d451699d0d766150634E436Acd2F05A1"@,
    )
}

/// What comes next once the mint is sent: the token is kept. A mint whose receipt did not come counts as sent.
pub open spec fn mint_next(p: Minting, n: Address, h: String, r: Step<Inscribe, Outcome>) -> bool {
    if p.word_id == u64::MAX {
        fails(r, fault_v("token id out of range"@))
    } else {
        &&& r matches Step::Act(Inscribe::Saved(q, m, g, t), act)
        &&& q == p
        &&& m == n
        &&& g == h
        &&& t == p.word_id + 1
        &&& act@ == ActionV::Save(
            json_pretty_text(
                state_json(
                    after_mint(
                        loaded_file(opt_text_view(p.file)),
                        p.epoch_id,
                        p.word_id,
                        h@,
                        (p.word_id + 1) as u64,
                    ),
                ),
            ),
        )
    }
}

/// What comes next in the inscribe command.
pub open spec fn inscribe_next(s: Inscribe, reply: Reply, r: Step<Inscribe, Outcome>) -> bool {
    match (s, reply) {
        (Inscribe::Address(e, w), Reply::Text(Ok(t))) => match parsed_address(t@) {
            None => fails(r, fault_v(address_error_text(t@))),
            Some(a) => {
                &&& r matches Step::Act(Inscribe::Known(x, y, u, b), act)
                &&& x == e
                &&& y == w
                &&& u == t
                &&& b@ == a
                &&& act@ == ActionV::Load
            },
        },
        (Inscribe::Known(e, w, t, a), Reply::File(Ok(file))) => known_next(e, w, t, a, file, r),
        (Inscribe::Epoch(p), Reply::Doc(Ok(_))) => {
            &&& r matches Step::Act(Inscribe::Current(q), act)
            &&& q == p
            &&& act@ == ActionV::TryGet("/v1/epoch/current"@)
        },
        (Inscribe::Current(p), Reply::Found(found)) => {
            &&& r matches Step::Act(Inscribe::Draw(q, f), act)
            &&& q == p
            &&& f == found
            &&& act@ == ActionV::Env("ARDI_EPOCH_DRAW_ADDR"@)
        },
        (Inscribe::Draw(p, found), Reply::Maybe(set)) => match parsed_address(
            draw_text(opt_text_view(set), found),
        ) {
            None => fails(r, fault_v(address_error_text(draw_text(opt_text_view(set), found)))),
            Some(d) => {
                &&& r matches Step::Act(Inscribe::Nft(q, f, x), act)
                &&& q == p
                &&& f == found
                &&& x@ == d
                &&& act@ == ActionV::Env("ARDI_NFT_ADDR"@)
            },
        },
        (Inscribe::Nft(p, found, draw), Reply::Maybe(set)) => match parsed_address(
            nft_text(opt_text_view(set), found),
        ) {
            None => fails(r, fault_v(address_error_text(nft_text(opt_text_view(set), found)))),
            Some(n) => {
                &&& r matches Step::Act(Inscribe::Winner(q, d, x), act)
                &&& q == p
                &&& d == draw
                &&& x@ == n
                &&& act@ == ActionV::View(
                    draw@,
                    word_call("winners(uint256,uint256)"@, p.epoch_id, p.word_id),
                )
            },
        },
        (Inscribe::Winner(p, d, n), Reply::Bytes(Ok(raw))) => winner_next(p, d, n, raw@, r),
        (Inscribe::Count(p), Reply::Bytes(Ok(raw))) => count_next(p, count_v(raw@), r),
        (Inscribe::NoPool(p), Reply::Done(Ok(_))) => prints(r, no_pool_v(p)),
        (Inscribe::Beaten(p, w), Reply::Done(Ok(_))) => prints(r, beaten_v(p, w@)),
        (Inscribe::Tx(p, n), Reply::Sent(e)) => match standing_v(e) {
            None => fails(r, unsettled_v(e, "send inscribe tx"@)),
            Some(h) => mint_next(p, n, h, r),
        },
        (Inscribe::Saved(p, n, h, t), Reply::Done(Ok(_))) => {
            &&& r matches Step::Act(Inscribe::Warn(q, m, g, u), act)
            &&& q == p
            &&& m == n
            &&& g == h
            &&& u == t
            &&& act@ == ActionV::Balance(p.agent_text@)
        },
        (Inscribe::Warn(p, n, h, t), Reply::Gas(g)) => prints(r, minted_v(p, n@, h@, t, g)),
        (Inscribe::Address(_, _), Reply::Text(Err(f))) => fails(r, f@),
        (Inscribe::Known(_, _, _, _), Reply::File(Err(f))) => fails(r, f@),
        (Inscribe::Epoch(_), Reply::Doc(Err(f))) => fails(r, f@),
        (Inscribe::Winner(_, _, _), Reply::Bytes(Err(f))) => fails(r, f@),
        (Inscribe::Count(_), Reply::Bytes(Err(f))) => fails(r, f@),
        (Inscribe::NoPool(_), Reply::Done(Err(f))) => fails(r, f@),
        (Inscribe::Beaten(_, _), Reply::Done(Err(f))) => fails(r, f@),
        (Inscribe::Saved(_, _, _, _), Reply::Done(Err(f))) => fails(r, f@),
        _ => fails(r, stray_v()),
    }
}

/// Starts the inscribe command.
pub fn run(epoch_id: u64, word_id: u64) -> (r: Step<Inscribe, Outcome>)
    ensures
        r matches Step::Act(Inscribe::Address(e, w), a) && e == epoch_id && w == word_id && a@
            == ActionV::Address,
{
    Step::Act(Inscribe::Address(epoch_id, word_id), Action::Address)
}

impl Inscribe {
    /// Goes on with the reply.
    pub fn step(self, reply: Reply) -> (r: Step<Inscribe, Outcome>)
        ensures
            inscribe_next(self, reply, r),
    {
        match (self, reply) {
            (Inscribe::Address(e, w), Reply::Text(Ok(t))) => match Address::parse(t.as_str()) {
                Ok(a) => Step::Act(Inscribe::Known(e, w, t, a), Action::Load),
                Err(x) => fail(Fault::new(x)),
            },
            (Inscribe::Known(e, w, t, a), Reply::File(Ok(file))) => with_state(e, w, t, a, file),
            (Inscribe::Epoch(p), Reply::Doc(Ok(_))) => Step::Act(
                Inscribe::Current(p),
                Action::TryGet("/v1/epoch/current".to_owned()),
            ),
            (Inscribe::Current(p), Reply::Found(found)) => Step::Act(
                Inscribe::Draw(p, found),
                Action::Env("ARDI_EPOCH_DRAW_ADDR".to_owned()),
            ),
            (Inscribe::Draw(p, found), Reply::Maybe(set)) => {
                let t = resolve_contract(
                    set,
                    &found,
                    "epochDrawContract",
                    "epoch_draw_contract",
                    "0xA57d8E6646E063FFd6eae579d4f327b689dA5DC3",
                );
                match Address::parse(t.as_str()) {
                    Ok(draw) => Step::Act(
                        Inscribe::Nft(p, found, draw),
                        Action::Env("ARDI_NFT_ADDR".to_owned()),
                    ),
                    Err(x) => fail(Fault::new(x)),
                }
            },
            (Inscribe::Nft(p, found, draw), Reply::Maybe(set)) => {
                let t = resolve_contract(
                    set,
                    &found,
                    "ardiNftContract",
                    "ardi_nft_contract",
                    "0xf68425D0d451699d0d766150634E436Acd2F05A1",
                );
                match Address::parse(t.as_str()) {
                    Ok(nft) => {
                        let data = ask_word("winners(uint256,uint256)", p.epoch_id, p.word_id);
                        Step::Act(Inscribe::Winner(p, draw, nft), Action::View(draw, data))
                    },
                    Err(x) => fail(Fault::new(x)),
                }
            },
            (Inscribe::Winner(p, d, n), Reply::Bytes(Ok(raw))) => with_winner(p, d, n, &raw),
            (Inscribe::Count(p), Reply::Bytes(Ok(raw))) => with_count(p, read_count(&raw)),
            (Inscribe::NoPool(p), Reply::Done(Ok(_))) => print(no_pool(&p)),
            (Inscribe::Beaten(p, w), Reply::Done(Ok(_))) => print(beaten(&p, &w)),
            (Inscribe::Tx(p, n), Reply::Sent(e)) => match standing(e) {
                Err(x) => fail(unsettled(x, "send inscribe tx")),
                Ok(h) => {
                    if p.word_id == u64::MAX {
                        return fail(Fault::of("token id out of range"));
                    }
                    let token = p.word_id + 1;
                    let t = record_mint(&p.file, p.epoch_id, p.word_id, h.as_str(), token);
                    Step::Act(Inscribe::Saved(p, n, h, token), Action::Save(t))
                },
            },
            (Inscribe::Saved(p, n, h, t), Reply::Done(Ok(_))) => {
                let a = Action::Balance(p.agent_text.clone());
                Step::Act(Inscribe::Warn(p, n, h, t), a)
            },
            (Inscribe::Warn(p, n, h, t), Reply::Gas(g)) => print(minted(&p, &n, h.as_str(), t, &g)),
            (Inscribe::Address(_, _), Reply::Text(Err(f))) => fail(f),
            (Inscribe::Known(_, _, _, _), Reply::File(Err(f))) => fail(f),
            (Inscribe::Epoch(_), Reply::Doc(Err(f))) => fail(f),
            (Inscribe::Winner(_, _, _), Reply::Bytes(Err(f))) => fail(f),
            (Inscribe::Count(_), Reply::Bytes(Err(f))) => fail(f),
            (Inscribe::NoPool(_), Reply::Done(Err(f))) => fail(f),
            (Inscribe::Beaten(_, _), Reply::Done(Err(f))) => fail(f),
            (Inscribe::Saved(_, _, _, _), Reply::Done(Err(f))) => fail(f),
            _ => fail(stray()),
        }
    }
}

/// Recording a loss or a mint leaves the answer and the salt, and all other commits, as they are.
pub proof fn law_inscribe_keeps_the_rest(
    m: Map<Seq<char>, PendingCommitV>,
    epoch: u64,
    word: u64,
    tx: Seq<char>,
    token: u64,
    k: Seq<char>,
)
    ensures
        ({
            let lost = after_loss(m, epoch, word);
            let won = after_mint(m, epoch, word, tx, token);
            &&& lost.dom() == m.dom() && won.dom() == m.dom()
            &&& m.dom().contains(k) && k != key_text(epoch, word) ==> lost[k] == m[k] && won[k] == m[k]
            &&& m.dom().contains(k) ==> lost[k].answer == m[k].answer && won[k].answer == m[k].answer
            &&& m.dom().contains(k) ==> lost[k].salt_hex == m[k].salt_hex && won[k].salt_hex
                == m[k].salt_hex
        }),
{
    assert(after_loss(m, epoch, word).dom() =~= m.dom());
    assert(after_mint(m, epoch, word, tx, token).dom() =~= m.dom());
}

/// The token is only minted where the draw names the agent, and for the answer that was revealed.
pub proof fn law_mint_needs_the_draw(s: Inscribe, reply: Reply, r: Step<Inscribe, Outcome>)
    requires
        inscribe_next(s, reply, r),
    ensures
        (r matches Step::Act(_, a) && a@ is Transact) ==> (s matches Inscribe::Winner(p, _, nft) && (
        reply matches Reply::Bytes(Ok(raw)) && raw@.len() >= 32 && raw@.subrange(12, 32) == p.agent@) && (
        r matches Step::Act(Inscribe::Tx(q, _), a) && q == p && a@->Transact_0.data == inscribe_call(
            p.epoch_id,
            p.word_id,
            p.answer@,
        ))),
        r matches Step::Act(Inscribe::Epoch(p), _) ==> ({
            let m = loaded_file(opt_text_view(p.file));
            let key = key_text(p.epoch_id, p.word_id);
            &&& m.dom().contains(key)
            &&& m[key].status != CommitStatus::Committed
            &&& m[key].status != CommitStatus::Lost
            &&& m[key].status != CommitStatus::Inscribed
            &&& m[key].answer == p.answer@
        }),
{
}

/// The draw is asked about the epoch and the word that are inscribed, in this order: first who won, and where nobody
/// did yet, how many answers were correct.
pub proof fn law_draw_is_asked_about_the_word(s: Inscribe, reply: Reply, r: Step<Inscribe, Outcome>)
    requires
        inscribe_next(s, reply, r),
    ensures
        r matches Step::Act(Inscribe::Winner(p, draw, _), a) ==> ({
            &&& a@ matches ActionV::View(to, data)
            &&& to == draw@
            &&& data.take(4) == selector_of("winners(uint256,uint256)"@)
            &&& be_number(data.subrange(4, 36)) == p.epoch_id
            &&& be_number(data.subrange(36, 68)) == p.word_id
        }),
        r matches Step::Act(Inscribe::Count(p), a) ==> ({
            &&& s matches Inscribe::Winner(q, draw, _)
            &&& q == p
            &&& a@ matches ActionV::View(to, data)
            &&& to == draw@
            &&& data.take(4) == selector_of("correctCount(uint256,uint256)"@)
            &&& be_number(data.subrange(4, 36)) == p.epoch_id
            &&& be_number(data.subrange(36, 68)) == p.word_id
        }),
{
    lemma_word_lengths();
    if let Step::Act(Inscribe::Winner(p, _, _), _) = r {
        let args = seq![be_word(p.epoch_id as nat), be_word(p.word_id as nat)];
        lemma_static_args("winners(uint256,uint256)"@, args);
        assert(arg_at(static_call("winners(uint256,uint256)"@, args), 0) == be_word(p.epoch_id as nat));
        assert(arg_at(static_call("winners(uint256,uint256)"@, args), 1) == be_word(p.word_id as nat));
        assert(arg_at(static_call("winners(uint256,uint256)"@, args), 0) == static_call(
            "winners(uint256,uint256)"@,
            args,
        ).subrange(4, 36));
    }
    if let Step::Act(Inscribe::Count(p), _) = r {
        let args = seq![be_word(p.epoch_id as nat), be_word(p.word_id as nat)];
        lemma_static_args("correctCount(uint256,uint256)"@, args);
        assert(arg_at(static_call("correctCount(uint256,uint256)"@, args), 0) == be_word(p.epoch_id as nat));
        assert(arg_at(static_call("correctCount(uint256,uint256)"@, args), 1) == be_word(p.word_id as nat));
        assert(arg_at(static_call("correctCount(uint256,uint256)"@, args), 0) == static_call(
            "correctCount(uint256,uint256)"@,
            args,
        ).subrange(4, 36));
    }
}

/// Only the winner mints, and mints the word that was won: the token contract is sent the epoch, the word and the
/// answer that the state file keeps, without a value.
pub proof fn law_mint_names_the_word(s: Inscribe, reply: Reply, r: Step<Inscribe, Outcome>)
    requires
        inscribe_next(s, reply, r),
    ensures
        r matches Step::Act(Inscribe::Tx(p, nft), a) ==> ({
            &&& s matches Inscribe::Winner(q, _, n)
            &&& q == p && n == nft
            &&& reply matches Reply::Bytes(Ok(raw))
            &&& raw@.subrange(12, 32) == p.agent@
            &&& a@ matches ActionV::Transact(t)
            &&& t.from == p.agent@
            &&& t.to == nft@
            &&& t.value_wei == 0
            &&& t.data.take(4) == selector_of("inscribe(uint64,uint256,string)"@)
            &&& t.gas_limit == 350_000
            &&& be_number(t.data.subrange(4, 36)) == p.epoch_id
            &&& be_number(t.data.subrange(36, 68)) == p.word_id
            &&& t.data.subrange(132, 132 + encode_utf8(p.answer@).len() as int) == encode_utf8(p.answer@)
        }),
        s matches Inscribe::Winner(p, _, _) ==> (reply matches Reply::Bytes(Ok(raw)) ==> (raw@.len() >= 32 ==> ({
            let zero = forall|i: int| 12 <= i < 32 ==> #[trigger] raw@[i] == 0;
            &&& r is Act
            &&& zero <==> (r matches Step::Act(Inscribe::Count(_), _))
            &&& !zero && raw@.subrange(12, 32) == p.agent@ <==> (r matches Step::Act(Inscribe::Tx(_, _), _))
            &&& !zero && raw@.subrange(12, 32) != p.agent@ <==> (r matches Step::Act(Inscribe::Beaten(_, _), _))
        }))),
{
    if let Step::Act(Inscribe::Tx(p, _), _) = r {
        law_inscribe_data(p.epoch_id, p.word_id, p.answer@, inscribe_call(p.epoch_id, p.word_id, p.answer@));
    }
    if let (Inscribe::Winner(p, _, _), Reply::Bytes(Ok(raw))) = (s, reply) {
        if raw@.len() >= 32 {
            let w = raw@.subrange(12, 32);
            if forall|i: int| 12 <= i < 32 ==> #[trigger] raw@[i] == 0 {
                assert(w =~= zero_address());
            } else {
                let i = choose|i: int| 12 <= i < 32 && #[trigger] raw@[i] != 0;
                assert(w[i - 12] != 0);
                assert(zero_address()[i - 12] == 0);
            }
        }
    }
}

/// A commit is marked as lost only where another agent won or no answer was correct, and a mint keeps the token whose
/// number is one above the word's; all of it under the key of that epoch and that word.
pub proof fn law_inscribe_marks_the_word(s: Inscribe, reply: Reply, r: Step<Inscribe, Outcome>, m: Map<Seq<char>, PendingCommitV>)
    requires
        inscribe_next(s, reply, r),
    ensures
        r matches Step::Act(Inscribe::NoPool(p), _) ==> (s == Inscribe::Count(p) && (reply matches Reply::Bytes(Ok(raw))
            && (raw@.len() >= 32 ==> be_number(raw@.subrange(0, 32)) == 0))),
        r matches Step::Act(Inscribe::Beaten(p, w), _) ==> (s matches Inscribe::Winner(q, _, _) && q == p && (
        reply matches Reply::Bytes(Ok(raw)) && w@ == raw@.subrange(12, 32) && w@ != p.agent@)),
        r matches Step::Act(Inscribe::Saved(p, _, h, token), _) ==> (s matches Inscribe::Tx(q, _) && q == p && token
            == p.word_id + 1 && (reply matches Reply::Sent(e) && ((e matches Ok((g, ok)) && g == h && ok) || (
        e matches Err(TxFault::Receipt(g, _)) && g == h)))),
        forall|e: u64, w: u64| #[trigger]
            m.dom().contains(key_text(e, w)) ==> after_loss(m, e, w)[key_text(e, w)].status == CommitStatus::Lost,
        forall|e: u64, w: u64, tx: Seq<char>, token: u64|
            m.dom().contains(key_text(e, w)) ==> ({
                let c = (#[trigger] after_mint(m, e, w, tx, token))[key_text(e, w)];
                &&& c.status == CommitStatus::Inscribed
                &&& c.inscribe_tx == Some(tx)
                &&& c.token_id == Some(token)
            }),
{
}

/// After a mint the epoch, the word, the transaction and the token are told, whatever is said of the balance.
pub proof fn law_mint_is_told(p: Minting, nft: Seq<u8>, tx: Seq<char>, token: u64, gas: Result<GasCheck, Fault>)
    ensures
        member(minted_v(p, nft, tx, token, gas).data, "epoch_id"@) == Some(num_v(p.epoch_id as int)),
        member(minted_v(p, nft, tx, token, gas).data, "word_id"@) == Some(num_v(p.word_id as int)),
        member(minted_v(p, nft, tx, token, gas).data, "tx_hash"@) == Some(JsonV::Str(tx)),
        member(minted_v(p, nft, tx, token, gas).data, "token_id"@) == Some(num_v(token as int)),
        member(minted_v(p, nft, tx, token, gas).data, "token_url"@) == Some(JsonV::Str(token_url_v(hex_0x(nft), token as nat))),
        member(minted_v(p, nft, tx, token, gas).data, "tx_url"@) == Some(JsonV::Str(tx_url_v(tx))),
        minted_v(p, nft, tx, token, gas).status == "ok"@,
{
    reveal_strlit("epoch_id");
    reveal_strlit("word_id");
    reveal_strlit("tx_hash");
    reveal_strlit("token_id");
    reveal_strlit("token_url");
    reveal_strlit("tx_url");
    reveal_strlit("balance_warning");
    assert("epoch_id"@.len() == 8 && "epoch_id"@[0] == 'e');
    assert("token_id"@.len() == 8 && "token_id"@[0] == 't');
    assert("word_id"@.len() == 7 && "word_id"@[0] == 'w');
    assert("tx_hash"@.len() == 7 && "tx_hash"@[0] == 't');
    assert("token_url"@.len() == 9);
    assert("tx_url"@.len() == 6);
    assert("balance_warning"@.len() == 15);
}

/// Of a draw the word is told, and who won it, how many answers compete for it, or that none was correct.
pub proof fn law_draw_is_told(p: Minting, winner: Seq<u8>, n: nat)
    ensures
        member(beaten_v(p, winner).data, "epoch_id"@) == Some(num_v(p.epoch_id as int)),
        member(beaten_v(p, winner).data, "word_id"@) == Some(num_v(p.word_id as int)),
        member(beaten_v(p, winner).data, "winner"@) == Some(JsonV::Str(hex_0x(winner))),
        member(beaten_v(p, winner).data, "self"@) == Some(JsonV::Str(p.agent_text@)),
        member(pending_v(p, n).data, "epoch_id"@) == Some(num_v(p.epoch_id as int)),
        member(pending_v(p, n).data, "word_id"@) == Some(num_v(p.word_id as int)),
        member(pending_v(p, n).data, "candidates"@) == Some(JsonV::Str(dec_text(n))),
        member(pending_v(p, n).data, "vrf_state"@) == Some(JsonV::Str("pending"@)),
        member(no_pool_v(p).data, "epoch_id"@) == Some(num_v(p.epoch_id as int)),
        member(no_pool_v(p).data, "word_id"@) == Some(num_v(p.word_id as int)),
        member(no_pool_v(p).data, "candidates"@) == Some(JsonV::Str("0"@)),
        member(no_pool_v(p).data, "vrf_state"@) == Some(JsonV::Str("no_candidate_pool"@)),
{
    reveal_strlit("epoch_id");
    reveal_strlit("word_id");
    reveal_strlit("winner");
    reveal_strlit("self");
    reveal_strlit("candidates");
    reveal_strlit("vrf_state");
    reveal_strlit("answer_was");
    assert("epoch_id"@.len() == 8);
    assert("word_id"@.len() == 7);
    assert("winner"@.len() == 6);
    assert("self"@.len() == 4);
    assert("candidates"@.len() == 10 && "candidates"@[0] == 'c');
    assert("answer_was"@.len() == 10 && "answer_was"@[0] == 'a');
    assert("vrf_state"@.len() == 9);
}

/// The draw contract and the token contract are those that are set, else those that the coordinator names as such.
pub proof fn law_draw_and_token_contracts(set: Seq<char>, v: Json, t: Seq<char>)
    ensures
        draw_text(Some(set), Ok(Some(v))) == set,
        nft_text(Some(set), Ok(Some(v))) == set,
        member(v@, "epochDrawContract"@) == Some(JsonV::Str(t)) ==> draw_text(None, Ok(Some(v))) == t,
        member(v@, "ardiNftContract"@) == Some(JsonV::Str(t)) ==> nft_text(None, Ok(Some(v))) == t,
        member(v@, "epochDrawContract"@) is None && member(v@, "epoch_draw_contract"@) == Some(JsonV::Str(t)) ==> draw_text(
            None,
            Ok(Some(v)),
        ) == t,
        member(v@, "ardiNftContract"@) is None && member(v@, "ardi_nft_contract"@) == Some(JsonV::Str(t)) ==> nft_text(
            None,
            Ok(Some(v)),
        ) == t,
        draw_text(None, Ok(None)) == "0xA57d8E6646E063FFd6eae579d4f327b689dA5DC3"@,
        nft_text(None, Ok(None)) == "0xf68425D0d451699d0d766150634E436Acd2F05A1"@,
{
}

/// An inscription begins with the epoch and the word that were asked for, and only a commit that is kept as revealed or
/// won, or that failed, is taken to the draw.
pub proof fn law_inscribe_begins_with_the_word(s: Inscribe, reply: Reply, r: Step<Inscribe, Outcome>)
    requires
        inscribe_next(s, reply, r),
    ensures
        r matches Step::Act(Inscribe::Known(e, w, t, a), _) ==> s == Inscribe::Address(e, w) && reply == Reply::Text(
            Ok::<String, Fault>(t),
        ) && Some(a@) == parsed_address(t@),
        r matches Step::Act(Inscribe::Epoch(p), _) ==> (s matches Inscribe::Known(e, w, t, a) && p.epoch_id == e && p.word_id
            == w && p.agent == a && p.agent_text == t),
        r matches Step::Act(Inscribe::Epoch(p), a) ==> a@ == ActionV::Get("/v1/epoch/"@ + dec_text(p.epoch_id as nat)),
        s matches Inscribe::Known(e, w, _, _) ==> (reply matches Reply::File(Ok(file)) ==> ({
            let m = loaded_file(opt_text_view(file));
            let key = key_text(e, w);
            (r matches Step::Act(Inscribe::Epoch(_), _)) <==> m.dom().contains(key) && (m[key].status
                == CommitStatus::Revealed || m[key].status == CommitStatus::Won || m[key].status == CommitStatus::Failed)
        })),
        r matches Step::Act(Inscribe::Winner(p, draw, nft), _) ==> (s matches Inscribe::Nft(q, found, d) && q == p && d
            == draw && (reply matches Reply::Maybe(set) && Some(nft@) == parsed_address(
            nft_text(opt_text_view(set), found),
        ))),
        r matches Step::Act(Inscribe::Nft(p, _, draw), _) ==> (s matches Inscribe::Draw(q, found) && q == p && (
        reply matches Reply::Maybe(set) && Some(draw@) == parsed_address(draw_text(opt_text_view(set), found)))),
{
}

/// A draw that is under way is told with the number of correct answers that the contract states.
pub proof fn law_pending_draw_is_told(s: Inscribe, reply: Reply, r: Step<Inscribe, Outcome>)
    requires
        inscribe_next(s, reply, r),
    ensures
        s matches Inscribe::Count(p) ==> (reply matches Reply::Bytes(Ok(raw)) ==> (raw@.len() >= 32 ==> ({
            let n = be_number(raw@.subrange(0, 32));
            &&& n > 0 ==> (r matches Step::End(Outcome::Print(o)) && o@ == pending_v(p, n))
            &&& n == 0 ==> (r matches Step::Act(Inscribe::NoPool(q), a) && q == p && a@ is Save)
        }))),
        s matches Inscribe::NoPool(p) ==> (reply matches Reply::Done(Ok(_)) ==> (r matches Step::End(Outcome::Print(o)) && o@
            == no_pool_v(p))),
        s matches Inscribe::Beaten(p, w) ==> (reply matches Reply::Done(Ok(_)) ==> (r matches Step::End(Outcome::Print(o))
            && o@ == beaten_v(p, w@))),
        s matches Inscribe::Warn(p, n, h, t) ==> (reply matches Reply::Gas(g) ==> (r matches Step::End(Outcome::Print(o)) && o@
            == minted_v(p, n@, h@, t, g))),
        s matches Inscribe::Tx(_, _) ==> (reply matches Reply::Sent(Ok((_, false))) ==> (r matches Step::End(Outcome::Fail(_)))),
        r matches Step::Act(Inscribe::Draw(_, _), a) ==> a@ == ActionV::Env("ARDI_EPOCH_DRAW_ADDR"@),
        r matches Step::Act(Inscribe::Nft(_, _, _), a) ==> a@ == ActionV::Env("ARDI_NFT_ADDR"@),
        r matches Step::Act(Inscribe::Current(_), a) ==> a@ == ActionV::TryGet("/v1/epoch/current"@),
        r matches Step::Act(Inscribe::Known(_, _, _, _), a) ==> a@ == ActionV::Load,
{
}

/// What is told of a word that is settled or cannot be inscribed names that word and its epoch.
pub proof fn law_settled_word_is_named(s: Inscribe, reply: Reply, r: Step<Inscribe, Outcome>)
    requires
        inscribe_next(s, reply, r),
    ensures
        s matches Inscribe::Known(e, w, _, _) ==> (reply matches Reply::File(Ok(file)) ==> ({
            let m = loaded_file(opt_text_view(file));
            let key = key_text(e, w);
            &&& !m.dom().contains(key) ==> (r matches Step::End(Outcome::Print(o)) && o@.message == "No local state for epoch="@
                + dec_text(e as nat) + " word_id="@ + dec_text(w as nat) + "."@)
            &&& m.dom().contains(key) && (m[key].status == CommitStatus::Inscribed || m[key].status == CommitStatus::Lost)
                ==> (r matches Step::End(Outcome::Print(o)) && member(o@.data, "epoch_id"@) == Some(num_v(e as int)) && member(
                o@.data,
                "word_id"@,
            ) == Some(num_v(w as int)) && member(o@.data, "status"@) == Some(
                JsonV::Str(if m[key].status == CommitStatus::Lost { "lost"@ } else { "inscribed"@ }),
            ))
            &&& m.dom().contains(key) && m[key].status == CommitStatus::Committed ==> (r matches Step::End(Outcome::Print(o))
                && o@.error_code == Some("REVEAL_FIRST"@) && o@.internal.next_command == Some(
                "ardi-agent reveal --epoch "@ + dec_text(e as nat) + " --word-id "@ + dec_text(w as nat),
            ))
        })),
{
    reveal_strlit("epoch_id");
    reveal_strlit("word_id");
    reveal_strlit("status");
    assert("epoch_id"@.len() == 8);
    assert("word_id"@.len() == 7);
    assert("status"@.len() == 6);
}

/// A loss is written down for the word that was asked about, and for no other: the rest of the state stays.
pub proof fn law_loss_is_kept_under_the_word(s: Inscribe, reply: Reply, r: Step<Inscribe, Outcome>)
    requires
        inscribe_next(s, reply, r),
    ensures
        r matches Step::Act(Inscribe::Beaten(p, _), a) ==> ({
            let m = loaded_file(opt_text_view(p.file));
            let key = key_text(p.epoch_id, p.word_id);
            m.dom().contains(key) ==> a@ == ActionV::Save(
                json_pretty_text(
                    state_json(m.insert(key, PendingCommitV { status: CommitStatus::Lost, ..m[key] })),
                ),
            )
        }),
        r matches Step::Act(Inscribe::NoPool(p), a) ==> ({
            let m = loaded_file(opt_text_view(p.file));
            let key = key_text(p.epoch_id, p.word_id);
            m.dom().contains(key) ==> a@ == ActionV::Save(
                json_pretty_text(
                    state_json(m.insert(key, PendingCommitV { status: CommitStatus::Lost, ..m[key] })),
                ),
            )
        }),
{
}

} // verus!
