//! commit: bind an answer to a riddle on the chain, and keep what it takes to reveal it.
use vstd::prelude::*;

use crate::address::{address_error_text, address_views, ascending, parsed_address, sorted_addresses, Address};
use crate::awp_rpc::{add_backers, allocations_by_agent_worknet, allocations_params_v, backers};
use crate::bytes::{be_number, hex_0x, hex_bytes, law_hex_round_trip, lemma_strip_hex_0x, to_hex_0x};
use crate::chain::{address_result, call0, commit_digest, commit_hash, lemma_static_args, selector_of, static_call};
use crate::clock::unix_now;
use crate::cmd::gas::{warn, warned_data, warned_message, GasCheck, MIN_WEI};
use crate::cmd::{reveal_command, reveal_command_v};
use crate::fault::{caused_v, fault_v, top_v, Fault};
use crate::flow::{
    fail, fails, print, prints, reverted_text, stray, stray_v, tx_fault, tx_fault_v, Action, ActionV, Outcome, Reply,
    Step, TxFault, TxRequest, TxRequestV,
};
use crate::json::{arr_v, empty_object, json_pretty_text, lemma_arr_push, member, num_v, with_member, Json, JsonV};
use crate::num::{dec, dec_text, dec_u128, dec_usize, int_text};
use crate::output::{error_data, error_v, error_with_debug_v, next_v, success_v, Internal, Output, OutputV};
use crate::schema::{
    current_epoch_defect, current_epoch_holds, opt_text_view, parse, refused_v, CurrentEpoch, Riddle,
};
use crate::state::{
    entries_map, key_text, keys_ascend, lemma_entries, loaded, loaded_file,
    state_json, CommitStatus, PendingCommit, PendingCommitV, State,
};
use crate::text::{
    cat2, cat3, cat5, cat6, cat7, cat9, has_prefix, lemma_lex_irreflexive, lex_before, without_prefixes,
};
use crate::tx::{calldata_commit, commit_call, law_commit_data, COMMIT_BOND_WEI, RECEIPT_SECS};

verus! {

/// What is to be committed.
pub struct CommitArgs {
    /// The epoch; the current one where it is not given.
    pub epoch_id: Option<u64>,
    /// The word.
    pub word_id: u64,
    /// The answer.
    pub answer: String,
    /// The stakers; found out where they are not given.
    pub stakers: Option<Vec<Address>>,
}

/// A commit that passed the first checks.
pub struct Ready {
    pub args: CommitArgs,
    /// The agent's address as it was found.
    pub agent_text: String,
    /// The agent.
    pub agent: Address,
    /// The epoch.
    pub epoch_id: u64,
    /// The contract that takes commits, as the coordinator states it.
    pub contract: String,
    /// When the commit window closes.
    pub deadline: i64,
    pub language: String,
    pub power: u16,
    pub language_id: u8,
}

/// A commit with its salt and its stakers.
pub struct Sealed {
    pub ready: Ready,
    /// The salt.
    pub salt: [u8; 32],
    /// The stakers, ascending.
    pub stakers: Vec<Address>,
    /// The contract that takes commits.
    pub to: Address,
}

/// The commit command.
pub enum Commit {
    /// The agent's address is looked for.
    Address(CommitArgs),
    /// The current epoch is fetched.
    Epoch(CommitArgs, String, Address),
    /// The balance is checked.
    Balance(Ready),
    /// The state is read, for a commit on the same word.
    Known(Ready),
    /// The stakers of the one worknet are asked for.
    Kya(Ready, [u8; 32]),
    /// The stakers of the other worknet are asked for.
    Ardi(Ready, [u8; 32], Vec<Address>),
    /// The state is read, for the number of commits in the epoch.
    Count(Sealed),
    /// The limit of commits in an epoch is asked for.
    Cap(Sealed, usize),
    /// The transaction is sent.
    Tx(Sealed),
    /// The state is read, for the commit to be kept.
    Record(Sealed, String),
    /// The state is written.
    Saved(Sealed, String),
    /// The receipt is waited for.
    Confirm(Sealed, String),
    /// The state is read, for the commit that failed on the chain to be marked.
    Reverted(Sealed, String),
    /// The state with the mark is written.
    Marked(Sealed, String),
    /// The balance is checked again.
    Warn(Sealed, String),
}

/// `rand::thread_rng().fill_bytes` on 32 bytes. Nothing is stated of them: every call may give others.
#[verifier::external_body]
pub(crate) fn random_salt() -> (r: [u8; 32]) {
    let mut b = [0u8; 32];
    rand::RngCore::fill_bytes(&mut rand::thread_rng(), &mut b);
    b
}

/// The output where the agent's address is not known.
pub open spec fn no_address_v(e: Seq<char>) -> OutputV {
    error_v(
        "Cannot resolve agent address: "@ + e,
        "WALLET_NOT_CONFIGURED"@,
        "dependency"@,
        false,
        "Run `ardi-agent preflight` to set up your wallet."@,
        next_v("configure_wallet"@, Some("ardi-agent preflight"@)),
    )
}

fn no_address(e: &str) -> (r: Output)
    ensures
        r@ == no_address_v(e@),
{
    Output::error(
        cat2("Cannot resolve agent address: ", e),
        "WALLET_NOT_CONFIGURED",
        "dependency",
        false,
        "Run `ardi-agent preflight` to set up your wallet.",
        Internal::run("configure_wallet", "ardi-agent preflight"),
    )
}

/// The output where no epoch takes commits.
pub open spec fn no_epoch_v() -> OutputV {
    error_v(
        "No commit-able epoch right now (commit window for this cycle has closed; new epoch opens within ~6 min)."@,
        "NO_OPEN_EPOCH"@,
        "timing"@,
        true,
        "Wait for the next openEpoch and re-fetch with `ardi-agent context`."@,
        next_v("wait"@, Some("ardi-agent context"@)),
    )
}

fn no_epoch() -> (r: Output)
    ensures
        r@ == no_epoch_v(),
{
    Output::error(
        "No commit-able epoch right now (commit window for this cycle has closed; new epoch opens within ~6 min).".to_owned(),
        "NO_OPEN_EPOCH",
        "timing",
        true,
        "Wait for the next openEpoch and re-fetch with `ardi-agent context`.",
        Internal::run("wait", "ardi-agent context"),
    )
}

/// The output where another epoch takes commits.
pub open spec fn wrong_epoch_v(epoch: u64, current: u64, word: u64, answer: Seq<char>) -> OutputV {
    let c = dec_text(current as nat);
    error_v(
        "Epoch "@ + dec_text(epoch as nat) + " is not the current commit-able epoch (current="@ + c
            + ")"@,
        "WRONG_EPOCH"@,
        "validation"@,
        false,
        "Use --epoch "@ + c + " or omit --epoch to use current."@,
        next_v(
            "fix_args"@,
            Some(
                "ardi-agent commit --epoch "@ + c + " --word-id "@ + dec_text(word as nat)
                    + " --answer "@ + answer,
            ),
        ),
    )
}

fn wrong_epoch(epoch: u64, current: u64, word: u64, answer: &str) -> (r: Output)
    ensures
        r@ == wrong_epoch_v(epoch, current, word, answer@),
{
    let e = dec(epoch);
    let c = dec(current);
    let w = dec(word);
    let suggestion = cat3("Use --epoch ", c.as_str(), " or omit --epoch to use current.");
    let command = cat6(
        "ardi-agent commit --epoch ",
        c.as_str(),
        " --word-id ",
        w.as_str(),
        " --answer ",
        answer,
    );
    Output::error(
        cat5(
            "Epoch ",
            e.as_str(),
            " is not the current commit-able epoch (current=",
            c.as_str(),
            ")",
        ),
        "WRONG_EPOCH",
        "validation",
        false,
        suggestion.as_str(),
        Internal::run("fix_args", command.as_str()),
    )
}

/// The words of some riddles.
pub open spec fn word_ids_v(riddles: Seq<Riddle>) -> JsonV {
    JsonV::Arr(riddles.map_values(|x: Riddle| num_v(x.word_id as int)))
}

/// The output where the epoch has no such word.
pub open spec fn no_word_v(epoch: u64, word: u64, riddles: Seq<Riddle>) -> OutputV {
    error_with_debug_v(
        "wordId "@ + dec_text(word as nat) + " is not in epoch "@ + dec_text(epoch as nat)
            + "'s published riddles."@,
        "WORDID_NOT_IN_EPOCH"@,
        "validation"@,
        false,
        "Run `ardi-agent context` to see the actual wordIds for this epoch."@,
        with_member(
            with_member(empty_object(), "epoch_id"@, num_v(epoch as int)),
            "available_word_ids"@,
            word_ids_v(riddles),
        ),
        next_v("rerun_context"@, Some("ardi-agent context"@)),
    )
}

fn word_ids(riddles: &Vec<Riddle>) -> (r: Json)
    ensures
        r@ == word_ids_v(riddles@),
{
    let mut v: Vec<Json> = Vec::new();
    let n = riddles.len();
    let ghost all = riddles@.map_values(|x: Riddle| num_v(x.word_id as int));
    assert(arr_v(v@) =~= all.take(0));
    for i in 0..n
        invariant
            n == riddles@.len(),
            all == riddles@.map_values(|x: Riddle| num_v(x.word_id as int)),
            arr_v(v@) == all.take(i as int),
    {
        let x = Json::number(riddles[i].word_id);
        proof {
            lemma_arr_push(v@, x);
            assert(all.take(i + 1) =~= all.take(i as int).push(all[i as int]));
        }
        v.push(x);
    }
    assert(all.take(n as int) =~= all);
    Json::Arr(v)
}

fn no_word(epoch: u64, word: u64, riddles: &Vec<Riddle>) -> (r: Output)
    ensures
        r@ == no_word_v(epoch, word, riddles@),
{
    let e = dec(epoch);
    let w = dec(word);
    Output::error_with_debug(
        cat5("wordId ", w.as_str(), " is not in epoch ", e.as_str(), "'s published riddles."),
        "WORDID_NOT_IN_EPOCH",
        "validation",
        false,
        "Run `ardi-agent context` to see the actual wordIds for this epoch.",
        Json::object().with("epoch_id", Json::number(epoch)).with(
            "available_word_ids",
            word_ids(riddles),
        ),
        Internal::run("rerun_context", "ardi-agent context"),
    )
}

/// The output where the commit window is closed.
pub open spec fn closed_v(epoch: u64, deadline: i64, now: i64) -> OutputV {
    error_v(
        "Commit window for epoch "@ + dec_text(epoch as nat) + " closed "@ + int_text(
            now - deadline,
        ) + "s ago. Wait for the next epoch."@,
        "COMMIT_WINDOW_CLOSED"@,
        "timing"@,
        true,
        "Wait ~6min for next openEpoch then re-fetch with `ardi-agent context`."@,
        next_v("wait"@, Some("ardi-agent context"@)),
    )
}

fn closed(epoch: u64, deadline: i64, now: i64) -> (r: Output)
    requires
        now >= deadline,
    ensures
        r@ == closed_v(epoch, deadline, now),
{
    let e = dec(epoch);
    let ago = dec_u128((now as i128 - deadline as i128) as u128);
    Output::error(
        cat5(
            "Commit window for epoch ",
            e.as_str(),
            " closed ",
            ago.as_str(),
            "s ago. Wait for the next epoch.",
        ),
        "COMMIT_WINDOW_CLOSED",
        "timing",
        true,
        "Wait ~6min for next openEpoch then re-fetch with `ardi-agent context`.",
        Internal::run("wait", "ardi-agent context"),
    )
}

/// The output where the balance is below the floor for new commits.
pub open spec fn poor_v(agent: Seq<char>, d6: Seq<char>) -> OutputV {
    error_v(
        "Wallet has "@ + d6
            + " ETH; commit needs at least 0.003000 ETH (bond 10000000000000 wei + gas)."@,
        "INSUFFICIENT_GAS"@,
        "balance"@,
        true,
        "Send 0.05 ETH on Base mainnet to "@ + agent + ", then retry."@,
        next_v("fund_gas"@, Some("ardi-agent gas"@)),
    )
}

fn poor(agent: &str, d6: &str) -> (r: Output)
    ensures
        r@ == poor_v(agent@, d6@),
{
    let suggestion = cat3("Send 0.05 ETH on Base mainnet to ", agent, ", then retry.");
    Output::error(
        cat3(
            "Wallet has ",
            d6,
            " ETH; commit needs at least 0.003000 ETH (bond 10000000000000 wei + gas).",
        ),
        "INSUFFICIENT_GAS",
        "balance",
        true,
        suggestion.as_str(),
        Internal::run("fund_gas", "ardi-agent gas"),
    )
}

/// The output where the word is committed on already.
pub open spec fn already_v(epoch: u64, word: u64, answer: Seq<char>, tx: Seq<char>) -> OutputV {
    error_v(
        "Already committed on (epoch="@ + dec_text(epoch as nat) + ", word_id="@ + dec_text(
            word as nat,
        ) + ") with answer \""@ + answer + "\" at tx "@ + tx + "."@,
        "ALREADY_COMMITTED"@,
        "state"@,
        false,
        "If reveal window has opened, run `"@ + reveal_command_v(epoch, word)
            + "`. To re-try with a different answer is impossible — same agent can't re-commit on the same wordId per SD-2."@,
        next_v("skip_or_reveal"@, Some(reveal_command_v(epoch, word))),
    )
}

fn already(epoch: u64, word: u64, answer: &str, tx: &str) -> (r: Output)
    ensures
        r@ == already_v(epoch, word, answer@, tx@),
{
    let e = dec(epoch);
    let w = dec(word);
    let command = reveal_command(epoch, word);
    let suggestion = cat3(
        "If reveal window has opened, run `",
        command.as_str(),
        "`. To re-try with a different answer is impossible — same agent can't re-commit on the same wordId per SD-2.",
    );
    Output::error(
        cat9(
            "Already committed on (epoch=",
            e.as_str(),
            ", word_id=",
            w.as_str(),
            ") with answer \"",
            answer,
            "\" at tx ",
            tx,
            ".",
        ),
        "ALREADY_COMMITTED",
        "state",
        false,
        suggestion.as_str(),
        Internal::run("skip_or_reveal", command.as_str()),
    )
}

/// The output where no stakers are known.
pub open spec fn no_stakers_v(agent: Seq<char>) -> OutputV {
    error_v(
        "No stakers resolved for "@ + agent
            + ". Either you're not staked yet, or AWP RPC is behind. Run `ardi-agent stake` to see live chain state, then re-run with `--staker 0x... [--staker 0x...]` if you know them."@,
        "STAKER_NOT_RESOLVED"@,
        "stake"@,
        true,
        "Run `ardi-agent stake` and retry with --staker."@,
        next_v("check_stake"@, Some("ardi-agent stake"@)),
    )
}

fn no_stakers(agent: &str) -> (r: Output)
    ensures
        r@ == no_stakers_v(agent@),
{
    Output::error(
        cat3(
            "No stakers resolved for ",
            agent,
            ". Either you're not staked yet, or AWP RPC is behind. Run `ardi-agent stake` to see live chain state, then re-run with `--staker 0x... [--staker 0x...]` if you know them.",
        ),
        "STAKER_NOT_RESOLVED",
        "stake",
        true,
        "Run `ardi-agent stake` and retry with --staker.",
        Internal::run("check_stake", "ardi-agent stake"),
    )
}

/// The output where the epoch has all the commits that it may have.
pub open spec fn capped_v(epoch: u64, max: nat, count: nat) -> OutputV {
    error_v(
        "Already used your "@ + dec_text(max) + "-commit cap in epoch "@ + dec_text(epoch as nat)
            + " ("@ + dec_text(count)
            + " local commits on file). Pick the highest-EV ones and proceed to reveal after the commit window closes."@,
        "EPOCH_COMMIT_CAP_REACHED"@,
        "state"@,
        false,
        "Run `ardi-agent commits` to see what to reveal next, or wait for the next epoch (`ardi-agent context`)."@,
        next_v("wait_reveal_or_next_epoch"@, Some("ardi-agent commits"@)),
    )
}

fn capped(epoch: u64, max: u8, count: usize) -> (r: Output)
    ensures
        r@ == capped_v(epoch, max as nat, count as nat),
{
    let m = dec(max as u64);
    let e = dec(epoch);
    let c = dec_usize(count);
    Output::error(
        cat7(
            "Already used your ",
            m.as_str(),
            "-commit cap in epoch ",
            e.as_str(),
            " (",
            c.as_str(),
            " local commits on file). Pick the highest-EV ones and proceed to reveal after the commit window closes.",
        ),
        "EPOCH_COMMIT_CAP_REACHED",
        "state",
        false,
        "Run `ardi-agent commits` to see what to reveal next, or wait for the next epoch (`ardi-agent context`).",
        Internal::run("wait_reveal_or_next_epoch", "ardi-agent commits"),
    )
}

/// The first riddle on a word.
pub open spec fn riddle_on(riddles: Seq<Riddle>, word: u64, i: int) -> bool {
    &&& 0 <= i < riddles.len()
    &&& riddles[i].word_id == word
    &&& forall|j: int| 0 <= j < i ==> (#[trigger] riddles[j]).word_id != word
}

/// Whether some riddle is on a word.
pub open spec fn has_riddle(riddles: Seq<Riddle>, word: u64) -> bool {
    exists|i: int| 0 <= i < riddles.len() && (#[trigger] riddles[i]).word_id == word
}

fn find_riddle(riddles: &Vec<Riddle>, word: u64) -> (r: Option<usize>)
    ensures
        match r {
            Some(i) => riddle_on(riddles@, word, i as int),
            None => !has_riddle(riddles@, word),
        },
{
    let n = riddles.len();
    for i in 0..n
        invariant
            n == riddles@.len(),
            forall|j: int| 0 <= j < i ==> (#[trigger] riddles@[j]).word_id != word,
    {
        if riddles[i].word_id == word {
            return Some(i);
        }
    }
    None
}

/// Whether `ready` is the commit of `args` on riddle `i` of the epoch `cur`.
pub open spec fn made_ready(
    ready: Ready,
    args: CommitArgs,
    agent_text: String,
    agent: Address,
    cur: CurrentEpoch,
    i: int,
) -> bool {
    &&& ready.args == args
    &&& ready.agent_text == agent_text
    &&& ready.agent == agent
    &&& ready.epoch_id == cur.epoch_id
    &&& ready.contract@ == cur.epoch_draw_contract@
    &&& ready.deadline == cur.commit_deadline
    &&& ready.language@ == cur.riddles@[i].language@
    &&& ready.power == cur.riddles@[i].power
    &&& ready.language_id == cur.riddles@[i].language_id
}

/// What comes next with the current epoch at the time `now`.
pub open spec fn epoch_next(
    args: CommitArgs,
    agent_text: String,
    agent: Address,
    cur: CurrentEpoch,
    now: i64,
    r: Step<Commit, Outcome>,
) -> bool {
    let epoch = match args.epoch_id {
        Some(e) => e,
        None => cur.epoch_id,
    };
    if epoch != cur.epoch_id {
        prints(r, wrong_epoch_v(epoch, cur.epoch_id, args.word_id, args.answer@))
    } else if !has_riddle(cur.riddles@, args.word_id) {
        prints(r, no_word_v(epoch, args.word_id, cur.riddles@))
    } else if now >= cur.commit_deadline {
        prints(r, closed_v(epoch, cur.commit_deadline, now))
    } else {
        &&& r matches Step::Act(Commit::Balance(ready), a)
        &&& a@ == ActionV::Balance(agent_text@)
        &&& exists|i: int| #[trigger]
            riddle_on(cur.riddles@, args.word_id, i) && made_ready(
                ready,
                args,
                agent_text,
                agent,
                cur,
                i,
            )
    }
}

/// Goes on with the current epoch at the time `now`.
pub fn with_epoch(args: CommitArgs, agent_text: String, agent: Address, cur: CurrentEpoch, now: i64) -> (r: Step<Commit, Outcome>)
    ensures
        epoch_next(args, agent_text, agent, cur, now, r),
{
    let epoch = match args.epoch_id {
        Some(e) => e,
        None => cur.epoch_id,
    };
    if epoch != cur.epoch_id {
        return print(wrong_epoch(epoch, cur.epoch_id, args.word_id, args.answer.as_str()));
    }
    match find_riddle(&cur.riddles, args.word_id) {
        None => print(no_word(epoch, args.word_id, &cur.riddles)),
        Some(i) => {
            if now >= cur.commit_deadline {
                return print(closed(epoch, cur.commit_deadline, now));
            }
            let ready = Ready {
                args,
                agent_text: agent_text.clone(),
                agent,
                epoch_id: epoch,
                contract: cur.epoch_draw_contract.clone(),
                deadline: cur.commit_deadline,
                language: cur.riddles[i].language.clone(),
                power: cur.riddles[i].power,
                language_id: cur.riddles[i].language_id,
            };
            Step::Act(Commit::Balance(ready), Action::Balance(agent_text))
        },
    }
}

/// Whether `v` is what remains of some stakers: in ascending order, each once, at most eight.
pub open spec fn settled(v: Seq<Address>, stakers: Set<Seq<u8>>) -> bool {
    exists|full: Seq<Seq<u8>>|
        #![trigger ascending(full)]
        ascending(full) && full.to_set() == stakers && address_views(v) == full.take(
            if full.len() > 8 {
                8
            } else {
                full.len() as int
            },
        )
}

/// What comes next once the stakers are known.
pub open spec fn settle_next(
    ready: Ready,
    salt: [u8; 32],
    stakers: Set<Seq<u8>>,
    r: Step<Commit, Outcome>,
) -> bool {
    if stakers.is_empty() {
        prints(r, no_stakers_v(ready.agent_text@))
    } else {
        match parsed_address(ready.contract@) {
            None => fails(r, fault_v(address_error_text(ready.contract@))),
            Some(to) => {
                &&& r matches Step::Act(Commit::Count(s), a)
                &&& s.ready == ready
                &&& s.salt == salt
                &&& settled(s.stakers@, stakers)
                &&& s.to@ == to
                &&& a@ == ActionV::Load
            },
        }
    }
}

/// Goes on once the stakers are known.
pub fn settle(ready: Ready, salt: [u8; 32], stakers: &Vec<Address>) -> (r: Step<Commit, Outcome>)
    ensures
        settle_next(ready, salt, address_views(stakers@).to_set(), r),
{
    let ghost all = address_views(stakers@).to_set();
    if stakers.len() == 0 {
        proof {
            assert(all =~= Set::empty());
        }
        return print(no_stakers(ready.agent_text.as_str()));
    }
    proof {
        assert(address_views(stakers@)[0] == stakers@[0]@);
        assert(all.contains(stakers@[0]@));
    }
    let mut list = sorted_addresses(stakers);
    let ghost full = address_views(list@);
    if list.len() > 8 {
        list.truncate(8);
        assert(address_views(list@) =~= full.take(8));
    } else {
        assert(full.take(full.len() as int) =~= full);
    }
    assert(settled(list@, all)) by {
        assert(ascending(full));
    }
    match Address::parse(ready.contract.as_str()) {
        Ok(to) => Step::Act(
            Commit::Count(Sealed { ready, salt, stakers: list, to }),
            Action::Load,
        ),
        Err(e) => fail(Fault::new(e)),
    }
}

/// What comes next once the state was read: a commit on the same word ends it; else the salt is drawn.
pub open spec fn known_next(ready: Ready, file: Option<Seq<char>>, salt: [u8; 32], r: Step<Commit, Outcome>) -> bool {
    let key = key_text(ready.epoch_id, ready.args.word_id);
    let st = loaded_file(file);
    if st.dom().contains(key) {
        prints(
            r,
            already_v(ready.epoch_id, ready.args.word_id, st[key].answer, st[key].commit_tx),
        )
    } else {
        match ready.args.stakers {
            Some(list) if list@.len() > 0 => settle_next(
                ready,
                salt,
                address_views(list@).to_set(),
                r,
            ),
            _ => {
                &&& r matches Step::Act(Commit::Kya(x, y), a)
                &&& x == ready
                &&& y == salt
                &&& a@ == ActionV::Awp(
                    "staking.getAllocationsByAgentSubnet"@,
                    allocations_params_v(ready.agent_text@, "845300000012"@, None),
                )
            },
        }
    }
}

/// Goes on with the state and the salt.
pub fn with_state(ready: Ready, file: &Option<String>, salt: [u8; 32]) -> (r: Step<Commit, Outcome>)
    ensures
        known_next(ready, opt_text_view(*file), salt, r),
{
    let st = State::load(file);
    match st.get(ready.epoch_id, ready.args.word_id) {
        Some(c) => {
            return print(
                already(
                    ready.epoch_id,
                    ready.args.word_id,
                    c.answer.as_str(),
                    c.commit_tx.as_str(),
                ),
            );
        },
        None => {},
    }
    let given = match &ready.args.stakers {
        Some(list) => if list.len() > 0 {
            Some(sorted_addresses(list))
        } else {
            None
        },
        None => None,
    };
    match given {
        Some(list) => settle(ready, salt, &list),
        None => {
            let a = allocations_by_agent_worknet(ready.agent_text.as_str(), "845300000012", None);
            Step::Act(Commit::Kya(ready, salt), a)
        },
    }
}

/// The commits of an epoch.
pub open spec fn commits_in(m: Map<Seq<char>, PendingCommitV>, epoch: u64) -> Set<Seq<char>> {
    m.dom().filter(|k: Seq<char>| m[k].epoch_id == epoch)
}

/// The number of commits of an epoch.
pub fn count_in_epoch(st: &State, epoch: u64) -> (r: usize)
    requires
        st.wf(),
    ensures
        r == commits_in(st@, epoch).len(),
{
    let n = st.pending.len();
    let mut count: usize = 0;
    let ghost s = st.pending@;
    proof {
        assert(commits_in(entries_map(s.take(0)), epoch) =~= Set::empty());
    }
    for i in 0..n
        invariant
            n == st.pending@.len(),
            s == st.pending@,
            keys_ascend(s),
            count <= i,
            commits_in(entries_map(s.take(i as int)), epoch).finite(),
            count == commits_in(entries_map(s.take(i as int)), epoch).len(),
    {
        proof {
            let front = s.take(i as int);
            let more = s.take(i + 1);
            let k = s[i as int].0@;
            assert(more.drop_last() =~= front);
            assert(more.last() == s[i as int]);
            assert(keys_ascend(front)) by {
                assert forall|a: int, b: int| 0 <= a < b < front.len() implies lex_before(
                    #[trigger] front[a].0@,
                    #[trigger] front[b].0@,
                ) by {
                    assert(front[a] == s[a] && front[b] == s[b]);
                }
            }
            lemma_entries(front);
            if entries_map(front).dom().contains(k) {
                let j = choose|j: int| 0 <= j < front.len() && #[trigger] front[j].0@ == k;
                assert(s[j].0@ == k);
                assert(lex_before(s[j].0@, s[i as int].0@));
                lemma_lex_irreflexive(k);
            }
            let x = commits_in(entries_map(front), epoch);
            let y = commits_in(entries_map(more), epoch);
            assert(!x.contains(k));
            if s[i as int].1.epoch_id == epoch {
                assert(y =~= x.insert(k));
            } else {
                assert(y =~= x);
            }
        }
        if st.pending[i].1.epoch_id == epoch {
            count += 1;
        }
    }
    assert(s.take(n as int) =~= s);
    count
}

/// The limit of commits in an epoch that the contract states, or three where it states none.
pub open spec fn live_max(reply: Result<Vec<u8>, Fault>) -> u8 {
    match reply {
        Ok(raw) => if raw@.len() >= 32 {
            raw@[31]
        } else {
            3
        },
        Err(_) => 3,
    }
}

/// The limit of commits in an epoch that the contract states, or three where it states none.
pub fn read_max_commits_per_epoch(reply: &Result<Vec<u8>, Fault>) -> (r: u8)
    ensures
        r == live_max(*reply),
{
    match reply {
        Ok(raw) => if raw.len() >= 32 {
            raw[31]
        } else {
            3
        },
        Err(_) => 3,
    }
}

/// The hash that a sealed commit binds.
pub open spec fn sealed_hash(s: Sealed) -> Seq<u8> {
    commit_digest(s.ready.args.answer@, s.ready.agent@, s.salt@)
}

/// The transaction of a sealed commit.
pub open spec fn commit_tx_v(s: Sealed) -> TxRequestV {
    TxRequestV {
        from: s.ready.agent@,
        to: s.to@,
        data: commit_call(s.ready.epoch_id, s.ready.args.word_id, sealed_hash(s), s.stakers@),
        value_wei: 10_000_000_000_000,
        gas_limit: 200_000,
    }
}

/// The transaction of a sealed commit.
fn commit_tx(s: &Sealed) -> (r: TxRequest)
    ensures
        r@ == commit_tx_v(*s),
{
    let hash = commit_hash(s.ready.args.answer.as_str(), &s.ready.agent, &s.salt);
    TxRequest {
        from: s.ready.agent,
        to: s.to,
        data: calldata_commit(s.ready.epoch_id, s.ready.args.word_id, hash, &s.stakers),
        value_wei: COMMIT_BOND_WEI,
        gas_limit: 200_000,
    }
}

/// What is kept of a commit: the answer and the salt, and the hash that was committed.
pub open spec fn entry_v(s: Sealed, tx: Seq<char>, now: i64) -> PendingCommitV {
    PendingCommitV {
        epoch_id: s.ready.epoch_id,
        word_id: s.ready.args.word_id,
        answer: s.ready.args.answer@,
        salt_hex: hex_0x(s.salt@),
        agent: s.ready.agent_text@,
        commit_tx: tx,
        commit_hash: hex_0x(sealed_hash(s)),
        committed_at: now,
        language: s.ready.language@,
        power: s.ready.power,
        language_id: s.ready.language_id,
        status: CommitStatus::Committed,
        reveal_tx: None,
        inscribe_tx: None,
        token_id: None,
    }
}

/// What is kept of a commit that was made at the time `now`.
fn entry(s: &Sealed, tx: &str, now: i64) -> (r: PendingCommit)
    ensures
        r@ == entry_v(*s, tx@, now),
{
    let hash = commit_hash(s.ready.args.answer.as_str(), &s.ready.agent, &s.salt);
    PendingCommit {
        epoch_id: s.ready.epoch_id,
        word_id: s.ready.args.word_id,
        answer: s.ready.args.answer.clone(),
        salt_hex: to_hex_0x(s.salt.as_slice()),
        agent: s.ready.agent_text.clone(),
        commit_tx: tx.to_owned(),
        commit_hash: to_hex_0x(hash.as_slice()),
        committed_at: now,
        language: s.ready.language.clone(),
        power: s.ready.power,
        language_id: s.ready.language_id,
        status: CommitStatus::Committed,
        reveal_tx: None,
        inscribe_tx: None,
        token_id: None,
    }
}

/// The text of the state file once the commit is in it.
pub open spec fn recorded(file: Option<Seq<char>>, s: Sealed, tx: Seq<char>, now: i64) -> Seq<char> {
    json_pretty_text(state_json(with_commit(loaded_file(file), s, tx, now)))
}

/// The state once a commit failed on the chain.
pub open spec fn after_revert(m: Map<Seq<char>, PendingCommitV>, epoch: u64, word: u64) -> Map<
    Seq<char>,
    PendingCommitV,
> {
    let key = key_text(epoch, word);
    if m.dom().contains(key) {
        m.insert(key, PendingCommitV { status: CommitStatus::Failed, ..m[key] })
    } else {
        m
    }
}

/// The text of the state file once a commit failed on the chain. It is read back as the state with the
/// failure.
pub fn record_revert(file: &Option<String>, epoch: u64, word: u64) -> (r: String)
    ensures
        r@ == json_pretty_text(
            state_json(after_revert(loaded_file(opt_text_view(*file)), epoch, word)),
        ),
        loaded(r@)
            == after_revert(loaded_file(opt_text_view(*file)), epoch, word),
{
    let mut st = State::load(file);
    match st.get_mut(epoch, word) {
        Some(c) => {
            c.status = CommitStatus::Failed;
        },
        None => {},
    }
    st.to_text()
}

/// The state with a commit that was made at the time `now`.
pub open spec fn with_commit(m: Map<Seq<char>, PendingCommitV>, s: Sealed, tx: Seq<char>, now: i64) -> Map<
    Seq<char>,
    PendingCommitV,
> {
    m.insert(key_text(s.ready.epoch_id, s.ready.args.word_id), entry_v(s, tx, now))
}

/// The text of the state file once the commit is in it. It is read back as the state with the commit.
pub fn record(file: &Option<String>, s: &Sealed, tx: &str, now: i64) -> (r: String)
    ensures
        r@ == recorded(opt_text_view(*file), *s, tx@, now),
        loaded(r@) == with_commit(
            loaded_file(opt_text_view(*file)),
            *s,
            tx@,
            now,
        ),
{
    let mut st = State::load(file);
    st.put(entry(s, tx, now));
    st.to_text()
}

/// The data of a commit that was made.
pub open spec fn committed_data(s: Sealed, tx: Seq<char>) -> JsonV {
    let o = with_member(empty_object(), "epoch_id"@, num_v(s.ready.epoch_id as int));
    let o = with_member(o, "word_id"@, num_v(s.ready.args.word_id as int));
    let o = with_member(o, "tx_hash"@, JsonV::Str(tx));
    let o = with_member(o, "commit_hash"@, JsonV::Str(hex_0x(sealed_hash(s))));
    let o = with_member(o, "bond_wei"@, JsonV::Str("10000000000000"@));
    with_member(o, "reveal_after"@, num_v(s.ready.deadline as int))
}

/// The message of a commit that was made.
pub open spec fn committed_message(s: Sealed, tx: Seq<char>) -> Seq<char> {
    "Commit submitted: epoch="@ + dec_text(s.ready.epoch_id as nat) + " word="@ + dec_text(
        s.ready.args.word_id as nat,
    ) + " tx="@ + tx + ". Wait until reveal window opens, then `"@ + reveal_command_v(
        s.ready.epoch_id,
        s.ready.args.word_id,
    ) + "`."@
}

/// The output of a commit that was made, with a warning where the balance calls for one.
pub open spec fn committed_v(s: Sealed, tx: Seq<char>, gas: Result<GasCheck, Fault>) -> OutputV {
    success_v(
        warned_message(committed_message(s, tx), s.ready.agent_text@, gas),
        warned_data(committed_data(s, tx), s.ready.agent_text@, gas),
        next_v(
            "wait_reveal"@,
            Some(reveal_command_v(s.ready.epoch_id, s.ready.args.word_id)),
        ),
    )
}

/// The output of a commit that was made.
pub fn committed(s: &Sealed, tx: &str, gas: &Result<GasCheck, Fault>) -> (r: Output)
    ensures
        r@ == committed_v(*s, tx@, *gas),
{
    let hash = commit_hash(s.ready.args.answer.as_str(), &s.ready.agent, &s.salt);
    let e = dec(s.ready.epoch_id);
    let w = dec(s.ready.args.word_id);
    let command = reveal_command(s.ready.epoch_id, s.ready.args.word_id);
    let data = Json::object().with("epoch_id", Json::number(s.ready.epoch_id)).with(
        "word_id",
        Json::number(s.ready.args.word_id),
    ).with("tx_hash", Json::text(tx)).with(
        "commit_hash",
        Json::Str(to_hex_0x(hash.as_slice())),
    ).with("bond_wei", Json::text("10000000000000")).with(
        "reveal_after",
        Json::signed(s.ready.deadline),
    );
    let message = cat9(
        "Commit submitted: epoch=",
        e.as_str(),
        " word=",
        w.as_str(),
        " tx=",
        tx,
        ". Wait until reveal window opens, then `",
        command.as_str(),
        "`.",
    );
    let (message, data) = warn(message, data, s.ready.agent_text.as_str(), gas);
    Output::success(message, data, Internal::run("wait_reveal", command.as_str()))
}

/// What comes next in the commit command.
pub open spec fn commit_next(s: Commit, reply: Reply, r: Step<Commit, Outcome>) -> bool {
    match (s, reply) {
        (Commit::Address(args), Reply::Text(Ok(t))) => match parsed_address(t@) {
            None => fails(r, fault_v(address_error_text(t@))),
            Some(a) => {
                &&& r matches Step::Act(Commit::Epoch(x, u, b), act)
                &&& x == args
                &&& u == t
                &&& b@ == a
                &&& act@ == ActionV::TryGet("/v1/epoch/current"@)
            },
        },
        (Commit::Address(_), Reply::Text(Err(f))) => prints(r, no_address_v(top_v(f@))),
        (Commit::Epoch(args, t, a), Reply::Found(Ok(Some(v)))) => match current_epoch_defect(v@) {
            Some(d) => fails(r, refused_v("/v1/epoch/current"@, d, v@)),
            None => exists|cur: CurrentEpoch, now: i64|
                current_epoch_holds(v@, cur) && #[trigger] epoch_next(args, t, a, cur, now, r),
        },
        (Commit::Epoch(_, _, _), Reply::Found(Ok(None))) => prints(r, no_epoch_v()),
        (Commit::Balance(ready), Reply::Gas(Ok(g))) => if g.balance_wei < MIN_WEI {
            prints(r, poor_v(ready.agent_text@, g.balance.d6@))
        } else {
            &&& r matches Step::Act(Commit::Known(x), act)
            &&& x == ready
            &&& act@ == ActionV::Load
        },
        (Commit::Known(ready), Reply::File(Ok(file))) => exists|salt: [u8; 32]| #[trigger]
            known_next(ready, opt_text_view(file), salt, r),
        (Commit::Kya(ready, salt), Reply::Doc(d)) => {
            &&& r matches Step::Act(Commit::Ardi(x, y, list), act)
            &&& x == ready
            &&& y == salt
            &&& ascending(address_views(list@))
            &&& address_views(list@).to_set() == backers(d, true)
            &&& act@ == ActionV::Awp(
                "staking.getAllocationsByAgentSubnet"@,
                allocations_params_v(ready.agent_text@, "845300000014"@, None),
            )
        },
        (Commit::Ardi(ready, salt, list), Reply::Doc(d)) => settle_next(
            ready,
            salt,
            address_views(list@).to_set().union(backers(d, true)),
            r,
        ),
        (Commit::Count(s), Reply::File(Ok(file))) => {
            &&& r matches Step::Act(Commit::Cap(x, n), act)
            &&& x == s
            &&& n == commits_in(
                loaded_file(opt_text_view(file)),
                s.ready.epoch_id,
            ).len()
            &&& act@ == ActionV::View(s.to@, static_call("maxCommitsPerEpoch()"@, Seq::empty()))
        },
        (Commit::Cap(s, n), Reply::Bytes(b)) => if n >= live_max(b) {
            prints(r, capped_v(s.ready.epoch_id, live_max(b) as nat, n as nat))
        } else {
            &&& r matches Step::Act(Commit::Tx(x), act)
            &&& x == s
            &&& act@ == ActionV::Submit(commit_tx_v(s))
        },
        (Commit::Tx(s), Reply::Submitted(Ok(h))) => {
            &&& r matches Step::Act(Commit::Record(x, g), act)
            &&& x == s
            &&& g == h
            &&& act@ == ActionV::Load
        },
        (Commit::Tx(_), Reply::Submitted(Err(e))) => fails(r, tx_fault_v(e, "send commit tx"@)),
        (Commit::Record(s, h), Reply::File(Ok(file))) => exists|now: i64|
            {
                &&& r matches Step::Act(Commit::Saved(x, g), act)
                &&& x == s
                &&& g == h
                &&& act@ == ActionV::Save(
                    #[trigger] recorded(opt_text_view(file), s, h@, now),
                )
                &&& loaded(
                    recorded(opt_text_view(file), s, h@, now),
                ) == with_commit(loaded_file(opt_text_view(file)), s, h@, now)
            },
        (Commit::Saved(s, h), Reply::Done(Ok(_))) => {
            &&& r matches Step::Act(Commit::Confirm(x, g), act)
            &&& x == s
            &&& g == h
            &&& act@ == ActionV::Receipt(h@, RECEIPT_SECS)
        },
        (Commit::Confirm(s, h), Reply::Receipt(Ok((false, _)))) => {
            &&& r matches Step::Act(Commit::Reverted(x, g), act)
            &&& x == s
            &&& g == h
            &&& act@ == ActionV::Load
        },
        (Commit::Confirm(s, h), Reply::Receipt(_)) => {
            &&& r matches Step::Act(Commit::Warn(x, g), act)
            &&& x == s
            &&& g == h
            &&& act@ == ActionV::Balance(s.ready.agent_text@)
        },
        (Commit::Reverted(s, h), Reply::File(Ok(file))) => {
            &&& r matches Step::Act(Commit::Marked(x, g), act)
            &&& x == s
            &&& g == h
            &&& act@ == ActionV::Save(
                json_pretty_text(
                    state_json(
                        after_revert(
                            loaded_file(opt_text_view(file)),
                            s.ready.epoch_id,
                            s.ready.args.word_id,
                        ),
                    ),
                ),
            )
        },
        (Commit::Marked(_, h), Reply::Done(Ok(_))) => fails(
            r,
            caused_v("send commit tx"@, fault_v(reverted_text(h@))),
        ),
        (Commit::Reverted(_, _), Reply::File(Err(f))) => fails(r, f@),
        (Commit::Marked(_, _), Reply::Done(Err(f))) => fails(r, f@),
        (Commit::Warn(s, h), Reply::Gas(g)) => prints(r, committed_v(s, h@, g)),
        (Commit::Epoch(_, _, _), Reply::Found(Err(f))) => fails(r, f@),
        (Commit::Balance(_), Reply::Gas(Err(f))) => fails(r, f@),
        (Commit::Known(_), Reply::File(Err(f))) => fails(r, f@),
        (Commit::Count(_), Reply::File(Err(f))) => fails(r, f@),
        (Commit::Record(_, _), Reply::File(Err(f))) => fails(r, f@),
        (Commit::Saved(_, _), Reply::Done(Err(f))) => fails(r, f@),
        _ => fails(r, stray_v()),
    }
}

/// Starts the commit command.
pub fn run(args: CommitArgs) -> (r: Step<Commit, Outcome>)
    ensures
        r matches Step::Act(Commit::Address(x), a) && x == args && a@ == ActionV::Address,
{
    Step::Act(Commit::Address(args), Action::Address)
}

impl Commit {
    /// Goes on with the reply.
    pub fn step(self, reply: Reply) -> (r: Step<Commit, Outcome>)
        ensures
            commit_next(self, reply, r),
    {
        match (self, reply) {
            (Commit::Address(args), Reply::Text(Ok(t))) => match Address::parse(t.as_str()) {
                Ok(a) => Step::Act(
                    Commit::Epoch(args, t, a),
                    Action::TryGet("/v1/epoch/current".to_owned()),
                ),
                Err(e) => fail(Fault::new(e)),
            },
            (Commit::Address(_), Reply::Text(Err(f))) => {
                let t = f.top();
                print(no_address(t.as_str()))
            },
            (Commit::Epoch(args, t, a), Reply::Found(Ok(Some(v)))) => match parse::<CurrentEpoch>(
                "/v1/epoch/current",
                &v,
            ) {
                Err(f) => fail(f),
                Ok(cur) => {
                    let now = unix_now();
                    let r = with_epoch(args, t, a, cur, now);
                    assert(epoch_next(args, t, a, cur, now, r));
                    r
                },
            },
            (Commit::Epoch(_, _, _), Reply::Found(Ok(None))) => print(no_epoch()),
            (Commit::Balance(ready), Reply::Gas(Ok(g))) => {
                if g.balance_wei < MIN_WEI {
                    print(poor(ready.agent_text.as_str(), g.balance.d6.as_str()))
                } else {
                    Step::Act(Commit::Known(ready), Action::Load)
                }
            },
            (Commit::Known(ready), Reply::File(Ok(file))) => {
                let salt = random_salt();
                let r = with_state(ready, &file, salt);
                assert(known_next(ready, opt_text_view(file), salt, r));
                r
            },
            (Commit::Kya(ready, salt), Reply::Doc(d)) => {
                let none: Vec<Address> = Vec::new();
                let list = add_backers(none, &d, true);
                proof {
                    assert(address_views(none@).to_set().union(backers(d, true)) =~= backers(d, true));
                }
                let a = allocations_by_agent_worknet(
                    ready.agent_text.as_str(),
                    "845300000014",
                    None,
                );
                Step::Act(Commit::Ardi(ready, salt, list), a)
            },
            (Commit::Ardi(ready, salt, list), Reply::Doc(d)) => {
                let sorted = sorted_addresses(&list);
                let all = add_backers(sorted, &d, true);
                settle(ready, salt, &all)
            },
            (Commit::Count(s), Reply::File(Ok(file))) => {
                let st = State::load(&file);
                let n = count_in_epoch(&st, s.ready.epoch_id);
                let a = Action::View(s.to, call0("maxCommitsPerEpoch()"));
                Step::Act(Commit::Cap(s, n), a)
            },
            (Commit::Cap(s, n), Reply::Bytes(b)) => {
                let max = read_max_commits_per_epoch(&b);
                if n >= max as usize {
                    print(capped(s.ready.epoch_id, max, n))
                } else {
                    let t = commit_tx(&s);
                    Step::Act(Commit::Tx(s), Action::Submit(t))
                }
            },
            (Commit::Tx(s), Reply::Submitted(Ok(h))) => Step::Act(Commit::Record(s, h), Action::Load),
            (Commit::Tx(_), Reply::Submitted(Err(e))) => fail(tx_fault(e, "send commit tx")),
            (Commit::Record(s, h), Reply::File(Ok(file))) => {
                let now = unix_now();
                let t = record(&file, &s, h.as_str(), now);
                assert(t@ == recorded(opt_text_view(file), s, h@, now));
                Step::Act(Commit::Saved(s, h), Action::Save(t))
            },
            (Commit::Saved(s, h), Reply::Done(Ok(_))) => {
                let a = Action::Receipt(h.clone(), RECEIPT_SECS);
                Step::Act(Commit::Confirm(s, h), a)
            },
            (Commit::Confirm(s, h), Reply::Receipt(Ok((false, _)))) => Step::Act(
                Commit::Reverted(s, h),
                Action::Load,
            ),
            (Commit::Confirm(s, h), Reply::Receipt(_)) => {
                let a = Action::Balance(s.ready.agent_text.clone());
                Step::Act(Commit::Warn(s, h), a)
            },
            (Commit::Reverted(s, h), Reply::File(Ok(file))) => {
                let t = record_revert(&file, s.ready.epoch_id, s.ready.args.word_id);
                Step::Act(Commit::Marked(s, h), Action::Save(t))
            },
            (Commit::Marked(_, h), Reply::Done(Ok(_))) => fail(
                Fault::new(cat3("transaction ", h.as_str(), " reverted")).because("send commit tx"),
            ),
            (Commit::Reverted(_, _), Reply::File(Err(f))) => fail(f),
            (Commit::Marked(_, _), Reply::Done(Err(f))) => fail(f),
            (Commit::Warn(s, h), Reply::Gas(g)) => print(committed(&s, h.as_str(), &g)),
            (Commit::Epoch(_, _, _), Reply::Found(Err(f))) => fail(f),
            (Commit::Balance(_), Reply::Gas(Err(f))) => fail(f),
            (Commit::Known(_), Reply::File(Err(f))) => fail(f),
            (Commit::Count(_), Reply::File(Err(f))) => fail(f),
            (Commit::Record(_, _), Reply::File(Err(f))) => fail(f),
            (Commit::Saved(_, _), Reply::Done(Err(f))) => fail(f),
            _ => fail(stray()),
        }
    }
}

/// A commit is only sent where the balance suffices, no commit on the word is kept, some staker is known and
/// the epoch takes more commits; with it goes the bond, and the hash of the answer, the agent and the salt.
pub proof fn law_commit_guards(s: Commit, reply: Reply, r: Step<Commit, Outcome>)
    requires
        commit_next(s, reply, r),
    ensures
        (r matches Step::Act(_, a) && a@ is Submit) ==> (s matches Commit::Cap(x, n) && (
        reply matches Reply::Bytes(b) && n < live_max(b)) && (r matches Step::Act(Commit::Tx(y), a) && y == x
            && a@ == ActionV::Submit(commit_tx_v(x)))),
        r matches Step::Act(_, a) ==> !(a@ is Transact) && !(a@ is Send),
        r matches Step::Act(Commit::Cap(x, n), _) ==> s == Commit::Count(x),
        r matches Step::Act(Commit::Count(x), _) ==> x.stakers@.len() <= 8 && ((
        s matches Commit::Known(ready) && ready == x.ready) || (s matches Commit::Ardi(ready, _, _) && ready
            == x.ready)),
        r matches Step::Act(Commit::Known(ready), _) ==> s == Commit::Balance(ready) && (
        reply matches Reply::Gas(Ok(g)) && g.balance_wei >= MIN_WEI),
        s matches Commit::Known(ready) ==> (reply matches Reply::File(Ok(file)) ==> (loaded_file(
            opt_text_view(file),
        ).dom().contains(key_text(ready.epoch_id, ready.args.word_id)) ==> r is End)),
{
    if let Step::Act(Commit::Count(x), _) = r {
        assert(address_views(x.stakers@).len() == x.stakers@.len());
    }
}

/// What it takes to reveal a commit is kept before its receipt is waited for, and whatever the receipt says.
pub proof fn law_commit_is_kept_first(s: Commit, reply: Reply, r: Step<Commit, Outcome>)
    requires
        commit_next(s, reply, r),
    ensures
        (r matches Step::Act(_, a) && a@ is Receipt) ==> (s is Saved && (reply matches Reply::Done(Ok(_)))),
        r matches Step::Act(Commit::Saved(x, h), a) ==> s == Commit::Record(x, h) && a@ is Save,
        r matches Step::Act(Commit::Record(x, h), _) ==> s == Commit::Tx(x) && reply == Reply::Submitted(
            Ok::<String, TxFault>(h),
        ),
{
}

/// Marking a commit that failed leaves the answer and the salt, and all other commits, as they are.
pub proof fn law_revert_keeps_the_rest(m: Map<Seq<char>, PendingCommitV>, epoch: u64, word: u64, k: Seq<char>)
    ensures
        ({
            let after = after_revert(m, epoch, word);
            &&& after.dom() == m.dom()
            &&& m.dom().contains(k) && k != key_text(epoch, word) ==> after[k] == m[k]
            &&& m.dom().contains(k) ==> after[k].answer == m[k].answer && after[k].salt_hex == m[k].salt_hex
        }),
{
    assert(after_revert(m, epoch, word).dom() =~= m.dom());
}

/// A commit names, on the bytes of its call data, the epoch, the word and the hash that binds the answer, and hands
/// over the stakers, each once and in ascending order; it pays the bond.
pub proof fn law_commit_names_epoch_and_word(s: Commit, reply: Reply, r: Step<Commit, Outcome>)
    requires
        commit_next(s, reply, r),
    ensures
        r matches Step::Act(Commit::Tx(x), a) ==> ({
            &&& a@ matches ActionV::Submit(t)
            &&& t.from == x.ready.agent@
            &&& t.to == x.to@
            &&& t.value_wei == 10_000_000_000_000
            &&& t.data.take(4) == selector_of("commit(uint256,uint256,bytes32,address[])"@)
            &&& t.gas_limit == 200_000
            &&& be_number(t.data.subrange(4, 36)) == x.ready.epoch_id
            &&& be_number(t.data.subrange(36, 68)) == x.ready.args.word_id
            &&& t.data.subrange(68, 100) == commit_digest(x.ready.args.answer@, x.ready.agent@, x.salt@)
            &&& be_number(t.data.subrange(132, 164)) == x.stakers@.len()
            &&& forall|i: int|
                0 <= i < x.stakers@.len() ==> address_result(#[trigger] t.data.subrange(164 + 32 * i, 196 + 32 * i))
                    == Ok::<Seq<u8>, Seq<char>>(x.stakers@[i]@)
        }),
        r matches Step::Act(Commit::Count(x), _) ==> ({
            &&& 0 < x.stakers@.len() <= 8
            &&& forall|i: int, j: int|
                0 <= i < j < x.stakers@.len() ==> be_number((#[trigger] x.stakers@[i])@) < be_number(
                    (#[trigger] x.stakers@[j])@,
                )
            &&& Some(x.to@) == parsed_address(x.ready.contract@)
        }),
{
    if let Step::Act(Commit::Tx(x), _) = r {
        assert(x.stakers.len() == x.stakers@.len());
        law_commit_data(
            x.ready.epoch_id,
            x.ready.args.word_id,
            sealed_hash(x),
            x.stakers@,
            commit_call(x.ready.epoch_id, x.ready.args.word_id, sealed_hash(x), x.stakers@),
        );
    }
    if let Step::Act(Commit::Count(x), _) = r {
        assert(exists|stakers: Set<Seq<u8>>| !stakers.is_empty() && #[trigger] settled(x.stakers@, stakers)) by {
            match (s, reply) {
                (Commit::Known(ready), Reply::File(Ok(file))) => {
                    if let Some(list) = ready.args.stakers {
                        assert(settled(x.stakers@, address_views(list@).to_set()));
                    }
                },
                (Commit::Ardi(ready, _, list), Reply::Doc(d)) => {
                    assert(settled(x.stakers@, address_views(list@).to_set().union(backers(d, true))));
                },
                _ => {},
            }
        }
        let stakers = choose|stakers: Set<Seq<u8>>| !stakers.is_empty() && #[trigger] settled(x.stakers@, stakers);
        let full = choose|full: Seq<Seq<u8>>|
            #![trigger ascending(full)]
            ascending(full) && full.to_set() == stakers && address_views(x.stakers@) == full.take(
                if full.len() > 8 {
                    8
                } else {
                    full.len() as int
                },
            );
        if full.len() == 0 {
            assert(full.to_set() =~= Set::empty());
        }
        assert(address_views(x.stakers@).len() == x.stakers@.len());
        assert forall|i: int, j: int| 0 <= i < j < x.stakers@.len() implies be_number((#[trigger] x.stakers@[i])@)
            < be_number((#[trigger] x.stakers@[j])@) by {
            assert(address_views(x.stakers@)[i] == full[i]);
            assert(address_views(x.stakers@)[j] == full[j]);
        }
    }
}

/// A commit is only made on the epoch that is open, before its deadline, and on a riddle of it: what is kept of the
/// riddle is what the coordinator states for that word.
pub proof fn law_commit_is_on_an_open_riddle(
    args: CommitArgs,
    t: String,
    agent: Address,
    cur: CurrentEpoch,
    now: i64,
    r: Step<Commit, Outcome>,
)
    requires
        epoch_next(args, t, agent, cur, now, r),
    ensures
        r is Act <==> ({
            &&& args.epoch_id is None || args.epoch_id == Some(cur.epoch_id)
            &&& exists|i: int| 0 <= i < cur.riddles@.len() && (#[trigger] cur.riddles@[i]).word_id == args.word_id
            &&& now < cur.commit_deadline
        }),
        r matches Step::Act(n, _) ==> ({
            &&& n matches Commit::Balance(ready)
            &&& ready.epoch_id == cur.epoch_id
            &&& ready.args == args
            &&& ready.agent == agent
            &&& ready.contract@ == cur.epoch_draw_contract@
            &&& ready.deadline == cur.commit_deadline
            &&& exists|i: int|
                {
                    &&& 0 <= i < cur.riddles@.len()
                    &&& (#[trigger] cur.riddles@[i]).word_id == args.word_id
                    &&& ready.power == cur.riddles@[i].power
                    &&& ready.language@ == cur.riddles@[i].language@
                    &&& ready.language_id == cur.riddles@[i].language_id
                }
        }),
{
}

/// The limit of commits in an epoch is the last byte of the word that the contract states, and three where it states
/// none; a commit is sent exactly where the commits that are kept for the epoch are fewer.
pub proof fn law_commit_cap(s: Commit, reply: Reply, r: Step<Commit, Outcome>)
    requires
        commit_next(s, reply, r),
    ensures
        s matches Commit::Cap(x, n) ==> (reply matches Reply::Bytes(b) ==> ({
            let max = match b {
                Ok(raw) => if raw@.len() >= 32 {
                    raw@[31] as int
                } else {
                    3
                },
                Err(_) => 3,
            };
            (r matches Step::Act(Commit::Tx(_), _)) <==> n < max
        })),
        r matches Step::Act(Commit::Cap(x, n), a) ==> ({
            &&& s == Commit::Count(x)
            &&& reply matches Reply::File(Ok(file))
            &&& ({
                let m = loaded_file(opt_text_view(file));
                n == Set::new(|k: Seq<char>| m.dom().contains(k) && m[k].epoch_id == x.ready.epoch_id).len()
            })
            &&& a@ matches ActionV::View(to, data)
            &&& to == x.to@
            &&& data == selector_of("maxCommitsPerEpoch()"@)
        }),
{
    if let Step::Act(Commit::Cap(x, _), _) = r {
        lemma_static_args("maxCommitsPerEpoch()"@, Seq::empty());
        let d = static_call("maxCommitsPerEpoch()"@, Seq::empty());
        assert(d =~= d.take(4));
        if let Reply::File(Ok(file)) = reply {
            let m = loaded_file(opt_text_view(file));
            assert(commits_in(m, x.ready.epoch_id) =~= Set::new(
                |k: Seq<char>| m.dom().contains(k) && m[k].epoch_id == x.ready.epoch_id,
            ));
        }
    }
}

/// What is kept of a commit is what was sent: its epoch, word and answer, the salt digit for digit, the hash that the
/// call data carry, and the hash of the transaction; nothing is revealed or minted yet.
pub proof fn law_kept_commit_is_the_sent_one(x: Sealed, tx: Seq<char>, now: i64)
    ensures
        ({
            let c = entry_v(x, tx, now);
            let d = commit_call(x.ready.epoch_id, x.ready.args.word_id, sealed_hash(x), x.stakers@);
            &&& c.epoch_id == be_number(d.subrange(4, 36))
            &&& c.word_id == be_number(d.subrange(36, 68))
            &&& c.answer == x.ready.args.answer@
            &&& hex_bytes(without_prefixes(c.salt_hex, "0x"@)) == Some(x.salt@)
            &&& hex_bytes(without_prefixes(c.commit_hash, "0x"@)) == Some(d.subrange(68, 100))
            &&& c.agent == x.ready.agent_text@
            &&& c.commit_tx == tx
            &&& c.committed_at == now
            &&& c.language == x.ready.language@
            &&& c.power == x.ready.power
            &&& c.language_id == x.ready.language_id
            &&& c.status == CommitStatus::Committed
            &&& c.reveal_tx is None && c.inscribe_tx is None && c.token_id is None
        }),
{
    assert(x.stakers.len() == x.stakers@.len());
    law_commit_data(
        x.ready.epoch_id,
        x.ready.args.word_id,
        sealed_hash(x),
        x.stakers@,
        commit_call(x.ready.epoch_id, x.ready.args.word_id, sealed_hash(x), x.stakers@),
    );
    lemma_strip_hex_0x(x.salt@);
    law_hex_round_trip(x.salt@);
    lemma_strip_hex_0x(sealed_hash(x));
    law_hex_round_trip(sealed_hash(x));
}

/// After a commit the epoch, the word, the transaction, the hash, the bond and the deadline are told, and the reveal of that
/// word comes next.
pub proof fn law_commit_is_told(s: Sealed, tx: Seq<char>, gas: Result<GasCheck, Fault>)
    ensures
        member(committed_v(s, tx, gas).data, "epoch_id"@) == Some(num_v(s.ready.epoch_id as int)),
        member(committed_v(s, tx, gas).data, "word_id"@) == Some(num_v(s.ready.args.word_id as int)),
        member(committed_v(s, tx, gas).data, "tx_hash"@) == Some(JsonV::Str(tx)),
        member(committed_v(s, tx, gas).data, "commit_hash"@) == Some(JsonV::Str(hex_0x(commit_digest(s.ready.args.answer@, s.ready.agent@, s.salt@)))),
        member(committed_v(s, tx, gas).data, "bond_wei"@) == Some(JsonV::Str("10000000000000"@)),
        member(committed_v(s, tx, gas).data, "reveal_after"@) == Some(num_v(s.ready.deadline as int)),
        committed_v(s, tx, gas).status == "ok"@,
        committed_v(s, tx, gas).internal.next_command == Some("ardi-agent reveal --epoch "@ + dec_text(s.ready.epoch_id as nat) + " --word-id "@ + dec_text(s.ready.args.word_id as nat)),
{
    reveal_strlit("epoch_id");
    reveal_strlit("word_id");
    reveal_strlit("tx_hash");
    reveal_strlit("commit_hash");
    reveal_strlit("bond_wei");
    reveal_strlit("reveal_after");
    reveal_strlit("balance_warning");
    assert("epoch_id"@.len() == 8 && "epoch_id"@[0] == 'e');
    assert("bond_wei"@.len() == 8 && "bond_wei"@[0] == 'b');
    assert("word_id"@.len() == 7 && "word_id"@[0] == 'w');
    assert("tx_hash"@.len() == 7 && "tx_hash"@[0] == 't');
    assert("commit_hash"@.len() == 11);
    assert("reveal_after"@.len() == 12);
    assert("balance_warning"@.len() == 15);
}

/// The stakers of a commit are those that were given, or else those that back the agent with more than nothing on either
/// worknet; where there are more than eight, the lowest eight.
pub proof fn law_commit_takes_the_backers(s: Commit, reply: Reply, r: Step<Commit, Outcome>, b: Seq<u8>)
    requires
        commit_next(s, reply, r),
    ensures
        r matches Step::Act(Commit::Kya(ready, _), a) ==> s == Commit::Known(ready) && a@ == ActionV::Awp(
            "staking.getAllocationsByAgentSubnet"@,
            allocations_params_v(ready.agent_text@, "845300000012"@, None),
        ),
        r matches Step::Act(Commit::Ardi(ready, salt, list), a) ==> ({
            &&& s == Commit::Kya(ready, salt)
            &&& a@ == ActionV::Awp(
                "staking.getAllocationsByAgentSubnet"@,
                allocations_params_v(ready.agent_text@, "845300000014"@, None),
            )
            &&& reply matches Reply::Doc(d)
            &&& address_views(list@).contains(b) <==> backers(d, true).contains(b)
        }),
        r matches Step::Act(Commit::Count(x), _) ==> ({
            let given = match s {
                Commit::Known(ready) => address_views(ready.args.stakers->0@).contains(b),
                Commit::Ardi(_, _, list) => address_views(list@).contains(b) || backers(reply->Doc_0, true).contains(b),
                _ => false,
            };
            &&& address_views(x.stakers@).contains(b) ==> given
            &&& given && x.stakers@.len() < 8 ==> address_views(x.stakers@).contains(b)
            &&& given && !address_views(x.stakers@).contains(b) ==> forall|i: int|
                0 <= i < x.stakers@.len() ==> be_number((#[trigger] x.stakers@[i])@) < be_number(b)
        }),
        r matches Step::Act(Commit::Known(ready), _) ==> s == Commit::Balance(ready) && (reply matches Reply::Gas(Ok(g))
            && g.balance_wei >= 3_000_000_000_000_000),
        s matches Commit::Balance(ready) ==> (reply matches Reply::Gas(Ok(g)) ==> (g.balance_wei >= 3_000_000_000_000_000
            ==> r is Act)),
{
    if let (Step::Act(Commit::Ardi(_, _, list), _), Reply::Doc(d)) = (r, reply) {
        assert(address_views(list@).to_set().contains(b) == backers(d, true).contains(b));
    }
    if let Step::Act(Commit::Count(x), _) = r {
        match (s, reply) {
            (Commit::Known(ready), Reply::File(Ok(file))) => {
                if let Some(list) = ready.args.stakers {
                    lemma_settled(x.stakers@, address_views(list@).to_set(), b);
                }
            },
            (Commit::Ardi(_, _, list), Reply::Doc(d)) => {
                lemma_settled(x.stakers@, address_views(list@).to_set().union(backers(d, true)), b);
            },
            _ => {},
        }
    }
}

/// The stakers that are settled on are the lowest ones of those that there are.
proof fn lemma_settled(v: Seq<Address>, stakers: Set<Seq<u8>>, b: Seq<u8>)
    requires
        settled(v, stakers),
    ensures
        address_views(v).contains(b) ==> stakers.contains(b),
        stakers.contains(b) && v.len() < 8 ==> address_views(v).contains(b),
        stakers.contains(b) && !address_views(v).contains(b) ==> forall|i: int|
            0 <= i < v.len() ==> be_number((#[trigger] v[i])@) < be_number(b),
{
    let full = choose|full: Seq<Seq<u8>>|
        #![trigger ascending(full)]
        ascending(full) && full.to_set() == stakers && address_views(v) == full.take(
            if full.len() > 8 {
                8
            } else {
                full.len() as int
            },
        );
    let views = address_views(v);
    assert(views.len() == v.len());
    if views.contains(b) {
        let i = choose|i: int| 0 <= i < views.len() && views[i] == b;
        assert(full[i] == b);
        assert(full.contains(b));
        assert(full.to_set().contains(b));
    }
    if stakers.contains(b) {
        assert(full.to_set().contains(b));
        let k = choose|k: int| 0 <= k < full.len() && full[k] == b;
        if k < views.len() {
            assert(views[k] == b);
        } else {
            assert forall|i: int| 0 <= i < v.len() implies be_number((#[trigger] v[i])@) < be_number(b) by {
                assert(views[i] == full[i]);
                assert(be_number(full[i]) < be_number(full[k]));
            }
        }
    }
}

/// A commit is by the agent whose address was found, on the epoch that the coordinator states now; where it states none,
/// nothing is committed.
pub proof fn law_commit_begins_with_the_agent(s: Commit, reply: Reply, r: Step<Commit, Outcome>)
    requires
        commit_next(s, reply, r),
    ensures
        r matches Step::Act(Commit::Epoch(args, t, agent), a) ==> s == Commit::Address(args) && reply == Reply::Text(
            Ok::<String, Fault>(t),
        ) && Some(agent@) == parsed_address(t@) && a@ == ActionV::TryGet("/v1/epoch/current"@),
        r matches Step::Act(Commit::Balance(ready), a) ==> ({
            &&& s matches Commit::Epoch(args, t, agent)
            &&& reply matches Reply::Found(Ok(Some(v)))
            &&& ready.args == args && ready.agent == agent && ready.agent_text == t
            &&& exists|cur: CurrentEpoch| #[trigger] current_epoch_holds(v@, cur) && ready.epoch_id == cur.epoch_id
            &&& a@ == ActionV::Balance(t@)
        }),
        s matches Commit::Epoch(_, _, _) ==> (reply matches Reply::Found(Ok(None)) ==> (r matches Step::End(
            Outcome::Print(o),
        ) && o@.error_code == Some("NO_OPEN_EPOCH"@))),
        s matches Commit::Saved(x, h) ==> (reply matches Reply::Done(Ok(_)) ==> (r matches Step::Act(Commit::Confirm(y, g), a)
            && y == x && g == h && a@ == ActionV::Receipt(h@, 60))),
        s matches Commit::Confirm(x, h) ==> (reply matches Reply::Receipt(Ok((ok, _))) ==> (!ok ==> (r matches Step::Act(
            Commit::Reverted(y, g),
            _,
        ) && y == x && g == h))),
        s matches Commit::Warn(x, h) ==> (reply matches Reply::Gas(g) ==> (r matches Step::End(Outcome::Print(o)) && o@
            == committed_v(x, h@, g))),
        r matches Step::End(Outcome::Print(o)) ==> (o@.status == "ok"@ ==> s is Warn),
{
    reveal_strlit("ok");
    reveal_strlit("error");
    assert("ok"@.len() == 2 && "error"@.len() == 5);
}

/// Each refusal of a commit has its code: no open epoch of that number, no such riddle, or a window that is closed.
pub proof fn law_commit_refusals_have_codes(args: CommitArgs, t: String, agent: Address, cur: CurrentEpoch, now: i64, r: Step<Commit, Outcome>)
    requires
        epoch_next(args, t, agent, cur, now, r),
    ensures
        args.epoch_id matches Some(e) ==> (e != cur.epoch_id ==> (r matches Step::End(Outcome::Print(o)) && o@.error_code
            == Some("WRONG_EPOCH"@))),
        (args.epoch_id is None || args.epoch_id == Some(cur.epoch_id)) && !has_riddle(cur.riddles@, args.word_id) ==> (
        r matches Step::End(Outcome::Print(o)) && o@.error_code == Some("WORDID_NOT_IN_EPOCH"@)),
        (args.epoch_id is None || args.epoch_id == Some(cur.epoch_id)) && has_riddle(cur.riddles@, args.word_id) && now
            >= cur.commit_deadline ==> (r matches Step::End(Outcome::Print(o)) && o@.error_code == Some(
            "COMMIT_WINDOW_CLOSED"@,
        )),
{
}

/// A commit that failed on the chain is marked as failed, and nothing is said to have been committed.
pub proof fn law_revert_is_marked(m: Map<Seq<char>, PendingCommitV>, e: u64, w: u64, s: Commit, reply: Reply, r: Step<Commit, Outcome>)
    requires
        commit_next(s, reply, r),
    ensures
        m.dom().contains(key_text(e, w)) ==> after_revert(m, e, w)[key_text(e, w)].status == CommitStatus::Failed,
        s matches Commit::Reverted(x, h) ==> (reply matches Reply::File(Ok(file)) ==> (r matches Step::Act(Commit::Marked(y, g), a)
            && y == x && g == h && a@ == ActionV::Save(
            json_pretty_text(
                state_json(
                    after_revert(loaded_file(opt_text_view(file)), x.ready.epoch_id, x.ready.args.word_id),
                ),
            ),
        ))),
        s matches Commit::Marked(_, _) ==> (reply matches Reply::Done(Ok(_)) ==> (r matches Step::End(Outcome::Fail(_)))),
{
}

/// A refusal names what it is about: the commit that is already on file, the balance of the wallet, or the cap.
pub proof fn law_commit_refusals_name_their_cause(s: Commit, reply: Reply, r: Step<Commit, Outcome>)
    requires
        commit_next(s, reply, r),
    ensures
        s matches Commit::Known(ready) ==> (reply matches Reply::File(Ok(file)) ==> ({
            let m = loaded_file(opt_text_view(file));
            let key = key_text(ready.epoch_id, ready.args.word_id);
            m.dom().contains(key) ==> (r matches Step::End(Outcome::Print(o)) && o@.error_code == Some(
                "ALREADY_COMMITTED"@,
            ) && o@.message == "Already committed on (epoch="@ + dec_text(ready.epoch_id as nat) + ", word_id="@
                + dec_text(ready.args.word_id as nat) + ") with answer \""@ + m[key].answer + "\" at tx "@
                + m[key].commit_tx + "."@)
        })),
        s matches Commit::Balance(ready) ==> (reply matches Reply::Gas(Ok(g)) ==> (g.balance_wei < 3_000_000_000_000_000 ==> (
        r matches Step::End(Outcome::Print(o)) && o@.error_code == Some("INSUFFICIENT_GAS"@) && o@.message == "Wallet has "@
            + g.balance.d6@ + " ETH; commit needs at least 0.003000 ETH (bond 10000000000000 wei + gas)."@
            && o@.data == error_data(
            true,
            "Send 0.05 ETH on Base mainnet to "@ + ready.agent_text@ + ", then retry."@,
        )))),
        s matches Commit::Cap(x, n) ==> (reply matches Reply::Bytes(b) ==> (r matches Step::End(Outcome::Print(o)) ==> n
            >= live_max(b) && o@.error_code == Some("EPOCH_COMMIT_CAP_REACHED"@) && has_prefix(
            o@.message,
            "Already used your "@ + dec_text(live_max(b) as nat) + "-commit cap in epoch "@ + dec_text(
                x.ready.epoch_id as nat,
            ) + " ("@ + dec_text(n as nat),
        ))),
{
    if let (Commit::Cap(x, n), Reply::Bytes(b)) = (s, reply) {
        let head = "Already used your "@ + dec_text(live_max(b) as nat) + "-commit cap in epoch "@ + dec_text(
            x.ready.epoch_id as nat,
        ) + " ("@ + dec_text(n as nat);
        let m = capped_v(x.ready.epoch_id, live_max(b) as nat, n as nat).message;
        assert(m.take(head.len() as int) =~= head);
    }
}

/// A wrong epoch is named with the open one, a word that is not in the epoch with the epoch, and a closed window with the
/// seconds since it closed.
pub proof fn law_commit_says_why_not(args: CommitArgs, t: String, agent: Address, cur: CurrentEpoch, now: i64, r: Step<Commit, Outcome>)
    requires
        epoch_next(args, t, agent, cur, now, r),
    ensures
        args.epoch_id matches Some(e) ==> (e != cur.epoch_id ==> (r matches Step::End(Outcome::Print(o)) && o@.message
            == "Epoch "@ + dec_text(e as nat) + " is not the current commit-able epoch (current="@ + dec_text(
            cur.epoch_id as nat,
        ) + ")"@ && o@.internal.next_command == Some(
            "ardi-agent commit --epoch "@ + dec_text(cur.epoch_id as nat) + " --word-id "@ + dec_text(args.word_id as nat)
                + " --answer "@ + args.answer@,
        ))),
        (args.epoch_id is None || args.epoch_id == Some(cur.epoch_id)) && !has_riddle(cur.riddles@, args.word_id) ==> (r matches Step::End(Outcome::Print(o)) && o@.message == "wordId "@ + dec_text(
            args.word_id as nat,
        ) + " is not in epoch "@ + dec_text(cur.epoch_id as nat) + "'s published riddles."@ && member(
            o@.debug,
            "available_word_ids"@,
        ) == Some(word_ids_v(cur.riddles@))),
        (args.epoch_id is None || args.epoch_id == Some(cur.epoch_id)) && has_riddle(cur.riddles@, args.word_id) && now
            >= cur.commit_deadline ==> (r matches Step::End(Outcome::Print(o)) && o@.message == "Commit window for epoch "@ + dec_text(cur.epoch_id as nat) + " closed "@ + int_text(
            now - cur.commit_deadline,
        ) + "s ago. Wait for the next epoch."@),
{
    reveal_strlit("epoch_id");
    reveal_strlit("available_word_ids");
    assert("epoch_id"@.len() == 8);
    assert("available_word_ids"@.len() == 18);
}

/// Where a commit was made or is already there, the reveal of that epoch and that word is named.
pub proof fn law_reveal_of_the_word_is_named(s: Sealed, tx: Seq<char>, gas: Result<GasCheck, Fault>, e: u64, w: u64, answer: Seq<char>)
    ensures
        has_prefix(
            committed_v(s, tx, gas).message,
            "Commit submitted: epoch="@ + dec_text(s.ready.epoch_id as nat) + " word="@ + dec_text(s.ready.args.word_id as nat)
                + " tx="@ + tx + ". Wait until reveal window opens, then `"@ + ("ardi-agent reveal --epoch "@ + dec_text(
                s.ready.epoch_id as nat,
            ) + " --word-id "@ + dec_text(s.ready.args.word_id as nat)),
        ),
        already_v(e, w, answer, tx).internal.next_command == Some(
            "ardi-agent reveal --epoch "@ + dec_text(e as nat) + " --word-id "@ + dec_text(w as nat),
        ),
        already_v(e, w, answer, tx).data == error_data(
            false,
            "If reveal window has opened, run `"@ + ("ardi-agent reveal --epoch "@ + dec_text(e as nat) + " --word-id "@
                + dec_text(w as nat))
                + "`. To re-try with a different answer is impossible — same agent can't re-commit on the same wordId per SD-2."@,
        ),
{
    let head = "Commit submitted: epoch="@ + dec_text(s.ready.epoch_id as nat) + " word="@ + dec_text(
        s.ready.args.word_id as nat,
    ) + " tx="@ + tx + ". Wait until reveal window opens, then `"@ + ("ardi-agent reveal --epoch "@ + dec_text(
        s.ready.epoch_id as nat,
    ) + " --word-id "@ + dec_text(s.ready.args.word_id as nat));
    assert(committed_v(s, tx, gas).message.take(head.len() as int) =~= head);
}

} // verus!
