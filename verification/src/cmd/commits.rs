//! commits: the commits that are kept, and what to do next about each.
use vstd::prelude::*;

use crate::address::{parsed_address, Address};
use crate::bytes::{be_number, lemma_be_leading_zeros};
use crate::chain::{arg_at, call1, lemma_static_args, lemma_word_lengths, selector_of, static_call, uint_arg};
use crate::clock::unix_now;
use crate::cmd::gas::{law_warning_stands_behind_the_message, warn, warned_data, warned_message, GasCheck};
use crate::cmd::{inscribe_command, inscribe_command_v, reveal_command, reveal_command_v};
use crate::fault::Fault;
use crate::flow::{
    calls_view, fail, fails, print, prints, stray, stray_v, Action, ActionV, Outcome, Reply, Step, ViewCall,
};
use crate::json::{
    arr_v, empty_object, json_pretty_text, lemma_arr_push, member, num_v, opt_str_v, with_member, Json, JsonV,
};
use crate::num::{dec, dec_i128, dec_text, dec_usize};
use crate::output::{success_v, Internal, InternalV, Output, OutputV};
use crate::schema::{opt_nat, opt_text_view};
use crate::state::{
    entries_map, lemma_entries, loaded_file, opt_num_v, state_json, status_text, CommitStatus,
    PendingCommit, PendingCommitV, State,
};
use crate::text::{cat2, cat3, cat4, cat5, has_prefix, lex_before};
use crate::u256::{be_word};

verus! {

/// The block explorer.
pub const BASESCAN: &'static str = "https://basescan.org";

/// The page of a transaction.
pub open spec fn tx_url_v(hash: Seq<char>) -> Seq<char> {
    "https://basescan.org"@ + "/tx/"@ + hash
}

/// The page of a transaction.
pub fn tx_url(hash: &str) -> (r: String)
    ensures
        r@ == tx_url_v(hash@),
{
    cat3("https://basescan.org", "/tx/", hash)
}

/// The page of a token.
pub open spec fn token_url_v(nft: Seq<char>, token: nat) -> Seq<char> {
    "https://basescan.org"@ + "/token/"@ + nft + "/"@ + dec_text(token)
}

/// The page of a token.
pub fn token_url(nft_addr: &str, token_id: u64) -> (r: String)
    ensures
        r@ == token_url_v(nft_addr@, token_id as nat),
{
    let t = dec(token_id);
    cat5("https://basescan.org", "/token/", nft_addr, "/", t.as_str())
}

/// Whether a token was won but its number is not kept.
pub open spec fn lacks_token(c: PendingCommitV) -> bool {
    (c.status == CommitStatus::Inscribed || c.status == CommitStatus::Won) && c.token_id is None
        && c.word_id < u64::MAX
}

/// A commit with the number of its token, which is one more than that of its word.
pub open spec fn filled(c: PendingCommitV) -> PendingCommitV {
    if lacks_token(c) {
        PendingCommitV { token_id: Some((c.word_id + 1) as u64), ..c }
    } else {
        c
    }
}

/// The commits with the numbers of their tokens.
pub open spec fn backfilled(m: Map<Seq<char>, PendingCommitV>) -> Map<Seq<char>, PendingCommitV> {
    m.map_values(|c: PendingCommitV| filled(c))
}

/// Whether some number of a token is missing.
pub open spec fn needs_backfill(m: Map<Seq<char>, PendingCommitV>) -> bool {
    exists|k: Seq<char>| #[trigger] m.dom().contains(k) && lacks_token(m[k])
}

/// Changing the commits of a list one for one changes those of its map.
proof fn lemma_filled(a: Seq<(String, PendingCommit)>, b: Seq<(String, PendingCommit)>)
    requires
        a.len() == b.len(),
        forall|i: int| 0 <= i < a.len() ==> (#[trigger] b[i]).0@ == a[i].0@ && b[i].1@ == filled(a[i].1@),
    ensures
        entries_map(b) == backfilled(entries_map(a)),
    decreases a.len(),
{
    if a.len() > 0 {
        let x = a.drop_last();
        let y = b.drop_last();
        assert forall|i: int| 0 <= i < x.len() implies (#[trigger] y[i]).0@ == x[i].0@ && y[i].1@ == filled(
            x[i].1@,
        ) by {
            assert(b[i] == y[i] && a[i] == x[i]);
        }
        lemma_filled(x, y);
        assert(b[b.len() - 1].0@ == a[a.len() - 1].0@);
    }
    assert(entries_map(b) =~= backfilled(entries_map(a)));
}

/// Fills in the numbers of tokens that are missing, and tells whether there were any.
pub fn backfill(st: State) -> (r: (State, bool))
    requires
        st.wf(),
    ensures
        r.0.wf(),
        r.0@ == backfilled(st@),
        r.1 == needs_backfill(st@),
{
    let mut out: Vec<(String, PendingCommit)> = Vec::new();
    let n = st.pending.len();
    let mut any = false;
    let ghost s = st.pending@;
    for i in 0..n
        invariant
            n == st.pending@.len(),
            s == st.pending@,
            out@.len() == i,
            forall|j: int|
                0 <= j < i ==> (#[trigger] out@[j]).0@ == s[j].0@ && out@[j].1@ == filled(s[j].1@),
            any == exists|j: int| 0 <= j < i && lacks_token((#[trigger] s[j]).1@),
    {
        let mut c = st.pending[i].1.copy();
        let won = c.status == CommitStatus::Inscribed || c.status == CommitStatus::Won;
        let ghost had = any;
        if won && c.token_id.is_none() && c.word_id < u64::MAX {
            c.token_id = Some(c.word_id + 1);
            any = true;
            assert(lacks_token(s[i as int].1@));
        }
        let k = st.pending[i].0.clone();
        out.push((k, c));
    }
    let r = State { pending: out };
    proof {
        lemma_filled(s, out@);
        lemma_entries(s);
        assert forall|a: int, b: int| 0 <= a < b < out@.len() implies lex_before(
            #[trigger] out@[a].0@,
            #[trigger] out@[b].0@,
        ) by {
            assert(lex_before(s[a].0@, s[b].0@));
        }
        if any {
            let j = choose|j: int| 0 <= j < n && lacks_token((#[trigger] s[j]).1@);
            assert(st@.dom().contains(s[j].0@));
        }
        if needs_backfill(st@) {
            let k = choose|k: Seq<char>| #[trigger] st@.dom().contains(k) && lacks_token(st@[k]);
            let j = choose|j: int| 0 <= j < s.len() && #[trigger] s[j].0@ == k;
            assert(lacks_token(s[j].1@));
        }
    }
    (r, any)
}

/// The commits of a list, in order.
pub open spec fn entry_views(s: Seq<(String, PendingCommit)>) -> Seq<PendingCommitV> {
    s.map_values(|p: (String, PendingCommit)| p.1@)
}

/// Whether some of the epochs are the epochs of the commits that wait for their reveal, in ascending order.
pub open spec fn waiting_epochs(epochs: Seq<u64>, entries: Seq<PendingCommitV>) -> bool {
    &&& forall|i: int, j: int| 0 <= i < j < epochs.len() ==> epochs[i] < epochs[j]
    &&& forall|e: u64| #[trigger]
        epochs.contains(e) <==> exists|i: int|
            0 <= i < entries.len() && (#[trigger] entries[i]).status == CommitStatus::Committed
                && entries[i].epoch_id == e
}

/// Puts `e` at its place in an ascending list, unless it is there already.
fn insert_epoch(v: &mut Vec<u64>, e: u64)
    requires
        forall|i: int, j: int| 0 <= i < j < old(v)@.len() ==> old(v)@[i] < old(v)@[j],
    ensures
        forall|i: int, j: int| 0 <= i < j < final(v)@.len() ==> final(v)@[i] < final(v)@[j],
        forall|x: u64| #[trigger] final(v)@.contains(x) <==> old(v)@.contains(x) || x == e,
{
    let ghost before = v@;
    let mut i: usize = 0;
    while i < v.len() && v[i] < e
        invariant
            i <= v@.len(),
            v@ == before,
            forall|j: int| 0 <= j < i ==> before[j] < e,
        decreases v@.len() - i,
    {
        i += 1;
    }
    if i < v.len() && v[i] == e {
        assert(v@[i as int] == e);
        return;
    }
    v.insert(i, e);
    proof {
        let after = v@;
        assert(after =~= before.insert(i as int, e));
        assert forall|x: u64| #[trigger] after.contains(x) <==> before.contains(x) || x == e by {
            if after.contains(x) {
                let k = choose|k: int| 0 <= k < after.len() && after[k] == x;
                if k < i {
                    assert(before[k] == x);
                } else if k > i {
                    assert(before[k - 1] == x);
                }
            }
            if before.contains(x) {
                let k = choose|k: int| 0 <= k < before.len() && before[k] == x;
                if k < i {
                    assert(after[k] == x);
                } else {
                    assert(after[k + 1] == x);
                }
            }
            assert(after[i as int] == e);
        }
    }
}

/// The epochs of the commits that wait for their reveal.
pub fn epochs_waiting(st: &State) -> (r: Vec<u64>)
    ensures
        waiting_epochs(r@, entry_views(st.pending@)),
{
    let mut r: Vec<u64> = Vec::new();
    let n = st.pending.len();
    let ghost all = entry_views(st.pending@);
    for i in 0..n
        invariant
            n == st.pending@.len(),
            all == entry_views(st.pending@),
            waiting_epochs(r@, all.take(i as int)),
    {
        let ghost before = r@;
        proof {
            assert(all[i as int] == st.pending@[i as int].1@);
        }
        if st.pending[i].1.status == CommitStatus::Committed {
            insert_epoch(&mut r, st.pending[i].1.epoch_id);
        }
        proof {
            let x = all.take(i as int);
            let y = all.take(i + 1);
            assert forall|e: u64| #[trigger] r@.contains(e) <==> exists|j: int|
                0 <= j < y.len() && (#[trigger] y[j]).status == CommitStatus::Committed && y[j].epoch_id == e by {
                if before.contains(e) {
                    let j = choose|j: int|
                        0 <= j < x.len() && (#[trigger] x[j]).status == CommitStatus::Committed && x[j].epoch_id
                            == e;
                    assert(y[j] == x[j]);
                }
                if exists|j: int|
                    0 <= j < y.len() && (#[trigger] y[j]).status == CommitStatus::Committed && y[j].epoch_id == e {
                    let j = choose|j: int|
                        0 <= j < y.len() && (#[trigger] y[j]).status == CommitStatus::Committed && y[j].epoch_id
                            == e;
                    if j < i {
                        assert(x[j] == y[j]);
                        assert(before.contains(e));
                    }
                }
                assert(y[i as int] == all[i as int]);
            }
        }
    }
    assert(all.take(n as int) =~= all);
    r
}

/// The calls that ask for the deadlines of some epochs.
pub open spec fn epoch_calls(draw: Seq<u8>, epochs: Seq<u64>) -> Seq<(Seq<u8>, Seq<u8>)> {
    epochs.map_values(
        |e: u64| (draw, static_call("epochs(uint256)"@, seq![be_word(e as nat)])),
    )
}

/// The calls that ask for the deadlines of some epochs.
pub fn ask_epochs(draw: &Address, epochs: &Vec<u64>) -> (r: Vec<ViewCall>)
    ensures
        calls_view(r@) == epoch_calls(draw@, epochs@),
{
    let mut r: Vec<ViewCall> = Vec::new();
    let n = epochs.len();
    for i in 0..n
        invariant
            n == epochs@.len(),
            r@.len() == i,
            forall|j: int|
                0 <= j < i ==> (#[trigger] r@[j]).to@ == draw@ && r@[j].data@ == static_call(
                    "epochs(uint256)"@,
                    seq![be_word(epochs@[j] as nat)],
                ),
    {
        r.push(ViewCall { to: *draw, data: call1("epochs(uint256)", uint_arg(epochs[i])) });
    }
    assert(calls_view(r@) =~= epoch_calls(draw@, epochs@));
    r
}

/// The commit deadline that a reply states, if it is long enough.
pub open spec fn reply_deadline(reply: Result<Vec<u8>, Fault>) -> Option<nat> {
    match reply {
        Ok(raw) => if raw@.len() >= 64 {
            Some(be_number(raw@.subrange(56, 64)))
        } else {
            None
        },
        Err(_) => None,
    }
}

/// The deadline of an epoch among the replies, which stand in the order of the epochs.
pub open spec fn deadline_of(
    epochs: Seq<u64>,
    replies: Seq<Result<Vec<u8>, Fault>>,
    epoch: u64,
) -> Option<nat>
    decreases epochs.len(),
{
    if epochs.len() == 0 {
        None
    } else if epochs.last() == epoch {
        if epochs.len() <= replies.len() {
            reply_deadline(replies[epochs.len() - 1])
        } else {
            None
        }
    } else {
        deadline_of(epochs.drop_last(), replies, epoch)
    }
}

/// Reads the commit deadline that a reply states.
fn read_deadline(reply: &Result<Vec<u8>, Fault>) -> (r: Option<u64>)
    ensures
        match r {
            Some(d) => reply_deadline(*reply) == Some(d as nat),
            None => reply_deadline(*reply) is None,
        },
{
    match reply {
        Ok(raw) => {
            if raw.len() < 64 {
                return None;
            }
            let mut d: u64 = 0;
            let mut i: usize = 56;
            assert(raw@.subrange(56, 56).len() == 0);
            while i < 64
                invariant
                    56 <= i <= 64,
                    raw@.len() >= 64,
                    d as nat == be_number(raw@.subrange(56, i as int)),
                decreases 64 - i,
            {
                proof {
                    let b = raw@.subrange(56, i as int);
                    let c = raw@.subrange(56, i + 1);
                    assert(c.drop_last() =~= b);
                    lemma_short_bound(b);
                }
                d = d * 256 + raw[i] as u64;
                i += 1;
            }
            Some(d)
        },
        Err(_) => None,
    }
}

/// Up to seven bytes state a number below two to the 56.
proof fn lemma_short_bound(b: Seq<u8>)
    requires
        b.len() <= 7,
    ensures
        be_number(b) < 0x100_0000_0000_0000,
{
    reveal_with_fuel(be_number, 8);
}

/// Finds the deadline of an epoch among the replies.
fn find_deadline(epochs: &Vec<u64>, replies: &Vec<Result<Vec<u8>, Fault>>, epoch: u64) -> (r: Option<u64>)
    ensures
        match r {
            Some(d) => deadline_of(epochs@, replies@, epoch) == Some(d as nat),
            None => deadline_of(epochs@, replies@, epoch) is None,
        },
{
    let mut i = epochs.len();
    assert(epochs@.take(i as int) =~= epochs@);
    while i > 0
        invariant
            i <= epochs@.len(),
            deadline_of(epochs@, replies@, epoch) == deadline_of(epochs@.take(i as int), replies@, epoch),
        decreases i,
    {
        i -= 1;
        assert(epochs@.take(i + 1).drop_last() =~= epochs@.take(i as int));
        if epochs[i] == epoch {
            if i < replies.len() {
                return read_deadline(&replies[i]);
            }
            return None;
        }
    }
    None
}

/// The command that takes a commit further, if there is one.
pub open spec fn suggestion(c: PendingCommitV) -> Option<Seq<char>> {
    match c.status {
        CommitStatus::Committed => Some(
            reveal_command_v(c.epoch_id, c.word_id) + " (after commit_deadline + publish)"@,
        ),
        CommitStatus::Revealed => Some(inscribe_command_v(c.epoch_id, c.word_id)),
        CommitStatus::Won => Some(inscribe_command_v(c.epoch_id, c.word_id)),
        _ => None,
    }
}

/// The command that takes a commit further, if there is one.
pub fn suggest(c: &PendingCommit) -> (r: Option<String>)
    ensures
        opt_text_view(r) == suggestion(c@),
{
    match c.status {
        CommitStatus::Committed => {
            let t = reveal_command(c.epoch_id, c.word_id);
            Some(cat2(t.as_str(), " (after commit_deadline + publish)"))
        },
        CommitStatus::Revealed => Some(inscribe_command(c.epoch_id, c.word_id)),
        CommitStatus::Won => Some(inscribe_command(c.epoch_id, c.word_id)),
        _ => None,
    }
}

/// The page of a transaction, where there is one.
pub open spec fn opt_url(hash: Option<Seq<char>>) -> JsonV {
    match hash {
        Some(h) => JsonV::Str(tx_url_v(h)),
        None => JsonV::Null,
    }
}

fn opt_tx_url(hash: &Option<String>) -> (r: Json)
    ensures
        r@ == opt_url(opt_text_view(*hash)),
{
    match hash {
        Some(h) => Json::Str(tx_url(h.as_str())),
        None => Json::Null,
    }
}

/// How many seconds after the commit deadline a reveal is possible: the answers are published in between.
pub const REVEAL_PUBLISH_GRACE_SEC: u64 = 30;

/// A 64-bit number read as a signed one.
pub open spec fn signed_v(n: int) -> int {
    if n < 0x8000_0000_0000_0000 {
        n
    } else {
        n - 0x1_0000_0000_0000_0000
    }
}

/// How many seconds are left until a reveal is possible.
pub open spec fn reveal_wait(deadline: nat, now: i64) -> int {
    let left = signed_v(deadline as int + 30) - now;
    if left > 0 {
        left
    } else {
        0
    }
}

/// What the listing says of a commit.
pub open spec fn row_v(c: PendingCommitV, now: i64, nft: Seq<char>, deadline: Option<nat>) -> JsonV {
    let o = with_member(empty_object(), "epoch_id"@, num_v(c.epoch_id as int));
    let o = with_member(o, "word_id"@, num_v(c.word_id as int));
    let o = with_member(o, "status"@, JsonV::Str(status_text(c.status)));
    let o = with_member(o, "answer"@, JsonV::Str(c.answer));
    let o = with_member(o, "committed_at"@, num_v(c.committed_at as int));
    let o = with_member(o, "age_seconds"@, num_v(now - c.committed_at));
    let o = with_member(o, "commit_tx"@, JsonV::Str(c.commit_tx));
    let o = with_member(o, "commit_tx_url"@, JsonV::Str(tx_url_v(c.commit_tx)));
    let o = with_member(o, "reveal_tx"@, opt_str_v(c.reveal_tx));
    let o = with_member(o, "reveal_tx_url"@, opt_url(c.reveal_tx));
    let o = with_member(o, "inscribe_tx"@, opt_str_v(c.inscribe_tx));
    let o = with_member(o, "inscribe_tx_url"@, opt_url(c.inscribe_tx));
    let o = with_member(o, "token_id"@, opt_num_v(c.token_id));
    let o = with_member(
        o,
        "token_url"@,
        match c.token_id {
            Some(t) => JsonV::Str(token_url_v(nft, t as nat)),
            None => JsonV::Null,
        },
    );
    let o = with_member(o, "next_command"@, opt_str_v(suggestion(c)));
    match deadline {
        Some(d) => if c.status == CommitStatus::Committed {
            with_member(
                with_member(o, "next_reveal_eligible_at"@, num_v(d as int + 30)),
                "next_reveal_in_seconds"@,
                num_v(reveal_wait(d, now)),
            )
        } else {
            o
        },
        None => o,
    }
}

/// What the listing says of a commit.
pub fn row(c: &PendingCommit, now: i64, nft: &str, deadline: Option<u64>) -> (r: Json)
    ensures
        r@ == row_v(c@, now, nft@, opt_nat(deadline)),
{
    let token = match c.token_id {
        Some(t) => Json::number(t),
        None => Json::Null,
    };
    let token_page = match c.token_id {
        Some(t) => Json::Str(token_url(nft, t)),
        None => Json::Null,
    };
    let next = suggest(c);
    let o = Json::object().with("epoch_id", Json::number(c.epoch_id)).with(
        "word_id",
        Json::number(c.word_id),
    ).with("status", Json::text(c.status.text())).with("answer", Json::text(c.answer.as_str())).with(
        "committed_at",
        Json::signed(c.committed_at),
    ).with("age_seconds", Json::Num(dec_i128(now as i128 - c.committed_at as i128))).with(
        "commit_tx",
        Json::text(c.commit_tx.as_str()),
    ).with("commit_tx_url", Json::Str(tx_url(c.commit_tx.as_str()))).with(
        "reveal_tx",
        Json::opt_text(&c.reveal_tx),
    ).with("reveal_tx_url", opt_tx_url(&c.reveal_tx)).with(
        "inscribe_tx",
        Json::opt_text(&c.inscribe_tx),
    ).with("inscribe_tx_url", opt_tx_url(&c.inscribe_tx)).with("token_id", token).with(
        "token_url",
        token_page,
    ).with("next_command", Json::opt_text(&next));
    match deadline {
        Some(d) => {
            if c.status == CommitStatus::Committed {
                let at: i128 = d as i128 + REVEAL_PUBLISH_GRACE_SEC as i128;
                let signed: i128 = if at < 0x8000_0000_0000_0000 {
                    at
                } else {
                    at - 0x1_0000_0000_0000_0000
                };
                let left: i128 = signed - now as i128;
                let wait: i128 = if left > 0 {
                    left
                } else {
                    0
                };
                o.with("next_reveal_eligible_at", Json::Num(dec_i128(at))).with(
                    "next_reveal_in_seconds",
                    Json::Num(dec_i128(wait)),
                )
            } else {
                o
            }
        },
        None => o,
    }
}

/// What the listing is made of.
pub struct Listing {
    /// The commits.
    pub st: State,
    /// The time.
    pub now: i64,
    /// The address of the token contract.
    pub nft: String,
    /// The epochs whose deadlines were asked for.
    pub epochs: Vec<u64>,
    /// The replies.
    pub replies: Vec<Result<Vec<u8>, Fault>>,
}

/// What the listing says of each commit.
pub open spec fn rows_v(l: Listing) -> Seq<JsonV> {
    entry_views(l.st.pending@).map_values(
        |c: PendingCommitV| row_v(c, l.now, l.nft@, deadline_of(l.epochs@, l.replies@, c.epoch_id)),
    )
}

/// What the listing says of each commit.
pub fn rows(l: &Listing) -> (r: Vec<Json>)
    ensures
        arr_v(r@) == rows_v(*l),
{
    let mut r: Vec<Json> = Vec::new();
    let n = l.st.pending.len();
    let ghost all = rows_v(*l);
    assert(arr_v(r@) =~= all.take(0));
    for i in 0..n
        invariant
            n == l.st.pending@.len(),
            all == rows_v(*l),
            arr_v(r@) == all.take(i as int),
    {
        let c = &l.st.pending[i].1;
        let d = find_deadline(&l.epochs, &l.replies, c.epoch_id);
        let x = row(c, l.now, l.nft.as_str(), d);
        proof {
            lemma_arr_push(r@, x);
            assert(all[i as int] == x@);
            assert(all.take(i + 1) =~= all.take(i as int).push(all[i as int]));
        }
        r.push(x);
    }
    assert(all.take(n as int) =~= all);
    r
}

/// Whether some commit has this status.
pub open spec fn some_status(entries: Seq<PendingCommitV>, s: CommitStatus) -> bool {
    exists|i: int| 0 <= i < entries.len() && (#[trigger] entries[i]).status == s
}

/// What to do next about the commits.
pub open spec fn listing_action(entries: Seq<PendingCommitV>) -> Seq<char> {
    if some_status(entries, CommitStatus::Revealed) {
        "inscribe_pending"@
    } else if some_status(entries, CommitStatus::Committed) {
        "reveal_pending"@
    } else {
        "idle"@
    }
}

/// The command that takes the first commit that can be taken further.
pub open spec fn first_command(entries: Seq<PendingCommitV>) -> Option<Seq<char>>
    decreases entries.len(),
{
    if entries.len() == 0 {
        None
    } else {
        match suggestion(entries[0]) {
            Some(t) => Some(t),
            None => first_command(entries.skip(1)),
        }
    }
}

fn has_status(st: &State, s: CommitStatus) -> (r: bool)
    ensures
        r == some_status(entry_views(st.pending@), s),
{
    let n = st.pending.len();
    let ghost all = entry_views(st.pending@);
    for i in 0..n
        invariant
            n == st.pending@.len(),
            all == entry_views(st.pending@),
            forall|j: int| 0 <= j < i ==> (#[trigger] all[j]).status != s,
    {
        assert(all[i as int] == st.pending@[i as int].1@);
        if st.pending[i].1.status == s {
            return true;
        }
    }
    false
}

fn command_first(st: &State) -> (r: Option<String>)
    ensures
        opt_text_view(r) == first_command(entry_views(st.pending@)),
{
    let n = st.pending.len();
    let ghost all = entry_views(st.pending@);
    assert(all.skip(0) =~= all);
    for i in 0..n
        invariant
            n == st.pending@.len(),
            all == entry_views(st.pending@),
            first_command(all) == first_command(all.skip(i as int)),
    {
        proof {
            assert(all.skip(i as int)[0] == all[i as int]);
            assert(all[i as int] == st.pending@[i as int].1@);
            assert(all.skip(i as int).skip(1) =~= all.skip(i + 1));
        }
        match suggest(&st.pending[i].1) {
            Some(t) => {
                return Some(t);
            },
            None => {},
        }
    }
    None
}

/// The message, the data and the next action of the listing.
pub open spec fn listing_v(l: Listing, message: Seq<char>, data: JsonV) -> OutputV {
    success_v(
        message,
        data,
        InternalV {
            next_action: listing_action(entry_views(l.st.pending@)),
            next_command: first_command(entry_views(l.st.pending@)),
            progress: None,
        },
    )
}

/// The message of the listing.
pub open spec fn listing_message(l: Listing) -> Seq<char> {
    dec_text(l.st.pending@.len()) + " pending commits ("@ + listing_action(entry_views(l.st.pending@))
        + ")"@
}

/// The data of the listing.
pub open spec fn listing_data(l: Listing) -> JsonV {
    with_member(empty_object(), "pending"@, JsonV::Arr(rows_v(l)))
}

/// What the listing prints where the address of the agent is not known, and so its balance is not either.
pub open spec fn listed_v(l: Listing) -> OutputV {
    listing_v(l, listing_message(l), listing_data(l))
}

/// What the listing prints, with a warning where the balance calls for one.
pub open spec fn listed_for_v(l: Listing, address: Seq<char>, gas: Result<GasCheck, Fault>) -> OutputV {
    listing_v(
        l,
        warned_message(listing_message(l), address, gas),
        warned_data(listing_data(l), address, gas),
    )
}

fn listing_parts(l: &Listing) -> (r: (String, Json, Internal))
    ensures
        r.0@ == listing_message(*l),
        r.1@ == listing_data(*l),
        r.2@ == (InternalV {
            next_action: listing_action(entry_views(l.st.pending@)),
            next_command: first_command(entry_views(l.st.pending@)),
            progress: None,
        }),
{
    let action = if has_status(&l.st, CommitStatus::Revealed) {
        "inscribe_pending"
    } else if has_status(&l.st, CommitStatus::Committed) {
        "reveal_pending"
    } else {
        "idle"
    };
    let n = dec_usize(l.st.pending.len());
    let message = cat4(n.as_str(), " pending commits (", action, ")");
    let data = Json::object().with("pending", Json::Arr(rows(l)));
    let next = Internal {
        next_action: action.to_owned(),
        next_command: command_first(&l.st),
        progress: None,
    };
    (message, data, next)
}

/// The document that lists the commits.
pub fn listed(l: &Listing) -> (r: Output)
    ensures
        r@ == listed_v(*l),
{
    let (message, data, next) = listing_parts(l);
    Output::success(message, data, next)
}

/// The document that lists the commits of an agent whose balance was checked.
pub fn listed_for(l: &Listing, address: &str, gas: &Result<GasCheck, Fault>) -> (r: Output)
    ensures
        r@ == listed_for_v(*l, address@, *gas),
{
    let (message, data, next) = listing_parts(l);
    let (message, data) = warn(message, data, address, gas);
    Output::success(message, data, next)
}

/// The commits command.
pub enum Commits {
    /// The state is read.
    Load,
    /// The state is written.
    Saved(State, i64),
    /// The token contract that is set is asked for.
    Nft(State, i64),
    /// The draw contract that is set is asked for.
    Draw(State, i64, String),
    /// The deadlines are read.
    Deadlines(State, i64, String, Vec<u64>),
    /// The agent's address is looked for.
    Address(Listing),
    /// The balance is checked.
    Warn(Listing, String),
}

/// What comes next with the state at the time `now`.
pub open spec fn load_next(file: Option<String>, now: i64, r: Step<Commits, Outcome>) -> bool {
    let m = loaded_file(opt_text_view(file));
    if needs_backfill(m) {
        &&& r matches Step::Act(Commits::Saved(st, n), a)
        &&& n == now
        &&& st.wf()
        &&& st@ == backfilled(m)
        &&& a@ == ActionV::Save(json_pretty_text(state_json(backfilled(m))))
    } else {
        &&& r matches Step::Act(Commits::Nft(st, n), a)
        &&& n == now
        &&& st.wf()
        &&& st@ == m
        &&& a@ == ActionV::Env("ARDI_NFT_ADDR"@)
    }
}

/// Goes on with the state.
pub fn with_state(file: &Option<String>, now: i64) -> (r: Step<Commits, Outcome>)
    ensures
        load_next(*file, now, r),
{
    let before = State::load(file);
    let ghost m = before@;
    let (st, any) = backfill(before);
    if any {
        let a = st.save();
        Step::Act(Commits::Saved(st, now), a)
    } else {
        proof {
            assert forall|k: Seq<char>| #[trigger] m.dom().contains(k) implies backfilled(m)[k] == m[k] by {
                assert(!lacks_token(m[k]));
            }
            assert(backfilled(m) =~= m);
        }
        Step::Act(Commits::Nft(st, now), Action::Env("ARDI_NFT_ADDR".to_owned()))
    }
}

/// An address that is set, or else the known one.
pub open spec fn set_or(set: Option<Seq<char>>, known: Seq<char>) -> Seq<char> {
    match set {
        Some(t) => t,
        None => known,
    }
}

/// What comes next with the address of the draw contract.
pub open spec fn draw_next(st: State, now: i64, nft: String, draw: Seq<char>, r: Step<Commits, Outcome>) -> bool {
    match parsed_address(draw) {
        None => {
            &&& r matches Step::Act(Commits::Address(l), a)
            &&& l.st == st
            &&& l.now == now
            &&& l.nft == nft
            &&& l.epochs@ == Seq::<u64>::empty()
            &&& l.replies@ == Seq::<Result<Vec<u8>, Fault>>::empty()
            &&& a@ == ActionV::Address
        },
        Some(to) => {
            &&& r matches Step::Act(Commits::Deadlines(s, n, t, epochs), a)
            &&& s == st
            &&& n == now
            &&& t == nft
            &&& waiting_epochs(epochs@, entry_views(st.pending@))
            &&& a@ == ActionV::Views(epoch_calls(to, epochs@))
        },
    }
}

fn with_draw(st: State, now: i64, nft: String, draw: &str) -> (r: Step<Commits, Outcome>)
    ensures
        draw_next(st, now, nft, draw@, r),
{
    match Address::parse(draw) {
        Err(_) => {
            let l = Listing { st, now, nft, epochs: Vec::new(), replies: Vec::new() };
            Step::Act(Commits::Address(l), Action::Address)
        },
        Ok(to) => {
            let epochs = epochs_waiting(&st);
            let calls = ask_epochs(&to, &epochs);
            Step::Act(Commits::Deadlines(st, now, nft, epochs), Action::Views(calls))
        },
    }
}

/// What comes next in the commits command.
pub open spec fn commits_next(s: Commits, reply: Reply, r: Step<Commits, Outcome>) -> bool {
    match (s, reply) {
        (Commits::Load, Reply::File(Ok(file))) => exists|now: i64| #[trigger] load_next(file, now, r),
        (Commits::Load, Reply::File(Err(f))) => fails(r, f@),
        (Commits::Saved(st, now), Reply::Done(Ok(_))) => {
            &&& r matches Step::Act(Commits::Nft(x, n), a)
            &&& x == st
            &&& n == now
            &&& a@ == ActionV::Env("ARDI_NFT_ADDR"@)
        },
        (Commits::Saved(_, _), Reply::Done(Err(f))) => fails(r, f@),
        (Commits::Nft(st, now), Reply::Maybe(set)) => {
            &&& r matches Step::Act(Commits::Draw(x, n, t), a)
            &&& x == st
            &&& n == now
            &&& t@ == set_or(opt_text_view(set), "0xf68425D0d451699d0d766150634E436Acd2F05A1"@)
            &&& a@ == ActionV::Env("ARDI_EPOCH_DRAW_ADDR"@)
        },
        (Commits::Draw(st, now, nft), Reply::Maybe(set)) => draw_next(
            st,
            now,
            nft,
            set_or(opt_text_view(set), "0xA57d8E6646E063FFd6eae579d4f327b689dA5DC3"@),
            r,
        ),
        (Commits::Deadlines(st, now, nft, epochs), Reply::ManyBytes(replies)) => {
            &&& r matches Step::Act(Commits::Address(l), a)
            &&& l == (Listing { st, now, nft, epochs, replies })
            &&& a@ == ActionV::Address
        },
        (Commits::Address(l), Reply::Text(Ok(t))) => {
            &&& r matches Step::Act(Commits::Warn(m, u), a)
            &&& m == l
            &&& u == t
            &&& a@ == ActionV::Balance(t@)
        },
        (Commits::Address(l), Reply::Text(Err(_))) => prints(r, listed_v(l)),
        (Commits::Warn(l, t), Reply::Gas(g)) => prints(r, listed_for_v(l, t@, g)),
        _ => fails(r, stray_v()),
    }
}

/// Starts the commits command.
pub fn run() -> (r: Step<Commits, Outcome>)
    ensures
        r matches Step::Act(Commits::Load, a) && a@ == ActionV::Load,
{
    Step::Act(Commits::Load, Action::Load)
}

impl Commits {
    /// Goes on with the reply.
    pub fn step(self, reply: Reply) -> (r: Step<Commits, Outcome>)
        ensures
            commits_next(self, reply, r),
    {
        match (self, reply) {
            (Commits::Load, Reply::File(Ok(file))) => {
                let now = unix_now();
                let r = with_state(&file, now);
                assert(load_next(file, now, r));
                r
            },
            (Commits::Load, Reply::File(Err(f))) => fail(f),
            (Commits::Saved(st, now), Reply::Done(Ok(_))) => Step::Act(
                Commits::Nft(st, now),
                Action::Env("ARDI_NFT_ADDR".to_owned()),
            ),
            (Commits::Saved(_, _), Reply::Done(Err(f))) => fail(f),
            (Commits::Nft(st, now), Reply::Maybe(set)) => {
                let t = match set {
                    Some(t) => t,
                    None => "0xf68425D0d451699d0d766150634E436Acd2F05A1".to_owned(),
                };
                Step::Act(Commits::Draw(st, now, t), Action::Env("ARDI_EPOCH_DRAW_ADDR".to_owned()))
            },
            (Commits::Draw(st, now, nft), Reply::Maybe(set)) => {
                let t = match set {
                    Some(t) => t,
                    None => "0xA57d8E6646E063FFd6eae579d4f327b689dA5DC3".to_owned(),
                };
                with_draw(st, now, nft, t.as_str())
            },
            (Commits::Deadlines(st, now, nft, epochs), Reply::ManyBytes(replies)) => Step::Act(
                Commits::Address(Listing { st, now, nft, epochs, replies }),
                Action::Address,
            ),
            (Commits::Address(l), Reply::Text(Ok(t))) => {
                let a = Action::Balance(t.clone());
                Step::Act(Commits::Warn(l, t), a)
            },
            (Commits::Address(l), Reply::Text(Err(_))) => print(listed(&l)),
            (Commits::Warn(l, t), Reply::Gas(g)) => print(listed_for(&l, t.as_str(), &g)),
            _ => fail(stray()),
        }
    }
}

/// Filling in the numbers of tokens a second time changes nothing.
pub proof fn law_backfill_once(m: Map<Seq<char>, PendingCommitV>)
    ensures
        !needs_backfill(backfilled(m)),
        backfilled(backfilled(m)) == backfilled(m),
{
    let b = backfilled(m);
    assert forall|k: Seq<char>| #[trigger] b.dom().contains(k) implies !lacks_token(b[k]) by {
        assert(b[k] == filled(m[k]));
    }
    assert(backfilled(b) =~= b);
}

/// The row of a commit tells its parts under their own names, how old it is, and what to do next.
pub proof fn law_row_members(c: PendingCommitV, now: i64, nft: Seq<char>, deadline: Option<nat>)
    ensures
        member(row_v(c, now, nft, deadline), "epoch_id"@) == Some(num_v(c.epoch_id as int)),
        member(row_v(c, now, nft, deadline), "word_id"@) == Some(num_v(c.word_id as int)),
        member(row_v(c, now, nft, deadline), "status"@) == Some(JsonV::Str(status_text(c.status))),
        member(row_v(c, now, nft, deadline), "answer"@) == Some(JsonV::Str(c.answer)),
        member(row_v(c, now, nft, deadline), "committed_at"@) == Some(num_v(c.committed_at as int)),
        member(row_v(c, now, nft, deadline), "age_seconds"@) == Some(num_v(now - c.committed_at)),
        member(row_v(c, now, nft, deadline), "commit_tx"@) == Some(JsonV::Str(c.commit_tx)),
        member(row_v(c, now, nft, deadline), "commit_tx_url"@) == Some(JsonV::Str("https://basescan.org"@ + "/tx/"@ + c.commit_tx)),
        member(row_v(c, now, nft, deadline), "reveal_tx"@) == Some(match c.reveal_tx { Some(t) => JsonV::Str(t), None => JsonV::Null }),
        member(row_v(c, now, nft, deadline), "inscribe_tx"@) == Some(match c.inscribe_tx { Some(t) => JsonV::Str(t), None => JsonV::Null }),
        member(row_v(c, now, nft, deadline), "token_id"@) == Some(match c.token_id { Some(n) => num_v(n as int), None => JsonV::Null }),
        member(row_v(c, now, nft, deadline), "token_url"@) == Some(match c.token_id { Some(n) => JsonV::Str("https://basescan.org"@ + "/token/"@ + nft + "/"@ + dec_text(n as nat)), None => JsonV::Null }),
        member(row_v(c, now, nft, deadline), "next_command"@) == Some(match suggestion(c) { Some(t) => JsonV::Str(t), None => JsonV::Null }),
        (c.status == CommitStatus::Committed && deadline is Some) ==> member(row_v(c, now, nft, deadline), "next_reveal_eligible_at"@) == Some(num_v(deadline->0 as int + 30)) && member(row_v(c, now, nft, deadline), "next_reveal_in_seconds"@) == Some(num_v(reveal_wait(deadline->0, now))),
{
    reveal_strlit("epoch_id");
    reveal_strlit("word_id");
    reveal_strlit("status");
    reveal_strlit("answer");
    reveal_strlit("committed_at");
    reveal_strlit("age_seconds");
    reveal_strlit("commit_tx");
    reveal_strlit("commit_tx_url");
    reveal_strlit("reveal_tx");
    reveal_strlit("inscribe_tx");
    reveal_strlit("token_id");
    reveal_strlit("token_url");
    reveal_strlit("next_command");
    reveal_strlit("reveal_tx_url");
    reveal_strlit("inscribe_tx_url");
    reveal_strlit("next_reveal_eligible_at");
    reveal_strlit("next_reveal_in_seconds");
    assert("epoch_id"@.len() == 8 && "epoch_id"@[0] == 'e');
    assert("token_id"@.len() == 8 && "token_id"@[0] == 't');
    assert("word_id"@.len() == 7);
    assert("status"@.len() == 6 && "status"@[0] == 's');
    assert("answer"@.len() == 6 && "answer"@[0] == 'a');
    assert("committed_at"@.len() == 12 && "committed_at"@[0] == 'c');
    assert("next_command"@.len() == 12 && "next_command"@[0] == 'n');
    assert("age_seconds"@.len() == 11 && "age_seconds"@[0] == 'a');
    assert("inscribe_tx"@.len() == 11 && "inscribe_tx"@[0] == 'i');
    assert("commit_tx"@.len() == 9 && "commit_tx"@[0] == 'c');
    assert("reveal_tx"@.len() == 9 && "reveal_tx"@[0] == 'r');
    assert("token_url"@.len() == 9 && "token_url"@[0] == 't');
    assert("commit_tx_url"@.len() == 13 && "commit_tx_url"@[0] == 'c');
    assert("reveal_tx_url"@.len() == 13 && "reveal_tx_url"@[0] == 'r');
    assert("inscribe_tx_url"@.len() == 15);
    assert("next_reveal_eligible_at"@.len() == 23);
    assert("next_reveal_in_seconds"@.len() == 22);
}

/// The draw is asked for each epoch by its number.
pub proof fn law_epochs_are_asked_for(draw: Seq<u8>, epochs: Seq<u64>, k: int)
    requires
        0 <= k < epochs.len(),
    ensures
        epoch_calls(draw, epochs).len() == epochs.len(),
        epoch_calls(draw, epochs)[k].0 == draw,
        epoch_calls(draw, epochs)[k].1.take(4) == selector_of("epochs(uint256)"@),
        be_number(arg_at(epoch_calls(draw, epochs)[k].1, 0)) == epochs[k],
{
    lemma_word_lengths();
        let args = seq![be_word(epochs[k] as nat)];
        lemma_static_args("epochs(uint256)"@, args);
        assert(arg_at(static_call("epochs(uint256)"@, args), 0) == be_word(epochs[k] as nat));
}

/// The deadline of an epoch is the second word of the reply.
pub proof fn law_deadline_is_the_second_word(raw: Vec<u8>)
    requires
        raw@.len() >= 64,
        forall|i: int| 32 <= i < 56 ==> raw@[i] == 0,
    ensures
        reply_deadline(Ok(raw)) == Some(be_number(raw@.subrange(32, 64))),
{
    let w = raw@.subrange(32, 64);
    assert forall|i: int| 0 <= i < 24 implies w[i] == 0 by {
        assert(raw@[32 + i] == 0);
    }
    lemma_be_leading_zeros(w, 24);
    assert(w.skip(24) =~= raw@.subrange(56, 64));
}

/// The deadline of an epoch comes from the reply to the question for that epoch.
pub proof fn law_deadline_is_of_the_epoch(epochs: Seq<u64>, replies: Seq<Result<Vec<u8>, Fault>>, k: int)
    requires
        0 <= k < epochs.len() <= replies.len(),
        forall|i: int, j: int| 0 <= i < j < epochs.len() ==> epochs[i] < epochs[j],
    ensures
        deadline_of(epochs, replies, epochs[k]) == reply_deadline(replies[k]),
    decreases epochs.len(),
{
    let last = epochs.len() - 1;
    if k < last {
        assert(epochs[k] < epochs[last]);
        law_deadline_is_of_the_epoch(epochs.drop_last(), replies, k);
        assert(epochs.drop_last()[k] == epochs[k]);
    }
}

/// A commit can be revealed half a minute after the deadline: until then the seconds that are left are told, and none
/// from then on.
pub proof fn law_reveal_wait(deadline: nat, now: i64)
    requires
        deadline + 30 < 0x8000_0000_0000_0000,
    ensures
        now < deadline + 30 ==> now + reveal_wait(deadline, now) == deadline + 30,
        now >= deadline + 30 ==> reveal_wait(deadline, now) == 0,
{
}

/// What to do next with a commit: a commit that was made is revealed, one that was revealed or won is inscribed, each by
/// its epoch and its word; with any other there is nothing to do.
pub proof fn law_suggestion_follows_the_status(c: PendingCommitV)
    ensures
        c.status == CommitStatus::Committed ==> suggestion(c) == Some(
            "ardi-agent reveal --epoch "@ + dec_text(c.epoch_id as nat) + " --word-id "@ + dec_text(c.word_id as nat)
                + " (after commit_deadline + publish)"@,
        ),
        c.status == CommitStatus::Revealed || c.status == CommitStatus::Won ==> suggestion(c) == Some(
            "ardi-agent inscribe --epoch "@ + dec_text(c.epoch_id as nat) + " --word-id "@ + dec_text(c.word_id as nat),
        ),
        c.status == CommitStatus::Lost || c.status == CommitStatus::Inscribed || c.status == CommitStatus::Failed
            ==> suggestion(c) is None,
{
}

/// The command that comes next is the suggestion of the first commit that has one.
pub proof fn law_first_suggestion_comes_next(entries: Seq<PendingCommitV>, k: int)
    requires
        0 <= k < entries.len(),
        suggestion(entries[k]) is Some,
        forall|j: int| 0 <= j < k ==> suggestion(#[trigger] entries[j]) is None,
    ensures
        first_command(entries) == suggestion(entries[k]),
    decreases entries.len(),
{
    if k > 0 {
        assert(suggestion(entries[0]) is None);
        let rest = entries.skip(1);
        assert forall|j: int| 0 <= j < k - 1 implies suggestion(#[trigger] rest[j]) is None by {
            assert(rest[j] == entries[j + 1]);
        }
        assert(rest[k - 1] == entries[k]);
        law_first_suggestion_comes_next(rest, k - 1);
    }
}

/// The token of a word has the number one above the word's; it is filled in only for a commit that won and has none,
/// and nothing else of a commit changes.
pub proof fn law_backfill_numbers_the_token(c: PendingCommitV)
    ensures
        filled(c) == (PendingCommitV { token_id: filled(c).token_id, ..c }),
        c.token_id is Some ==> filled(c).token_id == c.token_id,
        (c.status == CommitStatus::Inscribed || c.status == CommitStatus::Won) && c.token_id is None && c.word_id
            < u64::MAX ==> filled(c).token_id == Some((c.word_id + 1) as u64),
        c.status != CommitStatus::Inscribed && c.status != CommitStatus::Won ==> filled(c) == c,
{
}

/// The deadlines that are read are those of the epochs of the commits that wait to be revealed, each asked for once.
pub proof fn law_deadlines_of_waiting_commits(st: State, now: i64, nft: String, draw: Seq<char>, r: Step<Commits, Outcome>, i: int)
    requires
        draw_next(st, now, nft, draw, r),
        0 <= i < st.pending@.len(),
    ensures
        r matches Step::Act(Commits::Deadlines(_, _, _, epochs), a) ==> ({
            &&& st.pending@[i].1@.status == CommitStatus::Committed ==> epochs@.contains(st.pending@[i].1@.epoch_id)
            &&& a@ matches ActionV::Views(v)
            &&& v.len() == epochs@.len()
            &&& parsed_address(draw) matches Some(to) && forall|k: int|
                0 <= k < v.len() ==> (#[trigger] v[k]).0 == to && be_number(arg_at(v[k].1, 0)) == epochs@[k]
        }),
{
    if let (Step::Act(Commits::Deadlines(_, _, _, epochs), _), Some(to)) = (r, parsed_address(draw)) {
        let entries = entry_views(st.pending@);
        assert(entries[i] == st.pending@[i].1@);
        let v = epoch_calls(to, epochs@);
        assert forall|k: int| 0 <= k < v.len() implies (#[trigger] v[k]).0 == to && be_number(arg_at(v[k].1, 0))
            == epochs@[k] by {
            law_epochs_are_asked_for(to, epochs@, k);
        }
    }
}

/// Every commit of the state has its row, in the order of the state.
pub proof fn law_every_commit_has_a_row(l: Listing, i: int)
    requires
        0 <= i < l.st.pending@.len(),
    ensures
        rows_v(l).len() == l.st.pending@.len(),
        rows_v(l)[i] == row_v(
            l.st.pending@[i].1@,
            l.now,
            l.nft@,
            deadline_of(l.epochs@, l.replies@, l.st.pending@[i].1@.epoch_id),
        ),
{
}

/// A reveal that can be inscribed comes before a commit that waits to be revealed.
pub proof fn law_listing_action(entries: Seq<PendingCommitV>, i: int)
    requires
        0 <= i < entries.len(),
    ensures
        entries[i].status == CommitStatus::Revealed ==> listing_action(entries) == "inscribe_pending"@,
        entries[i].status == CommitStatus::Committed && (forall|j: int|
            0 <= j < entries.len() ==> (#[trigger] entries[j]).status != CommitStatus::Revealed) ==> listing_action(entries)
            == "reveal_pending"@,
{
}

/// The contracts that a listing names and asks are those that are set, and the known ones where none are.
pub proof fn law_listing_settings(s: Commits, reply: Reply, r: Step<Commits, Outcome>)
    requires
        commits_next(s, reply, r),
    ensures
        r matches Step::Act(Commits::Nft(_, _), a) ==> a@ == ActionV::Env("ARDI_NFT_ADDR"@),
        r matches Step::Act(Commits::Draw(st, now, t), a) ==> s == Commits::Nft(st, now) && a@ == ActionV::Env(
            "ARDI_EPOCH_DRAW_ADDR"@,
        ) && (reply matches Reply::Maybe(set) && (set matches Some(x) ==> t@ == x@) && (set is None ==> t@
            == "0xf68425D0d451699d0d766150634E436Acd2F05A1"@)),
        s matches Commits::Draw(st, now, nft) ==> (reply matches Reply::Maybe(Some(x)) ==> (parsed_address(x@) matches Some(to)
            ==> (r matches Step::Act(Commits::Deadlines(_, _, _, epochs), a) && a@ == ActionV::Views(
            epoch_calls(to, epochs@),
        )))),
        s matches Commits::Deadlines(st, now, nft, epochs) ==> (reply matches Reply::ManyBytes(replies) ==> (
        r matches Step::Act(Commits::Address(l), _) && l.st == st && l.now == now && l.nft == nft && l.epochs == epochs
            && l.replies == replies)),
{
}

/// A number of sixty-four bits that is read as signed is in range, and is the same number but for a multiple of two to that power.
pub proof fn law_signed_is_the_same_bits(n: u64)
    ensures
        i64::MIN <= signed_v(n as int) <= i64::MAX,
        signed_v(n as int) == n || signed_v(n as int) + 0x1_0000_0000_0000_0000 == n,
{
}

/// The listing comes first, and what is said of the balance behind it.
pub proof fn law_listing_comes_before_the_warning(l: Listing, address: Seq<char>, gas: Result<GasCheck, Fault>)
    ensures
        has_prefix(listed_for_v(l, address, gas).message, listing_message(l)),
{
    law_warning_stands_behind_the_message(listing_message(l), address, gas);
}

} // verus!
