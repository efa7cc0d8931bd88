//! The commits that an agent has made and has yet to reveal or inscribe. A commit on the chain only
//! carries a hash; the answer and the salt are kept here, and the state is stored as a JSON file.
use vstd::prelude::*;
use vstd::utf8::is_ascii_chars;

use crate::flow::{Action, ActionV};
use crate::json::{
    empty_object, json_parsed, json_pretty_text, json_v, lemma_obj_push, member, num_v, obj_v, opt_str_v, record,
    scalar, table, tables, tables_parsed, with_member, Json, JsonV,
};
use crate::num::{
    dec, dec_text, int_text, law_dec_injective, law_dec_round_trip, law_int_round_trip, lemma_dec_text,
};
use crate::schema::{
    check_form, find, find_int, find_nullable_text, find_nullable_uint, find_text, find_uint, first,
    form_defect, int_slot, may, need, nullable_text_slot, nullable_uint_slot, opt_text_view, or_default,
    required, slot, text_slot, uint_slot, Defect, DefectV, Shape,
};
use crate::text::{
    ascii_lowered, cat3, lemma_lex_irreflexive, lemma_lex_total, lemma_lex_transitive, lex_before, lowercase,
    lowercase_text, text_before, text_eq,
};

verus! {

/// How far a commit has come.
#[derive(Clone, Copy, Debug, PartialEq, Eq, Structural)]
pub enum CommitStatus {
    Committed,
    Revealed,
    /// The draw picked this agent; the token can be inscribed.
    Won,
    /// The draw picked someone else.
    Lost,
    /// The token is minted.
    Inscribed,
    /// Something went wrong.
    Failed,
}

/// The name of a status in the file.
pub open spec fn status_text(s: CommitStatus) -> Seq<char> {
    match s {
        CommitStatus::Committed => "committed"@,
        CommitStatus::Revealed => "revealed"@,
        CommitStatus::Won => "won"@,
        CommitStatus::Lost => "lost"@,
        CommitStatus::Inscribed => "inscribed"@,
        CommitStatus::Failed => "failed"@,
    }
}

/// The name of a status with a capital letter.
pub open spec fn status_title(s: CommitStatus) -> Seq<char> {
    match s {
        CommitStatus::Committed => "Committed"@,
        CommitStatus::Revealed => "Revealed"@,
        CommitStatus::Won => "Won"@,
        CommitStatus::Lost => "Lost"@,
        CommitStatus::Inscribed => "Inscribed"@,
        CommitStatus::Failed => "Failed"@,
    }
}

impl CommitStatus {
    /// The name in the file.
    pub fn text(&self) -> (r: &'static str)
        ensures
            r@ == status_text(*self),
    {
        match self {
            CommitStatus::Committed => "committed",
            CommitStatus::Revealed => "revealed",
            CommitStatus::Won => "won",
            CommitStatus::Lost => "lost",
            CommitStatus::Inscribed => "inscribed",
            CommitStatus::Failed => "failed",
        }
    }

    /// The name with a capital letter.
    pub fn title(&self) -> (r: &'static str)
        ensures
            r@ == status_title(*self),
    {
        match self {
            CommitStatus::Committed => "Committed",
            CommitStatus::Revealed => "Revealed",
            CommitStatus::Won => "Won",
            CommitStatus::Lost => "Lost",
            CommitStatus::Inscribed => "Inscribed",
            CommitStatus::Failed => "Failed",
        }
    }
}

/// One commit.
pub struct PendingCommit {
    pub epoch_id: u64,
    pub word_id: u64,
    pub answer: String,
    /// The salt, `0x` and 64 hexadecimal digits.
    pub salt_hex: String,
    /// The agent, `0x` and 40 lower-case digits.
    pub agent: String,
    /// The hash of the commit transaction.
    pub commit_tx: String,
    /// The hash that was committed, `0x` and 64 hexadecimal digits.
    pub commit_hash: String,
    /// When the commit was made, in Unix seconds.
    pub committed_at: i64,
    pub language: String,
    pub power: u16,
    pub language_id: u8,
    pub status: CommitStatus,
    pub reveal_tx: Option<String>,
    pub inscribe_tx: Option<String>,
    pub token_id: Option<u64>,
}

/// What a commit says.
pub struct PendingCommitV {
    pub epoch_id: u64,
    pub word_id: u64,
    pub answer: Seq<char>,
    pub salt_hex: Seq<char>,
    pub agent: Seq<char>,
    pub commit_tx: Seq<char>,
    pub commit_hash: Seq<char>,
    pub committed_at: i64,
    pub language: Seq<char>,
    pub power: u16,
    pub language_id: u8,
    pub status: CommitStatus,
    pub reveal_tx: Option<Seq<char>>,
    pub inscribe_tx: Option<Seq<char>>,
    pub token_id: Option<u64>,
}

impl View for PendingCommit {
    type V = PendingCommitV;

    open spec fn view(&self) -> PendingCommitV {
        PendingCommitV {
            epoch_id: self.epoch_id,
            word_id: self.word_id,
            answer: self.answer@,
            salt_hex: self.salt_hex@,
            agent: self.agent@,
            commit_tx: self.commit_tx@,
            commit_hash: self.commit_hash@,
            committed_at: self.committed_at,
            language: self.language@,
            power: self.power,
            language_id: self.language_id,
            status: self.status,
            reveal_tx: opt_text_view(self.reveal_tx),
            inscribe_tx: opt_text_view(self.inscribe_tx),
            token_id: self.token_id,
        }
    }
}

/// A copy of an optional text.
pub fn copy_opt(t: &Option<String>) -> (r: Option<String>)
    ensures
        opt_text_view(r) == opt_text_view(*t),
{
    match t {
        Some(t) => Some(t.clone()),
        None => None,
    }
}

impl PendingCommit {
    /// A copy.
    pub fn copy(&self) -> (r: PendingCommit)
        ensures
            r@ == self@,
    {
        PendingCommit {
            epoch_id: self.epoch_id,
            word_id: self.word_id,
            answer: self.answer.clone(),
            salt_hex: self.salt_hex.clone(),
            agent: self.agent.clone(),
            commit_tx: self.commit_tx.clone(),
            commit_hash: self.commit_hash.clone(),
            committed_at: self.committed_at,
            language: self.language.clone(),
            power: self.power,
            language_id: self.language_id,
            status: self.status,
            reveal_tx: copy_opt(&self.reveal_tx),
            inscribe_tx: copy_opt(&self.inscribe_tx),
            token_id: self.token_id,
        }
    }
}

/// The commits by their keys, in the order of the keys.
pub struct State {
    pub pending: Vec<(String, PendingCommit)>,
}

/// The key of a commit: the epoch, a colon and the word.
pub open spec fn key_text(epoch_id: u64, word_id: u64) -> Seq<char> {
    dec_text(epoch_id as nat) + ":"@ + dec_text(word_id as nat)
}

/// The commits of a list by their keys.
pub open spec fn entries_map(s: Seq<(String, PendingCommit)>) -> Map<Seq<char>, PendingCommitV>
    decreases s.len(),
{
    if s.len() == 0 {
        Map::empty()
    } else {
        entries_map(s.drop_last()).insert(s.last().0@, s.last().1@)
    }
}

/// Whether the keys stand in strictly ascending order.
pub open spec fn keys_ascend(s: Seq<(String, PendingCommit)>) -> bool {
    forall|i: int, j: int| 0 <= i < j < s.len() ==> lex_before(#[trigger] s[i].0@, #[trigger] s[j].0@)
}

impl View for State {
    type V = Map<Seq<char>, PendingCommitV>;

    open spec fn view(&self) -> Map<Seq<char>, PendingCommitV> {
        entries_map(self.pending@)
    }
}

/// Ascending keys are different keys.
proof fn lemma_keys_differ(s: Seq<(String, PendingCommit)>, i: int, j: int)
    requires
        keys_ascend(s),
        0 <= i < s.len(),
        0 <= j < s.len(),
        i != j,
    ensures
        s[i].0@ != s[j].0@,
{
    lemma_lex_irreflexive(s[i].0@);
    if i < j {
        assert(lex_before(s[i].0@, s[j].0@));
    } else {
        assert(lex_before(s[j].0@, s[i].0@));
    }
}

/// The map of a list with ascending keys holds each entry under its key, and no other key.
pub proof fn lemma_entries(s: Seq<(String, PendingCommit)>)
    requires
        keys_ascend(s),
    ensures
        forall|i: int|
            0 <= i < s.len() ==> entries_map(s).dom().contains(#[trigger] s[i].0@) && entries_map(
                s,
            )[s[i].0@] == s[i].1@,
        forall|k: Seq<char>| #[trigger]
            entries_map(s).dom().contains(k) ==> exists|i: int| 0 <= i < s.len() && #[trigger] s[i].0@ == k,
    decreases s.len(),
{
    if s.len() > 0 {
        let front = s.drop_last();
        assert(keys_ascend(front)) by {
            assert forall|i: int, j: int| 0 <= i < j < front.len() implies lex_before(
                #[trigger] front[i].0@,
                #[trigger] front[j].0@,
            ) by {
                assert(front[i] == s[i] && front[j] == s[j]);
            }
        }
        lemma_entries(front);
        assert forall|i: int| 0 <= i < s.len() implies entries_map(s).dom().contains(
            #[trigger] s[i].0@,
        ) && entries_map(s)[s[i].0@] == s[i].1@ by {
            if i < s.len() - 1 {
                assert(front[i] == s[i]);
                lemma_keys_differ(s, i, s.len() - 1);
            }
        }
        assert forall|k: Seq<char>| #[trigger] entries_map(s).dom().contains(k) implies exists|i: int|
            0 <= i < s.len() && #[trigger] s[i].0@ == k by {
            if k != s.last().0@ {
                assert(entries_map(front).dom().contains(k));
                let i = choose|i: int| 0 <= i < front.len() && #[trigger] front[i].0@ == k;
                assert(s[i].0@ == k);
            } else {
                assert(s[s.len() - 1].0@ == k);
            }
        }
    }
}

/// Changing the entry of a key changes what the map holds under that key, and nothing else.
proof fn lemma_update(s: Seq<(String, PendingCommit)>, i: int, p: (String, PendingCommit))
    requires
        keys_ascend(s),
        0 <= i < s.len(),
        p.0@ == s[i].0@,
    ensures
        keys_ascend(s.update(i, p)),
        entries_map(s.update(i, p)) == entries_map(s).insert(p.0@, p.1@),
{
    let t = s.update(i, p);
    assert forall|a: int, b: int| 0 <= a < b < t.len() implies lex_before(
        #[trigger] t[a].0@,
        #[trigger] t[b].0@,
    ) by {
        assert(lex_before(s[a].0@, s[b].0@));
    }
    lemma_entries(s);
    lemma_entries(t);
    assert forall|q: Seq<char>| entries_map(t).dom().contains(q) == entries_map(s).dom().contains(q) by {
        if entries_map(t).dom().contains(q) {
            let j = choose|j: int| 0 <= j < t.len() && #[trigger] t[j].0@ == q;
            assert(s[j].0@ == q);
        }
        if entries_map(s).dom().contains(q) {
            let j = choose|j: int| 0 <= j < s.len() && #[trigger] s[j].0@ == q;
            assert(t[j].0@ == q);
        }
    }
    assert(entries_map(s).dom().contains(s[i].0@));
    assert forall|q: Seq<char>| entries_map(t).dom().contains(q) implies entries_map(t)[q]
        == entries_map(s).insert(p.0@, p.1@)[q] by {
        let j = choose|j: int| 0 <= j < t.len() && #[trigger] t[j].0@ == q;
        if j != i {
            lemma_keys_differ(t, i, j);
            assert(s[j] == t[j]);
        }
        assert(t[i].0@ == p.0@);
    }
    assert(entries_map(t) =~= entries_map(s).insert(p.0@, p.1@));
}

impl State {
    /// Whether the keys are in order.
    pub open spec fn wf(&self) -> bool {
        keys_ascend(self.pending@)
    }

    /// No commits.
    pub fn new() -> (r: State)
        ensures
            r.wf(),
            r@ == Map::<Seq<char>, PendingCommitV>::empty(),
    {
        State { pending: Vec::new() }
    }

    /// The key of a commit.
    pub fn key(epoch_id: u64, word_id: u64) -> (r: String)
        ensures
            r@ == key_text(epoch_id, word_id),
    {
        let e = dec(epoch_id);
        let w = dec(word_id);
        cat3(e.as_str(), ":", w.as_str())
    }

    /// The first position whose key is not before `key`.
    fn place(&self, key: &str) -> (r: usize)
        requires
            self.wf(),
        ensures
            r <= self.pending@.len(),
            forall|i: int| 0 <= i < r ==> lex_before(#[trigger] self.pending@[i].0@, key@),
            forall|i: int| r <= i < self.pending@.len() ==> !lex_before(#[trigger] self.pending@[i].0@, key@),
    {
        let mut i: usize = 0;
        while i < self.pending.len() && text_before(self.pending[i].0.as_str(), key)
            invariant
                i <= self.pending@.len(),
                forall|j: int| 0 <= j < i ==> lex_before(#[trigger] self.pending@[j].0@, key@),
            decreases self.pending@.len() - i,
        {
            i += 1;
        }
        proof {
            assert forall|j: int| i <= j < self.pending@.len() implies !lex_before(
                #[trigger] self.pending@[j].0@,
                key@,
            ) by {
                if j > i && lex_before(self.pending@[j].0@, key@) {
                    assert(lex_before(self.pending@[i as int].0@, self.pending@[j].0@));
                    lemma_lex_transitive(self.pending@[i as int].0@, self.pending@[j].0@, key@);
                }
            }
        }
        i
    }

    /// The position of `key`, if it is there.
    fn find(&self, key: &str) -> (r: Option<usize>)
        requires
            self.wf(),
        ensures
            match r {
                Some(i) => i < self.pending@.len() && self.pending@[i as int].0@ == key@
                    && self@.dom().contains(key@) && self@[key@] == self.pending@[i as int].1@,
                None => !self@.dom().contains(key@),
            },
    {
        let i = self.place(key);
        proof {
            lemma_entries(self.pending@);
            if self@.dom().contains(key@) {
                let j = choose|j: int| 0 <= j < self.pending@.len() && #[trigger] self.pending@[j].0@ == key@;
                lemma_lex_irreflexive(key@);
                assert(j >= i);
                if j > i {
                    assert(lex_before(self.pending@[i as int].0@, self.pending@[j].0@));
                }
            }
        }
        if i < self.pending.len() && text_eq(self.pending[i].0.as_str(), key) {
            Some(i)
        } else {
            None
        }
    }

    /// Keeps `c` under `key`, in place of what was there.
    fn put_at(&mut self, key: String, c: PendingCommit)
        requires
            old(self).wf(),
        ensures
            final(self).wf(),
            final(self)@ == old(self)@.insert(key@, c@),
    {
        let i = self.place(key.as_str());
        let ghost before = self.pending@;
        let ghost k = key@;
        let ghost v = c@;
        if i < self.pending.len() && text_eq(self.pending[i].0.as_str(), key.as_str()) {
            self.pending.set(i, (key, c));
        } else {
            self.pending.insert(i, (key, c));
        }
        proof {
            let after = self.pending@;
            lemma_entries(before);
            assert forall|a: int, b: int| 0 <= a < b < after.len() implies lex_before(
                #[trigger] after[a].0@,
                #[trigger] after[b].0@,
            ) by {
                if after.len() == before.len() {
                    assert(after =~= before.update(i as int, after[i as int]));
                    assert(lex_before(before[a].0@, before[b].0@));
                } else {
                    let x = after[i as int];
                    assert(after =~= before.insert(i as int, x));
                    if b < i {
                        assert(lex_before(before[a].0@, before[b].0@));
                    } else if b == i {
                        assert(lex_before(before[a].0@, k));
                    } else if a < i {
                        assert(lex_before(before[a].0@, before[b - 1].0@));
                    } else if a == i {
                        lemma_lex_total(k, before[b - 1].0@);
                        if before[b - 1].0@ == k {
                            lemma_lex_irreflexive(k);
                            if b - 1 > i {
                                assert(lex_before(before[i as int].0@, before[b - 1].0@));
                            }
                        }
                    } else {
                        assert(lex_before(before[a - 1].0@, before[b - 1].0@));
                    }
                }
            }
            lemma_entries(after);
            assert forall|q: Seq<char>| entries_map(after).dom().contains(q) == entries_map(before).insert(
                k,
                v,
            ).dom().contains(q) by {
                if entries_map(after).dom().contains(q) {
                    let j = choose|j: int| 0 <= j < after.len() && #[trigger] after[j].0@ == q;
                    if j != i {
                        if after.len() == before.len() {
                            assert(before[j].0@ == q);
                        } else if j < i {
                            assert(before[j].0@ == q);
                        } else {
                            assert(before[j - 1].0@ == q);
                        }
                    }
                }
                if entries_map(before).dom().contains(q) {
                    let j = choose|j: int| 0 <= j < before.len() && #[trigger] before[j].0@ == q;
                    if after.len() == before.len() {
                        assert(after[j].0@ == q);
                    } else if j < i {
                        assert(after[j].0@ == q);
                    } else {
                        assert(after[j + 1].0@ == q);
                    }
                }
                assert(after[i as int].0@ == k);
            }
            assert forall|q: Seq<char>| entries_map(after).dom().contains(q) implies entries_map(after)[q]
                == entries_map(before).insert(k, v)[q] by {
                let j = choose|j: int| 0 <= j < after.len() && #[trigger] after[j].0@ == q;
                assert(after[i as int].0@ == k);
                if j != i {
                    lemma_keys_differ(after, i as int, j);
                    if after.len() == before.len() {
                        assert(before[j] == after[j]);
                    } else if j < i {
                        assert(before[j] == after[j]);
                    } else {
                        assert(before[j - 1] == after[j]);
                    }
                }
            }
            assert(entries_map(after) =~= entries_map(before).insert(k, v));
        }
    }

    /// Keeps a commit under its key, in place of what was there.
    pub fn put(&mut self, c: PendingCommit)
        requires
            old(self).wf(),
        ensures
            final(self).wf(),
            final(self)@ == old(self)@.insert(key_text(c.epoch_id, c.word_id), c@),
    {
        let k = State::key(c.epoch_id, c.word_id);
        self.put_at(k, c);
    }

    /// The commit of an epoch and a word.
    pub fn get(&self, epoch_id: u64, word_id: u64) -> (r: Option<&PendingCommit>)
        requires
            self.wf(),
        ensures
            match r {
                Some(c) => self@.dom().contains(key_text(epoch_id, word_id)) && c@ == self@[key_text(
                    epoch_id,
                    word_id,
                )],
                None => !self@.dom().contains(key_text(epoch_id, word_id)),
            },
    {
        let k = State::key(epoch_id, word_id);
        match self.find(k.as_str()) {
            Some(i) => Some(&self.pending[i].1),
            None => None,
        }
    }

    /// The commit of an epoch and a word, to be changed. The key stays.
    pub fn get_mut(&mut self, epoch_id: u64, word_id: u64) -> (r: Option<&mut PendingCommit>)
        requires
            old(self).wf(),
        ensures
            final(self).wf(),
            match r {
                Some(c) => old(self)@.dom().contains(key_text(epoch_id, word_id)) && (*c)@ == old(self)@[key_text(
                    epoch_id,
                    word_id,
                )] && final(self)@ == old(self)@.insert(key_text(epoch_id, word_id), (*final(c))@),
                None => !old(self)@.dom().contains(key_text(epoch_id, word_id)) && final(self)@ == old(self)@,
            },
    {
        let k = State::key(epoch_id, word_id);
        match self.find(k.as_str()) {
            Some(i) => {
                let ghost s = self.pending@;
                proof {
                    assert forall|p: (String, PendingCommit)| p.0@ == s[i as int].0@ implies keys_ascend(
                        #[trigger] s.update(i as int, p),
                    ) && entries_map(s.update(i as int, p)) == entries_map(s).insert(p.0@, p.1@) by {
                        lemma_update(s, i as int, p);
                    }
                }
                Some(&mut self.pending[i].1)
            },
            None => None,
        }
    }
}

/// A commit as it stands in the file.
pub open spec fn pending_json(c: PendingCommitV) -> JsonV {
    let o = empty_object();
    let o = with_member(o, "epoch_id"@, num_v(c.epoch_id as int));
    let o = with_member(o, "word_id"@, num_v(c.word_id as int));
    let o = with_member(o, "answer"@, JsonV::Str(c.answer));
    let o = with_member(o, "salt_hex"@, JsonV::Str(c.salt_hex));
    let o = with_member(o, "agent"@, JsonV::Str(c.agent));
    let o = with_member(o, "commit_tx"@, JsonV::Str(c.commit_tx));
    let o = with_member(o, "commit_hash"@, JsonV::Str(c.commit_hash));
    let o = with_member(o, "committed_at"@, num_v(c.committed_at as int));
    let o = with_member(o, "language"@, JsonV::Str(c.language));
    let o = with_member(o, "power"@, num_v(c.power as int));
    let o = with_member(o, "language_id"@, num_v(c.language_id as int));
    let o = with_member(o, "status"@, JsonV::Str(status_text(c.status)));
    let o = with_member(o, "reveal_tx"@, opt_str_v(c.reveal_tx));
    let o = with_member(o, "inscribe_tx"@, opt_str_v(c.inscribe_tx));
    with_member(o, "token_id"@, opt_num_v(c.token_id))
}

/// A number, or null.
pub open spec fn opt_num_v(n: Option<u64>) -> JsonV {
    match n {
        Some(n) => num_v(n as int),
        None => JsonV::Null,
    }
}

/// The state as it stands in the file.
pub open spec fn state_json(m: Map<Seq<char>, PendingCommitV>) -> JsonV {
    with_member(
        empty_object(),
        "pending"@,
        JsonV::Obj(m.map_values(|c: PendingCommitV| pending_json(c))),
    )
}

/// Whether a document names a status: by its name alone, or as the only member, which is null.
pub open spec fn names(v: JsonV, name: Seq<char>) -> bool {
    v == JsonV::Str(name) || v == JsonV::Obj(Map::<Seq<char>, JsonV>::empty().insert(name, JsonV::Null))
}

/// The status that a document names.
pub open spec fn status_of(v: JsonV) -> Option<CommitStatus> {
    if names(v, "committed"@) {
        Some(CommitStatus::Committed)
    } else if names(v, "revealed"@) {
        Some(CommitStatus::Revealed)
    } else if names(v, "won"@) {
        Some(CommitStatus::Won)
    } else if names(v, "lost"@) {
        Some(CommitStatus::Lost)
    } else if names(v, "inscribed"@) {
        Some(CommitStatus::Inscribed)
    } else if names(v, "failed"@) {
        Some(CommitStatus::Failed)
    } else {
        None
    }
}

/// The member that names the status.
pub open spec fn status_slot(v: JsonV, i: int) -> Result<Option<CommitStatus>, DefectV> {
    match slot(v, i, "status"@, "status"@) {
        Err(d) => Err(d),
        Ok(None) => Ok(None),
        Ok(Some(x)) => match status_of(x) {
            Some(s) => Ok(Some(s)),
            None => Err(DefectV::Invalid("status"@)),
        },
    }
}

/// What is wrong with a document that should be a commit.
pub open spec fn pending_defect(v: JsonV) -> Option<DefectV> {
    first(
        form_defect(v, 15),
        first(
            need(uint_slot(v, 0, "epoch_id"@, "epoch_id"@, u64::MAX as nat), "epoch_id"@),
            first(
                need(uint_slot(v, 1, "word_id"@, "word_id"@, u64::MAX as nat), "word_id"@),
                first(
                    need(text_slot(v, 2, "answer"@, "answer"@), "answer"@),
                    first(
                        need(text_slot(v, 3, "salt_hex"@, "salt_hex"@), "salt_hex"@),
                        first(
                            need(text_slot(v, 4, "agent"@, "agent"@), "agent"@),
                            first(
                                need(text_slot(v, 5, "commit_tx"@, "commit_tx"@), "commit_tx"@),
                                first(
                                    need(text_slot(v, 6, "commit_hash"@, "commit_hash"@), "commit_hash"@),
                                    first(
                                        need(int_slot(v, 7, "committed_at"@, "committed_at"@), "committed_at"@),
                                        first(
                                            need(text_slot(v, 8, "language"@, "language"@), "language"@),
                                            first(
                                                need(uint_slot(v, 9, "power"@, "power"@, u16::MAX as nat), "power"@),
                                                first(
                                                    need(uint_slot(v, 10, "language_id"@, "language_id"@, u8::MAX as nat), "language_id"@),
                                                    first(
                                                        need(status_slot(v, 11), "status"@),
                                                        first(
                                                            may(nullable_text_slot(v, 12, "reveal_tx"@)),
                                                            first(
                                                                may(nullable_text_slot(v, 13, "inscribe_tx"@)),
                                                                may(nullable_uint_slot(v, 14, "token_id"@, "token_id"@)),
                                                            ),
                                                        ),
                                                    ),
                                                ),
                                            ),
                                        ),
                                    ),
                                ),
                            ),
                        ),
                    ),
                ),
            ),
        ),
    )
}

/// What a document without a defect says as a commit.
pub open spec fn pending_value(v: JsonV) -> PendingCommitV {
    PendingCommitV {
        epoch_id: or_default(uint_slot(v, 0, "epoch_id"@, "epoch_id"@, u64::MAX as nat), 0) as u64,
        word_id: or_default(uint_slot(v, 1, "word_id"@, "word_id"@, u64::MAX as nat), 0) as u64,
        answer: or_default(text_slot(v, 2, "answer"@, "answer"@), Seq::empty()),
        salt_hex: or_default(text_slot(v, 3, "salt_hex"@, "salt_hex"@), Seq::empty()),
        agent: or_default(text_slot(v, 4, "agent"@, "agent"@), Seq::empty()),
        commit_tx: or_default(text_slot(v, 5, "commit_tx"@, "commit_tx"@), Seq::empty()),
        commit_hash: or_default(text_slot(v, 6, "commit_hash"@, "commit_hash"@), Seq::empty()),
        committed_at: or_default(int_slot(v, 7, "committed_at"@, "committed_at"@), 0),
        language: or_default(text_slot(v, 8, "language"@, "language"@), Seq::empty()),
        power: or_default(uint_slot(v, 9, "power"@, "power"@, u16::MAX as nat), 0) as u16,
        language_id: or_default(uint_slot(v, 10, "language_id"@, "language_id"@, u8::MAX as nat), 0) as u8,
        status: or_default(status_slot(v, 11), CommitStatus::Failed),
        reveal_tx: found(nullable_text_slot(v, 12, "reveal_tx"@)),
        inscribe_tx: found(nullable_text_slot(v, 13, "inscribe_tx"@)),
        token_id: match found(nullable_uint_slot(v, 14, "token_id"@, "token_id"@)) { Some(n) => Some(n as u64), None => None },
    }
}

/// A member that may be missing.
pub open spec fn found<T>(r: Result<Option<T>, DefectV>) -> Option<T> {
    match r {
        Ok(x) => x,
        Err(_) => None,
    }
}

/// A document whose only members have one name says nothing under any other name.
proof fn lemma_one_name(s: Seq<(String, Json)>, name: Seq<char>)
    requires
        forall|i: int| 0 <= i < s.len() ==> #[trigger] s[i].0@ == name,
    ensures
        forall|k: Seq<char>| #[trigger] obj_v(s).dom().contains(k) ==> k == name,
    decreases s.len(),
{
    if s.len() > 0 {
        let front = s.subrange(0, s.len() - 1);
        assert forall|i: int| 0 <= i < front.len() implies #[trigger] front[i].0@ == name by {
            assert(front[i] == s[i]);
        }
        lemma_one_name(front, name);
        assert(s[s.len() - 1].0@ == name);
        assert forall|k: Seq<char>| #[trigger] obj_v(s).dom().contains(k) implies k == name by {
            if k != name {
                assert(obj_v(front).dom().contains(k));
            }
        }
    }
}

/// A document says something under the name of each of its members.
proof fn lemma_named(s: Seq<(String, Json)>, i: int)
    requires
        0 <= i < s.len(),
    ensures
        obj_v(s).dom().contains(s[i].0@),
    decreases s.len(),
{
    let front = s.subrange(0, s.len() - 1);
    if i < front.len() {
        lemma_named(front, i);
        assert(front[i] == s[i]);
    }
}

/// Whether a document names the status `name`.
fn is_named(v: &Json, name: &str) -> (r: bool)
    ensures
        r == names(v@, name@),
{
    match v {
        Json::Str(t) => text_eq(t.as_str(), name),
        Json::Obj(o) => {
            let ghost only = Map::<Seq<char>, JsonV>::empty().insert(name@, JsonV::Null);
            let n = o.len();
            for i in 0..n
                invariant
                    n == o@.len(),
                    v@ == JsonV::Obj(obj_v(o@)),
                    only == Map::<Seq<char>, JsonV>::empty().insert(name@, JsonV::Null),
                    forall|j: int| 0 <= j < i ==> #[trigger] o@[j].0@ == name@,
            {
                if !text_eq(o[i].0.as_str(), name) {
                    proof {
                        lemma_named(o@, i as int);
                        assert(!only.dom().contains(o@[i as int].0@));
                    }
                    return false;
                }
            }
            proof {
                lemma_one_name(o@, name@);
            }
            match v.get(name) {
                Some(x) => {
                    let null = x.is_null();
                    proof {
                        if x@ == JsonV::Null {
                            assert(obj_v(o@) =~= only);
                        }
                        assert(only.dom().contains(name@) && only[name@] == JsonV::Null);
                    }
                    null
                },
                None => {
                    assert(only.dom().contains(name@));
                    false
                },
            }
        },
        _ => false,
    }
}

/// Reads the member that names the status.
fn find_status(v: &Json, i: usize) -> (r: Result<Option<CommitStatus>, Defect>)
    ensures
        match r {
            Ok(s) => status_slot(v@, i as int) == Ok::<Option<CommitStatus>, DefectV>(s),
            Err(d) => status_slot(v@, i as int) == Err::<Option<CommitStatus>, DefectV>(d@),
        },
{
    match find(v, i, "status", "status") {
        Err(d) => Err(d),
        Ok(None) => Ok(None),
        Ok(Some(x)) => if is_named(x, "committed") {
            Ok(Some(CommitStatus::Committed))
        } else if is_named(x, "revealed") {
            Ok(Some(CommitStatus::Revealed))
        } else if is_named(x, "won") {
            Ok(Some(CommitStatus::Won))
        } else if is_named(x, "lost") {
            Ok(Some(CommitStatus::Lost))
        } else if is_named(x, "inscribed") {
            Ok(Some(CommitStatus::Inscribed))
        } else if is_named(x, "failed") {
            Ok(Some(CommitStatus::Failed))
        } else {
            Err(Defect::Invalid("status".to_owned()))
        },
    }
}

impl Shape for PendingCommit {
    open spec fn defect(v: JsonV) -> Option<DefectV> {
        pending_defect(v)
    }

    open spec fn holds(v: JsonV, e: PendingCommit) -> bool {
        e@ == pending_value(v)
    }

    fn decode(v: &Json) -> (r: Result<PendingCommit, Defect>) {
        match check_form(v, 15) {
            Ok(_) => {},
            Err(d) => {
                return Err(d);
            },
        }
        let epoch_id = match required(find_uint(v, 0, "epoch_id", "epoch_id", u64::MAX), "epoch_id") {
            Ok(x) => x,
            Err(d) => {
                return Err(d);
            },
        };
        let word_id = match required(find_uint(v, 1, "word_id", "word_id", u64::MAX), "word_id") {
            Ok(x) => x,
            Err(d) => {
                return Err(d);
            },
        };
        let answer = match required(find_text(v, 2, "answer", "answer"), "answer") {
            Ok(x) => x,
            Err(d) => {
                return Err(d);
            },
        };
        let salt_hex = match required(find_text(v, 3, "salt_hex", "salt_hex"), "salt_hex") {
            Ok(x) => x,
            Err(d) => {
                return Err(d);
            },
        };
        let agent = match required(find_text(v, 4, "agent", "agent"), "agent") {
            Ok(x) => x,
            Err(d) => {
                return Err(d);
            },
        };
        let commit_tx = match required(find_text(v, 5, "commit_tx", "commit_tx"), "commit_tx") {
            Ok(x) => x,
            Err(d) => {
                return Err(d);
            },
        };
        let commit_hash = match required(find_text(v, 6, "commit_hash", "commit_hash"), "commit_hash") {
            Ok(x) => x,
            Err(d) => {
                return Err(d);
            },
        };
        let committed_at = match required(find_int(v, 7, "committed_at", "committed_at"), "committed_at") {
            Ok(x) => x,
            Err(d) => {
                return Err(d);
            },
        };
        let language = match required(find_text(v, 8, "language", "language"), "language") {
            Ok(x) => x,
            Err(d) => {
                return Err(d);
            },
        };
        let power = match required(find_uint(v, 9, "power", "power", u16::MAX as u64), "power") {
            Ok(x) => x as u16,
            Err(d) => {
                return Err(d);
            },
        };
        let language_id = match required(find_uint(v, 10, "language_id", "language_id", u8::MAX as u64), "language_id") {
            Ok(x) => x as u8,
            Err(d) => {
                return Err(d);
            },
        };
        let status = match required(find_status(v, 11), "status") {
            Ok(x) => x,
            Err(d) => {
                return Err(d);
            },
        };
        let reveal_tx = match find_nullable_text(v, 12, "reveal_tx") {
            Ok(x) => x,
            Err(d) => {
                return Err(d);
            },
        };
        let inscribe_tx = match find_nullable_text(v, 13, "inscribe_tx") {
            Ok(x) => x,
            Err(d) => {
                return Err(d);
            },
        };
        let token_id = match find_nullable_uint(v, 14, "token_id", "token_id") {
            Ok(x) => x,
            Err(d) => {
                return Err(d);
            },
        };
        Ok(PendingCommit {
            epoch_id,
            word_id,
            answer,
            salt_hex,
            agent,
            commit_tx,
            commit_hash,
            committed_at,
            language,
            power,
            language_id,
            status,
            reveal_tx,
            inscribe_tx,
            token_id,
        })
    }
}

impl PendingCommit {
    /// The commit as it stands in the file.
    pub fn to_json(&self) -> (r: Json)
        ensures
            r@ == pending_json(self@),
    {
        let o = Json::object();
        let o = o.with("epoch_id", Json::number(self.epoch_id));
        let o = o.with("word_id", Json::number(self.word_id));
        let o = o.with("answer", Json::text(self.answer.as_str()));
        let o = o.with("salt_hex", Json::text(self.salt_hex.as_str()));
        let o = o.with("agent", Json::text(self.agent.as_str()));
        let o = o.with("commit_tx", Json::text(self.commit_tx.as_str()));
        let o = o.with("commit_hash", Json::text(self.commit_hash.as_str()));
        let o = o.with("committed_at", Json::signed(self.committed_at));
        let o = o.with("language", Json::text(self.language.as_str()));
        let o = o.with("power", Json::number(self.power as u64));
        let o = o.with("language_id", Json::number(self.language_id as u64));
        let o = o.with("status", Json::text(self.status.text()));
        let o = o.with("reveal_tx", Json::opt_text(&self.reveal_tx));
        let o = o.with("inscribe_tx", Json::opt_text(&self.inscribe_tx));
        let token = match self.token_id {
            Some(n) => Json::number(n),
            None => Json::Null,
        };
        let o = o.with("token_id", token);
        o
    }
}

/// A document says something only under the names of its members.
proof fn lemma_named_only(s: Seq<(String, Json)>, k: Seq<char>)
    requires
        obj_v(s).dom().contains(k),
    ensures
        exists|i: int| 0 <= i < s.len() && #[trigger] s[i].0@ == k,
    decreases s.len(),
{
    if s.len() > 0 {
        let front = s.subrange(0, s.len() - 1);
        if k == s[s.len() - 1].0@ {
            assert(s[s.len() - 1].0@ == k);
        } else {
            lemma_named_only(front, k);
            let i = choose|i: int| 0 <= i < front.len() && #[trigger] front[i].0@ == k;
            assert(s[i].0@ == k);
        }
    }
}

/// The commits of a file by their keys, where every one of them can be read.
pub open spec fn all_pending(m: Map<Seq<char>, JsonV>) -> Option<Map<Seq<char>, PendingCommitV>> {
    if forall|k: Seq<char>| #[trigger] m.dom().contains(k) ==> pending_defect(m[k]) is None {
        Some(m.map_values(|x: JsonV| pending_value(x)))
    } else {
        None
    }
}

/// The state that a document holds, if it can be read.
pub open spec fn state_of(v: JsonV) -> Option<Map<Seq<char>, PendingCommitV>> {
    if form_defect(v, 1) is Some {
        None
    } else {
        match slot(v, 0, "pending"@, "pending"@) {
            Ok(None) => Some(Map::empty()),
            Ok(Some(JsonV::Obj(m))) => all_pending(m),
            _ => None,
        }
    }
}

/// The state that a document holds; one that cannot be read holds no commits.
pub open spec fn state_or_none(v: JsonV) -> Map<Seq<char>, PendingCommitV> {
    match state_of(v) {
        Some(m) => m,
        None => Map::empty(),
    }
}

/// The state that a file holds; a file that cannot be read holds no commits. What is not an object of objects of
/// objects, such as a file with other members, is read as any document is.
pub open spec fn loaded(text: Seq<char>) -> Map<Seq<char>, PendingCommitV> {
    match tables_parsed(text) {
        Some(v) => state_or_none(v),
        None => match json_parsed(text) {
            Ok(v) => state_or_none(v),
            Err(_) => Map::empty(),
        },
    }
}

/// The state of a file that may not be there.
pub open spec fn loaded_file(file: Option<Seq<char>>) -> Map<Seq<char>, PendingCommitV> {
    match file {
        Some(t) => loaded(t),
        None => Map::empty(),
    }
}

/// Reads the commits of a file.
fn read_pending(v: &Json, o: &Vec<(String, Json)>) -> (r: Option<State>)
    requires
        v@ == JsonV::Obj(obj_v(o@)),
    ensures
        match r {
            Some(st) => st.wf() && all_pending(obj_v(o@)) == Some(st@),
            None => all_pending(obj_v(o@)) is None,
        },
{
    let ghost m = obj_v(o@);
    let mut st = State::new();
    let n = o.len();
    for i in 0..n
        invariant
            n == o@.len(),
            v@ == JsonV::Obj(m),
            m == obj_v(o@),
            st.wf(),
            forall|k: Seq<char>| #[trigger]
                st@.dom().contains(k) ==> m.dom().contains(k) && pending_defect(m[k]) is None && st@[k]
                    == pending_value(m[k]),
            forall|j: int| 0 <= j < i ==> st@.dom().contains(#[trigger] o@[j].0@),
    {
        proof {
            lemma_named(o@, i as int);
        }
        let key = o[i].0.as_str();
        match v.get(key) {
            Some(x) => match PendingCommit::decode(x) {
                Ok(c) => {
                    st.put_at(o[i].0.clone(), c);
                },
                Err(_) => {
                    return None;
                },
            },
            None => {
                return None;
            },
        }
    }
    proof {
        assert forall|k: Seq<char>| #[trigger] m.dom().contains(k) implies st@.dom().contains(k) by {
            lemma_named_only(o@, k);
        }
        assert(st@ =~= m.map_values(|x: JsonV| pending_value(x)));
    }
    Some(st)
}

impl State {
    /// Reads a document.
    pub fn from_json(v: &Json) -> (r: Option<State>)
        ensures
            match r {
                Some(st) => st.wf() && state_of(v@) == Some(st@),
                None => state_of(v@) is None,
            },
    {
        match check_form(v, 1) {
            Ok(_) => {},
            Err(_) => {
                return None;
            },
        }
        match find(v, 0, "pending", "pending") {
            Ok(None) => Some(State::new()),
            Ok(Some(x)) => match x {
                Json::Obj(o) => read_pending(x, o),
                _ => None,
            },
            Err(_) => None,
        }
    }

    /// The state of a document; one that cannot be read holds no commits.
    fn from_document(v: &Json) -> (r: State)
        ensures
            r.wf(),
            r@ == state_or_none(v@),
    {
        match State::from_json(v) {
            Some(st) => st,
            None => State::new(),
        }
    }

    /// The state of a file; a file that cannot be read holds no commits.
    pub fn from_text(text: &str) -> (r: State)
        ensures
            r.wf(),
            r@ == loaded(text@),
    {
        match Json::parse_tables(text) {
            Some(v) => State::from_document(&v),
            None => match Json::parse(text) {
                Ok(v) => State::from_document(&v),
                Err(_) => State::new(),
            },
        }
    }

    /// The document of the state.
    pub fn to_json(&self) -> (r: Json)
        ensures
            r@ == state_json(self@),
    {
        let mut o: Vec<(String, Json)> = Vec::new();
        let n = self.pending.len();
        let ghost f = |c: PendingCommitV| pending_json(c);
        proof {
            assert(obj_v(o@) =~= entries_map(self.pending@.take(0)).map_values(f));
        }
        for i in 0..n
            invariant
                n == self.pending@.len(),
                f == (|c: PendingCommitV| pending_json(c)),
                obj_v(o@) == entries_map(self.pending@.take(i as int)).map_values(f),
        {
            let x = (self.pending[i].0.clone(), self.pending[i].1.to_json());
            proof {
                lemma_obj_push(o@, x);
                let front = self.pending@.take(i as int);
                let more = self.pending@.take(i + 1);
                assert(more.drop_last() =~= front);
                assert(more.last() == self.pending@[i as int]);
                assert(entries_map(more).map_values(f) =~= entries_map(front).map_values(f).insert(
                    x.0@,
                    json_v(x.1),
                ));
            }
            o.push(x);
        }
        proof {
            assert(self.pending@.take(n as int) =~= self.pending@);
        }
        Json::object().with("pending", Json::Obj(o))
    }

    /// The text of the file. Reading it gives the same state back.
    pub fn to_text(&self) -> (r: String)
        ensures
            r@ == json_pretty_text(state_json(self@)),
            loaded(r@) == self@,
    {
        proof {
            lemma_finite(self.pending@);
            law_state_round_trip(self@);
        }
        self.to_json().render_pretty()
    }

    /// The state that a file holds. A file that is not there, or cannot be read as a state, holds none.
    pub fn load(file: &Option<String>) -> (r: State)
        ensures
            r.wf(),
            r@ == loaded_file(opt_text_view(*file)),
    {
        match file {
            Some(t) => State::from_text(t.as_str()),
            None => State::new(),
        }
    }

    /// The action that writes the state. Reading what it writes gives the same state back.
    pub fn save(&self) -> (r: Action)
        ensures
            r@ == ActionV::Save(json_pretty_text(state_json(self@))),
            r matches Action::Save(t) && loaded_file(Some(t@)) == self@,
    {
        Action::Save(self.to_text())
    }
}

/// A list of commits has finitely many keys.
proof fn lemma_finite(s: Seq<(String, PendingCommit)>)
    ensures
        entries_map(s).dom().finite(),
    decreases s.len(),
{
    if s.len() > 0 {
        lemma_finite(s.drop_last());
    }
}

/// The name of a status names that status and no other.
proof fn lemma_status_round_trip(s: CommitStatus)
    ensures
        status_of(JsonV::Str(status_text(s))) == Some(s),
{
    reveal_strlit("committed");
    assert("committed"@.len() == 9 && "committed"@[0] == 'c');
    reveal_strlit("revealed");
    assert("revealed"@.len() == 8 && "revealed"@[0] == 'r');
    reveal_strlit("won");
    assert("won"@.len() == 3 && "won"@[0] == 'w');
    reveal_strlit("lost");
    assert("lost"@.len() == 4 && "lost"@[0] == 'l');
    reveal_strlit("inscribed");
    assert("inscribed"@.len() == 9 && "inscribed"@[0] == 'i');
    reveal_strlit("failed");
    assert("failed"@.len() == 6 && "failed"@[0] == 'f');
}

/// The document of a commit can be read and says that commit.
#[verifier::spinoff_prover]
#[verifier::rlimit(60)]
pub proof fn law_commit_round_trip(c: PendingCommitV)
    ensures
        pending_defect(pending_json(c)) is None,
        pending_value(pending_json(c)) == c,
{
    reveal_strlit("epoch_id");
    assert("epoch_id"@.len() == 8 && "epoch_id"@[0] == 'e');
    reveal_strlit("word_id");
    assert("word_id"@.len() == 7 && "word_id"@[0] == 'w');
    reveal_strlit("answer");
    assert("answer"@.len() == 6 && "answer"@[0] == 'a');
    reveal_strlit("salt_hex");
    assert("salt_hex"@.len() == 8 && "salt_hex"@[0] == 's');
    reveal_strlit("agent");
    assert("agent"@.len() == 5 && "agent"@[0] == 'a');
    reveal_strlit("commit_tx");
    assert("commit_tx"@.len() == 9 && "commit_tx"@[0] == 'c');
    reveal_strlit("commit_hash");
    assert("commit_hash"@.len() == 11 && "commit_hash"@[0] == 'c');
    reveal_strlit("committed_at");
    assert("committed_at"@.len() == 12 && "committed_at"@[0] == 'c');
    reveal_strlit("language");
    assert("language"@.len() == 8 && "language"@[0] == 'l');
    reveal_strlit("power");
    assert("power"@.len() == 5 && "power"@[0] == 'p');
    reveal_strlit("language_id");
    assert("language_id"@.len() == 11 && "language_id"@[0] == 'l');
    reveal_strlit("status");
    assert("status"@.len() == 6 && "status"@[0] == 's');
    reveal_strlit("reveal_tx");
    assert("reveal_tx"@.len() == 9 && "reveal_tx"@[0] == 'r');
    reveal_strlit("inscribe_tx");
    assert("inscribe_tx"@.len() == 11 && "inscribe_tx"@[0] == 'i');
    reveal_strlit("token_id");
    assert("token_id"@.len() == 8 && "token_id"@[0] == 't');
    lemma_status_round_trip(c.status);
    law_dec_round_trip(c.epoch_id as nat, u64::MAX as nat);
    law_dec_round_trip(c.word_id as nat, u64::MAX as nat);
    law_dec_round_trip(c.power as nat, u16::MAX as nat);
    law_dec_round_trip(c.language_id as nat, u8::MAX as nat);
    law_int_round_trip(c.committed_at);
    if c.token_id is Some {
        law_dec_round_trip(c.token_id->0 as nat, u64::MAX as nat);
    }
}

/// A state is read back, commit for commit, from any text from which its document is read back.
pub proof fn law_state_is_read_back(m: Map<Seq<char>, PendingCommitV>, text: Seq<char>)
    requires
        m.dom().finite(),
        tables(state_json(m)) ==> tables_parsed(text) == Some(state_json(m)),
    ensures
        loaded(text) == m,
        loaded_file(Some(text)) == m,
{
    law_state_round_trip(m);
}

/// The document of a commit is made of integers, texts and nulls.
#[verifier::spinoff_prover]
proof fn lemma_commit_is_record(c: PendingCommitV)
    ensures
        record(pending_json(c)),
{
    let v = pending_json(c);
    assert(v is Obj);
    let m = v->Obj_0;
    assert(m.dom().finite());
    assert forall|k: Seq<char>| #[trigger] m.dom().contains(k) implies scalar(m[k]) by {
        assert(int_text(c.epoch_id as int) == int_text(c.epoch_id as int));
        assert(int_text(c.word_id as int) == int_text(c.word_id as int));
        assert(int_text(c.power as int) == int_text(c.power as int));
        assert(int_text(c.language_id as int) == int_text(c.language_id as int));
        assert(int_text(c.committed_at as int) == int_text(c.committed_at as int));
    }
}

/// The document of a state can be read and says that state.
pub proof fn law_state_round_trip(m: Map<Seq<char>, PendingCommitV>)
    requires
        m.dom().finite(),
    ensures
        state_of(state_json(m)) == Some(m),
        tables(state_json(m)),
{
    let f = |c: PendingCommitV| pending_json(c);
    let inner = m.map_values(f);
    let v = state_json(m);
    assert forall|k: Seq<char>| #[trigger] inner.dom().contains(k) implies pending_defect(inner[k]) is None by {
        law_commit_round_trip(m[k]);
    }
    assert forall|k: Seq<char>| #[trigger] m.dom().contains(k) implies pending_value(inner[k]) == m[k] by {
        law_commit_round_trip(m[k]);
    }
    assert(inner.map_values(|x: JsonV| pending_value(x)) =~= m);
    assert(inner.dom() =~= m.dom());
    assert forall|k: Seq<char>| #[trigger] inner.dom().contains(k) implies record(inner[k]) by {
        lemma_commit_is_record(m[k]);
    }
    assert(table(JsonV::Obj(inner)));
    assert(v->Obj_0.dom() =~= set!["pending"@]);
    assert(tables(v));
}

/// Two commits have one key only if epoch and word are the same.
pub proof fn law_key_injective(e1: u64, w1: u64, e2: u64, w2: u64)
    requires
        key_text(e1, w1) == key_text(e2, w2),
    ensures
        e1 == e2 && w1 == w2,
{
    reveal_strlit(":");
    let a = dec_text(e1 as nat);
    let b = dec_text(e2 as nat);
    let x = dec_text(w1 as nat);
    let y = dec_text(w2 as nat);
    lemma_dec_text(e1 as nat);
    lemma_dec_text(e2 as nat);
    let k = key_text(e1, w1);
    assert(k[a.len() as int] == ':');
    assert(k[b.len() as int] == ':');
    if a.len() < b.len() {
        assert(k[a.len() as int] == b[a.len() as int]);
    } else if b.len() < a.len() {
        assert(k[b.len() as int] == a[b.len() as int]);
    }
    assert(a =~= k.take(a.len() as int));
    assert(b =~= k.take(b.len() as int));
    assert(x =~= k.skip(a.len() as int + 1));
    assert(y =~= k.skip(b.len() as int + 1));
    law_dec_injective(e1 as nat, e2 as nat);
    law_dec_injective(w1 as nat, w2 as nat);
}

/// Keeping a commit leaves the commits on other words and in other epochs as they are.
pub proof fn law_put_keeps_others(m: Map<Seq<char>, PendingCommitV>, c: PendingCommitV, epoch_id: u64, word_id: u64)
    requires
        (epoch_id, word_id) != (c.epoch_id, c.word_id),
    ensures
        ({
            let after = m.insert(key_text(c.epoch_id, c.word_id), c);
            let k = key_text(epoch_id, word_id);
            after.dom().contains(k) == m.dom().contains(k) && (m.dom().contains(k) ==> after[k] == m[k])
        }),
{
    if key_text(epoch_id, word_id) == key_text(c.epoch_id, c.word_id) {
        law_key_injective(epoch_id, word_id, c.epoch_id, c.word_id);
    }
}

/// The name of the file that holds the commits of an agent. Every agent has its own.
pub open spec fn file_name_v(address: Option<Seq<char>>) -> Seq<char> {
    match address {
        Some(a) => "state-"@ + lowercase_text(a) + ".json"@,
        None => "state.json"@,
    }
}

/// The name of the file that holds the commits of an agent, or of one whose address is not known.
pub fn file_name(address: Option<&str>) -> (r: String)
    ensures
        r@ == file_name_v(
            match address {
                Some(a) => Some(a@),
                None => None,
            },
        ),
        address matches Some(a) ==> (is_ascii_chars(a@) ==> r@ == "state-"@ + ascii_lowered(a@) + ".json"@),
{
    match address {
        Some(a) => {
            let l = lowercase(a);
            cat3("state-", l.as_str(), ".json")
        },
        None => "state.json".to_owned(),
    }
}

/// In the file a commit's parts stand under their own names.
pub proof fn law_commit_members(c: PendingCommitV)
    ensures
        member(pending_json(c), "epoch_id"@) == Some(num_v(c.epoch_id as int)),
        member(pending_json(c), "word_id"@) == Some(num_v(c.word_id as int)),
        member(pending_json(c), "answer"@) == Some(JsonV::Str(c.answer)),
        member(pending_json(c), "salt_hex"@) == Some(JsonV::Str(c.salt_hex)),
        member(pending_json(c), "agent"@) == Some(JsonV::Str(c.agent)),
        member(pending_json(c), "commit_tx"@) == Some(JsonV::Str(c.commit_tx)),
        member(pending_json(c), "commit_hash"@) == Some(JsonV::Str(c.commit_hash)),
        member(pending_json(c), "committed_at"@) == Some(num_v(c.committed_at as int)),
        member(pending_json(c), "language"@) == Some(JsonV::Str(c.language)),
        member(pending_json(c), "power"@) == Some(num_v(c.power as int)),
        member(pending_json(c), "language_id"@) == Some(num_v(c.language_id as int)),
        member(pending_json(c), "status"@) == Some(JsonV::Str(status_text(c.status))),
        member(pending_json(c), "reveal_tx"@) == Some(match c.reveal_tx { Some(t) => JsonV::Str(t), None => JsonV::Null }),
        member(pending_json(c), "inscribe_tx"@) == Some(match c.inscribe_tx { Some(t) => JsonV::Str(t), None => JsonV::Null }),
        member(pending_json(c), "token_id"@) == Some(match c.token_id { Some(n) => num_v(n as int), None => JsonV::Null }),
{
    reveal_strlit("epoch_id");
    reveal_strlit("word_id");
    reveal_strlit("answer");
    reveal_strlit("salt_hex");
    reveal_strlit("agent");
    reveal_strlit("commit_tx");
    reveal_strlit("commit_hash");
    reveal_strlit("committed_at");
    reveal_strlit("language");
    reveal_strlit("power");
    reveal_strlit("language_id");
    reveal_strlit("status");
    reveal_strlit("reveal_tx");
    reveal_strlit("inscribe_tx");
    reveal_strlit("token_id");
    assert("epoch_id"@.len() == 8 && "epoch_id"@[0] == 'e');
    assert("salt_hex"@.len() == 8 && "salt_hex"@[0] == 's');
    assert("language"@.len() == 8 && "language"@[0] == 'l');
    assert("token_id"@.len() == 8 && "token_id"@[0] == 't');
    assert("word_id"@.len() == 7);
    assert("answer"@.len() == 6 && "answer"@[0] == 'a');
    assert("status"@.len() == 6 && "status"@[0] == 's');
    assert("agent"@.len() == 5 && "agent"@[0] == 'a');
    assert("power"@.len() == 5 && "power"@[0] == 'p');
    assert("commit_tx"@.len() == 9 && "commit_tx"@[0] == 'c');
    assert("reveal_tx"@.len() == 9 && "reveal_tx"@[0] == 'r');
    assert("commit_hash"@.len() == 11 && "commit_hash"@[0] == 'c');
    assert("language_id"@.len() == 11 && "language_id"@[0] == 'l');
    assert("inscribe_tx"@.len() == 11 && "inscribe_tx"@[0] == 'i');
    assert("committed_at"@.len() == 12);
}

} // verus!
