//! context: the epoch that takes commits, with its riddles.
use vstd::prelude::*;

use crate::clock::unix_now;
use crate::cmd::gas::{law_warning_stands_behind_the_message, warn, warned_data, warned_message};
use crate::flow::{
    fail, fails, print, prints, stray, stray_v, Action, ActionV, Outcome, Reply, Step,
};
use crate::json::{Json, JsonV};
use crate::num::{dec, dec_i128, dec_text, dec_usize, int_text};
use crate::output::{error_v, next_v, success_v, Internal, Output, OutputV};
use crate::schema::{current_epoch_defect, current_epoch_holds, parse, refused_v, CurrentEpoch};
use crate::text::{cat7, has_prefix};

verus! {

/// The context command.
pub enum Context {
    /// The current epoch is fetched.
    Epoch,
    /// The agent's address is looked for.
    Address(String, Json),
    /// The balance is checked.
    Warn(String, Json, String),
}

/// What the message says of an epoch at the time `now`.
pub open spec fn epoch_message(cur: CurrentEpoch, now: i64) -> Seq<char> {
    "Epoch "@ + dec_text(cur.epoch_id as nat) + ": commit window closes in "@ + int_text(
        cur.commit_deadline - now,
    ) + "s ("@ + dec_text(cur.riddles@.len()) + " riddles)."@
}

/// What the message says of an epoch at the time `now`.
pub fn describe(cur: &CurrentEpoch, now: i64) -> (r: String)
    ensures
        r@ == epoch_message(*cur, now),
{
    let e = dec(cur.epoch_id);
    let left = dec_i128(cur.commit_deadline as i128 - now as i128);
    let n = dec_usize(cur.riddles.len());
    cat7(
        "Epoch ",
        e.as_str(),
        ": commit window closes in ",
        left.as_str(),
        "s (",
        n.as_str(),
        " riddles).",
    )
}

/// The output with a message and an epoch.
pub open spec fn shown_v(message: Seq<char>, epoch: JsonV) -> OutputV {
    success_v(
        message,
        epoch,
        next_v(
            "solve_then_commit"@,
            Some("ardi-agent commit --word-id <ID> --answer \"<your answer>\""@),
        ),
    )
}

fn shown(message: String, epoch: Json) -> (r: Output)
    ensures
        r@ == shown_v(message@, epoch@),
{
    Output::success(
        message,
        epoch,
        Internal::run(
            "solve_then_commit",
            "ardi-agent commit --word-id <ID> --answer \"<your answer>\"",
        ),
    )
}

/// The output where no epoch takes commits.
pub open spec fn closed_v() -> OutputV {
    error_v(
        "No epoch is currently in commit window. Wait for the next openEpoch (~6 min cycle)."@,
        "NO_OPEN_EPOCH"@,
        "timing"@,
        true,
        "Wait, then run `ardi-agent context` again in 1 min."@,
        next_v("wait"@, Some("ardi-agent context"@)),
    )
}

fn closed() -> (r: Output)
    ensures
        r@ == closed_v(),
{
    Output::error(
        "No epoch is currently in commit window. Wait for the next openEpoch (~6 min cycle).".to_owned(),
        "NO_OPEN_EPOCH",
        "timing",
        true,
        "Wait, then run `ardi-agent context` again in 1 min.",
        Internal::run("wait", "ardi-agent context"),
    )
}

/// What comes next with the current epoch at the time `now`.
pub open spec fn epoch_next(v: Json, cur: CurrentEpoch, now: i64, r: Step<Context, Outcome>) -> bool {
    &&& r matches Step::Act(Context::Address(m, w), a)
    &&& m@ == epoch_message(cur, now)
    &&& w == v
    &&& a@ == ActionV::Address
}

/// What comes next in the context command.
pub open spec fn context_next(s: Context, reply: Reply, r: Step<Context, Outcome>) -> bool {
    match (s, reply) {
        (Context::Epoch, Reply::Found(Ok(Some(v)))) => match current_epoch_defect(v@) {
            Some(d) => fails(r, refused_v("/v1/epoch/current"@, d, v@)),
            None => exists|cur: CurrentEpoch, now: i64|
                current_epoch_holds(v@, cur) && #[trigger] epoch_next(v, cur, now, r),
        },
        (Context::Epoch, Reply::Found(Ok(None))) => prints(r, closed_v()),
        (Context::Epoch, Reply::Found(Err(f))) => fails(r, f@),
        (Context::Address(m, v), Reply::Text(Ok(t))) => {
            &&& r matches Step::Act(Context::Warn(n, w, u), a)
            &&& n == m
            &&& w == v
            &&& u == t
            &&& a@ == ActionV::Balance(t@)
        },
        (Context::Address(m, v), Reply::Text(Err(_))) => prints(r, shown_v(m@, v@)),
        (Context::Warn(m, v, t), Reply::Gas(g)) => prints(
            r,
            shown_v(warned_message(m@, t@, g), warned_data(v@, t@, g)),
        ),
        _ => fails(r, stray_v()),
    }
}

/// Starts the context command.
pub fn run() -> (r: Step<Context, Outcome>)
    ensures
        r matches Step::Act(Context::Epoch, a) && a@ == ActionV::TryGet("/v1/epoch/current"@),
{
    Step::Act(Context::Epoch, Action::TryGet("/v1/epoch/current".to_owned()))
}

impl Context {
    /// Goes on with the reply.
    pub fn step(self, reply: Reply) -> (r: Step<Context, Outcome>)
        ensures
            context_next(self, reply, r),
    {
        match (self, reply) {
            (Context::Epoch, Reply::Found(Ok(Some(v)))) => match parse::<CurrentEpoch>(
                "/v1/epoch/current",
                &v,
            ) {
                Err(f) => fail(f),
                Ok(cur) => {
                    let now = unix_now();
                    let m = describe(&cur, now);
                    let r = Step::Act(Context::Address(m, v), Action::Address);
                    assert(current_epoch_holds(v@, cur) && epoch_next(v, cur, now, r));
                    r
                },
            },
            (Context::Epoch, Reply::Found(Ok(None))) => print(closed()),
            (Context::Epoch, Reply::Found(Err(f))) => fail(f),
            (Context::Address(m, v), Reply::Text(Ok(t))) => {
                let a = Action::Balance(t.clone());
                Step::Act(Context::Warn(m, v, t), a)
            },
            (Context::Address(m, v), Reply::Text(Err(_))) => print(shown(m, v)),
            (Context::Warn(m, v, t), Reply::Gas(g)) => {
                let (m, v) = warn(m, v, t.as_str(), &g);
                print(shown(m, v))
            },
            _ => fail(stray()),
        }
    }
}

/// The message states the epoch, the seconds that are left until its deadline, and how many riddles it has.
pub proof fn law_context_counts_down(v: Json, cur: CurrentEpoch, now: i64, r: Step<Context, Outcome>)
    requires
        epoch_next(v, cur, now, r),
    ensures
        r matches Step::Act(Context::Address(m, w), _) && w == v && m@ == "Epoch "@ + dec_text(cur.epoch_id as nat)
            + ": commit window closes in "@ + int_text(cur.commit_deadline - now) + "s ("@ + dec_text(cur.riddles@.len())
            + " riddles)."@,
{
}

/// The epoch is told first, and what is said of the balance behind it.
pub proof fn law_context_comes_before_the_warning(s: Context, reply: Reply, r: Step<Context, Outcome>)
    requires
        context_next(s, reply, r),
    ensures
        s matches Context::Warn(m, v, t) ==> (reply matches Reply::Gas(g) ==> (r matches Step::End(Outcome::Print(o)) && has_prefix(
            o@.message,
            m@,
        ) && (g is Err ==> o@.message == m@ && o@.data == v@))),
{
    if let (Context::Warn(m, v, t), Reply::Gas(g)) = (s, reply) {
        law_warning_stands_behind_the_message(m@, t@, g);
    }
}

} // verus!
