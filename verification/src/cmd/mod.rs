//! The commands.
use vstd::prelude::*;

use crate::fault::Fault;
use crate::json::{member, member_str, str_of, Json, JsonV};
use crate::num::{dec, dec_text};
use crate::schema::opt_text_view;
use crate::text::cat4;

pub mod buy;
pub mod buy_and_stake;
pub mod claim;
pub mod commit;
pub mod commits;
pub mod context;
pub mod contracts;
pub mod gas;
pub mod inscribe;
pub mod lock;
pub mod market;
pub mod preflight;
pub mod quote;
pub mod repair;
pub mod reveal_cmd;
pub mod stake;
pub mod status;
pub mod transfer;

verus! {

/// The command that reveals a commit.
pub open spec fn reveal_command_v(epoch: u64, word: u64) -> Seq<char> {
    "ardi-agent reveal --epoch "@ + dec_text(epoch as nat) + " --word-id "@ + dec_text(word as nat)
}

/// The command that reveals a commit.
pub fn reveal_command(epoch: u64, word: u64) -> (r: String)
    ensures
        r@ == reveal_command_v(epoch, word),
{
    let e = dec(epoch);
    let w = dec(word);
    cat4("ardi-agent reveal --epoch ", e.as_str(), " --word-id ", w.as_str())
}

/// The command that inscribes a token.
pub open spec fn inscribe_command_v(epoch: u64, word: u64) -> Seq<char> {
    "ardi-agent inscribe --epoch "@ + dec_text(epoch as nat) + " --word-id "@ + dec_text(word as nat)
}

/// The command that inscribes a token.
pub fn inscribe_command(epoch: u64, word: u64) -> (r: String)
    ensures
        r@ == inscribe_command_v(epoch, word),
{
    let e = dec(epoch);
    let w = dec(word);
    cat4("ardi-agent inscribe --epoch ", e.as_str(), " --word-id ", w.as_str())
}

/// The contract that the current epoch names, under one of two names.
pub open spec fn named_contract(v: JsonV, camel: Seq<char>, snake: Seq<char>) -> Option<Seq<char>> {
    match member(v, camel) {
        Some(x) => str_of(x),
        None => member_str(v, snake),
    }
}

/// The contract that the current epoch names, under one of two names.
pub fn read_contract(v: &Json, camel: &str, snake: &str) -> (r: Option<String>)
    ensures
        match r {
            Some(t) => named_contract(v@, camel@, snake@) == Some(t@),
            None => named_contract(v@, camel@, snake@) is None,
        },
{
    let found = match v.get(camel) {
        Some(x) => x.as_str(),
        None => v.get_str(snake),
    };
    match found {
        Some(t) => Some(t.to_owned()),
        None => None,
    }
}

/// The address of a contract: the one that is set, or else the one that the current epoch names, or else
/// the known one.
pub open spec fn contract_text(
    set: Option<Seq<char>>,
    found: Result<Option<Json>, Fault>,
    camel: Seq<char>,
    snake: Seq<char>,
    known: Seq<char>,
) -> Seq<char> {
    match set {
        Some(t) => t,
        None => match found {
            Ok(Some(v)) => match named_contract(v@, camel, snake) {
                Some(t) => t,
                None => known,
            },
            _ => known,
        },
    }
}

/// The address of a contract.
pub fn resolve_contract(
    set: Option<String>,
    found: &Result<Option<Json>, Fault>,
    camel: &str,
    snake: &str,
    known: &str,
) -> (r: String)
    ensures
        r@ == contract_text(opt_text_view(set), *found, camel@, snake@, known@),
{
    match set {
        Some(t) => t,
        None => match found {
            Ok(Some(v)) => match read_contract(v, camel, snake) {
                Some(t) => t,
                None => known.to_owned(),
            },
            _ => known.to_owned(),
        },
    }
}

/// A contract is what is set, else what the coordinator names, under either of its names, else the one that is known.
pub proof fn law_contract_precedence(
    set: Option<Seq<char>>,
    v: Json,
    camel: Seq<char>,
    snake: Seq<char>,
    known: Seq<char>,
    t: Seq<char>,
)
    ensures
        set == Some(t) ==> contract_text(set, Ok(Some(v)), camel, snake, known) == t,
        set is None && member(v@, camel) == Some(JsonV::Str(t)) ==> contract_text(
            set,
            Ok(Some(v)),
            camel,
            snake,
            known,
        ) == t,
        set is None && member(v@, camel) is None && member(v@, snake) == Some(JsonV::Str(t)) ==> contract_text(
            set,
            Ok(Some(v)),
            camel,
            snake,
            known,
        ) == t,
        set is None && member(v@, camel) is None && member(v@, snake) is None ==> contract_text(
            set,
            Ok(Some(v)),
            camel,
            snake,
            known,
        ) == known,
        set is None ==> contract_text(set, Ok(None), camel, snake, known) == known,
{
}

} // verus!
