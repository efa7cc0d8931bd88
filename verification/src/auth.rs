//! The agent's address: from the environment, or from the wallet.
use vstd::prelude::*;
use vstd::string::*;
use vstd::utf8::{encode_utf8, is_ascii_chars};

use crate::fault::{fault_v, text_result, Fault};
use crate::flow::{stray, stray_v, Action, ActionV, Reply, Step};
use crate::text::{
    ascii_lowered, cat2, has_prefix, lemma_trimmed_is_ascii, lowercase, lowercase_text, starts_with, trim,
    trimmed,
};
use crate::wallet::ends_text;

verus! {

/// An address in lower case without white space round it, or the error where it is not `0x` and 40 more
/// bytes.
pub open spec fn normalized(a: Seq<char>) -> Result<Seq<char>, Seq<Seq<char>>> {
    let s = trimmed(a);
    if !has_prefix(s, "0x"@) || encode_utf8(s).len() != 42 {
        Err(fault_v("invalid address: "@ + s))
    } else {
        Ok(lowercase_text(s))
    }
}

/// An address in lower case without white space round it.
pub fn normalize_addr(a: &str) -> (r: Result<String, Fault>)
    ensures
        text_result(r) == normalized(a@),
        is_ascii_chars(a@) ==> (r matches Ok(x) ==> x@ == ascii_lowered(trimmed(a@))),
{
    let s = trim(a);
    proof {
        if is_ascii_chars(a@) {
            lemma_trimmed_is_ascii(a@);
        }
    }
    if !starts_with(s.as_str(), "0x") || s.as_str().as_bytes().len() != 42 {
        Err(Fault::new(cat2("invalid address: ", s.as_str())))
    } else {
        Ok(lowercase(s.as_str()))
    }
}

/// Finding the agent's address.
pub enum Resolving {
    /// The variable of this agent is asked for.
    Own,
    /// The variable of the wallet is asked for.
    Shared,
    /// The wallet is asked.
    Wallet,
}

/// What comes next when the address is looked for. A variable that is set and not empty decides.
pub open spec fn resolving_next(s: Resolving, reply: Reply, r: Step<Resolving, Result<String, Fault>>) -> bool {
    match (s, reply) {
        (Resolving::Own, Reply::Maybe(v)) => match v {
            Some(a) if a@.len() > 0 => ends_text(r, normalized(a@)),
            _ => {
                &&& r matches Step::Act(Resolving::Shared, a)
                &&& a@ == ActionV::Env("AWP_ADDRESS"@)
            },
        },
        (Resolving::Shared, Reply::Maybe(v)) => match v {
            Some(a) if a@.len() > 0 => ends_text(r, normalized(a@)),
            _ => {
                &&& r matches Step::Act(Resolving::Wallet, a)
                &&& a@ == ActionV::Wallet
            },
        },
        (Resolving::Wallet, Reply::Wallet(w)) => match w.address {
            Some(a) => ends_text(r, Ok(a@)),
            None => ends_text(
                r,
                Err(fault_v("could not determine agent address: "@ + w.human_status@)),
            ),
        },
        _ => ends_text(r, Err(stray_v())),
    }
}

/// Starts to look for the agent's address.
pub fn get_address() -> (r: Step<Resolving, Result<String, Fault>>)
    ensures
        r matches Step::Act(Resolving::Own, a) && a@ == ActionV::Env("ARDI_AGENT_ADDR"@),
{
    Step::Act(Resolving::Own, Action::Env("ARDI_AGENT_ADDR".to_owned()))
}

impl Resolving {
    /// Goes on with the reply.
    pub fn step(self, reply: Reply) -> (r: Step<Resolving, Result<String, Fault>>)
        ensures
            resolving_next(self, reply, r),
    {
        match (self, reply) {
            (Resolving::Own, Reply::Maybe(v)) => {
                match v {
                    Some(a) => if !a.as_str().is_empty() {
                        return Step::End(normalize_addr(a.as_str()));
                    },
                    None => {},
                }
                Step::Act(Resolving::Shared, Action::Env("AWP_ADDRESS".to_owned()))
            },
            (Resolving::Shared, Reply::Maybe(v)) => {
                match v {
                    Some(a) => if !a.as_str().is_empty() {
                        return Step::End(normalize_addr(a.as_str()));
                    },
                    None => {},
                }
                Step::Act(Resolving::Wallet, Action::Wallet)
            },
            (Resolving::Wallet, Reply::Wallet(w)) => match w.address {
                Some(a) => Step::End(Ok(a)),
                None => Step::End(
                    Err(
                        Fault::new(
                            cat2("could not determine agent address: ", w.human_status.as_str()),
                        ),
                    ),
                ),
            },
            _ => Step::End(Err(stray())),
        }
    }
}

/// The address is the one that is set for this agent, else the one that is set for the wallet, else the wallet's own.
pub proof fn law_address_sources(s: Resolving, reply: Reply, r: Step<Resolving, Result<String, Fault>>)
    requires
        resolving_next(s, reply, r),
    ensures
        s is Own || s is Shared ==> (reply matches Reply::Maybe(Some(a)) ==> (a@.len() > 0 ==> (r matches Step::End(x)
            && text_result(x) == normalized(a@)))),
        s is Own ==> (reply == Reply::Maybe(None::<String>) ==> (r matches Step::Act(Resolving::Shared, a) && a@ == ActionV::Env(
            "AWP_ADDRESS"@,
        ))),
        s is Shared ==> (reply == Reply::Maybe(None::<String>) ==> (r matches Step::Act(Resolving::Wallet, a) && a@
            == ActionV::Wallet)),
        s is Wallet ==> (reply matches Reply::Wallet(w) ==> (w.address matches Some(a) ==> (r matches Step::End(Ok(x)) && x@
            == a@))),
        s is Wallet ==> (reply matches Reply::Wallet(w) ==> (w.address is None ==> (r matches Step::End(Err(_))))),
{
}

} // verus!
