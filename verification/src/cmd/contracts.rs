//! The addresses of the contracts, as the coordinator or the environment states them.
use vstd::prelude::*;

use crate::address::{address_error_text, parsed_address, Address};
use crate::fault::{fault_v, Fault};
use crate::flow::{Action, ActionV, Reply, Step};
use crate::json::{member, str_of, Json, JsonV};
use crate::schema::opt_text_view;

verus! {

/// The text that the configuration holds under a key, at the top or among the contracts.
pub open spec fn config_text(v: JsonV, key: Seq<char>) -> Option<Seq<char>> {
    match member(v, key) {
        Some(x) => str_of(x),
        None => match member(v, "contracts"@) {
            Some(c) => match member(c, key) {
                Some(x) => str_of(x),
                None => None,
            },
            None => None,
        },
    }
}

/// The text that the configuration holds under a key.
pub fn read_addr(v: &Json, key: &str) -> (r: Option<String>)
    ensures
        opt_text_view(r) == config_text(v@, key@),
{
    let found = match v.get(key) {
        Some(x) => x.as_str(),
        None => match v.get("contracts") {
            Some(c) => c.get_str(key),
            None => None,
        },
    };
    match found {
        Some(t) => Some(t.to_owned()),
        None => None,
    }
}

/// The address of a contract: the one in the configuration, or else the one that is set.
pub open spec fn contract_result(
    cfg: JsonV,
    key: Seq<char>,
    set: Option<Seq<char>>,
    missing: Seq<char>,
) -> Result<Seq<u8>, Seq<Seq<char>>> {
    let text = match config_text(cfg, key) {
        Some(t) => Some(t),
        None => set,
    };
    match text {
        None => Err(fault_v(missing)),
        Some(t) => match parsed_address(t) {
            None => Err(fault_v(address_error_text(t))),
            Some(a) => Ok(a),
        },
    }
}

/// The address of a contract, or the error.
pub fn find_contract(cfg: &Json, key: &str, set: Option<String>, missing: &str) -> (r: Result<Address, Fault>)
    ensures
        match r {
            Ok(a) => contract_result(cfg@, key@, opt_text_view(set), missing@) == Ok::<
                Seq<u8>,
                Seq<Seq<char>>,
            >(a@),
            Err(f) => contract_result(cfg@, key@, opt_text_view(set), missing@) == Err::<
                Seq<u8>,
                Seq<Seq<char>>,
            >(f@),
        },
{
    let text = match read_addr(cfg, key) {
        Some(t) => Some(t),
        None => set,
    };
    match text {
        None => Err(Fault::of(missing)),
        Some(t) => match Address::parse(t.as_str()) {
            Ok(a) => Ok(a),
            Err(e) => Err(Fault::new(e)),
        },
    }
}

/// Fetching the configuration.
pub enum Configuring {
    /// The list of contracts is fetched.
    Contracts,
    /// The state of the coordinator is fetched, which may list them too.
    Health,
}

/// What comes next when the configuration is fetched. Without one it counts as null.
pub open spec fn configuring_next(s: Configuring, reply: Reply, r: Step<Configuring, Json>) -> bool {
    match (s, reply) {
        (Configuring::Contracts, Reply::Doc(Err(_))) => {
            r matches Step::Act(Configuring::Health, a) && a@ == ActionV::Get("/v1/health"@)
        },
        (_, Reply::Doc(Ok(v))) => r matches Step::End(w) && w == v,
        _ => r matches Step::End(w) && w@ == JsonV::Null,
    }
}

/// Starts to fetch the configuration.
pub fn configuration() -> (r: Step<Configuring, Json>)
    ensures
        r matches Step::Act(Configuring::Contracts, a) && a@ == ActionV::Get("/v1/chain/contracts"@),
{
    Step::Act(Configuring::Contracts, Action::Get("/v1/chain/contracts".to_owned()))
}

impl Configuring {
    /// Goes on with the reply.
    pub fn step(self, reply: Reply) -> (r: Step<Configuring, Json>)
        ensures
            configuring_next(self, reply, r),
    {
        match (self, reply) {
            (Configuring::Contracts, Reply::Doc(Err(_))) => Step::Act(
                Configuring::Health,
                Action::Get("/v1/health".to_owned()),
            ),
            (_, Reply::Doc(Ok(v))) => Step::End(v),
            _ => Step::End(Json::Null),
        }
    }
}

/// A contract is what the configuration names at its top, else what it names among its contracts, else what is set, and
/// an error says that it is missing where nothing names it.
pub proof fn law_contract_sources(
    cfg: JsonV,
    key: Seq<char>,
    set: Option<Seq<char>>,
    missing: Seq<char>,
    t: Seq<char>,
    a: Seq<u8>,
)
    requires
        parsed_address(t) == Some(a),
    ensures
        member(cfg, key) == Some(JsonV::Str(t)) ==> contract_result(cfg, key, set, missing) == Ok::<
            Seq<u8>,
            Seq<Seq<char>>,
        >(a),
        member(cfg, key) is None && (member(cfg, "contracts"@) matches Some(c) && member(c, key) == Some(JsonV::Str(t)))
            ==> contract_result(cfg, key, set, missing) == Ok::<Seq<u8>, Seq<Seq<char>>>(a),
        member(cfg, key) is None && member(cfg, "contracts"@) is None && set == Some(t) ==> contract_result(
            cfg,
            key,
            set,
            missing,
        ) == Ok::<Seq<u8>, Seq<Seq<char>>>(a),
        member(cfg, key) is None && member(cfg, "contracts"@) is None && set is None ==> contract_result(
            cfg,
            key,
            set,
            missing,
        ) == Err::<Seq<u8>, Seq<Seq<char>>>(fault_v(missing)),
{
}

} // verus!
