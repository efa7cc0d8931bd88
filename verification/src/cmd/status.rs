//! status: the address, the registration, the balance, the coordinator and what it knows of the agent.
use vstd::prelude::*;

use crate::cmd::commits::{set_or, token_url, token_url_v};
use crate::cmd::gas::GasCheck;
use crate::fault::Fault;
use crate::flow::{
    fail, fails, print, prints, stray, stray_v, Action, ActionV, Outcome, Reply, Step,
};
use crate::json::{
    arr_v, empty_object, json_text, lemma_arr_push, lemma_arr_v, member, u64_of, with_member, Json, JsonV,
};
use crate::output::{next_v, success_v, Internal, Output, OutputV};
use crate::schema::opt_text_view;
use crate::text::{cat2, cat3, join, joined, texts};

verus! {

/// What was found so far.
pub struct Findings {
    /// The address.
    pub address: String,
    /// Whether it is registered.
    pub registered: bool,
    /// The balance.
    pub gas: GasCheck,
    /// Whether the coordinator answers.
    pub reachable: bool,
    /// What the coordinator knows of the agent.
    pub state: Option<Json>,
}

/// The status command.
pub enum Status {
    /// The agent's address is looked for.
    Address,
    /// The registration is checked.
    Registered(String),
    /// The balance is checked.
    Gas(String, bool),
    /// The coordinator is asked.
    Ping(String, bool, GasCheck),
    /// What the coordinator knows of the agent is fetched.
    State(String, bool, GasCheck, bool),
    /// The token contract that is set is asked for.
    Nft(Findings),
}

/// The number of a token that was minted.
pub open spec fn mint_token(m: JsonV) -> Option<nat> {
    let other = match member(m, "tokenId"@) {
        Some(x) => u64_of(x),
        None => None,
    };
    match member(m, "token_id"@) {
        Some(x) => match u64_of(x) {
            Some(n) => Some(n),
            None => other,
        },
        None => other,
    }
}

/// A token that was minted, with its page.
pub open spec fn mint_v(m: JsonV, nft: Seq<char>) -> JsonV {
    match mint_token(m) {
        Some(t) => with_member(m, "basescan_url"@, JsonV::Str(token_url_v(nft, t))),
        None => m,
    }
}

/// What the coordinator knows of an agent, with the pages of the tokens.
pub open spec fn enriched_v(state: JsonV, nft: Seq<char>) -> JsonV {
    match member(state, "mints"@) {
        Some(JsonV::Arr(a)) => with_member(
            state,
            "mints"@,
            JsonV::Arr(a.map_values(|m: JsonV| mint_v(m, nft))),
        ),
        _ => state,
    }
}

fn read_token(m: &Json) -> (r: Option<u64>)
    ensures
        match r {
            Some(n) => mint_token(m@) == Some(n as nat),
            None => mint_token(m@) is None,
        },
{
    match m.get("token_id") {
        Some(x) => match x.as_u64() {
            Some(n) => {
                return Some(n);
            },
            None => {},
        },
        None => {},
    }
    match m.get("tokenId") {
        Some(x) => x.as_u64(),
        None => None,
    }
}

fn mint_page(m: &Json, nft: &str) -> (r: Json)
    ensures
        r@ == mint_v(m@, nft@),
{
    match read_token(m) {
        Some(t) => m.copy().with("basescan_url", Json::Str(token_url(nft, t))),
        None => m.copy(),
    }
}

/// What the coordinator knows of an agent, with the pages of the tokens.
pub fn enrich(state: &Json, nft: &str) -> (r: Json)
    ensures
        r@ == enriched_v(state@, nft@),
{
    match state.get("mints") {
        Some(Json::Arr(a)) => {
            let n = a.len();
            let mut out: Vec<Json> = Vec::new();
            let ghost before = arr_v(a@);
            let ghost after = before.map_values(|m: JsonV| mint_v(m, nft@));
            proof {
                lemma_arr_v(a@);
                assert(arr_v(out@) =~= after.take(0));
            }
            for i in 0..n
                invariant
                    n == a@.len(),
                    before == arr_v(a@),
                    before.len() == n,
                    forall|j: int| 0 <= j < n ==> before[j] == #[trigger] a@[j]@,
                    after == before.map_values(|m: JsonV| mint_v(m, nft@)),
                    arr_v(out@) == after.take(i as int),
            {
                let m = mint_page(&a[i], nft);
                proof {
                    lemma_arr_push(out@, m);
                    assert(before[i as int] == a@[i as int]@);
                    assert(after[i as int] == m@);
                    assert(after.take(i + 1) =~= after.take(i as int).push(after[i as int]));
                }
                out.push(m);
            }
            assert(after.take(n as int) =~= after);
            state.copy().with("mints", Json::Arr(out))
        },
        _ => state.copy(),
    }
}

/// What the coordinator knows of the agent, with the pages of the tokens.
pub open spec fn state_v(state: Option<Json>, nft: Seq<char>) -> Option<JsonV> {
    match state {
        Some(v) => Some(enriched_v(v@, nft)),
        None => None,
    }
}

/// The output of the status command.
pub open spec fn status_v(f: Findings, nft: Seq<char>) -> OutputV {
    let state = state_v(f.state, nft);
    let page = "https://basescan.org"@ + "/address/"@ + f.address@;
    let o = with_member(empty_object(), "address"@, JsonV::Str(f.address@));
    let o = with_member(o, "address_url"@, JsonV::Str(page));
    let o = with_member(o, "registered"@, JsonV::Bool(f.registered));
    let o = with_member(o, "balance_eth"@, JsonV::Num(f.gas.balance.json@));
    let o = with_member(o, "coord_reachable"@, JsonV::Bool(f.reachable));
    let o = with_member(
        o,
        "agent_state"@,
        match state {
            Some(v) => v,
            None => JsonV::Null,
        },
    );
    success_v(
        joined(
            seq![
                "Agent address     : "@ + f.address@,
                "Basescan          : "@ + page,
                "AWP registered    : "@ + (if f.registered {
                    "yes"@
                } else {
                    "no"@
                }),
                "Base ETH balance  : "@ + f.gas.balance.d6@ + " ETH"@,
                "Coordinator       : "@ + (if f.reachable {
                    "reachable"@
                } else {
                    "UNREACHABLE"@
                }),
                "Stake state       : "@ + (match state {
                    Some(v) => json_text(v),
                    None => "(no state)"@,
                }),
            ],
            "\n"@,
        ),
        o,
        next_v("review"@, Some("ardi-agent preflight"@)),
    )
}

/// The output of the status command.
pub fn report(f: &Findings, nft: &str) -> (r: Output)
    ensures
        r@ == status_v(*f, nft@),
{
    let state = match &f.state {
        Some(v) => Some(enrich(v, nft)),
        None => None,
    };
    let page = cat3("https://basescan.org", "/address/", f.address.as_str());
    let text = match &state {
        Some(v) => v.render(),
        None => "(no state)".to_owned(),
    };
    let ghost sv = state_v(f.state, nft@);
    assert(match state {
        Some(v) => sv == Some(v@) && text@ == json_text(v@),
        None => sv is None && text@ == "(no state)"@,
    });
    let mut lines: Vec<String> = Vec::new();
    lines.push(cat2("Agent address     : ", f.address.as_str()));
    lines.push(cat2("Basescan          : ", page.as_str()));
    lines.push(cat2("AWP registered    : ", if f.registered {
        "yes"
    } else {
        "no"
    }));
    lines.push(cat3("Base ETH balance  : ", f.gas.balance.d6.as_str(), " ETH"));
    lines.push(cat2("Coordinator       : ", if f.reachable {
        "reachable"
    } else {
        "UNREACHABLE"
    }));
    lines.push(cat2("Stake state       : ", text.as_str()));
    assert(texts(lines@) =~= seq![
        "Agent address     : "@ + f.address@,
        "Basescan          : "@ + page@,
        "AWP registered    : "@ + (if f.registered {
            "yes"@
        } else {
            "no"@
        }),
        "Base ETH balance  : "@ + f.gas.balance.d6@ + " ETH"@,
        "Coordinator       : "@ + (if f.reachable {
            "reachable"@
        } else {
            "UNREACHABLE"@
        }),
        "Stake state       : "@ + (match sv {
            Some(v) => json_text(v),
            None => "(no state)"@,
        }),
    ]);
    let message = join(&lines, "\n");
    let shown = match state {
        Some(v) => v,
        None => Json::Null,
    };
    let o = Json::object().with("address", Json::text(f.address.as_str())).with(
        "address_url",
        Json::Str(page),
    ).with("registered", Json::Bool(f.registered)).with(
        "balance_eth",
        Json::Num(f.gas.balance.json.clone()),
    ).with("coord_reachable", Json::Bool(f.reachable)).with("agent_state", shown);
    Output::success(message, o, Internal::run("review", "ardi-agent preflight"))
}

/// What comes next in the status command.
pub open spec fn status_next(s: Status, reply: Reply, r: Step<Status, Outcome>) -> bool {
    match (s, reply) {
        (Status::Address, Reply::Text(Ok(t))) => {
            &&& r matches Step::Act(Status::Registered(u), a)
            &&& u == t
            &&& a@ == ActionV::CheckRegistered(t@)
        },
        (Status::Address, Reply::Text(Err(f))) => fails(r, f@),
        (Status::Registered(t), Reply::Flag(x)) => {
            &&& r matches Step::Act(Status::Gas(u, registered), a)
            &&& u == t
            &&& registered == (x == Ok::<bool, Fault>(true))
            &&& a@ == ActionV::Balance(t@)
        },
        (Status::Gas(t, b), Reply::Gas(Ok(g))) => {
            &&& r matches Step::Act(Status::Ping(u, c, h), a)
            &&& u == t
            &&& c == b
            &&& h == g
            &&& a@ == ActionV::Get("/v1/health"@)
        },
        (Status::Gas(_, _), Reply::Gas(Err(f))) => fails(r, f@),
        (Status::Ping(t, b, g), Reply::Doc(d)) => {
            &&& r matches Step::Act(Status::State(u, c, h, reachable), a)
            &&& u == t
            &&& c == b
            &&& h == g
            &&& reachable == (d is Ok)
            &&& a@ == ActionV::TryGet("/v1/agent/"@ + t@ + "/state"@)
        },
        (Status::State(t, b, g, p), Reply::Found(d)) => {
            &&& r matches Step::Act(Status::Nft(f), a)
            &&& f.address == t
            &&& f.registered == b
            &&& f.gas == g
            &&& f.reachable == p
            &&& f.state == (match d {
                Ok(x) => x,
                Err(_) => None,
            })
            &&& a@ == ActionV::Env("ARDI_NFT_ADDR"@)
        },
        (Status::Nft(f), Reply::Maybe(set)) => prints(
            r,
            status_v(
                f,
                set_or(opt_text_view(set), "0xf68425D0d451699d0d766150634E436Acd2F05A1"@),
            ),
        ),
        _ => fails(r, stray_v()),
    }
}

/// Starts the status command.
pub fn run() -> (r: Step<Status, Outcome>)
    ensures
        r matches Step::Act(Status::Address, a) && a@ == ActionV::Address,
{
    Step::Act(Status::Address, Action::Address)
}

impl Status {
    /// Goes on with the reply.
    pub fn step(self, reply: Reply) -> (r: Step<Status, Outcome>)
        ensures
            status_next(self, reply, r),
    {
        match (self, reply) {
            (Status::Address, Reply::Text(Ok(t))) => {
                let a = Action::CheckRegistered(t.clone());
                Step::Act(Status::Registered(t), a)
            },
            (Status::Address, Reply::Text(Err(f))) => fail(f),
            (Status::Registered(t), Reply::Flag(x)) => {
                let registered = match x {
                    Ok(b) => b,
                    Err(_) => false,
                };
                let a = Action::Balance(t.clone());
                Step::Act(Status::Gas(t, registered), a)
            },
            (Status::Gas(t, b), Reply::Gas(Ok(g))) => Step::Act(
                Status::Ping(t, b, g),
                Action::Get("/v1/health".to_owned()),
            ),
            (Status::Gas(_, _), Reply::Gas(Err(f))) => fail(f),
            (Status::Ping(t, b, g), Reply::Doc(d)) => {
                let path = cat3("/v1/agent/", t.as_str(), "/state");
                Step::Act(Status::State(t, b, g, d.is_ok()), Action::TryGet(path))
            },
            (Status::State(t, b, g, p), Reply::Found(d)) => {
                let state = match d {
                    Ok(x) => x,
                    Err(_) => None,
                };
                let f = Findings { address: t, registered: b, gas: g, reachable: p, state };
                Step::Act(Status::Nft(f), Action::Env("ARDI_NFT_ADDR".to_owned()))
            },
            (Status::Nft(f), Reply::Maybe(set)) => {
                let nft = match set {
                    Some(t) => t,
                    None => "0xf68425D0d451699d0d766150634E436Acd2F05A1".to_owned(),
                };
                print(report(&f, nft.as_str()))
            },
            _ => fail(stray()),
        }
    }
}

/// The status tells the address, whether it is registered, its balance and whether the coordinator answers.
pub proof fn law_status_is_told(f: Findings, nft: Seq<char>)
    ensures
        member(status_v(f, nft).data, "address"@) == Some(JsonV::Str(f.address@)),
        member(status_v(f, nft).data, "registered"@) == Some(JsonV::Bool(f.registered)),
        member(status_v(f, nft).data, "balance_eth"@) == Some(JsonV::Num(f.gas.balance.json@)),
        member(status_v(f, nft).data, "coord_reachable"@) == Some(JsonV::Bool(f.reachable)),
        f.state is None ==> member(status_v(f, nft).data, "agent_state"@) == Some(JsonV::Null),
{
    reveal_strlit("address");
    reveal_strlit("registered");
    reveal_strlit("balance_eth");
    reveal_strlit("coord_reachable");
    reveal_strlit("address_url");
    reveal_strlit("agent_state");
    assert("address"@.len() == 7);
    assert("registered"@.len() == 10);
    assert("balance_eth"@.len() == 11 && "balance_eth"@[0] == 'b');
    assert("address_url"@.len() == 11 && "address_url"@[0] == 'a' && "address_url"@[1] == 'd');
    assert("agent_state"@.len() == 11 && "agent_state"@[0] == 'a' && "agent_state"@[1] == 'g');
    assert("coord_reachable"@.len() == 15);
}

/// The status is that of one address: its registration, its balance and what the coordinator knows of it.
pub proof fn law_status_is_of_the_address(s: Status, reply: Reply, r: Step<Status, Outcome>)
    requires
        status_next(s, reply, r),
    ensures
        r matches Step::Act(Status::Registered(t), a) ==> reply == Reply::Text(Ok::<String, Fault>(t)) && a@
            == ActionV::CheckRegistered(t@),
        r matches Step::Act(Status::Gas(t, yes), a) ==> s == Status::Registered(t) && a@ == ActionV::Balance(t@) && (yes <==>
        reply == Reply::Flag(Ok::<bool, Fault>(true))),
        r matches Step::Act(Status::State(t, yes, g, up), a) ==> s == Status::Ping(t, yes, g) && a@ == ActionV::TryGet(
            "/v1/agent/"@ + t@ + "/state"@,
        ) && (up <==> (reply matches Reply::Doc(Ok(_)))),
        r matches Step::Act(Status::Nft(f), _) ==> (s matches Status::State(t, yes, g, up) && f.address == t && f.registered
            == yes && f.gas == g && f.reachable == up && (reply matches Reply::Found(Ok(x)) ==> f.state == x)),
{
}

} // verus!
