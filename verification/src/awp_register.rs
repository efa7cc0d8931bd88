//! Registration on the network, without gas: the agent signs, a relay submits.
use vstd::prelude::*;

use crate::awp_rpc::ends_doc;
use crate::clock::{later, later_v, unix_now};
use crate::fault::{caused_v, fault_v, Fault};
use crate::flow::{stray, stray_v, Action, ActionV, Posted, Reply, Step};
use crate::json::{bool_of, empty_object, json_text, member, num_v, with_member, Json, JsonV};
use crate::num::{dec, dec_text};
use crate::rpc::{request, request_v};
use crate::schema::{
    nonce_get_defect, parse, refused_v, registry_get_defect, text_slot, uint_slot, DefectV,
    NonceGetResult, RegistryGetResult,
};
use crate::text::{cat2, cat3, cat4};

verus! {

/// How a registration went.
#[derive(Debug)]
pub struct RegistrationResult {
    /// Whether the address is registered.
    pub registered: bool,
    /// Whether it was registered just now.
    pub auto_registered: bool,
    /// This in words.
    pub message: String,
}

/// What a `RegistrationResult` says.
pub struct RegistrationV {
    pub registered: bool,
    pub auto_registered: bool,
    pub message: Seq<char>,
}

impl View for RegistrationResult {
    type V = RegistrationV;

    open spec fn view(&self) -> RegistrationV {
        RegistrationV {
            registered: self.registered,
            auto_registered: self.auto_registered,
            message: self.message@,
        }
    }
}

/// What the reply to a call of the network means: the whole document, unless it holds an error.
pub open spec fn registry_reply(method: Seq<char>, p: Posted) -> Result<JsonV, Seq<Seq<char>>> {
    match p {
        Posted::Unsent(f) => Err(caused_v("AWP JSON-RPC POST "@ + method, f@)),
        Posted::Unread(f) => Err(caused_v("AWP JSON-RPC parse "@ + method, f@)),
        Posted::Doc(v) => match member(v@, "error"@) {
            Some(e) => Err(fault_v("AWP JSON-RPC "@ + method + " error: "@ + json_text(e))),
            None => Ok(v@),
        },
    }
}

/// A call of the network: the reply to this method is waited for.
pub struct Consulting {
    pub method: String,
}

/// Starts a call of the network.
pub fn awp_jsonrpc(method: String, params: Json) -> (r: Step<Consulting, Result<Json, Fault>>)
    ensures
        r matches Step::Act(c, a) && c.method == method && a@ == ActionV::HttpPostJson(
            "https://api.awp.sh/v2"@,
            request_v(method@, params@),
            15,
        ),
{
    let req = request(method.as_str(), params);
    Step::Act(
        Consulting { method },
        Action::HttpPostJson("https://api.awp.sh/v2".to_owned(), req, 15),
    )
}

impl Consulting {
    /// Ends with the reply.
    pub fn step(self, reply: Reply) -> (r: Step<Consulting, Result<Json, Fault>>)
        ensures
            match reply {
                Reply::Posted(p) => ends_doc(r, registry_reply(self.method@, p)),
                _ => ends_doc(r, Err(stray_v())),
            },
    {
        match reply {
            Reply::Posted(Posted::Unsent(f)) => {
                let t = cat2("AWP JSON-RPC POST ", self.method.as_str());
                Step::End(Err(f.because(t.as_str())))
            },
            Reply::Posted(Posted::Unread(f)) => {
                let t = cat2("AWP JSON-RPC parse ", self.method.as_str());
                Step::End(Err(f.because(t.as_str())))
            },
            Reply::Posted(Posted::Doc(v)) => {
                match v.get("error") {
                    Some(e) => {
                        let t = e.render();
                        return Step::End(
                            Err(
                                Fault::new(
                                    cat4(
                                        "AWP JSON-RPC ",
                                        self.method.as_str(),
                                        " error: ",
                                        t.as_str(),
                                    ),
                                ),
                            ),
                        );
                    },
                    None => {},
                }
                Step::End(Ok(v))
            },
            _ => Step::End(Err(stray())),
        }
    }
}

/// A post to the relay: the reply is waited for.
pub struct Relaying {}

/// Starts a post to the relay.
pub fn relay(body: Json) -> (r: Step<Relaying, Result<Json, Fault>>)
    ensures
        r matches Step::Act(_, a) && a@ == ActionV::HttpPostJson(
            "https://api.awp.sh/api/relay/set-recipient"@,
            body@,
            15,
        ),
{
    Step::Act(
        Relaying {  },
        Action::HttpPostJson("https://api.awp.sh/api/relay/set-recipient".to_owned(), body, 15),
    )
}

impl Relaying {
    /// Ends with the reply.
    pub fn step(self, reply: Reply) -> (r: Step<Relaying, Result<Json, Fault>>)
        ensures
            match reply {
                Reply::Posted(Posted::Unsent(f)) => ends_doc(
                    r,
                    Err(caused_v("awp relay POST failed"@, f@)),
                ),
                Reply::Posted(Posted::Unread(f)) => ends_doc(
                    r,
                    Err(caused_v("awp relay returned non-JSON"@, f@)),
                ),
                Reply::Posted(Posted::Doc(v)) => ends_doc(r, Ok(v@)),
                _ => ends_doc(r, Err(stray_v())),
            },
    {
        match reply {
            Reply::Posted(Posted::Unsent(f)) => Step::End(
                Err(f.because("awp relay POST failed")),
            ),
            Reply::Posted(Posted::Unread(f)) => Step::End(
                Err(f.because("awp relay returned non-JSON")),
            ),
            Reply::Posted(Posted::Doc(v)) => Step::End(Ok(v)),
            _ => Step::End(Err(stray())),
        }
    }
}

/// Whether a reply to `address.check` says that the address is registered.
pub open spec fn registered_v(resp: JsonV) -> bool {
    match member(resp, "result"@) {
        Some(x) => match member(x, "isRegistered"@) {
            Some(b) => bool_of(b) == Some(true),
            None => false,
        },
        None => false,
    }
}

/// Whether a reply to `address.check` says that the address is registered.
pub fn is_registered(resp: &Json) -> (r: bool)
    ensures
        r == registered_v(resp@),
{
    match resp.get("result") {
        Some(x) => match x.get("isRegistered") {
            Some(b) => match b.as_bool() {
                Some(v) => v,
                None => false,
            },
            None => false,
        },
        None => false,
    }
}

/// An address on the chain, as the parameters of a call.
pub open spec fn address_params_v(address: Seq<char>) -> JsonV {
    with_member(
        with_member(empty_object(), "address"@, JsonV::Str(address)),
        "chainId"@,
        num_v(8453),
    )
}

/// An address on the chain, as the parameters of a call.
fn address_params(address: &str) -> (r: Json)
    ensures
        r@ == address_params_v(address@),
{
    Json::object().with("address", Json::text(address)).with("chainId", Json::number(8453))
}

/// Checking a registration: the reply is waited for.
pub struct Confirming {}

/// Starts to check whether an address is registered.
pub fn check_registration(address: &str) -> (r: Step<Confirming, Result<bool, Fault>>)
    ensures
        r matches Step::Act(_, a) && a@ == ActionV::Registry(
            "address.check"@,
            address_params_v(address@),
        ),
{
    Step::Act(
        Confirming {  },
        Action::Registry("address.check".to_owned(), address_params(address)),
    )
}

impl Confirming {
    /// Ends with the reply.
    pub fn step(self, reply: Reply) -> (r: Step<Confirming, Result<bool, Fault>>)
        ensures
            match reply {
                Reply::Doc(Ok(v)) => r matches Step::End(Ok(b)) && b == registered_v(v@),
                Reply::Doc(Err(f)) => r matches Step::End(Err(g)) && g == f,
                _ => r matches Step::End(Err(g)) && g@ == stray_v(),
            },
    {
        match reply {
            Reply::Doc(Ok(v)) => Step::End(Ok(is_registered(&v))),
            Reply::Doc(Err(f)) => Step::End(Err(f)),
            _ => Step::End(Err(stray())),
        }
    }
}

/// One member of a type in typed data.
pub open spec fn field_v(name: Seq<char>, kind: Seq<char>) -> JsonV {
    with_member(with_member(empty_object(), "name"@, JsonV::Str(name)), "type"@, JsonV::Str(kind))
}

/// One member of a type in typed data.
fn field(name: &str, kind: &str) -> (r: Json)
    ensures
        r@ == field_v(name@, kind@),
{
    Json::object().with("name", Json::text(name)).with("type", Json::text(kind))
}

/// The domain of the typed data.
pub open spec fn domain_v(registry: Seq<char>) -> JsonV {
    let o = with_member(empty_object(), "name"@, JsonV::Str("AWPRegistry"@));
    let o = with_member(o, "version"@, JsonV::Str("1"@));
    let o = with_member(o, "chainId"@, num_v(8453));
    with_member(o, "verifyingContract"@, JsonV::Str(registry))
}

/// The types of the typed data.
pub open spec fn types_v() -> JsonV {
    with_member(
        empty_object(),
        "SetRecipient"@,
        JsonV::Arr(
            seq![
                field_v("user"@, "address"@),
                field_v("recipient"@, "address"@),
                field_v("nonce"@, "uint256"@),
                field_v("deadline"@, "uint256"@),
            ],
        ),
    )
}

/// The message of the typed data: the address is both user and recipient.
pub open spec fn message_v(address: Seq<char>, nonce: nat, deadline: nat) -> JsonV {
    let o = with_member(empty_object(), "user"@, JsonV::Str(address));
    let o = with_member(o, "recipient"@, JsonV::Str(address));
    let o = with_member(o, "nonce"@, JsonV::Str(dec_text(nonce)));
    with_member(o, "deadline"@, JsonV::Str(dec_text(deadline)))
}

/// The typed data that register an address.
pub open spec fn typed_data_v(registry: Seq<char>, address: Seq<char>, nonce: nat, deadline: nat) -> JsonV {
    let o = with_member(empty_object(), "domain"@, domain_v(registry));
    let o = with_member(o, "types"@, types_v());
    let o = with_member(o, "primaryType"@, JsonV::Str("SetRecipient"@));
    with_member(o, "message"@, message_v(address, nonce, deadline))
}

/// The typed data that register an address.
pub fn typed_data(registry: &str, address: &str, nonce: u64, deadline: u64) -> (r: Json)
    ensures
        r@ == typed_data_v(registry@, address@, nonce as nat, deadline as nat),
{
    let domain = Json::object().with("name", Json::text("AWPRegistry")).with(
        "version",
        Json::text("1"),
    ).with("chainId", Json::number(8453)).with("verifyingContract", Json::text(registry));
    let types = Json::object().with(
        "SetRecipient",
        Json::list4(
            field("user", "address"),
            field("recipient", "address"),
            field("nonce", "uint256"),
            field("deadline", "uint256"),
        ),
    );
    let message = Json::object().with("user", Json::text(address)).with(
        "recipient",
        Json::text(address),
    ).with("nonce", Json::Str(dec(nonce))).with("deadline", Json::Str(dec(deadline)));
    Json::object().with("domain", domain).with("types", types).with(
        "primaryType",
        Json::text("SetRecipient"),
    ).with("message", message)
}

/// What the relay is sent.
pub open spec fn relay_body_v(address: Seq<char>, deadline: nat, signature: Seq<char>) -> JsonV {
    let o = with_member(empty_object(), "chainId"@, num_v(8453));
    let o = with_member(o, "user"@, JsonV::Str(address));
    let o = with_member(o, "recipient"@, JsonV::Str(address));
    let o = with_member(o, "deadline"@, num_v(deadline as int));
    with_member(o, "signature"@, JsonV::Str(signature))
}

/// What the relay is sent.
pub fn relay_body(address: &str, deadline: u64, signature: &str) -> (r: Json)
    ensures
        r@ == relay_body_v(address@, deadline as nat, signature@),
{
    Json::object().with("chainId", Json::number(8453)).with("user", Json::text(address)).with(
        "recipient",
        Json::text(address),
    ).with("deadline", Json::number(deadline)).with("signature", Json::text(signature))
}

/// Registering an address.
pub enum Registering {
    /// It is checked whether the address is registered already.
    Check(String),
    /// The registry contract is asked for.
    Contract(String),
    /// The nonce of the address is asked for.
    Nonce(String, String),
    /// The wallet signs.
    Signing(String, u64),
    /// The relay submits.
    Relayed(String),
    /// Some time passes.
    Pause(String, Json, u8),
    /// It is checked whether the address is registered now.
    Poll(String, Json, u8),
}

/// Whether a step ends with this registration.
pub open spec fn ends_registered(
    r: Step<Registering, Result<RegistrationResult, Fault>>,
    v: RegistrationV,
) -> bool {
    r matches Step::End(Ok(x)) && x@ == v
}

/// Whether a step ends with this error.
pub open spec fn ends_unregistered(
    r: Step<Registering, Result<RegistrationResult, Fault>>,
    f: Seq<Seq<char>>,
) -> bool {
    r matches Step::End(Err(x)) && x@ == f
}

/// The error of a reply without a result.
pub open spec fn no_result_v(method: Seq<char>, resp: JsonV) -> Seq<Seq<char>> {
    fault_v(method + ": missing top-level `result`; got "@ + json_text(resp))
}

/// The error of a reply without a result.
fn no_result(method: &str, resp: &Json) -> (r: Fault)
    ensures
        r@ == no_result_v(method@, resp@),
{
    let t = resp.render();
    Fault::new(cat3(method, ": missing top-level `result`; got ", t.as_str()))
}

/// What comes next when the registry contract was asked for.
pub open spec fn contract_next(
    address: String,
    resp: JsonV,
    r: Step<Registering, Result<RegistrationResult, Fault>>,
) -> bool {
    match member(resp, "result"@) {
        None => ends_unregistered(r, no_result_v("registry.get"@, resp)),
        Some(x) => match registry_get_defect(x) {
            Some(d) => ends_unregistered(r, refused_v("registry.get"@, d, x)),
            None => {
                &&& r matches Step::Act(Registering::Nonce(a, c), act)
                &&& a == address
                &&& Ok::<Option<Seq<char>>, DefectV>(Some(c@)) == text_slot(
                    x,
                    1,
                    "awpRegistry"@,
                    "awpRegistry"@,
                )
                &&& act@ == ActionV::Registry("nonce.get"@, address_params_v(address@))
            },
        },
    }
}

/// What comes next when the nonce was asked for: the wallet signs, for ten minutes from `now` on.
pub open spec fn nonce_next(
    address: String,
    registry: Seq<char>,
    resp: JsonV,
    now: i64,
    r: Step<Registering, Result<RegistrationResult, Fault>>,
) -> bool {
    match member(resp, "result"@) {
        None => ends_unregistered(r, no_result_v("nonce.get"@, resp)),
        Some(x) => match nonce_get_defect(x) {
            Some(d) => ends_unregistered(r, refused_v("nonce.get"@, d, x)),
            None => {
                &&& uint_slot(x, 0, "nonce"@, "nonce"@, u64::MAX as nat) matches Ok(Some(n))
                &&& r matches Step::Act(Registering::Signing(a, t), act)
                &&& a == address
                &&& t == later_v(now, 600)
                &&& act@ == ActionV::Sign(
                    typed_data_v(registry, address@, n, later_v(now, 600)),
                )
            },
        },
    }
}

/// The message of a registration that was not confirmed in time.
pub open spec fn unconfirmed_v(relay: JsonV) -> Seq<char> {
    "Registration submitted but not confirmed yet. Re-run preflight in 30s. Relay response: "@
        + json_text(relay)
}

/// What comes next in a registration. It is checked five times, two seconds apart, whether it took effect.
pub open spec fn registering_next(
    s: Registering,
    reply: Reply,
    r: Step<Registering, Result<RegistrationResult, Fault>>,
) -> bool {
    match (s, reply) {
        (Registering::Check(address), Reply::Flag(Ok(yes))) => if yes {
            ends_registered(
                r,
                RegistrationV {
                    registered: true,
                    auto_registered: false,
                    message: "Already registered on AWP network."@,
                },
            )
        } else {
            &&& r matches Step::Act(Registering::Contract(a), act)
            &&& a == address
            &&& act@ == ActionV::Registry(
                "registry.get"@,
                with_member(empty_object(), "chainId"@, num_v(8453)),
            )
        },
        (Registering::Contract(address), Reply::Doc(Ok(v))) => contract_next(address, v@, r),
        (Registering::Nonce(address, registry), Reply::Doc(Ok(v))) => exists|now: i64| #[trigger]
            nonce_next(address, registry@, v@, now, r),
        (Registering::Signing(address, deadline), Reply::Text(Ok(sig))) => {
            &&& r matches Step::Act(Registering::Relayed(a), act)
            &&& a == address
            &&& act@ == ActionV::Relay(relay_body_v(address@, deadline as nat, sig@))
        },
        (Registering::Signing(_, _), Reply::Text(Err(f))) => ends_unregistered(
            r,
            caused_v("awp-wallet sign-typed-data failed"@, f@),
        ),
        (Registering::Relayed(address), Reply::Doc(Ok(v))) => {
            &&& r matches Step::Act(Registering::Pause(a, w, n), act)
            &&& a == address
            &&& w == v
            &&& n == 0
            &&& act@ == ActionV::Sleep(2)
        },
        (Registering::Pause(address, w, n), Reply::Done(_)) => {
            &&& r matches Step::Act(Registering::Poll(a, x, m), act)
            &&& a == address
            &&& x == w
            &&& m == n
            &&& act@ == ActionV::CheckRegistered(address@)
        },
        (Registering::Poll(address, w, n), Reply::Flag(Ok(yes))) => if yes {
            ends_registered(
                r,
                RegistrationV {
                    registered: true,
                    auto_registered: true,
                    message: "Auto-registered on AWP network (gasless)."@,
                },
            )
        } else if n < 4 {
            &&& r matches Step::Act(Registering::Pause(a, x, m), act)
            &&& a == address
            &&& x == w
            &&& m == n + 1
            &&& act@ == ActionV::Sleep(2)
        } else {
            ends_registered(
                r,
                RegistrationV {
                    registered: false,
                    auto_registered: false,
                    message: unconfirmed_v(w@),
                },
            )
        },
        (Registering::Check(_), Reply::Flag(Err(f))) => ends_unregistered(r, f@),
        (Registering::Contract(_), Reply::Doc(Err(f))) => ends_unregistered(r, f@),
        (Registering::Nonce(_, _), Reply::Doc(Err(f))) => ends_unregistered(r, f@),
        (Registering::Relayed(_), Reply::Doc(Err(f))) => ends_unregistered(r, f@),
        (Registering::Poll(_, _, _), Reply::Flag(Err(f))) => ends_unregistered(r, f@),
        _ => ends_unregistered(r, stray_v()),
    }
}

/// Starts to make sure that an address is registered.
pub fn ensure_registered(address: String) -> (r: Step<Registering, Result<RegistrationResult, Fault>>)
    ensures
        r matches Step::Act(Registering::Check(a), act) && a == address && act@
            == ActionV::CheckRegistered(address@),
{
    let act = Action::CheckRegistered(address.clone());
    Step::Act(Registering::Check(address), act)
}

/// Goes on with the registry contract.
pub fn with_contract(address: String, resp: &Json) -> (r: Step<
    Registering,
    Result<RegistrationResult, Fault>,
>)
    ensures
        contract_next(address, resp@, r),
{
    match resp.get("result") {
        None => Step::End(Err(no_result("registry.get", resp))),
        Some(x) => match parse::<RegistryGetResult>("registry.get", x) {
            Err(f) => Step::End(Err(f)),
            Ok(reg) => {
                let params = address_params(address.as_str());
                Step::Act(
                    Registering::Nonce(address, reg.awp_registry),
                    Action::Registry("nonce.get".to_owned(), params),
                )
            },
        },
    }
}

/// Goes on with the nonce at the time `now`.
pub fn with_nonce(address: String, registry: &str, resp: &Json, now: i64) -> (r: Step<
    Registering,
    Result<RegistrationResult, Fault>,
>)
    ensures
        nonce_next(address, registry@, resp@, now, r),
{
    match resp.get("result") {
        None => Step::End(Err(no_result("nonce.get", resp))),
        Some(x) => match parse::<NonceGetResult>("nonce.get", x) {
            Err(f) => Step::End(Err(f)),
            Ok(n) => {
                let deadline = later(now, 600);
                let typed = typed_data(registry, address.as_str(), n.nonce, deadline);
                Step::Act(Registering::Signing(address, deadline), Action::Sign(typed))
            },
        },
    }
}

impl Registering {
    /// Goes on with the reply.
    pub fn step(self, reply: Reply) -> (r: Step<Registering, Result<RegistrationResult, Fault>>)
        ensures
            registering_next(self, reply, r),
    {
        match (self, reply) {
            (Registering::Check(address), Reply::Flag(Ok(yes))) => {
                if yes {
                    Step::End(
                        Ok(
                            RegistrationResult {
                                registered: true,
                                auto_registered: false,
                                message: "Already registered on AWP network.".to_owned(),
                            },
                        ),
                    )
                } else {
                    Step::Act(
                        Registering::Contract(address),
                        Action::Registry(
                            "registry.get".to_owned(),
                            Json::object().with("chainId", Json::number(8453)),
                        ),
                    )
                }
            },
            (Registering::Contract(address), Reply::Doc(Ok(v))) => with_contract(address, &v),
            (Registering::Nonce(address, registry), Reply::Doc(Ok(v))) => {
                let now = unix_now();
                let r = with_nonce(address, registry.as_str(), &v, now);
                assert(nonce_next(address, registry@, v@, now, r));
                r
            },
            (Registering::Signing(address, deadline), Reply::Text(Ok(sig))) => {
                let body = relay_body(address.as_str(), deadline, sig.as_str());
                Step::Act(Registering::Relayed(address), Action::Relay(body))
            },
            (Registering::Signing(_, _), Reply::Text(Err(f))) => Step::End(
                Err(f.because("awp-wallet sign-typed-data failed")),
            ),
            (Registering::Relayed(address), Reply::Doc(Ok(v))) => Step::Act(
                Registering::Pause(address, v, 0),
                Action::Sleep(2),
            ),
            (Registering::Pause(address, w, n), Reply::Done(_)) => {
                let act = Action::CheckRegistered(address.clone());
                Step::Act(Registering::Poll(address, w, n), act)
            },
            (Registering::Poll(address, w, n), Reply::Flag(Ok(yes))) => {
                if yes {
                    Step::End(
                        Ok(
                            RegistrationResult {
                                registered: true,
                                auto_registered: true,
                                message: "Auto-registered on AWP network (gasless).".to_owned(),
                            },
                        ),
                    )
                } else if n < 4 {
                    Step::Act(Registering::Pause(address, w, n + 1), Action::Sleep(2))
                } else {
                    let t = w.render();
                    Step::End(
                        Ok(
                            RegistrationResult {
                                registered: false,
                                auto_registered: false,
                                message: cat2(
                                    "Registration submitted but not confirmed yet. Re-run preflight in 30s. Relay response: ",
                                    t.as_str(),
                                ),
                            },
                        ),
                    )
                }
            },
            (Registering::Check(_), Reply::Flag(Err(f))) => Step::End(Err(f)),
            (Registering::Contract(_), Reply::Doc(Err(f))) => Step::End(Err(f)),
            (Registering::Nonce(_, _), Reply::Doc(Err(f))) => Step::End(Err(f)),
            (Registering::Relayed(_), Reply::Doc(Err(f))) => Step::End(Err(f)),
            (Registering::Poll(_, _, _), Reply::Flag(Err(f))) => Step::End(Err(f)),
            _ => Step::End(Err(stray())),
        }
    }
}

/// What the wallet signs and what the relay is handed are about the same address, as the user and as the recipient, with the
/// nonce and the deadline that they state.
pub proof fn law_registration_is_for_the_address(registry: Seq<char>, address: Seq<char>, nonce: nat, deadline: nat, signature: Seq<char>)
    ensures
        member(message_v(address, nonce, deadline), "user"@) == Some(JsonV::Str(address)),
        member(message_v(address, nonce, deadline), "recipient"@) == Some(JsonV::Str(address)),
        member(message_v(address, nonce, deadline), "nonce"@) == Some(JsonV::Str(dec_text(nonce))),
        member(message_v(address, nonce, deadline), "deadline"@) == Some(JsonV::Str(dec_text(deadline))),
        member(typed_data_v(registry, address, nonce, deadline), "message"@) == Some(message_v(address, nonce, deadline)),
        member(typed_data_v(registry, address, nonce, deadline), "domain"@) == Some(domain_v(registry)),
        member(typed_data_v(registry, address, nonce, deadline), "types"@) == Some(types_v()),
        member(typed_data_v(registry, address, nonce, deadline), "primaryType"@) == Some(JsonV::Str("SetRecipient"@)),
        member(domain_v(registry), "verifyingContract"@) == Some(JsonV::Str(registry)),
        member(domain_v(registry), "chainId"@) == Some(num_v(8453)),
        member(domain_v(registry), "name"@) == Some(JsonV::Str("AWPRegistry"@)),
        member(domain_v(registry), "version"@) == Some(JsonV::Str("1"@)),
        member(relay_body_v(address, deadline, signature), "user"@) == Some(JsonV::Str(address)),
        member(relay_body_v(address, deadline, signature), "recipient"@) == Some(JsonV::Str(address)),
        member(relay_body_v(address, deadline, signature), "deadline"@) == Some(num_v(deadline as int)),
        member(relay_body_v(address, deadline, signature), "signature"@) == Some(JsonV::Str(signature)),
        member(relay_body_v(address, deadline, signature), "chainId"@) == Some(num_v(8453)),
        member(address_params_v(address), "address"@) == Some(JsonV::Str(address)),
        member(address_params_v(address), "chainId"@) == Some(num_v(8453)),
{
    reveal_strlit("user");
    reveal_strlit("recipient");
    reveal_strlit("nonce");
    reveal_strlit("deadline");
    reveal_strlit("message");
    reveal_strlit("domain");
    reveal_strlit("types");
    reveal_strlit("primaryType");
    reveal_strlit("verifyingContract");
    reveal_strlit("chainId");
    reveal_strlit("name");
    reveal_strlit("version");
    reveal_strlit("signature");
    reveal_strlit("address");
    assert("user"@.len() == 4 && "user"@[0] == 'u');
    assert("name"@.len() == 4 && "name"@[0] == 'n');
    assert("recipient"@.len() == 9 && "recipient"@[0] == 'r');
    assert("signature"@.len() == 9 && "signature"@[0] == 's');
    assert("nonce"@.len() == 5 && "nonce"@[0] == 'n');
    assert("types"@.len() == 5 && "types"@[0] == 't');
    assert("deadline"@.len() == 8);
    assert("message"@.len() == 7 && "message"@[0] == 'm');
    assert("chainId"@.len() == 7 && "chainId"@[0] == 'c');
    assert("version"@.len() == 7 && "version"@[0] == 'v');
    assert("address"@.len() == 7 && "address"@[0] == 'a');
    assert("domain"@.len() == 6);
    assert("primaryType"@.len() == 11);
    assert("verifyingContract"@.len() == 17);
}

/// A registration is asked for, signed, relayed and looked for under one address, and the relay is handed the deadline
/// that was signed. It is said to be there only where the network says so, and where it was not there before, only after
/// the relay was asked.
pub proof fn law_registration_keeps_the_address(s: Registering, reply: Reply, r: Step<Registering, Result<RegistrationResult, Fault>>)
    requires
        registering_next(s, reply, r),
    ensures
        r matches Step::Act(Registering::Contract(a), _) ==> s == Registering::Check(a) && reply == Reply::Flag(Ok(false)),
        r matches Step::Act(Registering::Nonce(a, _), act) ==> s == Registering::Contract(a) && act@ == ActionV::Registry(
            "nonce.get"@,
            address_params_v(a@),
        ),
        r matches Step::Act(Registering::Signing(a, deadline), act) ==> ({
            &&& s matches Registering::Nonce(b, registry)
            &&& b == a
            &&& act@ matches ActionV::Sign(doc)
            &&& exists|nonce: nat| doc == #[trigger] typed_data_v(registry@, a@, nonce, deadline as nat)
            &&& exists|now: i64| deadline == #[trigger] later_v(now, 600)
        }),
        r matches Step::Act(Registering::Relayed(a), act) ==> ({
            &&& s matches Registering::Signing(b, deadline)
            &&& b == a
            &&& reply matches Reply::Text(Ok(sig))
            &&& act@ == ActionV::Relay(relay_body_v(a@, deadline as nat, sig@))
        }),
        r matches Step::Act(Registering::Poll(a, _, _), act) ==> (s matches Registering::Pause(b, _, _) && b == a && act@
            == ActionV::CheckRegistered(a@)),
        r matches Step::Act(Registering::Pause(_, _, n), _) ==> n == 0 || (s matches Registering::Poll(_, _, m) && n == m + 1 && n
            <= 4),
        r matches Step::End(Ok(x)) ==> ({
            &&& x.registered ==> reply == Reply::Flag(Ok(true))
            &&& x.auto_registered <==> s is Poll && reply == Reply::Flag(Ok(true))
            &&& !x.registered ==> (s matches Registering::Poll(_, _, n) && n >= 4)
        }),
{
}

/// The typed data have the four members in the order in which they are hashed: the user, the recipient, the nonce and the
/// deadline, two addresses and two numbers.
pub proof fn law_typed_data_order()
    ensures
        member(types_v(), "SetRecipient"@) matches Some(JsonV::Arr(a)) && a.len() == 4 && member(a[0], "name"@) == Some(
            JsonV::Str("user"@),
        ) && member(a[1], "name"@) == Some(JsonV::Str("recipient"@)) && member(a[2], "name"@) == Some(
            JsonV::Str("nonce"@),
        ) && member(a[3], "name"@) == Some(JsonV::Str("deadline"@)) && member(a[0], "type"@) == Some(
            JsonV::Str("address"@),
        ) && member(a[1], "type"@) == Some(JsonV::Str("address"@)) && member(a[2], "type"@) == Some(
            JsonV::Str("uint256"@),
        ) && member(a[3], "type"@) == Some(JsonV::Str("uint256"@)),
{
    reveal_strlit("name");
    reveal_strlit("type");
    assert("name"@[0] == 'n' && "type"@[0] == 't');
}

} // verus!
