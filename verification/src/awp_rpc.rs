//! The staking network's JSON-RPC interface, by which the stakers of an agent are found.
use vstd::prelude::*;

use crate::address::{address_views, ascending, insert_ascending, parsed_address, Address};
use crate::fault::{caused_v, fault_v, text_result, Fault};
use crate::flow::{stray, stray_v, Action, ActionV, Reply, Response, Step};
use crate::json::{empty_object, json_parsed, json_text, member, num_v, str_of, u64_of, with_member, Json, JsonV};
use crate::num::{dec, dec_text};
use crate::rpc::{request, request_v};
use crate::schema::{
    allocation_row_defect, amount_slot, bool_slot, decode_list, defect_text, int_slot, list_defect,
    list_holds, opt_text_view, text_slot, Defect, DefectV, Shape,
};
use crate::text::{cat2, cat4};
use crate::u256::{parsed_u256, U256};

verus! {

/// What a staker allocated to an agent.
#[derive(Debug)]
pub struct AllocationRow {
    /// The chain.
    pub chain_id: i64,
    /// The staker.
    pub user_address: String,
    /// The amount in the smallest unit, in decimal.
    pub amount: String,
    /// Whether the allocation is frozen.
    pub frozen: bool,
}

/// Whether `e` is what a row says. The amount comes as a number or as a text.
pub open spec fn row_holds(v: JsonV, e: AllocationRow) -> bool {
    &&& Ok::<Option<i64>, DefectV>(Some(e.chain_id)) == int_slot(v, 0, "chain_id"@, "chain_id"@)
    &&& Ok::<Option<Seq<char>>, DefectV>(Some(e.user_address@)) == text_slot(
        v,
        1,
        "user_address"@,
        "user_address"@,
    )
    &&& Ok::<Option<Seq<char>>, DefectV>(Some(e.amount@)) == amount_slot(v, 2, "amount"@)
    &&& Ok::<Option<bool>, DefectV>(Some(e.frozen)) == bool_slot(v, 3, "frozen"@)
}

impl AllocationRow {
    /// The row with the members of a row of the schema.
    fn of(row: crate::schema::AllocationRow) -> (r: AllocationRow)
        ensures
            r.chain_id == row.chain_id,
            r.user_address == row.user_address,
            r.amount == row.amount,
            r.frozen == row.frozen,
    {
        AllocationRow {
            chain_id: row.chain_id,
            user_address: row.user_address,
            amount: row.amount,
            frozen: row.frozen,
        }
    }
}

impl Shape for AllocationRow {
    open spec fn defect(v: JsonV) -> Option<DefectV> {
        allocation_row_defect(v)
    }

    open spec fn holds(v: JsonV, e: AllocationRow) -> bool {
        row_holds(v, e)
    }

    fn decode(v: &Json) -> (r: Result<AllocationRow, Defect>) {
        match crate::schema::AllocationRow::decode(v) {
            Ok(row) => Ok(AllocationRow::of(row)),
            Err(d) => Err(d),
        }
    }
}

/// The error of rows that could not be read.
pub open spec fn rows_fault(result: JsonV) -> Option<Seq<Seq<char>>> {
    match result {
        JsonV::Arr(a) => match list_defect::<AllocationRow>(a) {
            Some(d) => Some(caused_v("decode allocation rows"@, fault_v(defect_text(d)))),
            None => None,
        },
        _ => Some(caused_v("decode allocation rows"@, fault_v("expected an array"@))),
    }
}

/// Reads the rows of `staking.getAllocationsByAgentSubnet`.
pub fn read_allocations(result: &Json) -> (r: Result<Vec<AllocationRow>, Fault>)
    ensures
        match r {
            Ok(rows) => rows_fault(result@) is None && result@ is Arr && list_holds::<AllocationRow>(
                result@->Arr_0,
                rows@,
            ),
            Err(f) => rows_fault(result@) == Some(f@),
        },
{
    match result {
        Json::Arr(a) => match decode_list::<AllocationRow>(a) {
            Ok(rows) => Ok(rows),
            Err(d) => {
                let t = d.text();
                Err(Fault::new(t).because("decode allocation rows"))
            },
        },
        _ => Err(Fault::of("expected an array").because("decode allocation rows")),
    }
}

/// Whether a text states an amount above zero.
pub open spec fn positive_amount(t: Seq<char>) -> bool {
    parsed_u256(t) matches Some(n) && n > 0
}

/// The staker of a row, where the row has a valid address and, if that is asked for, an amount above zero.
pub open spec fn row_backer(v: JsonV, positive: bool) -> Option<Seq<u8>> {
    match (amount_slot(v, 2, "amount"@), text_slot(v, 1, "user_address"@, "user_address"@)) {
        (Ok(Some(t)), Ok(Some(u))) => if positive ==> positive_amount(t) {
            parsed_address(u)
        } else {
            None
        },
        _ => None,
    }
}

/// The stakers of some rows.
pub open spec fn row_backers(rows: Seq<JsonV>, positive: bool) -> Set<Seq<u8>>
    decreases rows.len(),
{
    if rows.len() == 0 {
        Set::empty()
    } else {
        match row_backer(rows.last(), positive) {
            Some(a) => row_backers(rows.drop_last(), positive).insert(a),
            None => row_backers(rows.drop_last(), positive),
        }
    }
}

/// The stakers that the network names. A reply that cannot be had or read names none.
pub open spec fn backers(reply: Result<Json, Fault>, positive: bool) -> Set<Seq<u8>> {
    match reply {
        Ok(v) => match v@ {
            JsonV::Arr(rows) => if rows_fault(v@) is None {
                row_backers(rows, positive)
            } else {
                Set::empty()
            },
            _ => Set::empty(),
        },
        Err(_) => Set::empty(),
    }
}

/// Adds the stakers that the network names to an ascending list.
pub fn add_backers(known: Vec<Address>, reply: &Result<Json, Fault>, positive: bool) -> (r: Vec<Address>)
    requires
        ascending(address_views(known@)),
    ensures
        ascending(address_views(r@)),
        address_views(r@).to_set() == address_views(known@).to_set().union(backers(*reply, positive)),
{
    let mut list = known;
    let ghost before = address_views(known@).to_set();
    assert(before =~= before.union(Set::empty()));
    match reply {
        Err(_) => list,
        Ok(v) => match read_allocations(v) {
            Err(_) => list,
            Ok(rows) => {
                let n = rows.len();
                let ghost docs = v@->Arr_0;
                assert(docs.take(0).len() == 0);
                for i in 0..n
                    invariant
                        n == rows@.len(),
                        list_holds::<AllocationRow>(docs, rows@),
                        ascending(address_views(list@)),
                        address_views(list@).to_set() == before.union(row_backers(docs.take(i as int), positive)),
                {
                    proof {
                        assert(docs.take(i + 1).drop_last() =~= docs.take(i as int));
                        assert(docs.take(i + 1).last() == docs[i as int]);
                        assert(AllocationRow::holds(docs[i as int], rows@[i as int]));
                        assert(row_holds(docs[i as int], rows@[i as int]));
                    }
                    let ghost old_set = address_views(list@).to_set();
                    let above_zero = match U256::from_decimal(rows[i].amount.as_str()) {
                        Some(amount) => !amount.is_zero(),
                        None => false,
                    };
                    if above_zero || !positive {
                        match Address::parse(rows[i].user_address.as_str()) {
                            Ok(a) => {
                                insert_ascending(&mut list, a);
                                assert(old_set.insert(a@) =~= before.union(
                                    row_backers(docs.take(i as int), positive).insert(a@),
                                ));
                            },
                            Err(_) => {},
                        }
                    }
                }
                assert(docs.take(n as int) =~= docs);
                list
            },
        },
    }
}

/// The parameters that ask who backs an agent in a worknet, on one chain or on all.
pub open spec fn allocations_params_v(agent: Seq<char>, worknet: Seq<char>, chain: Option<i64>) -> JsonV {
    let o = with_member(empty_object(), "agent"@, JsonV::Str(agent));
    let o = with_member(o, "worknetId"@, JsonV::Str(worknet));
    match chain {
        Some(c) => with_member(o, "chainId"@, num_v(c as int)),
        None => o,
    }
}

/// The action that asks who backs an agent in a worknet.
pub fn allocations_by_agent_worknet(agent: &str, worknet_id: &str, chain_id: Option<i64>) -> (r: Action)
    ensures
        r@ == ActionV::Awp(
            "staking.getAllocationsByAgentSubnet"@,
            allocations_params_v(agent@, worknet_id@, chain_id),
        ),
{
    let o = Json::object().with("agent", Json::text(agent)).with("worknetId", Json::text(worknet_id));
    let params = match chain_id {
        Some(c) => o.with("chainId", Json::signed(c)),
        None => o,
    };
    Action::Awp("staking.getAllocationsByAgentSubnet".to_owned(), params)
}

/// The action that asks for the whole stake of an agent in a worknet.
pub fn agent_worknet_stake(agent: &str, worknet_id: &str) -> (r: Action)
    ensures
        r@ == ActionV::Awp(
            "staking.getAgentWorknetStake"@,
            allocations_params_v(agent@, worknet_id@, None),
        ),
{
    let o = Json::object().with("agent", Json::text(agent)).with("worknetId", Json::text(worknet_id));
    Action::Awp("staking.getAgentWorknetStake".to_owned(), o)
}

/// The amount that `staking.getAgentWorknetStake` states, as a text or as a 64-bit number.
pub open spec fn stake_amount(result: JsonV) -> Result<Seq<char>, Seq<Seq<char>>> {
    let none = Err(fault_v("agent_worknet_stake: missing `amount` in "@ + json_text(result)));
    match member(result, "amount"@) {
        Some(x) => match (str_of(x), u64_of(x)) {
            (Some(t), _) => Ok(t),
            (None, Some(n)) => Ok(dec_text(n)),
            (None, None) => none,
        },
        None => none,
    }
}

/// Reads the amount that `staking.getAgentWorknetStake` states.
pub fn read_stake(result: &Json) -> (r: Result<String, Fault>)
    ensures
        text_result(r) == stake_amount(result@),
{
    match result.get("amount") {
        Some(x) => {
            match x.as_str() {
                Some(t) => {
                    return Ok(t.to_owned());
                },
                None => {},
            }
            match x.as_u64() {
                Some(n) => {
                    return Ok(dec(n));
                },
                None => {},
            }
        },
        None => {},
    }
    let t = result.render();
    Err(Fault::new(cat2("agent_worknet_stake: missing `amount` in ", t.as_str())))
}

/// What a response of the network means.
pub open spec fn awp_result(status: u16, text: Seq<char>) -> Result<JsonV, Seq<Seq<char>>> {
    if !(200 <= status < 300) {
        Err(fault_v("HTTP "@ + dec_text(status as nat) + " from awp rpc: "@ + text))
    } else {
        match json_parsed(text) {
            Err(e) => Err(caused_v("parse awp rpc response: "@ + text, fault_v(e))),
            Ok(v) => match (member(v, "error"@), member(v, "result"@)) {
                (Some(e), _) => Err(fault_v("awp rpc error: "@ + json_text(e))),
                (None, Some(x)) => Ok(x),
                (None, None) => Err(fault_v("awp rpc missing result: "@ + text)),
            },
        }
    }
}

/// What a document or an error says.
pub open spec fn doc_result(r: Result<Json, Fault>) -> Result<JsonV, Seq<Seq<char>>> {
    match r {
        Ok(v) => Ok(v@),
        Err(f) => Err(f@),
    }
}

/// What a response of the network means.
pub fn read_awp(resp: &Response) -> (r: Result<Json, Fault>)
    ensures
        doc_result(r) == awp_result(resp.status, resp.text@),
{
    if !(200 <= resp.status && resp.status < 300) {
        let s = dec(resp.status as u64);
        return Err(Fault::new(cat4("HTTP ", s.as_str(), " from awp rpc: ", resp.text.as_str())));
    }
    match Json::parse(resp.text.as_str()) {
        Err(e) => {
            let m = cat2("parse awp rpc response: ", resp.text.as_str());
            Err(Fault::new(e).because(m.as_str()))
        },
        Ok(v) => {
            match v.get("error") {
                Some(e) => {
                    let t = e.render();
                    return Err(Fault::new(cat2("awp rpc error: ", t.as_str())));
                },
                None => {},
            }
            match v.get("result") {
                Some(x) => Ok(x.copy()),
                None => Err(Fault::new(cat2("awp rpc missing result: ", resp.text.as_str()))),
            }
        },
    }
}

/// A call of the network.
pub enum AwpRpc {
    /// The URL that is set is asked for.
    Url(String, Json),
    /// The response is waited for.
    Post(String, String),
}

/// Whether a step ends with this document or error.
pub open spec fn ends_doc<S>(r: Step<S, Result<Json, Fault>>, x: Result<JsonV, Seq<Seq<char>>>) -> bool {
    match r {
        Step::End(d) => doc_result(d) == x,
        Step::Act(_, _) => false,
    }
}

/// The URL of the network.
pub open spec fn awp_url(set: Option<Seq<char>>) -> Seq<char> {
    match set {
        Some(u) => u,
        None => "https://api.awp.sh/v2"@,
    }
}

/// What comes next in a call of the network.
pub open spec fn awp_next(s: AwpRpc, reply: Reply, r: Step<AwpRpc, Result<Json, Fault>>) -> bool {
    match (s, reply) {
        (AwpRpc::Url(method, params), Reply::Maybe(set)) => {
            &&& r matches Step::Act(AwpRpc::Post(u, m), a)
            &&& u@ == awp_url(opt_text_view(set))
            &&& m == method
            &&& a@ == ActionV::HttpPost(u@, json_text(request_v(method@, params@)))
        },
        (AwpRpc::Post(_, _), Reply::Http(Ok(resp))) => ends_doc(
            r,
            awp_result(resp.status, resp.text@),
        ),
        (AwpRpc::Post(u, m), Reply::Http(Err(f))) => ends_doc(
            r,
            Err(caused_v("POST "@ + u@ + " method="@ + m@, f@)),
        ),
        _ => ends_doc(r, Err(stray_v())),
    }
}

impl AwpRpc {
    /// Starts a call.
    pub fn call(method: String, params: Json) -> (r: Step<AwpRpc, Result<Json, Fault>>)
        ensures
            r matches Step::Act(AwpRpc::Url(m, p), a) && m == method && p == params && a@
                == ActionV::Env("AWP_RPC_URL"@),
    {
        Step::Act(AwpRpc::Url(method, params), Action::Env("AWP_RPC_URL".to_owned()))
    }

    /// Goes on with the reply.
    pub fn step(self, reply: Reply) -> (r: Step<AwpRpc, Result<Json, Fault>>)
        ensures
            awp_next(self, reply, r),
    {
        match (self, reply) {
            (AwpRpc::Url(method, params), Reply::Maybe(set)) => {
                let url = match set {
                    Some(u) => u,
                    None => "https://api.awp.sh/v2".to_owned(),
                };
                let body = request(method.as_str(), params).render();
                let a = Action::HttpPost(url.clone(), body);
                Step::Act(AwpRpc::Post(url, method), a)
            },
            (AwpRpc::Post(_, _), Reply::Http(Ok(resp))) => Step::End(read_awp(&resp)),
            (AwpRpc::Post(u, m), Reply::Http(Err(f))) => {
                let t = cat4("POST ", u.as_str(), " method=", m.as_str());
                Step::End(Err(f.because(t.as_str())))
            },
            _ => Step::End(Err(stray())),
        }
    }
}

/// The staking network is asked about the agent on one worknet.
pub proof fn law_network_is_asked_about_the_agent(agent: Seq<char>, worknet: Seq<char>, chain: Option<i64>)
    ensures
        member(allocations_params_v(agent, worknet, chain), "agent"@) == Some(JsonV::Str(agent)),
        member(allocations_params_v(agent, worknet, chain), "worknetId"@) == Some(JsonV::Str(worknet)),
        chain matches Some(c) ==> member(allocations_params_v(agent, worknet, chain), "chainId"@) == Some(num_v(c as int)),
{
    reveal_strlit("agent");
    reveal_strlit("worknetId");
    reveal_strlit("chainId");
    assert("agent"@.len() == 5);
    assert("worknetId"@.len() == 9);
    assert("chainId"@.len() == 7);
}

/// Exactly the stakers of the rows back the agent: those that a row names by an address, and, where amounts count, with an
/// amount above zero.
pub proof fn law_backers_are_the_stakers_of_the_rows(rows: Seq<JsonV>, positive: bool, a: Seq<u8>)
    ensures
        row_backers(rows, positive).contains(a) <==> exists|i: int|
            0 <= i < rows.len() && row_backer(#[trigger] rows[i], positive) == Some(a),
    decreases rows.len(),
{
    if rows.len() > 0 {
        let front = rows.drop_last();
        law_backers_are_the_stakers_of_the_rows(front, positive, a);
        let last = rows.len() - 1;
        assert(rows.last() == rows[last]);
        if row_backers(rows, positive).contains(a) {
            if row_backer(rows[last], positive) != Some(a) {
                assert(row_backers(front, positive).contains(a));
                let i = choose|i: int| 0 <= i < front.len() && row_backer(#[trigger] front[i], positive) == Some(a);
                assert(rows[i] == front[i]);
            }
        }
        if exists|i: int| 0 <= i < rows.len() && row_backer(#[trigger] rows[i], positive) == Some(a) {
            let i = choose|i: int| 0 <= i < rows.len() && row_backer(#[trigger] rows[i], positive) == Some(a);
            if i < last {
                assert(front[i] == rows[i]);
            }
        }
    }
}

/// A row names its staker under `user_address` and its amount under `amount`.
pub proof fn law_row_names_staker_and_amount(m: Map<Seq<char>, JsonV>, user: Seq<char>, amount: Seq<char>, positive: bool)
    requires
        member(JsonV::Obj(m), "user_address"@) == Some(JsonV::Str(user)),
        member(JsonV::Obj(m), "amount"@) == Some(JsonV::Str(amount)),
    ensures
        !positive ==> row_backer(JsonV::Obj(m), positive) == parsed_address(user),
        positive && (parsed_u256(amount) matches Some(n) && n > 0) ==> row_backer(JsonV::Obj(m), positive)
            == parsed_address(user),
        positive && !(parsed_u256(amount) matches Some(n) && n > 0) ==> row_backer(JsonV::Obj(m), positive) is None,
{
}

/// What the staking network answers is its result; an error, a missing result and a failed request are no answer.
pub proof fn law_network_answer(status: u16, text: Seq<char>, v: JsonV, x: JsonV)
    requires
        json_parsed(text) == Ok::<JsonV, Seq<char>>(v),
    ensures
        200 <= status < 300 && member(v, "error"@) is None && member(v, "result"@) == Some(x) ==> awp_result(status, text)
            == Ok::<JsonV, Seq<Seq<char>>>(x),
        member(v, "error"@) is Some ==> awp_result(status, text) is Err,
        member(v, "result"@) is None ==> awp_result(status, text) is Err,
        status < 200 || status >= 300 ==> awp_result(status, text) is Err,
{
}

} // verus!
