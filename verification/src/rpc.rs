//! Calls of chain nodes: which nodes are asked, in which order, and what their replies mean.
use vstd::prelude::*;

use crate::fault::{fault_v, top_v, Fault};
use crate::flow::{stray, stray_v, Action, ActionV, Posted, Reply, Step};
use crate::json::{
    arr_v, empty_object, json_text, lemma_arr_v, member, member_str, num_v, u64_of, with_member, Json, JsonV,
};
use crate::num::{dec_text, dec_usize};
use crate::schema::opt_text_view;
use crate::text::{
    cat3, cat6, contains, has_part, has_prefix, pieces, split, starts_with, text_eq,
    texts, trim, trimmed,
};

verus! {

/// The public nodes, in the order in which they are asked.
pub open spec fn public_rpcs_v() -> Seq<Seq<char>> {
    seq![
        "https://mainnet.base.org"@,
        "https://base-rpc.publicnode.com"@,
        "https://base.drpc.org"@,
        "https://base.llamarpc.com"@,
        "https://base.meowrpc.com"@,
        "https://1rpc.io/base"@,
        "https://base-mainnet.public.blastapi.io"@,
    ]
}

/// The public nodes.
fn public_rpcs() -> (r: Vec<String>)
    ensures
        texts(r@) == public_rpcs_v(),
{
    let mut r: Vec<String> = Vec::new();
    r.push("https://mainnet.base.org".to_owned());
    r.push("https://base-rpc.publicnode.com".to_owned());
    r.push("https://base.drpc.org".to_owned());
    r.push("https://base.llamarpc.com".to_owned());
    r.push("https://base.meowrpc.com".to_owned());
    r.push("https://1rpc.io/base".to_owned());
    r.push("https://base-mainnet.public.blastapi.io".to_owned());
    assert(texts(r@) =~= public_rpcs_v());
    r
}

/// The pieces that are not blank, without the white space round them.
pub open spec fn kept_pieces(p: Seq<Seq<char>>) -> Seq<Seq<char>>
    decreases p.len(),
{
    if p.len() == 0 {
        Seq::empty()
    } else {
        let front = kept_pieces(p.drop_last());
        let t = trimmed(p.last());
        if t.len() == 0 {
            front
        } else {
            front.push(t)
        }
    }
}

/// The nodes to ask: those that are set, separated by commas, or else the public ones.
pub open spec fn rpc_list_v(set: Option<Seq<char>>) -> Seq<Seq<char>> {
    match set {
        Some(t) => {
            let own = kept_pieces(pieces(t, ','));
            if own.len() > 0 {
                own
            } else {
                public_rpcs_v()
            }
        },
        None => public_rpcs_v(),
    }
}

/// The nodes to ask.
pub fn rpc_list(set: Option<String>) -> (r: Vec<String>)
    ensures
        texts(r@) == rpc_list_v(opt_text_view(set)),
{
    match set {
        Some(t) => {
            let parts = split(t.as_str(), ',');
            let mut own: Vec<String> = Vec::new();
            let n = parts.len();
            let ghost all = texts(parts@);
            assert(texts(own@) =~= Seq::<Seq<char>>::empty());
            for i in 0..n
                invariant
                    n == parts@.len(),
                    all == texts(parts@),
                    texts(own@) == kept_pieces(all.take(i as int)),
            {
                let p = trim(parts[i].as_str());
                proof {
                    assert(all.take(i + 1).drop_last() =~= all.take(i as int));
                    assert(all.take(i + 1).last() == parts@[i as int]@);
                }
                if p.as_str().is_empty() {
                } else {
                    let ghost before = own@;
                    own.push(p);
                    assert(texts(own@) =~= texts(before).push(p@));
                }
            }
            assert(all.take(n as int) =~= all);
            assert(texts(own@).len() == own@.len());
            if own.len() > 0 {
                own
            } else {
                public_rpcs()
            }
        },
        None => public_rpcs(),
    }
}

/// Whether a node of the public list can be used: by HTTP, and without a key.
pub open spec fn usable_url(u: Seq<char>) -> bool {
    u.len() > 0 && !has_prefix(u, "ws"@) && !has_part(u, "${"@) && !has_part(u, "API_KEY"@)
}

/// The usable nodes among the entries of a chain.
pub open spec fn entry_urls(entries: Seq<JsonV>) -> Seq<Seq<char>>
    decreases entries.len(),
{
    if entries.len() == 0 {
        Seq::empty()
    } else {
        let front = entry_urls(entries.drop_last());
        match member_str(entries.last(), "url"@) {
            Some(u) => if usable_url(u) {
                front.push(u)
            } else {
                front
            },
            None => front,
        }
    }
}

/// The usable nodes of one chain of the public list, where it is Base.
pub open spec fn chain_urls(chain: JsonV) -> Seq<Seq<char>> {
    let id = match member(chain, "chainId"@) {
        Some(c) => u64_of(c),
        None => None,
    };
    if id != Some(8453nat) {
        Seq::empty()
    } else {
        match member(chain, "rpc"@) {
            Some(JsonV::Arr(entries)) => entry_urls(entries),
            _ => Seq::empty(),
        }
    }
}

/// The usable nodes of some chains.
pub open spec fn all_urls(chains: Seq<JsonV>) -> Seq<Seq<char>>
    decreases chains.len(),
{
    if chains.len() == 0 {
        Seq::empty()
    } else {
        all_urls(chains.drop_last()) + chain_urls(chains.last())
    }
}

/// The usable Base nodes of the public list.
pub open spec fn chainlist_v(list: JsonV) -> Seq<Seq<char>> {
    match list {
        JsonV::Arr(chains) => all_urls(chains),
        _ => Seq::empty(),
    }
}

/// Whether a node can be used.
fn is_usable(u: &str) -> (r: bool)
    ensures
        r == usable_url(u@),
{
    !u.is_empty() && !starts_with(u, "ws") && !contains(u, "${") && !contains(u, "API_KEY")
}

/// Adds the usable nodes among the entries of a chain.
fn add_entries(urls: Vec<String>, entries: &Vec<Json>) -> (r: Vec<String>)
    ensures
        texts(r@) == texts(urls@) + entry_urls(arr_v(entries@)),
{
    let mut r = urls;
    let ghost front = texts(r@);
    let ghost all = arr_v(entries@);
    let n = entries.len();
    proof {
        lemma_arr_v(entries@);
        assert(texts(r@) =~= front + entry_urls(all.take(0)));
    }
    for i in 0..n
        invariant
            n == entries@.len(),
            all == arr_v(entries@),
            all.len() == n,
            forall|j: int| 0 <= j < n ==> #[trigger] all[j] == entries@[j]@,
            texts(r@) == front + entry_urls(all.take(i as int)),
    {
        proof {
            assert(all.take(i + 1).drop_last() =~= all.take(i as int));
            assert(all.take(i + 1).last() == entries@[i as int]@);
        }
        match entries[i].get_str("url") {
            Some(u) => if is_usable(u) {
                let ghost before = r@;
                let t = u.to_owned();
                r.push(t);
                assert(texts(r@) =~= texts(before).push(u@));
                assert(texts(r@) =~= front + entry_urls(all.take(i + 1)));
            },
            None => {},
        }
    }
    assert(all.take(n as int) =~= all);
    r
}

/// The usable Base nodes of the public list.
pub fn chainlist_rpcs(list: &Json) -> (r: Vec<String>)
    ensures
        texts(r@) == chainlist_v(list@),
{
    let mut r: Vec<String> = Vec::new();
    assert(texts(r@) =~= Seq::<Seq<char>>::empty());
    match list {
        Json::Arr(chains) => {
            let n = chains.len();
            let ghost all = arr_v(chains@);
            proof {
                lemma_arr_v(chains@);
                assert(all.take(0).len() == 0);
            }
            for i in 0..n
                invariant
                    n == chains@.len(),
                    all == arr_v(chains@),
                    all.len() == n,
                    forall|j: int| 0 <= j < n ==> #[trigger] all[j] == chains@[j]@,
                    texts(r@) == all_urls(all.take(i as int)),
            {
                proof {
                    assert(all.take(i + 1).drop_last() =~= all.take(i as int));
                    assert(all.take(i + 1).last() == chains@[i as int]@);
                }
                let base = match chains[i].get("chainId") {
                    Some(c) => match c.as_u64() {
                        Some(id) => id == 8453,
                        None => false,
                    },
                    None => false,
                };
                if base {
                    match chains[i].get("rpc") {
                        Some(Json::Arr(entries)) => {
                            r = add_entries(r, entries);
                        },
                        _ => {
                            assert(texts(r@) =~= all_urls(all.take(i + 1)));
                        },
                    }
                } else {
                    assert(texts(r@) =~= all_urls(all.take(i + 1)));
                }
            }
            assert(all.take(n as int) =~= all);
            r
        },
        _ => r,
    }
}

/// Whether the public list is still to be used after so many seconds: for one hour.
pub fn list_is_fresh(age_secs: u64) -> (r: bool)
    ensures
        r == (age_secs < 3600),
{
    age_secs < 3600
}

/// Hands out the number of a call and moves on to the next; the numbers start again before the largest.
pub fn next_cursor(cursor: &mut usize) -> (r: usize)
    ensures
        r == *old(cursor),
        *final(cursor) as int == (*old(cursor) as int + 1) % (usize::MAX as int),
{
    let v = *cursor;
    if v < usize::MAX - 1 {
        *cursor = v + 1;
        assert((v as int + 1) % (usize::MAX as int) == v as int + 1) by (nonlinear_arith)
            requires
                0 <= v as int + 1 < usize::MAX as int,
        ;
    } else if v == usize::MAX - 1 {
        *cursor = 0;
        assert((usize::MAX as int) % (usize::MAX as int) == 0) by (nonlinear_arith)
            requires
                usize::MAX as int > 0,
        ;
    } else {
        *cursor = 1;
        assert((usize::MAX as int + 1) % (usize::MAX as int) == 1) by (nonlinear_arith)
            requires
                usize::MAX as int > 1,
        ;
    }
    v
}

/// A list that starts at place `k` and goes on from the front.
pub open spec fn rotated<A>(s: Seq<A>, k: int) -> Seq<A> {
    s.skip(k) + s.take(k)
}

/// A list that starts at another place.
fn rotate(v: &Vec<String>, k: usize) -> (r: Vec<String>)
    requires
        k <= v@.len(),
    ensures
        texts(r@) == rotated(texts(v@), k as int),
{
    let mut r: Vec<String> = Vec::new();
    let n = v.len();
    let ghost all = texts(v@);
    for i in k..n
        invariant
            k <= n,
            n == v@.len(),
            all == texts(v@),
            texts(r@) =~= all.subrange(k as int, i as int),
    {
        let t = v[i].clone();
        let ghost before = r@;
        r.push(t);
        assert(texts(r@) =~= texts(before).push(all[i as int]));
    }
    assert(texts(r@) =~= all.skip(k as int));
    for i in 0..k
        invariant
            k <= n,
            n == v@.len(),
            all == texts(v@),
            texts(r@) =~= all.skip(k as int) + all.take(i as int),
    {
        let t = v[i].clone();
        let ghost before = r@;
        r.push(t);
        assert(texts(r@) =~= texts(before).push(all[i as int]));
    }
    r
}

/// Starting at another place asks the same nodes, each as often as before.
pub proof fn law_rotation_keeps_all<A>(s: Seq<A>, k: int)
    requires
        0 <= k <= s.len(),
    ensures
        rotated(s, k).to_multiset() == s.to_multiset(),
        rotated(s, k).len() == s.len(),
{
    broadcast use vstd::seq_lib::group_to_multiset_ensures;

    let a = s.take(k);
    let b = s.skip(k);
    vstd::seq_lib::lemma_multiset_commutative(a, b);
    vstd::seq_lib::lemma_multiset_commutative(b, a);
    assert(a + b =~= s);
    assert(rotated(s, k).to_multiset() =~= s.to_multiset());
}

/// The texts of `list` that are not in `known`.
pub open spec fn not_in(list: Seq<Seq<char>>, known: Seq<Seq<char>>) -> Seq<Seq<char>>
    decreases list.len(),
{
    if list.len() == 0 {
        Seq::empty()
    } else {
        let front = not_in(list.drop_last(), known);
        if known.contains(list.last()) {
            front
        } else {
            front.push(list.last())
        }
    }
}

/// Whether a text is in a list.
fn is_in(t: &str, list: &Vec<String>) -> (r: bool)
    ensures
        r == texts(list@).contains(t@),
{
    let n = list.len();
    for i in 0..n
        invariant
            n == list@.len(),
            forall|j: int| 0 <= j < i ==> texts(list@)[j] != t@,
    {
        if text_eq(list[i].as_str(), t) {
            assert(texts(list@)[i as int] == t@);
            return true;
        }
        assert(texts(list@)[i as int] != t@);
    }
    false
}

/// The texts of `list` that are not in `known`.
fn others(list: &Vec<String>, known: &Vec<String>) -> (r: Vec<String>)
    ensures
        texts(r@) == not_in(texts(list@), texts(known@)),
{
    let mut r: Vec<String> = Vec::new();
    let n = list.len();
    let ghost all = texts(list@);
    assert(texts(r@) =~= Seq::<Seq<char>>::empty());
    for i in 0..n
        invariant
            n == list@.len(),
            all == texts(list@),
            texts(r@) == not_in(all.take(i as int), texts(known@)),
    {
        proof {
            assert(all.take(i + 1).drop_last() =~= all.take(i as int));
            assert(all.take(i + 1).last() == list@[i as int]@);
        }
        if !is_in(list[i].as_str(), known) {
            let t = list[i].clone();
            let ghost before = r@;
            r.push(t);
            assert(texts(r@) =~= texts(before).push(list@[i as int]@));
        }
    }
    assert(all.take(n as int) =~= all);
    r
}

/// The document of a call.
pub open spec fn request_v(method: Seq<char>, params: JsonV) -> JsonV {
    let o = with_member(empty_object(), "jsonrpc"@, JsonV::Str("2.0"@));
    let o = with_member(o, "method"@, JsonV::Str(method));
    let o = with_member(o, "params"@, params);
    with_member(o, "id"@, num_v(1))
}

/// The document of a call.
pub fn request(method: &str, params: Json) -> (r: Json)
    ensures
        r@ == request_v(method@, params@),
{
    Json::object().with("jsonrpc", Json::text("2.0")).with("method", Json::text(method)).with(
        "params",
        params,
    ).with("id", Json::number(1))
}

/// What the reply of a node means: a result, or why there is none. Any member `error` counts, even null.
pub open spec fn answer_v(url: Seq<char>, p: Posted) -> Result<JsonV, Seq<char>> {
    match p {
        Posted::Unsent(f) => Err(url + ": send "@ + top_v(f@)),
        Posted::Unread(f) => Err(url + ": parse "@ + top_v(f@)),
        Posted::Doc(v) => match member(v@, "error"@) {
            Some(e) => Err(url + ": rpc error "@ + json_text(e)),
            None => match member(v@, "result"@) {
                Some(x) => Ok(x),
                None => Ok(JsonV::Null),
            },
        },
    }
}

/// What the reply of a node means.
fn answer(url: &str, p: &Posted) -> (r: Result<Json, String>)
    ensures
        match r {
            Ok(v) => answer_v(url@, *p) == Ok::<JsonV, Seq<char>>(v@),
            Err(t) => answer_v(url@, *p) == Err::<JsonV, Seq<char>>(t@),
        },
{
    match p {
        Posted::Unsent(f) => {
            let t = f.top();
            Err(cat3(url, ": send ", t.as_str()))
        },
        Posted::Unread(f) => {
            let t = f.top();
            Err(cat3(url, ": parse ", t.as_str()))
        },
        Posted::Doc(v) => match v.get("error") {
            Some(e) => {
                let t = e.render();
                Err(cat3(url, ": rpc error ", t.as_str()))
            },
            None => match v.get("result") {
                Some(x) => Ok(x.copy()),
                None => Ok(Json::Null),
            },
        },
    }
}

/// A call under way.
pub struct Asking {
    /// The document to post.
    pub req: Json,
    /// The nodes that were to be asked first.
    pub urls: Vec<String>,
    /// The nodes that are asked now.
    pub queue: Vec<String>,
    /// Which of them is asked.
    pub at: usize,
    /// What went wrong last.
    pub last: Option<String>,
    /// How many nodes the public list held, once it was fetched.
    pub extra: Option<usize>,
}

/// A call of a chain node.
pub enum Calling {
    /// The nodes that are set are asked for.
    Env(Json, usize),
    /// A node is asked.
    Try(Asking),
    /// The public list is fetched.
    List(Asking),
}

/// The error when no node answered.
pub open spec fn all_failed_v(known: nat, extra: nat, last: Option<Seq<char>>) -> Seq<Seq<char>> {
    fault_v(
        "all Base RPCs failed (tried "@ + dec_text(known) + " hardcoded + "@ + dec_text(extra)
            + " from chainlist). Last: "@ + match last {
            Some(t) => t,
            None => "no error captured"@,
        },
    )
}

/// What comes next: the next node in the queue, else the public list, else the end.
pub open spec fn goes_on(a: Asking, r: Step<Calling, Result<Json, Fault>>) -> bool {
    if a.at < a.queue@.len() {
        &&& r matches Step::Act(Calling::Try(b), act)
        &&& b == a
        &&& act@ == ActionV::HttpPostJson(a.queue@[a.at as int]@, a.req@, 8)
    } else {
        match a.extra {
            None => {
                &&& r matches Step::Act(Calling::List(b), act)
                &&& b == a
                &&& act@ == ActionV::ChainList
            },
            Some(n) => r matches Step::End(Err(f)) && f@ == all_failed_v(
                a.urls@.len(),
                n as nat,
                opt_text_view(a.last),
            ),
        }
    }
}

/// The next node in the queue, else the public list, else the end.
fn go_on(a: Asking) -> (r: Step<Calling, Result<Json, Fault>>)
    ensures
        goes_on(a, r),
{
    if a.at < a.queue.len() {
        let act = Action::HttpPostJson(a.queue[a.at].clone(), a.req.copy(), 8);
        Step::Act(Calling::Try(a), act)
    } else {
        match a.extra {
            None => Step::Act(Calling::List(a), Action::ChainList),
            Some(n) => {
                let known = dec_usize(a.urls.len());
                let extra = dec_usize(n);
                let last = match &a.last {
                    Some(t) => t.clone(),
                    None => "no error captured".to_owned(),
                };
                Step::End(
                    Err(
                        Fault::new(
                            cat6(
                                "all Base RPCs failed (tried ",
                                known.as_str(),
                                " hardcoded + ",
                                extra.as_str(),
                                " from chainlist). Last: ",
                                last.as_str(),
                            ),
                        ),
                    ),
                )
            },
        }
    }
}

/// Whether a call starts with this list of nodes: all of them, from the place of the cursor on.
pub open spec fn fresh_asking(a: Asking, req: Json, cursor: usize, list: Seq<Seq<char>>) -> bool {
    &&& a.req == req
    &&& texts(a.urls@) == list
    &&& texts(a.queue@) == rotated(list, cursor as int % list.len() as int)
    &&& a.at == 0
    &&& a.last is None
    &&& a.extra is None
}

/// Whether a call goes on after a node failed.
pub open spec fn after_failure(a: Asking, t: Seq<char>, b: Asking) -> bool {
    &&& b.req == a.req
    &&& b.urls == a.urls
    &&& b.queue == a.queue
    &&& b.at == a.at + 1
    &&& opt_text_view(b.last) == Some(t)
    &&& b.extra == a.extra
}

/// Whether a call goes on with the nodes of the public list that were not asked yet.
pub open spec fn after_list(a: Asking, list: Seq<Seq<char>>, b: Asking) -> bool {
    &&& b.req == a.req
    &&& b.urls == a.urls
    &&& texts(b.queue@) == not_in(list, texts(a.urls@))
    &&& b.at == 0
    &&& b.last == a.last
    &&& b.extra == Some(list.len() as usize)
}

/// What comes next in a call.
pub open spec fn calling_next(s: Calling, reply: Reply, r: Step<Calling, Result<Json, Fault>>) -> bool {
    match (s, reply) {
        (Calling::Env(req, cursor), Reply::Maybe(set)) => exists|a: Asking|
            fresh_asking(a, req, cursor, rpc_list_v(opt_text_view(set))) && #[trigger] goes_on(a, r),
        (Calling::Try(a), Reply::Posted(p)) => if a.at < a.queue@.len() {
            match answer_v(a.queue@[a.at as int]@, p) {
                Ok(v) => r matches Step::End(Ok(x)) && x@ == v,
                Err(t) => exists|b: Asking| after_failure(a, t, b) && #[trigger] goes_on(b, r),
            }
        } else {
            r matches Step::End(Err(f)) && f@ == stray_v()
        },
        (Calling::List(a), Reply::Texts(list)) => exists|b: Asking|
            after_list(a, texts(list@), b) && #[trigger] goes_on(b, r),
        _ => r matches Step::End(Err(f)) && f@ == stray_v(),
    }
}

/// Starts a call.
pub fn call(method: &str, params: Json, cursor: usize) -> (r: Step<Calling, Result<Json, Fault>>)
    ensures
        r matches Step::Act(Calling::Env(req, c), a) && req@ == request_v(method@, params@) && c
            == cursor && a@ == ActionV::Env("ARDI_BASE_RPC"@),
{
    Step::Act(
        Calling::Env(request(method, params), cursor),
        Action::Env("ARDI_BASE_RPC".to_owned()),
    )
}

impl Calling {
    /// Goes on with the reply.
    pub fn step(self, reply: Reply) -> (r: Step<Calling, Result<Json, Fault>>)
        ensures
            calling_next(self, reply, r),
    {
        match (self, reply) {
            (Calling::Env(req, cursor), Reply::Maybe(set)) => {
                let urls = rpc_list(set);
                let n = urls.len();
                assert(texts(urls@).len() == n);
                proof {
                    lemma_rpc_list_not_empty(opt_text_view(set));
                }
                let k = cursor % n;
                let queue = rotate(&urls, k);
                let a = Asking { req, urls, queue, at: 0, last: None, extra: None };
                let ghost g = a;
                let r = go_on(a);
                assert(fresh_asking(g, req, cursor, rpc_list_v(opt_text_view(set))));
                assert(goes_on(g, r));
                r
            },
            (Calling::Try(a), Reply::Posted(p)) => {
                if a.at >= a.queue.len() {
                    return Step::End(Err(stray()));
                }
                match answer(a.queue[a.at].as_str(), &p) {
                    Ok(v) => Step::End(Ok(v)),
                    Err(t) => {
                        let b = Asking {
                            req: a.req,
                            urls: a.urls,
                            queue: a.queue,
                            at: a.at + 1,
                            last: Some(t),
                            extra: a.extra,
                        };
                        let ghost g = b;
                        let r = go_on(b);
                        assert(after_failure(a, t@, g));
                        assert(goes_on(g, r));
                        r
                    },
                }
            },
            (Calling::List(a), Reply::Texts(list)) => {
                let queue = others(&list, &a.urls);
                let b = Asking {
                    req: a.req,
                    urls: a.urls,
                    queue,
                    at: 0,
                    last: a.last,
                    extra: Some(list.len()),
                };
                let ghost g = b;
                let r = go_on(b);
                assert(texts(list@).len() == list@.len());
                assert(after_list(a, texts(list@), g));
                assert(goes_on(g, r));
                r
            },
            _ => Step::End(Err(stray())),
        }
    }
}

/// There is always a node to ask.
pub proof fn lemma_rpc_list_not_empty(set: Option<Seq<char>>)
    ensures
        rpc_list_v(set).len() > 0,
{
}

/// A request carries its method and its parameters.
pub proof fn law_request_members(method: Seq<char>, params: JsonV)
    ensures
        member(request_v(method, params), "jsonrpc"@) == Some(JsonV::Str("2.0"@)),
        member(request_v(method, params), "method"@) == Some(JsonV::Str(method)),
        member(request_v(method, params), "params"@) == Some(params),
        member(request_v(method, params), "id"@) == Some(num_v(1)),
{
    reveal_strlit("jsonrpc");
    reveal_strlit("method");
    reveal_strlit("params");
    reveal_strlit("id");
    assert("jsonrpc"@.len() == 7);
    assert("method"@.len() == 6 && "method"@[0] == 'm');
    assert("params"@.len() == 6 && "params"@[0] == 'p');
    assert("id"@.len() == 2);
}

/// The nodes of the public list that are asked are those that were not asked before.
pub proof fn law_no_node_is_asked_twice(list: Seq<Seq<char>>, known: Seq<Seq<char>>, u: Seq<char>)
    ensures
        not_in(list, known).contains(u) <==> list.contains(u) && !known.contains(u),
    decreases list.len(),
{
    if list.len() > 0 {
        let front = list.drop_last();
        law_no_node_is_asked_twice(front, known, u);
        let last = list.len() - 1;
        let got = not_in(list, known);
        let before = not_in(front, known);
        if list.contains(u) {
            let i = choose|i: int| 0 <= i < list.len() && list[i] == u;
            if i < last {
                assert(front[i] == u);
                assert(front.contains(u));
            }
        }
        if front.contains(u) {
            let i = choose|i: int| 0 <= i < front.len() && front[i] == u;
            assert(list[i] == u);
        }
        if before.contains(u) {
            let i = choose|i: int| 0 <= i < before.len() && before[i] == u;
            assert(got[i] == u);
        }
        if !known.contains(list[last]) {
            assert(got[before.len() as int] == list[last]);
            if got.contains(u) && !before.contains(u) {
                let i = choose|i: int| 0 <= i < got.len() && got[i] == u;
                if i < before.len() {
                    assert(before[i] == u);
                }
            }
        }
    }
}

/// The request goes to one node after the other until one answers; a failure moves on to the next one with the same
/// request, and only where all have failed does the call fail.
pub proof fn law_nodes_are_asked_in_turn(s: Calling, reply: Reply, r: Step<Calling, Result<Json, Fault>>)
    requires
        calling_next(s, reply, r),
    ensures
        r matches Step::Act(Calling::Try(b), act) ==> ({
            &&& b.at < b.queue@.len()
            &&& act@ == ActionV::HttpPostJson(b.queue@[b.at as int]@, b.req@, 8)
            &&& s matches Calling::Try(a) ==> b.at == a.at + 1 && b.queue == a.queue && b.req == a.req
            &&& s matches Calling::Env(req, _) ==> b.at == 0 && b.req == req
            &&& s matches Calling::List(a) ==> b.at == 0 && b.req == a.req
        }),
        s matches Calling::Try(a) ==> (reply matches Reply::Posted(Posted::Doc(v)) ==> (a.at < a.queue@.len() && member(
            v@,
            "error"@,
        ) is None ==> (r matches Step::End(Ok(x)) && x@ == (match member(v@, "result"@) {
            Some(y) => y,
            None => JsonV::Null,
        })))),
        r matches Step::End(Ok(_)) ==> s is Try,
{
}

/// Of the public list only nodes of chain 8453 are taken, and of these only URLs that need no key and no socket.
pub proof fn law_public_nodes_are_usable(chain: JsonV, entries: Seq<JsonV>, u: Seq<char>)
    requires
        member(chain, "rpc"@) == Some(JsonV::Arr(entries)),
        chain_urls(chain).contains(u),
    ensures
        member(chain, "chainId"@) matches Some(c) && u64_of(c) == Some(8453nat),
        exists|i: int| 0 <= i < entries.len() && member_str(#[trigger] entries[i], "url"@) == Some(u),
        u.len() > 0,
        !has_prefix(u, "ws"@),
        !has_part(u, "${"@),
        !has_part(u, "API_KEY"@),
{
    lemma_entry_urls(entries, u);
}

proof fn lemma_entry_urls(entries: Seq<JsonV>, u: Seq<char>)
    requires
        entry_urls(entries).contains(u),
    ensures
        usable_url(u),
        exists|i: int| 0 <= i < entries.len() && member_str(#[trigger] entries[i], "url"@) == Some(u),
    decreases entries.len(),
{
    if entries.len() > 0 {
        let front = entries.drop_last();
        let last = entries.len() - 1;
        let k = choose|k: int| 0 <= k < entry_urls(entries).len() && entry_urls(entries)[k] == u;
        if k < entry_urls(front).len() {
            assert(entry_urls(front)[k] == u);
            assert(entry_urls(front).contains(u));
            lemma_entry_urls(front, u);
            let i = choose|i: int| 0 <= i < front.len() && member_str(#[trigger] front[i], "url"@) == Some(u);
            assert(entries[i] == front[i]);
        } else {
            assert(member_str(entries[last], "url"@) == Some(u));
        }
    }
}

/// Where every node failed, the end tells how many are configured, how many the public list added, and the last failure.
pub proof fn law_failure_tells_what_was_tried(a: Asking, r: Step<Calling, Result<Json, Fault>>)
    requires
        goes_on(a, r),
        a.at >= a.queue@.len(),
    ensures
        a.extra matches Some(n) ==> (r matches Step::End(Err(f)) && f@ == fault_v(
            "all Base RPCs failed (tried "@ + dec_text(a.urls@.len()) + " hardcoded + "@ + dec_text(n as nat)
                + " from chainlist). Last: "@ + (match a.last { Some(t) => t@, None => "no error captured"@ }),
        )),
{
}

/// What the public list adds is in the list and not known already, and all that is so is added.
pub proof fn law_public_list_adds_the_unknown(list: Seq<Seq<char>>, known: Seq<Seq<char>>, u: Seq<char>)
    ensures
        not_in(list, known).contains(u) <==> list.contains(u) && !known.contains(u),
    decreases list.len(),
{
    if list.len() > 0 {
        let front = list.drop_last();
        law_public_list_adds_the_unknown(front, known, u);
        assert(list =~= front.push(list.last()));
        if list.contains(u) && u != list.last() {
            let i = choose|i: int| 0 <= i < list.len() && list[i] == u;
            assert(front[i] == u);
        }
        if front.contains(u) {
            let i = choose|i: int| 0 <= i < front.len() && front[i] == u;
            assert(list[i] == u);
        }
        let f = not_in(front, known);
        let g = f.push(list.last());
        assert(g.last() == list.last());
        if f.contains(u) {
            let i = choose|i: int| 0 <= i < f.len() && f[i] == u;
            assert(g[i] == u);
        }
        if g.contains(u) && u != list.last() {
            let i = choose|i: int| 0 <= i < g.len() && g[i] == u;
            assert(f[i] == u);
        }
        assert(list[list.len() - 1] == list.last());
        assert(g[g.len() - 1] == list.last());
    }
}

/// The nodes that are asked after the public list came are those of it that were not configured.
pub proof fn law_listed_nodes_are_new(a: Asking, list: Seq<Seq<char>>, b: Asking, u: Seq<char>)
    requires
        after_list(a, list, b),
    ensures
        texts(b.queue@).contains(u) <==> list.contains(u) && !texts(a.urls@).contains(u),
        b.at == 0,
{
    law_public_list_adds_the_unknown(list, texts(a.urls@), u);
}

} // verus!
