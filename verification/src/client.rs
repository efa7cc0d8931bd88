//! The coordinator's HTTP interface: retries, and what a response means.
use vstd::prelude::*;

use crate::fault::{caused_v, fault_v, top_v, Fault};
use crate::flow::{stray, stray_v, Action, ActionV, Reply, Response, Step};
use crate::json::{json_parsed, Json, JsonV};
use crate::num::{dec, dec_text, dec_u128};
use crate::text::{cat2, cat4, cat6, strip_trailing, without_trailing};

verus! {

/// The coordinator.
pub struct ApiClient {
    base: String,
}

impl View for ApiClient {
    type V = Seq<char>;

    closed spec fn view(&self) -> Seq<char> {
        self.base@
    }
}

impl ApiClient {
    /// The coordinator at a URL; slashes at its end do not count.
    pub fn new(base: &str) -> (r: ApiClient)
        ensures
            r@ == without_trailing(base@, '/'),
    {
        ApiClient { base: strip_trailing(base, '/') }
    }

    /// The URL.
    pub fn base(&self) -> (r: &str)
        ensures
            r@ == self@,
    {
        self.base.as_str()
    }

    /// Starts to fetch a document.
    pub fn get_json(&self, path: &str) -> (r: Step<Fetching, Result<Option<Json>, Fault>>)
        ensures
            r matches Step::Act(Fetching::Get(f), a) && first_fetch(f, self@ + path@, false) && a@
                == ActionV::HttpGet(self@ + path@),
    {
        let url = cat2(self.base.as_str(), path);
        let a = Action::HttpGet(url.clone());
        Step::Act(Fetching::Get(Fetch { url, attempt: 0, optional: false }), a)
    }

    /// Starts to fetch a document that may not be there.
    pub fn try_get_json(&self, path: &str) -> (r: Step<Fetching, Result<Option<Json>, Fault>>)
        ensures
            r matches Step::Act(Fetching::Get(f), a) && first_fetch(f, self@ + path@, true) && a@
                == ActionV::HttpGet(self@ + path@),
    {
        let url = cat2(self.base.as_str(), path);
        let a = Action::HttpGet(url.clone());
        Step::Act(Fetching::Get(Fetch { url, attempt: 0, optional: true }), a)
    }

    /// Starts to ask whether the coordinator is there.
    pub fn ping(&self) -> (r: Step<Fetching, Result<Option<Json>, Fault>>)
        ensures
            r matches Step::Act(Fetching::Get(f), a) && first_fetch(f, self@ + "/v1/health"@, false)
                && a@ == ActionV::HttpGet(self@ + "/v1/health"@),
    {
        self.get_json("/v1/health")
    }
}

/// A fetch under way.
pub struct Fetch {
    /// What is fetched.
    pub url: String,
    /// How many attempts have failed.
    pub attempt: u64,
    /// Whether the document may be missing.
    pub optional: bool,
}

/// Whether a fetch is at its first attempt.
pub open spec fn first_fetch(f: Fetch, url: Seq<char>, optional: bool) -> bool {
    f.url@ == url && f.attempt == 0 && f.optional == optional
}

/// A fetch of a document.
pub enum Fetching {
    /// The response is waited for.
    Get(Fetch),
    /// Some time passes before the next attempt.
    Wait(Fetch),
}

/// Whether a response is worth another attempt: the server failed, and there is an attempt left.
pub open spec fn worth_retry(attempt: int, status: u16) -> bool {
    500 <= status < 600 && attempt < 2
}

/// What a response means.
pub open spec fn response_v(url: Seq<char>, optional: bool, status: u16, text: Seq<char>) -> Result<
    Option<JsonV>,
    Seq<Seq<char>>,
> {
    if optional && status == 404 {
        Ok(None)
    } else if !(200 <= status < 300) {
        Err(fault_v("HTTP "@ + dec_text(status as nat) + " from "@ + url + ": "@ + text))
    } else {
        match json_parsed(text) {
            Ok(v) => Ok(Some(v)),
            Err(e) => Err(caused_v("parse JSON from "@ + url + ": "@ + text, fault_v(e))),
        }
    }
}

/// What a document that may be missing, or an error, says.
pub open spec fn found_result(r: Result<Option<Json>, Fault>) -> Result<Option<JsonV>, Seq<Seq<char>>> {
    match r {
        Ok(Some(v)) => Ok(Some(v@)),
        Ok(None) => Ok(None),
        Err(f) => Err(f@),
    }
}

/// What a response means.
pub fn read_response(url: &str, optional: bool, resp: &Response) -> (r: Result<Option<Json>, Fault>)
    ensures
        found_result(r) == response_v(url@, optional, resp.status, resp.text@),
{
    if optional && resp.status == 404 {
        return Ok(None);
    }
    if !(200 <= resp.status && resp.status < 300) {
        let s = dec(resp.status as u64);
        return Err(
            Fault::new(cat6("HTTP ", s.as_str(), " from ", url, ": ", resp.text.as_str())),
        );
    }
    match Json::parse(resp.text.as_str()) {
        Ok(v) => Ok(Some(v)),
        Err(e) => {
            let m = cat4("parse JSON from ", url, ": ", resp.text.as_str());
            Err(Fault::new(e).because(m.as_str()))
        },
    }
}

/// The error after the last attempt.
pub open spec fn gave_up_v(url: Seq<char>, attempt: nat, f: Seq<Seq<char>>) -> Seq<Seq<char>> {
    fault_v("GET "@ + url + " (attempt "@ + dec_text(attempt + 1) + "): "@ + top_v(f))
}

/// Whether the next attempt follows after a pause of one second, then two.
pub open spec fn retries(f: Fetch, r: Step<Fetching, Result<Option<Json>, Fault>>) -> bool {
    &&& r matches Step::Act(Fetching::Wait(g), a)
    &&& g.url == f.url
    &&& g.attempt == f.attempt + 1
    &&& g.optional == f.optional
    &&& a@ == ActionV::Sleep(if f.attempt == 0 { 1 } else { 2 })
}

/// What comes next in a fetch. There are three attempts: one that does not reach the server, or that the
/// server fails to serve, is repeated.
pub open spec fn fetching_next(
    s: Fetching,
    reply: Reply,
    r: Step<Fetching, Result<Option<Json>, Fault>>,
) -> bool {
    match (s, reply) {
        (Fetching::Get(f), Reply::Http(Ok(resp))) => if worth_retry(f.attempt as int, resp.status) {
            retries(f, r)
        } else {
            r matches Step::End(x) && found_result(x) == response_v(
                f.url@,
                f.optional,
                resp.status,
                resp.text@,
            )
        },
        (Fetching::Get(f), Reply::Http(Err(e))) => if f.attempt < 2 {
            retries(f, r)
        } else {
            r matches Step::End(Err(x)) && x@ == gave_up_v(f.url@, f.attempt as nat, e@)
        },
        (Fetching::Wait(f), Reply::Done(_)) => {
            &&& r matches Step::Act(Fetching::Get(g), a)
            &&& g == f
            &&& a@ == ActionV::HttpGet(f.url@)
        },
        _ => r matches Step::End(Err(x)) && x@ == stray_v(),
    }
}

impl Fetch {
    /// The next attempt, after a pause.
    fn again(self) -> (r: Step<Fetching, Result<Option<Json>, Fault>>)
        requires
            self.attempt < 2,
        ensures
            retries(self, r),
    {
        let pause: u64 = if self.attempt == 0 {
            1
        } else {
            2
        };
        let g = Fetch { url: self.url, attempt: self.attempt + 1, optional: self.optional };
        Step::Act(Fetching::Wait(g), Action::Sleep(pause))
    }
}

impl Fetching {
    /// Goes on with the reply.
    pub fn step(self, reply: Reply) -> (r: Step<Fetching, Result<Option<Json>, Fault>>)
        ensures
            fetching_next(self, reply, r),
    {
        match (self, reply) {
            (Fetching::Get(f), Reply::Http(Ok(resp))) => {
                if 500 <= resp.status && resp.status < 600 && f.attempt < 2 {
                    f.again()
                } else {
                    Step::End(read_response(f.url.as_str(), f.optional, &resp))
                }
            },
            (Fetching::Get(f), Reply::Http(Err(e))) => {
                if f.attempt < 2 {
                    f.again()
                } else {
                    let n = dec_u128(f.attempt as u128 + 1);
                    let t = e.top();
                    Step::End(
                        Err(
                            Fault::new(
                                cat6(
                                    "GET ",
                                    f.url.as_str(),
                                    " (attempt ",
                                    n.as_str(),
                                    "): ",
                                    t.as_str(),
                                ),
                            ),
                        ),
                    )
                }
            },
            (Fetching::Wait(f), Reply::Done(_)) => {
                let a = Action::HttpGet(f.url.clone());
                Step::Act(Fetching::Get(f), a)
            },
            _ => Step::End(Err(stray())),
        }
    }
}

/// A document that must be there never ends as missing.
pub proof fn law_required_is_never_missing(url: Seq<char>, status: u16, text: Seq<char>)
    ensures
        response_v(url, false, status, text) != Ok::<Option<JsonV>, Seq<Seq<char>>>(None),
{
}

/// A response is its document where the request succeeded; a document that may be missing is missing exactly where the
/// coordinator says that it is not found, and any other failure is an error.
pub proof fn law_response_is_its_document(url: Seq<char>, optional: bool, status: u16, text: Seq<char>, v: JsonV)
    ensures
        200 <= status < 300 && json_parsed(text) == Ok::<JsonV, Seq<char>>(v) ==> response_v(url, optional, status, text)
            == Ok::<Option<JsonV>, Seq<Seq<char>>>(Some(v)),
        response_v(url, optional, status, text) == Ok::<Option<JsonV>, Seq<Seq<char>>>(None) <==> optional && status == 404,
        (status < 200 || status >= 300) && !(optional && status == 404) ==> response_v(url, optional, status, text) is Err,
{
}

/// A request is made at most three times, under the same URL: only a failure of the network or of the server is tried
/// again, after one second and then after two.
pub proof fn law_fetch_is_tried_three_times(s: Fetching, reply: Reply, r: Step<Fetching, Result<Option<Json>, Fault>>)
    requires
        fetching_next(s, reply, r),
    ensures
        r matches Step::Act(Fetching::Wait(g), a) ==> ({
            &&& s matches Fetching::Get(f)
            &&& g.url == f.url && g.optional == f.optional && g.attempt == f.attempt + 1 && g.attempt <= 2
            &&& a@ == ActionV::Sleep(g.attempt)
            &&& reply matches Reply::Http(x)
            &&& x matches Ok(resp) ==> 500 <= resp.status < 600
        }),
        r matches Step::Act(Fetching::Get(g), a) ==> s == Fetching::Wait(g) && a@ == ActionV::HttpGet(g.url@),
{
}

} // verus!
