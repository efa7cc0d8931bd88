//! What a command prints: one document that says how the command fared and what to do next.
use vstd::prelude::*;

use crate::json::{empty_object, member, opt_str_v, with_member, Json, JsonV};
use crate::schema::opt_text_view;

verus! {

/// What to do next.
#[derive(Debug)]
pub struct Internal {
    pub next_action: String,
    pub next_command: Option<String>,
    pub progress: Option<String>,
}

/// What an `Internal` says.
pub struct InternalV {
    pub next_action: Seq<char>,
    pub next_command: Option<Seq<char>>,
    pub progress: Option<Seq<char>>,
}

impl View for Internal {
    type V = InternalV;

    open spec fn view(&self) -> InternalV {
        InternalV {
            next_action: self.next_action@,
            next_command: opt_text_view(self.next_command),
            progress: opt_text_view(self.progress),
        }
    }
}

/// The document that a command prints.
pub struct Output {
    pub status: String,
    pub message: String,
    pub data: Json,
    pub internal: Internal,
    pub error_code: Option<String>,
    pub error_kind: Option<String>,
    pub debug: Json,
}

/// What an `Output` says.
pub struct OutputV {
    pub status: Seq<char>,
    pub message: Seq<char>,
    pub data: JsonV,
    pub internal: InternalV,
    pub error_code: Option<Seq<char>>,
    pub error_kind: Option<Seq<char>>,
    pub debug: JsonV,
}

impl View for Output {
    type V = OutputV;

    open spec fn view(&self) -> OutputV {
        OutputV {
            status: self.status@,
            message: self.message@,
            data: self.data@,
            internal: self.internal@,
            error_code: opt_text_view(self.error_code),
            error_kind: opt_text_view(self.error_kind),
            debug: self.debug@,
        }
    }
}

/// The next action without a progress mark.
pub open spec fn next_v(action: Seq<char>, command: Option<Seq<char>>) -> InternalV {
    InternalV { next_action: action, next_command: command, progress: None }
}

/// The next action with a progress mark.
pub open spec fn next_at_v(action: Seq<char>, command: Option<Seq<char>>, progress: Seq<char>) -> InternalV {
    InternalV { next_action: action, next_command: command, progress: Some(progress) }
}

/// A command that went well.
pub open spec fn success_v(message: Seq<char>, data: JsonV, internal: InternalV) -> OutputV {
    OutputV {
        status: "ok"@,
        message,
        data,
        internal,
        error_code: None,
        error_kind: None,
        debug: JsonV::Null,
    }
}

/// What the data of an error hold.
pub open spec fn error_data(retryable: bool, suggestion: Seq<char>) -> JsonV {
    with_member(
        with_member(empty_object(), "retryable"@, JsonV::Bool(retryable)),
        "suggestion"@,
        JsonV::Str(suggestion),
    )
}

/// A command that failed.
pub open spec fn error_v(
    message: Seq<char>,
    code: Seq<char>,
    kind: Seq<char>,
    retryable: bool,
    suggestion: Seq<char>,
    internal: InternalV,
) -> OutputV {
    OutputV {
        status: "error"@,
        message,
        data: error_data(retryable, suggestion),
        internal,
        error_code: Some(code),
        error_kind: Some(kind),
        debug: JsonV::Null,
    }
}

/// A command that failed, with details.
pub open spec fn error_with_debug_v(
    message: Seq<char>,
    code: Seq<char>,
    kind: Seq<char>,
    retryable: bool,
    suggestion: Seq<char>,
    debug: JsonV,
    internal: InternalV,
) -> OutputV {
    OutputV { debug, ..error_v(message, code, kind, retryable, suggestion, internal) }
}

/// What is to be done next, as it is printed: the command is null where there is none.
pub open spec fn internal_json(i: InternalV) -> JsonV {
    let o = with_member(empty_object(), "next_action"@, JsonV::Str(i.next_action));
    let o = with_member(o, "next_command"@, opt_str_v(i.next_command));
    match i.progress {
        Some(p) => with_member(o, "progress"@, JsonV::Str(p)),
        None => o,
    }
}

/// A member, unless it is null.
pub open spec fn unless_null(name: Seq<char>, v: JsonV) -> Seq<(Seq<char>, JsonV)> {
    if v == JsonV::Null {
        Seq::empty()
    } else {
        seq![(name, v)]
    }
}

/// A member that may be missing.
pub open spec fn if_there(name: Seq<char>, t: Option<Seq<char>>) -> Seq<(Seq<char>, JsonV)> {
    match t {
        Some(t) => seq![(name, JsonV::Str(t))],
        None => Seq::empty(),
    }
}

/// The printed document: the status, the message, the data, what is to be done next, and of an error its code,
/// its kind and the details.
pub open spec fn document_v(o: OutputV) -> Seq<(Seq<char>, JsonV)> {
    seq![("status"@, JsonV::Str(o.status)), ("message"@, JsonV::Str(o.message))] + unless_null("data"@, o.data)
        + seq![("_internal"@, internal_json(o.internal))] + if_there("error_code"@, o.error_code) + if_there(
        "error_kind"@,
        o.error_kind,
    ) + unless_null("debug"@, o.debug)
}

/// What members say, in order.
pub open spec fn member_views(v: Seq<(String, Json)>) -> Seq<(Seq<char>, JsonV)> {
    v.map_values(|m: (String, Json)| (m.0@, m.1@))
}

fn push(v: &mut Vec<(String, Json)>, name: &str, x: Json)
    ensures
        member_views(final(v)@) == member_views(old(v)@) + seq![(name@, x@)],
{
    v.push((name.to_owned(), x));
    assert(member_views(v@) =~= member_views(old(v)@) + seq![(name@, x@)]);
}

fn push_unless_null(v: &mut Vec<(String, Json)>, name: &str, x: &Json)
    ensures
        member_views(final(v)@) == member_views(old(v)@) + unless_null(name@, x@),
{
    if !x.is_null() {
        push(v, name, x.copy());
    } else {
        assert(member_views(v@) =~= member_views(old(v)@) + unless_null(name@, x@));
    }
}

fn push_text(v: &mut Vec<(String, Json)>, name: &str, t: &Option<String>)
    ensures
        member_views(final(v)@) == member_views(old(v)@) + if_there(name@, opt_text_view(*t)),
{
    match t {
        Some(x) => {
            push(v, name, Json::text(x.as_str()));
        },
        None => {
            assert(member_views(v@) =~= member_views(old(v)@) + if_there(name@, None));
        },
    }
}

impl Internal {
    /// What is to be done next, as it is printed.
    pub fn document(&self) -> (r: Json)
        ensures
            r@ == internal_json(self@),
    {
        let o = Json::object().with("next_action", Json::text(self.next_action.as_str())).with(
            "next_command",
            Json::opt_text(&self.next_command),
        );
        match &self.progress {
            Some(p) => o.with("progress", Json::text(p.as_str())),
            None => o,
        }
    }

    /// The next action and the command for it.
    pub fn run(action: &str, command: &str) -> (r: Internal)
        ensures
            r@ == next_v(action@, Some(command@)),
    {
        Internal {
            next_action: action.to_owned(),
            next_command: Some(command.to_owned()),
            progress: None,
        }
    }

    /// The next action, for which there is no command.
    pub fn stop(action: &str) -> (r: Internal)
        ensures
            r@ == next_v(action@, None),
    {
        Internal { next_action: action.to_owned(), next_command: None, progress: None }
    }

    /// The next action, the command for it and how far the checks came.
    pub fn run_at(action: &str, command: &str, progress: &str) -> (r: Internal)
        ensures
            r@ == next_at_v(action@, Some(command@), progress@),
    {
        Internal {
            next_action: action.to_owned(),
            next_command: Some(command.to_owned()),
            progress: Some(progress.to_owned()),
        }
    }
}

impl Output {
    /// A command that went well.
    pub fn success(message: String, data: Json, internal: Internal) -> (r: Output)
        ensures
            r@ == success_v(message@, data@, internal@),
    {
        Output {
            status: "ok".to_owned(),
            message,
            data,
            internal,
            error_code: None,
            error_kind: None,
            debug: Json::Null,
        }
    }

    /// A command that failed: a code and a kind, whether to try again, and what to do about it.
    pub fn error(
        message: String,
        code: &str,
        kind: &str,
        retryable: bool,
        suggestion: &str,
        internal: Internal,
    ) -> (r: Output)
        ensures
            r@ == error_v(message@, code@, kind@, retryable, suggestion@, internal@),
    {
        let data = Json::object().with("retryable", Json::Bool(retryable)).with(
            "suggestion",
            Json::text(suggestion),
        );
        Output {
            status: "error".to_owned(),
            message,
            data,
            internal,
            error_code: Some(code.to_owned()),
            error_kind: Some(kind.to_owned()),
            debug: Json::Null,
        }
    }

    /// A command that failed, with details.
    pub fn error_with_debug(
        message: String,
        code: &str,
        kind: &str,
        retryable: bool,
        suggestion: &str,
        debug: Json,
        internal: Internal,
    ) -> (r: Output)
        ensures
            r@ == error_with_debug_v(
                message@,
                code@,
                kind@,
                retryable,
                suggestion@,
                debug@,
                internal@,
            ),
    {
        let mut o = Output::error(message, code, kind, retryable, suggestion, internal);
        o.debug = debug;
        o
    }

    /// The members of the printed document, in order.
    pub fn members(&self) -> (r: Vec<(String, Json)>)
        ensures
            member_views(r@) == document_v(self@),
    {
        let mut v: Vec<(String, Json)> = Vec::new();
        push(&mut v, "status", Json::text(self.status.as_str()));
        push(&mut v, "message", Json::text(self.message.as_str()));
        push_unless_null(&mut v, "data", &self.data);
        push(&mut v, "_internal", self.internal.document());
        push_text(&mut v, "error_code", &self.error_code);
        push_text(&mut v, "error_kind", &self.error_kind);
        push_unless_null(&mut v, "debug", &self.debug);
        assert(member_views(v@) =~= document_v(self@));
        v
    }
}

/// An error says whether to try again and what to do; what comes next stands under its own names.
pub proof fn law_output_members(retryable: bool, suggestion: Seq<char>, i: InternalV)
    ensures
        member(error_data(retryable, suggestion), "retryable"@) == Some(JsonV::Bool(retryable)),
        member(error_data(retryable, suggestion), "suggestion"@) == Some(JsonV::Str(suggestion)),
        member(internal_json(i), "next_action"@) == Some(JsonV::Str(i.next_action)),
        member(internal_json(i), "next_command"@) == Some(match i.next_command { Some(t) => JsonV::Str(t), None => JsonV::Null }),
        i.progress matches Some(t) ==> member(internal_json(i), "progress"@) == Some(JsonV::Str(t)),
{
    reveal_strlit("retryable");
    reveal_strlit("suggestion");
    reveal_strlit("next_action");
    reveal_strlit("next_command");
    reveal_strlit("progress");
    assert("retryable"@.len() == 9);
    assert("suggestion"@.len() == 10);
    assert("next_action"@.len() == 11);
    assert("next_command"@.len() == 12);
    assert("progress"@.len() == 8);
}

/// What is told of a failure keeps each part in its place, and is no success; a success has no code.
pub proof fn law_failure_keeps_its_parts(
    message: Seq<char>,
    code: Seq<char>,
    kind: Seq<char>,
    retryable: bool,
    suggestion: Seq<char>,
    debug: JsonV,
    internal: InternalV,
)
    ensures
        ({
            let e = error_v(message, code, kind, retryable, suggestion, internal);
            let d = error_with_debug_v(message, code, kind, retryable, suggestion, debug, internal);
            let s = success_v(message, debug, internal);
            &&& e.message == message && e.error_code == Some(code) && e.error_kind == Some(kind) && e.internal == internal
            &&& e.status == "error"@ && e.debug == JsonV::Null
            &&& member(e.data, "suggestion"@) == Some(JsonV::Str(suggestion))
            &&& member(e.data, "retryable"@) == Some(JsonV::Bool(retryable))
            &&& d.message == message && d.error_code == Some(code) && d.error_kind == Some(kind) && d.internal == internal
            &&& d.status == "error"@ && d.debug == debug && d.data == e.data
            &&& s.message == message && s.data == debug && s.internal == internal && s.status == "ok"@
            &&& s.error_code is None && s.error_kind is None && s.debug == JsonV::Null
        }),
{
    law_output_members(retryable, suggestion, internal);
}

} // verus!
