//! JSON documents: the values that servers send and that commands print.
use vstd::prelude::*;

use crate::num::{dec, dec_i64, int_text, parse_u64, parsed_uint};
use crate::text::text_eq;

verus! {

/// A JSON value. A number is its text, so no digit of a large amount is lost. Of an object's members
/// with one name the last one counts.
pub enum Json {
    Null,
    Bool(bool),
    Num(String),
    Str(String),
    Arr(Vec<Json>),
    Obj(Vec<(String, Json)>),
}

/// What a JSON value says.
pub enum JsonV {
    Null,
    Bool(bool),
    Num(Seq<char>),
    Str(Seq<char>),
    Arr(Seq<JsonV>),
    Obj(Map<Seq<char>, JsonV>),
}

/// What `j` says.
pub open spec fn json_v(j: Json) -> JsonV
    decreases j,
{
    match j {
        Json::Null => JsonV::Null,
        Json::Bool(b) => JsonV::Bool(b),
        Json::Num(t) => JsonV::Num(t@),
        Json::Str(t) => JsonV::Str(t@),
        Json::Arr(v) => JsonV::Arr(arr_v(v@)),
        Json::Obj(v) => JsonV::Obj(obj_v(v@)),
    }
}

/// What the elements of an array say.
pub open spec fn arr_v(s: Seq<Json>) -> Seq<JsonV>
    decreases s,
{
    if s.len() == 0 {
        Seq::empty()
    } else {
        arr_v(s.subrange(0, s.len() - 1)).push(json_v(s[s.len() - 1]))
    }
}

/// What the members of an object say; the last one of a name counts.
pub open spec fn obj_v(s: Seq<(String, Json)>) -> Map<Seq<char>, JsonV>
    decreases s,
{
    if s.len() == 0 {
        Map::empty()
    } else {
        obj_v(s.subrange(0, s.len() - 1)).insert(s[s.len() - 1].0@, json_v(s[s.len() - 1].1))
    }
}

impl View for Json {
    type V = JsonV;

    open spec fn view(&self) -> JsonV {
        json_v(*self)
    }
}

/// The tree of `serde_json`.
#[verifier::external_type_specification]
#[verifier::external_body]
pub struct ExValue(serde_json::Value);

/// The error of `serde_json`.
#[verifier::external_type_specification]
#[verifier::external_body]
pub struct ExError(serde_json::Error);

/// What a tree of `serde_json` holds.
pub uninterp spec fn value_json(v: serde_json::Value) -> JsonV;

/// What `serde_json` reads from a text, or the text of its error.
pub uninterp spec fn json_parsed(text: Seq<char>) -> Result<JsonV, Seq<char>>;

/// Whether `serde_json` reads the value `v` from a text.
pub open spec fn reads_as(text: Seq<char>, v: JsonV) -> bool {
    json_parsed(text) == Ok::<JsonV, Seq<char>>(v)
}

/// Whether `serde_json` refuses a text with the error `e`.
pub open spec fn refused_with(text: Seq<char>, e: Seq<char>) -> bool {
    json_parsed(text) == Err::<JsonV, Seq<char>>(e)
}

/// What `serde_json::Error` displays.
pub uninterp spec fn json_error_text(e: serde_json::Error) -> Seq<char>;

/// `serde_json::from_str` into a tree.
#[verifier::external_body]
fn value_from_text(text: &str) -> (r: Result<serde_json::Value, serde_json::Error>)
    ensures
        json_parsed(text@) == (match r {
            Ok(v) => Ok(value_json(v)),
            Err(e) => Err(json_error_text(e)),
        }),
{
    serde_json::from_str(text)
}

/// What `serde_json` reads from a text as an object of objects of objects, if it can.
pub uninterp spec fn tables_parsed(text: Seq<char>) -> Option<JsonV>;

/// `serde_json::from_str` into a map of maps of objects, handed back as one tree. The names at these three levels
/// are read as they stand, whatever they are.
#[verifier::external_body]
fn tables_from_text(text: &str) -> (r: Result<serde_json::Value, serde_json::Error>)
    ensures
        tables_parsed(text@) == (match r {
            Ok(v) => Some(value_json(v)),
            Err(_) => None,
        }),
{
    let all: std::collections::BTreeMap<
        String,
        std::collections::BTreeMap<String, serde_json::Map<String, serde_json::Value>>,
    > = serde_json::from_str(text)?;
    Ok(all.into_iter().map(|(n, t)| (n, t.into_iter().collect::<serde_json::Value>())).collect())
}

/// `Display` of `serde_json::Error`.
#[verifier::external_body]
fn error_text(e: &serde_json::Error) -> (r: String)
    ensures
        r@ == json_error_text(*e),
{
    e.to_string()
}

/// A tree of `serde_json` as a value of this library: null, booleans, strings, arrays and objects one
/// for one, a number as the text that `Number` keeps.
#[verifier::external_body]
fn json_from_value(v: &serde_json::Value) -> (r: Json)
    ensures
        json_v(r) == value_json(*v),
{
    match v {
        serde_json::Value::Null => Json::Null,
        serde_json::Value::Bool(b) => Json::Bool(*b),
        serde_json::Value::Number(n) => Json::Num(n.to_string()),
        serde_json::Value::String(s) => Json::Str(s.clone()),
        serde_json::Value::Array(a) => Json::Arr(a.iter().map(json_from_value).collect()),
        serde_json::Value::Object(o) => Json::Obj(
            o.iter().map(|(k, x)| (k.clone(), json_from_value(x))).collect(),
        ),
    }
}

/// What `Display` of a tree of `serde_json` writes: compact JSON.
pub uninterp spec fn json_text(v: JsonV) -> Seq<char>;

/// What `serde_json::to_string_pretty` writes.
pub uninterp spec fn json_pretty_text(v: JsonV) -> Seq<char>;

/// Whether a value is null, a boolean, an integer or a string.
pub open spec fn scalar(v: JsonV) -> bool {
    match v {
        JsonV::Num(t) => exists|n: int| t == #[trigger] int_text(n),
        JsonV::Arr(_) => false,
        JsonV::Obj(_) => false,
        _ => true,
    }
}

/// Whether a value is an object of scalars.
pub open spec fn record(v: JsonV) -> bool {
    &&& v matches JsonV::Obj(m)
    &&& m.dom().finite()
    &&& forall|k: Seq<char>| #[trigger] m.dom().contains(k) ==> scalar(m[k])
}

/// Whether a value is an object of records.
pub open spec fn table(v: JsonV) -> bool {
    &&& v matches JsonV::Obj(m)
    &&& m.dom().finite()
    &&& forall|k: Seq<char>| #[trigger] m.dom().contains(k) ==> record(m[k])
}

/// Whether a value is an object of tables.
pub open spec fn tables(v: JsonV) -> bool {
    &&& v matches JsonV::Obj(m)
    &&& m.dom().finite()
    &&& forall|k: Seq<char>| #[trigger] m.dom().contains(k) ==> table(m[k])
}

/// A value of this library as a tree of `serde_json`: null, booleans, strings, arrays and objects one
/// for one (`Map::from_iter` keeps the last member of a name), a number by its text.
#[verifier::external_body]
fn value_from_json(j: &Json) -> (r: serde_json::Value)
    ensures
        value_json(r) == json_v(*j),
{
    match j {
        Json::Null => serde_json::Value::Null,
        Json::Bool(b) => serde_json::Value::Bool(*b),
        Json::Num(t) => serde_json::Value::Number(serde_json::Number::from_string_unchecked(t.clone())),
        Json::Str(s) => serde_json::Value::String(s.clone()),
        Json::Arr(a) => serde_json::Value::Array(a.iter().map(value_from_json).collect()),
        Json::Obj(o) => serde_json::Value::Object(
            o.iter().map(|(k, x)| (k.clone(), value_from_json(x))).collect(),
        ),
    }
}

/// `Display` of `serde_json::Value`.
#[verifier::external_body]
fn value_text(v: &serde_json::Value) -> (r: String)
    ensures
        r@ == json_text(value_json(*v)),
{
    v.to_string()
}

/// `serde_json::to_string_pretty` of a tree. It writes to memory and every member name is a string, so
/// it succeeds. What it wrote of an object of objects of objects of scalars, with integers as the only numbers,
/// `serde_json::from_str` reads back as the same value.
#[verifier::external_body]
fn value_pretty_text(v: &serde_json::Value) -> (r: Result<String, serde_json::Error>)
    ensures
        r is Ok,
        r->Ok_0@ == json_pretty_text(value_json(*v)),
        tables(value_json(*v)) ==> tables_parsed(r->Ok_0@) == Some(value_json(*v)),
{
    serde_json::to_string_pretty(v)
}

/// The member `key` of an object.
pub open spec fn member(v: JsonV, key: Seq<char>) -> Option<JsonV> {
    match v {
        JsonV::Obj(m) => if m.dom().contains(key) {
            Some(m[key])
        } else {
            None
        },
        _ => None,
    }
}

/// The text of a string value.
pub open spec fn str_of(v: JsonV) -> Option<Seq<char>> {
    match v {
        JsonV::Str(t) => Some(t),
        _ => None,
    }
}

/// The text of a string member.
pub open spec fn member_str(v: JsonV, key: Seq<char>) -> Option<Seq<char>> {
    match member(v, key) {
        Some(m) => str_of(m),
        None => None,
    }
}

/// The value of a number that is a decimal `u64`.
pub open spec fn u64_of(v: JsonV) -> Option<nat> {
    match v {
        JsonV::Num(t) => parsed_uint(t, 10, u64::MAX as nat),
        _ => None,
    }
}

/// The value of a boolean.
pub open spec fn bool_of(v: JsonV) -> Option<bool> {
    match v {
        JsonV::Bool(b) => Some(b),
        _ => None,
    }
}

/// The number `n` as a JSON value.
pub open spec fn num_v(n: int) -> JsonV {
    JsonV::Num(int_text(n))
}

/// The array of some numbers.
pub open spec fn numbers_v(v: Seq<u64>) -> JsonV {
    JsonV::Arr(v.map_values(|n: u64| num_v(n as int)))
}

/// The object without members.
pub open spec fn empty_object() -> JsonV {
    JsonV::Obj(Map::empty())
}

/// The object `v` with the member `key` set to `x`. What is no object stays as it is.
pub open spec fn with_member(v: JsonV, key: Seq<char>, x: JsonV) -> JsonV {
    match v {
        JsonV::Obj(m) => JsonV::Obj(m.insert(key, x)),
        _ => v,
    }
}

/// A text, or null.
pub open spec fn opt_str_v(t: Option<Seq<char>>) -> JsonV {
    match t {
        Some(t) => JsonV::Str(t),
        None => JsonV::Null,
    }
}

/// What the elements of an array say, one by one.
pub proof fn lemma_arr_v(s: Seq<Json>)
    ensures
        arr_v(s).len() == s.len(),
        forall|i: int| 0 <= i < s.len() ==> #[trigger] arr_v(s)[i] == json_v(s[i]),
    decreases s.len(),
{
    if s.len() > 0 {
        let front = s.subrange(0, s.len() - 1);
        lemma_arr_v(front);
        assert forall|i: int| 0 <= i < s.len() implies #[trigger] arr_v(s)[i] == json_v(s[i]) by {
            if i < s.len() - 1 {
                assert(arr_v(s)[i] == arr_v(front)[i]);
                assert(front[i] == s[i]);
            }
        }
    }
}

/// The array that gained an element says one thing more.
pub proof fn lemma_arr_push(s: Seq<Json>, x: Json)
    ensures
        arr_v(s.push(x)) == arr_v(s).push(json_v(x)),
{
    assert(s.push(x).subrange(0, s.len() as int) =~= s);
}

/// The object that gained a member says one thing more.
pub proof fn lemma_obj_push(s: Seq<(String, Json)>, x: (String, Json))
    ensures
        obj_v(s.push(x)) == obj_v(s).insert(x.0@, json_v(x.1)),
{
    assert(s.push(x).subrange(0, s.len() as int) =~= s);
}

/// A copy of an array.
fn copy_all(a: &Vec<Json>) -> (r: Vec<Json>)
    ensures
        arr_v(r@) == arr_v(a@),
    decreases a@,
{
    let mut r: Vec<Json> = Vec::new();
    let n = a.len();
    assert(a@.subrange(0, 0) =~= Seq::<Json>::empty());
    for i in 0..n
        invariant
            n == a@.len(),
            arr_v(r@) == arr_v(a@.subrange(0, i as int)),
    {
        let x = a[i].copy();
        proof {
            lemma_arr_push(r@, x);
            lemma_arr_push(a@.subrange(0, i as int), a@[i as int]);
            assert(a@.subrange(0, i as int).push(a@[i as int]) =~= a@.subrange(0, i + 1));
        }
        r.push(x);
    }
    assert(a@.subrange(0, n as int) =~= a@);
    r
}

/// A copy of the members of an object.
fn copy_members(a: &Vec<(String, Json)>) -> (r: Vec<(String, Json)>)
    ensures
        obj_v(r@) == obj_v(a@),
    decreases a@,
{
    let mut r: Vec<(String, Json)> = Vec::new();
    let n = a.len();
    assert(a@.subrange(0, 0) =~= Seq::<(String, Json)>::empty());
    for i in 0..n
        invariant
            n == a@.len(),
            obj_v(r@) == obj_v(a@.subrange(0, i as int)),
    {
        let x = (a[i].0.clone(), a[i].1.copy());
        proof {
            lemma_obj_push(r@, x);
            lemma_obj_push(a@.subrange(0, i as int), a@[i as int]);
            assert(a@.subrange(0, i as int).push(a@[i as int]) =~= a@.subrange(0, i + 1));
        }
        r.push(x);
    }
    assert(a@.subrange(0, n as int) =~= a@);
    r
}

impl Json {
    /// Reads a text as `serde_json` does.
    pub fn parse(text: &str) -> (r: Result<Json, String>)
        ensures
            match r {
                Ok(j) => reads_as(text@, j@),
                Err(e) => refused_with(text@, e@),
            },
    {
        match value_from_text(text) {
            Ok(v) => Ok(json_from_value(&v)),
            Err(e) => Err(error_text(&e)),
        }
    }

    /// Reads a text as an object of objects of objects, if it is one.
    pub fn parse_tables(text: &str) -> (r: Option<Json>)
        ensures
            tables_parsed(text@) == (match r {
                Some(j) => Some(j@),
                None => None,
            }),
    {
        match tables_from_text(text) {
            Ok(v) => Some(json_from_value(&v)),
            Err(_) => None,
        }
    }

    /// Compact JSON text.
    pub fn render(&self) -> (r: String)
        ensures
            r@ == json_text(self@),
    {
        value_text(&value_from_json(self))
    }

    /// Indented JSON text. Where the value is an object of tables, reading it as such gives the value back.
    pub fn render_pretty(&self) -> (r: String)
        ensures
            r@ == json_pretty_text(self@),
            tables(self@) ==> tables_parsed(r@) == Some(self@),
    {
        match value_pretty_text(&value_from_json(self)) {
            Ok(t) => t,
            Err(_) => String::new(),
        }
    }

    /// A copy.
    pub fn copy(&self) -> (r: Json)
        ensures
            r@ == self@,
        decreases self,
    {
        match self {
            Json::Null => Json::Null,
            Json::Bool(b) => Json::Bool(*b),
            Json::Num(t) => Json::Num(t.clone()),
            Json::Str(t) => Json::Str(t.clone()),
            Json::Arr(v) => Json::Arr(copy_all(v)),
            Json::Obj(v) => Json::Obj(copy_members(v)),
        }
    }

    /// The string `t`.
    pub fn text(t: &str) -> (r: Json)
        ensures
            r@ == JsonV::Str(t@),
    {
        Json::Str(t.to_owned())
    }

    /// The string `t`, or null.
    pub fn opt_text(t: &Option<String>) -> (r: Json)
        ensures
            r@ == opt_str_v(match *t { Some(t) => Some(t@), None => None }),
    {
        match t {
            Some(t) => Json::Str(t.clone()),
            None => Json::Null,
        }
    }

    /// The number `n`.
    pub fn number(n: u64) -> (r: Json)
        ensures
            r@ == num_v(n as int),
    {
        Json::Num(dec(n))
    }

    /// The number `n`.
    pub fn signed(n: i64) -> (r: Json)
        ensures
            r@ == num_v(n as int),
    {
        Json::Num(dec_i64(n))
    }

    /// The array of some numbers.
    pub fn numbers(v: &Vec<u64>) -> (r: Json)
        ensures
            r@ == numbers_v(v@),
    {
        let mut out: Vec<Json> = Vec::new();
        let n = v.len();
        let ghost all = v@.map_values(|n: u64| num_v(n as int));
        assert(arr_v(out@) =~= all.take(0));
        for i in 0..n
            invariant
                n == v@.len(),
                all == v@.map_values(|n: u64| num_v(n as int)),
                arr_v(out@) == all.take(i as int),
        {
            let x = Json::number(v[i]);
            proof {
                lemma_arr_push(out@, x);
                assert(all.take(i + 1) =~= all.take(i as int).push(all[i as int]));
            }
            out.push(x);
        }
        assert(all.take(n as int) =~= all);
        Json::Arr(out)
    }

    /// The array without elements.
    pub fn list0() -> (r: Json)
        ensures
            r@ == JsonV::Arr(Seq::empty()),
    {
        let v: Vec<Json> = Vec::new();
        assert(arr_v(v@) =~= Seq::empty());
        Json::Arr(v)
    }

    /// The array of one element.
    pub fn list1(a: Json) -> (r: Json)
        ensures
            r@ == JsonV::Arr(seq![a@]),
    {
        let mut v: Vec<Json> = Vec::new();
        proof {
            lemma_arr_push(v@, a);
            assert(arr_v(v@) =~= Seq::empty());
        }
        v.push(a);
        assert(arr_v(v@) =~= seq![json_v(a)]);
        Json::Arr(v)
    }

    /// The array of two elements.
    pub fn list2(a: Json, b: Json) -> (r: Json)
        ensures
            r@ == JsonV::Arr(seq![a@, b@]),
    {
        let mut v: Vec<Json> = Vec::new();
        proof {
            lemma_arr_push(v@, a);
            assert(arr_v(v@) =~= Seq::empty());
            lemma_arr_push(v@.push(a), b);
        }
        v.push(a);
        v.push(b);
        assert(arr_v(v@) =~= seq![json_v(a), json_v(b)]);
        Json::Arr(v)
    }

    /// The array of four elements.
    pub fn list4(a: Json, b: Json, c: Json, d: Json) -> (r: Json)
        ensures
            r@ == JsonV::Arr(seq![a@, b@, c@, d@]),
    {
        let mut v: Vec<Json> = Vec::new();
        proof {
            let s = v@;
            lemma_arr_push(s, a);
            assert(arr_v(s) =~= Seq::empty());
            lemma_arr_push(s.push(a), b);
            lemma_arr_push(s.push(a).push(b), c);
            lemma_arr_push(s.push(a).push(b).push(c), d);
        }
        v.push(a);
        v.push(b);
        v.push(c);
        v.push(d);
        assert(arr_v(v@) =~= seq![json_v(a), json_v(b), json_v(c), json_v(d)]);
        Json::Arr(v)
    }

    /// The object without members.
    pub fn object() -> (r: Json)
        ensures
            r@ == empty_object(),
    {
        let v: Vec<(String, Json)> = Vec::new();
        let r = Json::Obj(v);
        assert(obj_v(v@) =~= Map::empty());
        r
    }

    /// The object with the member `key` set to `x`. What is no object stays as it is.
    pub fn with(self, key: &str, x: Json) -> (r: Json)
        ensures
            r@ == with_member(self@, key@, x@),
    {
        match self {
            Json::Obj(v) => {
                let mut v = v;
                let m = (key.to_owned(), x);
                proof {
                    lemma_obj_push(v@, m);
                }
                v.push(m);
                Json::Obj(v)
            },
            other => other,
        }
    }

    /// The member `key` of an object.
    pub fn get(&self, key: &str) -> (r: Option<&Json>)
        ensures
            match r {
                Some(x) => member(self@, key@) == Some(x@),
                None => member(self@, key@) is None,
            },
    {
        match self {
            Json::Obj(v) => {
                let mut i = v.len();
                assert(v@.subrange(0, i as int) =~= v@);
                while i > 0
                    invariant
                        i <= v@.len(),
                        self@ == JsonV::Obj(obj_v(v@)),
                        member(self@, key@) == member(
                            JsonV::Obj(obj_v(v@.subrange(0, i as int))),
                            key@,
                        ),
                    decreases i,
                {
                    i -= 1;
                    proof {
                        lemma_obj_push(v@.subrange(0, i as int), v@[i as int]);
                        assert(v@.subrange(0, i as int).push(v@[i as int]) =~= v@.subrange(0, i + 1));
                    }
                    if text_eq(v[i].0.as_str(), key) {
                        return Some(&v[i].1);
                    }
                }
                assert(v@.subrange(0, 0) =~= Seq::<(String, Json)>::empty());
                None
            },
            _ => None,
        }
    }

    /// The text of a string.
    pub fn as_str(&self) -> (r: Option<&str>)
        ensures
            match r {
                Some(t) => str_of(self@) == Some(t@),
                None => str_of(self@) is None,
            },
    {
        match self {
            Json::Str(t) => Some(t.as_str()),
            _ => None,
        }
    }

    /// The text of the string member `key`.
    pub fn get_str(&self, key: &str) -> (r: Option<&str>)
        ensures
            match r {
                Some(t) => member_str(self@, key@) == Some(t@),
                None => member_str(self@, key@) is None,
            },
    {
        match self.get(key) {
            Some(m) => m.as_str(),
            None => None,
        }
    }

    /// The value of a number that is a decimal `u64`.
    pub fn as_u64(&self) -> (r: Option<u64>)
        ensures
            match r {
                Some(n) => u64_of(self@) == Some(n as nat),
                None => u64_of(self@) is None,
            },
    {
        match self {
            Json::Num(t) => parse_u64(t.as_str()),
            _ => None,
        }
    }

    /// The value of a boolean.
    pub fn as_bool(&self) -> (r: Option<bool>)
        ensures
            r == bool_of(self@),
    {
        match self {
            Json::Bool(b) => Some(*b),
            _ => None,
        }
    }

    /// Whether the value is null.
    pub fn is_null(&self) -> (r: bool)
        ensures
            r == (self@ == JsonV::Null),
    {
        match self {
            Json::Null => true,
            _ => false,
        }
    }
}

} // verus!
