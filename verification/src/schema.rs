//! The shapes of the documents that servers and the wallet send: which members are read, under which
//! names, and what is refused.
use vstd::prelude::*;

use crate::fault::{fault_v, Fault};
use crate::json::{arr_v, json_text, lemma_arr_v, member, Json, JsonV};
use crate::num::{parse_i64, parse_uint, parsed_i64, parsed_uint};
use crate::text::{cat3, cat6, text_eq};

verus! {

/// What is wrong with a document.
pub enum Defect {
    /// Neither an object nor an array.
    Shape,
    /// An array with more elements than the shape has members.
    Length,
    /// A member that must be there is not.
    Missing(String),
    /// A member is there under two names.
    Duplicate(String),
    /// A member does not hold what it should.
    Invalid(String),
}

/// What a defect says.
pub enum DefectV {
    Shape,
    Length,
    Missing(Seq<char>),
    Duplicate(Seq<char>),
    Invalid(Seq<char>),
}

impl View for Defect {
    type V = DefectV;

    open spec fn view(&self) -> DefectV {
        match *self {
            Defect::Shape => DefectV::Shape,
            Defect::Length => DefectV::Length,
            Defect::Missing(n) => DefectV::Missing(n@),
            Defect::Duplicate(n) => DefectV::Duplicate(n@),
            Defect::Invalid(n) => DefectV::Invalid(n@),
        }
    }
}

/// A defect in words.
pub open spec fn defect_text(d: DefectV) -> Seq<char> {
    match d {
        DefectV::Shape => "expected an object"@,
        DefectV::Length => "too many elements in array"@,
        DefectV::Missing(n) => "missing field `"@ + n + "`"@,
        DefectV::Duplicate(n) => "duplicate field `"@ + n + "`"@,
        DefectV::Invalid(n) => "invalid value for field `"@ + n + "`"@,
    }
}

impl Defect {
    /// The defect in words.
    pub fn text(&self) -> (r: String)
        ensures
            r@ == defect_text(self@),
    {
        match self {
            Defect::Shape => "expected an object".to_owned(),
            Defect::Length => "too many elements in array".to_owned(),
            Defect::Missing(n) => cat3("missing field `", n.as_str(), "`"),
            Defect::Duplicate(n) => cat3("duplicate field `", n.as_str(), "`"),
            Defect::Invalid(n) => cat3("invalid value for field `", n.as_str(), "`"),
        }
    }
}

/// The first of two defects, if there is one.
pub open spec fn first(a: Option<DefectV>, b: Option<DefectV>) -> Option<DefectV> {
    if a is Some {
        a
    } else {
        b
    }
}

/// What is wrong with the outer form of a shape with `n` members.
pub open spec fn form_defect(v: JsonV, n: int) -> Option<DefectV> {
    match v {
        JsonV::Obj(_) => None,
        JsonV::Arr(a) => if a.len() > n {
            Some(DefectV::Length)
        } else {
            None
        },
        _ => Some(DefectV::Shape),
    }
}

/// The member `name` of an object, also known as `alias`, or element `i` of an array.
pub open spec fn slot(v: JsonV, i: int, name: Seq<char>, alias: Seq<char>) -> Result<
    Option<JsonV>,
    DefectV,
> {
    match v {
        JsonV::Arr(a) => if i < a.len() {
            Ok(Some(a[i]))
        } else {
            Ok(None)
        },
        _ => match (member(v, name), member(v, alias)) {
            (Some(x), Some(_)) => if name != alias {
                Err(DefectV::Duplicate(name))
            } else {
                Ok(Some(x))
            },
            (Some(x), None) => Ok(Some(x)),
            (None, x) => Ok(x),
        },
    }
}

/// What is wrong with a member that must be there.
pub open spec fn need<T>(r: Result<Option<T>, DefectV>, name: Seq<char>) -> Option<DefectV> {
    match r {
        Err(d) => Some(d),
        Ok(None) => Some(DefectV::Missing(name)),
        Ok(Some(_)) => None,
    }
}

/// What is wrong with a member that may be missing.
pub open spec fn may<T>(r: Result<Option<T>, DefectV>) -> Option<DefectV> {
    match r {
        Err(d) => Some(d),
        Ok(_) => None,
    }
}

/// The value of a member, or `default` where it is missing.
pub open spec fn or_default<T>(r: Result<Option<T>, DefectV>, default: T) -> T {
    match r {
        Ok(Some(x)) => x,
        _ => default,
    }
}

/// The member as an unsigned number of at most `max`.
pub open spec fn uint_slot(v: JsonV, i: int, name: Seq<char>, alias: Seq<char>, max: nat) -> Result<
    Option<nat>,
    DefectV,
> {
    match slot(v, i, name, alias) {
        Err(d) => Err(d),
        Ok(None) => Ok(None),
        Ok(Some(JsonV::Num(t))) => match parsed_uint(t, 10, max) {
            Some(n) => Ok(Some(n)),
            None => Err(DefectV::Invalid(name)),
        },
        Ok(Some(_)) => Err(DefectV::Invalid(name)),
    }
}

/// The member as a signed 64-bit number.
pub open spec fn int_slot(v: JsonV, i: int, name: Seq<char>, alias: Seq<char>) -> Result<
    Option<i64>,
    DefectV,
> {
    match slot(v, i, name, alias) {
        Err(d) => Err(d),
        Ok(None) => Ok(None),
        Ok(Some(JsonV::Num(t))) => match parsed_i64(t) {
            Some(n) => Ok(Some(n)),
            None => Err(DefectV::Invalid(name)),
        },
        Ok(Some(_)) => Err(DefectV::Invalid(name)),
    }
}

/// The member as a text.
pub open spec fn text_slot(v: JsonV, i: int, name: Seq<char>, alias: Seq<char>) -> Result<
    Option<Seq<char>>,
    DefectV,
> {
    match slot(v, i, name, alias) {
        Err(d) => Err(d),
        Ok(None) => Ok(None),
        Ok(Some(JsonV::Str(t))) => Ok(Some(t)),
        Ok(Some(_)) => Err(DefectV::Invalid(name)),
    }
}

/// The member as a text; null counts as missing.
pub open spec fn nullable_text_slot(v: JsonV, i: int, name: Seq<char>) -> Result<
    Option<Seq<char>>,
    DefectV,
> {
    match slot(v, i, name, name) {
        Ok(Some(JsonV::Null)) => Ok(None),
        _ => text_slot(v, i, name, name),
    }
}

/// The member as a boolean.
pub open spec fn bool_slot(v: JsonV, i: int, name: Seq<char>) -> Result<Option<bool>, DefectV> {
    match slot(v, i, name, name) {
        Err(d) => Err(d),
        Ok(None) => Ok(None),
        Ok(Some(JsonV::Bool(b))) => Ok(Some(b)),
        Ok(Some(_)) => Err(DefectV::Invalid(name)),
    }
}

/// The member as an amount: a text, or the digits of a number.
pub open spec fn amount_slot(v: JsonV, i: int, name: Seq<char>) -> Result<
    Option<Seq<char>>,
    DefectV,
> {
    match slot(v, i, name, name) {
        Err(d) => Err(d),
        Ok(None) => Ok(None),
        Ok(Some(JsonV::Str(t))) => Ok(Some(t)),
        Ok(Some(JsonV::Num(t))) => Ok(Some(t)),
        Ok(Some(_)) => Err(DefectV::Invalid(name)),
    }
}

/// Checks the outer form.
pub(crate) fn check_form(v: &Json, n: usize) -> (r: Result<(), Defect>)
    ensures
        match r {
            Ok(_) => form_defect(v@, n as int) is None,
            Err(d) => form_defect(v@, n as int) == Some(d@),
        },
{
    match v {
        Json::Obj(_) => Ok(()),
        Json::Arr(a) => {
            proof {
                lemma_arr_v(a@);
            }
            if a.len() > n {
                Err(Defect::Length)
            } else {
                Ok(())
            }
        },
        _ => Err(Defect::Shape),
    }
}

/// Finds a member.
pub(crate) fn find<'a>(v: &'a Json, i: usize, name: &str, alias: &str) -> (r: Result<Option<&'a Json>, Defect>)
    ensures
        match r {
            Ok(Some(x)) => slot(v@, i as int, name@, alias@) == Ok::<Option<JsonV>, DefectV>(Some(x@)),
            Ok(None) => slot(v@, i as int, name@, alias@) == Ok::<Option<JsonV>, DefectV>(None),
            Err(d) => slot(v@, i as int, name@, alias@) == Err::<Option<JsonV>, DefectV>(d@),
        },
{
    match v {
        Json::Arr(a) => {
            proof {
                lemma_arr_v(a@);
            }
            if i < a.len() {
                return Ok(Some(&a[i]));
            }
            return Ok(None);
        },
        _ => {},
    }
    match v.get(name) {
        Some(x) => {
            let other = v.get(alias);
            if other.is_some() && !text_eq(name, alias) {
                Err(Defect::Duplicate(name.to_owned()))
            } else {
                Ok(Some(x))
            }
        },
        None => Ok(v.get(alias)),
    }
}

/// Reads an unsigned number.
pub(crate) fn find_uint(v: &Json, i: usize, name: &str, alias: &str, max: u64) -> (r: Result<Option<u64>, Defect>)
    ensures
        match r {
            Ok(Some(n)) => uint_slot(v@, i as int, name@, alias@, max as nat) == Ok::<Option<nat>, DefectV>(Some(n as nat)) && n <= max,
            Ok(None) => uint_slot(v@, i as int, name@, alias@, max as nat) == Ok::<Option<nat>, DefectV>(None),
            Err(d) => uint_slot(v@, i as int, name@, alias@, max as nat) == Err::<Option<nat>, DefectV>(d@),
        },
{
    match find(v, i, name, alias) {
        Err(d) => Err(d),
        Ok(None) => Ok(None),
        Ok(Some(Json::Num(t))) => match parse_uint(t.as_str(), 10, max as u128) {
            Some(n) => Ok(Some(n as u64)),
            None => Err(Defect::Invalid(name.to_owned())),
        },
        Ok(Some(_)) => Err(Defect::Invalid(name.to_owned())),
    }
}

/// Reads a signed number.
pub(crate) fn find_int(v: &Json, i: usize, name: &str, alias: &str) -> (r: Result<Option<i64>, Defect>)
    ensures
        match r {
            Ok(x) => int_slot(v@, i as int, name@, alias@) == Ok::<Option<i64>, DefectV>(x),
            Err(d) => int_slot(v@, i as int, name@, alias@) == Err::<Option<i64>, DefectV>(d@),
        },
{
    match find(v, i, name, alias) {
        Err(d) => Err(d),
        Ok(None) => Ok(None),
        Ok(Some(Json::Num(t))) => match parse_i64(t.as_str()) {
            Some(n) => Ok(Some(n)),
            None => Err(Defect::Invalid(name.to_owned())),
        },
        Ok(Some(_)) => Err(Defect::Invalid(name.to_owned())),
    }
}

/// Reads a text.
pub(crate) fn find_text(v: &Json, i: usize, name: &str, alias: &str) -> (r: Result<Option<String>, Defect>)
    ensures
        match r {
            Ok(Some(t)) => text_slot(v@, i as int, name@, alias@) == Ok::<Option<Seq<char>>, DefectV>(Some(t@)),
            Ok(None) => text_slot(v@, i as int, name@, alias@) == Ok::<Option<Seq<char>>, DefectV>(None),
            Err(d) => text_slot(v@, i as int, name@, alias@) == Err::<Option<Seq<char>>, DefectV>(d@),
        },
{
    match find(v, i, name, alias) {
        Err(d) => Err(d),
        Ok(None) => Ok(None),
        Ok(Some(Json::Str(t))) => Ok(Some(t.clone())),
        Ok(Some(_)) => Err(Defect::Invalid(name.to_owned())),
    }
}

/// Reads a text; null counts as missing.
pub(crate) fn find_nullable_text(v: &Json, i: usize, name: &str) -> (r: Result<Option<String>, Defect>)
    ensures
        match r {
            Ok(Some(t)) => nullable_text_slot(v@, i as int, name@) == Ok::<Option<Seq<char>>, DefectV>(Some(t@)),
            Ok(None) => nullable_text_slot(v@, i as int, name@) == Ok::<Option<Seq<char>>, DefectV>(None),
            Err(d) => nullable_text_slot(v@, i as int, name@) == Err::<Option<Seq<char>>, DefectV>(d@),
        },
{
    match find(v, i, name, name) {
        Ok(Some(Json::Null)) => Ok(None),
        _ => find_text(v, i, name, name),
    }
}

/// Reads a boolean.
pub(crate) fn find_bool(v: &Json, i: usize, name: &str) -> (r: Result<Option<bool>, Defect>)
    ensures
        match r {
            Ok(x) => bool_slot(v@, i as int, name@) == Ok::<Option<bool>, DefectV>(x),
            Err(d) => bool_slot(v@, i as int, name@) == Err::<Option<bool>, DefectV>(d@),
        },
{
    match find(v, i, name, name) {
        Err(d) => Err(d),
        Ok(None) => Ok(None),
        Ok(Some(Json::Bool(b))) => Ok(Some(*b)),
        Ok(Some(_)) => Err(Defect::Invalid(name.to_owned())),
    }
}

/// Reads an amount.
pub(crate) fn find_amount(v: &Json, i: usize, name: &str) -> (r: Result<Option<String>, Defect>)
    ensures
        match r {
            Ok(Some(t)) => amount_slot(v@, i as int, name@) == Ok::<Option<Seq<char>>, DefectV>(Some(t@)),
            Ok(None) => amount_slot(v@, i as int, name@) == Ok::<Option<Seq<char>>, DefectV>(None),
            Err(d) => amount_slot(v@, i as int, name@) == Err::<Option<Seq<char>>, DefectV>(d@),
        },
{
    match find(v, i, name, name) {
        Err(d) => Err(d),
        Ok(None) => Ok(None),
        Ok(Some(Json::Str(t))) => Ok(Some(t.clone())),
        Ok(Some(Json::Num(t))) => Ok(Some(t.clone())),
        Ok(Some(_)) => Err(Defect::Invalid(name.to_owned())),
    }
}

/// A member that must be there.
pub(crate) fn required<T>(r: Result<Option<T>, Defect>, name: &str) -> (q: Result<T, Defect>)
    ensures
        match q {
            Ok(x) => r == Ok::<Option<T>, Defect>(Some(x)),
            Err(d) => match r {
                Ok(Some(_)) => false,
                Ok(None) => d@ == DefectV::Missing(name@),
                Err(e) => d == e,
            },
        },
{
    match r {
        Ok(Some(x)) => Ok(x),
        Ok(None) => Err(Defect::Missing(name.to_owned())),
        Err(d) => Err(d),
    }
}

/// The view of an optional text.
pub open spec fn opt_text_view(t: Option<String>) -> Option<Seq<char>> {
    match t {
        Some(t) => Some(t@),
        None => None,
    }
}

/// An optional number.
pub open spec fn opt_nat(n: Option<u64>) -> Option<nat> {
    match n {
        Some(n) => Some(n as nat),
        None => None,
    }
}

/// The member as an unsigned 64-bit number; null counts as missing.
pub open spec fn nullable_uint_slot(v: JsonV, i: int, name: Seq<char>, alias: Seq<char>) -> Result<
    Option<nat>,
    DefectV,
> {
    match slot(v, i, name, alias) {
        Ok(Some(JsonV::Null)) => Ok(None),
        _ => uint_slot(v, i, name, alias, u64::MAX as nat),
    }
}

/// Reads an unsigned 64-bit number; null counts as missing.
pub(crate) fn find_nullable_uint(v: &Json, i: usize, name: &str, alias: &str) -> (r: Result<Option<u64>, Defect>)
    ensures
        match r {
            Ok(x) => nullable_uint_slot(v@, i as int, name@, alias@) == Ok::<Option<nat>, DefectV>(opt_nat(x)),
            Err(d) => nullable_uint_slot(v@, i as int, name@, alias@) == Err::<Option<nat>, DefectV>(d@),
        },
{
    match find(v, i, name, alias) {
        Ok(Some(Json::Null)) => Ok(None),
        _ => find_uint(v, i, name, alias, u64::MAX),
    }
}

/// The member that holds the hash of a transaction, under one of its three names.
pub open spec fn hash_slot(v: JsonV, i: int) -> Result<Option<Seq<char>>, DefectV> {
    if !(v is Arr) && member(v, "hash"@) is Some && (member(v, "txHash"@) is Some || member(v, "transactionHash"@) is Some) {
        Err(DefectV::Duplicate("txHash"@))
    } else if !(v is Arr) && member(v, "hash"@) is Some {
        match member(v, "hash"@) {
            Some(JsonV::Str(t)) => Ok(Some(t)),
            _ => Err(DefectV::Invalid("txHash"@)),
        }
    } else {
        text_slot(v, i, "txHash"@, "transactionHash"@)
    }
}

/// Reads the hash of a transaction.
pub(crate) fn find_hash(v: &Json, i: usize) -> (r: Result<Option<String>, Defect>)
    ensures
        match r {
            Ok(Some(t)) => hash_slot(v@, i as int) == Ok::<Option<Seq<char>>, DefectV>(Some(t@)),
            Ok(None) => hash_slot(v@, i as int) == Ok::<Option<Seq<char>>, DefectV>(None),
            Err(d) => hash_slot(v@, i as int) == Err::<Option<Seq<char>>, DefectV>(d@),
        },
{
    let third = v.get("hash");
    match third {
        Some(x) => if v.get("txHash").is_some() || v.get("transactionHash").is_some() {
            Err(Defect::Duplicate("txHash".to_owned()))
        } else {
            match x {
                Json::Str(t) => Ok(Some(t.clone())),
                _ => Err(Defect::Invalid("txHash".to_owned())),
            }
        },
        None => find_text(v, i, "txHash", "transactionHash"),
    }
}

/// The member as an array.
pub open spec fn list_slot(v: JsonV, i: int, name: Seq<char>, alias: Seq<char>) -> Result<
    Option<Seq<JsonV>>,
    DefectV,
> {
    match slot(v, i, name, alias) {
        Err(d) => Err(d),
        Ok(None) => Ok(None),
        Ok(Some(JsonV::Arr(a))) => Ok(Some(a)),
        Ok(Some(_)) => Err(DefectV::Invalid(name)),
    }
}

/// Reads an array.
pub(crate) fn find_list<'a>(v: &'a Json, i: usize, name: &str, alias: &str) -> (r: Result<Option<&'a Vec<Json>>, Defect>)
    ensures
        match r {
            Ok(Some(a)) => list_slot(v@, i as int, name@, alias@) == Ok::<Option<Seq<JsonV>>, DefectV>(Some(arr_v(a@))),
            Ok(None) => list_slot(v@, i as int, name@, alias@) == Ok::<Option<Seq<JsonV>>, DefectV>(None),
            Err(d) => list_slot(v@, i as int, name@, alias@) == Err::<Option<Seq<JsonV>>, DefectV>(d@),
        },
{
    match find(v, i, name, alias) {
        Err(d) => Err(d),
        Ok(None) => Ok(None),
        Ok(Some(Json::Arr(a))) => Ok(Some(a)),
        Ok(Some(_)) => Err(Defect::Invalid(name.to_owned())),
    }
}

/// A shape that documents can have.
pub trait Shape: Sized {
    /// What is wrong with a document, if anything is.
    spec fn defect(v: JsonV) -> Option<DefectV>;

    /// Whether `e` is what a document without a defect says.
    spec fn holds(v: JsonV, e: Self) -> bool;

    /// Reads a document.
    fn decode(v: &Json) -> (r: Result<Self, Defect>)
        ensures
            match r {
                Ok(e) => Self::defect(v@) is None && Self::holds(v@, e),
                Err(d) => Self::defect(v@) == Some(d@),
            },
    ;
}

/// The first defect in a list of documents.
pub open spec fn list_defect<T: Shape>(a: Seq<JsonV>) -> Option<DefectV>
    decreases a.len(),
{
    if a.len() == 0 {
        None
    } else {
        first(list_defect::<T>(a.drop_last()), T::defect(a.last()))
    }
}

/// Whether the elements of `e` are what the documents say, one for one.
pub open spec fn list_holds<T: Shape>(a: Seq<JsonV>, e: Seq<T>) -> bool {
    &&& e.len() == a.len()
    &&& forall|i: int| 0 <= i < a.len() ==> T::holds(#[trigger] a[i], e[i])
}

/// A defect of the first documents of a list is the defect of the list.
proof fn lemma_list_prefix<T: Shape>(a: Seq<JsonV>, n: int)
    requires
        0 <= n <= a.len(),
        list_defect::<T>(a.take(n)) is Some,
    ensures
        list_defect::<T>(a) == list_defect::<T>(a.take(n)),
    decreases a.len(),
{
    if n == a.len() {
        assert(a.take(n) =~= a);
    } else {
        assert(a.drop_last().take(n) =~= a.take(n));
        lemma_list_prefix::<T>(a.drop_last(), n);
    }
}

/// Reads a list of documents.
pub fn decode_list<T: Shape>(a: &Vec<Json>) -> (r: Result<Vec<T>, Defect>)
    ensures
        match r {
            Ok(e) => list_defect::<T>(arr_v(a@)) is None && list_holds::<T>(arr_v(a@), e@),
            Err(d) => list_defect::<T>(arr_v(a@)) == Some(d@),
        },
{
    let mut rows: Vec<T> = Vec::new();
    let n = a.len();
    let ghost all = arr_v(a@);
    proof {
        lemma_arr_v(a@);
    }
    for i in 0..n
        invariant
            n == a@.len(),
            all == arr_v(a@),
            all.len() == n,
            forall|j: int| 0 <= j < n ==> #[trigger] all[j] == a@[j]@,
            list_defect::<T>(all.take(i as int)) is None,
            list_holds::<T>(all.take(i as int), rows@),
    {
        proof {
            assert(all.take(i + 1).drop_last() =~= all.take(i as int));
            assert(all.take(i + 1).last() == all[i as int]);
        }
        match T::decode(&a[i]) {
            Ok(e) => {
                let ghost before = rows@;
                rows.push(e);
                assert forall|j: int| 0 <= j < i + 1 implies T::holds(
                    #[trigger] all.take(i + 1)[j],
                    rows@[j],
                ) by {
                    if j < i {
                        assert(all.take(i as int)[j] == all.take(i + 1)[j]);
                        assert(before[j] == rows@[j]);
                    }
                }
            },
            Err(d) => {
                proof {
                    lemma_list_prefix::<T>(all, i + 1);
                }
                return Err(d);
            },
        }
    }
    assert(all.take(n as int) =~= all);
    Ok(rows)
}

/// `GET /v1/epoch/current`: the epoch that takes commits, with its riddles.
#[derive(Debug)]
pub struct CurrentEpoch {
    /// The epoch.
    pub epoch_id: u64,
    /// When the epoch opened, in Unix seconds.
    pub start_ts: i64,
    /// When the commit window closes.
    pub commit_deadline: i64,
    /// When the reveal window closes.
    pub reveal_deadline: i64,
    /// The chain.
    pub chain_id: u64,
    /// The contract that takes commits.
    pub epoch_draw_contract: String,
    /// The contract of the tokens.
    pub ardi_nft_contract: String,
    /// The riddles of the epoch.
    pub riddles: Vec<Riddle>,
}

/// One riddle of an epoch.
#[derive(Debug)]
pub struct Riddle {
    /// The word.
    pub word_id: u64,
    /// The question.
    pub riddle: String,
    /// The power of the token.
    pub power: u16,
    /// How rare the word is.
    pub rarity: String,
    /// The language of the word.
    pub language: String,
    /// The number of the language.
    pub language_id: u8,
    /// How much the riddle gives away.
    pub hint_level: u8,
    /// The theme of the word.
    pub theme: String,
    /// The element of the word.
    pub element: String,
}

/// `GET /v1/agent/{addr}/state`: what the agent has minted and may still mint.
#[derive(Debug)]
pub struct AgentState {
    /// The agent's address.
    pub agent: String,
    /// The tokens that the agent minted.
    pub mints: Vec<MintRow>,
    /// How many tokens the agent minted.
    pub mint_count: u32,
    /// How many it may still mint.
    pub remaining_mint_cap: u32,
}

/// One token that an agent minted.
#[derive(Debug)]
pub struct MintRow {
    /// The word.
    pub word_id: u64,
    /// The token.
    pub token_id: u64,
    /// The epoch, where it is known.
    pub epoch_id: Option<u64>,
    /// When it was minted, in Unix seconds.
    pub minted_at: i64,
}

/// The result of `registry.get`: the contracts of the network.
#[derive(Debug)]
pub struct RegistryGetResult {
    /// The chain.
    pub chain_id: u64,
    /// The registry.
    pub awp_registry: String,
    /// The token.
    pub awp_token: Option<String>,
    /// The allocator.
    pub awp_allocator: Option<String>,
    /// The emission.
    pub awp_emission: Option<String>,
}

/// The result of `nonce.get`.
#[derive(Debug)]
pub struct NonceGetResult {
    /// The next nonce of the address.
    pub nonce: u64,
}

/// The result of `address.check`.
#[derive(Debug)]
pub struct AddressCheckResult {
    /// Whether the address is registered.
    pub is_registered: bool,
    /// Who receives its rewards.
    pub recipient: Option<String>,
}

/// One row of `staking.getAllocationsByAgentSubnet`: what a staker allocated. The amount comes as a number or as a text.
#[derive(Debug)]
pub struct AllocationRow {
    /// The chain.
    pub chain_id: i64,
    /// The staker.
    pub user_address: String,
    /// The amount in the smallest unit, in decimal.
    pub amount: String,
    /// Whether the allocation is frozen.
    pub frozen: bool,
}

/// What `awp-wallet sign-typed-data` prints.
#[derive(Debug)]
pub struct WalletSignTypedDataResult {
    /// The signature.
    pub signature: String,
    /// Who signed.
    pub signer: Option<String>,
}

/// What `awp-wallet send-tx` prints. The hash has had three names.
#[derive(Debug)]
pub struct WalletSendTxResult {
    /// How the wallet fared.
    pub status: Option<String>,
    /// The hash of the transaction.
    pub tx_hash: String,
    /// The sender.
    pub from: Option<String>,
    /// The receiver.
    pub to: Option<String>,
}

/// What `awp-wallet receive` prints.
#[derive(Debug)]
pub struct WalletReceiveResult {
    /// The address of the wallet.
    pub address: String,
}

/// What is wrong with a document that should be a `CurrentEpoch`.
pub open spec fn current_epoch_defect(v: JsonV) -> Option<DefectV> {
    first(
        form_defect(v, 8),
        first(
            need(uint_slot(v, 0, "epochId"@, "epoch_id"@, u64::MAX as nat), "epochId"@),
            first(
                may(int_slot(v, 1, "startTs"@, "start_ts"@)),
                first(
                    need(int_slot(v, 2, "commitDeadline"@, "commit_deadline"@), "commitDeadline"@),
                    first(
                        need(int_slot(v, 3, "revealDeadline"@, "reveal_deadline"@), "revealDeadline"@),
                        first(
                            may(uint_slot(v, 4, "chainId"@, "chain_id"@, u64::MAX as nat)),
                            first(
                                need(text_slot(v, 5, "epochDrawContract"@, "epoch_draw_contract"@), "epochDrawContract"@),
                                first(
                                    may(text_slot(v, 6, "ardiNftContract"@, "ardi_nft_contract"@)),
                                    first(need(list_slot(v, 7, "riddles"@, "riddles"@), "riddles"@), list_defect::<Riddle>(or_default(list_slot(v, 7, "riddles"@, "riddles"@), Seq::empty()))),
                                ),
                            ),
                        ),
                    ),
                ),
            ),
        ),
    )
}

/// Whether `e` is what a document without a defect says.
pub open spec fn current_epoch_holds(v: JsonV, e: CurrentEpoch) -> bool {
    &&& Ok::<Option<nat>, DefectV>(Some(e.epoch_id as nat)) == uint_slot(v, 0, "epochId"@, "epoch_id"@, u64::MAX as nat)
    &&& e.start_ts == or_default(int_slot(v, 1, "startTs"@, "start_ts"@), 0)
    &&& Ok::<Option<i64>, DefectV>(Some(e.commit_deadline)) == int_slot(v, 2, "commitDeadline"@, "commit_deadline"@)
    &&& Ok::<Option<i64>, DefectV>(Some(e.reveal_deadline)) == int_slot(v, 3, "revealDeadline"@, "reveal_deadline"@)
    &&& e.chain_id as nat == or_default(uint_slot(v, 4, "chainId"@, "chain_id"@, u64::MAX as nat), 0)
    &&& Ok::<Option<Seq<char>>, DefectV>(Some(e.epoch_draw_contract@)) == text_slot(v, 5, "epochDrawContract"@, "epoch_draw_contract"@)
    &&& e.ardi_nft_contract@ == or_default(text_slot(v, 6, "ardiNftContract"@, "ardi_nft_contract"@), Seq::empty())
    &&& list_holds::<Riddle>(or_default(list_slot(v, 7, "riddles"@, "riddles"@), Seq::empty()), e.riddles@)
}

/// What is wrong with a document that should be a `Riddle`.
pub open spec fn riddle_defect(v: JsonV) -> Option<DefectV> {
    first(
        form_defect(v, 9),
        first(
            need(uint_slot(v, 0, "wordId"@, "word_id"@, u64::MAX as nat), "wordId"@),
            first(
                need(text_slot(v, 1, "riddle"@, "riddle"@), "riddle"@),
                first(
                    may(uint_slot(v, 2, "power"@, "power"@, u16::MAX as nat)),
                    first(
                        may(text_slot(v, 3, "rarity"@, "rarity"@)),
                        first(
                            may(text_slot(v, 4, "language"@, "language"@)),
                            first(
                                may(uint_slot(v, 5, "languageId"@, "language_id"@, u8::MAX as nat)),
                                first(
                                    may(uint_slot(v, 6, "hintLevel"@, "hint_level"@, u8::MAX as nat)),
                                    first(
                                        may(text_slot(v, 7, "theme"@, "theme"@)),
                                        may(text_slot(v, 8, "element"@, "element"@)),
                                    ),
                                ),
                            ),
                        ),
                    ),
                ),
            ),
        ),
    )
}

/// Whether `e` is what a document without a defect says.
pub open spec fn riddle_holds(v: JsonV, e: Riddle) -> bool {
    &&& Ok::<Option<nat>, DefectV>(Some(e.word_id as nat)) == uint_slot(v, 0, "wordId"@, "word_id"@, u64::MAX as nat)
    &&& Ok::<Option<Seq<char>>, DefectV>(Some(e.riddle@)) == text_slot(v, 1, "riddle"@, "riddle"@)
    &&& e.power as nat == or_default(uint_slot(v, 2, "power"@, "power"@, u16::MAX as nat), 0)
    &&& e.rarity@ == or_default(text_slot(v, 3, "rarity"@, "rarity"@), Seq::empty())
    &&& e.language@ == or_default(text_slot(v, 4, "language"@, "language"@), Seq::empty())
    &&& e.language_id as nat == or_default(uint_slot(v, 5, "languageId"@, "language_id"@, u8::MAX as nat), 0)
    &&& e.hint_level as nat == or_default(uint_slot(v, 6, "hintLevel"@, "hint_level"@, u8::MAX as nat), 0)
    &&& e.theme@ == or_default(text_slot(v, 7, "theme"@, "theme"@), Seq::empty())
    &&& e.element@ == or_default(text_slot(v, 8, "element"@, "element"@), Seq::empty())
}

/// What is wrong with a document that should be a `AgentState`.
pub open spec fn agent_state_defect(v: JsonV) -> Option<DefectV> {
    first(
        form_defect(v, 4),
        first(
            need(text_slot(v, 0, "agent"@, "agent"@), "agent"@),
            first(
                first(may(list_slot(v, 1, "mints"@, "mints"@)), list_defect::<MintRow>(or_default(list_slot(v, 1, "mints"@, "mints"@), Seq::empty()))),
                first(
                    may(uint_slot(v, 2, "mintCount"@, "mint_count"@, u32::MAX as nat)),
                    may(uint_slot(v, 3, "remainingMintCap"@, "remaining_mint_cap"@, u32::MAX as nat)),
                ),
            ),
        ),
    )
}

/// Whether `e` is what a document without a defect says.
pub open spec fn agent_state_holds(v: JsonV, e: AgentState) -> bool {
    &&& Ok::<Option<Seq<char>>, DefectV>(Some(e.agent@)) == text_slot(v, 0, "agent"@, "agent"@)
    &&& list_holds::<MintRow>(or_default(list_slot(v, 1, "mints"@, "mints"@), Seq::empty()), e.mints@)
    &&& e.mint_count as nat == or_default(uint_slot(v, 2, "mintCount"@, "mint_count"@, u32::MAX as nat), 0)
    &&& e.remaining_mint_cap as nat == or_default(uint_slot(v, 3, "remainingMintCap"@, "remaining_mint_cap"@, u32::MAX as nat), 0)
}

/// What is wrong with a document that should be a `MintRow`.
pub open spec fn mint_row_defect(v: JsonV) -> Option<DefectV> {
    first(
        form_defect(v, 4),
        first(
            need(uint_slot(v, 0, "wordId"@, "word_id"@, u64::MAX as nat), "wordId"@),
            first(
                need(uint_slot(v, 1, "tokenId"@, "token_id"@, u64::MAX as nat), "tokenId"@),
                first(
                    may(nullable_uint_slot(v, 2, "epochId"@, "epoch_id"@)),
                    may(int_slot(v, 3, "mintedAt"@, "minted_at"@)),
                ),
            ),
        ),
    )
}

/// Whether `e` is what a document without a defect says.
pub open spec fn mint_row_holds(v: JsonV, e: MintRow) -> bool {
    &&& Ok::<Option<nat>, DefectV>(Some(e.word_id as nat)) == uint_slot(v, 0, "wordId"@, "word_id"@, u64::MAX as nat)
    &&& Ok::<Option<nat>, DefectV>(Some(e.token_id as nat)) == uint_slot(v, 1, "tokenId"@, "token_id"@, u64::MAX as nat)
    &&& Ok::<Option<nat>, DefectV>(opt_nat(e.epoch_id)) == nullable_uint_slot(v, 2, "epochId"@, "epoch_id"@)
    &&& e.minted_at == or_default(int_slot(v, 3, "mintedAt"@, "minted_at"@), 0)
}

/// What is wrong with a document that should be a `RegistryGetResult`.
pub open spec fn registry_get_defect(v: JsonV) -> Option<DefectV> {
    first(
        form_defect(v, 5),
        first(
            need(uint_slot(v, 0, "chainId"@, "chainId"@, u64::MAX as nat), "chainId"@),
            first(
                need(text_slot(v, 1, "awpRegistry"@, "awpRegistry"@), "awpRegistry"@),
                first(
                    may(nullable_text_slot(v, 2, "awpToken"@)),
                    first(
                        may(nullable_text_slot(v, 3, "awpAllocator"@)),
                        may(nullable_text_slot(v, 4, "awpEmission"@)),
                    ),
                ),
            ),
        ),
    )
}

/// Whether `e` is what a document without a defect says.
pub open spec fn registry_get_holds(v: JsonV, e: RegistryGetResult) -> bool {
    &&& Ok::<Option<nat>, DefectV>(Some(e.chain_id as nat)) == uint_slot(v, 0, "chainId"@, "chainId"@, u64::MAX as nat)
    &&& Ok::<Option<Seq<char>>, DefectV>(Some(e.awp_registry@)) == text_slot(v, 1, "awpRegistry"@, "awpRegistry"@)
    &&& Ok::<Option<Seq<char>>, DefectV>(opt_text_view(e.awp_token)) == nullable_text_slot(v, 2, "awpToken"@)
    &&& Ok::<Option<Seq<char>>, DefectV>(opt_text_view(e.awp_allocator)) == nullable_text_slot(v, 3, "awpAllocator"@)
    &&& Ok::<Option<Seq<char>>, DefectV>(opt_text_view(e.awp_emission)) == nullable_text_slot(v, 4, "awpEmission"@)
}

/// What is wrong with a document that should be a `NonceGetResult`.
pub open spec fn nonce_get_defect(v: JsonV) -> Option<DefectV> {
    first(
        form_defect(v, 1),
        need(uint_slot(v, 0, "nonce"@, "nonce"@, u64::MAX as nat), "nonce"@),
    )
}

/// Whether `e` is what a document without a defect says.
pub open spec fn nonce_get_holds(v: JsonV, e: NonceGetResult) -> bool {
    &&& Ok::<Option<nat>, DefectV>(Some(e.nonce as nat)) == uint_slot(v, 0, "nonce"@, "nonce"@, u64::MAX as nat)
}

/// What is wrong with a document that should be a `AddressCheckResult`.
pub open spec fn address_check_defect(v: JsonV) -> Option<DefectV> {
    first(
        form_defect(v, 2),
        first(
            need(bool_slot(v, 0, "isRegistered"@), "isRegistered"@),
            may(nullable_text_slot(v, 1, "recipient"@)),
        ),
    )
}

/// Whether `e` is what a document without a defect says.
pub open spec fn address_check_holds(v: JsonV, e: AddressCheckResult) -> bool {
    &&& Ok::<Option<bool>, DefectV>(Some(e.is_registered)) == bool_slot(v, 0, "isRegistered"@)
    &&& Ok::<Option<Seq<char>>, DefectV>(opt_text_view(e.recipient)) == nullable_text_slot(v, 1, "recipient"@)
}

/// What is wrong with a document that should be a `AllocationRow`.
pub open spec fn allocation_row_defect(v: JsonV) -> Option<DefectV> {
    first(
        form_defect(v, 4),
        first(
            need(int_slot(v, 0, "chain_id"@, "chain_id"@), "chain_id"@),
            first(
                need(text_slot(v, 1, "user_address"@, "user_address"@), "user_address"@),
                first(
                    need(amount_slot(v, 2, "amount"@), "amount"@),
                    need(bool_slot(v, 3, "frozen"@), "frozen"@),
                ),
            ),
        ),
    )
}

/// Whether `e` is what a document without a defect says.
pub open spec fn allocation_row_holds(v: JsonV, e: AllocationRow) -> bool {
    &&& Ok::<Option<i64>, DefectV>(Some(e.chain_id)) == int_slot(v, 0, "chain_id"@, "chain_id"@)
    &&& Ok::<Option<Seq<char>>, DefectV>(Some(e.user_address@)) == text_slot(v, 1, "user_address"@, "user_address"@)
    &&& Ok::<Option<Seq<char>>, DefectV>(Some(e.amount@)) == amount_slot(v, 2, "amount"@)
    &&& Ok::<Option<bool>, DefectV>(Some(e.frozen)) == bool_slot(v, 3, "frozen"@)
}

/// What is wrong with a document that should be a `WalletSignTypedDataResult`.
pub open spec fn wallet_sign_defect(v: JsonV) -> Option<DefectV> {
    first(
        form_defect(v, 2),
        first(
            need(text_slot(v, 0, "signature"@, "signature"@), "signature"@),
            may(nullable_text_slot(v, 1, "signer"@)),
        ),
    )
}

/// Whether `e` is what a document without a defect says.
pub open spec fn wallet_sign_holds(v: JsonV, e: WalletSignTypedDataResult) -> bool {
    &&& Ok::<Option<Seq<char>>, DefectV>(Some(e.signature@)) == text_slot(v, 0, "signature"@, "signature"@)
    &&& Ok::<Option<Seq<char>>, DefectV>(opt_text_view(e.signer)) == nullable_text_slot(v, 1, "signer"@)
}

/// What is wrong with a document that should be a `WalletSendTxResult`.
pub open spec fn wallet_send_defect(v: JsonV) -> Option<DefectV> {
    first(
        form_defect(v, 4),
        first(
            may(nullable_text_slot(v, 0, "status"@)),
            first(
                need(hash_slot(v, 1), "txHash"@),
                first(
                    may(nullable_text_slot(v, 2, "from"@)),
                    may(nullable_text_slot(v, 3, "to"@)),
                ),
            ),
        ),
    )
}

/// Whether `e` is what a document without a defect says.
pub open spec fn wallet_send_holds(v: JsonV, e: WalletSendTxResult) -> bool {
    &&& Ok::<Option<Seq<char>>, DefectV>(opt_text_view(e.status)) == nullable_text_slot(v, 0, "status"@)
    &&& Ok::<Option<Seq<char>>, DefectV>(Some(e.tx_hash@)) == hash_slot(v, 1)
    &&& Ok::<Option<Seq<char>>, DefectV>(opt_text_view(e.from)) == nullable_text_slot(v, 2, "from"@)
    &&& Ok::<Option<Seq<char>>, DefectV>(opt_text_view(e.to)) == nullable_text_slot(v, 3, "to"@)
}

/// What is wrong with a document that should be a `WalletReceiveResult`.
pub open spec fn wallet_receive_defect(v: JsonV) -> Option<DefectV> {
    first(
        form_defect(v, 1),
        need(text_slot(v, 0, "eoaAddress"@, "address"@), "eoaAddress"@),
    )
}

/// Whether `e` is what a document without a defect says.
pub open spec fn wallet_receive_holds(v: JsonV, e: WalletReceiveResult) -> bool {
    &&& Ok::<Option<Seq<char>>, DefectV>(Some(e.address@)) == text_slot(v, 0, "eoaAddress"@, "address"@)
}

impl Shape for CurrentEpoch {
    open spec fn defect(v: JsonV) -> Option<DefectV> {
        current_epoch_defect(v)
    }

    open spec fn holds(v: JsonV, e: CurrentEpoch) -> bool {
        current_epoch_holds(v, e)
    }

    fn decode(v: &Json) -> (r: Result<CurrentEpoch, Defect>) {
        match check_form(v, 8) {
            Ok(_) => {},
            Err(d) => {
                return Err(d);
            },
        }
        let epoch_id = match required(find_uint(v, 0, "epochId", "epoch_id", u64::MAX), "epochId") {
            Ok(x) => x,
            Err(d) => {
                return Err(d);
            },
        };
        let start_ts: i64 = match find_int(v, 1, "startTs", "start_ts") {
            Ok(Some(x)) => x,
            Ok(None) => 0,
            Err(d) => {
                return Err(d);
            },
        };
        let commit_deadline = match required(find_int(v, 2, "commitDeadline", "commit_deadline"), "commitDeadline") {
            Ok(x) => x,
            Err(d) => {
                return Err(d);
            },
        };
        let reveal_deadline = match required(find_int(v, 3, "revealDeadline", "reveal_deadline"), "revealDeadline") {
            Ok(x) => x,
            Err(d) => {
                return Err(d);
            },
        };
        let chain_id: u64 = match find_uint(v, 4, "chainId", "chain_id", u64::MAX) {
            Ok(Some(x)) => x,
            Ok(None) => 0,
            Err(d) => {
                return Err(d);
            },
        };
        let epoch_draw_contract = match required(find_text(v, 5, "epochDrawContract", "epoch_draw_contract"), "epochDrawContract") {
            Ok(x) => x,
            Err(d) => {
                return Err(d);
            },
        };
        let ardi_nft_contract: String = match find_text(v, 6, "ardiNftContract", "ardi_nft_contract") {
            Ok(Some(x)) => x,
            Ok(None) => String::new(),
            Err(d) => {
                return Err(d);
            },
        };
        let riddles = match find_list(v, 7, "riddles", "riddles") {
            Ok(Some(x)) => match decode_list::<Riddle>(x) {
                Ok(x) => x,
                Err(d) => {
                    return Err(d);
                },
            },
            Ok(None) => {
                return Err(Defect::Missing("riddles".to_owned()));
            },
            Err(d) => {
                return Err(d);
            },
        };
        Ok(CurrentEpoch { epoch_id, start_ts, commit_deadline, reveal_deadline, chain_id, epoch_draw_contract, ardi_nft_contract, riddles })
    }
}

impl Shape for Riddle {
    open spec fn defect(v: JsonV) -> Option<DefectV> {
        riddle_defect(v)
    }

    open spec fn holds(v: JsonV, e: Riddle) -> bool {
        riddle_holds(v, e)
    }

    fn decode(v: &Json) -> (r: Result<Riddle, Defect>) {
        match check_form(v, 9) {
            Ok(_) => {},
            Err(d) => {
                return Err(d);
            },
        }
        let word_id = match required(find_uint(v, 0, "wordId", "word_id", u64::MAX), "wordId") {
            Ok(x) => x,
            Err(d) => {
                return Err(d);
            },
        };
        let riddle = match required(find_text(v, 1, "riddle", "riddle"), "riddle") {
            Ok(x) => x,
            Err(d) => {
                return Err(d);
            },
        };
        let power: u16 = match find_uint(v, 2, "power", "power", u16::MAX as u64) {
            Ok(Some(x)) => x as u16,
            Ok(None) => 0,
            Err(d) => {
                return Err(d);
            },
        };
        let rarity: String = match find_text(v, 3, "rarity", "rarity") {
            Ok(Some(x)) => x,
            Ok(None) => String::new(),
            Err(d) => {
                return Err(d);
            },
        };
        let language: String = match find_text(v, 4, "language", "language") {
            Ok(Some(x)) => x,
            Ok(None) => String::new(),
            Err(d) => {
                return Err(d);
            },
        };
        let language_id: u8 = match find_uint(v, 5, "languageId", "language_id", u8::MAX as u64) {
            Ok(Some(x)) => x as u8,
            Ok(None) => 0,
            Err(d) => {
                return Err(d);
            },
        };
        let hint_level: u8 = match find_uint(v, 6, "hintLevel", "hint_level", u8::MAX as u64) {
            Ok(Some(x)) => x as u8,
            Ok(None) => 0,
            Err(d) => {
                return Err(d);
            },
        };
        let theme: String = match find_text(v, 7, "theme", "theme") {
            Ok(Some(x)) => x,
            Ok(None) => String::new(),
            Err(d) => {
                return Err(d);
            },
        };
        let element: String = match find_text(v, 8, "element", "element") {
            Ok(Some(x)) => x,
            Ok(None) => String::new(),
            Err(d) => {
                return Err(d);
            },
        };
        Ok(Riddle { word_id, riddle, power, rarity, language, language_id, hint_level, theme, element })
    }
}

impl Shape for AgentState {
    open spec fn defect(v: JsonV) -> Option<DefectV> {
        agent_state_defect(v)
    }

    open spec fn holds(v: JsonV, e: AgentState) -> bool {
        agent_state_holds(v, e)
    }

    fn decode(v: &Json) -> (r: Result<AgentState, Defect>) {
        match check_form(v, 4) {
            Ok(_) => {},
            Err(d) => {
                return Err(d);
            },
        }
        let agent = match required(find_text(v, 0, "agent", "agent"), "agent") {
            Ok(x) => x,
            Err(d) => {
                return Err(d);
            },
        };
        let mints = match find_list(v, 1, "mints", "mints") {
            Ok(Some(x)) => match decode_list::<MintRow>(x) {
                Ok(x) => x,
                Err(d) => {
                    return Err(d);
                },
            },
            Ok(None) => {
                let none: Vec<MintRow> = Vec::new();
                none
            },
            Err(d) => {
                return Err(d);
            },
        };
        let mint_count: u32 = match find_uint(v, 2, "mintCount", "mint_count", u32::MAX as u64) {
            Ok(Some(x)) => x as u32,
            Ok(None) => 0,
            Err(d) => {
                return Err(d);
            },
        };
        let remaining_mint_cap: u32 = match find_uint(v, 3, "remainingMintCap", "remaining_mint_cap", u32::MAX as u64) {
            Ok(Some(x)) => x as u32,
            Ok(None) => 0,
            Err(d) => {
                return Err(d);
            },
        };
        Ok(AgentState { agent, mints, mint_count, remaining_mint_cap })
    }
}

impl Shape for MintRow {
    open spec fn defect(v: JsonV) -> Option<DefectV> {
        mint_row_defect(v)
    }

    open spec fn holds(v: JsonV, e: MintRow) -> bool {
        mint_row_holds(v, e)
    }

    fn decode(v: &Json) -> (r: Result<MintRow, Defect>) {
        match check_form(v, 4) {
            Ok(_) => {},
            Err(d) => {
                return Err(d);
            },
        }
        let word_id = match required(find_uint(v, 0, "wordId", "word_id", u64::MAX), "wordId") {
            Ok(x) => x,
            Err(d) => {
                return Err(d);
            },
        };
        let token_id = match required(find_uint(v, 1, "tokenId", "token_id", u64::MAX), "tokenId") {
            Ok(x) => x,
            Err(d) => {
                return Err(d);
            },
        };
        let epoch_id = match find_nullable_uint(v, 2, "epochId", "epoch_id") {
            Ok(x) => x,
            Err(d) => {
                return Err(d);
            },
        };
        let minted_at: i64 = match find_int(v, 3, "mintedAt", "minted_at") {
            Ok(Some(x)) => x,
            Ok(None) => 0,
            Err(d) => {
                return Err(d);
            },
        };
        Ok(MintRow { word_id, token_id, epoch_id, minted_at })
    }
}

impl Shape for RegistryGetResult {
    open spec fn defect(v: JsonV) -> Option<DefectV> {
        registry_get_defect(v)
    }

    open spec fn holds(v: JsonV, e: RegistryGetResult) -> bool {
        registry_get_holds(v, e)
    }

    fn decode(v: &Json) -> (r: Result<RegistryGetResult, Defect>) {
        match check_form(v, 5) {
            Ok(_) => {},
            Err(d) => {
                return Err(d);
            },
        }
        let chain_id = match required(find_uint(v, 0, "chainId", "chainId", u64::MAX), "chainId") {
            Ok(x) => x,
            Err(d) => {
                return Err(d);
            },
        };
        let awp_registry = match required(find_text(v, 1, "awpRegistry", "awpRegistry"), "awpRegistry") {
            Ok(x) => x,
            Err(d) => {
                return Err(d);
            },
        };
        let awp_token = match find_nullable_text(v, 2, "awpToken") {
            Ok(x) => x,
            Err(d) => {
                return Err(d);
            },
        };
        let awp_allocator = match find_nullable_text(v, 3, "awpAllocator") {
            Ok(x) => x,
            Err(d) => {
                return Err(d);
            },
        };
        let awp_emission = match find_nullable_text(v, 4, "awpEmission") {
            Ok(x) => x,
            Err(d) => {
                return Err(d);
            },
        };
        Ok(RegistryGetResult { chain_id, awp_registry, awp_token, awp_allocator, awp_emission })
    }
}

impl Shape for NonceGetResult {
    open spec fn defect(v: JsonV) -> Option<DefectV> {
        nonce_get_defect(v)
    }

    open spec fn holds(v: JsonV, e: NonceGetResult) -> bool {
        nonce_get_holds(v, e)
    }

    fn decode(v: &Json) -> (r: Result<NonceGetResult, Defect>) {
        match check_form(v, 1) {
            Ok(_) => {},
            Err(d) => {
                return Err(d);
            },
        }
        let nonce = match required(find_uint(v, 0, "nonce", "nonce", u64::MAX), "nonce") {
            Ok(x) => x,
            Err(d) => {
                return Err(d);
            },
        };
        Ok(NonceGetResult { nonce })
    }
}

impl Shape for AddressCheckResult {
    open spec fn defect(v: JsonV) -> Option<DefectV> {
        address_check_defect(v)
    }

    open spec fn holds(v: JsonV, e: AddressCheckResult) -> bool {
        address_check_holds(v, e)
    }

    fn decode(v: &Json) -> (r: Result<AddressCheckResult, Defect>) {
        match check_form(v, 2) {
            Ok(_) => {},
            Err(d) => {
                return Err(d);
            },
        }
        let is_registered = match required(find_bool(v, 0, "isRegistered"), "isRegistered") {
            Ok(x) => x,
            Err(d) => {
                return Err(d);
            },
        };
        let recipient = match find_nullable_text(v, 1, "recipient") {
            Ok(x) => x,
            Err(d) => {
                return Err(d);
            },
        };
        Ok(AddressCheckResult { is_registered, recipient })
    }
}

impl Shape for AllocationRow {
    open spec fn defect(v: JsonV) -> Option<DefectV> {
        allocation_row_defect(v)
    }

    open spec fn holds(v: JsonV, e: AllocationRow) -> bool {
        allocation_row_holds(v, e)
    }

    fn decode(v: &Json) -> (r: Result<AllocationRow, Defect>) {
        assert(<AllocationRow as Shape>::defect(v@) == allocation_row_defect(v@));
        match check_form(v, 4) {
            Ok(_) => {},
            Err(d) => {
                return Err(d);
            },
        }
        let chain_id = match required(find_int(v, 0, "chain_id", "chain_id"), "chain_id") {
            Ok(x) => x,
            Err(d) => {
                return Err(d);
            },
        };
        let user_address = match required(find_text(v, 1, "user_address", "user_address"), "user_address") {
            Ok(x) => x,
            Err(d) => {
                return Err(d);
            },
        };
        let amount = match required(find_amount(v, 2, "amount"), "amount") {
            Ok(x) => x,
            Err(d) => {
                return Err(d);
            },
        };
        let frozen = match required(find_bool(v, 3, "frozen"), "frozen") {
            Ok(x) => x,
            Err(d) => {
                return Err(d);
            },
        };
        let e = AllocationRow { chain_id, user_address, amount, frozen };
        assert(<AllocationRow as Shape>::holds(v@, e) == allocation_row_holds(v@, e));
        Ok(e)
    }
}

impl Shape for WalletSignTypedDataResult {
    open spec fn defect(v: JsonV) -> Option<DefectV> {
        wallet_sign_defect(v)
    }

    open spec fn holds(v: JsonV, e: WalletSignTypedDataResult) -> bool {
        wallet_sign_holds(v, e)
    }

    fn decode(v: &Json) -> (r: Result<WalletSignTypedDataResult, Defect>) {
        match check_form(v, 2) {
            Ok(_) => {},
            Err(d) => {
                return Err(d);
            },
        }
        let signature = match required(find_text(v, 0, "signature", "signature"), "signature") {
            Ok(x) => x,
            Err(d) => {
                return Err(d);
            },
        };
        let signer = match find_nullable_text(v, 1, "signer") {
            Ok(x) => x,
            Err(d) => {
                return Err(d);
            },
        };
        Ok(WalletSignTypedDataResult { signature, signer })
    }
}

impl Shape for WalletSendTxResult {
    open spec fn defect(v: JsonV) -> Option<DefectV> {
        wallet_send_defect(v)
    }

    open spec fn holds(v: JsonV, e: WalletSendTxResult) -> bool {
        wallet_send_holds(v, e)
    }

    fn decode(v: &Json) -> (r: Result<WalletSendTxResult, Defect>) {
        match check_form(v, 4) {
            Ok(_) => {},
            Err(d) => {
                return Err(d);
            },
        }
        let status = match find_nullable_text(v, 0, "status") {
            Ok(x) => x,
            Err(d) => {
                return Err(d);
            },
        };
        let tx_hash = match required(find_hash(v, 1), "txHash") {
            Ok(x) => x,
            Err(d) => {
                return Err(d);
            },
        };
        let from = match find_nullable_text(v, 2, "from") {
            Ok(x) => x,
            Err(d) => {
                return Err(d);
            },
        };
        let to = match find_nullable_text(v, 3, "to") {
            Ok(x) => x,
            Err(d) => {
                return Err(d);
            },
        };
        Ok(WalletSendTxResult { status, tx_hash, from, to })
    }
}

impl Shape for WalletReceiveResult {
    open spec fn defect(v: JsonV) -> Option<DefectV> {
        wallet_receive_defect(v)
    }

    open spec fn holds(v: JsonV, e: WalletReceiveResult) -> bool {
        wallet_receive_holds(v, e)
    }

    fn decode(v: &Json) -> (r: Result<WalletReceiveResult, Defect>) {
        match check_form(v, 1) {
            Ok(_) => {},
            Err(d) => {
                return Err(d);
            },
        }
        let address = match required(find_text(v, 0, "eoaAddress", "address"), "eoaAddress") {
            Ok(x) => x,
            Err(d) => {
                return Err(d);
            },
        };
        Ok(WalletReceiveResult { address })
    }
}

/// The error of a document that could not be read: which one it is, the defect, and the document.
pub open spec fn refused_v(name: Seq<char>, d: DefectV, v: JsonV) -> Seq<Seq<char>> {
    fault_v("decode "@ + name + ": "@ + defect_text(d) + "\n  raw: "@ + json_text(v))
}

/// The error of a document that could not be read.
fn refuse(name: &str, d: &Defect, v: &Json) -> (r: Fault)
    ensures
        r@ == refused_v(name@, d@, v@),
{
    let t = d.text();
    let raw = v.render();
    Fault::new(cat6("decode ", name, ": ", t.as_str(), "\n  raw: ", raw.as_str()))
}

/// Reads a document of the given name, or says which one it is that could not be read and why.
pub fn parse<T: Shape>(name: &str, v: &Json) -> (r: Result<T, Fault>)
    ensures
        match r {
            Ok(e) => T::defect(v@) is None && T::holds(v@, e),
            Err(f) => match T::defect(v@) {
                Some(d) => f@ == refused_v(name@, d, v@),
                None => false,
            },
        },
{
    match T::decode(v) {
        Ok(e) => Ok(e),
        Err(d) => Err(refuse(name, &d, v)),
    }
}

/// The parts of an epoch are read under their own names, in either spelling.
pub proof fn law_epoch_is_read_by_name(m: Map<Seq<char>, JsonV>, e: CurrentEpoch, t: Seq<char>)
    requires
        current_epoch_holds(JsonV::Obj(m), e),
    ensures
        member(JsonV::Obj(m), "epochId"@) == Some(JsonV::Num(t)) || member(JsonV::Obj(m), "epoch_id"@) == Some(JsonV::Num(t))
            ==> parsed_uint(t, 10, u64::MAX as nat) == Some(e.epoch_id as nat),
        member(JsonV::Obj(m), "commitDeadline"@) == Some(JsonV::Num(t)) || member(JsonV::Obj(m), "commit_deadline"@) == Some(
            JsonV::Num(t),
        ) ==> parsed_i64(t) == Some(e.commit_deadline),
        member(JsonV::Obj(m), "revealDeadline"@) == Some(JsonV::Num(t)) || member(JsonV::Obj(m), "reveal_deadline"@) == Some(
            JsonV::Num(t),
        ) ==> parsed_i64(t) == Some(e.reveal_deadline),
        member(JsonV::Obj(m), "epochDrawContract"@) == Some(JsonV::Str(t)) || member(
            JsonV::Obj(m),
            "epoch_draw_contract"@,
        ) == Some(JsonV::Str(t)) ==> e.epoch_draw_contract@ == t,
        member(JsonV::Obj(m), "riddles"@) matches Some(JsonV::Arr(a)) ==> e.riddles@.len() == a.len() && forall|i: int|
            0 <= i < a.len() ==> riddle_holds(#[trigger] a[i], e.riddles@[i]),
{
    if let Some(JsonV::Arr(a)) = member(JsonV::Obj(m), "riddles"@) {
        assert forall|i: int| 0 <= i < a.len() implies riddle_holds(#[trigger] a[i], e.riddles@[i]) by {
            assert(Riddle::holds(a[i], e.riddles@[i]));
        }
    }
}

/// The parts of a riddle are read under their own names.
pub proof fn law_riddle_is_read_by_name(m: Map<Seq<char>, JsonV>, e: Riddle, t: Seq<char>)
    requires
        riddle_holds(JsonV::Obj(m), e),
        riddle_defect(JsonV::Obj(m)) is None,
    ensures
        member(JsonV::Obj(m), "wordId"@) == Some(JsonV::Num(t)) || member(JsonV::Obj(m), "word_id"@) == Some(JsonV::Num(t))
            ==> parsed_uint(t, 10, u64::MAX as nat) == Some(e.word_id as nat),
        member(JsonV::Obj(m), "riddle"@) == Some(JsonV::Str(t)) ==> e.riddle@ == t,
        member(JsonV::Obj(m), "power"@) == Some(JsonV::Num(t)) ==> parsed_uint(t, 10, u16::MAX as nat) == Some(e.power as nat),
        member(JsonV::Obj(m), "rarity"@) == Some(JsonV::Str(t)) ==> e.rarity@ == t,
        member(JsonV::Obj(m), "language"@) == Some(JsonV::Str(t)) ==> e.language@ == t,
        member(JsonV::Obj(m), "languageId"@) == Some(JsonV::Num(t)) || member(JsonV::Obj(m), "language_id"@) == Some(
            JsonV::Num(t),
        ) ==> parsed_uint(t, 10, u8::MAX as nat) == Some(e.language_id as nat),
        member(JsonV::Obj(m), "theme"@) == Some(JsonV::Str(t)) ==> e.theme@ == t,
        member(JsonV::Obj(m), "element"@) == Some(JsonV::Str(t)) ==> e.element@ == t,
{
}

} // verus!
