//! Transactions and read-only calls: the call data, the transaction document, and what nodes reply.
use vstd::prelude::*;
use vstd::string::*;
use vstd::utf8::encode_utf8;

use crate::address::Address;
use crate::bytes::{
    be_number, hex_0x, hex_bytes, hex_decode, law_hex_round_trip, lemma_strip_hex_0x, to_hex_0x,
};
use crate::chain::{
    address_arg, address_args, address_result, address_word, address_words, arg_at, bool_arg, bool_word, bytes_tail,
    call1, call2, call3, call_list, call_word_list, call_words_bytes, call_words_bytes_word, call_words_list,
    lemma_list_tail, lemma_static_args, lemma_word_lengths, list_tail, selector_of, static_call, uint_arg, uint_args,
    uint_words,
};
use crate::fault::{fault_v, Fault};
use crate::flow::{stray, stray_v, Action, ActionV, Reply, Step, TxFault, TxRequest, TxRequestV};
use crate::json::{empty_object, member, member_str, num_v, str_of, u64_of, with_member, Json, JsonV};
use crate::num::{
    dec_text, hex_text, hex_u128, law_dec_round_trip, law_hex_text_round_trip, lemma_hex_text, parse_uint,
    parsed_uint,
};
use crate::text::{cat2, has_prefix, strip_prefixes, text_eq, without_prefixes};
use crate::u256::{be_word, lemma_u256_bound, word_base, U256};
use crate::wallet::send_args_v;

verus! {

/// The chain.
pub const BASE_CHAIN_ID: u64 = 8453;

/// The bond of a commit: 0.00001 ETH.
pub const COMMIT_BOND_WEI: u128 = 10_000_000_000_000;

/// The number that a node states in hexadecimal; anything else counts as zero.
pub open spec fn quantity(v: JsonV, max: nat) -> nat {
    let s = match str_of(v) {
        Some(t) => t,
        None => "0x0"@,
    };
    match parsed_uint(without_prefixes(s, "0x"@), 16, max) {
        Some(n) => n,
        None => 0,
    }
}

/// The number that a node states in hexadecimal.
fn read_quantity(v: &Json, max: u128) -> (r: u128)
    ensures
        r == quantity(v@, max as nat),
        r <= max,
{
    let s = match v.as_str() {
        Some(t) => t,
        None => "0x0",
    };
    let digits = strip_prefixes(s, "0x");
    match parse_uint(digits.as_str(), 16, max) {
        Some(n) => n,
        None => 0,
    }
}

/// An account and a point in time, as the parameters of a call.
pub open spec fn account_params(a: Seq<u8>, tag: Seq<char>) -> JsonV {
    JsonV::Arr(seq![JsonV::Str(hex_0x(a)), JsonV::Str(tag)])
}

/// An account and a point in time, as the parameters of a call.
fn account(a: &Address, tag: &str) -> (r: Json)
    ensures
        r@ == account_params(a@, tag@),
{
    let t = a.lower();
    Json::list2(Json::Str(t), Json::text(tag))
}

/// The fee per gas that is offered: twice the current price, and at least 0.001 gwei.
pub open spec fn max_fee(base_fee: nat) -> nat {
    if base_fee * 2 < 1_000_000 {
        1_000_000
    } else {
        base_fee * 2
    }
}

/// The document of a transaction.
pub open spec fn tx_json(t: TxRequestV, nonce: nat, base_fee: nat) -> JsonV {
    let o = with_member(empty_object(), "chainId"@, num_v(8453));
    let o = with_member(o, "from"@, JsonV::Str(hex_0x(t.from)));
    let o = with_member(o, "to"@, JsonV::Str(hex_0x(t.to)));
    let o = with_member(o, "data"@, JsonV::Str(hex_0x(t.data)));
    let o = with_member(o, "value"@, JsonV::Str("0x"@ + hex_text(t.value_wei as nat)));
    let o = with_member(o, "nonce"@, num_v(nonce as int));
    let o = with_member(o, "gas"@, JsonV::Str("0x"@ + hex_text(t.gas_limit as nat)));
    let o = with_member(o, "maxFeePerGas"@, JsonV::Str("0x"@ + hex_text(max_fee(base_fee))));
    let o = with_member(o, "maxPriorityFeePerGas"@, JsonV::Str("0x"@ + hex_text(1_000_000)));
    with_member(o, "type"@, JsonV::Str("0x2"@))
}

/// The document of a transaction, with the nonce and the gas price that the chain stated.
pub fn build_tx(t: &TxRequest, nonce: u64, base_fee: u128) -> (r: Json)
    requires
        base_fee * 2 <= u128::MAX,
    ensures
        r@ == tx_json(t@, nonce as nat, base_fee as nat),
{
    let fee: u128 = if base_fee * 2 < 1_000_000 {
        1_000_000
    } else {
        base_fee * 2
    };
    let from = t.from.lower();
    let to = t.to.lower();
    let data = to_hex_0x(t.data.as_slice());
    let o = Json::object();
    let o = o.with("chainId", Json::number(BASE_CHAIN_ID));
    let o = o.with("from", Json::Str(from));
    let o = o.with("to", Json::Str(to));
    let o = o.with("data", Json::Str(data));
    let o = o.with("value", Json::Str(hex_u128(t.value_wei)));
    let o = o.with("nonce", Json::number(nonce));
    let o = o.with("gas", Json::Str(hex_u128(t.gas_limit as u128)));
    let o = o.with("maxFeePerGas", Json::Str(hex_u128(fee)));
    let o = o.with("maxPriorityFeePerGas", Json::Str(hex_u128(1_000_000)));
    o.with("type", Json::text("0x2"))
}

/// Putting a transaction together and handing it to the wallet.
pub enum Submitting {
    /// The nonce of the sender is asked for.
    Nonce(TxRequest),
    /// The gas price is asked for.
    Price(TxRequest, u64),
    /// The wallet signs and sends.
    Wallet,
}

/// Whether a step ends with a transaction that was not put together.
pub open spec fn unbuilt(r: Step<Submitting, Result<String, TxFault>>, f: Seq<Seq<char>>) -> bool {
    r matches Step::End(Err(TxFault::Build(g))) && g@ == f
}

/// What comes next when a transaction is put together.
pub open spec fn submitting_next(s: Submitting, reply: Reply, r: Step<Submitting, Result<String, TxFault>>) -> bool {
    match (s, reply) {
        (Submitting::Nonce(t), Reply::Doc(Ok(v))) => {
            &&& r matches Step::Act(Submitting::Price(u, n), a)
            &&& u == t
            &&& n == quantity(v@, u64::MAX as nat)
            &&& a@ == ActionV::Rpc("eth_gasPrice"@, JsonV::Arr(Seq::empty()))
        },
        (Submitting::Price(t, n), Reply::Doc(Ok(v))) => {
            let fee = quantity(v@, u128::MAX as nat);
            if fee * 2 > u128::MAX {
                unbuilt(r, fault_v("gas price out of range"@))
            } else {
                &&& r matches Step::Act(Submitting::Wallet, a)
                &&& a@ == ActionV::Send(tx_json(t@, n as nat, fee))
            }
        },
        (Submitting::Nonce(_), Reply::Doc(Err(f))) => unbuilt(r, f@),
        (Submitting::Price(_, _), Reply::Doc(Err(f))) => unbuilt(r, f@),
        (Submitting::Wallet, Reply::Text(Ok(h))) => r matches Step::End(Ok(x)) && x == h,
        (Submitting::Wallet, Reply::Text(Err(f))) => r matches Step::End(Err(TxFault::Send(g))) && g
            == f,
        _ => unbuilt(r, stray_v()),
    }
}

/// Starts to put a transaction together and to send it: the nonce, the gas price, then the wallet.
pub fn submit(t: TxRequest) -> (r: Step<Submitting, Result<String, TxFault>>)
    ensures
        r matches Step::Act(Submitting::Nonce(u), a) && u == t && a@ == ActionV::Rpc(
            "eth_getTransactionCount"@,
            account_params(t.from@, "pending"@),
        ),
{
    let a = Action::Rpc("eth_getTransactionCount".to_owned(), account(&t.from, "pending"));
    Step::Act(Submitting::Nonce(t), a)
}

/// The nonce that a node states.
pub fn nonce_for(reply: &Json) -> (r: u64)
    ensures
        r == quantity(reply@, u64::MAX as nat),
{
    read_quantity(reply, u64::MAX as u128) as u64
}

/// The gas price that a node states.
pub fn gas_price_gwei(reply: &Json) -> (r: u128)
    ensures
        r == quantity(reply@, u128::MAX as nat),
{
    read_quantity(reply, u128::MAX)
}

impl Submitting {
    /// Goes on with the reply.
    pub fn step(self, reply: Reply) -> (r: Step<Submitting, Result<String, TxFault>>)
        ensures
            submitting_next(self, reply, r),
    {
        match (self, reply) {
            (Submitting::Nonce(t), Reply::Doc(Ok(v))) => Step::Act(
                Submitting::Price(t, nonce_for(&v)),
                Action::Rpc("eth_gasPrice".to_owned(), Json::list0()),
            ),
            (Submitting::Price(t, n), Reply::Doc(Ok(v))) => {
                let fee = gas_price_gwei(&v);
                if fee > u128::MAX / 2 {
                    return Step::End(Err(TxFault::Build(Fault::of("gas price out of range"))));
                }
                Step::Act(Submitting::Wallet, Action::Send(build_tx(&t, n, fee)))
            },
            (Submitting::Nonce(_), Reply::Doc(Err(f))) => Step::End(Err(TxFault::Build(f))),
            (Submitting::Price(_, _), Reply::Doc(Err(f))) => Step::End(Err(TxFault::Build(f))),
            (Submitting::Wallet, Reply::Text(Ok(h))) => Step::End(Ok(h)),
            (Submitting::Wallet, Reply::Text(Err(f))) => Step::End(Err(TxFault::Send(f))),
            _ => Step::End(Err(TxFault::Build(stray()))),
        }
    }
}

/// The parameters of a read-only call.
pub open spec fn view_params(to: Seq<u8>, data: Seq<u8>) -> JsonV {
    let o = with_member(empty_object(), "to"@, JsonV::Str(hex_0x(to)));
    let o = with_member(o, "data"@, JsonV::Str(hex_0x(data)));
    JsonV::Arr(seq![o, JsonV::Str("latest"@)])
}

/// The bytes that a node states in hexadecimal; anything else counts as none.
pub open spec fn view_bytes(v: JsonV) -> Seq<u8> {
    let s = match str_of(v) {
        Some(t) => t,
        None => "0x"@,
    };
    match hex_bytes(without_prefixes(s, "0x"@)) {
        Some(b) => b,
        None => Seq::empty(),
    }
}

/// A read-only call: the reply is waited for.
pub struct Viewing {}

/// Starts a read-only call.
pub fn view_call(to: &Address, data: &Vec<u8>) -> (r: Step<Viewing, Result<Vec<u8>, Fault>>)
    ensures
        r matches Step::Act(_, a) && a@ == ActionV::Rpc("eth_call"@, view_params(to@, data@)),
{
    let o = Json::object();
    let o = o.with("to", Json::Str(to.lower()));
    let o = o.with("data", Json::Str(to_hex_0x(data.as_slice())));
    let params = Json::list2(o, Json::text("latest"));
    Step::Act(Viewing {  }, Action::Rpc("eth_call".to_owned(), params))
}

/// The bytes that a node states.
pub fn read_view(v: &Json) -> (r: Vec<u8>)
    ensures
        r@ == view_bytes(v@),
{
    let s = match v.as_str() {
        Some(t) => t,
        None => "0x",
    };
    let digits = strip_prefixes(s, "0x");
    match hex_decode(digits.as_str()) {
        Ok(b) => b,
        Err(_) => Vec::new(),
    }
}

impl Viewing {
    /// Ends with the reply.
    pub fn step(self, reply: Reply) -> (r: Step<Viewing, Result<Vec<u8>, Fault>>)
        ensures
            match reply {
                Reply::Doc(Ok(v)) => r matches Step::End(Ok(b)) && b@ == view_bytes(v@),
                Reply::Doc(Err(f)) => r matches Step::End(Err(g)) && g == f,
                _ => r matches Step::End(Err(g)) && g@ == stray_v(),
            },
    {
        match reply {
            Reply::Doc(Ok(v)) => Step::End(Ok(read_view(&v))),
            Reply::Doc(Err(f)) => Step::End(Err(f)),
            _ => Step::End(Err(stray())),
        }
    }
}

/// Reading a balance: the reply is waited for.
pub struct Weighing {}

/// Starts to read the balance of an account.
pub fn eth_balance(a: &Address) -> (r: Step<Weighing, Result<u128, Fault>>)
    ensures
        r matches Step::Act(_, act) && act@ == ActionV::Rpc(
            "eth_getBalance"@,
            account_params(a@, "latest"@),
        ),
{
    Step::Act(Weighing {  }, Action::Rpc("eth_getBalance".to_owned(), account(a, "latest")))
}

impl Weighing {
    /// Ends with the reply.
    pub fn step(self, reply: Reply) -> (r: Step<Weighing, Result<u128, Fault>>)
        ensures
            match reply {
                Reply::Doc(Ok(v)) => r matches Step::End(Ok(n)) && n == quantity(v@, u128::MAX as nat),
                Reply::Doc(Err(f)) => r matches Step::End(Err(g)) && g == f,
                _ => r matches Step::End(Err(g)) && g@ == stray_v(),
            },
    {
        match reply {
            Reply::Doc(Ok(v)) => Step::End(Ok(read_quantity(&v, u128::MAX))),
            Reply::Doc(Err(f)) => Step::End(Err(f)),
            _ => Step::End(Err(stray())),
        }
    }
}

/// Waiting for a receipt.
pub enum Waiting {
    /// The time at which the wait begins is asked for; it may last some seconds.
    Start(String, u64),
    /// The receipt is asked for; the wait ends at some time.
    Ask(String, u64),
    /// The time is asked for.
    Clock(String, u64),
    /// Some time passes.
    Pause(String, u64),
}

/// Whether a receipt says that the transaction succeeded, and its block.
pub open spec fn receipt_v(v: JsonV) -> (bool, nat) {
    let success = member_str(v, "status"@) == Some("0x1"@);
    let block = match member_str(v, "blockNumber"@) {
        Some(s) => match parsed_uint(without_prefixes(s, "0x"@), 16, u64::MAX as nat) {
            Some(n) => n,
            None => 0,
        },
        None => 0,
    };
    (success, block)
}

/// Whether a receipt says that the transaction succeeded, and its block.
pub fn read_receipt(v: &Json) -> (r: (bool, u64))
    ensures
        r.0 == receipt_v(v@).0,
        r.1 == receipt_v(v@).1,
{
    let success = match v.get_str("status") {
        Some(s) => text_eq(s, "0x1"),
        None => false,
    };
    let block = match v.get_str("blockNumber") {
        Some(s) => {
            let digits = strip_prefixes(s, "0x");
            match parse_uint(digits.as_str(), 16, u64::MAX as u128) {
                Some(n) => n as u64,
                None => 0,
            }
        },
        None => 0,
    };
    (success, block)
}

/// The action that asks for a receipt.
pub open spec fn receipt_action(hash: Seq<char>) -> ActionV {
    ActionV::Rpc("eth_getTransactionReceipt"@, JsonV::Arr(seq![JsonV::Str(hash)]))
}

/// When a wait that begins at some time is over. Past the end of the clock it never is.
pub open spec fn wait_ends(start: u64, timeout: u64) -> int {
    if start + timeout <= u64::MAX {
        start + timeout
    } else {
        u64::MAX as int
    }
}

/// The next step asks for the receipt.
pub open spec fn asks_receipt(hash: String, end: int, r: Step<Waiting, Result<(bool, u64), Fault>>) -> bool {
    &&& r matches Step::Act(Waiting::Ask(g, u), a)
    &&& g == hash
    &&& u == end
    &&& a@ == receipt_action(hash@)
}

/// What comes next when a receipt is waited for: it is asked for every two seconds until it is there or
/// the time is over.
pub open spec fn waiting_next(s: Waiting, reply: Reply, r: Step<Waiting, Result<(bool, u64), Fault>>) -> bool {
    match (s, reply) {
        (Waiting::Start(h, t), Reply::Secs(n)) => asks_receipt(h, wait_ends(n, t), r),
        (Waiting::Ask(h, t), Reply::Doc(Ok(v))) => if v@ == JsonV::Null {
            &&& r matches Step::Act(Waiting::Clock(g, u), a)
            &&& g == h
            &&& u == t
            &&& a@ == ActionV::Elapsed
        } else {
            r matches Step::End(Ok(x)) && x.0 == receipt_v(v@).0 && x.1 == receipt_v(v@).1
        },
        (Waiting::Ask(_, _), Reply::Doc(Err(f))) => r matches Step::End(Err(g)) && g == f,
        (Waiting::Clock(h, t), Reply::Secs(n)) => if n >= t {
            r matches Step::End(Err(f)) && f@ == fault_v("receipt timeout for "@ + h@)
        } else {
            &&& r matches Step::Act(Waiting::Pause(g, u), a)
            &&& g == h
            &&& u == t
            &&& a@ == ActionV::Sleep(2)
        },
        (Waiting::Pause(h, t), Reply::Done(_)) => asks_receipt(h, t as int, r),
        _ => r matches Step::End(Err(f)) && f@ == stray_v(),
    }
}

/// Starts to wait for the receipt of a transaction.
pub fn wait_receipt(hash: String, timeout_secs: u64) -> (r: Step<Waiting, Result<(bool, u64), Fault>>)
    ensures
        r matches Step::Act(Waiting::Start(h, t), a) && h == hash && t == timeout_secs && a@
            == ActionV::Elapsed,
{
    Step::Act(Waiting::Start(hash, timeout_secs), Action::Elapsed)
}

fn ask_receipt(hash: String, end: u64) -> (r: Step<Waiting, Result<(bool, u64), Fault>>)
    ensures
        asks_receipt(hash, end as int, r),
{
    let a = Action::Rpc(
        "eth_getTransactionReceipt".to_owned(),
        Json::list1(Json::text(hash.as_str())),
    );
    Step::Act(Waiting::Ask(hash, end), a)
}

impl Waiting {
    /// Goes on with the reply.
    pub fn step(self, reply: Reply) -> (r: Step<Waiting, Result<(bool, u64), Fault>>)
        ensures
            waiting_next(self, reply, r),
    {
        match (self, reply) {
            (Waiting::Start(h, t), Reply::Secs(n)) => ask_receipt(h, n.saturating_add(t)),
            (Waiting::Ask(h, t), Reply::Doc(Ok(v))) => {
                if v.is_null() {
                    Step::Act(Waiting::Clock(h, t), Action::Elapsed)
                } else {
                    Step::End(Ok(read_receipt(&v)))
                }
            },
            (Waiting::Ask(_, _), Reply::Doc(Err(f))) => Step::End(Err(f)),
            (Waiting::Clock(h, t), Reply::Secs(n)) => {
                if n >= t {
                    Step::End(Err(Fault::new(cat2("receipt timeout for ", h.as_str()))))
                } else {
                    Step::Act(Waiting::Pause(h, t), Action::Sleep(2))
                }
            },
            (Waiting::Pause(h, t), Reply::Done(_)) => ask_receipt(h, t),
            _ => Step::End(Err(stray())),
        }
    }
}

/// How long the receipt of a transaction is waited for, in seconds.
pub const RECEIPT_SECS: u64 = 60;

/// Making a transaction.
pub enum Sending {
    /// It is put together and sent.
    Submit(Submitting),
    /// It was sent under this hash, and its receipt is waited for.
    Wait(String, Waiting),
}

/// What comes next once a step of sending is taken: with the hash, the wait for the receipt begins.
pub open spec fn submitted_next(
    y: Step<Submitting, Result<String, TxFault>>,
    r: Step<Sending, Result<(String, bool), TxFault>>,
) -> bool {
    match y {
        Step::Act(u, act) => r == Step::<Sending, Result<(String, bool), TxFault>>::Act(Sending::Submit(u), act),
        Step::End(Ok(h)) => {
            &&& r matches Step::Act(Sending::Wait(g, Waiting::Start(k, n)), act)
            &&& g == h
            &&& k@ == h@
            &&& n == RECEIPT_SECS
            &&& act@ == ActionV::Elapsed
        },
        Step::End(Err(e)) => r == Step::<Sending, Result<(String, bool), TxFault>>::End(Err(e)),
    }
}

/// What comes next once a step of waiting is taken: with the receipt, the hash and the success are handed out.
pub open spec fn waited_next(
    h: String,
    y: Step<Waiting, Result<(bool, u64), Fault>>,
    r: Step<Sending, Result<(String, bool), TxFault>>,
) -> bool {
    match y {
        Step::Act(w, act) => r == Step::<Sending, Result<(String, bool), TxFault>>::Act(Sending::Wait(h, w), act),
        Step::End(Ok((success, _))) => r == Step::<Sending, Result<(String, bool), TxFault>>::End(Ok((h, success))),
        Step::End(Err(f)) => r == Step::<Sending, Result<(String, bool), TxFault>>::End(Err(TxFault::Receipt(h, f))),
    }
}

/// What comes next when a transaction is made.
pub open spec fn sending_next(s: Sending, reply: Reply, r: Step<Sending, Result<(String, bool), TxFault>>) -> bool {
    match s {
        Sending::Submit(u) => exists|y: Step<Submitting, Result<String, TxFault>>| #[trigger]
            submitting_next(u, reply, y) && submitted_next(y, r),
        Sending::Wait(h, w) => exists|y: Step<Waiting, Result<(bool, u64), Fault>>| #[trigger]
            waiting_next(w, reply, y) && waited_next(h, y, r),
    }
}

/// Starts to make a transaction: it is put together and sent, and then its receipt is waited for.
pub fn send_and_wait(t: TxRequest) -> (r: Step<Sending, Result<(String, bool), TxFault>>)
    ensures
        r matches Step::Act(Sending::Submit(Submitting::Nonce(u)), a) && u == t && a@ == ActionV::Rpc(
            "eth_getTransactionCount"@,
            account_params(t.from@, "pending"@),
        ),
{
    go_submit(submit(t))
}

fn go_submit(y: Step<Submitting, Result<String, TxFault>>) -> (r: Step<
    Sending,
    Result<(String, bool), TxFault>,
>)
    ensures
        submitted_next(y, r),
{
    match y {
        Step::Act(u, act) => Step::Act(Sending::Submit(u), act),
        Step::End(Ok(h)) => {
            let k = h.clone();
            Step::Act(Sending::Wait(h, Waiting::Start(k, RECEIPT_SECS)), Action::Elapsed)
        },
        Step::End(Err(e)) => Step::End(Err(e)),
    }
}

fn go_wait(h: String, y: Step<Waiting, Result<(bool, u64), Fault>>) -> (r: Step<
    Sending,
    Result<(String, bool), TxFault>,
>)
    ensures
        waited_next(h, y, r),
{
    match y {
        Step::Act(w, act) => Step::Act(Sending::Wait(h, w), act),
        Step::End(Ok((success, _))) => Step::End(Ok((h, success))),
        Step::End(Err(f)) => Step::End(Err(TxFault::Receipt(h, f))),
    }
}

impl Sending {
    /// Goes on with the reply.
    pub fn step(self, reply: Reply) -> (r: Step<Sending, Result<(String, bool), TxFault>>)
        ensures
            sending_next(self, reply, r),
    {
        match self {
            Sending::Submit(u) => {
                let ghost (u0, reply0) = (u, reply);
                let y = u.step(reply);
                let ghost y0 = y;
                let r = go_submit(y);
                assert(submitting_next(u0, reply0, y0) && submitted_next(y0, r));
                r
            },
            Sending::Wait(h, w) => {
                let ghost (w0, reply0) = (w, reply);
                let y = w.step(reply);
                let ghost y0 = y;
                let r = go_wait(h, y);
                assert(waiting_next(w0, reply0, y0) && waited_next(h, y0, r));
                r
            },
        }
    }
}

/// A transaction is only said to have succeeded or failed once its receipt is there, under the hash that the
/// wallet gave.
pub proof fn law_receipt_is_awaited(s: Sending, reply: Reply, h: String, success: bool)
    requires
        sending_next(s, reply, Step::End(Ok((h, success)))),
    ensures
        s matches Sending::Wait(g, Waiting::Ask(_, _)) && g == h && (reply matches Reply::Doc(Ok(v)) && v@
            != JsonV::Null && success == receipt_v(v@).0),
{
}

/// The call data of a commit.
pub open spec fn commit_call(epoch: u64, word: u64, hash: Seq<u8>, stakers: Seq<Address>) -> Seq<u8> {
    selector_of("commit(uint256,uint256,bytes32,address[])"@) + (be_word(epoch as nat) + be_word(
        word as nat,
    ) + hash + be_word(128) + list_tail(address_words(stakers)))
}

/// The call data of a commit: the epoch, the word, the hash and the stakers.
pub fn calldata_commit(epoch_id: u64, word_id: u64, hash: [u8; 32], stakers: &Vec<Address>) -> (r: Vec<u8>)
    ensures
        r@ == commit_call(epoch_id, word_id, hash@, stakers@),
        be_number(r@.subrange(4, 36)) == epoch_id,
        be_number(r@.subrange(36, 68)) == word_id,
        r@.subrange(68, 100) == hash@,
        forall|i: int|
            0 <= i < stakers@.len() ==> address_result(#[trigger] r@.subrange(164 + 32 * i, 196 + 32 * i)) == Ok::<
                Seq<u8>,
                Seq<char>,
            >(stakers@[i]@),
{
    let r = call_words_list(
        "commit(uint256,uint256,bytes32,address[])",
        uint_arg(epoch_id),
        uint_arg(word_id),
        hash,
        &address_args(stakers),
    );
    proof {
        lemma_word_lengths();
        assert(stakers.len() == stakers@.len());
        law_commit_data(epoch_id, word_id, hash@, stakers@, r@);
    }
    r
}

/// The call data of a reveal.
pub open spec fn reveal_call(epoch: u64, word: u64, guess: Seq<char>, nonce: Seq<u8>) -> Seq<u8> {
    selector_of("reveal(uint256,uint256,string,bytes32)"@) + (be_word(epoch as nat) + be_word(
        word as nat,
    ) + be_word(128) + nonce + bytes_tail(encode_utf8(guess)))
}

/// The call data of a reveal: the epoch, the word, the guess and the nonce.
pub fn calldata_reveal(epoch_id: u64, word_id: u64, guess: &str, nonce: [u8; 32]) -> (r: Vec<u8>)
    ensures
        r@ == reveal_call(epoch_id, word_id, guess@, nonce@),
        be_number(r@.subrange(4, 36)) == epoch_id,
        be_number(r@.subrange(36, 68)) == word_id,
        r@.subrange(100, 132) == nonce@,
        r@.subrange(164, 164 + encode_utf8(guess@).len() as int) == encode_utf8(guess@),
{
    let r = call_words_bytes_word(
        "reveal(uint256,uint256,string,bytes32)",
        uint_arg(epoch_id),
        uint_arg(word_id),
        guess.as_bytes(),
        nonce,
    );
    proof {
        lemma_word_lengths();
        law_reveal_data(epoch_id, word_id, guess@, nonce@, r@);
    }
    r
}

/// The call data of an inscription.
pub open spec fn inscribe_call(epoch: u64, word: u64, text: Seq<char>) -> Seq<u8> {
    selector_of("inscribe(uint64,uint256,string)"@) + (be_word(epoch as nat) + be_word(word as nat)
        + be_word(96) + bytes_tail(encode_utf8(text)))
}

/// The call data of an inscription: the epoch, the word's number and the word.
pub fn calldata_inscribe(epoch_id: u64, word_id: u64, word: &str) -> (r: Vec<u8>)
    ensures
        r@ == inscribe_call(epoch_id, word_id, word@),
        be_number(r@.subrange(4, 36)) == epoch_id,
        be_number(r@.subrange(36, 68)) == word_id,
        r@.subrange(132, 132 + encode_utf8(word@).len() as int) == encode_utf8(word@),
{
    let r = call_words_bytes(
        "inscribe(uint64,uint256,string)",
        uint_arg(epoch_id),
        uint_arg(word_id),
        word.as_bytes(),
    );
    proof {
        lemma_word_lengths();
        law_inscribe_data(epoch_id, word_id, word@, r@);
    }
    r
}

/// The call data of a repair.
pub fn calldata_repair(token_id: &U256) -> (r: Vec<u8>)
    ensures
        r@ == static_call("repair(uint256)"@, seq![be_word(token_id@)]),
        r@.take(4) == selector_of("repair(uint256)"@),
        be_number(arg_at(r@, 0)) == token_id@,
{
    let r = call1("repair(uint256)", token_id.to_be_bytes());
    proof {
        lemma_word_lengths();
        lemma_static_args("repair(uint256)"@, seq![be_word(token_id@)]);
        lemma_u256_bound(*token_id);
        assert(arg_at(r@, 0) == be_word(token_id@));
    }
    r
}

/// The call data of a claim.
pub open spec fn claim_call(tokens: Seq<u64>) -> Seq<u8> {
    selector_of("claim(uint256[])"@) + (be_word(32) + list_tail(uint_words(tokens)))
}

/// The call data of a claim for some tokens.
pub fn calldata_claim(token_ids: &Vec<u64>) -> (r: Vec<u8>)
    ensures
        r@ == claim_call(token_ids@),
        forall|i: int|
            0 <= i < token_ids@.len() ==> be_number(#[trigger] r@.subrange(68 + 32 * i, 100 + 32 * i))
                == token_ids@[i],
{
    let r = call_list("claim(uint256[])", &uint_args(token_ids));
    proof {
        lemma_word_lengths();
        assert(token_ids.len() == token_ids@.len());
        law_claim_data(token_ids@, r@);
    }
    r
}

/// The call data that ask what a holder can claim.
pub open spec fn pending_call(holder: Seq<u8>, tokens: Seq<u64>) -> Seq<u8> {
    selector_of("pendingFor(address,uint256[])"@) + (address_word(holder) + be_word(64) + list_tail(
        uint_words(tokens),
    ))
}

/// The call data that ask what a holder can claim.
pub fn calldata_pending(holder: &Address, token_ids: &Vec<u64>) -> (r: Vec<u8>)
    ensures
        r@ == pending_call(holder@, token_ids@),
        address_result(r@.subrange(4, 36)) == Ok::<Seq<u8>, Seq<char>>(holder@),
        forall|i: int|
            0 <= i < token_ids@.len() ==> be_number(#[trigger] r@.subrange(100 + 32 * i, 132 + 32 * i))
                == token_ids@[i],
{
    let r = call_word_list(
        "pendingFor(address,uint256[])",
        address_arg(holder),
        &uint_args(token_ids),
    );
    proof {
        lemma_word_lengths();
        assert(token_ids.len() == token_ids@.len());
        law_pending_data(holder@, token_ids@, r@);
    }
    r
}

/// The call data that let `spender` take an amount.
pub fn calldata_approve(spender: &Address, amount: &U256) -> (r: Vec<u8>)
    ensures
        r@ == static_call("approve(address,uint256)"@, seq![address_word(spender@), be_word(amount@)]),
        r@.take(4) == selector_of("approve(address,uint256)"@),
        address_result(arg_at(r@, 0)) == Ok::<Seq<u8>, Seq<char>>(spender@),
        be_number(arg_at(r@, 1)) == amount@,
{
    let r = call2("approve(address,uint256)", address_arg(spender), amount.to_be_bytes());
    proof {
        lemma_word_lengths();
        lemma_static_args("approve(address,uint256)"@, seq![address_word(spender@), be_word(amount@)]);
        lemma_u256_bound(*amount);
        assert(arg_at(r@, 0) == address_word(spender@));
        assert(arg_at(r@, 1) == be_word(amount@));
    }
    r
}

/// The call data that move a token.
pub fn calldata_transfer_nft(from: &Address, to: &Address, token_id: &U256) -> (r: Vec<u8>)
    ensures
        r@ == static_call(
            "transferFrom(address,address,uint256)"@,
            seq![address_word(from@), address_word(to@), be_word(token_id@)],
        ),
        r@.take(4) == selector_of("transferFrom(address,address,uint256)"@),
        address_result(arg_at(r@, 0)) == Ok::<Seq<u8>, Seq<char>>(from@),
        address_result(arg_at(r@, 1)) == Ok::<Seq<u8>, Seq<char>>(to@),
        be_number(arg_at(r@, 2)) == token_id@,
{
    let r = call3(
        "transferFrom(address,address,uint256)",
        address_arg(from),
        address_arg(to),
        token_id.to_be_bytes(),
    );
    proof {
        lemma_word_lengths();
        lemma_static_args("transferFrom(address,address,uint256)"@, seq![address_word(from@), address_word(to@), be_word(token_id@)]);
        lemma_u256_bound(*token_id);
        assert(arg_at(r@, 0) == address_word(from@));
        assert(arg_at(r@, 1) == address_word(to@));
        assert(arg_at(r@, 2) == be_word(token_id@));
    }
    r
}

/// The call data that offer a token for a price.
pub fn calldata_otc_list(token_id: &U256, price_wei: &U256) -> (r: Vec<u8>)
    ensures
        r@ == static_call("list(uint256,uint256)"@, seq![be_word(token_id@), be_word(price_wei@)]),
        r@.take(4) == selector_of("list(uint256,uint256)"@),
        be_number(arg_at(r@, 0)) == token_id@,
        be_number(arg_at(r@, 1)) == price_wei@,
{
    let r = call2("list(uint256,uint256)", token_id.to_be_bytes(), price_wei.to_be_bytes());
    proof {
        lemma_word_lengths();
        lemma_static_args("list(uint256,uint256)"@, seq![be_word(token_id@), be_word(price_wei@)]);
        lemma_u256_bound(*token_id);
        lemma_u256_bound(*price_wei);
        assert(arg_at(r@, 0) == be_word(token_id@));
        assert(arg_at(r@, 1) == be_word(price_wei@));
    }
    r
}

/// The call data that take an offer back.
pub fn calldata_otc_unlist(token_id: &U256) -> (r: Vec<u8>)
    ensures
        r@ == static_call("unlist(uint256)"@, seq![be_word(token_id@)]),
        r@.take(4) == selector_of("unlist(uint256)"@),
        be_number(arg_at(r@, 0)) == token_id@,
{
    let r = call1("unlist(uint256)", token_id.to_be_bytes());
    proof {
        lemma_word_lengths();
        lemma_static_args("unlist(uint256)"@, seq![be_word(token_id@)]);
        lemma_u256_bound(*token_id);
        assert(arg_at(r@, 0) == be_word(token_id@));
    }
    r
}

/// The call data that buy a token.
pub fn calldata_otc_buy(token_id: &U256) -> (r: Vec<u8>)
    ensures
        r@ == static_call("buy(uint256)"@, seq![be_word(token_id@)]),
        r@.take(4) == selector_of("buy(uint256)"@),
        be_number(arg_at(r@, 0)) == token_id@,
{
    let r = call1("buy(uint256)", token_id.to_be_bytes());
    proof {
        lemma_word_lengths();
        lemma_static_args("buy(uint256)"@, seq![be_word(token_id@)]);
        lemma_u256_bound(*token_id);
        assert(arg_at(r@, 0) == be_word(token_id@));
    }
    r
}

/// The call data that let `operator` move all tokens, or no longer.
pub fn calldata_set_approval_for_all(operator: &Address, approved: bool) -> (r: Vec<u8>)
    ensures
        r@ == static_call(
            "setApprovalForAll(address,bool)"@,
            seq![address_word(operator@), bool_word(approved)],
        ),
        r@.take(4) == selector_of("setApprovalForAll(address,bool)"@),
        address_result(arg_at(r@, 0)) == Ok::<Seq<u8>, Seq<char>>(operator@),
        be_number(arg_at(r@, 1)) == (if approved { 1nat } else { 0 }),
{
    let r = call2("setApprovalForAll(address,bool)", address_arg(operator), bool_arg(approved));
    proof {
        lemma_word_lengths();
        lemma_static_args("setApprovalForAll(address,bool)"@, seq![address_word(operator@), bool_word(approved)]);
        assert(arg_at(r@, 0) == address_word(operator@));
        assert(arg_at(r@, 1) == bool_word(approved));
    }
    r
}

/// A `0x` before hexadecimal digits is taken off again.
proof fn lemma_strip_quantity(n: nat)
    ensures
        without_prefixes("0x"@ + hex_text(n), "0x"@) == hex_text(n),
{
    reveal_strlit("0x");
    lemma_hex_text(n);
    let p = "0x"@;
    let t = hex_text(n);
    let s = p + t;
    assert(p.len() == 2 && p[1] == 'x');
    assert(s.take(2) =~= p);
    assert(s.skip(2) =~= t);
    if has_prefix(t, p) {
        assert(t.take(2)[1] == 'x');
        assert(t[1] != 'x');
    }
    assert(without_prefixes(s, p) == without_prefixes(t, p));
}

/// The wallet is asked to send exactly the transaction that was to be made: on this chain, to this contract,
/// with these data, this value and this gas limit.
pub proof fn law_wallet_sends_the_request(t: TxRequestV, nonce: nat, base_fee: nat)
    ensures
        send_args_v(tx_json(t, nonce, base_fee)) == Ok::<Seq<Seq<char>>, Seq<Seq<char>>>(
            seq![
                "--chain"@,
                dec_text(8453),
                "send-tx"@,
                "--to"@,
                hex_0x(t.to),
                "--data"@,
                hex_0x(t.data),
                "--value"@,
                dec_text(t.value_wei as nat),
                "--gas"@,
                dec_text(t.gas_limit as nat),
            ],
        ),
{
    reveal_strlit("chainId");
    reveal_strlit("from");
    reveal_strlit("to");
    reveal_strlit("data");
    reveal_strlit("value");
    reveal_strlit("nonce");
    reveal_strlit("gas");
    reveal_strlit("maxFeePerGas");
    reveal_strlit("maxPriorityFeePerGas");
    reveal_strlit("type");
    assert("chainId"@.len() == 7 && "from"@.len() == 4 && "to"@.len() == 2);
    assert("data"@.len() == 4 && "data"@[0] == 'd' && "type"@.len() == 4 && "type"@[0] == 't');
    assert("value"@.len() == 5 && "value"@[0] == 'v' && "nonce"@.len() == 5 && "nonce"@[0] == 'n');
    assert("gas"@.len() == 3 && "maxFeePerGas"@.len() == 12 && "maxPriorityFeePerGas"@.len() == 20);
    let j = tx_json(t, nonce, base_fee);
    law_dec_round_trip(8453, u64::MAX as nat);
    assert(member(j, "chainId"@) == Some(num_v(8453)));
    assert(u64_of(num_v(8453)) == Some(8453nat));
    assert(member_str(j, "to"@) == Some(hex_0x(t.to)));
    assert(member_str(j, "data"@) == Some(hex_0x(t.data)));
    assert(member_str(j, "value"@) == Some("0x"@ + hex_text(t.value_wei as nat)));
    assert(member_str(j, "gas"@) == Some("0x"@ + hex_text(t.gas_limit as nat)));
    lemma_strip_quantity(t.value_wei as nat);
    lemma_strip_quantity(t.gas_limit as nat);
    law_hex_text_round_trip(t.value_wei as nat, u128::MAX as nat);
    law_hex_text_round_trip(t.gas_limit as nat, u64::MAX as nat);
    assert(seq![
        "--chain"@,
        dec_text(8453),
        "send-tx"@,
        "--to"@,
        hex_0x(t.to),
        "--data"@,
        hex_0x(t.data),
        "--value"@,
        dec_text(t.value_wei as nat),
    ] + seq!["--gas"@, dec_text(t.gas_limit as nat)] =~= seq![
        "--chain"@,
        dec_text(8453),
        "send-tx"@,
        "--to"@,
        hex_0x(t.to),
        "--data"@,
        hex_0x(t.data),
        "--value"@,
        dec_text(t.value_wei as nat),
        "--gas"@,
        dec_text(t.gas_limit as nat),
    ]);
}

/// The call data of a commit state, word by word, the epoch, the word, the hash, and behind them the stakers.
pub proof fn law_commit_data(epoch: u64, word: u64, hash: Seq<u8>, stakers: Seq<Address>, d: Seq<u8>)
    requires
        hash.len() == 32,
        stakers.len() < word_base(),
        d == commit_call(epoch, word, hash, stakers),
    ensures
        d.len() == 164 + 32 * stakers.len(),
        d.take(4) == selector_of("commit(uint256,uint256,bytes32,address[])"@),
        be_number(d.subrange(4, 36)) == epoch,
        be_number(d.subrange(36, 68)) == word,
        d.subrange(68, 100) == hash,
        be_number(d.subrange(100, 132)) == 128,
        be_number(d.subrange(132, 164)) == stakers.len(),
        forall|i: int|
            0 <= i < stakers.len() ==> address_result(#[trigger] d.subrange(164 + 32 * i, 196 + 32 * i)) == Ok::<
                Seq<u8>,
                Seq<char>,
            >(stakers[i]@),
{
    lemma_word_lengths();
    let ws = address_words(stakers);
    assert forall|j: int| 0 <= j < ws.len() implies (#[trigger] ws[j]).len() == 32 by {
        assert(ws[j] == address_word(stakers[j]@));
    }
    lemma_list_tail(ws);
    let t = list_tail(ws);
    assert(d.take(4) =~= selector_of("commit(uint256,uint256,bytes32,address[])"@));
    assert(d.subrange(4, 36) =~= be_word(epoch as nat));
    assert(d.subrange(36, 68) =~= be_word(word as nat));
    assert(d.subrange(68, 100) =~= hash);
    assert(d.subrange(100, 132) =~= be_word(128));
    assert(d.subrange(132, 164) =~= t.take(32));
    assert forall|i: int| 0 <= i < stakers.len() implies address_result(
        #[trigger] d.subrange(164 + 32 * i, 196 + 32 * i),
    ) == Ok::<Seq<u8>, Seq<char>>(stakers[i]@) by {
        assert(d.subrange(164 + 32 * i, 196 + 32 * i) =~= t.subrange(32 + 32 * i, 64 + 32 * i));
        assert(ws[i] == address_word(stakers[i]@));
    }
}

/// The call data of a reveal state, word by word, the epoch, the word and, in fourth place, the nonce; the guess
/// stands behind them, with its length before it.
pub proof fn law_reveal_data(epoch: u64, word: u64, guess: Seq<char>, nonce: Seq<u8>, d: Seq<u8>)
    requires
        nonce.len() == 32,
        d == reveal_call(epoch, word, guess, nonce),
    ensures
        d.len() >= 164 + encode_utf8(guess).len(),
        d.take(4) == selector_of("reveal(uint256,uint256,string,bytes32)"@),
        be_number(d.subrange(4, 36)) == epoch,
        be_number(d.subrange(36, 68)) == word,
        be_number(d.subrange(68, 100)) == 128,
        d.subrange(100, 132) == nonce,
        d.subrange(132, 164) == be_word(encode_utf8(guess).len()),
        d.subrange(164, 164 + encode_utf8(guess).len() as int) == encode_utf8(guess),
{
    lemma_word_lengths();
    let g = encode_utf8(guess);
    assert(d.take(4) =~= selector_of("reveal(uint256,uint256,string,bytes32)"@));
    assert(d.subrange(4, 36) =~= be_word(epoch as nat));
    assert(d.subrange(36, 68) =~= be_word(word as nat));
    assert(d.subrange(68, 100) =~= be_word(128));
    assert(d.subrange(100, 132) =~= nonce);
    assert(d.subrange(132, 164) =~= be_word(g.len()));
    assert(d.subrange(164, 164 + g.len() as int) =~= g);
}

/// A reveal names the epoch and the word in the same places as the commit that it opens.
pub proof fn law_reveal_names_the_commit(
    epoch: u64,
    word: u64,
    hash: Seq<u8>,
    stakers: Seq<Address>,
    guess: Seq<char>,
    nonce: Seq<u8>,
    sealed: Seq<u8>,
    opened: Seq<u8>,
)
    requires
        hash.len() == 32,
        nonce.len() == 32,
        stakers.len() < word_base(),
        sealed == commit_call(epoch, word, hash, stakers),
        opened == reveal_call(epoch, word, guess, nonce),
    ensures
        sealed.subrange(4, 68) == opened.subrange(4, 68),
        be_number(sealed.subrange(4, 36)) == epoch,
        be_number(opened.subrange(36, 68)) == word,
{
    law_commit_data(epoch, word, hash, stakers, sealed);
    law_reveal_data(epoch, word, guess, nonce, opened);
    lemma_word_lengths();
    assert(sealed.subrange(4, 68) =~= be_word(epoch as nat) + be_word(word as nat));
    assert(opened.subrange(4, 68) =~= be_word(epoch as nat) + be_word(word as nat));
}

/// The call data of an inscription state the epoch and the word, and behind them the answer, with its length
/// before it.
pub proof fn law_inscribe_data(epoch: u64, word: u64, text: Seq<char>, d: Seq<u8>)
    requires
        d == inscribe_call(epoch, word, text),
    ensures
        d.len() >= 132 + encode_utf8(text).len(),
        d.take(4) == selector_of("inscribe(uint64,uint256,string)"@),
        be_number(d.subrange(4, 36)) == epoch,
        be_number(d.subrange(36, 68)) == word,
        be_number(d.subrange(68, 100)) == 96,
        d.subrange(100, 132) == be_word(encode_utf8(text).len()),
        d.subrange(132, 132 + encode_utf8(text).len() as int) == encode_utf8(text),
{
    lemma_word_lengths();
    let g = encode_utf8(text);
    assert(d.take(4) =~= selector_of("inscribe(uint64,uint256,string)"@));
    assert(d.subrange(4, 36) =~= be_word(epoch as nat));
    assert(d.subrange(36, 68) =~= be_word(word as nat));
    assert(d.subrange(68, 100) =~= be_word(96));
    assert(d.subrange(100, 132) =~= be_word(g.len()));
    assert(d.subrange(132, 132 + g.len() as int) =~= g);
}

/// The call data of a claim state the tokens one after the other, with their number before them.
pub proof fn law_claim_data(tokens: Seq<u64>, d: Seq<u8>)
    requires
        tokens.len() < word_base(),
        d == claim_call(tokens),
    ensures
        d.len() == 68 + 32 * tokens.len(),
        d.take(4) == selector_of("claim(uint256[])"@),
        be_number(d.subrange(4, 36)) == 32,
        be_number(d.subrange(36, 68)) == tokens.len(),
        forall|i: int|
            0 <= i < tokens.len() ==> be_number(#[trigger] d.subrange(68 + 32 * i, 100 + 32 * i)) == tokens[i],
{
    lemma_word_lengths();
    let ws = uint_words(tokens);
    assert forall|j: int| 0 <= j < ws.len() implies (#[trigger] ws[j]).len() == 32 by {
        assert(ws[j] == be_word(tokens[j] as nat));
    }
    lemma_list_tail(ws);
    let t = list_tail(ws);
    assert(d.take(4) =~= selector_of("claim(uint256[])"@));
    assert(d.subrange(4, 36) =~= be_word(32));
    assert(d.subrange(36, 68) =~= t.take(32));
    assert forall|i: int| 0 <= i < tokens.len() implies be_number(#[trigger] d.subrange(68 + 32 * i, 100 + 32 * i))
        == tokens[i] by {
        assert(d.subrange(68 + 32 * i, 100 + 32 * i) =~= t.subrange(32 + 32 * i, 64 + 32 * i));
        assert(ws[i] == be_word(tokens[i] as nat));
    }
}

/// The question what can be claimed names the holder, and behind it the tokens, with their number before them.
pub proof fn law_pending_data(holder: Seq<u8>, tokens: Seq<u64>, d: Seq<u8>)
    requires
        holder.len() == 20,
        tokens.len() < word_base(),
        d == pending_call(holder, tokens),
    ensures
        d.len() == 100 + 32 * tokens.len(),
        d.take(4) == selector_of("pendingFor(address,uint256[])"@),
        address_result(d.subrange(4, 36)) == Ok::<Seq<u8>, Seq<char>>(holder),
        be_number(d.subrange(36, 68)) == 64,
        be_number(d.subrange(68, 100)) == tokens.len(),
        forall|i: int|
            0 <= i < tokens.len() ==> be_number(#[trigger] d.subrange(100 + 32 * i, 132 + 32 * i)) == tokens[i],
{
    lemma_word_lengths();
    let ws = uint_words(tokens);
    assert forall|j: int| 0 <= j < ws.len() implies (#[trigger] ws[j]).len() == 32 by {
        assert(ws[j] == be_word(tokens[j] as nat));
    }
    lemma_list_tail(ws);
    let t = list_tail(ws);
    assert(d.take(4) =~= selector_of("pendingFor(address,uint256[])"@));
    assert(d.subrange(4, 36) =~= address_word(holder));
    assert(d.subrange(36, 68) =~= be_word(64));
    assert(d.subrange(68, 100) =~= t.take(32));
    assert forall|i: int| 0 <= i < tokens.len() implies be_number(
        #[trigger] d.subrange(100 + 32 * i, 132 + 32 * i),
    ) == tokens[i] by {
        assert(d.subrange(100 + 32 * i, 132 + 32 * i) =~= t.subrange(32 + 32 * i, 64 + 32 * i));
        assert(ws[i] == be_word(tokens[i] as nat));
    }
}

/// A number that a node states in hexadecimal, as transactions do, is read as that number.
pub proof fn law_quantity_is_read(n: nat, max: nat)
    requires
        n <= max,
    ensures
        quantity(JsonV::Str("0x"@ + hex_text(n)), max) == n,
{
    lemma_strip_quantity(n);
    law_hex_text_round_trip(n, max);
}

/// The fee that is offered covers a price that doubles, and is never below the tip.
pub proof fn law_fee_covers_a_doubled_price(base_fee: nat)
    ensures
        max_fee(base_fee) >= 2 * base_fee,
        max_fee(base_fee) >= 1_000_000,
        max_fee(base_fee) == 2 * base_fee || max_fee(base_fee) == 1_000_000,
{
}

/// The bytes that a node states in hexadecimal are read as these bytes.
pub proof fn law_view_is_read(b: Seq<u8>)
    ensures
        view_bytes(JsonV::Str(hex_0x(b))) == b,
{
    lemma_strip_hex_0x(b);
    law_hex_round_trip(b);
}

/// A read-only call names the contract and the call data, digit for digit, and the latest block.
pub proof fn law_view_names_contract_and_data(to: Seq<u8>, data: Seq<u8>)
    ensures
        view_params(to, data) matches JsonV::Arr(a) && a.len() == 2 && a[1] == JsonV::Str("latest"@) && (
        member_str(a[0], "to"@) matches Some(t) && view_bytes(JsonV::Str(t)) == to) && (member_str(
            a[0],
            "data"@,
        ) matches Some(d) && view_bytes(JsonV::Str(d)) == data),
{
    reveal_strlit("to");
    reveal_strlit("data");
    assert("to"@.len() == 2 && "data"@.len() == 4);
    law_view_is_read(to);
    law_view_is_read(data);
}

/// The document of a transaction carries the sender, the nonce and the fees under their own names.
pub proof fn law_transaction_members(t: TxRequestV, nonce: nat, base_fee: nat)
    ensures
        member(tx_json(t, nonce, base_fee), "chainId"@) == Some(num_v(8453)),
        member(tx_json(t, nonce, base_fee), "from"@) == Some(JsonV::Str(hex_0x(t.from))),
        member(tx_json(t, nonce, base_fee), "to"@) == Some(JsonV::Str(hex_0x(t.to))),
        member(tx_json(t, nonce, base_fee), "data"@) == Some(JsonV::Str(hex_0x(t.data))),
        member(tx_json(t, nonce, base_fee), "value"@) == Some(JsonV::Str("0x"@ + hex_text(t.value_wei as nat))),
        member(tx_json(t, nonce, base_fee), "nonce"@) == Some(num_v(nonce as int)),
        member(tx_json(t, nonce, base_fee), "gas"@) == Some(JsonV::Str("0x"@ + hex_text(t.gas_limit as nat))),
        member(tx_json(t, nonce, base_fee), "maxFeePerGas"@) == Some(JsonV::Str("0x"@ + hex_text(max_fee(base_fee)))),
        member(tx_json(t, nonce, base_fee), "maxPriorityFeePerGas"@) == Some(JsonV::Str("0x"@ + hex_text(1_000_000))),
{
    reveal_strlit("chainId");
    reveal_strlit("from");
    reveal_strlit("to");
    reveal_strlit("data");
    reveal_strlit("value");
    reveal_strlit("nonce");
    reveal_strlit("gas");
    reveal_strlit("maxFeePerGas");
    reveal_strlit("maxPriorityFeePerGas");
    reveal_strlit("type");
    assert("chainId"@.len() == 7);
    assert("from"@.len() == 4 && "from"@[0] == 'f');
    assert("data"@.len() == 4 && "data"@[0] == 'd');
    assert("type"@.len() == 4 && "type"@[0] == 't');
    assert("to"@.len() == 2);
    assert("value"@.len() == 5 && "value"@[0] == 'v');
    assert("nonce"@.len() == 5 && "nonce"@[0] == 'n');
    assert("gas"@.len() == 3);
    assert("maxFeePerGas"@.len() == 12);
    assert("maxPriorityFeePerGas"@.len() == 20);
}

/// A transaction succeeded exactly where its receipt has the status `0x1`; its block is the one that the receipt states.
pub proof fn law_receipt_is_read(v: JsonV, n: nat)
    requires
        n <= u64::MAX,
    ensures
        receipt_v(v).0 <==> member_str(v, "status"@) == Some("0x1"@),
        member_str(v, "blockNumber"@) == Some("0x"@ + hex_text(n)) ==> receipt_v(v).1 == n,
{
    lemma_strip_quantity(n);
    law_hex_text_round_trip(n, u64::MAX as nat);
}

/// A receipt is asked for under the hash of the transaction until it is there or the time is over.
pub proof fn law_receipt_is_asked_for(s: Waiting, reply: Reply, r: Step<Waiting, Result<(bool, u64), Fault>>)
    requires
        waiting_next(s, reply, r),
    ensures
        r matches Step::Act(Waiting::Ask(h, end), a) ==> ({
            &&& a@ == ActionV::Rpc("eth_getTransactionReceipt"@, JsonV::Arr(seq![JsonV::Str(h@)]))
            &&& s matches Waiting::Start(g, secs) ==> g == h && (reply matches Reply::Secs(now) && (now + secs <= u64::MAX
                ==> end == now + secs))
            &&& s matches Waiting::Pause(g, t) ==> g == h && t == end
        }),
        r matches Step::End(Ok(x)) ==> (s is Ask && (reply matches Reply::Doc(Ok(v)) && v@ != JsonV::Null && (x.0 <==>
        member_str(v@, "status"@) == Some("0x1"@)))),
        s matches Waiting::Clock(_, end) ==> (reply matches Reply::Secs(now) ==> ((r is End) <==> now >= end)),
{
}

/// A transaction is put together from what was asked for and from what the chain states: its nonce and its fee.
pub proof fn law_transaction_is_put_together(s: Submitting, reply: Reply, r: Step<Submitting, Result<String, TxFault>>, n: nat)
    requires
        submitting_next(s, reply, r),
    ensures
        s matches Submitting::Nonce(t) ==> (reply matches Reply::Doc(Ok(v)) ==> (n <= u64::MAX && v@ == JsonV::Str(
            "0x"@ + hex_text(n),
        ) ==> (r matches Step::Act(Submitting::Price(u, m), _) && u == t && m == n))),
        s matches Submitting::Price(t, m) ==> (reply matches Reply::Doc(Ok(v)) ==> (n * 2 <= u128::MAX && v@ == JsonV::Str(
            "0x"@ + hex_text(n),
        ) ==> (r matches Step::Act(Submitting::Wallet, a) && a@ == ActionV::Send(tx_json(t@, m as nat, n))))),
        r matches Step::End(Ok(h)) ==> s is Wallet && reply == Reply::Text(Ok::<String, Fault>(h)),
{
    if n <= u128::MAX {
        law_quantity_is_read(n, u128::MAX as nat);
    }
    if n <= u64::MAX {
        law_quantity_is_read(n, u64::MAX as nat);
    }
}

} // verus!
