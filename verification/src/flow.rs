//! Commands as steps. A command asks for one action at a time, is handed the reply, and goes on until it
//! ends. Whoever runs it only performs the actions.
use vstd::prelude::*;

use crate::address::Address;
use crate::awp_register::RegistrationResult;
use crate::cmd::gas::GasCheck;
use crate::fault::{caused_v, fault_v, Fault};
use crate::json::{Json, JsonV};
use crate::output::{Output, OutputV};
use crate::text::{cat3, texts};
use crate::wallet::WalletStatus;

verus! {

/// Some amount in its smallest unit, and how many decimals the usual unit has.
#[derive(Clone, Copy)]
pub struct Amount {
    pub units: u128,
    pub decimals: u8,
}

/// An amount in its usual unit, in the forms that messages use.
pub struct Shown {
    /// As many digits as it takes.
    pub plain: String,
    /// As a JSON number.
    pub json: String,
    /// Without decimals.
    pub d0: String,
    /// With two decimals.
    pub d2: String,
    /// With four decimals.
    pub d4: String,
    /// With six decimals.
    pub d6: String,
}

/// A transaction to be made: who sends it where, the call data, the value and the gas limit.
pub struct TxRequest {
    pub from: Address,
    pub to: Address,
    pub data: Vec<u8>,
    pub value_wei: u128,
    pub gas_limit: u64,
}

/// What a `TxRequest` says.
pub struct TxRequestV {
    pub from: Seq<u8>,
    pub to: Seq<u8>,
    pub data: Seq<u8>,
    pub value_wei: u128,
    pub gas_limit: u64,
}

impl View for TxRequest {
    type V = TxRequestV;

    open spec fn view(&self) -> TxRequestV {
        TxRequestV {
            from: self.from@,
            to: self.to@,
            data: self.data@,
            value_wei: self.value_wei,
            gas_limit: self.gas_limit,
        }
    }
}

/// Why it is not known that a transaction was made.
pub enum TxFault {
    /// It could not be put together.
    Build(Fault),
    /// It could not be sent.
    Send(Fault),
    /// It was sent under this hash, but its receipt did not come.
    Receipt(String, Fault),
}

/// A read-only call of a contract.
pub struct ViewCall {
    pub to: Address,
    pub data: Vec<u8>,
}

/// The contract and the call data of some calls.
pub open spec fn calls_view(v: Seq<ViewCall>) -> Seq<(Seq<u8>, Seq<u8>)> {
    v.map_values(|c: ViewCall| (c.to@, c.data@))
}

/// What came of posting a document.
pub enum Posted {
    /// It could not be sent.
    Unsent(Fault),
    /// The reply could not be read.
    Unread(Fault),
    /// The reply.
    Doc(Json),
}

/// The status and the text of an HTTP response.
pub struct Response {
    pub status: u16,
    pub text: String,
}

/// How a program ended.
pub struct ProcessEnd {
    pub success: bool,
    pub code: Option<i32>,
    pub stdout: String,
    pub stderr: String,
}

/// Something to be done.
pub enum Action {
    /// Find the agent's address.
    Address,
    /// Look at the wallet.
    Wallet,
    /// Find the wallet program.
    FindWallet,
    /// Look up an environment variable.
    Env(String),
    /// Read the state file.
    Load,
    /// Write the state file.
    Save(String),
    /// Fetch a document from the coordinator.
    Get(String),
    /// Fetch a document from the coordinator that may not be there.
    TryGet(String),
    /// Fetch the addresses of the contracts from the coordinator.
    Contracts,
    /// Call a method of a chain node.
    Rpc(String, Json),
    /// Call a contract without a transaction.
    View(Address, Vec<u8>),
    /// Call contracts without a transaction, one after the other.
    Views(Vec<ViewCall>),
    /// Read the balance of an account.
    EthBalance(Address),
    /// Check the balance of the account with this text.
    Balance(String),
    /// Make a transaction and wait for its receipt.
    Transact(TxRequest),
    /// Make a transaction without waiting for its receipt.
    Submit(TxRequest),
    /// Wait for the receipt of a transaction, at most some seconds.
    Receipt(String, u64),
    /// Have the wallet sign and send a transaction.
    Send(Json),
    /// Have the wallet sign typed data.
    Sign(Json),
    /// Call a method of the staking network.
    Awp(String, Json),
    /// Call a method of the registration network.
    Registry(String, Json),
    /// Post a registration to the relay.
    Relay(Json),
    /// Make sure that an address is registered.
    Register(String),
    /// Check whether an address is registered.
    CheckRegistered(String),
    /// Check whether an agent has enough stake.
    Eligible(String),
    /// Write amounts in their usual unit.
    Show(Vec<Amount>),
    /// Print lines.
    Say(Vec<String>),
    /// Print a question and read a line.
    Ask(String),
    /// Wait for some seconds.
    Sleep(u64),
    /// Tell how many seconds have passed since the command began.
    Elapsed,
    /// Get a text from a URL.
    HttpGet(String),
    /// Post a text to a URL and read the text of the response.
    HttpPost(String, String),
    /// Post a document to a URL and read the document of the response, waiting at most some seconds.
    HttpPostJson(String, Json, u64),
    /// Fetch the public list of chain nodes.
    ChainList,
    /// Find the first of some files that exists.
    FirstFile(Vec<String>),
    /// Wait until no other process sends a transaction.
    Lock,
    /// Run a program.
    Exec(String, Vec<String>),
}

/// What an `Action` says.
pub enum ActionV {
    Address,
    Wallet,
    FindWallet,
    Env(Seq<char>),
    Load,
    Save(Seq<char>),
    Get(Seq<char>),
    TryGet(Seq<char>),
    Contracts,
    Rpc(Seq<char>, JsonV),
    View(Seq<u8>, Seq<u8>),
    Views(Seq<(Seq<u8>, Seq<u8>)>),
    EthBalance(Seq<u8>),
    Balance(Seq<char>),
    Transact(TxRequestV),
    Submit(TxRequestV),
    Receipt(Seq<char>, u64),
    Send(JsonV),
    Sign(JsonV),
    Awp(Seq<char>, JsonV),
    Registry(Seq<char>, JsonV),
    Relay(JsonV),
    Register(Seq<char>),
    CheckRegistered(Seq<char>),
    Eligible(Seq<char>),
    Show(Seq<Amount>),
    Say(Seq<Seq<char>>),
    Ask(Seq<char>),
    Sleep(u64),
    Elapsed,
    HttpGet(Seq<char>),
    HttpPost(Seq<char>, Seq<char>),
    HttpPostJson(Seq<char>, JsonV, u64),
    ChainList,
    FirstFile(Seq<Seq<char>>),
    Lock,
    Exec(Seq<char>, Seq<Seq<char>>),
}

impl View for Action {
    type V = ActionV;

    open spec fn view(&self) -> ActionV {
        match *self {
            Action::Address => ActionV::Address,
            Action::Wallet => ActionV::Wallet,
            Action::FindWallet => ActionV::FindWallet,
            Action::Env(n) => ActionV::Env(n@),
            Action::Load => ActionV::Load,
            Action::Save(t) => ActionV::Save(t@),
            Action::Get(p) => ActionV::Get(p@),
            Action::TryGet(p) => ActionV::TryGet(p@),
            Action::Contracts => ActionV::Contracts,
            Action::Rpc(m, p) => ActionV::Rpc(m@, p@),
            Action::View(a, d) => ActionV::View(a@, d@),
            Action::Views(v) => ActionV::Views(calls_view(v@)),
            Action::EthBalance(a) => ActionV::EthBalance(a@),
            Action::Balance(a) => ActionV::Balance(a@),
            Action::Transact(t) => ActionV::Transact(t@),
            Action::Submit(t) => ActionV::Submit(t@),
            Action::Receipt(h, n) => ActionV::Receipt(h@, n),
            Action::Send(t) => ActionV::Send(t@),
            Action::Sign(t) => ActionV::Sign(t@),
            Action::Awp(m, p) => ActionV::Awp(m@, p@),
            Action::Registry(m, p) => ActionV::Registry(m@, p@),
            Action::Relay(b) => ActionV::Relay(b@),
            Action::Register(a) => ActionV::Register(a@),
            Action::CheckRegistered(a) => ActionV::CheckRegistered(a@),
            Action::Eligible(a) => ActionV::Eligible(a@),
            Action::Show(v) => ActionV::Show(v@),
            Action::Say(v) => ActionV::Say(texts(v@)),
            Action::Ask(t) => ActionV::Ask(t@),
            Action::Sleep(n) => ActionV::Sleep(n),
            Action::Elapsed => ActionV::Elapsed,
            Action::HttpGet(u) => ActionV::HttpGet(u@),
            Action::HttpPost(u, b) => ActionV::HttpPost(u@, b@),
            Action::HttpPostJson(u, b, n) => ActionV::HttpPostJson(u@, b@, n),
            Action::ChainList => ActionV::ChainList,
            Action::FirstFile(v) => ActionV::FirstFile(texts(v@)),
            Action::Lock => ActionV::Lock,
            Action::Exec(p, a) => ActionV::Exec(p@, texts(a@)),
        }
    }
}

/// What came of an action.
pub enum Reply {
    /// A text that was found, read or handed back.
    Text(Result<String, Fault>),
    /// A text that may not be there.
    Maybe(Option<String>),
    /// The text of a file that may not be there.
    File(Result<Option<String>, Fault>),
    /// Some texts.
    Texts(Vec<String>),
    /// A document.
    Doc(Result<Json, Fault>),
    /// A document that may not be there.
    Found(Result<Option<Json>, Fault>),
    /// The bytes of a reply.
    Bytes(Result<Vec<u8>, Fault>),
    /// The bytes of several replies, in the order of the calls.
    ManyBytes(Vec<Result<Vec<u8>, Fault>>),
    /// A number of seconds.
    Secs(u64),
    /// An amount in wei.
    Wei(Result<u128, Fault>),
    /// The balance of the agent.
    Gas(Result<GasCheck, Fault>),
    /// The hash of a transaction, and whether its receipt says that it succeeded.
    Sent(Result<(String, bool), TxFault>),
    /// The hash of a transaction whose receipt was not waited for.
    Submitted(Result<String, TxFault>),
    /// Whether a receipt says that the transaction succeeded, and its block.
    Receipt(Result<(bool, u64), Fault>),
    /// The action is done.
    Done(Result<(), Fault>),
    /// A yes or a no.
    Flag(Result<bool, Fault>),
    /// How a registration went.
    Registered(Result<RegistrationResult, Fault>),
    /// The wallet.
    Wallet(WalletStatus),
    /// Amounts in their usual unit, in the order in which they were asked for.
    Shown(Vec<Shown>),
    /// An HTTP response.
    Http(Result<Response, Fault>),
    /// What came of posting a document.
    Posted(Posted),
    /// How a program ended.
    Process(Result<ProcessEnd, Fault>),
}

/// What to do next: perform an action and hand the reply to the machine `S`, or end with `R`.
pub enum Step<S, R> {
    Act(S, Action),
    End(R),
}

/// How a command ends: with a document to print, or with an error.
pub enum Outcome {
    Print(Output),
    Fail(Fault),
}

/// What an `Outcome` says.
pub enum OutcomeV {
    Print(OutputV),
    Fail(Seq<Seq<char>>),
}

impl View for Outcome {
    type V = OutcomeV;

    open spec fn view(&self) -> OutcomeV {
        match *self {
            Outcome::Print(o) => OutcomeV::Print(o@),
            Outcome::Fail(f) => OutcomeV::Fail(f@),
        }
    }
}

/// Whether a step ends a command in this way.
pub open spec fn ends<S>(r: Step<S, Outcome>, o: OutcomeV) -> bool {
    match r {
        Step::End(x) => x@ == o,
        Step::Act(_, _) => false,
    }
}

/// Whether a step prints this document and ends.
pub open spec fn prints<S>(r: Step<S, Outcome>, o: OutputV) -> bool {
    ends(r, OutcomeV::Print(o))
}

/// Whether a step ends with this error.
pub open spec fn fails<S>(r: Step<S, Outcome>, f: Seq<Seq<char>>) -> bool {
    ends(r, OutcomeV::Fail(f))
}

/// The error of a reply that does not answer the action.
pub open spec fn stray_v() -> Seq<Seq<char>> {
    fault_v("the reply does not answer the request"@)
}

/// The error of a reply that does not answer the action.
pub fn stray() -> (r: Fault)
    ensures
        r@ == stray_v(),
{
    Fault::of("the reply does not answer the request")
}

/// The error of a transaction that is not known to be made. Where it was put together, `what` says what was
/// to be sent.
pub open spec fn tx_fault_v(e: TxFault, what: Seq<char>) -> Seq<Seq<char>> {
    match e {
        TxFault::Build(f) => f@,
        TxFault::Send(f) => caused_v(what, f@),
        TxFault::Receipt(_, f) => caused_v(what, f@),
    }
}

/// The error of a transaction that is not known to be made.
pub fn tx_fault(e: TxFault, what: &str) -> (r: Fault)
    ensures
        r@ == tx_fault_v(e, what@),
{
    match e {
        TxFault::Build(f) => f,
        TxFault::Send(f) => f.because(what),
        TxFault::Receipt(_, f) => f.because(what),
    }
}

/// What is said of a transaction whose receipt says that it failed.
pub open spec fn reverted_text(hash: Seq<char>) -> Seq<char> {
    "transaction "@ + hash + " reverted"@
}

/// The error of a transaction that did not succeed: it failed on the chain, or is not known to be made.
pub open spec fn unsettled_v(e: Result<(String, bool), TxFault>, what: Seq<char>) -> Seq<Seq<char>> {
    match e {
        Ok((h, _)) => caused_v(what, fault_v(reverted_text(h@))),
        Err(x) => tx_fault_v(x, what),
    }
}

/// The error of a transaction that did not succeed.
pub fn unsettled(e: Result<(String, bool), TxFault>, what: &str) -> (r: Fault)
    ensures
        r@ == unsettled_v(e, what@),
{
    match e {
        Ok((h, _)) => Fault::new(cat3("transaction ", h.as_str(), " reverted")).because(what),
        Err(x) => tx_fault(x, what),
    }
}

/// The hash of a transaction that was sent and is not known to have failed.
pub open spec fn standing_v(e: Result<(String, bool), TxFault>) -> Option<String> {
    match e {
        Ok((h, true)) => Some(h),
        Err(TxFault::Receipt(h, _)) => Some(h),
        _ => None,
    }
}

/// The hash of a transaction that was sent and is not known to have failed; any other is handed back.
pub fn standing(e: Result<(String, bool), TxFault>) -> (r: Result<String, Result<(String, bool), TxFault>>)
    ensures
        match r {
            Ok(h) => standing_v(e) == Some(h),
            Err(x) => standing_v(e) is None && x == e,
        },
{
    match e {
        Ok((h, true)) => Ok(h),
        Err(TxFault::Receipt(h, _)) => Ok(h),
        other => Err(other),
    }
}

/// Prints a document and ends.
pub fn print<S>(o: Output) -> (r: Step<S, Outcome>)
    ensures
        prints(r, o@),
{
    Step::End(Outcome::Print(o))
}

/// Ends with an error.
pub fn fail<S>(f: Fault) -> (r: Step<S, Outcome>)
    ensures
        fails(r, f@),
{
    Step::End(Outcome::Fail(f))
}

/// A transaction stands unless it was not sent or its receipt says that it failed; one whose receipt did not come counts
/// as sent.
pub proof fn law_standing_transactions(h: String, f: Fault)
    ensures
        standing_v(Ok((h, true))) == Some(h),
        standing_v(Ok((h, false))) is None,
        standing_v(Err(TxFault::Receipt(h, f))) == Some(h),
        standing_v(Err(TxFault::Send(f))) is None,
        standing_v(Err(TxFault::Build(f))) is None,
{
}

} // verus!
