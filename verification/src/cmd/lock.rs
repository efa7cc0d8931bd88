//! Locking AWP and allocating it to the agent.
use vstd::prelude::*;

use crate::address::Address;
use crate::bytes::be_number;
use crate::chain::{
    address_arg, address_result, address_word, arg_at, call, call2, lemma_static_args, lemma_word_lengths,
    read_uint, selector_of, static_call, uint_arg, uint_result, word_views,
};
use crate::cmd::buy::{approve_tx, build_approve_tx, hash_line, say1, say2, stop, stops};
use crate::cmd::quote::{allowance_call, ask_allowance};
use crate::cmd::stake::ARDI_WORKNET_ID;
use crate::fault::{fault_v, Fault};
use crate::flow::{
    stray, stray_v, tx_fault, tx_fault_v, Action, ActionV, Reply, Step, TxRequest, TxRequestV,
};
use crate::known::{
    awp, awp_allocator, awp_allocator_bytes, awp_bytes, ve_awp, ve_awp_bytes,
};
use crate::num::{dec, dec_text};
use crate::text::{cat2, cat3, cat5};
use crate::u256::{be_word, word_base, U256};

verus! {

/// How many seconds a day has.
pub const DAY_SEC: u64 = 86_400;

/// What is locked for how long.
pub struct Lock {
    pub agent: Address,
    /// The AWP, in its smallest unit.
    pub amount: u128,
    /// The same in AWP, without decimals.
    pub amount_d0: String,
    pub days: u32,
}

/// Locking and allocating.
pub enum Locking {
    /// What the lock contract may take is read.
    Allowance(Lock),
    /// The approval is told.
    Approve(Lock),
    /// The lock contract is allowed to take the AWP.
    ApproveTx(Lock),
    /// The deposit is told.
    Deposit(Lock),
    /// The deposit is made.
    DepositTx(Lock),
    /// The allocation is told.
    Allocate(Lock),
    /// The allocation is made.
    AllocateTx,
    /// Its hash is told.
    Told,
}

/// The line that tells the deposit.
pub open spec fn deposit_line(l: Lock) -> Seq<char> {
    "→ veAWP.deposit("@ + l.amount_d0@ + " AWP, "@ + dec_text(l.days as nat) + "d lock)"@
}

fn deposit_text(l: &Lock) -> (r: String)
    ensures
        r@ == deposit_line(*l),
{
    let d = dec(l.days as u64);
    cat5("→ veAWP.deposit(", l.amount_d0.as_str(), " AWP, ", d.as_str(), "d lock)")
}

/// The transaction that locks the AWP.
pub open spec fn deposit_tx(l: Lock) -> ActionV {
    ActionV::Submit(
        TxRequestV {
            from: l.agent@,
            to: ve_awp_bytes(),
            data: static_call(
                "deposit(uint256,uint64)"@,
                seq![be_word(l.amount as nat), be_word(l.days as nat * DAY_SEC as nat)],
            ),
            value_wei: 0,
            gas_limit: 500_000,
        },
    )
}

fn build_deposit_tx(l: &Lock) -> (r: Action)
    ensures
        r@ == deposit_tx(*l),
{
    let secs = l.days as u64 * DAY_SEC;
    Action::Submit(
        TxRequest {
            from: l.agent,
            to: ve_awp(),
            data: call2(
                "deposit(uint256,uint64)",
                U256::of_u128(l.amount).to_be_bytes(),
                uint_arg(secs),
            ),
            value_wei: 0,
            gas_limit: 500_000,
        },
    )
}

/// The line that tells the allocation.
pub open spec fn allocate_line(l: Lock) -> Seq<char> {
    "→ AWPAllocator.allocate(self, self, ARDI worknet, "@ + l.amount_d0@ + " AWP)"@
}

/// The transaction that allocates the locked AWP to the agent.
pub open spec fn allocate_tx(l: Lock) -> ActionV {
    ActionV::Submit(
        TxRequestV {
            from: l.agent@,
            to: awp_allocator_bytes(),
            data: static_call(
                "allocate(address,address,uint256,uint256)"@,
                seq![
                    address_word(l.agent@),
                    address_word(l.agent@),
                    be_word(ARDI_WORKNET_ID as nat),
                    be_word(l.amount as nat),
                ],
            ),
            value_wei: 0,
            gas_limit: 300_000,
        },
    )
}

fn build_allocate_tx(l: &Lock) -> (r: Action)
    ensures
        r@ == allocate_tx(*l),
{
    let mut args: Vec<[u8; 32]> = Vec::new();
    args.push(address_arg(&l.agent));
    args.push(address_arg(&l.agent));
    args.push(uint_arg(ARDI_WORKNET_ID));
    args.push(U256::of_u128(l.amount).to_be_bytes());
    let data = call("allocate(address,address,uint256,uint256)", &args);
    assert(word_views(args@) =~= seq![
        address_word(l.agent@),
        address_word(l.agent@),
        be_word(ARDI_WORKNET_ID as nat),
        be_word(l.amount as nat),
    ]);
    Action::Submit(
        TxRequest { from: l.agent, to: awp_allocator(), data, value_wei: 0, gas_limit: 300_000 },
    )
}

/// What comes next with the allowance of the lock contract.
pub open spec fn allowance_next(l: Lock, raw: Seq<u8>, r: Step<Locking, Result<(), Fault>>) -> bool {
    match uint_result(raw) {
        Err(e) => stops(r, fault_v(e)),
        Ok(allowed) => if allowed < l.amount {
            &&& r matches Step::Act(Locking::Approve(m), a)
            &&& m == l
            &&& a@ == ActionV::Say(seq!["→ approve AWP → veAWP"@])
        } else {
            &&& r matches Step::Act(Locking::Deposit(m), a)
            &&& m == l
            &&& a@ == ActionV::Say(seq![deposit_line(l)])
        },
    }
}

/// Goes on with the allowance of the lock contract.
pub fn with_allowance(l: Lock, raw: &Vec<u8>) -> (r: Step<Locking, Result<(), Fault>>)
    ensures
        allowance_next(l, raw@, r),
{
    match read_uint(raw) {
        Err(e) => stop(Fault::new(e)),
        Ok(allowed) => {
            if allowed.less(&U256::of_u128(l.amount)) {
                Step::Act(Locking::Approve(l), say1("→ approve AWP → veAWP".to_owned()))
            } else {
                let a = say1(deposit_text(&l));
                Step::Act(Locking::Deposit(l), a)
            }
        },
    }
}

/// What comes next when AWP is locked and allocated.
pub open spec fn locking_next(s: Locking, reply: Reply, r: Step<Locking, Result<(), Fault>>) -> bool {
    match (s, reply) {
        (Locking::Allowance(l), Reply::Bytes(Ok(raw))) => allowance_next(l, raw@, r),
        (Locking::Allowance(_), Reply::Bytes(Err(f))) => stops(r, f@),
        (Locking::Approve(l), Reply::Done(Ok(_))) => {
            &&& r matches Step::Act(Locking::ApproveTx(m), a)
            &&& m == l
            &&& a@ == approve_tx(l.agent@, awp_bytes(), ve_awp_bytes())
        },
        (Locking::ApproveTx(l), Reply::Submitted(Ok(h))) => {
            &&& r matches Step::Act(Locking::Deposit(m), a)
            &&& m == l
            &&& a@ == ActionV::Say(seq![hash_line(h@), deposit_line(l)])
        },
        (Locking::ApproveTx(_), Reply::Submitted(Err(e))) => stops(r, tx_fault_v(e, "AWP approve to veAWP"@)),
        (Locking::Deposit(l), Reply::Done(Ok(_))) => {
            &&& r matches Step::Act(Locking::DepositTx(m), a)
            &&& m == l
            &&& a@ == deposit_tx(l)
        },
        (Locking::DepositTx(l), Reply::Submitted(Ok(h))) => {
            &&& r matches Step::Act(Locking::Allocate(m), a)
            &&& m == l
            &&& a@ == ActionV::Say(seq![hash_line(h@), allocate_line(l)])
        },
        (Locking::DepositTx(_), Reply::Submitted(Err(e))) => stops(r, tx_fault_v(e, "veAWP deposit"@)),
        (Locking::Allocate(l), Reply::Done(Ok(_))) => {
            r matches Step::Act(Locking::AllocateTx, a) && a@ == allocate_tx(l)
        },
        (Locking::AllocateTx, Reply::Submitted(Ok(h))) => {
            r matches Step::Act(Locking::Told, a) && a@ == ActionV::Say(seq![hash_line(h@)])
        },
        (Locking::AllocateTx, Reply::Submitted(Err(e))) => stops(r, tx_fault_v(e, "AWPAllocator allocate"@)),
        (Locking::Told, Reply::Done(Ok(_))) => r matches Step::End(Ok(_)),
        (_, Reply::Done(Err(f))) => stops(r, f@),
        _ => stops(r, stray_v()),
    }
}

/// Starts to lock AWP and to allocate it to the agent.
pub fn do_stake(l: Lock) -> (r: Step<Locking, Result<(), Fault>>)
    ensures
        r matches Step::Act(Locking::Allowance(m), a) && m == l && a@ == ActionV::View(
            awp_bytes(),
            allowance_call(l.agent@, ve_awp_bytes()),
        ),
{
    let a = ask_allowance(awp(), &l.agent, &ve_awp());
    Step::Act(Locking::Allowance(l), a)
}

impl Locking {
    /// Goes on with the reply.
    pub fn step(self, reply: Reply) -> (r: Step<Locking, Result<(), Fault>>)
        ensures
            locking_next(self, reply, r),
    {
        match (self, reply) {
            (Locking::Allowance(l), Reply::Bytes(Ok(raw))) => with_allowance(l, &raw),
            (Locking::Allowance(_), Reply::Bytes(Err(f))) => stop(f),
            (Locking::Approve(l), Reply::Done(Ok(_))) => {
                let a = build_approve_tx(l.agent, awp(), &ve_awp());
                Step::Act(Locking::ApproveTx(l), a)
            },
            (Locking::ApproveTx(l), Reply::Submitted(Ok(h))) => {
                let a = say2(cat2("   tx: ", h.as_str()), deposit_text(&l));
                Step::Act(Locking::Deposit(l), a)
            },
            (Locking::ApproveTx(_), Reply::Submitted(Err(e))) => stop(tx_fault(e, "AWP approve to veAWP")),
            (Locking::Deposit(l), Reply::Done(Ok(_))) => {
                let a = build_deposit_tx(&l);
                Step::Act(Locking::DepositTx(l), a)
            },
            (Locking::DepositTx(l), Reply::Submitted(Ok(h))) => {
                let a = say2(
                    cat2("   tx: ", h.as_str()),
                    cat3(
                        "→ AWPAllocator.allocate(self, self, ARDI worknet, ",
                        l.amount_d0.as_str(),
                        " AWP)",
                    ),
                );
                Step::Act(Locking::Allocate(l), a)
            },
            (Locking::DepositTx(_), Reply::Submitted(Err(e))) => stop(tx_fault(e, "veAWP deposit")),
            (Locking::Allocate(l), Reply::Done(Ok(_))) => Step::Act(
                Locking::AllocateTx,
                build_allocate_tx(&l),
            ),
            (Locking::AllocateTx, Reply::Submitted(Ok(h))) => Step::Act(
                Locking::Told,
                say1(cat2("   tx: ", h.as_str())),
            ),
            (Locking::AllocateTx, Reply::Submitted(Err(e))) => stop(tx_fault(e, "AWPAllocator allocate")),
            (Locking::Told, Reply::Done(Ok(_))) => Step::End(Ok(())),
            (_, Reply::Done(Err(f))) => stop(f),
            _ => stop(stray()),
        }
    }
}

/// The AWP is approved, deposited and allocated in this order, each once the transaction before it has a hash;
/// the approval only where too little is allowed. The lock succeeds if and only if the allocation has a hash,
/// and a transaction that is not sent ends it, so that nothing after it is sent.
pub proof fn law_lock_succeeds_once_all_is_sent(s: Locking, reply: Reply, r: Step<Locking, Result<(), Fault>>)
    requires
        locking_next(s, reply, r),
    ensures
        r matches Step::Act(Locking::Approve(l), _) ==> (s == Locking::Allowance(l) && (reply matches Reply::Bytes(
            Ok(raw),
        ) && (uint_result(raw@) matches Ok(n) && n < l.amount))),
        r matches Step::Act(Locking::Deposit(l), _) ==> ({
            ||| s == Locking::Allowance(l) && (reply matches Reply::Bytes(Ok(raw)) && (uint_result(
                raw@,
            ) matches Ok(n) && n >= l.amount))
            ||| s == Locking::ApproveTx(l) && (reply matches Reply::Submitted(Ok(_)))
        }),
        r matches Step::Act(Locking::Allocate(l), _) ==> (s == Locking::DepositTx(l) && (
        reply matches Reply::Submitted(Ok(_)))),
        r matches Step::Act(Locking::Told, _) ==> (s is AllocateTx && (reply matches Reply::Submitted(Ok(_)))),
        r matches Step::End(Ok(_)) ==> s is Told,
        r matches Step::Act(n, a) ==> (a@ is Submit <==> n is ApproveTx || n is DepositTx || n is AllocateTx),
        reply matches Reply::Submitted(Err(_)) ==> (r matches Step::End(Err(_))),
{
}

/// What locking sends: the lock contract is allowed to take any amount of the agent's AWP, it is handed the amount
/// for the days, in seconds, and the amount is allocated by the agent to the agent, on the worknet 845300000014.
pub proof fn law_lock_sends_the_amount(s: Locking, reply: Reply, r: Step<Locking, Result<(), Fault>>)
    requires
        locking_next(s, reply, r),
    ensures
        r matches Step::Act(Locking::ApproveTx(l), a) ==> ({
            &&& a@ matches ActionV::Submit(t)
            &&& t.from == l.agent@
            &&& t.to == awp_bytes()
            &&& t.value_wei == 0
            &&& t.data.take(4) == selector_of("approve(address,uint256)"@)
            &&& t.gas_limit == 100_000
            &&& address_result(arg_at(t.data, 0)) == Ok::<Seq<u8>, Seq<char>>(ve_awp_bytes())
            &&& be_number(arg_at(t.data, 1)) == word_base() - 1
        }),
        r matches Step::Act(Locking::DepositTx(l), a) ==> ({
            &&& a@ matches ActionV::Submit(t)
            &&& t.from == l.agent@
            &&& t.to == ve_awp_bytes()
            &&& t.value_wei == 0
            &&& t.data.take(4) == selector_of("deposit(uint256,uint64)"@)
            &&& t.gas_limit == 500_000
            &&& be_number(arg_at(t.data, 0)) == l.amount
            &&& be_number(arg_at(t.data, 1)) == l.days * 86_400
        }),
        r matches Step::Act(Locking::AllocateTx, a) ==> ({
            &&& s matches Locking::Allocate(l)
            &&& a@ matches ActionV::Submit(t)
            &&& t.from == l.agent@
            &&& t.to == awp_allocator_bytes()
            &&& t.value_wei == 0
            &&& t.data.take(4) == selector_of("allocate(address,address,uint256,uint256)"@)
            &&& t.gas_limit == 300_000
            &&& address_result(arg_at(t.data, 0)) == Ok::<Seq<u8>, Seq<char>>(l.agent@)
            &&& address_result(arg_at(t.data, 1)) == Ok::<Seq<u8>, Seq<char>>(l.agent@)
            &&& be_number(arg_at(t.data, 2)) == 845_300_000_014
            &&& be_number(arg_at(t.data, 3)) == l.amount
        }),
{
    lemma_word_lengths();
    if let Step::Act(Locking::ApproveTx(l), _) = r {
        let args = seq![address_word(ve_awp_bytes()), be_word((word_base() - 1) as nat)];
        lemma_static_args("approve(address,uint256)"@, args);
        assert(arg_at(static_call("approve(address,uint256)"@, args), 0) == address_word(ve_awp_bytes()));
        assert(arg_at(static_call("approve(address,uint256)"@, args), 1) == be_word((word_base() - 1) as nat));
    }
    if let Step::Act(Locking::DepositTx(l), _) = r {
        let args = seq![be_word(l.amount as nat), be_word(l.days as nat * DAY_SEC as nat)];
        lemma_static_args("deposit(uint256,uint64)"@, args);
        assert(arg_at(static_call("deposit(uint256,uint64)"@, args), 0) == be_word(l.amount as nat));
        assert(arg_at(static_call("deposit(uint256,uint64)"@, args), 1) == be_word(l.days as nat * DAY_SEC as nat));
    }
    if let (Step::Act(Locking::AllocateTx, _), Locking::Allocate(l)) = (r, s) {
        let args = seq![address_word(l.agent@), address_word(l.agent@), be_word(ARDI_WORKNET_ID as nat), be_word(l.amount as nat)];
        lemma_static_args("allocate(address,address,uint256,uint256)"@, args);
        assert(arg_at(static_call("allocate(address,address,uint256,uint256)"@, args), 0) == address_word(l.agent@));
        assert(arg_at(static_call("allocate(address,address,uint256,uint256)"@, args), 1) == address_word(l.agent@));
        assert(arg_at(static_call("allocate(address,address,uint256,uint256)"@, args), 2) == be_word(ARDI_WORKNET_ID as nat));
        assert(arg_at(static_call("allocate(address,address,uint256,uint256)"@, args), 3) == be_word(l.amount as nat));
    }
}

} // verus!
