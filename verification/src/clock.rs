//! The clock.
use vstd::prelude::*;

verus! {

/// `chrono::Utc::now` in Unix seconds. Nothing is stated of it: every call may give another time.
#[verifier::external_body]
pub(crate) fn unix_now() -> (r: i64) {
    chrono::Utc::now().timestamp()
}

/// The time `secs` seconds after `now`, as an unsigned number.
pub open spec fn later_v(now: i64, secs: nat) -> nat {
    ((now + secs) % 0x1_0000_0000_0000_0000) as nat
}

/// The time some seconds after `now`, as an unsigned number.
pub fn later(now: i64, secs: u32) -> (r: u64)
    ensures
        r == later_v(now, secs as nat),
{
    let t: i128 = now as i128 + secs as i128;
    if t < 0 {
        (t + 0x1_0000_0000_0000_0000) as u64
    } else {
        t as u64
    }
}

/// Some seconds after a time that is not before 1970 is that many seconds later.
pub proof fn law_later_is_later(now: i64, secs: nat)
    requires
        now >= 0,
        secs <= u32::MAX,
    ensures
        later_v(now, secs) == now + secs,
        later_v(now, secs) - secs == now,
{
}

} // verus!
