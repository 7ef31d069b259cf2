//! The time that is left, by linear interpolation.
//!
//! The estimate assumes that work has been completed at a constant rate since
//! the start: if `done` units took `elapsed` seconds, the units that remain
//! will take `remaining * elapsed / done` seconds. All of the history since
//! the start is averaged in; there is no window of recent progress.

use vstd::prelude::*;

verus! {

/// The longest estimate that is ever given, in seconds. It stands for
/// "no end in sight".
pub const UNBOUNDED_SECS: u64 = 0xffff_ffff_ffff_ffff;

/// The units of work still to do. When more work was reported than the total
/// holds, nothing remains.
pub open spec fn remaining_work(done: nat, total: nat) -> nat {
    if done >= total {
        0
    } else {
        (total - done) as nat
    }
}

/// The estimated seconds left after `elapsed` whole seconds.
///
/// With `done > 0` this is `remaining * elapsed / done`, rounded down and
/// capped at [`UNBOUNDED_SECS`]. With `done == 0` no rate is known: the
/// estimate is [`UNBOUNDED_SECS`] as soon as there is work left and a whole
/// second has passed, and zero before that.
pub open spec fn eta_seconds(done: nat, total: nat, elapsed: nat) -> nat {
    let scaled = remaining_work(done, total) * elapsed;
    if scaled == 0 {
        0
    } else if done == 0 {
        UNBOUNDED_SECS as nat
    } else if scaled / done > UNBOUNDED_SECS {
        UNBOUNDED_SECS as nat
    } else {
        scaled / done
    }
}

/// The units of work still to do, see [`remaining_work`].
pub fn work_remaining(done: u64, total: u64) -> (left: u64)
    ensures
        left == remaining_work(done as nat, total as nat),
{
    if done >= total {
        0
    } else {
        total - done
    }
}

/// The estimated seconds left, see [`eta_seconds`].
pub fn estimate_seconds(done: u64, total: u64, elapsed: u64) -> (eta: u64)
    ensures
        eta == eta_seconds(done as nat, total as nat, elapsed as nat),
{
    let left: u64 = work_remaining(done, total);
    assert(left * elapsed <= u64::MAX * u64::MAX) by (nonlinear_arith)
        requires
            left <= u64::MAX,
            elapsed <= u64::MAX,
    ;
    let scaled: u128 = (left as u128) * (elapsed as u128);
    if scaled == 0 {
        0
    } else if done == 0 {
        UNBOUNDED_SECS
    } else {
        let quotient: u128 = scaled / (done as u128);
        if quotient > UNBOUNDED_SECS as u128 {
            UNBOUNDED_SECS
        } else {
            quotient as u64
        }
    }
}

/// Once all the work is done, or more than all of it, no time is left,
/// however long the job has been running.
pub proof fn lemma_nothing_left_when_done(done: nat, total: nat, elapsed: nat)
    requires
        done >= total,
    ensures
        remaining_work(done, total) == 0,
        eta_seconds(done, total, elapsed) == 0,
{
    assert(0 * elapsed == 0);
}

/// Before the first whole second has passed the estimate is zero.
pub proof fn lemma_nothing_left_at_start(done: nat, total: nat)
    ensures
        eta_seconds(done, total, 0) == 0,
{
    assert(remaining_work(done, total) * 0 == 0);
}

/// At exactly half of the work the time left equals the time spent.
pub proof fn lemma_halfway_left_equals_elapsed(done: nat, total: nat, elapsed: nat)
    requires
        done > 0,
        total == 2 * done,
        elapsed <= UNBOUNDED_SECS,
    ensures
        eta_seconds(done, total, elapsed) == elapsed,
{
    assert(remaining_work(done, total) == done);
    assert((done * elapsed) / done == elapsed) by (nonlinear_arith)
        requires
            done > 0,
    ;
    assert(done * elapsed == 0 <==> elapsed == 0) by (nonlinear_arith)
        requires
            done > 0,
    ;
}

/// The estimate never grows when more work is reported done.
pub proof fn lemma_more_done_less_left(done1: nat, done2: nat, total: nat, elapsed: nat)
    requires
        0 < done1 <= done2,
    ensures
        eta_seconds(done2, total, elapsed) <= eta_seconds(done1, total, elapsed),
{
    let left1 = remaining_work(done1, total);
    let left2 = remaining_work(done2, total);
    assert(left2 <= left1);
    assert(left2 * elapsed <= left1 * elapsed) by (nonlinear_arith)
        requires
            left2 <= left1,
    ;
    let a = left2 * elapsed;
    let b = left1 * elapsed;
    assert(a / done2 <= b / done1) by {
        vstd::arithmetic::div_mod::lemma_div_is_ordered(a as int, b as int, done1 as int);
        vstd::arithmetic::div_mod::lemma_div_is_ordered_by_denominator(
            a as int,
            done1 as int,
            done2 as int,
        );
    }
    assert(b / done1 >= 0) by {
        vstd::arithmetic::div_mod::lemma_div_pos_is_pos(b as int, done1 as int);
    }
    assert(a / done2 >= 0) by {
        vstd::arithmetic::div_mod::lemma_div_pos_is_pos(a as int, done2 as int);
    }
    if b == 0 {
        assert(a == 0);
    }
}

} // verus!
