//! The share of the work that is done, as a percentage with one decimal.

use vstd::prelude::*;
use vstd::string::*;
use crate::decimal::{decimal, push_decimal};

verus! {

/// The percentage `100 * done / total` in tenths of a percent, rounded to the
/// nearest tenth; a value exactly halfway between two tenths goes to the even
/// one. Meant for `total > 0`.
pub open spec fn percent_tenths(done: nat, total: nat) -> nat
    recommends
        total > 0,
{
    let scaled = 1000 * done;
    let below = scaled / total;
    let rest = scaled % total;
    if 2 * rest < total {
        below
    } else if 2 * rest > total {
        below + 1
    } else if below % 2 == 0 {
        below
    } else {
        below + 1
    }
}

/// The text of the percentage, without the percent sign: the whole percents,
/// a point and one decimal, as in `50.0`. With a total of zero there is no
/// ratio to show: the text is `NaN` when nothing was done either, and `inf`
/// when something was.
pub open spec fn percent_text(done: nat, total: nat) -> Seq<char> {
    if total == 0 {
        if done == 0 {
            "NaN"@
        } else {
            "inf"@
        }
    } else {
        let tenths = percent_tenths(done, total);
        decimal(tenths / 10) + "."@ + decimal(tenths % 10)
    }
}

/// The percentage in tenths of a percent, see [`percent_tenths`], or `None`
/// for a total of zero, of which nothing is a share.
pub fn tenths_of_percent(done: u64, total: u64) -> (tenths: Option<u128>)
    ensures
        tenths is Some <==> total > 0,
        tenths is Some ==> tenths->0 == percent_tenths(done as nat, total as nat),
{
    if total == 0 {
        return None;
    }
    let scaled: u128 = 1000 * (done as u128);
    let divisor: u128 = total as u128;
    let below: u128 = scaled / divisor;
    let rest: u128 = scaled % divisor;
    proof {
        vstd::arithmetic::div_mod::lemma_fundamental_div_mod(scaled as int, divisor as int);
        assert(divisor * below >= below) by (nonlinear_arith)
            requires
                divisor >= 1,
                below >= 0,
        ;
        // Rounding up happens only when there is a rest, so the result stays
        // at or below `scaled`.
        assert(below + rest <= scaled);
    }
    if 2 * rest < divisor {
        Some(below)
    } else if 2 * rest > divisor {
        Some(below + 1)
    } else if below % 2 == 0 {
        Some(below)
    } else {
        Some(below + 1)
    }
}

/// Appends the text of the percentage to `out`, see [`percent_text`].
pub fn push_percent(out: &mut String, done: u64, total: u64)
    ensures
        final(out)@ == old(out)@ + percent_text(done as nat, total as nat),
{
    match tenths_of_percent(done, total) {
        Some(tenths) => {
            push_decimal(out, tenths / 10);
            out.append(".");
            push_decimal(out, tenths % 10);
            assert(out@ =~= old(out)@ + percent_text(done as nat, total as nat));
        },
        None => {
            if done == 0 {
                out.append("NaN");
            } else {
                out.append("inf");
            }
        },
    }
}

/// The rounded percentage is the tenth nearest to the exact ratio: it is off
/// by at most half a tenth of a percent.
pub proof fn lemma_percent_is_nearest(done: nat, total: nat)
    requires
        total > 0,
    ensures
        2 * (percent_tenths(done, total) * total - 1000 * done) <= total,
        2 * (1000 * done - percent_tenths(done, total) * total) <= total,
{
    let scaled = 1000 * done;
    let below = scaled / total;
    let rest = scaled % total;
    vstd::arithmetic::div_mod::lemma_fundamental_div_mod(scaled as int, total as int);
    assert((below + 1) * total == below * total + total) by (nonlinear_arith);
    assert(total * below == below * total) by (nonlinear_arith);
}

/// Nothing done is `0.0` percent and everything done is `100.0` percent.
pub proof fn lemma_percent_at_the_ends(total: nat)
    requires
        total > 0,
    ensures
        percent_tenths(0, total) == 0,
        percent_tenths(total, total) == 1000,
{
    assert((1000 * total) / total == 1000 && (1000 * total) % total == 0) by (nonlinear_arith)
        requires
            total > 0,
    ;
    assert(0nat / total == 0 && 0nat % total == 0) by (nonlinear_arith)
        requires
            total > 0,
    ;
}

} // verus!
