//! What holds of every tracker, stated over the model that the contracts of
//! its operations are written in.

use vstd::prelude::*;
use crate::progress::ProgressView;
use crate::span::TimeSpanView;
use crate::status::{done_text, elapsed_field, eta_separator};

verus! {

/// One increment on a fresh tracker leaves exactly one unit done, whatever
/// the name and the total.
pub proof fn lemma_first_increment(name: Seq<char>, work_total: nat)
    ensures
        ProgressView::fresh(name, work_total).advanced_by(1).work_done == 1,
{
}

/// Advancing a fresh tracker by `units` leaves exactly `units` done, whatever
/// the name and the total.
pub proof fn lemma_first_advance(name: Seq<char>, work_total: nat, units: nat)
    ensures
        ProgressView::fresh(name, work_total).advanced_by(units).work_done == units,
{
}

/// Setting the work done makes it the given value whatever it was before,
/// larger or smaller, and touches nothing else.
pub proof fn lemma_set_overwrites(progress: ProgressView, units: nat)
    ensures
        progress.with_work_done(units).work_done == units,
        progress.with_work_done(units).name == progress.name,
        progress.with_work_done(units).work_total == progress.work_total,
{
}

/// Increments add up: advancing twice is advancing once by the sum.
pub proof fn lemma_advances_add_up(progress: ProgressView, first: nat, second: nat)
    ensures
        progress.advanced_by(first).advanced_by(second) == progress.advanced_by(first + second),
{
}

/// Once the work done is set to the total, the ETA field is `done!` whatever
/// time has passed, and the line ends with it.
pub proof fn lemma_complete_says_done(progress: ProgressView, elapsed: TimeSpanView)
    ensures
        progress.with_work_done(progress.work_total).is_complete(),
        progress.with_work_done(progress.work_total).line_eta(elapsed.secs) == done_text(),
        (eta_separator() + done_text()).is_suffix_of(
            progress.with_work_done(progress.work_total).line(elapsed),
        ),
{
    let complete = progress.with_work_done(progress.work_total);
    crate::status::lemma_line_ends_with_eta(
        complete.name,
        complete.work_done,
        complete.work_total,
        elapsed_field(elapsed),
        complete.line_eta(elapsed.secs),
    );
}

/// A tracker on which more work was reported than the total holds has
/// nothing remaining and no time left, whatever time has passed.
pub proof fn lemma_overcount_clamps(progress: ProgressView, elapsed_secs: nat)
    requires
        progress.is_overcounted(),
    ensures
        progress.remaining() == 0,
        progress.seconds_left(elapsed_secs) == 0,
{
    crate::estimate::lemma_nothing_left_when_done(
        progress.work_done,
        progress.work_total,
        elapsed_secs,
    );
}

/// Two lines of one unchanged tracker differ at most in the elapsed-time
/// field: both are the same head, their own elapsed time, and the same ETA.
/// The ETA is a function of the whole seconds that have passed, so this is
/// stated for two readings that lead to the same estimate, as any two within
/// one second do, and for a tracker that is complete.
pub proof fn lemma_lines_differ_only_in_elapsed(
    progress: ProgressView,
    first: TimeSpanView,
    second: TimeSpanView,
)
    requires
        progress.is_complete() || progress.seconds_left(first.secs) == progress.seconds_left(
            second.secs,
        ),
    ensures
        progress.line(first) == progress.line_head() + elapsed_field(first) + eta_separator()
            + progress.line_eta(first.secs),
        progress.line(second) == progress.line_head() + elapsed_field(second) + eta_separator()
            + progress.line_eta(first.secs),
{
}

} // verus!
