//! The progress tracker itself.

use std::time::Instant;
use vstd::prelude::*;
use crate::clock::elapsed_since;
use crate::estimate::{estimate_seconds, eta_seconds, remaining_work};
use crate::span::{TimeSpan, TimeSpanView};
use crate::status::{
    done_text, elapsed_field, eta_field, eta_separator, status_head, status_line, status_string,
};

verus! {

/// The state of a tracked job.
///
/// The name, the total and the start are fixed when the tracker is made.
/// `work_done` is open to the caller, who may also write it directly; nothing
/// keeps it at or below the total.
pub struct Progress {
    name: String,
    pub work_done: u64,
    started_at: Instant,
    work_total: u64,
}

/// What a [`Progress`] stands for, apart from the moment it was started.
pub struct ProgressView {
    /// The label that the summary line begins with.
    pub name: Seq<char>,
    /// The units of work reported done so far.
    pub work_done: nat,
    /// The units of work that make up the whole job.
    pub work_total: nat,
}

impl ProgressView {
    /// A job on which no work has been done yet.
    pub open spec fn fresh(name: Seq<char>, work_total: nat) -> ProgressView {
        ProgressView { name, work_done: 0, work_total }
    }

    /// The job after `units` more units of work.
    pub open spec fn advanced_by(self, units: nat) -> ProgressView {
        ProgressView { work_done: self.work_done + units, ..self }
    }

    /// The job with its work done replaced by `units`.
    pub open spec fn with_work_done(self, units: nat) -> ProgressView {
        ProgressView { work_done: units, ..self }
    }

    /// Whether the work done equals the total.
    pub open spec fn is_complete(self) -> bool {
        self.work_done == self.work_total
    }

    /// Whether more work was reported than the total holds.
    pub open spec fn is_overcounted(self) -> bool {
        self.work_done > self.work_total
    }

    /// The units of work still to do.
    pub open spec fn remaining(self) -> nat {
        remaining_work(self.work_done, self.work_total)
    }

    /// The estimated seconds left after `elapsed_secs` whole seconds.
    pub open spec fn seconds_left(self, elapsed_secs: nat) -> nat {
        eta_seconds(self.work_done, self.work_total, elapsed_secs)
    }

    /// The summary line up to the elapsed time.
    pub open spec fn line_head(self) -> Seq<char> {
        status_head(self.name, self.work_done, self.work_total)
    }

    /// The ETA field of the summary line after `elapsed_secs` whole seconds.
    pub open spec fn line_eta(self, elapsed_secs: nat) -> Seq<char> {
        eta_field(self.work_done, self.work_total, elapsed_secs)
    }

    /// The summary line after `elapsed`.
    pub open spec fn line(self, elapsed: TimeSpanView) -> Seq<char> {
        status_line(self.name, self.work_done, self.work_total, elapsed)
    }
}

impl View for Progress {
    type V = ProgressView;

    closed spec fn view(&self) -> ProgressView {
        ProgressView {
            name: self.name@,
            work_done: self.work_done as nat,
            work_total: self.work_total as nat,
        }
    }
}

impl Progress {
    /// The reading of the clock taken at construction.
    pub closed spec fn started(&self) -> Instant {
        self.started_at
    }

    /// Starts tracking a job of `work_todo` units under the given name. The
    /// clock is read once, here; no work is done yet.
    pub fn new(name: &str, work_todo: u64) -> (progress: Progress)
        ensures
            progress@ == ProgressView::fresh(name@, work_todo as nat),
    {
        Progress {
            name: name.to_owned(),
            started_at: Instant::now(),
            work_done: 0,
            work_total: work_todo,
        }
    }

    /// The units of work reported done so far: what the field `work_done`
    /// holds.
    pub fn work_done(&self) -> (done: u64)
        ensures
            done == self@.work_done,
    {
        self.work_done
    }

    /// The units of work that make up the whole job.
    pub fn work_total(&self) -> (total: u64)
        ensures
            total == self@.work_total,
    {
        self.work_total
    }

    /// Whether more work was reported than the total holds. The estimate
    /// then treats the job as having nothing left.
    pub fn exceeds_total(&self) -> (over: bool)
        ensures
            over == self@.is_overcounted(),
    {
        self.work_done > self.work_total
    }

    /// Counts one more unit of work as done. The counter must have room for
    /// it.
    pub fn inc_work_done(&mut self)
        requires
            old(self)@.work_done < u64::MAX,
        ensures
            final(self)@ == old(self)@.advanced_by(1),
            final(self).started() == old(self).started(),
    {
        self.work_done = self.work_done.checked_add(1).unwrap();
    }

    /// Counts `units` more units of work as done. The counter must have room
    /// for them: a sum beyond 64 bits is never stored, wrapped or otherwise.
    pub fn inc_work_done_by(&mut self, units: u64)
        requires
            old(self)@.work_done + units <= u64::MAX,
        ensures
            final(self)@ == old(self)@.advanced_by(units as nat),
            final(self).started() == old(self).started(),
    {
        self.work_done = self.work_done.checked_add(units).unwrap();
    }

    /// Replaces the work done by `units`, whether that is more or less than
    /// before.
    pub fn set_work_done(&mut self, units: u64)
        ensures
            final(self)@ == old(self)@.with_work_done(units as nat),
            final(self).started() == old(self).started(),
    {
        self.work_done = units;
    }

    /// The estimated time left for a job that has been running for
    /// `elapsed`: a whole number of seconds, by linear interpolation over the
    /// whole seconds of `elapsed`.
    pub fn estimate_time_left_after(&self, elapsed: TimeSpan) -> (left: TimeSpan)
        ensures
            left@.secs == self@.seconds_left(elapsed@.secs),
            left@.nanos == 0,
    {
        TimeSpan::from_secs(estimate_seconds(self.work_done, self.work_total, elapsed.as_secs()))
    }

    /// The estimated time left, from the time that has passed since
    /// construction. Whatever the clock reads, the result is what
    /// [`Progress::estimate_time_left_after`] gives for some elapsed time,
    /// and it is zero once the work done has reached the total.
    pub fn estimate_time_left(&self) -> (left: TimeSpan)
        ensures
            exists|elapsed_secs: nat|
                elapsed_secs <= u64::MAX && left@.secs == #[trigger] self@.seconds_left(
                    elapsed_secs,
                ),
            left@.nanos == 0,
            self@.work_done >= self@.work_total ==> left@.secs == 0,
    {
        let elapsed = elapsed_since(&self.started_at);
        let left = self.estimate_time_left_after(elapsed);
        proof {
            assert(left@.secs == self@.seconds_left(elapsed@.secs));
            if self@.work_done >= self@.work_total {
                crate::estimate::lemma_nothing_left_when_done(
                    self@.work_done,
                    self@.work_total,
                    elapsed@.secs,
                );
            }
        }
        left
    }

    /// The summary line for a job that has been running for `elapsed`.
    pub fn progress_string_after(&self, elapsed: TimeSpan) -> (line: String)
        ensures
            line@ == self@.line(elapsed@),
    {
        status_string(self.name.as_str(), self.work_done, self.work_total, elapsed)
    }

    /// The summary line, with the time that has passed since construction.
    /// Whatever the clock reads, the line is what
    /// [`Progress::progress_string_after`] gives for some elapsed time: it
    /// begins with the head, which does not depend on the clock, and once the
    /// work done equals the total it ends with `done!`.
    pub fn get_progress_string(&self) -> (line: String)
        ensures
            exists|elapsed: TimeSpanView|
                elapsed.in_range() && line@ == #[trigger] self@.line(elapsed),
            self@.line_head().is_prefix_of(line@),
            self@.is_complete() ==> (eta_separator() + done_text()).is_suffix_of(line@),
    {
        let elapsed = elapsed_since(&self.started_at);
        let line = self.progress_string_after(elapsed);
        proof {
            assert(line@ == self@.line(elapsed@));
            crate::status::lemma_line_begins_with_head(
                self@.name,
                self@.work_done,
                self@.work_total,
                elapsed_field(elapsed@),
                self@.line_eta(elapsed@.secs),
            );
            crate::status::lemma_line_ends_with_eta(
                self@.name,
                self@.work_done,
                self@.work_total,
                elapsed_field(elapsed@),
                self@.line_eta(elapsed@.secs),
            );
        }
        line
    }
}

} // verus!
