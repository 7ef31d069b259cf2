//! The one-line summary of a job.
//!
//! The line has the shape
//!
//! ```text
//! <name> <done>/<total> - <percent>% started <elapsed> ago, eta: <eta>
//! ```
//!
//! where `<eta>` is `done!` once the work done equals the total. The two
//! durations are put into words by code outside this library: the elapsed
//! time by the standard library, the time left by `humantime`. What those
//! calls return is named here, not spelled out; everything around them is
//! stated exactly.

use std::time::Duration;
use vstd::prelude::*;
use vstd::string::*;
use crate::decimal::{decimal, push_decimal};
use crate::estimate::{estimate_seconds, eta_seconds};
use crate::percent::{percent_text, push_percent};
use crate::span::{TimeSpan, TimeSpanView, NANOS_PER_SEC};

verus! {

/// The text that the standard library's `Debug` formatting of a `Duration`
/// gives at precision zero, as in `41ns`, `3ms` or `2s`, for the duration of
/// `secs` seconds and `nanos` nanoseconds.
pub uninterp spec fn rounded_duration_text(secs: nat, nanos: nat) -> Seq<char>;

/// The text that `humantime::format_duration` gives for a duration of `secs`
/// whole seconds, as in `1m 38s`.
pub uninterp spec fn humantime_text(secs: nat) -> Seq<char>;

/// Formats `Duration::new(secs, nanos)` with `{:.0?}`. The call is
/// deterministic, and its result is known only by its name,
/// [`rounded_duration_text`]. With `nanos` below one second `Duration::new`
/// has nothing to carry and cannot overflow.
#[verifier::external_body]
fn format_rounded(secs: u64, nanos: u32) -> (text: String)
    requires
        nanos < NANOS_PER_SEC,
    ensures
        text@ == rounded_duration_text(secs as nat, nanos as nat),
{
    format!("{:.0?}", Duration::new(secs, nanos))
}

/// Calls `humantime::format_duration` on `Duration::from_secs(secs)` and
/// collects what it displays. The result is known by its name,
/// [`humantime_text`]; the one value claimed is the one that `humantime`
/// writes for a zero duration before it looks at any unit: `0s`.
#[verifier::external_body]
fn format_humantime(secs: u64) -> (text: String)
    ensures
        text@ == humantime_text(secs as nat),
        secs == 0 ==> text@ == "0s"@,
{
    humantime::format_duration(Duration::from_secs(secs)).to_string()
}

/// The text of the ETA field for a job that is complete.
pub open spec fn done_text() -> Seq<char> {
    "done!"@
}

/// What stands between the elapsed time and the ETA field.
pub open spec fn eta_separator() -> Seq<char> {
    " ago, eta: "@
}

/// The line up to the elapsed time: the name, the two counters, the
/// percentage and the word `started`.
pub open spec fn status_head(name: Seq<char>, done: nat, total: nat) -> Seq<char> {
    name + " "@ + decimal(done) + "/"@ + decimal(total) + " - "@ + percent_text(done, total)
        + "% started "@
}

/// The elapsed-time field.
pub open spec fn elapsed_field(elapsed: TimeSpanView) -> Seq<char> {
    rounded_duration_text(elapsed.secs, elapsed.nanos)
}

/// The ETA field after `elapsed_secs` whole seconds: `done!` when the work
/// done equals the total, and otherwise the estimate in words.
pub open spec fn eta_field(done: nat, total: nat, elapsed_secs: nat) -> Seq<char> {
    if done == total {
        done_text()
    } else {
        humantime_text(eta_seconds(done, total, elapsed_secs))
    }
}

/// The line made of the given parts.
pub open spec fn assembled_line(
    name: Seq<char>,
    done: nat,
    total: nat,
    elapsed_text: Seq<char>,
    eta_text: Seq<char>,
) -> Seq<char> {
    status_head(name, done, total) + elapsed_text + eta_separator() + eta_text
}

/// The whole line for a job that has been running for `elapsed`.
pub open spec fn status_line(
    name: Seq<char>,
    done: nat,
    total: nat,
    elapsed: TimeSpanView,
) -> Seq<char> {
    assembled_line(name, done, total, elapsed_field(elapsed), eta_field(done, total, elapsed.secs))
}

/// The elapsed-time field in words.
pub fn elapsed_string(elapsed: TimeSpan) -> (text: String)
    ensures
        text@ == elapsed_field(elapsed@),
{
    format_rounded(elapsed.as_secs(), elapsed.subsec_nanos())
}

/// The ETA field after `elapsed_secs` whole seconds, see [`eta_field`].
pub fn eta_string(done: u64, total: u64, elapsed_secs: u64) -> (text: String)
    ensures
        text@ == eta_field(done as nat, total as nat, elapsed_secs as nat),
        done != total && (done > total || elapsed_secs == 0) ==> text@ == "0s"@,
{
    if done == total {
        "done!".to_owned()
    } else {
        proof {
            if done > total {
                crate::estimate::lemma_nothing_left_when_done(
                    done as nat,
                    total as nat,
                    elapsed_secs as nat,
                );
            }
            if elapsed_secs == 0 {
                crate::estimate::lemma_nothing_left_at_start(done as nat, total as nat);
            }
        }
        format_humantime(estimate_seconds(done, total, elapsed_secs))
    }
}

/// Puts the line together from the counters and the two duration texts.
pub fn assemble_line(
    name: &str,
    done: u64,
    total: u64,
    elapsed_text: &str,
    eta_text: &str,
) -> (line: String)
    ensures
        line@ == assembled_line(name@, done as nat, total as nat, elapsed_text@, eta_text@),
{
    let mut line = name.to_owned();
    line.append(" ");
    push_decimal(&mut line, done as u128);
    line.append("/");
    push_decimal(&mut line, total as u128);
    line.append(" - ");
    push_percent(&mut line, done, total);
    line.append("% started ");
    assert(line@ =~= status_head(name@, done as nat, total as nat));
    line.append(elapsed_text);
    line.append(" ago, eta: ");
    line.append(eta_text);
    line
}

/// The whole line for a job that has been running for `elapsed`.
pub fn status_string(name: &str, done: u64, total: u64, elapsed: TimeSpan) -> (line: String)
    ensures
        line@ == status_line(name@, done as nat, total as nat, elapsed@),
{
    let elapsed_text = elapsed_string(elapsed);
    let eta_text = eta_string(done, total, elapsed.as_secs());
    assemble_line(name, done, total, elapsed_text.as_str(), eta_text.as_str())
}

/// Every line begins with its head, which the elapsed time has no part in.
pub proof fn lemma_line_begins_with_head(
    name: Seq<char>,
    done: nat,
    total: nat,
    elapsed_text: Seq<char>,
    eta_text: Seq<char>,
)
    ensures
        status_head(name, done, total).is_prefix_of(
            assembled_line(name, done, total, elapsed_text, eta_text),
        ),
{
}

/// Every line ends with the separator and its ETA field.
pub proof fn lemma_line_ends_with_eta(
    name: Seq<char>,
    done: nat,
    total: nat,
    elapsed_text: Seq<char>,
    eta_text: Seq<char>,
)
    ensures
        (eta_separator() + eta_text).is_suffix_of(
            assembled_line(name, done, total, elapsed_text, eta_text),
        ),
{
}

} // verus!
