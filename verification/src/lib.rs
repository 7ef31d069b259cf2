//! Measure the progress of a job and report on it.
//!
//! This is not a profiler: the caller decides what one unit of work is and
//! reports each unit as it completes. A [`Progress`] value keeps the counters
//! and the moment the job started; from them it estimates the time that is
//! left by linear interpolation and renders a one-line summary such as
//! `job name 2/100 - 2.0% started 2s ago, eta: 1m 38s`.
//!
//! Every function that reads the clock has a twin that takes the elapsed time
//! as an argument. The twins are pure: their contracts say exactly what comes
//! back, and the clock-reading functions promise that their result is the
//! twin's result for some elapsed time.

pub mod clock;
pub mod decimal;
pub mod estimate;
pub mod laws;
pub mod percent;
pub mod progress;
pub mod span;
pub mod status;

pub use progress::Progress;
pub use span::TimeSpan;
