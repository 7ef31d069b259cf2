//! A length of time as whole seconds plus a sub-second part in nanoseconds.

use vstd::prelude::*;

verus! {

/// The number of nanoseconds in one second.
pub const NANOS_PER_SEC: u32 = 1_000_000_000;

/// A non-negative length of time: `secs` whole seconds and `nanos`
/// nanoseconds, where the nanoseconds never add up to a whole second.
#[derive(Clone, Copy, Debug, PartialEq, Eq, Structural)]
pub struct TimeSpan {
    secs: u64,
    nanos: u32,
}

/// What a [`TimeSpan`] stands for.
pub struct TimeSpanView {
    pub secs: nat,
    pub nanos: nat,
}

impl TimeSpanView {
    /// Whether a [`TimeSpan`] can hold these parts: the seconds fit in 64
    /// bits and the nanoseconds stay below one second.
    pub open spec fn in_range(self) -> bool {
        self.secs <= u64::MAX && self.nanos < NANOS_PER_SEC
    }
}

impl View for TimeSpan {
    type V = TimeSpanView;

    closed spec fn view(&self) -> TimeSpanView {
        TimeSpanView { secs: self.secs as nat, nanos: self.nanos as nat }
    }
}

impl TimeSpan {
    #[verifier::type_invariant]
    spec fn well_formed(self) -> bool {
        self.nanos < NANOS_PER_SEC
    }

    /// A span of `secs` whole seconds.
    pub fn from_secs(secs: u64) -> (span: TimeSpan)
        ensures
            span@.secs == secs,
            span@.nanos == 0,
            span@.in_range(),
    {
        TimeSpan { secs, nanos: 0 }
    }

    /// A span of `secs` seconds and `nanos` nanoseconds, or `None` when
    /// `nanos` is a whole second or more.
    pub fn new(secs: u64, nanos: u32) -> (span: Option<TimeSpan>)
        ensures
            span is Some <==> nanos < NANOS_PER_SEC,
            span is Some ==> span->0@.secs == secs && span->0@.nanos == nanos && span->0@.in_range(),
    {
        if nanos < NANOS_PER_SEC {
            Some(TimeSpan { secs, nanos })
        } else {
            None
        }
    }

    /// The whole seconds of the span.
    pub fn as_secs(&self) -> (secs: u64)
        ensures
            secs == self@.secs,
    {
        self.secs
    }

    /// The part of the span below one second, in nanoseconds.
    pub fn subsec_nanos(&self) -> (nanos: u32)
        ensures
            nanos == self@.nanos,
            nanos < NANOS_PER_SEC,
    {
        proof {
            use_type_invariant(self);
        }
        self.nanos
    }
}

} // verus!
