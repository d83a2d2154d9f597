//! Points in time and lengths of time, counted in seconds and nanoseconds.

use vstd::prelude::*;

verus! {

/// The number of nanoseconds in one second.
pub const NANOS_PER_SEC: u32 = 1_000_000_000;

/// A length of time: whole seconds and the nanoseconds beyond them.
#[derive(Clone, Copy, Debug, PartialEq, Eq, Structural)]
pub struct Span {
    pub secs: u64,
    pub nanos: u32,
}

/// A point in time, as the span that has passed since the UNIX epoch.
#[derive(Clone, Copy, Debug, PartialEq, Eq, Structural)]
pub struct Timestamp {
    pub secs: u64,
    pub nanos: u32,
}

impl Span {
    /// The nanoseconds stay below one second.
    pub open spec fn wf(self) -> bool {
        self.nanos < NANOS_PER_SEC
    }

    /// The whole span, in nanoseconds.
    pub open spec fn total_nanos(self) -> int {
        self.secs * 1_000_000_000 + self.nanos
    }

    /// The span of `ms` milliseconds.
    pub fn from_millis(ms: u64) -> (res: Span)
        ensures
            res.wf(),
            res.total_nanos() == ms * 1_000_000,
            res.secs == ms / 1000,
    {
        let secs = ms / 1000;
        let rest = (ms % 1000) as u32;
        Span { secs, nanos: rest * 1_000_000 }
    }

    /// The span of `secs` whole seconds.
    pub fn from_secs(secs: u64) -> (res: Span)
        ensures
            res.wf(),
            res.secs == secs,
            res.nanos == 0,
            res.total_nanos() == secs * 1_000_000_000,
    {
        Span { secs, nanos: 0 }
    }

    /// This span and one second more; the sum must fit.
    pub fn plus_one_second(self) -> (res: Span)
        requires
            self.secs < u64::MAX,
        ensures
            res.secs == self.secs + 1,
            res.nanos == self.nanos,
            res.total_nanos() == self.total_nanos() + 1_000_000_000,
    {
        Span { secs: self.secs + 1, nanos: self.nanos }
    }
}

impl Timestamp {
    /// The nanoseconds stay below one second.
    pub open spec fn wf(self) -> bool {
        self.nanos < NANOS_PER_SEC
    }

    /// Nanoseconds since the UNIX epoch.
    pub open spec fn total_nanos(self) -> int {
        self.secs * 1_000_000_000 + self.nanos
    }

    /// The span from `earlier` to `self`, or `None` where `earlier` lies
    /// after `self`.
    pub fn duration_since(self, earlier: Timestamp) -> (res: Option<Span>)
        requires
            self.wf(),
            earlier.wf(),
        ensures
            res is Some <==> earlier.total_nanos() <= self.total_nanos(),
            res matches Some(d) ==> d.wf() && d.total_nanos() == self.total_nanos()
                - earlier.total_nanos(),
    {
        if self.secs < earlier.secs || (self.secs == earlier.secs && self.nanos < earlier.nanos) {
            None
        } else if self.nanos >= earlier.nanos {
            Some(Span { secs: self.secs - earlier.secs, nanos: self.nanos - earlier.nanos })
        } else {
            Some(
                Span {
                    secs: self.secs - earlier.secs - 1,
                    nanos: self.nanos + (NANOS_PER_SEC - earlier.nanos),
                },
            )
        }
    }
}

} // verus!
