//! A span of time held as plain seconds and nanoseconds.
use vstd::prelude::*;

verus! {

/// Nanoseconds in one second.
pub const NANOS_PER_SEC: u32 = 1_000_000_000;

/// A span of time: whole seconds plus a sub-second part in nanoseconds,
/// the same two numbers that `std::time::Duration` holds.
#[derive(Debug, Clone, Copy, PartialEq, Eq, Structural)]
pub struct Elapsed {
    pub secs: u64,
    pub nanos: u32,
}

impl Elapsed {
    /// The sub-second part is below one second.
    pub open spec fn wf(self) -> bool {
        self.nanos < NANOS_PER_SEC
    }

    /// The length of the span in nanoseconds.
    pub open spec fn total_nanos(self) -> nat {
        (self.secs as nat) * 1_000_000_000 + (self.nanos as nat)
    }

    /// The empty span.
    pub open spec fn spec_zero() -> Elapsed {
        Elapsed { secs: 0, nanos: 0 }
    }

    /// The empty span.
    pub fn zero() -> (r: Elapsed)
        ensures
            r.wf(),
            r == Elapsed::spec_zero(),
    {
        Elapsed { secs: 0, nanos: 0 }
    }

    /// A span of whole seconds.
    pub fn from_secs(secs: u64) -> (r: Elapsed)
        ensures
            r.wf(),
            r.secs == secs && r.nanos == 0,
    {
        Elapsed { secs, nanos: 0 }
    }

    /// A span from seconds and nanoseconds; surplus nanoseconds carry into
    /// the seconds, as `Duration::new` does (which panics when they overflow).
    pub fn new(secs: u64, nanos: u32) -> (r: Elapsed)
        requires
            secs as nat + (nanos / NANOS_PER_SEC) as nat <= u64::MAX,
        ensures
            r.wf(),
            r.total_nanos() == (secs as nat) * 1_000_000_000 + (nanos as nat),
    {
        let extra = (nanos / NANOS_PER_SEC) as u64;
        Elapsed { secs: secs + extra, nanos: nanos % NANOS_PER_SEC }
    }

    /// The whole seconds of the span.
    pub fn as_secs(&self) -> (r: u64)
        ensures
            r == self.secs,
    {
        self.secs
    }

    /// Whether `self + other` fits (the sum of `Duration`s panics otherwise).
    pub open spec fn can_add(self, other: Elapsed) -> bool {
        self.secs as nat + other.secs as nat + (if self.nanos as nat + other.nanos as nat
            >= 1_000_000_000 {
            1nat
        } else {
            0nat
        }) <= u64::MAX
    }

    /// The sum of two spans.
    pub fn add(&self, other: &Elapsed) -> (r: Elapsed)
        requires
            self.wf(),
            other.wf(),
            self.can_add(*other),
        ensures
            r.wf(),
            r.total_nanos() == self.total_nanos() + other.total_nanos(),
    {
        let n = self.nanos + other.nanos;
        if n >= NANOS_PER_SEC {
            Elapsed { secs: self.secs + other.secs + 1, nanos: n - NANOS_PER_SEC }
        } else {
            Elapsed { secs: self.secs + other.secs, nanos: n }
        }
    }
}

} // verus!
