use vstd::prelude::*;

verus! {

/// Nanoseconds in one second.
pub const NANOS_PER_SEC: u32 = 1_000_000_000;

/// A span of time held as whole seconds and the nanoseconds beyond them,
/// the plain-value form of a standard duration.
#[derive(Clone, Copy, Debug, PartialEq, Eq)]
pub struct TimeSpan {
    secs: u64,
    nanos: u32,
}

impl TimeSpan {
    #[verifier::type_invariant]
    spec fn inv(self) -> bool {
        self.nanos < NANOS_PER_SEC
    }

    /// Whole seconds of the span.
    pub closed spec fn spec_secs(self) -> u64 {
        self.secs
    }

    /// Nanoseconds beyond the whole seconds.
    pub closed spec fn spec_subsec_nanos(self) -> u32 {
        self.nanos
    }

    /// The whole span in nanoseconds.
    pub open spec fn total_nanos(self) -> int {
        self.spec_secs() * NANOS_PER_SEC + self.spec_subsec_nanos()
    }

    /// The span of `secs` seconds and `nanos` nanoseconds, carrying whole
    /// seconds out of `nanos`.
    pub fn new(secs: u64, nanos: u32) -> (r: TimeSpan)
        requires
            secs + (nanos / NANOS_PER_SEC) as int <= u64::MAX,
        ensures
            r.spec_secs() == secs + nanos / NANOS_PER_SEC,
            r.spec_subsec_nanos() == nanos % NANOS_PER_SEC,
            r.total_nanos() == secs * NANOS_PER_SEC + nanos,
    {
        let carry: u64 = (nanos / NANOS_PER_SEC) as u64;
        let rest: u32 = nanos % NANOS_PER_SEC;
        assert(nanos == carry * NANOS_PER_SEC + rest);
        TimeSpan { secs: secs + carry, nanos: rest }
    }

    /// The span of `secs` whole seconds.
    pub fn from_secs(secs: u64) -> (r: TimeSpan)
        ensures
            r.spec_secs() == secs,
            r.spec_subsec_nanos() == 0,
            r.total_nanos() == secs * NANOS_PER_SEC,
    {
        TimeSpan { secs, nanos: 0 }
    }

    /// The span of `millis` milliseconds.
    pub fn from_millis(millis: u64) -> (r: TimeSpan)
        ensures
            r.spec_secs() == millis / 1000,
            r.spec_subsec_nanos() == (millis % 1000) * 1_000_000,
            r.total_nanos() == millis * 1_000_000,
    {
        let secs: u64 = millis / 1000;
        let rest: u64 = millis % 1000;
        assert(rest * 1_000_000 < NANOS_PER_SEC) by (nonlinear_arith)
            requires rest < 1000;
        let nanos: u32 = (rest * 1_000_000) as u32;
        assert(secs * NANOS_PER_SEC + nanos == millis * 1_000_000) by (nonlinear_arith)
            requires
                millis == secs * 1000 + rest,
                nanos == rest * 1_000_000,
        ;
        TimeSpan { secs, nanos }
    }

    pub fn as_secs(&self) -> (r: u64)
        ensures
            r == self.spec_secs(),
    {
        self.secs
    }

    pub fn subsec_nanos(&self) -> (r: u32)
        ensures
            r == self.spec_subsec_nanos(),
            r < NANOS_PER_SEC,
    {
        proof {
            use_type_invariant(self);
        }
        self.nanos
    }

    /// The whole span in nanoseconds; it always fits, since the seconds are
    /// below 2^64.
    pub fn as_nanos(&self) -> (r: u128)
        ensures
            r == self.total_nanos(),
    {
        proof {
            use_type_invariant(self);
        }
        let secs = self.secs as u128;
        assert(secs * NANOS_PER_SEC <= u64::MAX * NANOS_PER_SEC) by (nonlinear_arith)
            requires secs <= u64::MAX;
        secs * (NANOS_PER_SEC as u128) + (self.nanos as u128)
    }
}

} // verus!
