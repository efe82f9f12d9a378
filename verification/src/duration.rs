use vstd::prelude::*;

verus! {

/// Nanoseconds in one second.
pub const NANOS_PER_SEC: u32 = 1_000_000_000;

/// A span of time: whole seconds plus a sub-second count of nanoseconds.
#[derive(Clone, Copy, Debug, PartialEq, Eq, Structural)]
pub struct Duration {
    secs: u64,
    nanos: u32,
}

impl View for Duration {
    type V = int;

    /// The span in nanoseconds.
    closed spec fn view(&self) -> int {
        self.secs as int * NANOS_PER_SEC as int + self.nanos as int
    }
}

impl Duration {
    #[verifier::type_invariant]
    closed spec fn inv(self) -> bool {
        self.nanos < NANOS_PER_SEC
    }

    /// The empty span.
    pub fn zero() -> (d: Duration)
        ensures
            d@ == 0,
    {
        Duration { secs: 0, nanos: 0 }
    }

    /// A span of `secs` seconds and `nanos` nanoseconds.
    pub fn new(secs: u64, nanos: u32) -> (d: Duration)
        requires
            nanos < NANOS_PER_SEC,
        ensures
            d@ == secs as int * NANOS_PER_SEC as int + nanos as int,
    {
        Duration { secs, nanos }
    }

    /// Whole seconds of the span.
    pub fn as_secs(&self) -> (r: u64)
        ensures
            r as int == self@ / NANOS_PER_SEC as int,
    {
        proof { use_type_invariant(self); }
        assert(self@ / NANOS_PER_SEC as int == self.secs as int) by (nonlinear_arith)
            requires self.nanos < NANOS_PER_SEC, self@ == self.secs as int * NANOS_PER_SEC as int + self.nanos as int;
        self.secs
    }

    /// Nanoseconds of the span beyond its whole seconds.
    pub fn subsec_nanos(&self) -> (r: u32)
        ensures
            r as int == self@ % NANOS_PER_SEC as int,
    {
        proof { use_type_invariant(self); }
        assert(self@ % NANOS_PER_SEC as int == self.nanos as int) by (nonlinear_arith)
            requires self.nanos < NANOS_PER_SEC, self@ == self.secs as int * NANOS_PER_SEC as int + self.nanos as int;
        self.nanos
    }

    pub fn from_secs(secs: u64) -> (d: Duration)
        ensures
            d@ == secs as int * NANOS_PER_SEC as int,
    {
        Duration { secs, nanos: 0 }
    }
}

/// Bounds a requeue delay to the interval from ten seconds to one hour.
pub fn clamp_retry(delay: Duration) -> (r: Duration)
    ensures
        r@ == if delay@ < 10 * NANOS_PER_SEC as int {
            10 * NANOS_PER_SEC as int
        } else if delay@ > 3600 * NANOS_PER_SEC as int {
            3600 * NANOS_PER_SEC as int
        } else {
            delay@
        },
{
    let low = Duration::from_secs(10);
    let high = Duration::from_secs(3600);
    proof { use_type_invariant(&delay); }
    if delay.secs < 10 {
        low
    } else if delay.secs > 3600 || (delay.secs == 3600 && delay.nanos > 0) {
        high
    } else {
        delay
    }
}

} // verus!
