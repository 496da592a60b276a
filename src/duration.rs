use vstd::prelude::*;

verus! {

pub const NANOS_PER_SEC: u32 = 1_000_000_000;

/// A non-negative span of time: whole seconds and the nanoseconds beyond them.
#[derive(Clone, Copy, Debug, PartialEq, Eq, Structural)]
pub struct Duration {
    pub seconds: u64,
    pub nanos: u32,
}

impl Duration {
    /// The nanoseconds stay below one second.
    pub open spec fn wf(self) -> bool {
        self.nanos < NANOS_PER_SEC
    }

    /// The whole span, in nanoseconds.
    pub open spec fn total_nanos(self) -> int {
        self.seconds * 1_000_000_000 + self.nanos
    }

    pub fn from_secs(seconds: u64) -> (r: Duration)
        ensures
            r.wf(),
            r.seconds == seconds,
            r.nanos == 0,
            r.total_nanos() == seconds * 1_000_000_000,
    {
        Duration { seconds, nanos: 0 }
    }

    /// The duration of `seconds` plus `nanos` nanoseconds, whole seconds among
    /// the nanoseconds carried into `seconds`; `None` where the seconds overflow.
    pub fn new(seconds: u64, nanos: u32) -> (r: Option<Duration>)
        ensures
            r is Some <==> seconds + nanos / 1_000_000_000 <= u64::MAX,
            r matches Some(d) ==> d.wf() && d.total_nanos() == seconds * 1_000_000_000 + nanos,
    {
        let carry: u32 = nanos / NANOS_PER_SEC;
        if seconds > u64::MAX - carry as u64 {
            None
        } else {
            Some(Duration { seconds: seconds + carry as u64, nanos: nanos % NANOS_PER_SEC })
        }
    }

    /// The span scaled by `num / den`, rounded down to the nanosecond.
    pub fn mul_div(&self, num: u32, den: u32) -> (r: Duration)
        requires
            self.wf(),
            0 < num <= den,
        ensures
            r.wf(),
            r.total_nanos() == self.total_nanos() * num / den as int,
    {
        let total: u128 = self.seconds as u128 * NANOS_PER_SEC as u128 + self.nanos as u128;
        assert(total <= u64::MAX as u128 * 1_000_000_000 + 1_000_000_000) by (nonlinear_arith)
            requires
                total == self.seconds as u128 * 1_000_000_000 + self.nanos as u128,
                self.nanos < 1_000_000_000,
        ;
        assert(total * (num as u128) <= total * 0x1_0000_0000) by (nonlinear_arith)
            requires
                num <= 0xffff_ffff,
        ;
        let scaled: u128 = total * num as u128 / den as u128;
        assert(scaled <= total) by (nonlinear_arith)
            requires
                scaled == total * num / den as int,
                0 < num <= den,
        ;
        let secs: u128 = scaled / NANOS_PER_SEC as u128;
        let nanos: u128 = scaled % NANOS_PER_SEC as u128;
        assert(secs <= self.seconds) by (nonlinear_arith)
            requires
                secs == scaled / 1_000_000_000,
                scaled <= total,
                total == self.seconds * 1_000_000_000 + self.nanos,
                self.nanos < 1_000_000_000,
        ;
        let r = Duration { seconds: secs as u64, nanos: nanos as u32 };
        assert(r.total_nanos() == scaled) by (nonlinear_arith)
            requires
                secs == scaled / 1_000_000_000,
                nanos == scaled % 1_000_000_000,
                r.seconds == secs,
                r.nanos == nanos,
        ;
        r
    }
}

} // verus!
