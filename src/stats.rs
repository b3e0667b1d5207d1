use vstd::prelude::*;

verus! {

/// Nanoseconds in one millisecond.
pub const NANOS_PER_MILLI: u32 = 1_000_000;

/// Nanoseconds in one second.
pub const NANOS_PER_SEC: u32 = 1_000_000_000;

/// Milliseconds waited when the coordinator's reply names no wait.
pub const DEFAULT_WAIT_MILLIS: u32 = 100;

/// A span of time, kept as whole seconds and the nanoseconds beyond them.
#[derive(Clone, Copy, Debug, PartialEq, Eq, Structural)]
pub struct WaitTime {
    pub secs: u64,
    pub nanos: u32,
}

impl WaitTime {
    /// A span is well formed when its nanoseconds stay under one second.
    pub open spec fn wf(self) -> bool {
        self.nanos < NANOS_PER_SEC
    }

    /// The span in nanoseconds.
    pub open spec fn total_nanos(self) -> int {
        self.secs * NANOS_PER_SEC + self.nanos
    }

    /// The empty span.
    pub fn zero() -> (r: WaitTime)
        ensures
            r.wf(),
            r.total_nanos() == 0,
            r == (WaitTime { secs: 0, nanos: 0 }),
    {
        WaitTime { secs: 0, nanos: 0 }
    }

    /// A span of `ms` milliseconds.
    pub fn from_millis(ms: u64) -> (r: WaitTime)
        ensures
            r.wf(),
            r.total_nanos() == ms * 1_000_000,
    {
        let secs = ms / 1000;
        let rest = (ms % 1000) as u32;
        let nanos = rest * NANOS_PER_MILLI;
        WaitTime { secs, nanos }
    }

    /// Whether the span is empty.
    pub fn is_zero(&self) -> (r: bool)
        ensures
            r == (self.secs == 0 && self.nanos == 0),
    {
        self.secs == 0 && self.nanos == 0
    }
}

/// The span waited when the coordinator's reply leaves the wait out.
pub open spec fn spec_default_wait() -> WaitTime {
    WaitTime { secs: 0, nanos: (DEFAULT_WAIT_MILLIS * NANOS_PER_MILLI) as u32 }
}

/// The wait named by a reply, or the default short wait where it names none.
pub fn wait_or_default(wait: Option<WaitTime>) -> (r: WaitTime)
    ensures
        r == (match wait {
            Some(w) => w,
            None => spec_default_wait(),
        }),
{
    match wait {
        Some(w) => w,
        None => WaitTime { secs: 0, nanos: DEFAULT_WAIT_MILLIS * NANOS_PER_MILLI },
    }
}

/// The coordinator's verdict on one request.
#[derive(Clone, Copy, Debug, PartialEq, Eq, Structural)]
pub struct BouncerStats {
    pub allowed: bool,
    pub old: u64,
    pub current: u64,
    pub since: u64,
    pub wait: WaitTime,
}

impl BouncerStats {
    /// The zero verdict, with no allow flag and every counter and the wait at zero.
    pub open spec fn spec_zero() -> BouncerStats {
        BouncerStats {
            allowed: false,
            old: 0,
            current: 0,
            since: 0,
            wait: WaitTime { secs: 0, nanos: 0 },
        }
    }

    /// Whether every counter and the wait are zero.
    pub open spec fn spec_all_zero(self) -> bool {
        self.old == 0 && self.current == 0 && self.since == 0 && self.wait.secs == 0
            && self.wait.nanos == 0
    }

    /// A verdict lets the caller through when it says so, or when it carries
    /// no pending obligation at all (every counter and the wait at zero).
    pub open spec fn spec_is_allowed(self) -> bool {
        self.allowed || self.spec_all_zero()
    }

    /// The zero verdict.
    pub fn zero() -> (r: BouncerStats)
        ensures
            r == BouncerStats::spec_zero(),
    {
        BouncerStats { allowed: false, old: 0, current: 0, since: 0, wait: WaitTime::zero() }
    }

    /// Whether the verdict lets the caller through.
    pub fn is_allowed(&self) -> (r: bool)
        ensures
            r == self.spec_is_allowed(),
    {
        self.allowed || (self.old == 0 && self.current == 0 && self.since == 0
            && self.wait.is_zero())
    }
}

impl Default for BouncerStats {
    fn default() -> (r: BouncerStats)
        ensures
            r == BouncerStats::spec_zero(),
    {
        BouncerStats::zero()
    }
}

/// A verdict with the allow flag set lets the caller through, whatever its
/// counters and wait hold.
pub proof fn lemma_allowed_flag_admits(s: BouncerStats)
    requires
        s.allowed,
    ensures
        s.spec_is_allowed(),
{
}

/// A verdict without the allow flag whose counters and wait are all zero lets
/// the caller through.
pub proof fn lemma_all_zero_admits(s: BouncerStats)
    requires
        !s.allowed,
        s.old == 0,
        s.current == 0,
        s.since == 0,
        s.wait.total_nanos() == 0,
    ensures
        s.spec_is_allowed(),
{
}

/// A verdict without the allow flag that holds a non-zero counter or a
/// non-zero wait keeps the caller waiting.
pub proof fn lemma_pending_refuses(s: BouncerStats)
    requires
        !s.allowed,
        s.old != 0 || s.current != 0 || s.since != 0 || s.wait.total_nanos() != 0,
    ensures
        !s.spec_is_allowed(),
{
}

} // verus!
