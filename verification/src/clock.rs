//! Points in time as seconds and nanoseconds since the Unix epoch.
use vstd::prelude::*;

verus! {

#[verifier::external_type_specification]
#[verifier::external_body]
pub struct ExSystemTime(std::time::SystemTime);

/// A point in time: whole seconds since the Unix epoch and the nanoseconds
/// within the second.
#[derive(Debug, Clone, Copy, PartialEq, Eq, Structural)]
pub struct Timestamp {
    pub secs: u64,
    pub nanos: u32,
}

impl Timestamp {
    /// Well formed: the nanoseconds stay below one second.
    pub open spec fn wf(self) -> bool {
        self.nanos < 1_000_000_000
    }

    /// The time as a number of nanoseconds since the epoch.
    pub open spec fn total_nanos(self) -> int {
        self.secs * 1_000_000_000 + self.nanos
    }

    /// The Unix epoch itself.
    pub fn epoch() -> (res: Timestamp)
        ensures
            res.secs == 0,
            res.nanos == 0,
    {
        Timestamp { secs: 0, nanos: 0 }
    }

    /// Whether this time falls after the moment `window` seconds before
    /// `now` (a moment that may lie before the epoch).
    pub fn within_last(self, now: Timestamp, window: u64) -> (res: bool)
        requires
            self.wf(),
            now.wf(),
        ensures
            res == (self.total_nanos() > now.total_nanos() - window * 1_000_000_000),
    {
        if now.secs < window {
            return true;
        }
        let base = now.secs - window;
        self.secs > base || (self.secs == base && self.nanos > now.nanos)
    }

    /// The time `secs` whole seconds after the epoch.
    pub fn from_secs(secs: u64) -> (res: Timestamp)
        ensures
            res.secs == secs,
            res.nanos == 0,
    {
        Timestamp { secs, nanos: 0 }
    }
}

/// Reads the system clock (`SystemTime::now`); what it returns depends on
/// the moment of the call, so nothing is claimed of it.
#[verifier::external_body]
pub(crate) fn system_now() -> (res: std::time::SystemTime) {
    std::time::SystemTime::now()
}

/// The time elapsed from the epoch to `t` (`SystemTime::duration_since`),
/// or the epoch itself for a time before it. A `Duration` always keeps its
/// nanoseconds below one second.
#[verifier::external_body]
pub(crate) fn since_epoch(t: std::time::SystemTime) -> (res: Timestamp)
    ensures
        res.wf(),
{
    let d = t.duration_since(std::time::UNIX_EPOCH).unwrap_or_default();
    Timestamp { secs: d.as_secs(), nanos: d.subsec_nanos() }
}

/// The current time.
pub fn now() -> (res: Timestamp)
    ensures
        res.wf(),
{
    since_epoch(system_now())
}

} // verus!
