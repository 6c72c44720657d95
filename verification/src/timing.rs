//! Elapsed durations and the fixed two-tier slow-query policy.

use vstd::prelude::*;

verus! {

/// Number of nanoseconds in one second.
pub const NANOS_PER_SEC: u32 = 1_000_000_000;

/// Whole seconds at or above which a query is warned about.
pub const WARN_THRESHOLD_SECS: u64 = 5;

/// Whole seconds at or above which a query is reported as slow.
pub const INFO_THRESHOLD_SECS: u64 = 1;

/// An elapsed wall-clock duration: whole seconds plus a sub-second remainder
/// in nanoseconds. A sample is captured around one timed call and discarded
/// after its record is built.
#[derive(Clone, Copy, PartialEq, Eq, Structural, Debug)]
pub struct DurationSample {
    pub secs: u64,
    pub nanos: u32,
}

impl DurationSample {
    /// A sample is well formed when its nanosecond remainder is below one second.
    pub open spec fn wf(self) -> bool {
        self.nanos < NANOS_PER_SEC
    }

    pub fn new(secs: u64, nanos: u32) -> (d: Self)
        requires
            nanos < NANOS_PER_SEC,
        ensures
            d.wf(),
            d.secs == secs,
            d.nanos == nanos,
    {
        DurationSample { secs, nanos }
    }
}

/// Severity of an emitted log record.
#[derive(Clone, Copy, PartialEq, Eq, Structural, Debug)]
pub enum LogLevel {
    Debug,
    Info,
    Warn,
}

/// The level assigned to an elapsed duration: warn from five whole seconds,
/// info from one whole second, debug below one second.
pub open spec fn level_of(d: DurationSample) -> LogLevel {
    if d.secs >= WARN_THRESHOLD_SECS {
        LogLevel::Warn
    } else if d.secs >= INFO_THRESHOLD_SECS {
        LogLevel::Info
    } else {
        LogLevel::Debug
    }
}

/// Classify an elapsed duration into its log level.
pub fn classify(d: &DurationSample) -> (level: LogLevel)
    ensures
        level == level_of(*d),
{
    if d.secs >= WARN_THRESHOLD_SECS {
        LogLevel::Warn
    } else if d.secs >= INFO_THRESHOLD_SECS {
        LogLevel::Info
    } else {
        LogLevel::Debug
    }
}

/// For every well-formed duration `d`: five seconds or more warns, at least
/// one but under five seconds informs, under one second is debug; the exact
/// boundary values 1.000 s and 5.000 s fall into the higher tier, never the
/// lower.
pub proof fn lemma_level_tiers(d: DurationSample)
    requires
        d.wf(),
    ensures
        d.secs >= 5 ==> level_of(d) == LogLevel::Warn,
        1 <= d.secs < 5 ==> level_of(d) == LogLevel::Info,
        d.secs == 0 ==> level_of(d) == LogLevel::Debug,
        d.secs == 5 && d.nanos == 0 ==> level_of(d) == LogLevel::Warn,
        d.secs == 1 && d.nanos == 0 ==> level_of(d) == LogLevel::Info,
{
}

} // verus!
