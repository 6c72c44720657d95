//! Building the one log record that a timed query emits.

use vstd::prelude::*;
use vstd::string::StringExecFns;
use crate::render::{format_millis_tenths, format_secs_hundredths, millis_rendering,
    seconds_rendering};
use crate::timing::{classify, level_of, DurationSample, LogLevel};

verus! {

/// One leveled log record: the level chosen by the slow-query policy and the
/// full message text handed to the logging sink.
pub struct LogRecord {
    pub level: LogLevel,
    pub message: String,
}

/// The full message text of the record emitted for a query rendered as
/// `query` that took `d`: queries of a second or more use the slow-query
/// template with seconds, faster ones the debug template with milliseconds.
pub open spec fn message_of(query: Seq<char>, d: DurationSample) -> Seq<char> {
    if level_of(d) == LogLevel::Debug {
        "QUERY: ["@ + millis_rendering(d.nanos as nat) + "ms]: "@ + query
    } else {
        "SLOW QUERY ["@ + seconds_rendering(d.secs as nat, d.nanos as nat) + " s]: "@ + query
    }
}

/// Build the single record for one timed query: the level follows the fixed
/// thresholds and the message follows the matching template, with the
/// rendered query text embedded verbatim.
pub fn log_query(query: &str, d: &DurationSample) -> (r: LogRecord)
    requires
        d.wf(),
        d.secs < u64::MAX,
    ensures
        r.level == level_of(*d),
        r.message@ == message_of(query@, *d),
{
    let level = classify(d);
    let mut message: String;
    match level {
        LogLevel::Debug => {
            message = "QUERY: [".to_owned();
            message.append(format_millis_tenths(d.nanos).as_str());
            message.append("ms]: ");
            message.append(query);
        },
        _ => {
            message = "SLOW QUERY [".to_owned();
            message.append(format_secs_hundredths(d).as_str());
            message.append(" s]: ");
            message.append(query);
        },
    }
    proof {
        assert(message@ =~= message_of(query@, *d));
    }
    LogRecord { level, message }
}

/// Deferred step of a timed operation, run when the delegated call has
/// returned: build the one record for the call and hand the operation's
/// outcome back to the caller unchanged, whatever it was.
pub fn observe_completion<T>(query: &str, d: &DurationSample, outcome: T) -> (r: (LogRecord, T))
    requires
        d.wf(),
        d.secs < u64::MAX,
    ensures
        r.0.level == level_of(*d),
        r.0.message@ == message_of(query@, *d),
        r.1 == outcome,
{
    let record = log_query(query, d);
    (record, outcome)
}

} // verus!
