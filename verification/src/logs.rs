//! Structured log events for the worker's output streams.
//!
//! Two listeners — one per pipe — read the worker's stdout and stderr line by
//! line outside the library and hand every decoded line in here; a line that
//! fails to decode is handed in as `None` and silently skipped.  Each decoded
//! line becomes exactly one event, in the order read, and the stderr listener
//! marks its events as errors.

use vstd::prelude::*;

verus! {

/// The severity a listener assigns to a line.
#[derive(Clone, Copy, Debug, PartialEq, Eq, Structural)]
pub enum LogLevel {
    Info,
    Error,
}

/// One line of worker output turned into a structured event.  The timestamp
/// is the wall-clock text the listener read when it decoded the line.
#[derive(Clone, Debug, PartialEq, Eq)]
pub struct LogEntry {
    pub level: LogLevel,
    pub message: String,
    pub timestamp: String,
}

/// The level a listener assigns: `Error` on the stderr stream, `Info` on
/// stdout.
pub open spec fn spec_stream_level(from_stderr: bool) -> LogLevel {
    if from_stderr {
        LogLevel::Error
    } else {
        LogLevel::Info
    }
}

impl LogLevel {
    /// The lower-case label of the level.
    pub fn label(&self) -> (r: String)
        ensures
            *self == LogLevel::Info ==> r@ == "info"@,
            *self == LogLevel::Error ==> r@ == "error"@,
    {
        match self {
            LogLevel::Info => String::from_str("info"),
            LogLevel::Error => String::from_str("error"),
        }
    }
}

/// The event a listener forwards for one decoded line.
pub fn log_event(line: String, from_stderr: bool, timestamp: String) -> (r: LogEntry)
    ensures
        r.level == spec_stream_level(from_stderr),
        r.message == line,
        r.timestamp == timestamp,
{
    LogEntry { level: spec_stream_level_exec(from_stderr), message: line, timestamp }
}

/// The level a listener assigns, as `spec_stream_level` says.
fn spec_stream_level_exec(from_stderr: bool) -> (r: LogLevel)
    ensures
        r == spec_stream_level(from_stderr),
{
    if from_stderr {
        LogLevel::Error
    } else {
        LogLevel::Info
    }
}

/// The message/timestamp pairs that survive decoding: one pair per decoded
/// line, in reading order; lines that failed to decode leave no trace.
pub open spec fn spec_kept_lines(lines: Seq<Option<String>>, timestamps: Seq<String>) -> Seq<
    (String, String),
>
    decreases lines.len(),
{
    if lines.len() == 0 {
        Seq::empty()
    } else {
        let rest = spec_kept_lines(lines.drop_last(), timestamps.drop_last());
        match lines.last() {
            Some(l) => rest.push((l, timestamps.last())),
            None => rest,
        }
    }
}

/// Turns everything one listener read into events: one event per decoded
/// line, in the order read, each carrying the level of the stream and the
/// timestamp read alongside the line.  Lines that failed to decode are
/// skipped and abort nothing.
pub fn events_from_lines(lines: Vec<Option<String>>, from_stderr: bool, timestamps: Vec<String>)
    -> (r: Vec<LogEntry>)
    requires
        lines@.len() == timestamps@.len(),
    ensures
        r@.len() == spec_kept_lines(lines@, timestamps@).len(),
        forall|j: int|
            0 <= j < r@.len() ==> {
                &&& r@[j].level == spec_stream_level(from_stderr)
                &&& r@[j].message == spec_kept_lines(lines@, timestamps@)[j].0
                &&& r@[j].timestamp == spec_kept_lines(lines@, timestamps@)[j].1
            },
{
    let mut r: Vec<LogEntry> = Vec::new();
    let n = lines.len();
    let mut i: usize = 0;
    while i < n
        invariant
            n == lines@.len() == timestamps@.len(),
            i <= n,
            r@.len() == spec_kept_lines(lines@.take(i as int), timestamps@.take(i as int)).len(),
            forall|j: int|
                0 <= j < r@.len() ==> {
                    &&& r@[j].level == spec_stream_level(from_stderr)
                    &&& r@[j].message == spec_kept_lines(
                        lines@.take(i as int),
                        timestamps@.take(i as int),
                    )[j].0
                    &&& r@[j].timestamp == spec_kept_lines(
                        lines@.take(i as int),
                        timestamps@.take(i as int),
                    )[j].1
                },
        decreases n - i,
    {
        proof {
            assert(lines@.take(i + 1).drop_last() =~= lines@.take(i as int));
            assert(timestamps@.take(i + 1).drop_last() =~= timestamps@.take(i as int));
            assert(lines@.take(i + 1).last() == lines@[i as int]);
            assert(timestamps@.take(i + 1).last() == timestamps@[i as int]);
        }
        match &lines[i] {
            Some(l) => {
                let entry = log_event(l.clone(), from_stderr, timestamps[i].clone());
                r.push(entry);
            },
            None => {},
        }
        i = i + 1;
    }
    proof {
        assert(lines@.take(n as int) =~= lines@);
        assert(timestamps@.take(n as int) =~= timestamps@);
    }
    r
}

/// When every line decodes, nothing is lost: there are exactly as many kept
/// pairs as lines, and the pair at each position is that line with its
/// timestamp — the order written is the order kept.
pub proof fn lemma_all_decoded_lines_kept(lines: Seq<Option<String>>, timestamps: Seq<String>)
    requires
        lines.len() == timestamps.len(),
        forall|i: int| 0 <= i < lines.len() ==> lines[i] is Some,
    ensures
        spec_kept_lines(lines, timestamps).len() == lines.len(),
        forall|i: int|
            0 <= i < lines.len() ==> spec_kept_lines(lines, timestamps)[i] == (
                lines[i]->0,
                timestamps[i],
            ),
    decreases lines.len(),
{
    if lines.len() > 0 {
        lemma_all_decoded_lines_kept(lines.drop_last(), timestamps.drop_last());
    }
}

} // verus!
