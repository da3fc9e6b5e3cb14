use vstd::prelude::*;

verus! {

/// A point in time, as whole seconds since the Unix epoch and the
/// nanoseconds past that second.
#[derive(Clone, Copy, Debug, PartialEq, Eq)]
pub struct Timestamp {
    pub secs: i64,
    pub nanos: u32,
}

// ─── Config ───────────────────────────────────────────────────────────────────

/// The whole configuration file.
#[derive(Clone, Debug)]
pub struct Config {
    pub agent: AgentConfig,
    pub logs: LogsConfig,
    pub metrics: MetricsConfig,
    pub shipper: ShipperConfig,
}

/// The `[agent]` section.
#[derive(Clone, Debug)]
pub struct AgentConfig {
    pub id: String,
}

/// The `[logs]` section: the files to tail.
#[derive(Clone, Debug)]
pub struct LogsConfig {
    pub paths: Vec<String>,
}

/// The `[metrics]` section.
#[derive(Clone, Debug)]
pub struct MetricsConfig {
    pub collect_interval_seconds: u64,
}

/// The `[shipper]` section: where to POST, how often, and the optional key
/// sent as a bearer token.
#[derive(Clone, Debug)]
pub struct ShipperConfig {
    pub endpoint: String,
    pub ship_interval_seconds: u64,
    pub api_key: Option<String>,
}

// ─── Log ──────────────────────────────────────────────────────────────────────

/// One captured log line.
#[derive(Clone, Debug)]
pub struct LogLine {
    pub source: String,
    pub line: String,
    pub timestamp: Timestamp,
}

impl Timestamp {
    /// A time as the clock gives it: not before the epoch, and with fewer
    /// than a billion nanoseconds past the second.
    pub open spec fn is_clock_reading(self) -> bool {
        self.secs >= 0 && self.nanos < 1_000_000_000
    }
}

/// The `source` of a line read from the file at `path`.
pub open spec fn file_source(path: Seq<char>) -> Seq<char> {
    "file:"@ + path
}

impl LogLine {
    /// The line `line` of the file at `path`, captured at `timestamp`.
    pub fn captured_at(path: &str, line: String, timestamp: Timestamp) -> (l: LogLine)
        ensures
            l.source@ == file_source(path@),
            l.line == line,
            l.timestamp == timestamp,
    {
        let mut source = String::from_str("file:");
        source.append(path);
        LogLine { source, line, timestamp }
    }

    /// The line `line` of the file at `path`, stamped with the current time;
    /// none when the system clock reads before the Unix epoch.
    pub fn from_file(path: &str, line: String) -> (l: Option<LogLine>)
        ensures
            l matches Some(l) ==> {
                &&& l.source@ == file_source(path@)
                &&& l.line == line
                &&& l.timestamp.is_clock_reading()
            },
    {
        match crate::clock::now() {
            Some(t) => Some(LogLine::captured_at(path, line, t)),
            None => None,
        }
    }
}

// ─── Metrics ──────────────────────────────────────────────────────────────────

/// One sample of the machine's metrics. The CPU usage is kept as the bit
/// pattern of the `f32` percentage that the system reported, and disk space
/// in bytes; the JSON payload shows them as floating-point numbers.
#[derive(Clone, Copy, Debug, PartialEq, Eq)]
pub struct MetricsSnapshot {
    pub cpu_usage_percent_bits: u32,
    pub memory_used_mb: u64,
    pub memory_total_mb: u64,
    pub disk_used_bytes: u64,
    pub disk_total_bytes: u64,
    pub net_bytes_sent: u64,
    pub net_bytes_received: u64,
    pub collected_at: Timestamp,
}

// ─── Buffer ───────────────────────────────────────────────────────────────────

/// What the collectors have gathered since the last drain.
#[derive(Debug)]
pub struct BufferInner {
    pub logs: Vec<LogLine>,
    pub metrics: Option<MetricsSnapshot>,
}

/// The abstract content of a buffer: the pending lines, oldest first, and
/// the latest snapshot.
pub struct BufferView {
    pub logs: Seq<LogLine>,
    pub metrics: Option<MetricsSnapshot>,
}

impl View for BufferInner {
    type V = BufferView;

    open spec fn view(&self) -> BufferView {
        BufferView { logs: self.logs@, metrics: self.metrics }
    }
}

impl Default for BufferInner {
    fn default() -> (b: BufferInner)
        ensures
            b@.logs.len() == 0,
            b@.metrics is None,
    {
        BufferInner { logs: Vec::new(), metrics: None }
    }
}

// ─── Payload ──────────────────────────────────────────────────────────────────

/// The body of one shipment.
#[derive(Debug)]
pub struct Payload {
    pub agent_id: String,
    pub timestamp: Timestamp,
    pub metrics: Option<MetricsSnapshot>,
    pub logs: Vec<LogLine>,
}

} // verus!
