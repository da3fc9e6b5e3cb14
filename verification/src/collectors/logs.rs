use vstd::prelude::*;

use crate::clock::clock_failure_text;
use crate::error::AppError;
use crate::models::{file_source, LogLine};

verus! {

/// Seconds to wait before trying again to open a file that could not be opened.
pub const RETRY_SLEEP_SECS: u64 = 2;

/// Milliseconds to wait before looking again for new lines at the end of a file.
pub const POLL_INTERVAL_MS: u64 = 200;

/// Seconds between two wake-ups of the task that keeps the tailers alive.
pub const KEEPALIVE_SECS: u64 = 60;

/// Where a tailer stands with its file.
pub enum TailPhase {
    /// No file is open.
    Opening,
    /// The file is open; its read position is not yet at the end.
    Seeking,
    /// The file is open and read from where it ended when it was opened.
    Reading,
}

/// What happened when the last action was carried out.
pub enum TailEvent {
    Opened,
    OpenFailed(String),
    SeekedToEnd,
    SeekFailed,
    Line(String),
    NoNewData,
    ReadFailed,
}

/// What to do next.
pub enum TailAction {
    /// Open the file.
    Open,
    /// Report `warning`, wait `delay_secs` seconds, then open the file.
    RetryOpen { warning: AppError, delay_secs: u64 },
    /// Move the read position to the end of the file.
    SeekToEnd,
    /// Read the next line.
    ReadLine,
    /// Add `line` to the buffer (reporting a failure to do so), then read the next line.
    Record(LogLine),
    /// Report `warning` (a line could not be stamped), then read the next line.
    DropLine { warning: AppError },
    /// Wait `delay_ms` milliseconds, then read the next line.
    PollAgain { delay_ms: u64 },
}

/// Follows one log file like `tail -f`, starting at its end.
pub struct Tailer {
    pub path: String,
    pub phase: TailPhase,
}

/// The phase after `event` in `phase`; an event that does not fit the phase
/// changes nothing.
pub open spec fn next_phase(phase: TailPhase, event: TailEvent) -> TailPhase {
    match (phase, event) {
        (TailPhase::Opening, TailEvent::Opened) => TailPhase::Seeking,
        (TailPhase::Seeking, TailEvent::SeekedToEnd) => TailPhase::Reading,
        (TailPhase::Seeking, TailEvent::SeekFailed) => TailPhase::Opening,
        (TailPhase::Reading, TailEvent::ReadFailed) => TailPhase::Opening,
        (p, _) => p,
    }
}

/// The action that each phase waits on.
pub open spec fn resume(phase: TailPhase) -> TailAction {
    match phase {
        TailPhase::Opening => TailAction::Open,
        TailPhase::Seeking => TailAction::SeekToEnd,
        TailPhase::Reading => TailAction::ReadLine,
    }
}

/// The complaint about a file at `path` that could not be opened for `reason`.
pub open spec fn open_failure_text(path: Seq<char>, reason: Seq<char>) -> Seq<char> {
    "cannot open "@ + path + ": "@ + reason
}

/// The complaint about a line of the file at `path` that could not be
/// stamped because the clock reads before the epoch.
pub open spec fn unstamped_text(path: Seq<char>) -> Seq<char> {
    "cannot stamp a line of "@ + path + ": "@ + clock_failure_text()
}

/// `action` is what follows `event` in `phase` for the file at `path`.
pub open spec fn is_next_action(
    phase: TailPhase,
    path: Seq<char>,
    event: TailEvent,
    action: TailAction,
) -> bool {
    match (phase, event) {
        (TailPhase::Opening, TailEvent::Opened) => action is SeekToEnd,
        (TailPhase::Opening, TailEvent::OpenFailed(reason)) => action matches TailAction::RetryOpen {
            warning: AppError::LogWatchError(msg),
            delay_secs,
        } && msg@ == open_failure_text(path, reason@) && delay_secs == RETRY_SLEEP_SECS,
        (TailPhase::Seeking, TailEvent::SeekedToEnd) => action is ReadLine,
        (TailPhase::Seeking, TailEvent::SeekFailed) => action is Open,
        (TailPhase::Reading, TailEvent::Line(text)) => (action matches TailAction::Record(l)
            && l.source@ == file_source(path) && l.line == text && l.timestamp.is_clock_reading())
            || (action matches TailAction::DropLine { warning: AppError::LogWatchError(msg) }
            && msg@ == unstamped_text(path)),
        (TailPhase::Reading, TailEvent::NoNewData) => action matches TailAction::PollAgain {
            delay_ms,
        } && delay_ms == POLL_INTERVAL_MS,
        (TailPhase::Reading, TailEvent::ReadFailed) => action is Open,
        (p, _) => action == resume(p),
    }
}

impl Tailer {
    /// A tailer for the file at `path`, about to open it.
    pub fn new(path: String) -> (t: Tailer)
        ensures
            t.path == path,
            t.phase is Opening,
    {
        Tailer { path, phase: TailPhase::Opening }
    }

    /// The first thing to do: open the file.
    pub fn first_action(&self) -> (a: TailAction)
        ensures
            a == resume(self.phase),
    {
        match self.phase {
            TailPhase::Opening => TailAction::Open,
            TailPhase::Seeking => TailAction::SeekToEnd,
            TailPhase::Reading => TailAction::ReadLine,
        }
    }

    /// Takes in what happened and says what to do next: a file that cannot be
    /// opened is reported and tried again after a pause; an opened file is
    /// read from its end; every new line is recorded (or reported, when the
    /// clock cannot stamp it); at the end of the data
    /// the tailer waits and looks again; a failed seek or read reopens the file.
    pub fn step(&mut self, event: TailEvent) -> (a: TailAction)
        ensures
            final(self).path == old(self).path,
            final(self).phase == next_phase(old(self).phase, event),
            is_next_action(old(self).phase, old(self).path@, event, a),
    {
        match (&self.phase, event) {
            (TailPhase::Opening, TailEvent::Opened) => {
                self.phase = TailPhase::Seeking;
                TailAction::SeekToEnd
            },
            (TailPhase::Opening, TailEvent::OpenFailed(reason)) => {
                let mut msg = String::from_str("cannot open ");
                msg.append(self.path.as_str());
                msg.append(": ");
                msg.append(reason.as_str());
                TailAction::RetryOpen {
                    warning: AppError::LogWatchError(msg),
                    delay_secs: RETRY_SLEEP_SECS,
                }
            },
            (TailPhase::Seeking, TailEvent::SeekedToEnd) => {
                self.phase = TailPhase::Reading;
                TailAction::ReadLine
            },
            (TailPhase::Seeking, TailEvent::SeekFailed) => {
                self.phase = TailPhase::Opening;
                TailAction::Open
            },
            (TailPhase::Reading, TailEvent::Line(text)) => {
                match LogLine::from_file(self.path.as_str(), text) {
                    Some(l) => TailAction::Record(l),
                    None => {
                        let mut msg = String::from_str("cannot stamp a line of ");
                        msg.append(self.path.as_str());
                        msg.append(": ");
                        msg.append("system clock reads before the Unix epoch");
                        TailAction::DropLine { warning: AppError::LogWatchError(msg) }
                    },
                }
            },
            (TailPhase::Reading, TailEvent::NoNewData) => {
                TailAction::PollAgain { delay_ms: POLL_INTERVAL_MS }
            },
            (TailPhase::Reading, TailEvent::ReadFailed) => {
                self.phase = TailPhase::Opening;
                TailAction::Open
            },
            (TailPhase::Opening, _) => TailAction::Open,
            (TailPhase::Seeking, _) => TailAction::SeekToEnd,
            (TailPhase::Reading, _) => TailAction::ReadLine,
        }
    }
}

/// The phases a tailer goes through as `events` happen, from `phase`.
pub open spec fn phase_after(phase: TailPhase, events: Seq<TailEvent>) -> TailPhase
    decreases events.len(),
{
    if events.len() == 0 {
        phase
    } else {
        next_phase(phase_after(phase, events.drop_last()), events.last())
    }
}

/// The number of successful seeks to the end among `events`.
pub open spec fn seeks_to_end(events: Seq<TailEvent>) -> nat
    decreases events.len(),
{
    if events.len() == 0 {
        0
    } else {
        seeks_to_end(events.drop_last()) + if events.last() is SeekedToEnd { 1nat } else { 0nat }
    }
}

/// No historical replay: a tailer that starts without an open file reads
/// lines only after it has moved to the end of the file, so the only way
/// into the reading phase is a successful seek to the end.
pub proof fn lemma_reads_start_at_end(events: Seq<TailEvent>)
    ensures
        phase_after(TailPhase::Opening, events) is Reading ==> seeks_to_end(events) > 0,
    decreases events.len(),
{
    if events.len() > 0 {
        lemma_reads_start_at_end(events.drop_last());
    }
}

/// Once reading, a tailer keeps its file: whatever happens, it stays in the
/// reading phase, and only a failed read sends it back to opening the file.
/// Every line read in that phase is recorded with source `file:<path>`
/// (or, when the clock cannot stamp it, reported), and the end of the data
/// only makes it wait 200 milliseconds before reading on.
pub proof fn lemma_reading_keeps_the_file(path: Seq<char>, event: TailEvent, action: TailAction)
    requires
        is_next_action(TailPhase::Reading, path, event, action),
    ensures
        event is ReadFailed ==> next_phase(TailPhase::Reading, event) is Opening && action is Open,
        !(event is ReadFailed) ==> next_phase(TailPhase::Reading, event) is Reading,
        event is NoNewData ==> (action matches TailAction::PollAgain { delay_ms } && delay_ms
            == 200),
        event matches TailEvent::Line(text) ==> ((action matches TailAction::Record(l)
            && l.source@ == "file:"@ + path && l.line == text) || action is DropLine),
{
}

/// The reading phase lasts through any run of events without a failed read.
pub proof fn lemma_reading_lasts_until_read_failure(events: Seq<TailEvent>)
    requires
        forall|i: int| 0 <= i < events.len() ==> !(#[trigger] events[i] is ReadFailed),
    ensures
        phase_after(TailPhase::Reading, events) is Reading,
    decreases events.len(),
{
    if events.len() > 0 {
        let before = events.drop_last();
        assert forall|i: int| 0 <= i < before.len() implies !(#[trigger] before[i] is ReadFailed) by {
            assert(before[i] == events[i]);
        }
        lemma_reading_lasts_until_read_failure(before);
        assert(!(events[events.len() - 1] is ReadFailed));
    }
}

/// A file that cannot be opened is never given up on: the tailer stays
/// without a file, reports the failure and tries again after two seconds.
pub proof fn lemma_open_failure_retries(path: Seq<char>, reason: String, action: TailAction)
    requires
        is_next_action(TailPhase::Opening, path, TailEvent::OpenFailed(reason), action),
    ensures
        next_phase(TailPhase::Opening, TailEvent::OpenFailed(reason)) is Opening,
        action matches TailAction::RetryOpen { delay_secs, .. } && delay_secs == 2,
{
}

} // verus!
