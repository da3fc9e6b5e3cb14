use vstd::prelude::*;

use crate::models::{BufferInner, BufferView, LogLine, MetricsSnapshot};

verus! {

impl BufferView {
    /// The empty buffer.
    pub open spec fn empty() -> BufferView {
        BufferView { logs: Seq::empty(), metrics: None }
    }

    /// The buffer after one more line arrived.
    pub open spec fn with_log(self, line: LogLine) -> BufferView {
        BufferView { logs: self.logs.push(line), metrics: self.metrics }
    }

    /// The buffer after a new snapshot replaced the previous one.
    pub open spec fn with_metrics(self, snapshot: MetricsSnapshot) -> BufferView {
        BufferView { logs: self.logs, metrics: Some(snapshot) }
    }

    /// Nothing is pending.
    pub open spec fn is_empty(self) -> bool {
        self.logs.len() == 0 && self.metrics is None
    }
}

/// Appends a captured line to the pending batch.
pub fn push_log(buffer: &mut BufferInner, line: LogLine)
    ensures
        final(buffer)@ == old(buffer)@.with_log(line),
{
    buffer.logs.push(line);
}

/// Replaces the pending snapshot; only the latest one is kept.
pub fn set_metrics(buffer: &mut BufferInner, snapshot: MetricsSnapshot)
    ensures
        final(buffer)@ == old(buffer)@.with_metrics(snapshot),
{
    buffer.metrics = Some(snapshot);
}

/// Takes everything that is pending and leaves the buffer empty.
pub fn drain(buffer: &mut BufferInner) -> (batch: (Vec<LogLine>, Option<MetricsSnapshot>))
    ensures
        batch.0@ == old(buffer)@.logs,
        batch.1 == old(buffer)@.metrics,
        final(buffer)@ == BufferView::empty(),
{
    let mut logs: Vec<LogLine> = Vec::new();
    std::mem::swap(&mut logs, &mut buffer.logs);
    let metrics = buffer.metrics.take();
    (logs, metrics)
}

/// Whether there are neither pending lines nor a pending snapshot.
pub fn is_empty(buffer: &BufferInner) -> (empty: bool)
    ensures
        empty == buffer@.is_empty(),
{
    buffer.logs.len() == 0 && buffer.metrics.is_none()
}

/// One thing a collector hands to the buffer.
pub enum Collected {
    Line(LogLine),
    Snapshot(MetricsSnapshot),
}

/// The buffer after the collectors handed it `events`, in that order.
pub open spec fn after_all(b: BufferView, events: Seq<Collected>) -> BufferView
    decreases events.len(),
{
    if events.len() == 0 {
        b
    } else {
        let before = after_all(b, events.drop_last());
        match events.last() {
            Collected::Line(line) => before.with_log(line),
            Collected::Snapshot(snapshot) => before.with_metrics(snapshot),
        }
    }
}

/// The lines among `events`, in the order they came.
pub open spec fn lines_of(events: Seq<Collected>) -> Seq<LogLine>
    decreases events.len(),
{
    if events.len() == 0 {
        Seq::empty()
    } else {
        match events.last() {
            Collected::Line(line) => lines_of(events.drop_last()).push(line),
            Collected::Snapshot(_) => lines_of(events.drop_last()),
        }
    }
}

/// The last snapshot among `events`, if there is one.
pub open spec fn latest_snapshot(events: Seq<Collected>) -> Option<MetricsSnapshot>
    decreases events.len(),
{
    if events.len() == 0 {
        None
    } else {
        match events.last() {
            Collected::Line(_) => latest_snapshot(events.drop_last()),
            Collected::Snapshot(snapshot) => Some(snapshot),
        }
    }
}

/// Whatever the collectors hand over, the buffer keeps every line that came,
/// after those already pending and in arrival order, and of the snapshots
/// only the latest (the pending one if none came).
pub proof fn lemma_buffer_accumulates(b: BufferView, events: Seq<Collected>)
    ensures
        after_all(b, events).logs == b.logs + lines_of(events),
        after_all(b, events).metrics == (match latest_snapshot(events) {
            Some(s) => Some(s),
            None => b.metrics,
        }),
    decreases events.len(),
{
    if events.len() > 0 {
        lemma_buffer_accumulates(b, events.drop_last());
        match events.last() {
            Collected::Line(line) => {
                assert(b.logs + lines_of(events.drop_last()).push(line)
                    =~= (b.logs + lines_of(events.drop_last())).push(line));
            },
            Collected::Snapshot(_) => {},
        }
    } else {
        assert(b.logs + Seq::<LogLine>::empty() =~= b.logs);
    }
}

/// A drain of a buffer that started empty returns exactly the lines handed
/// over since, in arrival order, and the latest snapshot, or none if no
/// snapshot came; the buffer is empty afterwards.
pub proof fn lemma_drain_returns_batch(events: Seq<Collected>)
    ensures
        after_all(BufferView::empty(), events).logs == lines_of(events),
        after_all(BufferView::empty(), events).metrics == latest_snapshot(events),
        BufferView::empty().is_empty(),
{
    lemma_buffer_accumulates(BufferView::empty(), events);
    assert(Seq::<LogLine>::empty() + lines_of(events) =~= lines_of(events));
}

/// Lines of two consecutive batches, split by a drain, are together the
/// lines handed over, in order: no line is lost or shipped twice.
pub proof fn lemma_batches_partition_lines(first: Seq<Collected>, second: Seq<Collected>)
    ensures
        lines_of(first + second) == lines_of(first) + lines_of(second),
    decreases second.len(),
{
    if second.len() == 0 {
        assert(first + second =~= first);
        assert(lines_of(first) + lines_of(second) =~= lines_of(first));
    } else {
        lemma_batches_partition_lines(first, second.drop_last());
        assert((first + second).drop_last() =~= first + second.drop_last());
        assert((first + second).last() == second.last());
        match second.last() {
            Collected::Line(line) => {
                assert(lines_of(first) + lines_of(second.drop_last()).push(line)
                    =~= (lines_of(first) + lines_of(second.drop_last())).push(line));
            },
            Collected::Snapshot(_) => {},
        }
    }
}

} // verus!
